//! Expression parsing: atoms, application, binders, `fun`/`forall`/`let`/
//! `have`/`match`/`if`/`do`/`by`, and Pratt-style infix operators.
use vstd::prelude::*;

use crate::keyword::Keyword;
use crate::node_kind::SyntaxNodeKind;
use crate::parser::{is_command_keyword, moved, node_of_kind, step, Parser};
use crate::syntax::{AtomVal, Syntax};
use crate::text::{chars_of, str_eq, string_from_chars};
use crate::tokkind::clone_kind;
use crate::token::TokenKind;

verus! {

/// Whether a token of kind `k` begins a term in atom position.
pub open spec fn starts_atom(k: TokenKind) -> bool {
    match k {
        TokenKind::Ident(_) | TokenKind::NatLit(_) | TokenKind::StrLit(_) | TokenKind::CharLit(_)
        | TokenKind::ScientificLit(_) | TokenKind::LParen | TokenKind::LBracket
        | TokenKind::LBrace | TokenKind::LDblAngle | TokenKind::LAngle
        | TokenKind::InterpolBegin | TokenKind::Underscore | TokenKind::Question => true,
        TokenKind::Keyword(kw) => kw == Keyword::Sort || kw == Keyword::Type || kw == Keyword::Prop
            || kw == Keyword::True || kw == Keyword::False || kw == Keyword::Sorry || kw
            == Keyword::Pure,
        _ => false,
    }
}

/// The shape of the atom parsed from a leading token of kind `k`: an
/// identifier, a literal carrying the token's text, the node that the
/// bracket or keyword opens, or `Missing` where no term begins.
pub open spec fn atom_shape(k: TokenKind, r: Syntax) -> bool {
    match k {
        TokenKind::Ident(_) => r is Ident,
        TokenKind::NatLit(n) => r matches Syntax::Atom { val: AtomVal::NumLit(m), .. } && m@ == n@,
        TokenKind::StrLit(t) => r matches Syntax::Atom { val: AtomVal::StrLit(m), .. } && m@ == t@,
        TokenKind::CharLit(c) => r matches Syntax::Atom { val: AtomVal::CharLit(m), .. } && m@
            == seq![c],
        TokenKind::ScientificLit(t) => r matches Syntax::Atom {
            val: AtomVal::ScientificLit(m),
            ..
        } && m@ == t@,
        TokenKind::LParen => node_of_kind(r, SyntaxNodeKind::Paren) || node_of_kind(
            r,
            SyntaxNodeKind::Tuple,
        ),
        TokenKind::LBracket => node_of_kind(r, SyntaxNodeKind::Group),
        TokenKind::LBrace => node_of_kind(r, SyntaxNodeKind::StructInst),
        TokenKind::LDblAngle | TokenKind::LAngle => node_of_kind(r, SyntaxNodeKind::AnonymousCtor),
        TokenKind::InterpolBegin => node_of_kind(r, SyntaxNodeKind::Str),
        TokenKind::Underscore | TokenKind::Question => node_of_kind(r, SyntaxNodeKind::Hole),
        TokenKind::Keyword(kw) => if kw == Keyword::Sort {
            node_of_kind(r, SyntaxNodeKind::Sort)
        } else if kw == Keyword::Type {
            node_of_kind(r, SyntaxNodeKind::Type)
        } else if kw == Keyword::Prop || kw == Keyword::True || kw == Keyword::False {
            r matches Syntax::Atom { val: AtomVal::Keyword(_), .. }
        } else if kw == Keyword::Sorry {
            node_of_kind(r, SyntaxNodeKind::Sorry)
        } else if kw == Keyword::Pure {
            node_of_kind(r, SyntaxNodeKind::App)
        } else {
            r is Missing
        },
        _ => r is Missing,
    }
}

/// An owned copy of a string slice.
pub(crate) fn lit_string(s: &str) -> (r: String)
    ensures
        r@ == s@,
{
    string_from_chars(chars_of(s).as_slice())
}

/// A one-character string.
fn char_string(c: char) -> (r: String)
    ensures
        r@ == seq![c],
{
    let v = vec![c];
    string_from_chars(v.as_slice())
}

/// A token that starts a binder of a declaration signature.
pub open spec fn binder_start(k: TokenKind) -> bool {
    k is LParen || k is LBrace || k is LBracket || k is LDblAngle || k is Ident || k is Underscore
}

/// A piece of a binder list: a name or `_`, a bracketed binder, a typed
/// `fun` binder, or the alternatives of a `fun` by pattern matching.
pub open spec fn is_binder_piece(s: Syntax) -> bool {
    ||| s is Ident
    ||| s matches Syntax::Atom { val, .. } && val is Punct
    ||| node_of_kind(s, SyntaxNodeKind::ExplicitBinder)
    ||| node_of_kind(s, SyntaxNodeKind::ImplicitBinder)
    ||| node_of_kind(s, SyntaxNodeKind::InstBinder)
    ||| node_of_kind(s, SyntaxNodeKind::StrictImplicitBinder)
    ||| node_of_kind(s, SyntaxNodeKind::FunBinder)
    ||| node_of_kind(s, SyntaxNodeKind::MatchAlts)
}

impl<'a> Parser<'a> {
    pub(crate) fn parse_expr(&mut self) -> (r: Syntax)
        requires
            old(self).wf(),
        ensures
            step(*old(self), *final(self)),
            moved(*old(self), *final(self)),
        decreases old(self).tokens@.len() - old(self).pos, 8int,
    {
        self.parse_expr_max()
    }

    pub(crate) fn parse_expr_max(&mut self) -> (r: Syntax)
        requires
            old(self).wf(),
        ensures
            step(*old(self), *final(self)),
            moved(*old(self), *final(self)),
        decreases old(self).tokens@.len() - old(self).pos, 7int,
    {
        self.skip_newlines();
        let lhs = self.parse_unary();
        self.parse_infix(lhs, 0)
    }

    pub(crate) fn parse_expr_arg(&mut self) -> (r: Syntax)
        requires
            old(self).wf(),
        ensures
            step(*old(self), *final(self)),
            moved(*old(self), *final(self)),
        decreases old(self).tokens@.len() - old(self).pos, 4int,
    {
        self.skip_newlines();
        self.parse_atom()
    }

    /// An operator followed by its operand.
    fn parse_prefix_op(&mut self) -> (r: Syntax)
        requires
            old(self).wf(),
            old(self).pos < old(self).tokens@.len(),
        ensures
            crate::parser::node_of_kind(r, SyntaxNodeKind::UnaryOp),
            step(*old(self), *final(self)),
            moved(*old(self), *final(self)),
        decreases old(self).tokens@.len() - old(self).pos, 1int,
    {
        let tok = self.advance();
        let op_syn = self.mk_punct(&tok);
        let rhs = self.parse_unary();
        self.mk_node(SyntaxNodeKind::UnaryOp, vec![op_syn, rhs])
    }

    /// A prefix form chosen by its leading keyword or operator, or an
    /// application.
    fn parse_unary(&mut self) -> (r: Syntax)
        requires
            old(self).wf(),
        ensures
            step(*old(self), *final(self)),
            moved(*old(self), *final(self)),
            ({
                let k = old(self).lead_tok().kind;
                &&& (k == TokenKind::Keyword(Keyword::Fun) || k is Lambda) ==> node_of_kind(
                    r,
                    SyntaxNodeKind::Fun,
                )
                &&& (k == TokenKind::Keyword(Keyword::Forall) || k is Forall) ==> node_of_kind(
                    r,
                    SyntaxNodeKind::Forall,
                )
                &&& k == TokenKind::Keyword(Keyword::Let) ==> node_of_kind(r, SyntaxNodeKind::Let)
                    || node_of_kind(r, SyntaxNodeKind::LetRec)
                &&& k == TokenKind::Keyword(Keyword::Have) ==> node_of_kind(r, SyntaxNodeKind::Have)
                &&& k == TokenKind::Keyword(Keyword::Match) ==> node_of_kind(
                    r,
                    SyntaxNodeKind::Match,
                )
                &&& k == TokenKind::Keyword(Keyword::If) ==> node_of_kind(
                    r,
                    SyntaxNodeKind::IfThenElse,
                )
                &&& k == TokenKind::Keyword(Keyword::Do) ==> node_of_kind(r, SyntaxNodeKind::Do)
                &&& k == TokenKind::Keyword(Keyword::Return) ==> node_of_kind(
                    r,
                    SyntaxNodeKind::DoReturn,
                )
                &&& k == TokenKind::Keyword(Keyword::Show) ==> node_of_kind(r, SyntaxNodeKind::Show)
                &&& k == TokenKind::Keyword(Keyword::Suffices) ==> node_of_kind(
                    r,
                    SyntaxNodeKind::Suffices,
                )
                &&& k == TokenKind::Keyword(Keyword::Assume) ==> node_of_kind(
                    r,
                    SyntaxNodeKind::Have,
                )
                &&& k == TokenKind::Keyword(Keyword::Nomatch) ==> node_of_kind(
                    r,
                    SyntaxNodeKind::NoMatch,
                )
                &&& k == TokenKind::Keyword(Keyword::Nofun) ==> node_of_kind(
                    r,
                    SyntaxNodeKind::NoFun,
                )
                &&& k == TokenKind::Keyword(Keyword::By) ==> node_of_kind(
                    r,
                    SyntaxNodeKind::ByTactic,
                )
                &&& (k is Neg || k is Bang || k is Complement) ==> node_of_kind(
                    r,
                    SyntaxNodeKind::UnaryOp,
                )
            }),
        decreases old(self).tokens@.len() - old(self).pos, 6int,
    {
        self.skip_newlines();
        proof {
            self.lemma_peek_valid();
        }
        match self.peek_kind() {
            TokenKind::Keyword(Keyword::Fun) => self.parse_fun(),
            TokenKind::Lambda => self.parse_fun(),
            TokenKind::Keyword(Keyword::Forall) | TokenKind::Forall => self.parse_forall(),
            TokenKind::Keyword(Keyword::Let) => self.parse_let(),
            TokenKind::Keyword(Keyword::Have) => self.parse_have(),
            TokenKind::Keyword(Keyword::Match) => self.parse_match(),
            TokenKind::Keyword(Keyword::If) => self.parse_if(),
            TokenKind::Keyword(Keyword::Do) => self.parse_do(),
            TokenKind::Keyword(Keyword::Return) => self.parse_return(),
            TokenKind::Keyword(Keyword::Show) => self.parse_show(),
            TokenKind::Keyword(Keyword::Suffices) => self.parse_suffices(),
            TokenKind::Keyword(Keyword::Assume) => self.parse_assume(),
            TokenKind::Keyword(Keyword::Nomatch) => self.parse_nomatch(),
            TokenKind::Keyword(Keyword::Nofun) => self.parse_nofun(),
            TokenKind::Keyword(Keyword::By) => self.parse_by(),
            TokenKind::Neg => self.parse_prefix_op(),
            TokenKind::Bang => self.parse_prefix_op(),
            TokenKind::Complement => self.parse_prefix_op(),
            _ => self.parse_app(),
        }
    }

    fn parse_app(&mut self) -> (r: Syntax)
        requires
            old(self).wf(),
        ensures
            step(*old(self), *final(self)),
            moved(*old(self), *final(self)),
        decreases old(self).tokens@.len() - old(self).pos, 5int,
    {
        let atom = self.parse_atom();
        let mut func = self.parse_postfix(atom);
        loop
            invariant
                step(*old(self), *self),
                moved(*old(self), *self),
            decreases self.tokens@.len() - self.pos,
        {
            self.skip_newlines();
            if self.is_at_end() {
                break;
            }
            if self.at_app_arg_start() {
                proof {
                    self.lemma_peek_valid();
                }
                let arg = self.parse_app_arg();
                let node = self.mk_node(SyntaxNodeKind::App, vec![func, arg]);
                func = self.parse_postfix(node);
            } else {
                break;
            }
        }
        func
    }

    fn at_app_arg_start(&self) -> (b: bool)
        requires
            self.wf(),
        ensures
            b ==> !self.at_eof(),
    {
        match self.peek_kind() {
            TokenKind::Ident(_) | TokenKind::NatLit(_) | TokenKind::StrLit(_) | TokenKind::CharLit(_)
            | TokenKind::ScientificLit(_) | TokenKind::LParen | TokenKind::LBracket
            | TokenKind::LBrace | TokenKind::LDblAngle | TokenKind::At | TokenKind::Underscore
            | TokenKind::Keyword(Keyword::Sort) | TokenKind::Keyword(Keyword::Type)
            | TokenKind::Keyword(Keyword::Prop) | TokenKind::Keyword(Keyword::True)
            | TokenKind::Keyword(Keyword::False) | TokenKind::Keyword(Keyword::Sorry)
            | TokenKind::Question | TokenKind::Bang | TokenKind::InterpolBegin
            | TokenKind::LAngle => true,
            _ => false,
        }
    }

    fn parse_app_arg(&mut self) -> (r: Syntax)
        requires
            old(self).wf(),
        ensures
            step(*old(self), *final(self)),
            moved(*old(self), *final(self)),
        decreases old(self).tokens@.len() - old(self).pos, 4int,
    {
        if self.at_exact(&TokenKind::At) {
            let at_tok = self.advance();
            let at_syn = self.mk_punct(&at_tok);
            let atom = self.parse_atom();
            let arg = self.parse_postfix(atom);
            return self.mk_node(SyntaxNodeKind::Explicit, vec![at_syn, arg]);
        }
        let atom = self.parse_atom();
        self.parse_postfix(atom)
    }

    /// A keyword atom for the current token, which is consumed.
    fn take_keyword_atom(&mut self) -> (r: Syntax)
        requires
            old(self).wf(),
        ensures
            step(*old(self), *final(self)),
            moved(*old(self), *final(self)),
            r matches Syntax::Atom { val: AtomVal::Keyword(_), .. },
    {
        let tok = self.advance();
        self.mk_keyword_atom(&tok)
    }

    /// An identifier for the current token, which is consumed.
    fn take_ident(&mut self) -> (r: Syntax)
        requires
            old(self).wf(),
        ensures
            step(*old(self), *final(self)),
            moved(*old(self), *final(self)),
            r is Ident,
            r matches Syntax::Ident { val, raw_val, .. } && raw_val@ == old(self).span_text_spec(
                old(self).peek_tok().span,
            ) && val@ == crate::parser::dotted_name_limbs(raw_val@),
    {
        let tok = self.advance();
        self.mk_ident_from_token(&tok)
    }

    /// A punctuation atom for the current token, which is consumed.
    fn take_punct(&mut self) -> (r: Syntax)
        requires
            old(self).wf(),
        ensures
            step(*old(self), *final(self)),
            moved(*old(self), *final(self)),
            r matches Syntax::Atom { val, .. } && val is Punct,
    {
        let tok = self.advance();
        self.mk_punct(&tok)
    }

    /// `Sort u` / `Type u`: the keyword and an optional level.
    fn parse_sort_like(&mut self, kind: SyntaxNodeKind) -> (r: Syntax)
        requires
            old(self).wf(),
        ensures
            step(*old(self), *final(self)),
            moved(*old(self), *final(self)),
            crate::parser::node_of_kind(r, kind),
    {
        let kw = self.take_keyword_atom();
        self.skip_newlines();
        let lvl = if self.at_ident() || self.at_exact(&TokenKind::LParen) || match self.peek_kind() {
            TokenKind::NatLit(_) => true,
            _ => false,
        } {
            self.parse_level_expr()
        } else {
            self.mk_missing()
        };
        self.mk_node(kind, vec![kw, lvl])
    }

    pub(crate) fn parse_atom(&mut self) -> (r: Syntax)
        requires
            old(self).wf(),
        ensures
            step(*old(self), *final(self)),
            moved(*old(self), *final(self)),
            atom_shape(old(self).lead_tok().kind, r),
            old(self).lead_tok().kind is Ident ==> (r matches Syntax::Ident { val, raw_val, .. }
                && raw_val@ == old(self).span_text_spec(old(self).lead_tok().span) && val@
                == crate::parser::dotted_name_limbs(raw_val@)),
            !starts_atom(old(self).lead_tok().kind) ==> final(self).errors@.len() == old(
                self,
            ).errors@.len() + 1,
        decreases old(self).tokens@.len() - old(self).pos, 3int,
    {
        self.skip_newlines();
        proof {
            self.lemma_peek_valid();
        }
        match clone_kind(self.peek_kind()) {
            TokenKind::Ident(_) => self.take_ident(),
            TokenKind::NatLit(n) => {
                let tok = self.advance();
                self.mk_atom(&tok, AtomVal::NumLit(n))
            },
            TokenKind::StrLit(s) => {
                let tok = self.advance();
                self.mk_atom(&tok, AtomVal::StrLit(s))
            },
            TokenKind::CharLit(c) => {
                let tok = self.advance();
                self.mk_atom(&tok, AtomVal::CharLit(char_string(c)))
            },
            TokenKind::ScientificLit(s) => {
                let tok = self.advance();
                self.mk_atom(&tok, AtomVal::ScientificLit(s))
            },
            TokenKind::LParen => self.parse_paren_or_tuple(),
            TokenKind::LBracket => self.parse_list_literal(),
            TokenKind::LBrace => self.parse_brace_expr(),
            TokenKind::LDblAngle => self.parse_anonymous_ctor(),
            TokenKind::LAngle => self.parse_angle_ctor(),
            TokenKind::InterpolBegin => self.parse_interpolated_string(),
            TokenKind::Keyword(Keyword::Sort) => self.parse_sort_like(SyntaxNodeKind::Sort),
            TokenKind::Keyword(Keyword::Type) => self.parse_sort_like(SyntaxNodeKind::Type),
            TokenKind::Keyword(Keyword::Prop) => self.take_keyword_atom(),
            TokenKind::Keyword(Keyword::True) => self.take_keyword_atom(),
            TokenKind::Keyword(Keyword::False) => self.take_keyword_atom(),
            TokenKind::Keyword(Keyword::Sorry) => {
                let kw = self.take_keyword_atom();
                self.mk_node(SyntaxNodeKind::Sorry, vec![kw])
            },
            TokenKind::Underscore => {
                let syn = self.take_punct();
                self.mk_node(SyntaxNodeKind::Hole, vec![syn])
            },
            TokenKind::Question => {
                let syn = self.take_punct();
                self.mk_node(SyntaxNodeKind::Hole, vec![syn])
            },
            TokenKind::Keyword(Keyword::Pure) => {
                let kw = self.take_keyword_atom();
                self.skip_newlines();
                let arg = self.parse_atom();
                self.mk_node(SyntaxNodeKind::App, vec![kw, arg])
            },
            _ => {
                let mut out: Vec<char> = Vec::new();
                crate::text::push_all(&mut out, chars_of("expected expression, found ").as_slice());
                let d = crate::tokkind::kind_debug(self.peek_kind());
                crate::text::push_all(&mut out, chars_of(d.as_str()).as_slice());
                let msg = string_from_chars(out.as_slice());
                self.error(msg.as_str());
                self.advance();
                self.mk_missing()
            },
        }
    }

    fn parse_dot_notation(&mut self, lhs: Syntax) -> (r: Syntax)
        requires
            old(self).wf(),
        ensures
            step(*old(self), *final(self)),
            old(self).peek_tok().kind is Dot ==> old(self).pos < final(self).pos,
    {
        let mut result = lhs;
        while self.at_exact(&TokenKind::Dot)
            invariant
                step(*old(self), *self),
                old(self).peek_tok().kind is Dot ==> (old(self).pos < self.pos || self.pos == old(
                    self,
                ).pos),
                self.pos == old(self).pos ==> self.peek_tok() == old(self).peek_tok(),
            ensures
                step(*old(self), *self),
                old(self).peek_tok().kind is Dot ==> old(self).pos < self.pos,
            decreases self.tokens@.len() - self.pos,
        {
            proof {
                self.lemma_peek_valid();
            }
            let dot_syn = self.take_punct();
            self.skip_newlines();
            if self.at_ident() {
                let field_syn = self.take_ident();
                result = self.mk_node(SyntaxNodeKind::Projection, vec![result, dot_syn, field_syn]);
            } else if match self.peek_kind() {
                TokenKind::Keyword(_) => true,
                _ => false,
            } {
                let field_syn = self.take_keyword_atom();
                result = self.mk_node(SyntaxNodeKind::Projection, vec![result, dot_syn, field_syn]);
            } else if let TokenKind::NatLit(n) = clone_kind(self.peek_kind()) {
                let tok = self.advance();
                let num = self.mk_atom(&tok, AtomVal::NumLit(n));
                result = self.mk_node(SyntaxNodeKind::Projection, vec![result, dot_syn, num]);
            } else {
                let missing = self.mk_missing();
                result = self.mk_node(SyntaxNodeKind::DotNotation, vec![result, dot_syn, missing]);
                break;
            }
        }
        result
    }

    fn parse_postfix(&mut self, base: Syntax) -> (r: Syntax)
        requires
            old(self).wf(),
        ensures
            step(*old(self), *final(self)),
            !(old(self).peek_tok().kind is Dot) ==> r == base && *final(self) == *old(self),
            old(self).peek_tok().kind is Dot ==> final(self).pos > old(self).pos,
    {
        let ghost base0 = base;
        let mut base = base;
        loop
            invariant
                step(*old(self), *self),
                self.pos == old(self).pos ==> *self == *old(self) && base == base0,
                self.pos > old(self).pos ==> old(self).peek_tok().kind is Dot,
            ensures
                step(*old(self), *self),
                self.pos == old(self).pos ==> *self == *old(self) && base == base0,
                self.pos > old(self).pos ==> old(self).peek_tok().kind is Dot,
                !(self.peek_tok().kind is Dot),
            decreases self.tokens@.len() - self.pos,
        {
            if self.at_exact(&TokenKind::Dot) {
                proof {
                    self.lemma_peek_valid();
                }
                let next_is_brace = match self.peek_nth_non_newline(1).kind {
                    TokenKind::LBrace => true,
                    _ => false,
                };
                if next_is_brace {
                    base = self.parse_universe_inst(base);
                } else {
                    base = self.parse_dot_notation(base);
                }
                continue;
            }
            break;
        }
        base
    }

    /// `, ` separated list items after the first: the comma (just eaten) as a
    /// punctuation atom.
    fn prev_punct(&self) -> (r: Syntax)
        requires
            self.wf(),
            self.pos > 0,
        ensures
            r matches Syntax::Atom { info, val: AtomVal::Punct(t) } && info == self.mk_info_spec(
                self.tokens@[self.pos - 1].span,
            ) && t@ == self.span_text_spec(self.tokens@[self.pos - 1].span),
    {
        let comma = &self.tokens[self.pos - 1];
        proof {
            assert(self.valid_span(self.tokens@[self.pos - 1].span));
        }
        self.mk_punct(comma)
    }

    fn parse_universe_inst(&mut self, base: Syntax) -> (r: Syntax)
        requires
            old(self).wf(),
            old(self).pos < old(self).tokens@.len(),
        ensures
            step(*old(self), *final(self)),
            moved(*old(self), *final(self)),
    {
        let dot_syn = self.take_punct();
        let lb = self.expect(&TokenKind::LBrace);
        let lb_syn = self.mk_punct(&lb);
        let mut children = vec![base, dot_syn, lb_syn];
        self.skip_newlines();
        loop
            invariant
                step(*old(self), *self),
                moved(*old(self), *self),
            decreases self.tokens@.len() - self.pos,
        {
            if self.at_exact(&TokenKind::RBrace) || self.is_at_end() {
                break;
            }
            if self.at_ident() {
                children.push(self.take_ident());
            } else if match self.peek_kind() {
                TokenKind::Keyword(_) => true,
                _ => false,
            } {
                children.push(self.take_keyword_atom());
            } else {
                self.error("expected universe level name");
                break;
            }
            self.skip_newlines();
            if self.eat_exact(&TokenKind::Comma).is_some() {
                children.push(self.prev_punct());
                self.skip_newlines();
            } else {
                break;
            }
        }
        let rb = self.expect(&TokenKind::RBrace);
        children.push(self.mk_punct(&rb));
        self.mk_node(SyntaxNodeKind::DotNotation, children)
    }

    /// Comma-separated expressions up to `close` (the first already parsed
    /// when `first` is given).
    fn parse_comma_items(&mut self, children: &mut Vec<Syntax>, close: &TokenKind)
        requires
            old(self).wf(),
            old(self).pos > 0,
        ensures
            step(*old(self), *final(self)),
            old(children)@.is_prefix_of(final(children)@),
            !(old(self).peek_tok().kind is Comma) ==> final(children)@ == old(children)@
                && *final(self) == *old(self),
            old(self).peek_tok().kind is Comma ==> final(children)@.len() > old(children)@.len()
                && final(self).pos > old(self).pos,
        decreases old(self).tokens@.len() - old(self).pos, 0int,
    {
        while self.eat_exact(&TokenKind::Comma).is_some()
            invariant
                step(*old(self), *self),
                self.pos > 0,
                old(children)@.is_prefix_of(children@),
                self.pos == old(self).pos ==> children@ == old(children)@ && *self == *old(self),
                self.pos > old(self).pos ==> children@.len() > old(children)@.len()
                    && old(self).peek_tok().kind is Comma,
            ensures
                step(*old(self), *self),
                old(children)@.is_prefix_of(children@),
                self.pos == old(self).pos ==> children@ == old(children)@ && *self == *old(self),
                self.pos > old(self).pos ==> children@.len() > old(children)@.len(),
                old(self).peek_tok().kind is Comma ==> self.pos > old(self).pos,
            decreases self.tokens@.len() - self.pos,
        {
            children.push(self.prev_punct());
            self.skip_newlines();
            if self.at_exact(close) {
                break;
            }
            let e = self.parse_expr();
            children.push(e);
            self.skip_newlines();
        }
    }

    /// Parse an identifier, or record `msg` and produce `Missing`.
    pub(crate) fn parse_ident_or_missing(&mut self, msg: &str) -> (r: Syntax)
        requires
            old(self).wf(),
        ensures
            step(*old(self), *final(self)),
            (r is Ident) <==> (old(self).lead_tok().kind is Ident),
            !(r is Ident) ==> r is Missing && final(self).errors@.len() == old(self).errors@.len()
                + 1 && final(self).errors@.last().message@ == msg@,
    {
        self.skip_newlines();
        if self.at_ident() {
            self.take_ident()
        } else {
            self.error(msg);
            self.mk_missing()
        }
    }

    /// Parse an optional `: type` annotation.
    pub(crate) fn parse_opt_type_annot(&mut self) -> (r: Option<Syntax>)
        requires
            old(self).wf(),
        ensures
            step(*old(self), *final(self)),
            (r is Some) <==> (old(self).lead_tok().kind is Colon),
            r matches Some(t) ==> node_of_kind(t, SyntaxNodeKind::TypeAscription),
        decreases old(self).tokens@.len() - old(self).pos, 1int,
    {
        self.skip_newlines();
        if self.at_exact(&TokenKind::Colon) {
            proof {
                self.lemma_peek_valid();
            }
            let colon_syn = self.take_punct();
            self.skip_newlines();
            let ty = self.parse_expr();
            Some(self.mk_node(SyntaxNodeKind::TypeAscription, vec![colon_syn, ty]))
        } else {
            None
        }
    }

    /// A bracketed list of expressions separated by commas.
    fn parse_bracketed(&mut self, close: &TokenKind, kind: SyntaxNodeKind) -> (r: Syntax)
        requires
            old(self).wf(),
            old(self).pos < old(self).tokens@.len(),
        ensures
            crate::parser::node_of_kind(r, kind),
            step(*old(self), *final(self)),
            moved(*old(self), *final(self)),
        decreases old(self).tokens@.len() - old(self).pos, 1int,
    {
        let open = self.take_punct();
        let mut children = vec![open];
        self.skip_newlines();
        if !self.at_exact(close) {
            let e = self.parse_expr();
            children.push(e);
            self.skip_newlines();
            self.parse_comma_items(&mut children, close);
        }
        let c = self.expect(close);
        children.push(self.mk_punct(&c));
        self.mk_node(kind, children)
    }

    fn parse_paren_or_tuple(&mut self) -> (r: Syntax)
        requires
            old(self).wf(),
            old(self).pos < old(self).tokens@.len(),
        ensures
            crate::parser::node_of_kind(r, SyntaxNodeKind::Paren) || crate::parser::node_of_kind(
                r,
                SyntaxNodeKind::Tuple,
            ),
            step(*old(self), *final(self)),
            moved(*old(self), *final(self)),
        decreases old(self).tokens@.len() - old(self).pos, 1int,
    {
        let lp_syn = self.take_punct();
        self.skip_newlines();
        if self.at_exact(&TokenKind::RParen) {
            let rp_syn = self.take_punct();
            return self.mk_node(SyntaxNodeKind::Tuple, vec![lp_syn, rp_syn]);
        }
        let first = self.parse_expr();
        self.skip_newlines();
        if self.at_exact(&TokenKind::Comma) {
            let mut elems = vec![lp_syn, first];
            self.parse_comma_items(&mut elems, &TokenKind::RParen);
            let rp = self.expect(&TokenKind::RParen);
            elems.push(self.mk_punct(&rp));
            self.mk_node(SyntaxNodeKind::Tuple, elems)
        } else {
            let rp = self.expect(&TokenKind::RParen);
            let rp_syn = self.mk_punct(&rp);
            self.mk_node(SyntaxNodeKind::Paren, vec![lp_syn, first, rp_syn])
        }
    }

    fn parse_list_literal(&mut self) -> (r: Syntax)
        requires
            old(self).wf(),
            old(self).pos < old(self).tokens@.len(),
        ensures
            crate::parser::node_of_kind(r, SyntaxNodeKind::Group),
            step(*old(self), *final(self)),
            moved(*old(self), *final(self)),
        decreases old(self).tokens@.len() - old(self).pos, 2int,
    {
        self.parse_bracketed(&TokenKind::RBracket, SyntaxNodeKind::Group)
    }

    fn parse_brace_expr(&mut self) -> (r: Syntax)
        requires
            old(self).wf(),
            old(self).pos < old(self).tokens@.len(),
        ensures
            crate::parser::node_of_kind(r, SyntaxNodeKind::StructInst),
            step(*old(self), *final(self)),
            moved(*old(self), *final(self)),
        decreases old(self).tokens@.len() - old(self).pos, 1int,
    {
        let lb_syn = self.take_punct();
        self.skip_newlines();
        let first = self.parse_expr();
        self.skip_newlines();
        if self.at_keyword(Keyword::With) {
            let with_syn = self.take_keyword_atom();
            let mut children = vec![lb_syn, first, with_syn];
            self.skip_newlines();
            self.parse_struct_fields(&mut children);
            let rb = self.expect(&TokenKind::RBrace);
            children.push(self.mk_punct(&rb));
            return self.mk_node(SyntaxNodeKind::StructInst, children);
        }
        if self.at_exact(&TokenKind::ColonEq) {
            let mut children = vec![lb_syn];
            let assign_syn = self.take_punct();
            self.skip_newlines();
            let val = self.parse_expr();
            let field_node = self.mk_node(
                SyntaxNodeKind::StructInstField,
                vec![first, assign_syn, val],
            );
            children.push(field_node);
            self.skip_newlines();
            self.parse_struct_fields(&mut children);
            let rb = self.expect(&TokenKind::RBrace);
            children.push(self.mk_punct(&rb));
            return self.mk_node(SyntaxNodeKind::StructInst, children);
        }
        let rb = self.expect(&TokenKind::RBrace);
        let rb_syn = self.mk_punct(&rb);
        self.mk_node(SyntaxNodeKind::StructInst, vec![lb_syn, first, rb_syn])
    }

    fn parse_struct_fields(&mut self, children: &mut Vec<Syntax>)
        requires
            old(self).wf(),
            old(self).pos > 0,
        ensures
            step(*old(self), *final(self)),
            old(children)@.is_prefix_of(final(children)@),
            old(self).lead_tok().kind is Ident || old(self).lead_tok().kind is Comma
                ==> final(children)@.len() > old(children)@.len(),
            old(self).lead_tok().kind is RBrace || old(self).lead_tok().kind is Eof
                ==> final(children)@ == old(children)@,
        decreases old(self).tokens@.len() - old(self).pos, 0int,
    {
        loop
            invariant
                step(*old(self), *self),
                self.pos > 0,
                old(children)@.is_prefix_of(children@),
                children@.len() == old(children)@.len() ==> children@ == old(children)@
                    && self.lead_tok() == old(self).lead_tok(),
                children@.len() > old(children)@.len() ==> !(old(self).lead_tok().kind is RBrace
                    || old(self).lead_tok().kind is Eof),
            ensures
                step(*old(self), *self),
                old(children)@.is_prefix_of(children@),
                old(self).lead_tok().kind is Ident || old(self).lead_tok().kind is Comma
                    ==> children@.len() > old(children)@.len(),
                old(self).lead_tok().kind is RBrace || old(self).lead_tok().kind is Eof
                    ==> children@ == old(children)@,
            decreases self.tokens@.len() - self.pos,
        {
            self.skip_newlines();
            proof {
                self.lemma_lead_is_peek();
            }
            if self.at_exact(&TokenKind::RBrace) || self.is_at_end() {
                break;
            }
            proof {
                self.lemma_peek_valid();
            }
            let ghost before = self.pos;
            if self.eat_exact(&TokenKind::Comma).is_some() {
                children.push(self.prev_punct());
                self.skip_newlines();
            }
            if self.at_exact(&TokenKind::RBrace) || self.is_at_end() {
                break;
            }
            if self.at_ident() {
                proof {
                    self.lemma_peek_valid();
                }
                let name_syn = self.take_ident();
                self.skip_newlines();
                if self.at_exact(&TokenKind::ColonEq) {
                    let assign_syn = self.take_punct();
                    self.skip_newlines();
                    let val = self.parse_expr();
                    children.push(
                        self.mk_node(SyntaxNodeKind::StructInstField, vec![name_syn, assign_syn, val]),
                    );
                } else {
                    children.push(self.mk_node(SyntaxNodeKind::StructInstFieldAbbrev, vec![name_syn]));
                }
            } else {
                self.error("expected field name in struct instance");
                break;
            }
        }
    }

    fn parse_anonymous_ctor(&mut self) -> (r: Syntax)
        requires
            old(self).wf(),
            old(self).pos < old(self).tokens@.len(),
        ensures
            crate::parser::node_of_kind(r, SyntaxNodeKind::AnonymousCtor),
            step(*old(self), *final(self)),
            moved(*old(self), *final(self)),
        decreases old(self).tokens@.len() - old(self).pos, 2int,
    {
        self.parse_bracketed(&TokenKind::RDblAngle, SyntaxNodeKind::AnonymousCtor)
    }

    fn parse_angle_ctor(&mut self) -> (r: Syntax)
        requires
            old(self).wf(),
            old(self).pos < old(self).tokens@.len(),
        ensures
            crate::parser::node_of_kind(r, SyntaxNodeKind::AnonymousCtor),
            step(*old(self), *final(self)),
            moved(*old(self), *final(self)),
        decreases old(self).tokens@.len() - old(self).pos, 2int,
    {
        self.parse_bracketed(&TokenKind::RAngle, SyntaxNodeKind::AnonymousCtor)
    }

    fn parse_interpolated_string(&mut self) -> (r: Syntax)
        requires
            old(self).wf(),
            old(self).pos < old(self).tokens@.len(),
        ensures
            crate::parser::node_of_kind(r, SyntaxNodeKind::Str),
            step(*old(self), *final(self)),
            moved(*old(self), *final(self)),
        decreases old(self).tokens@.len() - old(self).pos, 1int,
    {
        let begin_syn = self.take_punct();
        let mut children = vec![begin_syn];
        loop
            invariant
                step(*old(self), *self),
                moved(*old(self), *self),
            decreases self.tokens@.len() - self.pos,
        {
            proof {
                self.lemma_peek_valid();
            }
            match clone_kind(self.peek_kind()) {
                TokenKind::InterpolEnd | TokenKind::Eof => break,
                TokenKind::StrLit(s) => {
                    let tok = self.advance();
                    children.push(self.mk_atom(&tok, AtomVal::StrLit(s)));
                },
                _ => {
                    let e = self.parse_expr();
                    children.push(e);
                    self.skip_newlines();
                },
            }
        }
        if let Some(end) = self.eat(&TokenKind::InterpolEnd) {
            children.push(self.mk_punct(&end));
        }
        self.mk_node(SyntaxNodeKind::Str, children)
    }

    fn parse_level_expr(&mut self) -> (r: Syntax)
        requires
            old(self).wf(),
        ensures
            step(*old(self), *final(self)),
            ({
                let k = old(self).lead_tok().kind;
                &&& (k is Ident || k is NatLit || k is LParen) ==> !(r is Missing) && final(self).pos
                    > old(self).pos
                &&& !(k is Ident || k is NatLit || k is LParen) ==> r is Missing
                    && final(self).errors@.len() == old(self).errors@.len() + 1
            }),
        decreases old(self).tokens@.len() - old(self).pos,
    {
        self.skip_newlines();
        proof {
            self.lemma_peek_valid();
        }
        let base = match clone_kind(self.peek_kind()) {
            TokenKind::Ident(_) => self.take_ident(),
            TokenKind::NatLit(n) => {
                let tok = self.advance();
                self.mk_atom(&tok, AtomVal::NumLit(n))
            },
            TokenKind::LParen => {
                let lp_syn = self.take_punct();
                let inner = self.parse_level_expr();
                let rp = self.expect(&TokenKind::RParen);
                let rp_syn = self.mk_punct(&rp);
                self.mk_node(SyntaxNodeKind::LevelExpr, vec![lp_syn, inner, rp_syn])
            },
            _ => {
                self.error("expected level expression");
                return self.mk_missing();
            },
        };
        if self.at_exact(&TokenKind::Plus) {
            proof {
                self.lemma_peek_valid();
            }
            let plus_syn = self.take_punct();
            let rhs = self.parse_level_expr();
            self.mk_node(SyntaxNodeKind::LevelExpr, vec![base, plus_syn, rhs])
        } else {
            base
        }
    }

    fn parse_fun(&mut self) -> (r: Syntax)
        requires
            old(self).wf(),
            old(self).pos < old(self).tokens@.len(),
        ensures
            crate::parser::node_of_kind(r, SyntaxNodeKind::Fun),
            step(*old(self), *final(self)),
            moved(*old(self), *final(self)),
        decreases old(self).tokens@.len() - old(self).pos, 1int,
    {
        let kw_syn = self.take_keyword_atom();
        let mut children = vec![kw_syn];
        self.skip_newlines();
        let mut binders = self.parse_fun_binders();
        children.append(&mut binders);
        self.skip_newlines();
        let arrow = self.expect(&TokenKind::FatArrow);
        children.push(self.mk_punct(&arrow));
        self.skip_newlines();
        let body = self.parse_expr();
        children.push(body);
        self.mk_node(SyntaxNodeKind::Fun, children)
    }

    /// An identifier or `_` for the current token, which is consumed.
    fn take_name_or_hole(&mut self) -> (r: Syntax)
        requires
            old(self).wf(),
        ensures
            step(*old(self), *final(self)),
            moved(*old(self), *final(self)),
            r is Ident || (r matches Syntax::Atom { val, .. } && val is Punct),
    {
        let tok = self.advance();
        match tok.kind {
            TokenKind::Underscore => self.mk_punct(&tok),
            _ => self.mk_ident_from_token(&tok),
        }
    }

    fn parse_fun_binders(&mut self) -> (r: Vec<Syntax>)
        requires
            old(self).wf(),
        ensures
            step(*old(self), *final(self)),
            forall|i: int| 0 <= i < r@.len() ==> is_binder_piece(#[trigger] r@[i]),
            binder_start(old(self).lead_tok().kind) || old(self).lead_tok().kind is Pipe
                ==> r@.len() > 0,
        decreases old(self).tokens@.len() - old(self).pos, 3int,
    {
        let mut binders: Vec<Syntax> = Vec::new();
        loop
            invariant
                step(*old(self), *self),
                forall|i: int| 0 <= i < binders@.len() ==> is_binder_piece(#[trigger] binders@[i]),
                binders@.len() == 0 ==> self.lead_tok() == old(self).lead_tok(),
            ensures
                step(*old(self), *self),
                forall|i: int| 0 <= i < binders@.len() ==> is_binder_piece(#[trigger] binders@[i]),
                binders@.len() == 0 ==> !binder_start(old(self).lead_tok().kind)
                    && self.peek_tok() == old(self).lead_tok(),
            decreases self.tokens@.len() - self.pos,
        {
            self.skip_newlines();
            proof {
                self.lemma_peek_valid();
                self.lemma_lead_is_peek();
            }
            match self.peek_kind() {
                TokenKind::FatArrow | TokenKind::Eof => break,
                TokenKind::Ident(_) | TokenKind::Underscore => {
                    let syn = self.take_name_or_hole();
                    if self.at_exact(&TokenKind::Colon) {
                        proof {
                            self.lemma_peek_valid();
                        }
                        let colon_syn = self.take_punct();
                        self.skip_newlines();
                        let ty = self.parse_expr();
                        binders.push(self.mk_node(SyntaxNodeKind::FunBinder, vec![syn, colon_syn, ty]));
                    } else {
                        binders.push(syn);
                    }
                },
                TokenKind::LParen => {
                    let b = self.parse_explicit_binder();
                    binders.push(b);
                },
                TokenKind::LBrace => {
                    let b = self.parse_implicit_binder();
                    binders.push(b);
                },
                TokenKind::LBracket => {
                    let b = self.parse_inst_binder();
                    binders.push(b);
                },
                TokenKind::LDblAngle => {
                    let b = self.parse_strict_implicit_binder();
                    binders.push(b);
                },
                _ => break,
            }
        }
        if self.at_exact(&TokenKind::Pipe) {
            let alts = self.parse_match_alts();
            binders.push(alts);
        }
        binders
    }

    fn parse_forall(&mut self) -> (r: Syntax)
        requires
            old(self).wf(),
            old(self).pos < old(self).tokens@.len(),
        ensures
            crate::parser::node_of_kind(r, SyntaxNodeKind::Forall),
            step(*old(self), *final(self)),
            moved(*old(self), *final(self)),
        decreases old(self).tokens@.len() - old(self).pos, 1int,
    {
        let kw_syn = self.take_keyword_atom();
        let mut children = vec![kw_syn];
        self.skip_newlines();
        let mut binders = self.parse_binders();
        children.append(&mut binders);
        self.skip_newlines();
        let comma = self.expect(&TokenKind::Comma);
        children.push(self.mk_punct(&comma));
        self.skip_newlines();
        let body = self.parse_expr();
        children.push(body);
        self.mk_node(SyntaxNodeKind::Forall, children)
    }

    /// An optional body: an expression unless at the end or at a command.
    fn parse_opt_body(&mut self) -> (r: Option<Syntax>)
        requires
            old(self).wf(),
        ensures
            step(*old(self), *final(self)),
        decreases old(self).tokens@.len() - old(self).pos, 9int,
    {
        if !self.is_at_end() && !self.at_command_start() {
            Some(self.parse_expr())
        } else {
            None
        }
    }

    fn parse_let(&mut self) -> (r: Syntax)
        requires
            old(self).wf(),
            old(self).pos < old(self).tokens@.len(),
        ensures
            crate::parser::node_of_kind(r, SyntaxNodeKind::Let) || crate::parser::node_of_kind(
                r,
                SyntaxNodeKind::LetRec,
            ),
            step(*old(self), *final(self)),
            moved(*old(self), *final(self)),
        decreases old(self).tokens@.len() - old(self).pos, 1int,
    {
        let kw_syn = self.take_keyword_atom();
        self.skip_newlines();
        let rec_word = lit_string("rec");
        if self.at_keyword(Keyword::Mutual) || (self.at_ident() && self.at_exact(
            &TokenKind::Ident(rec_word),
        )) {
            proof {
                self.lemma_peek_valid();
            }
            return self.parse_let_rec(kw_syn);
        }
        let mut children = vec![kw_syn];
        let name = self.parse_ident_or_missing("expected name after `let`");
        let mut decl_children = vec![name];
        self.skip_newlines();
        while self.at_binder_start() || self.at_ident() || self.at_exact(&TokenKind::Underscore)
            invariant
                step(*old(self), *self),
                moved(*old(self), *self),
            decreases self.tokens@.len() - self.pos,
        {
            proof {
                self.lemma_peek_valid();
            }
            if self.at_binder_start() {
                let b = self.parse_single_binder();
                decl_children.push(b);
            } else {
                decl_children.push(self.take_name_or_hole());
            }
            self.skip_newlines();
        }
        if let Some(ty) = self.parse_opt_type_annot() {
            decl_children.push(ty);
        }
        self.skip_newlines();
        let assign = self.expect(&TokenKind::ColonEq);
        decl_children.push(self.mk_punct(&assign));
        self.skip_newlines();
        let val = self.parse_expr();
        decl_children.push(val);
        children.push(self.mk_node(SyntaxNodeKind::LetIdDecl, decl_children));
        self.skip_newlines();
        self.eat_exact(&TokenKind::Semicolon);
        self.skip_newlines();
        if let Some(body) = self.parse_opt_body() {
            children.push(body);
        }
        self.mk_node(SyntaxNodeKind::Let, children)
    }

    fn parse_let_rec(&mut self, let_kw: Syntax) -> (r: Syntax)
        requires
            old(self).wf(),
            old(self).pos < old(self).tokens@.len(),
        ensures
            crate::parser::node_of_kind(r, SyntaxNodeKind::LetRec),
            step(*old(self), *final(self)),
            moved(*old(self), *final(self)),
        decreases old(self).tokens@.len() - old(self).pos, 1int,
    {
        let rec_syn = self.take_keyword_atom();
        let mut children = vec![let_kw, rec_syn];
        self.skip_newlines();
        let binding = self.parse_let_rec_binding();
        children.push(binding);
        self.skip_newlines();
        self.eat_exact(&TokenKind::Semicolon);
        self.skip_newlines();
        if let Some(body) = self.parse_opt_body() {
            children.push(body);
        }
        self.mk_node(SyntaxNodeKind::LetRec, children)
    }

    fn parse_let_rec_binding(&mut self) -> (r: Syntax)
        requires
            old(self).wf(),
        ensures
            crate::parser::node_of_kind(r, SyntaxNodeKind::LetIdDecl),
            step(*old(self), *final(self)),
            moved(*old(self), *final(self)),
        decreases old(self).tokens@.len() - old(self).pos, 9int,
    {
        let name = self.parse_ident_or_missing("expected name in let rec binding");
        let mut children = vec![name];
        self.skip_newlines();
        while self.at_binder_start()
            invariant
                step(*old(self), *self),
            decreases self.tokens@.len() - self.pos,
        {
            proof {
                self.lemma_peek_valid();
            }
            let b = self.parse_single_binder();
            children.push(b);
            self.skip_newlines();
        }
        if let Some(ty) = self.parse_opt_type_annot() {
            children.push(ty);
        }
        self.skip_newlines();
        let assign = self.expect(&TokenKind::ColonEq);
        children.push(self.mk_punct(&assign));
        self.skip_newlines();
        let val = self.parse_expr();
        children.push(val);
        self.mk_node(SyntaxNodeKind::LetIdDecl, children)
    }

    fn parse_have(&mut self) -> (r: Syntax)
        requires
            old(self).wf(),
            old(self).pos < old(self).tokens@.len(),
        ensures
            crate::parser::node_of_kind(r, SyntaxNodeKind::Have),
            step(*old(self), *final(self)),
            moved(*old(self), *final(self)),
        decreases old(self).tokens@.len() - old(self).pos, 1int,
    {
        let kw_syn = self.take_keyword_atom();
        let mut children = vec![kw_syn];
        self.skip_newlines();
        let mut decl_children: Vec<Syntax> = Vec::new();
        if self.at_ident() {
            let named = match self.peek_nth_non_newline(1).kind {
                TokenKind::Colon | TokenKind::ColonEq => true,
                _ => false,
            };
            if named {
                decl_children.push(self.take_ident());
                self.skip_newlines();
            }
        }
        if let Some(ty) = self.parse_opt_type_annot() {
            decl_children.push(ty);
        }
        self.skip_newlines();
        if self.at_exact(&TokenKind::ColonEq) {
            proof {
                self.lemma_peek_valid();
            }
            decl_children.push(self.take_punct());
            self.skip_newlines();
            let val = self.parse_expr();
            decl_children.push(val);
        } else if self.at_keyword(Keyword::By) {
            proof {
                self.lemma_peek_valid();
            }
            let by_expr = self.parse_by();
            decl_children.push(by_expr);
        }
        children.push(self.mk_node(SyntaxNodeKind::HaveIdDecl, decl_children));
        self.skip_newlines();
        self.eat_exact(&TokenKind::Semicolon);
        self.skip_newlines();
        if let Some(body) = self.parse_opt_body() {
            children.push(body);
        }
        self.mk_node(SyntaxNodeKind::Have, children)
    }

    fn parse_assume(&mut self) -> (r: Syntax)
        requires
            old(self).wf(),
            old(self).pos < old(self).tokens@.len(),
        ensures
            crate::parser::node_of_kind(r, SyntaxNodeKind::Have),
            step(*old(self), *final(self)),
            moved(*old(self), *final(self)),
        decreases old(self).tokens@.len() - old(self).pos, 1int,
    {
        let kw_syn = self.take_keyword_atom();
        self.skip_newlines();
        let name = self.parse_ident_or_missing("expected name after `assume`");
        self.skip_newlines();
        let ty = match self.parse_opt_type_annot() {
            Some(ty) => ty,
            None => self.mk_missing(),
        };
        self.skip_newlines();
        self.eat_exact(&TokenKind::Semicolon);
        self.skip_newlines();
        let body = match self.parse_opt_body() {
            Some(b) => b,
            None => self.mk_missing(),
        };
        self.mk_node(SyntaxNodeKind::Have, vec![kw_syn, name, ty, body])
    }

    /// A keyword followed by one expression.
    fn parse_keyword_expr(&mut self, kind: SyntaxNodeKind) -> (r: Syntax)
        requires
            old(self).wf(),
            old(self).pos < old(self).tokens@.len(),
        ensures
            crate::parser::node_of_kind(r, kind),
            step(*old(self), *final(self)),
            moved(*old(self), *final(self)),
        decreases old(self).tokens@.len() - old(self).pos, 1int,
    {
        let kw_syn = self.take_keyword_atom();
        self.skip_newlines();
        let expr = self.parse_expr();
        self.mk_node(kind, vec![kw_syn, expr])
    }

    fn parse_show(&mut self) -> (r: Syntax)
        requires
            old(self).wf(),
            old(self).pos < old(self).tokens@.len(),
        ensures
            crate::parser::node_of_kind(r, SyntaxNodeKind::Show),
            step(*old(self), *final(self)),
            moved(*old(self), *final(self)),
        decreases old(self).tokens@.len() - old(self).pos, 2int,
    {
        self.parse_keyword_expr(SyntaxNodeKind::Show)
    }

    fn parse_suffices(&mut self) -> (r: Syntax)
        requires
            old(self).wf(),
            old(self).pos < old(self).tokens@.len(),
        ensures
            crate::parser::node_of_kind(r, SyntaxNodeKind::Suffices),
            step(*old(self), *final(self)),
            moved(*old(self), *final(self)),
        decreases old(self).tokens@.len() - old(self).pos, 2int,
    {
        self.parse_keyword_expr(SyntaxNodeKind::Suffices)
    }

    fn parse_return(&mut self) -> (r: Syntax)
        requires
            old(self).wf(),
            old(self).pos < old(self).tokens@.len(),
        ensures
            crate::parser::node_of_kind(r, SyntaxNodeKind::DoReturn),
            step(*old(self), *final(self)),
            moved(*old(self), *final(self)),
        decreases old(self).tokens@.len() - old(self).pos, 1int,
    {
        let kw_syn = self.take_keyword_atom();
        self.skip_newlines();
        if self.is_at_end() || self.at_command_start() {
            return self.mk_node(SyntaxNodeKind::DoReturn, vec![kw_syn]);
        }
        let expr = self.parse_expr();
        self.mk_node(SyntaxNodeKind::DoReturn, vec![kw_syn, expr])
    }

    fn parse_nomatch(&mut self) -> (r: Syntax)
        requires
            old(self).wf(),
        ensures
            crate::parser::node_of_kind(r, SyntaxNodeKind::NoMatch),
            step(*old(self), *final(self)),
            moved(*old(self), *final(self)),
    {
        let kw_syn = self.take_keyword_atom();
        self.mk_node(SyntaxNodeKind::NoMatch, vec![kw_syn])
    }

    fn parse_nofun(&mut self) -> (r: Syntax)
        requires
            old(self).wf(),
        ensures
            crate::parser::node_of_kind(r, SyntaxNodeKind::NoFun),
            step(*old(self), *final(self)),
            moved(*old(self), *final(self)),
    {
        let kw_syn = self.take_keyword_atom();
        self.mk_node(SyntaxNodeKind::NoFun, vec![kw_syn])
    }

    fn parse_match(&mut self) -> (r: Syntax)
        requires
            old(self).wf(),
            old(self).pos < old(self).tokens@.len(),
        ensures
            crate::parser::node_of_kind(r, SyntaxNodeKind::Match),
            step(*old(self), *final(self)),
            moved(*old(self), *final(self)),
        decreases old(self).tokens@.len() - old(self).pos, 1int,
    {
        let kw_syn = self.take_keyword_atom();
        let mut children = vec![kw_syn];
        self.skip_newlines();
        while self.at_exact(&TokenKind::LParen)
            invariant
                step(*old(self), *self),
                moved(*old(self), *self),
            decreases self.tokens@.len() - self.pos,
        {
            let is_option = match &self.peek_nth_non_newline(1).kind {
                TokenKind::Ident(s) => str_eq(s.as_str(), "generalizing") || str_eq(
                    s.as_str(),
                    "motive",
                ),
                _ => false,
            };
            if is_option {
                proof {
                    self.lemma_peek_valid();
                }
                let group = self.parse_match_option();
                children.push(group);
                self.skip_newlines();
            } else {
                break;
            }
        }
        let discr = self.parse_expr();
        let mut discrs = vec![discr];
        while self.eat_exact(&TokenKind::Comma).is_some()
            invariant
                step(*old(self), *self),
                moved(*old(self), *self),
                self.pos > 0,
            decreases self.tokens@.len() - self.pos,
        {
            discrs.push(self.prev_punct());
            self.skip_newlines();
            let e = self.parse_expr();
            discrs.push(e);
            self.skip_newlines();
        }
        children.push(self.mk_node(SyntaxNodeKind::MatchDiscr, discrs));
        self.skip_newlines();
        if let Some(ty) = self.parse_opt_type_annot() {
            children.push(ty);
        }
        self.skip_newlines();
        let with = self.expect_keyword(Keyword::With);
        children.push(self.mk_keyword_atom(&with));
        self.skip_newlines();
        let alts = self.parse_match_alts();
        children.push(alts);
        self.mk_node(SyntaxNodeKind::Match, children)
    }

    fn parse_match_option(&mut self) -> (r: Syntax)
        requires
            old(self).wf(),
            old(self).pos < old(self).tokens@.len(),
        ensures
            step(*old(self), *final(self)),
            moved(*old(self), *final(self)),
        decreases old(self).tokens@.len() - old(self).pos, 1int,
    {
        let lp_syn = self.take_punct();
        let mut children = vec![lp_syn];
        children.push(self.take_ident());
        self.skip_newlines();
        let assign = self.expect(&TokenKind::ColonEq);
        children.push(self.mk_punct(&assign));
        self.skip_newlines();
        let val = self.parse_expr();
        children.push(val);
        let rp = self.expect(&TokenKind::RParen);
        children.push(self.mk_punct(&rp));
        self.mk_node(SyntaxNodeKind::Group, children)
    }

    pub(crate) fn parse_match_alts(&mut self) -> (r: Syntax)
        requires
            old(self).wf(),
        ensures
            crate::parser::node_of_kind(r, SyntaxNodeKind::MatchAlts),
            step(*old(self), *final(self)),
        decreases old(self).tokens@.len() - old(self).pos, 2int,
    {
        let mut alts: Vec<Syntax> = Vec::new();
        while self.at_exact(&TokenKind::Pipe)
            invariant
                step(*old(self), *self),
            decreases self.tokens@.len() - self.pos,
        {
            proof {
                self.lemma_peek_valid();
            }
            let alt = self.parse_match_alt();
            alts.push(alt);
            self.skip_newlines();
        }
        self.mk_node(SyntaxNodeKind::MatchAlts, alts)
    }

    fn parse_match_alt(&mut self) -> (r: Syntax)
        requires
            old(self).wf(),
            old(self).pos < old(self).tokens@.len(),
        ensures
            crate::parser::node_of_kind(r, SyntaxNodeKind::MatchAlt),
            step(*old(self), *final(self)),
            moved(*old(self), *final(self)),
        decreases old(self).tokens@.len() - old(self).pos, 1int,
    {
        let pipe_syn = self.take_punct();
        let mut children = vec![pipe_syn];
        self.skip_newlines();
        let first = self.parse_expr();
        children.push(first);
        self.skip_newlines();
        while self.eat_exact(&TokenKind::Comma).is_some()
            invariant
                step(*old(self), *self),
                moved(*old(self), *self),
                self.pos > 0,
            decreases self.tokens@.len() - self.pos,
        {
            children.push(self.prev_punct());
            self.skip_newlines();
            let e = self.parse_expr();
            children.push(e);
            self.skip_newlines();
        }
        let arrow = self.expect(&TokenKind::FatArrow);
        children.push(self.mk_punct(&arrow));
        self.skip_newlines();
        let body = self.parse_expr();
        children.push(body);
        self.mk_node(SyntaxNodeKind::MatchAlt, children)
    }

    fn parse_if(&mut self) -> (r: Syntax)
        requires
            old(self).wf(),
            old(self).pos < old(self).tokens@.len(),
        ensures
            crate::parser::node_of_kind(r, SyntaxNodeKind::IfThenElse),
            step(*old(self), *final(self)),
            moved(*old(self), *final(self)),
        decreases old(self).tokens@.len() - old(self).pos, 1int,
    {
        let kw_syn = self.take_keyword_atom();
        let mut children = vec![kw_syn];
        self.skip_newlines();
        if self.at_keyword(Keyword::Let) {
            children.push(self.take_keyword_atom());
            self.skip_newlines();
        }
        let cond = self.parse_expr();
        children.push(cond);
        self.skip_newlines();
        let then_kw = self.expect_keyword(Keyword::Then);
        children.push(self.mk_keyword_atom(&then_kw));
        self.skip_newlines();
        let then_body = self.parse_expr();
        children.push(then_body);
        self.skip_newlines();
        let else_kw = self.expect_keyword(Keyword::Else);
        children.push(self.mk_keyword_atom(&else_kw));
        self.skip_newlines();
        let else_body = self.parse_expr();
        children.push(else_body);
        self.mk_node(SyntaxNodeKind::IfThenElse, children)
    }

    fn parse_do(&mut self) -> (r: Syntax)
        requires
            old(self).wf(),
            old(self).pos < old(self).tokens@.len(),
        ensures
            crate::parser::node_of_kind(r, SyntaxNodeKind::Do),
            step(*old(self), *final(self)),
            moved(*old(self), *final(self)),
        decreases old(self).tokens@.len() - old(self).pos, 1int,
    {
        let kw_syn = self.take_keyword_atom();
        let mut children = vec![kw_syn];
        self.skip_newlines();
        let ghost stack = self.indent_stack@;
        self.push_indent();
        let items = self.parse_do_seq();
        children.push(items);
        self.pop_indent();
        proof {
            assert(self.indent_stack@ =~= stack);
        }
        self.mk_node(SyntaxNodeKind::Do, children)
    }

    fn parse_do_seq(&mut self) -> (r: Syntax)
        requires
            old(self).wf(),
        ensures
            crate::parser::node_of_kind(r, SyntaxNodeKind::DoSeq),
            step(*old(self), *final(self)),
        decreases old(self).tokens@.len() - old(self).pos, 10int,
    {
        let mut items: Vec<Syntax> = Vec::new();
        let base_col = self.current_column();
        loop
            invariant
                step(*old(self), *self),
            decreases self.tokens@.len() - self.pos,
        {
            self.skip_newlines();
            if self.is_at_end() {
                break;
            }
            let col = self.current_column();
            if col < base_col {
                break;
            }
            if self.at_command_start() && col <= base_col {
                break;
            }
            proof {
                self.lemma_peek_valid();
            }
            let saved = self.pos;
            let item = self.parse_do_item();
            items.push(item);
            if self.pos == saved {
                self.advance();
            }
            self.skip_newlines();
            while self.eat_exact(&TokenKind::Semicolon).is_some()
                invariant
                    step(*old(self), *self),
                    saved < self.pos,
                decreases self.tokens@.len() - self.pos,
            {
                self.skip_newlines();
            }
        }
        self.mk_node(SyntaxNodeKind::DoSeq, items)
    }

    fn parse_do_item(&mut self) -> (r: Syntax)
        requires
            old(self).wf(),
        ensures
            step(*old(self), *final(self)),
            moved(*old(self), *final(self)),
        decreases old(self).tokens@.len() - old(self).pos, 9int,
    {
        proof {
            self.lemma_peek_valid();
        }
        if self.at_keyword(Keyword::Let) {
            let let_expr = self.parse_let();
            return self.mk_node(SyntaxNodeKind::DoLet, vec![let_expr]);
        }
        if self.at_keyword(Keyword::Return) {
            return self.parse_return();
        }
        if self.at_keyword(Keyword::For) {
            return self.parse_do_for();
        }
        if self.at_keyword(Keyword::Unless) {
            return self.parse_do_unless();
        }
        if self.at_keyword(Keyword::If) {
            let if_expr = self.parse_if();
            return self.mk_node(SyntaxNodeKind::DoExpr, vec![if_expr]);
        }
        if self.at_keyword(Keyword::Match) {
            let match_expr = self.parse_match();
            return self.mk_node(SyntaxNodeKind::DoExpr, vec![match_expr]);
        }
        let expr = self.parse_expr();
        self.skip_newlines();
        if self.at_exact(&TokenKind::LArrow) {
            proof {
                self.lemma_peek_valid();
            }
            let arrow_syn = self.take_punct();
            self.skip_newlines();
            let rhs = self.parse_expr();
            return self.mk_node(SyntaxNodeKind::DoReassign, vec![expr, arrow_syn, rhs]);
        }
        self.mk_node(SyntaxNodeKind::DoExpr, vec![expr])
    }

    fn parse_do_for(&mut self) -> (r: Syntax)
        requires
            old(self).wf(),
            old(self).pos < old(self).tokens@.len(),
        ensures
            crate::parser::node_of_kind(r, SyntaxNodeKind::DoFor),
            step(*old(self), *final(self)),
            moved(*old(self), *final(self)),
        decreases old(self).tokens@.len() - old(self).pos, 1int,
    {
        let kw_syn = self.take_keyword_atom();
        self.skip_newlines();
        let pat = self.parse_expr();
        self.skip_newlines();
        let in_kw = self.expect_keyword(Keyword::In);
        let in_syn = self.mk_keyword_atom(&in_kw);
        self.skip_newlines();
        let iter = self.parse_expr();
        self.skip_newlines();
        let do_kw = self.expect_keyword(Keyword::Do);
        let do_syn = self.mk_keyword_atom(&do_kw);
        self.skip_newlines();
        let body = self.parse_expr();
        self.mk_node(SyntaxNodeKind::DoFor, vec![kw_syn, pat, in_syn, iter, do_syn, body])
    }

    fn parse_do_unless(&mut self) -> (r: Syntax)
        requires
            old(self).wf(),
            old(self).pos < old(self).tokens@.len(),
        ensures
            crate::parser::node_of_kind(r, SyntaxNodeKind::DoUnless),
            step(*old(self), *final(self)),
            moved(*old(self), *final(self)),
        decreases old(self).tokens@.len() - old(self).pos, 1int,
    {
        let kw_syn = self.take_keyword_atom();
        self.skip_newlines();
        let cond = self.parse_expr();
        self.skip_newlines();
        let do_kw = self.expect_keyword(Keyword::Do);
        let do_syn = self.mk_keyword_atom(&do_kw);
        self.skip_newlines();
        let body = self.parse_expr();
        self.mk_node(SyntaxNodeKind::DoUnless, vec![kw_syn, cond, do_syn, body])
    }

    fn parse_by(&mut self) -> (r: Syntax)
        requires
            old(self).wf(),
            old(self).pos < old(self).tokens@.len(),
        ensures
            crate::parser::node_of_kind(r, SyntaxNodeKind::ByTactic),
            step(*old(self), *final(self)),
            moved(*old(self), *final(self)),
        decreases old(self).tokens@.len() - old(self).pos, 1int,
    {
        let kw_syn = self.take_keyword_atom();
        let mut children = vec![kw_syn];
        self.skip_newlines();
        let ghost stack = self.indent_stack@;
        self.push_indent();
        let tactics = self.parse_tactic_seq();
        children.push(tactics);
        self.pop_indent();
        proof {
            assert(self.indent_stack@ =~= stack);
        }
        self.mk_node(SyntaxNodeKind::ByTactic, children)
    }

    pub(crate) fn parse_tactic_seq(&mut self) -> (r: Syntax)
        requires
            old(self).wf(),
        ensures
            crate::parser::node_of_kind(r, SyntaxNodeKind::TacticSeq),
            step(*old(self), *final(self)),
        decreases old(self).tokens@.len() - old(self).pos, 10int,
    {
        let mut tactics: Vec<Syntax> = Vec::new();
        let base_col = self.current_column();
        loop
            invariant
                step(*old(self), *self),
            decreases self.tokens@.len() - self.pos,
        {
            self.skip_newlines();
            if self.is_at_end() {
                break;
            }
            let col = self.current_column();
            if col < base_col {
                break;
            }
            proof {
                self.lemma_peek_valid();
            }
            let saved = self.pos;
            let tac = self.parse_tactic();
            tactics.push(tac);
            if self.pos == saved {
                self.advance();
            }
            self.skip_newlines();
            if self.eat_exact(&TokenKind::Semicolon).is_some() {
                tactics.push(self.prev_punct());
            }
        }
        self.mk_node(SyntaxNodeKind::TacticSeq, tactics)
    }

    fn parse_tactic(&mut self) -> (r: Syntax)
        requires
            old(self).wf(),
        ensures
            step(*old(self), *final(self)),
            moved(*old(self), *final(self)),
        decreases old(self).tokens@.len() - old(self).pos, 9int,
    {
        let base_col = self.current_column();
        let mut children: Vec<Syntax> = Vec::new();
        let first = self.parse_expr();
        children.push(first);
        self.skip_newlines();
        loop
            invariant
                step(*old(self), *self),
                moved(*old(self), *self),
                children@.len() >= 1,
            decreases self.tokens@.len() - self.pos,
        {
            if self.is_at_end() {
                break;
            }
            let col = self.current_column();
            if col <= base_col {
                break;
            }
            proof {
                self.lemma_peek_valid();
            }
            let saved = self.pos;
            let arg = self.parse_expr();
            children.push(arg);
            if self.pos == saved {
                self.advance();
            }
            self.skip_newlines();
        }
        if children.len() == 1 {
            return children.pop().unwrap();
        }
        self.mk_node(SyntaxNodeKind::Tactic, children)
    }

    pub(crate) fn parse_binders(&mut self) -> (r: Vec<Syntax>)
        requires
            old(self).wf(),
        ensures
            step(*old(self), *final(self)),
            forall|i: int| 0 <= i < r@.len() ==> is_binder_piece(#[trigger] r@[i]),
            (r@.len() > 0) <==> binder_start(old(self).lead_tok().kind),
        decreases old(self).tokens@.len() - old(self).pos, 2int,
    {
        let mut binders: Vec<Syntax> = Vec::new();
        loop
            invariant
                step(*old(self), *self),
                forall|i: int| 0 <= i < binders@.len() ==> is_binder_piece(#[trigger] binders@[i]),
                binders@.len() == 0 ==> self.lead_tok() == old(self).lead_tok(),
                binders@.len() > 0 ==> binder_start(old(self).lead_tok().kind),
            ensures
                step(*old(self), *self),
                forall|i: int| 0 <= i < binders@.len() ==> is_binder_piece(#[trigger] binders@[i]),
                (binders@.len() > 0) <==> binder_start(old(self).lead_tok().kind),
            decreases self.tokens@.len() - self.pos,
        {
            self.skip_newlines();
            proof {
                self.lemma_peek_valid();
                self.lemma_lead_is_peek();
            }
            match self.peek_kind() {
                TokenKind::LParen => {
                    let b = self.parse_explicit_binder();
                    binders.push(b);
                },
                TokenKind::LBrace => {
                    let b = self.parse_implicit_binder();
                    binders.push(b);
                },
                TokenKind::LBracket => {
                    let b = self.parse_inst_binder();
                    binders.push(b);
                },
                TokenKind::LDblAngle => {
                    let b = self.parse_strict_implicit_binder();
                    binders.push(b);
                },
                TokenKind::Ident(_) | TokenKind::Underscore => {
                    binders.push(self.take_name_or_hole());
                },
                _ => break,
            }
        }
        binders
    }

    pub(crate) fn parse_single_binder(&mut self) -> (r: Syntax)
        requires
            old(self).wf(),
        ensures
            step(*old(self), *final(self)),
            old(self).peek_tok().kind is LParen || old(self).peek_tok().kind is LBrace || old(
                self,
            ).peek_tok().kind is LBracket || old(self).peek_tok().kind is LDblAngle ==> moved(
                *old(self),
                *final(self),
            ),
        decreases old(self).tokens@.len() - old(self).pos, 2int,
    {
        proof {
            self.lemma_peek_valid();
        }
        match self.peek_kind() {
            TokenKind::LParen => self.parse_explicit_binder(),
            TokenKind::LBrace => self.parse_implicit_binder(),
            TokenKind::LBracket => self.parse_inst_binder(),
            TokenKind::LDblAngle => self.parse_strict_implicit_binder(),
            _ => {
                self.error("expected binder");
                self.mk_missing()
            },
        }
    }

    /// Names (identifiers or `_`) of a binder group.
    fn parse_binder_names(&mut self, children: &mut Vec<Syntax>)
        requires
            old(self).wf(),
        ensures
            step(*old(self), *final(self)),
            old(children)@.is_prefix_of(final(children)@),
            forall|i: int|
                old(children)@.len() <= i < final(children)@.len() ==> is_binder_piece(
                    #[trigger] final(children)@[i],
                ),
            (old(self).peek_tok().kind is Ident || old(self).peek_tok().kind is Underscore)
                ==> final(children)@.len() > old(children)@.len(),
            !(old(self).peek_tok().kind is Ident || old(self).peek_tok().kind is Underscore)
                ==> final(children)@ == old(children)@ && *final(self) == *old(self),
    {
        while self.at_ident() || self.at_exact(&TokenKind::Underscore)
            invariant
                step(*old(self), *self),
                old(children)@.is_prefix_of(children@),
                forall|i: int|
                    old(children)@.len() <= i < children@.len() ==> is_binder_piece(
                        #[trigger] children@[i],
                    ),
                children@.len() == old(children)@.len() ==> children@ == old(children)@ && *self
                    == *old(self),
                children@.len() > old(children)@.len() ==> (old(self).peek_tok().kind is Ident
                    || old(self).peek_tok().kind is Underscore),
            decreases self.tokens@.len() - self.pos,
        {
            proof {
                self.lemma_peek_valid();
            }
            children.push(self.take_name_or_hole());
            self.skip_newlines();
        }
    }

    pub(crate) fn parse_explicit_binder(&mut self) -> (r: Syntax)
        requires
            old(self).wf(),
            old(self).pos < old(self).tokens@.len(),
        ensures
            crate::parser::node_of_kind(r, SyntaxNodeKind::ExplicitBinder),
            step(*old(self), *final(self)),
            moved(*old(self), *final(self)),
        decreases old(self).tokens@.len() - old(self).pos, 1int,
    {
        let lp_syn = self.take_punct();
        let mut children = vec![lp_syn];
        self.skip_newlines();
        self.parse_binder_names(&mut children);
        if let Some(ty) = self.parse_opt_type_annot() {
            children.push(ty);
        }
        if self.at_exact(&TokenKind::ColonEq) {
            proof {
                self.lemma_peek_valid();
            }
            children.push(self.take_punct());
            self.skip_newlines();
            let e = self.parse_expr();
            children.push(e);
        }
        self.skip_newlines();
        let rp = self.expect(&TokenKind::RParen);
        children.push(self.mk_punct(&rp));
        self.mk_node(SyntaxNodeKind::ExplicitBinder, children)
    }

    pub(crate) fn parse_implicit_binder(&mut self) -> (r: Syntax)
        requires
            old(self).wf(),
            old(self).pos < old(self).tokens@.len(),
        ensures
            crate::parser::node_of_kind(r, SyntaxNodeKind::ImplicitBinder),
            step(*old(self), *final(self)),
            moved(*old(self), *final(self)),
        decreases old(self).tokens@.len() - old(self).pos, 1int,
    {
        let lb_syn = self.take_punct();
        let mut children = vec![lb_syn];
        self.skip_newlines();
        self.parse_binder_names(&mut children);
        if let Some(ty) = self.parse_opt_type_annot() {
            children.push(ty);
        }
        self.skip_newlines();
        let rb = self.expect(&TokenKind::RBrace);
        children.push(self.mk_punct(&rb));
        self.mk_node(SyntaxNodeKind::ImplicitBinder, children)
    }

    pub(crate) fn parse_inst_binder(&mut self) -> (r: Syntax)
        requires
            old(self).wf(),
            old(self).pos < old(self).tokens@.len(),
        ensures
            crate::parser::node_of_kind(r, SyntaxNodeKind::InstBinder),
            step(*old(self), *final(self)),
            moved(*old(self), *final(self)),
        decreases old(self).tokens@.len() - old(self).pos, 1int,
    {
        let lb_syn = self.take_punct();
        let mut children = vec![lb_syn];
        self.skip_newlines();
        if self.at_ident() {
            let named = match self.peek_nth_non_newline(1).kind {
                TokenKind::Colon => true,
                _ => false,
            };
            if named {
                children.push(self.take_ident());
                self.skip_newlines();
            }
        }
        match self.parse_opt_type_annot() {
            Some(ty) => children.push(ty),
            None => {
                let ty = self.parse_expr();
                children.push(ty);
            },
        }
        self.skip_newlines();
        let rb = self.expect(&TokenKind::RBracket);
        children.push(self.mk_punct(&rb));
        self.mk_node(SyntaxNodeKind::InstBinder, children)
    }

    pub(crate) fn parse_strict_implicit_binder(&mut self) -> (r: Syntax)
        requires
            old(self).wf(),
            old(self).pos < old(self).tokens@.len(),
        ensures
            crate::parser::node_of_kind(r, SyntaxNodeKind::StrictImplicitBinder),
            step(*old(self), *final(self)),
            moved(*old(self), *final(self)),
        decreases old(self).tokens@.len() - old(self).pos, 1int,
    {
        let la_syn = self.take_punct();
        let mut children = vec![la_syn];
        self.skip_newlines();
        self.parse_binder_names(&mut children);
        if let Some(ty) = self.parse_opt_type_annot() {
            children.push(ty);
        }
        self.skip_newlines();
        let ra = self.expect(&TokenKind::RDblAngle);
        children.push(self.mk_punct(&ra));
        self.mk_node(SyntaxNodeKind::StrictImplicitBinder, children)
    }

    /// Infix operators binding at least `min_bp` after `lhs`, then a type
    /// ascription at the top level.
    fn parse_infix(&mut self, lhs: Syntax, min_bp: u32) -> (r: Syntax)
        requires
            old(self).wf(),
        ensures
            step(*old(self), *final(self)),
            ({
                let k = old(self).lead_tok().kind;
                let applies = infix_applies(k, min_bp);
                &&& applies ==> node_of_kind(r, SyntaxNodeKind::BinOp) || node_of_kind(
                    r,
                    SyntaxNodeKind::Arrow,
                ) || node_of_kind(r, SyntaxNodeKind::TypeAscription)
                &&& !applies && k is Colon && min_bp == 0 ==> node_of_kind(
                    r,
                    SyntaxNodeKind::TypeAscription,
                )
                &&& !applies && !(k is Colon && min_bp == 0) ==> r == lhs
            }),
        decreases old(self).tokens@.len() - old(self).pos, 1int,
    {
        let ghost lhs0 = lhs;
        let ghost k0 = old(self).lead_tok().kind;
        let ghost mut changed = false;
        let mut lhs = lhs;
        loop
            invariant
                step(*old(self), *self),
                k0 == old(self).lead_tok().kind,
                !changed ==> lhs == lhs0 && self.lead_tok() == old(self).lead_tok(),
                changed ==> (node_of_kind(lhs, SyntaxNodeKind::BinOp) || node_of_kind(
                    lhs,
                    SyntaxNodeKind::Arrow,
                )) && infix_applies(k0, min_bp),
            ensures
                step(*old(self), *self),
                !changed ==> lhs == lhs0 && self.peek_tok() == old(self).lead_tok() && !infix_applies(k0, min_bp),
                changed ==> (node_of_kind(lhs, SyntaxNodeKind::BinOp) || node_of_kind(
                    lhs,
                    SyntaxNodeKind::Arrow,
                )) && infix_applies(k0, min_bp),
            decreases self.tokens@.len() - self.pos,
        {
            self.skip_newlines();
            proof {
                self.lemma_lead_is_peek();
            }
            let (op_bp, right_bp, is_arrow) = match infix_power(self.peek_kind()) {
                Some(p) => p,
                None => break,
            };
            if op_bp < min_bp {
                break;
            }
            proof {
                self.lemma_peek_valid();
            }
            let op_syn = self.take_punct();
            self.skip_newlines();
            let rhs = if is_arrow {
                self.parse_expr_max()
            } else {
                let rhs_atom = self.parse_unary();
                self.parse_infix(rhs_atom, right_bp)
            };
            let kind = if is_arrow {
                SyntaxNodeKind::Arrow
            } else {
                SyntaxNodeKind::BinOp
            };
            lhs = self.mk_node(kind, vec![lhs, op_syn, rhs]);
            proof {
                changed = true;
            }
        }
        if self.at_exact(&TokenKind::Colon) && min_bp == 0 {
            proof {
                self.lemma_peek_valid();
            }
            let colon_syn = self.take_punct();
            self.skip_newlines();
            let ty = self.parse_expr();
            lhs = self.mk_node(SyntaxNodeKind::TypeAscription, vec![lhs, colon_syn, ty]);
        }
        lhs
    }

    /// The current token starts a command (a command keyword, a doc comment,
    /// or `@[`).
    pub(crate) fn at_command_start(&self) -> (b: bool)
        requires
            self.wf(),
        ensures
            b ==> !self.at_eof(),
    {
        match self.peek_kind() {
            TokenKind::Keyword(kw) => is_command_keyword(kw),
            TokenKind::DocComment(_) | TokenKind::ModuleDoc(_) => true,
            TokenKind::At => match self.peek_nth_non_newline(1).kind {
                TokenKind::LBracket => true,
                _ => false,
            },
            _ => false,
        }
    }
}

/// `k` is an infix operator binding at least `min_bp`.
pub open spec fn infix_applies(k: TokenKind, min_bp: u32) -> bool {
    infix_power_spec(k) matches Some(p) && p.0 >= min_bp
}

/// The binding powers of an infix operator: left, right, and whether it is
/// the (right-associative) arrow.
pub open spec fn infix_power_spec(k: TokenKind) -> Option<(u32, u32, bool)> {
    match k {
        TokenKind::Arrow => Some((25, 24, true)),
        TokenKind::OrOr | TokenKind::Disj => Some((30, 31, false)),
        TokenKind::AndAnd | TokenKind::Conj => Some((35, 36, false)),
        TokenKind::Iff => Some((20, 20, false)),
        TokenKind::Eq | TokenKind::Ne | TokenKind::Le | TokenKind::Ge => Some((50, 51, false)),
        TokenKind::Lt | TokenKind::Gt => Some((50, 51, false)),
        TokenKind::Mem => Some((50, 51, false)),
        TokenKind::Bind => Some((55, 56, false)),
        TokenKind::SeqOp | TokenKind::SeqLeft | TokenKind::SeqRight | TokenKind::SeqComp => Some(
            (60, 61, false),
        ),
        TokenKind::Plus | TokenKind::Minus | TokenKind::Append => Some((65, 66, false)),
        TokenKind::Cons => Some((67, 66, false)),
        TokenKind::Star | TokenKind::Slash | TokenKind::Percent | TokenKind::Times
        | TokenKind::Cdot | TokenKind::SMul | TokenKind::Dvd => Some((70, 71, false)),
        TokenKind::Caret => Some((80, 79, false)),
        TokenKind::MapOp => Some((100, 101, false)),
        TokenKind::OrElse => Some((20, 21, false)),
        TokenKind::PipeRight => Some((10, 11, false)),
        TokenKind::PipeLeft => Some((10, 9, false)),
        TokenKind::Dollar => Some((10, 9, false)),
        TokenKind::BitAnd | TokenKind::Ampersand => Some((35, 36, false)),
        TokenKind::BitOr => Some((30, 31, false)),
        TokenKind::BitXor => Some((32, 33, false)),
        TokenKind::ShiftLeft | TokenKind::ShiftRight => Some((45, 46, false)),
        TokenKind::Compose => Some((90, 91, false)),
        TokenKind::Subst => Some((75, 76, false)),
        _ => None,
    }
}

/// A multiplicative operator: `*`, `/`, `%`, `×`, `·`, `•` or `∣`.
pub open spec fn multiplicative(k: TokenKind) -> bool {
    k is Star || k is Slash || k is Percent || k is Times || k is Cdot || k is SMul || k is Dvd
}

/// An additive operator: `+`, `-` or `++`.
pub open spec fn additive(k: TokenKind) -> bool {
    k is Plus || k is Minus || k is Append
}

/// Multiplicative operators bind tighter than additive ones on both sides:
/// the left power of `*` exceeds the right power of `+`, so `a + b * c`
/// parses as `a + (b * c)`, and the left power of `+` is below the right
/// power of `*`, so `a * b + c` parses as `(a * b) + c`.
pub proof fn law_multiplicative_binds_tighter(m: TokenKind, a: TokenKind)
    requires
        multiplicative(m),
        additive(a),
    ensures
        infix_power_spec(m) matches Some((ml, mr, arrow_m)) && infix_power_spec(a) matches Some(
            (al, ar, arrow_a),
        ) && ml > ar && al < mr && !arrow_m && !arrow_a,
{
}

/// The binding powers the expression parser gives an infix operator.
fn infix_power(k: &TokenKind) -> (r: Option<(u32, u32, bool)>)
    ensures
        r == infix_power_spec(*k),
        r is Some ==> !(*k is Eof),
{
    match k {
        TokenKind::Arrow => Some((25, 24, true)),
        TokenKind::OrOr | TokenKind::Disj => Some((30, 31, false)),
        TokenKind::AndAnd | TokenKind::Conj => Some((35, 36, false)),
        TokenKind::Iff => Some((20, 20, false)),
        TokenKind::Eq | TokenKind::Ne | TokenKind::Le | TokenKind::Ge => Some((50, 51, false)),
        TokenKind::Lt | TokenKind::Gt => Some((50, 51, false)),
        TokenKind::Mem => Some((50, 51, false)),
        TokenKind::Bind => Some((55, 56, false)),
        TokenKind::SeqOp | TokenKind::SeqLeft | TokenKind::SeqRight | TokenKind::SeqComp => Some(
            (60, 61, false),
        ),
        TokenKind::Plus | TokenKind::Minus | TokenKind::Append => Some((65, 66, false)),
        TokenKind::Cons => Some((67, 66, false)),
        TokenKind::Star | TokenKind::Slash | TokenKind::Percent | TokenKind::Times
        | TokenKind::Cdot | TokenKind::SMul | TokenKind::Dvd => Some((70, 71, false)),
        TokenKind::Caret => Some((80, 79, false)),
        TokenKind::MapOp => Some((100, 101, false)),
        TokenKind::OrElse => Some((20, 21, false)),
        TokenKind::PipeRight => Some((10, 11, false)),
        TokenKind::PipeLeft => Some((10, 9, false)),
        TokenKind::Dollar => Some((10, 9, false)),
        TokenKind::BitAnd | TokenKind::Ampersand => Some((35, 36, false)),
        TokenKind::BitOr => Some((30, 31, false)),
        TokenKind::BitXor => Some((32, 33, false)),
        TokenKind::ShiftLeft | TokenKind::ShiftRight => Some((45, 46, false)),
        TokenKind::Compose => Some((90, 91, false)),
        TokenKind::Subst => Some((75, 76, false)),
        _ => None,
    }
}

} // verus!
