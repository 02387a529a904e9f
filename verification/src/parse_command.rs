//! Command parsing: the module header, declarations, structures, classes,
//! inductive types, namespaces and sections, `open`, `set_option`,
//! attributes, `#`-commands, and the entry point `parse`.
use vstd::prelude::*;
use vstd::string::StringSliceAdditionalSpecFns;

use crate::keyword::Keyword;
use crate::node_kind::SyntaxNodeKind;
use crate::parser::{is_command_keyword, moved, node_of_kind, nth_non_newline, step, ParseResult, Parser};
use crate::parse_expr::lit_string;
use crate::syntax::{AtomVal, Syntax};
use crate::text::{chars_of, push_all, str_eq, string_from_chars};
use crate::tokkind::{clone_kind, kind_debug};
use crate::token::{Token, TokenKind};

verus! {

/// The keywords of declaration modifiers.
pub open spec fn is_modifier_kind(k: TokenKind) -> bool {
    ||| k == TokenKind::Keyword(Keyword::Private)
    ||| k == TokenKind::Keyword(Keyword::Protected)
    ||| k == TokenKind::Keyword(Keyword::Noncomputable)
    ||| k == TokenKind::Keyword(Keyword::Unsafe)
    ||| k == TokenKind::Keyword(Keyword::Partial)
    ||| k == TokenKind::Keyword(Keyword::Nonrec)
}

/// The first token at or after position `p` that is not a newline.
pub open spec fn lead_at(toks: Seq<Token>, p: int) -> Token {
    toks[nth_non_newline(toks, p, 0)]
}

/// After the header, which ends before position `h`, the commands start at
/// the increasing positions `starts`, the first at `h`, one child after the
/// header each, of the node kind their leading keyword names; there are none
/// exactly when only the end of input follows the header.
pub open spec fn commands_follow(toks: Seq<Token>, children: Seq<Syntax>, h: int, starts: Seq<int>) -> bool {
    &&& lead_at(toks, h).kind != TokenKind::Keyword(Keyword::Import)
    &&& starts.len() + 1 == children.len()
    &&& (starts.len() == 0 <==> lead_at(toks, h).kind is Eof)
    &&& starts.len() > 0 ==> starts[0] == h
    &&& forall|j: int|
        0 <= j < starts.len() ==> command_shape(#[trigger] lead_at(toks, starts[j]).kind, children[j + 1])
    &&& forall|j: int| 0 < j < starts.len() ==> starts[j - 1] < #[trigger] starts[j]
}

/// `r` is the module parsed from the tokens `toks`: a header, then the commands.
pub open spec fn module_parsed(toks: Seq<Token>, r: Syntax) -> bool {
    &&& r matches Syntax::Node { kind, children, .. } && kind == SyntaxNodeKind::Module
        && children@.len() >= 1 && node_of_kind(children@[0], SyntaxNodeKind::Header)
        && exists|h: int, starts: Seq<int>| #[trigger] commands_follow(toks, children@, h, starts)
}

/// The node that a command led by a token of kind `k` parses to: the kind
/// its leading keyword names.
pub open spec fn command_shape(k: TokenKind, r: Syntax) -> bool {
    &&& k == TokenKind::Keyword(Keyword::Def) ==> node_of_kind(r, SyntaxNodeKind::Definition)
    &&& k == TokenKind::Keyword(Keyword::Theorem) ==> node_of_kind(r, SyntaxNodeKind::Theorem)
    &&& k == TokenKind::Keyword(Keyword::Lemma) ==> node_of_kind(r, SyntaxNodeKind::Theorem)
    &&& k == TokenKind::Keyword(Keyword::Abbrev) ==> node_of_kind(r, SyntaxNodeKind::Abbrev)
    &&& k == TokenKind::Keyword(Keyword::Opaque) ==> node_of_kind(r, SyntaxNodeKind::Opaque)
    &&& k == TokenKind::Keyword(Keyword::Instance) ==> node_of_kind(r, SyntaxNodeKind::Instance)
    &&& k == TokenKind::Keyword(Keyword::Example) ==> node_of_kind(r, SyntaxNodeKind::Example)
    &&& k == TokenKind::Keyword(Keyword::Axiom) ==> node_of_kind(r, SyntaxNodeKind::Axiom)
    &&& k == TokenKind::Keyword(Keyword::Structure) ==> node_of_kind(r, SyntaxNodeKind::Structure)
    &&& k == TokenKind::Keyword(Keyword::Class) ==> node_of_kind(r, SyntaxNodeKind::ClassDecl)
    &&& k == TokenKind::Keyword(Keyword::Inductive) ==> node_of_kind(r, SyntaxNodeKind::Inductive)
    &&& k == TokenKind::Keyword(Keyword::Namespace) ==> node_of_kind(r, SyntaxNodeKind::Namespace)
    &&& k == TokenKind::Keyword(Keyword::Module) ==> node_of_kind(r, SyntaxNodeKind::Command)
    &&& k == TokenKind::Keyword(Keyword::Prelude) ==> node_of_kind(r, SyntaxNodeKind::Command)
    &&& k == TokenKind::Keyword(Keyword::Section) ==> node_of_kind(r, SyntaxNodeKind::Section)
    &&& k == TokenKind::Keyword(Keyword::End) ==> node_of_kind(r, SyntaxNodeKind::End)
    &&& k == TokenKind::Keyword(Keyword::Mutual) ==> node_of_kind(r, SyntaxNodeKind::Mutual)
    &&& k == TokenKind::Keyword(Keyword::Open) ==> node_of_kind(r, SyntaxNodeKind::OpenSimple)
    &&& k == TokenKind::Keyword(Keyword::Export) ==> node_of_kind(r, SyntaxNodeKind::Export)
    &&& k == TokenKind::Keyword(Keyword::Variable) ==> node_of_kind(r, SyntaxNodeKind::Variable)
    &&& k == TokenKind::Keyword(Keyword::Universe) ==> node_of_kind(r, SyntaxNodeKind::Universe)
    &&& k == TokenKind::Keyword(Keyword::SetOption) ==> node_of_kind(r, SyntaxNodeKind::SetOption)
    &&& k == TokenKind::Keyword(Keyword::Attribute) ==> node_of_kind(r, SyntaxNodeKind::Attribute)
    &&& k == TokenKind::Keyword(Keyword::Initialize) ==> node_of_kind(r, SyntaxNodeKind::Initialize)
    &&& k == TokenKind::Keyword(Keyword::BuiltinInitialize) ==> node_of_kind(r, SyntaxNodeKind::Initialize)
    &&& k == TokenKind::Keyword(Keyword::Notation) ==> node_of_kind(r, SyntaxNodeKind::Command)
    &&& k == TokenKind::Keyword(Keyword::Prefix) ==> node_of_kind(r, SyntaxNodeKind::Command)
    &&& k == TokenKind::Keyword(Keyword::Infix) ==> node_of_kind(r, SyntaxNodeKind::Command)
    &&& k == TokenKind::Keyword(Keyword::Infixl) ==> node_of_kind(r, SyntaxNodeKind::Command)
    &&& k == TokenKind::Keyword(Keyword::Infixr) ==> node_of_kind(r, SyntaxNodeKind::Command)
    &&& k == TokenKind::Keyword(Keyword::Postfix) ==> node_of_kind(r, SyntaxNodeKind::Command)
    &&& k == TokenKind::Keyword(Keyword::Macro) ==> node_of_kind(r, SyntaxNodeKind::Command)
    &&& k == TokenKind::Keyword(Keyword::Syntax) ==> node_of_kind(r, SyntaxNodeKind::Command)
    &&& k == TokenKind::Keyword(Keyword::Elab) ==> node_of_kind(r, SyntaxNodeKind::Command)
    &&& k == TokenKind::Keyword(Keyword::Check) ==> node_of_kind(r, SyntaxNodeKind::Check)
    &&& k == TokenKind::Keyword(Keyword::Eval) ==> node_of_kind(r, SyntaxNodeKind::Eval)
    &&& k == TokenKind::Keyword(Keyword::Print) ==> node_of_kind(r, SyntaxNodeKind::Print)
    &&& k == TokenKind::Keyword(Keyword::Reduce) ==> node_of_kind(r, SyntaxNodeKind::Reduce)
    &&& k == TokenKind::Keyword(Keyword::Synth) ==> node_of_kind(r, SyntaxNodeKind::Synth)
    &&& k == TokenKind::Keyword(Keyword::Exit) ==> node_of_kind(r, SyntaxNodeKind::HashCommand)
}

/// Parse a Lean 4 source text into a syntax tree, with the errors met on the way.
pub fn parse(source: &str) -> (r: ParseResult)
    requires
        source.spec_bytes().len() <= u32::MAX,
    ensures
        r.syntax matches Syntax::Node { kind, children, .. } && kind == SyntaxNodeKind::Module
            && children@.len() >= 1 && (children@[0] matches Syntax::Node { kind: hk, .. } && hk
            == SyntaxNodeKind::Header),
        forall|k: int|
            0 <= k < r.errors@.len() ==> #[trigger] r.errors@[k].span.start <= r.errors@[k].span.end
                <= source.spec_bytes().len(),
        source@.len() == 0 ==> r.errors@.len() == 0 && (r.syntax matches Syntax::Node {
            children,
            ..
        } && children@.len() == 1),
        exists|toks: Seq<Token>|
            #[trigger] crate::lexer::lexes(source@, source.spec_bytes().len(), toks) && module_parsed(
                toks,
                r.syntax,
            ),
{
    let mut p = Parser::new(source);
    let ghost toks = p.tokens@;
    proof {
        if source@.len() == 0 {
            assert(p.tokens@.len() == 1);
            assert(nth_non_newline(p.tokens@, 0, 0) == 0);
        }
    }
    let syntax = p.parse_module();
    proof {
        assert(crate::lexer::lexes(source@, source.spec_bytes().len(), toks));
        assert(module_parsed(toks, syntax));
    }
    ParseResult { syntax, errors: p.errors }
}

impl<'a> Parser<'a> {
    /// A full module: a header, then commands up to the end of input.
    pub(crate) fn parse_module(&mut self) -> (r: Syntax)
        requires
            old(self).wf(),
        ensures
            step(*old(self), *final(self)),
            final(self).at_eof(),
            r matches Syntax::Node { kind, children, .. } && kind == SyntaxNodeKind::Module
                && children@.len() >= 1 && (children@[0] matches Syntax::Node { kind: hk, .. } && hk
                == SyntaxNodeKind::Header),
            old(self).lead_tok().kind is Eof ==> final(self).errors@ == old(self).errors@ && (
            r matches Syntax::Node { children, .. } && children@.len() == 1),
            module_parsed(final(self).tokens@, r),
    {
        self.skip_newlines();
        let header = self.parse_header();
        let mut children = vec![header];
        proof {
            self.lemma_lead_is_peek();
        }
        self.skip_newlines();
        let ghost h = self.pos as int;
        proof {
            self.lemma_lead_is_peek();
        }
        let ghost mut starts: Seq<int> = Seq::empty();
        while !self.is_at_end()
            invariant
                step(*old(self), *self),
                children@.len() >= 1,
                children@[0] matches Syntax::Node { kind: hk, .. } && hk == SyntaxNodeKind::Header,
                old(self).lead_tok().kind is Eof ==> self.errors@ == old(self).errors@
                    && children@.len() == 1 && self.at_eof(),
                starts.len() + 1 == children@.len(),
                forall|j: int|
                    0 <= j < starts.len() ==> command_shape(
                        #[trigger] lead_at(self.tokens@, starts[j]).kind,
                        children@[j + 1],
                    ),
                lead_at(self.tokens@, h).kind != TokenKind::Keyword(Keyword::Import),
                starts.len() == 0 ==> self.pos == h,
                starts.len() > 0 ==> starts[0] == h && !(lead_at(self.tokens@, h).kind is Eof),
                forall|j: int| 0 <= j < starts.len() ==> #[trigger] starts[j] < self.pos,
                forall|j: int| 0 < j < starts.len() ==> starts[j - 1] < #[trigger] starts[j],
                !(self.peek_tok().kind is Newline),
                starts.len() == 0 ==> lead_at(self.tokens@, h) == self.peek_tok(),
            decreases self.tokens@.len() - self.pos,
        {
            proof {
                self.lemma_peek_valid();
            }
            let saved = self.pos;
            proof {
                starts = starts.push(saved as int);
            }
            let cmd = self.parse_command();
            children.push(cmd);
            if self.pos == saved {
                self.advance();
            }
            self.skip_newlines();
        }
        proof {
            assert(commands_follow(self.tokens@, children@, h, starts));
        }
        self.mk_node(SyntaxNodeKind::Module, children)
    }

    /// The module header: optional `module` and `prelude`, then imports.
    pub(crate) fn parse_header(&mut self) -> (r: Syntax)
        requires
            old(self).wf(),
        ensures
            step(*old(self), *final(self)),
            r matches Syntax::Node { kind, .. } && kind == SyntaxNodeKind::Header,
            old(self).at_eof() ==> *final(self) == *old(self),
            final(self).peek_tok().kind != TokenKind::Keyword(Keyword::Import),
            !(old(self).peek_tok().kind is Newline) ==> !(final(self).peek_tok().kind is Newline),
    {
        let mut children: Vec<Syntax> = Vec::new();
        if self.at_keyword(Keyword::Module) {
            let module_kw = self.advance();
            let mut module_children = vec![self.mk_keyword_atom(&module_kw)];
            self.skip_newlines();
            if self.at_ident() {
                let name = self.advance();
                module_children.push(self.mk_ident_from_token(&name));
                self.skip_newlines();
            }
            children.push(self.mk_node(SyntaxNodeKind::Command, module_children));
        }
        if self.at_keyword(Keyword::Prelude) {
            let tok = self.advance();
            children.push(self.mk_keyword_atom(&tok));
            self.skip_newlines();
        }
        while self.at_keyword(Keyword::Import)
            invariant
                step(*old(self), *self),
                old(self).at_eof() ==> *self == *old(self),
                !(old(self).peek_tok().kind is Newline) ==> !(self.peek_tok().kind is Newline),
            decreases self.tokens@.len() - self.pos,
        {
            proof {
                self.lemma_peek_valid();
            }
            let imp = self.parse_import();
            children.push(imp);
            self.skip_newlines();
        }
        self.mk_node(SyntaxNodeKind::Header, children)
    }

    /// `import <modulePath>`.
    pub(crate) fn parse_import(&mut self) -> (r: Syntax)
        requires
            old(self).wf(),
        ensures
            step(*old(self), *final(self)),
            moved(*old(self), *final(self)),
            r matches Syntax::Node { kind, .. } && kind == SyntaxNodeKind::Command,
    {
        let kw = self.advance();
        let kw_syn = self.mk_keyword_atom(&kw);
        self.skip_newlines();
        let path = if self.at_ident() {
            let tok = self.advance();
            self.mk_ident_from_token(&tok)
        } else {
            self.error("expected module path after `import`");
            self.mk_missing()
        };
        self.mk_node(SyntaxNodeKind::Command, vec![kw_syn, path])
    }

    /// A keyword atom followed by an optional identifier, as a node of `kind`.
    fn parse_keyword_opt_ident(&mut self, kind: SyntaxNodeKind) -> (r: Syntax)
        requires
            old(self).wf(),
        ensures
            step(*old(self), *final(self)),
            moved(*old(self), *final(self)),
            r matches Syntax::Node { kind: k, .. } && k == kind,
    {
        let kw = self.advance();
        let kw_syn = self.mk_keyword_atom(&kw);
        let mut children = vec![kw_syn];
        if self.at_ident() {
            let tok = self.advance();
            children.push(self.mk_ident_from_token(&tok));
        }
        self.mk_node(kind, children)
    }

    /// `public section`: the `public` identifier as a modifier of the section.
    fn parse_public_section(&mut self) -> (r: Syntax)
        requires
            old(self).wf(),
        ensures
            step(*old(self), *final(self)),
            moved(*old(self), *final(self)),
    {
        let public_tok = self.advance();
        self.skip_newlines();
        let section = self.parse_section();
        let ident = self.mk_ident_from_token(&public_tok);
        let cmd = self.mk_node(SyntaxNodeKind::Command, vec![ident]);
        let mods = self.mk_node(SyntaxNodeKind::DeclModifiers, vec![cmd]);
        self.mk_node(SyntaxNodeKind::Declaration, vec![mods, section])
    }

    /// Parse a single top-level command.
    /// One command, chosen by its leading keyword (after any doc comment,
    /// attributes and modifiers, which wrap it in a declaration node).
    pub(crate) fn parse_command(&mut self) -> (r: Syntax)
        requires
            old(self).wf(),
        ensures
            step(*old(self), *final(self)),
            moved(*old(self), *final(self)),
            command_shape(old(self).lead_tok().kind, r),
        decreases old(self).tokens@.len() - old(self).pos, 2int,
    {
        self.skip_newlines();
        proof {
            self.lemma_lead_is_peek();
        }
        let mut doc_comment: Option<Syntax> = None;
        if let TokenKind::DocComment(text) = clone_kind(self.peek_kind()) {
            let tok = self.advance();
            doc_comment = Some(self.mk_atom(&tok, AtomVal::DocComment(text)));
            self.skip_newlines();
        }
        if let TokenKind::ModuleDoc(text) = clone_kind(self.peek_kind()) {
            let tok = self.advance();
            let syn = self.mk_atom(&tok, AtomVal::DocComment(text));
            return self.mk_node(SyntaxNodeKind::ModuleDoc, vec![syn]);
        }
        let attrs = self.parse_attributes_opt();
        let modifiers = self.parse_decl_modifiers();
        proof {
            self.lemma_peek_valid();
        }
        let cmd = match self.peek_kind() {
            TokenKind::Keyword(Keyword::Def) => self.parse_declaration(SyntaxNodeKind::Definition),
            TokenKind::Keyword(Keyword::Theorem) => self.parse_declaration(SyntaxNodeKind::Theorem),
            TokenKind::Keyword(Keyword::Lemma) => self.parse_declaration(SyntaxNodeKind::Theorem),
            TokenKind::Keyword(Keyword::Abbrev) => self.parse_declaration(SyntaxNodeKind::Abbrev),
            TokenKind::Keyword(Keyword::Opaque) => self.parse_declaration(SyntaxNodeKind::Opaque),
            TokenKind::Keyword(Keyword::Instance) => self.parse_declaration(
                SyntaxNodeKind::Instance,
            ),
            TokenKind::Keyword(Keyword::Example) => self.parse_declaration(SyntaxNodeKind::Example),
            TokenKind::Keyword(Keyword::Axiom) => self.parse_declaration(SyntaxNodeKind::Axiom),
            TokenKind::Keyword(Keyword::Structure) => self.parse_structure(),
            TokenKind::Keyword(Keyword::Class) => self.parse_class(),
            TokenKind::Keyword(Keyword::Inductive) => self.parse_inductive(),
            TokenKind::Keyword(Keyword::Namespace) => self.parse_namespace(),
            TokenKind::Keyword(Keyword::Module) => {
                let kw = self.advance();
                let kw_syn = self.mk_keyword_atom(&kw);
                let mut children = vec![kw_syn];
                self.skip_newlines();
                if self.at_ident() {
                    let name = self.advance();
                    children.push(self.mk_ident_from_token(&name));
                }
                self.mk_node(SyntaxNodeKind::Command, children)
            },
            TokenKind::Keyword(Keyword::Prelude) => {
                let kw = self.advance();
                let a = self.mk_keyword_atom(&kw);
                self.mk_node(SyntaxNodeKind::Command, vec![a])
            },
            TokenKind::Keyword(Keyword::Section) => self.parse_section(),
            TokenKind::Keyword(Keyword::End) => self.parse_end(),
            TokenKind::Keyword(Keyword::Mutual) => self.parse_mutual(),
            TokenKind::Keyword(Keyword::Open) => self.parse_open(),
            TokenKind::Keyword(Keyword::Export) => self.parse_export(),
            TokenKind::Keyword(Keyword::Variable) => self.parse_variable(),
            TokenKind::Keyword(Keyword::Universe) => self.parse_universe_decl(),
            TokenKind::Keyword(Keyword::SetOption) => self.parse_set_option(),
            TokenKind::Keyword(Keyword::Attribute) => self.parse_attribute_cmd(),
            TokenKind::Keyword(Keyword::Initialize) => self.parse_initialize(),
            TokenKind::Keyword(Keyword::BuiltinInitialize) => self.parse_initialize(),
            TokenKind::Keyword(Keyword::Notation) => self.parse_notation(),
            TokenKind::Keyword(Keyword::Prefix) => self.parse_notation(),
            TokenKind::Keyword(Keyword::Infix) => self.parse_notation(),
            TokenKind::Keyword(Keyword::Infixl) => self.parse_notation(),
            TokenKind::Keyword(Keyword::Infixr) => self.parse_notation(),
            TokenKind::Keyword(Keyword::Postfix) => self.parse_notation(),
            TokenKind::Keyword(Keyword::Macro) => self.parse_notation(),
            TokenKind::Keyword(Keyword::Syntax) => self.parse_notation(),
            TokenKind::Keyword(Keyword::Elab) => self.parse_notation(),
            TokenKind::Keyword(Keyword::Check) => self.parse_hash_command(),
            TokenKind::Keyword(Keyword::Eval) => self.parse_hash_command(),
            TokenKind::Keyword(Keyword::Print) => self.parse_hash_command(),
            TokenKind::Keyword(Keyword::Reduce) => self.parse_hash_command(),
            TokenKind::Keyword(Keyword::Synth) => self.parse_hash_command(),
            TokenKind::Keyword(Keyword::Exit) => self.parse_hash_command(),
            _ => {
                let public_section = match self.peek_kind() {
                    TokenKind::Ident(s) => str_eq(s.as_str(), "public") && match self.peek_nth_non_newline(
                        1,
                    ).kind {
                        TokenKind::Keyword(Keyword::Section) => true,
                        _ => false,
                    },
                    _ => false,
                };
                if public_section {
                    return self.parse_public_section();
                }
                if self.at_ident() {
                    return self.parse_ident_command();
                }
                let mut out: Vec<char> = Vec::new();
                push_all(&mut out, chars_of("unexpected token ").as_slice());
                let d = kind_debug(self.peek_kind());
                push_all(&mut out, chars_of(d.as_str()).as_slice());
                push_all(&mut out, chars_of(" at command level").as_slice());
                let msg = string_from_chars(out.as_slice());
                self.error(msg.as_str());
                let tok = self.advance();
                self.mk_punct(&tok)
            },
        };
        self.wrap_with_decl_info(doc_comment, attrs, modifiers, cmd)
    }

    /// Optionally parse `@[attr1, attr2, ...]`.
    pub(crate) fn parse_attributes_opt(&mut self) -> (r: Option<Syntax>)
        requires
            old(self).wf(),
        ensures
            step(*old(self), *final(self)),
            !(old(self).peek_tok().kind is At) ==> r is None && *final(self) == *old(self),
            (r is Some) <==> (old(self).peek_tok().kind is At && old(self).tokens@[nth_non_newline(
                old(self).tokens@,
                old(self).pos as int,
                1,
            )].kind is LBracket),
            r matches Some(a) ==> node_of_kind(a, SyntaxNodeKind::Attribute),
    {
        if !self.at_exact(&TokenKind::At) {
            return None;
        }
        let next_is_bracket = match self.peek_nth_non_newline(1).kind {
            TokenKind::LBracket => true,
            _ => false,
        };
        if !next_is_bracket {
            return None;
        }
        let at_tok = self.advance();
        let at_syn = self.mk_punct(&at_tok);
        let lb = self.advance();
        let lb_syn = self.mk_punct(&lb);
        let mut children = vec![at_syn, lb_syn];
        self.skip_newlines();
        self.parse_attr_list(&mut children);
        let rb = self.expect(&TokenKind::RBracket);
        children.push(self.mk_punct(&rb));
        self.skip_newlines();
        Some(self.mk_node(SyntaxNodeKind::Attribute, children))
    }

    /// Comma-separated attribute entries up to `]`.
    fn parse_attr_list(&mut self, children: &mut Vec<Syntax>)
        requires
            old(self).wf(),
        ensures
            step(*old(self), *final(self)),
            old(children)@.is_prefix_of(final(children)@),
            old(self).peek_tok().kind is RBracket || old(self).peek_tok().kind is Eof
                ==> final(children)@ == old(children)@ && *final(self) == *old(self),
            !(old(self).peek_tok().kind is RBracket || old(self).peek_tok().kind is Eof)
                ==> final(children)@.len() > old(children)@.len(),
    {
        loop
            invariant
                step(*old(self), *self),
                old(children)@.is_prefix_of(children@),
                children@.len() == old(children)@.len() ==> children@ == old(children)@ && *self
                    == *old(self),
                children@.len() > old(children)@.len() ==> !(old(self).peek_tok().kind is RBracket
                    || old(self).peek_tok().kind is Eof),
            ensures
                step(*old(self), *self),
                old(children)@.is_prefix_of(children@),
                old(self).peek_tok().kind is RBracket || old(self).peek_tok().kind is Eof
                    ==> children@ == old(children)@ && *self == *old(self),
                !(old(self).peek_tok().kind is RBracket || old(self).peek_tok().kind is Eof)
                    ==> children@.len() > old(children)@.len(),
            decreases self.tokens@.len() - self.pos,
        {
            if self.at_exact(&TokenKind::RBracket) || self.is_at_end() {
                break;
            }
            let attr = self.parse_attr_entry();
            children.push(attr);
            self.skip_newlines();
            if self.eat_exact(&TokenKind::Comma).is_some() {
                let comma = &self.tokens[self.pos - 1];
                proof {
                    assert(self.valid_span(self.tokens@[self.pos - 1].span));
                }
                children.push(self.mk_punct(comma));
                self.skip_newlines();
            } else {
                break;
            }
        }
    }

    /// A single attribute entry: a name with optional arguments.
    pub(crate) fn parse_attr_entry(&mut self) -> (r: Syntax)
        requires
            old(self).wf(),
        ensures
            r is Missing || crate::parser::node_of_kind(r, SyntaxNodeKind::Attribute),
            step(*old(self), *final(self)),
    {
        let mut children: Vec<Syntax> = Vec::new();
        let name = if self.at_ident() {
            let tok = self.advance();
            self.mk_ident_from_token(&tok)
        } else if match self.peek_kind() {
            TokenKind::Keyword(_) => true,
            _ => false,
        } {
            let tok = self.advance();
            self.mk_keyword_atom(&tok)
        } else {
            self.error("expected attribute name");
            return self.mk_missing();
        };
        children.push(name);
        loop
            invariant
                step(*old(self), *self),
            decreases self.tokens@.len() - self.pos,
        {
            self.skip_newlines();
            proof {
                self.lemma_peek_valid();
            }
            match clone_kind(self.peek_kind()) {
                TokenKind::Comma | TokenKind::RBracket | TokenKind::Eof => break,
                TokenKind::StrLit(s) => {
                    let tok = self.advance();
                    children.push(self.mk_atom(&tok, AtomVal::StrLit(s)));
                },
                TokenKind::NatLit(n) => {
                    let tok = self.advance();
                    children.push(self.mk_atom(&tok, AtomVal::NumLit(n)));
                },
                TokenKind::Ident(_) => {
                    let tok = self.advance();
                    children.push(self.mk_ident_from_token(&tok));
                },
                _ => break,
            }
        }
        self.mk_node(SyntaxNodeKind::Attribute, children)
    }

    /// Declaration modifiers: `private`, `protected`, `noncomputable`,
    /// `unsafe`, `partial`, `nonrec`.
    pub(crate) fn parse_decl_modifiers(&mut self) -> (r: Vec<Syntax>)
        requires
            old(self).wf(),
        ensures
            step(*old(self), *final(self)),
            !is_modifier_kind(old(self).lead_tok().kind) ==> r@.len() == 0 && final(self).peek_tok()
                == old(self).lead_tok(),
    {
        let mut mods: Vec<Syntax> = Vec::new();
        loop
            invariant
                step(*old(self), *self),
                mods@.len() == 0 ==> self.lead_tok() == old(self).lead_tok(),
                !is_modifier_kind(old(self).lead_tok().kind) ==> mods@.len() == 0,
            ensures
                step(*old(self), *self),
                !is_modifier_kind(old(self).lead_tok().kind) ==> mods@.len() == 0
                    && self.peek_tok() == old(self).lead_tok(),
            decreases self.tokens@.len() - self.pos,
        {
            self.skip_newlines();
            proof {
                self.lemma_peek_valid();
            }
            let kind = match self.peek_kind() {
                TokenKind::Keyword(Keyword::Private) => SyntaxNodeKind::Private,
                TokenKind::Keyword(Keyword::Protected) => SyntaxNodeKind::Protected,
                TokenKind::Keyword(Keyword::Noncomputable) => SyntaxNodeKind::Noncomputable,
                TokenKind::Keyword(Keyword::Unsafe) => SyntaxNodeKind::Unsafe,
                TokenKind::Keyword(Keyword::Partial) => SyntaxNodeKind::Partial,
                TokenKind::Keyword(Keyword::Nonrec) => SyntaxNodeKind::Nonrec,
                _ => {
                    break;
                },
            };
            let tok = self.advance();
            let a = self.mk_keyword_atom(&tok);
            mods.push(self.mk_node(kind, vec![a]));
            self.skip_newlines();
        }
        mods
    }

    /// Wrap a command with its doc comment, attributes and modifiers, if any.
    fn wrap_with_decl_info(
        &self,
        doc: Option<Syntax>,
        attrs: Option<Syntax>,
        mods: Vec<Syntax>,
        cmd: Syntax,
    ) -> (r: Syntax)
        ensures
            doc is None && attrs is None && mods@.len() == 0 ==> r == cmd,
            !(doc is None && attrs is None && mods@.len() == 0) ==> (r matches Syntax::Node {
                kind,
                ..
            } && kind == SyntaxNodeKind::Declaration),
    {
        if doc.is_none() && attrs.is_none() && mods.len() == 0 {
            return cmd;
        }
        let mut children: Vec<Syntax> = Vec::new();
        if let Some(d) = doc {
            children.push(self.mk_node(SyntaxNodeKind::DocComment, vec![d]));
        }
        if let Some(a) = attrs {
            children.push(a);
        }
        if mods.len() > 0 {
            children.push(self.mk_node(SyntaxNodeKind::DeclModifiers, mods));
        }
        children.push(cmd);
        self.mk_node(SyntaxNodeKind::Declaration, children)
    }

    /// `universe u v w ...`
    pub(crate) fn parse_universe_decl(&mut self) -> (r: Syntax)
        requires
            old(self).wf(),
        ensures
            step(*old(self), *final(self)),
            moved(*old(self), *final(self)),
            r matches Syntax::Node { kind, .. } && kind == SyntaxNodeKind::Universe,
            !(final(self).peek_tok().kind is Ident),
            old(self).pos < old(self).tokens@.len() ==> (r matches Syntax::Node { children, .. }
                && children@.len() == final(self).pos - old(self).pos && forall|k: int|
                1 <= k < children@.len() ==> #[trigger] children@[k] is Ident),
            forall|j: int| old(self).pos < j < final(self).pos ==> #[trigger] final(self).tokens@[j].kind is Ident,
    {
        let kw = self.advance();
        let kw_syn = self.mk_keyword_atom(&kw);
        let mut children = vec![kw_syn];
        while self.at_ident()
            invariant
                step(*old(self), *self),
                moved(*old(self), *self),
                old(self).pos < old(self).tokens@.len() ==> children@.len() == self.pos - old(self).pos,
                forall|k: int| 1 <= k < children@.len() ==> #[trigger] children@[k] is Ident,
                forall|j: int| old(self).pos < j < self.pos ==> #[trigger] self.tokens@[j].kind is Ident,
            decreases self.tokens@.len() - self.pos,
        {
            proof {
                self.lemma_peek_valid();
            }
            let tok = self.advance();
            children.push(self.mk_ident_from_token(&tok));
        }
        self.mk_node(SyntaxNodeKind::Universe, children)
    }

    /// `namespace <name>`
    pub(crate) fn parse_namespace(&mut self) -> (r: Syntax)
        requires
            old(self).wf(),
        ensures
            step(*old(self), *final(self)),
            moved(*old(self), *final(self)),
            r matches Syntax::Node { kind, .. } && kind == SyntaxNodeKind::Namespace,
    {
        let kw = self.advance();
        let kw_syn = self.mk_keyword_atom(&kw);
        let name = self.parse_ident_or_missing("expected namespace name");
        self.mk_node(SyntaxNodeKind::Namespace, vec![kw_syn, name])
    }

    /// `section <name>?`
    pub(crate) fn parse_section(&mut self) -> (r: Syntax)
        requires
            old(self).wf(),
        ensures
            step(*old(self), *final(self)),
            moved(*old(self), *final(self)),
            r matches Syntax::Node { kind, .. } && kind == SyntaxNodeKind::Section,
    {
        self.parse_keyword_opt_ident(SyntaxNodeKind::Section)
    }

    /// `end <name>?`
    pub(crate) fn parse_end(&mut self) -> (r: Syntax)
        requires
            old(self).wf(),
        ensures
            step(*old(self), *final(self)),
            moved(*old(self), *final(self)),
            r matches Syntax::Node { kind, .. } && kind == SyntaxNodeKind::End,
    {
        self.parse_keyword_opt_ident(SyntaxNodeKind::End)
    }

    /// `mutual ... end`
    pub(crate) fn parse_mutual(&mut self) -> (r: Syntax)
        requires
            old(self).wf(),
            old(self).pos < old(self).tokens@.len(),
        ensures
            crate::parser::node_of_kind(r, SyntaxNodeKind::Mutual),
            step(*old(self), *final(self)),
            moved(*old(self), *final(self)),
        decreases old(self).tokens@.len() - old(self).pos, 1int,
    {
        let kw = self.advance();
        let kw_syn = self.mk_keyword_atom(&kw);
        let mut children = vec![kw_syn];
        self.skip_newlines();
        while !self.at_keyword(Keyword::End) && !self.is_at_end()
            invariant
                step(*old(self), *self),
                moved(*old(self), *self),
            decreases self.tokens@.len() - self.pos,
        {
            proof {
                self.lemma_peek_valid();
            }
            let cmd = self.parse_command();
            children.push(cmd);
            self.skip_newlines();
        }
        if self.at_keyword(Keyword::End) {
            let end = self.advance();
            children.push(self.mk_keyword_atom(&end));
        } else {
            self.error("expected `end` to close `mutual`");
            children.push(self.mk_missing());
        }
        self.mk_node(SyntaxNodeKind::Mutual, children)
    }

    /// `open <names> (in <command>)?`
    pub(crate) fn parse_open(&mut self) -> (r: Syntax)
        requires
            old(self).wf(),
            old(self).pos < old(self).tokens@.len(),
        ensures
            crate::parser::node_of_kind(r, SyntaxNodeKind::OpenSimple),
            step(*old(self), *final(self)),
            moved(*old(self), *final(self)),
        decreases old(self).tokens@.len() - old(self).pos, 1int,
    {
        let kw = self.advance();
        let kw_syn = self.mk_keyword_atom(&kw);
        let mut children = vec![kw_syn];
        self.parse_open_body(&mut children);
        if self.at_keyword(Keyword::In) {
            let in_kw = self.advance();
            children.push(self.mk_keyword_atom(&in_kw));
            self.skip_newlines();
            let cmd = self.parse_command();
            children.push(cmd);
            return self.mk_node(SyntaxNodeKind::OpenSimple, children);
        }
        self.mk_node(SyntaxNodeKind::OpenSimple, children)
    }

    /// The names of an `open` or `export`, with parenthesized lists.
    fn parse_open_body(&mut self, children: &mut Vec<Syntax>)
        requires
            old(self).wf(),
        ensures
            step(*old(self), *final(self)),
            old(children)@.is_prefix_of(final(children)@),
            old(self).lead_tok().kind is Ident ==> final(children)@.len() > old(children)@.len()
                && final(children)@[old(children)@.len() as int] is Ident,
            !(old(self).lead_tok().kind is Ident) ==> final(children)@ == old(children)@,
    {
        self.skip_newlines();
        let ghost lead = old(self).lead_tok();
        while self.at_ident()
            invariant
                step(*old(self), *self),
                lead == old(self).lead_tok(),
                old(children)@.is_prefix_of(children@),
                children@.len() == old(children)@.len() ==> children@ == old(children)@
                    && self.peek_tok() == lead,
                children@.len() > old(children)@.len() ==> lead.kind is Ident
                    && children@[old(children)@.len() as int] is Ident,
            decreases self.tokens@.len() - self.pos,
        {
            proof {
                self.lemma_peek_valid();
            }
            let tok = self.advance();
            children.push(self.mk_ident_from_token(&tok));
            self.skip_newlines();
            if self.at_exact(&TokenKind::LParen) {
                let group = self.parse_paren_names();
                children.push(group);
                self.skip_newlines();
            }
        }
    }

    /// `(name1 name2 ...)`, where keywords are allowed too.
    pub(crate) fn parse_paren_names(&mut self) -> (r: Syntax)
        requires
            old(self).wf(),
        ensures
            crate::parser::node_of_kind(r, SyntaxNodeKind::Group),
            step(*old(self), *final(self)),
            moved(*old(self), *final(self)),
    {
        let lp = self.advance();
        let lp_syn = self.mk_punct(&lp);
        let mut children = vec![lp_syn];
        self.skip_newlines();
        while !self.at_exact(&TokenKind::RParen) && !self.is_at_end()
            invariant
                step(*old(self), *self),
                moved(*old(self), *self),
            decreases self.tokens@.len() - self.pos,
        {
            proof {
                self.lemma_peek_valid();
            }
            if self.at_ident() {
                let tok = self.advance();
                children.push(self.mk_ident_from_token(&tok));
            } else if match self.peek_kind() {
                TokenKind::Keyword(_) => true,
                _ => false,
            } {
                let tok = self.advance();
                children.push(self.mk_keyword_atom(&tok));
            } else {
                self.error("expected name in parenthesized list");
                break;
            }
            self.skip_newlines();
        }
        let rp = self.expect(&TokenKind::RParen);
        children.push(self.mk_punct(&rp));
        self.mk_node(SyntaxNodeKind::Group, children)
    }

    /// `export <name> (<names>)`
    pub(crate) fn parse_export(&mut self) -> (r: Syntax)
        requires
            old(self).wf(),
        ensures
            crate::parser::node_of_kind(r, SyntaxNodeKind::Export),
            step(*old(self), *final(self)),
            moved(*old(self), *final(self)),
    {
        let kw = self.advance();
        let kw_syn = self.mk_keyword_atom(&kw);
        let mut children = vec![kw_syn];
        self.parse_open_body(&mut children);
        self.mk_node(SyntaxNodeKind::Export, children)
    }

    /// `variable <binders>`
    pub(crate) fn parse_variable(&mut self) -> (r: Syntax)
        requires
            old(self).wf(),
        ensures
            crate::parser::node_of_kind(r, SyntaxNodeKind::Variable),
            step(*old(self), *final(self)),
            moved(*old(self), *final(self)),
    {
        let kw = self.advance();
        let kw_syn = self.mk_keyword_atom(&kw);
        let mut children = vec![kw_syn];
        self.skip_newlines();
        let mut binders = self.parse_binders();
        children.append(&mut binders);
        self.mk_node(SyntaxNodeKind::Variable, children)
    }

    /// `set_option <name> <val>? (in <command>)?`
    pub(crate) fn parse_set_option(&mut self) -> (r: Syntax)
        requires
            old(self).wf(),
            old(self).pos < old(self).tokens@.len(),
        ensures
            crate::parser::node_of_kind(r, SyntaxNodeKind::SetOption),
            step(*old(self), *final(self)),
            moved(*old(self), *final(self)),
        decreases old(self).tokens@.len() - old(self).pos, 1int,
    {
        let kw = self.advance();
        let kw_syn = self.mk_keyword_atom(&kw);
        let mut children = vec![kw_syn];
        self.skip_newlines();
        let name = self.parse_ident_or_missing("expected option name");
        children.push(name);
        self.skip_newlines();
        let has_value = match self.peek_kind() {
            TokenKind::Keyword(Keyword::In) => false,
            TokenKind::Eof | TokenKind::Newline => false,
            _ => true,
        };
        if has_value {
            let val = self.parse_option_value();
            children.push(val);
            self.skip_newlines();
        }
        if self.at_keyword(Keyword::In) {
            let in_kw = self.advance();
            children.push(self.mk_keyword_atom(&in_kw));
            self.skip_newlines();
            let cmd = self.parse_command();
            children.push(cmd);
        }
        self.mk_node(SyntaxNodeKind::SetOption, children)
    }

    /// An option value: identifier, number, string, `true` or `false`.
    fn parse_option_value(&mut self) -> (r: Syntax)
        requires
            old(self).wf(),
        ensures
            step(*old(self), *final(self)),
            ({
                let k = old(self).peek_tok().kind;
                &&& k is Ident ==> r is Ident
                &&& k is NatLit ==> (r matches Syntax::Atom { val, .. } && val is NumLit)
                &&& k is StrLit ==> (r matches Syntax::Atom { val, .. } && val is StrLit)
                &&& (k == TokenKind::Keyword(Keyword::True) || k == TokenKind::Keyword(
                    Keyword::False,
                )) ==> (r matches Syntax::Atom { val, .. } && val is Keyword)
                &&& !(k is Ident || k is NatLit || k is StrLit || k == TokenKind::Keyword(
                    Keyword::True,
                ) || k == TokenKind::Keyword(Keyword::False)) ==> r is Missing
                    && final(self).errors@.len() == old(self).errors@.len() + 1
            }),
    {
        match clone_kind(self.peek_kind()) {
            TokenKind::Ident(_) => {
                let tok = self.advance();
                self.mk_ident_from_token(&tok)
            },
            TokenKind::NatLit(n) => {
                let tok = self.advance();
                self.mk_atom(&tok, AtomVal::NumLit(n))
            },
            TokenKind::StrLit(s) => {
                let tok = self.advance();
                self.mk_atom(&tok, AtomVal::StrLit(s))
            },
            TokenKind::Keyword(Keyword::True) | TokenKind::Keyword(Keyword::False) => {
                let tok = self.advance();
                self.mk_keyword_atom(&tok)
            },
            _ => {
                self.error("expected option value");
                self.mk_missing()
            },
        }
    }

    /// `attribute [attr1, ...] <names>`
    pub(crate) fn parse_attribute_cmd(&mut self) -> (r: Syntax)
        requires
            old(self).wf(),
        ensures
            crate::parser::node_of_kind(r, SyntaxNodeKind::Attribute),
            step(*old(self), *final(self)),
            moved(*old(self), *final(self)),
    {
        let kw = self.advance();
        let kw_syn = self.mk_keyword_atom(&kw);
        let mut children = vec![kw_syn];
        self.skip_newlines();
        if self.at_exact(&TokenKind::LBracket) {
            let lb = self.advance();
            children.push(self.mk_punct(&lb));
            self.skip_newlines();
            self.parse_attr_list(&mut children);
            let rb = self.expect(&TokenKind::RBracket);
            children.push(self.mk_punct(&rb));
            self.skip_newlines();
        }
        while self.at_ident()
            invariant
                step(*old(self), *self),
                moved(*old(self), *self),
            decreases self.tokens@.len() - self.pos,
        {
            proof {
                self.lemma_peek_valid();
            }
            let tok = self.advance();
            children.push(self.mk_ident_from_token(&tok));
            self.skip_newlines();
        }
        self.mk_node(SyntaxNodeKind::Attribute, children)
    }

    /// `#check`, `#eval`, `#print`, `#reduce`, `#synth`, `#exit`.
    pub(crate) fn parse_hash_command(&mut self) -> (r: Syntax)
        requires
            old(self).wf(),
        ensures
            step(*old(self), *final(self)),
            moved(*old(self), *final(self)),
            ({
                let k = old(self).peek_tok().kind;
                &&& k == TokenKind::Keyword(Keyword::Check) ==> node_of_kind(r, SyntaxNodeKind::Check)
                &&& k == TokenKind::Keyword(Keyword::Eval) ==> node_of_kind(r, SyntaxNodeKind::Eval)
                &&& k == TokenKind::Keyword(Keyword::Print) ==> node_of_kind(r, SyntaxNodeKind::Print)
                &&& k == TokenKind::Keyword(Keyword::Reduce) ==> node_of_kind(
                    r,
                    SyntaxNodeKind::Reduce,
                )
                &&& k == TokenKind::Keyword(Keyword::Synth) ==> node_of_kind(r, SyntaxNodeKind::Synth)
                &&& k == TokenKind::Keyword(Keyword::Exit) ==> node_of_kind(
                    r,
                    SyntaxNodeKind::HashCommand,
                )
            }),
    {
        let kw = self.advance();
        let kind = match &kw.kind {
            TokenKind::Keyword(Keyword::Check) => SyntaxNodeKind::Check,
            TokenKind::Keyword(Keyword::Eval) => SyntaxNodeKind::Eval,
            TokenKind::Keyword(Keyword::Print) => SyntaxNodeKind::Print,
            TokenKind::Keyword(Keyword::Reduce) => SyntaxNodeKind::Reduce,
            TokenKind::Keyword(Keyword::Synth) => SyntaxNodeKind::Synth,
            _ => SyntaxNodeKind::HashCommand,
        };
        let kw_syn = self.mk_keyword_atom(&kw);
        self.skip_newlines();
        if kind == SyntaxNodeKind::HashCommand {
            return self.mk_node(kind, vec![kw_syn]);
        }
        let expr = self.parse_expr();
        self.mk_node(kind, vec![kw_syn, expr])
    }

    /// A command that starts with an identifier: the tokens to the end of line.
    pub(crate) fn parse_ident_command(&mut self) -> (r: Syntax)
        requires
            old(self).wf(),
        ensures
            step(*old(self), *final(self)),
            moved(*old(self), *final(self)),
            r matches Syntax::Node { kind, .. } && kind == SyntaxNodeKind::Command,
    {
        let first = self.advance();
        let mut children = vec![self.mk_ident_from_token(&first)];
        loop
            invariant
                step(*old(self), *self),
                moved(*old(self), *self),
            decreases self.tokens@.len() - self.pos,
        {
            proof {
                self.lemma_peek_valid();
            }
            match self.peek_kind() {
                TokenKind::Newline | TokenKind::Eof => break,
                _ => {
                    let tok = self.advance();
                    let syn = match clone_kind(&tok.kind) {
                        TokenKind::Ident(_) => self.mk_ident_from_token(&tok),
                        TokenKind::Keyword(_) => self.mk_keyword_atom(&tok),
                        TokenKind::NatLit(n) => self.mk_atom(&tok, AtomVal::NumLit(n)),
                        TokenKind::StrLit(s) => self.mk_atom(&tok, AtomVal::StrLit(s)),
                        TokenKind::CharLit(c) => {
                            let v = vec![c];
                            self.mk_atom(&tok, AtomVal::CharLit(string_from_chars(v.as_slice())))
                        },
                        TokenKind::ScientificLit(s) => self.mk_atom(&tok, AtomVal::ScientificLit(s)),
                        _ => self.mk_punct(&tok),
                    };
                    children.push(syn);
                },
            }
        }
        self.mk_node(SyntaxNodeKind::Command, children)
    }

    /// `initialize` / `builtin_initialize` declarations.
    pub(crate) fn parse_initialize(&mut self) -> (r: Syntax)
        requires
            old(self).wf(),
        ensures
            step(*old(self), *final(self)),
            moved(*old(self), *final(self)),
            r matches Syntax::Node { kind, .. } && kind == SyntaxNodeKind::Initialize,
    {
        let kw = self.advance();
        let kw_syn = self.mk_keyword_atom(&kw);
        let mut children = vec![kw_syn];
        self.skip_newlines();
        if self.at_ident() {
            let tok = self.advance();
            children.push(self.mk_ident_from_token(&tok));
            self.skip_newlines();
        }
        if self.at_exact(&TokenKind::Colon) {
            let colon = self.advance();
            children.push(self.mk_punct(&colon));
            self.skip_newlines();
            let ty = self.parse_expr();
            children.push(ty);
            self.skip_newlines();
        }
        if self.at_exact(&TokenKind::ColonEq) || self.at_exact(&TokenKind::LArrow) {
            let sep = self.advance();
            children.push(self.mk_punct(&sep));
            self.skip_newlines();
            let val = self.parse_expr();
            children.push(val);
        }
        self.mk_node(SyntaxNodeKind::Initialize, children)
    }

    /// `notation` / `macro` / `syntax` / `elab` and friends: the tokens up to
    /// the next command keyword or doc comment at column 0.
    pub(crate) fn parse_notation(&mut self) -> (r: Syntax)
        requires
            old(self).wf(),
        ensures
            step(*old(self), *final(self)),
            moved(*old(self), *final(self)),
            r matches Syntax::Node { kind, .. } && kind == SyntaxNodeKind::Command,
    {
        let kw = self.advance();
        let kw_syn = self.mk_keyword_atom(&kw);
        let mut children = vec![kw_syn];
        self.skip_newlines();
        while !self.is_at_end()
            invariant
                step(*old(self), *self),
                moved(*old(self), *self),
            decreases self.tokens@.len() - self.pos,
        {
            self.skip_newlines();
            if self.is_at_end() {
                break;
            }
            let at_command_kw = match self.peek_kind() {
                TokenKind::Keyword(kw) => is_command_keyword(kw),
                _ => false,
            };
            if at_command_kw && self.current_column() == 0 {
                break;
            }
            let at_doc = match self.peek_kind() {
                TokenKind::DocComment(_) | TokenKind::ModuleDoc(_) => true,
                _ => false,
            };
            if at_doc && self.current_column() == 0 {
                break;
            }
            proof {
                self.lemma_peek_valid();
            }
            let tok = self.advance();
            children.push(self.mk_punct(&tok));
        }
        self.mk_node(SyntaxNodeKind::Command, children)
    }

    /// A declaration id: a (dotted) name with optional `.{u, v, ...}`.
    pub(crate) fn parse_decl_id(&mut self) -> (r: Syntax)
        requires
            old(self).wf(),
        ensures
            step(*old(self), *final(self)),
            r matches Syntax::Node { kind, .. } && kind == SyntaxNodeKind::DeclId,
    {
        self.skip_newlines();
        let mut children: Vec<Syntax> = Vec::new();
        if self.at_ident() {
            let tok = self.advance();
            children.push(self.mk_ident_from_token(&tok));
        } else if match self.peek_kind() {
            TokenKind::Keyword(_) => true,
            _ => false,
        } {
            let tok = self.advance();
            children.push(self.mk_keyword_atom(&tok));
        } else {
            self.error("expected declaration name");
            children.push(self.mk_missing());
            return self.mk_node(SyntaxNodeKind::DeclId, children);
        }
        loop
            invariant
                step(*old(self), *self),
            decreases self.tokens@.len() - self.pos,
        {
            if !self.at_exact(&TokenKind::Dot) {
                break;
            }
            proof {
                self.lemma_peek_valid();
            }
            let dot_pos = self.pos;
            let dot = self.advance();
            if self.at_exact(&TokenKind::LBrace) {
                self.pos = dot_pos;
                break;
            }
            self.skip_newlines();
            if self.at_ident() {
                let name = self.advance();
                children.push(self.mk_punct(&dot));
                children.push(self.mk_ident_from_token(&name));
            } else if match self.peek_kind() {
                TokenKind::Keyword(_) => true,
                _ => false,
            } {
                let name = self.advance();
                children.push(self.mk_punct(&dot));
                children.push(self.mk_keyword_atom(&name));
            } else {
                self.pos = dot_pos;
                break;
            }
        }
        if self.at_exact(&TokenKind::Dot) {
            proof {
                self.lemma_peek_valid();
            }
            let dot_pos = self.pos;
            let dot = self.advance();
            if self.at_exact(&TokenKind::LBrace) {
                children.push(self.mk_punct(&dot));
                let lb = self.advance();
                children.push(self.mk_punct(&lb));
                self.skip_newlines();
                loop
                    invariant
                        step(*old(self), *self),
                    decreases self.tokens@.len() - self.pos,
                {
                    if self.at_exact(&TokenKind::RBrace) || self.is_at_end() {
                        break;
                    }
                            let uname = self.parse_ident_or_missing("expected universe variable name");
                    children.push(uname);
                    self.skip_newlines();
                    if self.eat_exact(&TokenKind::Comma).is_some() {
                        let comma = &self.tokens[self.pos - 1];
                        proof {
                            assert(self.valid_span(self.tokens@[self.pos - 1].span));
                        }
                        children.push(self.mk_punct(comma));
                        self.skip_newlines();
                    } else {
                        break;
                    }
                }
                let rb = self.expect(&TokenKind::RBrace);
                children.push(self.mk_punct(&rb));
            } else {
                self.pos = dot_pos;
            }
        }
        self.mk_node(SyntaxNodeKind::DeclId, children)
    }

    /// Binders while the current token opens one.
    fn parse_binder_groups(&mut self, children: &mut Vec<Syntax>)
        requires
            old(self).wf(),
        ensures
            step(*old(self), *final(self)),
            old(children)@.is_prefix_of(final(children)@),
            (old(self).peek_tok().kind is LParen || old(self).peek_tok().kind is LBrace
                || old(self).peek_tok().kind is LBracket || old(self).peek_tok().kind is LDblAngle)
                ==> final(children)@.len() > old(children)@.len(),
            !(old(self).peek_tok().kind is LParen || old(self).peek_tok().kind is LBrace
                || old(self).peek_tok().kind is LBracket || old(self).peek_tok().kind is LDblAngle)
                ==> final(children)@ == old(children)@ && *final(self) == *old(self),
    {
        while self.at_binder_start()
            invariant
                step(*old(self), *self),
                old(children)@.is_prefix_of(children@),
                children@.len() == old(children)@.len() ==> children@ == old(children)@ && *self
                    == *old(self),
                children@.len() > old(children)@.len() ==> (old(self).peek_tok().kind is LParen
                    || old(self).peek_tok().kind is LBrace || old(self).peek_tok().kind is LBracket
                    || old(self).peek_tok().kind is LDblAngle),
            decreases self.tokens@.len() - self.pos,
        {
            proof {
                self.lemma_peek_valid();
            }
            let b = self.parse_single_binder();
            children.push(b);
            self.skip_newlines();
        }
    }

    /// `def`, `theorem`, `abbrev`, `opaque`, `instance`, `example`, `axiom`.
    pub(crate) fn parse_declaration(&mut self, kind: SyntaxNodeKind) -> (r: Syntax)
        requires
            old(self).wf(),
            old(self).pos < old(self).tokens@.len(),
        ensures
            step(*old(self), *final(self)),
            moved(*old(self), *final(self)),
            r matches Syntax::Node { kind: k, .. } && k == kind,
            r matches Syntax::Node { children, .. } && children@.len() >= 2
                && (children@[0] matches Syntax::Atom { val: AtomVal::Keyword(_), .. })
                && node_of_kind(children@[1], SyntaxNodeKind::DeclId),
        decreases old(self).tokens@.len() - old(self).pos, 1int,
    {
        let kw = self.advance();
        let kw_syn = self.mk_keyword_atom(&kw);
        let mut children = vec![kw_syn];
        self.skip_newlines();
        let decl_id = self.parse_decl_id();
        children.push(decl_id);
        let ghost head = children@;
        self.skip_newlines();
        let ghost c0 = children@;
        self.parse_binder_groups(&mut children);
        proof {
            assert(children@.subrange(0, c0.len() as int)[0] == children@[0]);
            assert(children@.subrange(0, c0.len() as int)[1] == children@[1]);
        }
        if let Some(ty) = self.parse_opt_type_annot() {
            children.push(self.mk_node(SyntaxNodeKind::DeclSig, vec![ty]));
        }
        self.skip_newlines();
        let ghost c1 = children@;
        proof {
            assert(c1[0] == head[0] && c1[1] == head[1]);
        }
        self.parse_decl_value(&mut children);
        proof {
            assert(children@.subrange(0, c1.len() as int)[0] == children@[0]);
            assert(children@.subrange(0, c1.len() as int)[1] == children@[1]);
        }
        self.skip_newlines();
        if self.at_keyword(Keyword::Where) && kind != SyntaxNodeKind::Axiom {
            proof {
                self.lemma_peek_valid();
            }
            let where_clause = self.parse_where_clause();
            children.push(where_clause);
        }
        let ghost c2 = children@;
        proof {
            assert(c2[0] == head[0] && c2[1] == head[1]);
        }
        self.parse_termination_hints(&mut children);
        proof {
            assert(children@.subrange(0, c2.len() as int)[0] == children@[0]);
            assert(children@.subrange(0, c2.len() as int)[1] == children@[1]);
        }
        self.mk_node(kind, children)
    }

    /// The value of a declaration: `:= e` or match alternatives.
    fn parse_decl_value(&mut self, children: &mut Vec<Syntax>)
        requires
            old(self).wf(),
        ensures
            step(*old(self), *final(self)),
            old(children)@.is_prefix_of(final(children)@),
            old(self).lead_tok().kind is ColonEq ==> final(children)@.len() == old(children)@.len()
                + 2 && node_of_kind(final(children)@.last(), SyntaxNodeKind::DeclValSimple),
            old(self).lead_tok().kind is Pipe ==> final(children)@.len() == old(children)@.len() + 1
                && node_of_kind(final(children)@.last(), SyntaxNodeKind::DeclValEqns),
            !(old(self).lead_tok().kind is ColonEq || old(self).lead_tok().kind is Pipe)
                ==> final(children)@ == old(children)@,
    {
        self.skip_newlines();
        proof {
            self.lemma_peek_valid();
        }
        match self.peek_kind() {
            TokenKind::ColonEq => {
                let assign = self.advance();
                children.push(self.mk_punct(&assign));
                self.skip_newlines();
                let val = self.parse_expr();
                children.push(self.mk_node(SyntaxNodeKind::DeclValSimple, vec![val]));
            },
            TokenKind::Pipe => {
                let alts = self.parse_match_alts();
                children.push(self.mk_node(SyntaxNodeKind::DeclValEqns, vec![alts]));
            },
            _ => {},
        }
    }

    /// `where` followed by local commands indented past column 0.
    fn parse_where_clause(&mut self) -> (r: Syntax)
        requires
            old(self).wf(),
            old(self).pos < old(self).tokens@.len(),
        ensures
            crate::parser::node_of_kind(r, SyntaxNodeKind::WhereDecls),
            step(*old(self), *final(self)),
            moved(*old(self), *final(self)),
        decreases old(self).tokens@.len() - old(self).pos, 1int,
    {
        let kw = self.advance();
        let kw_syn = self.mk_keyword_atom(&kw);
        let mut children = vec![kw_syn];
        self.skip_newlines();
        let base_col = self.current_column();
        loop
            invariant
                step(*old(self), *self),
                moved(*old(self), *self),
            decreases self.tokens@.len() - self.pos,
        {
            self.skip_newlines();
            if self.is_at_end() {
                break;
            }
            let col = self.current_column();
            if col < base_col {
                break;
            }
            if self.at_command_start() {
                if col > 0 {
                    proof {
                        self.lemma_peek_valid();
                    }
                    let saved = self.pos;
                    let cmd = self.parse_command();
                    children.push(cmd);
                    if self.pos == saved {
                        self.advance();
                    }
                } else {
                    break;
                }
            } else {
                break;
            }
        }
        self.mk_node(SyntaxNodeKind::WhereDecls, children)
    }

    /// Optional `termination_by e` and `decreasing_by tactics`.
    fn parse_termination_hints(&mut self, children: &mut Vec<Syntax>)
        requires
            old(self).wf(),
        ensures
            step(*old(self), *final(self)),
            old(children)@.is_prefix_of(final(children)@),
            old(self).lead_tok().kind matches TokenKind::Ident(t) && t@ == "termination_by"@
                ==> final(children)@.len() > old(children)@.len() && node_of_kind(
                final(children)@[old(children)@.len() as int],
                SyntaxNodeKind::TerminationBy,
            ),
            old(self).lead_tok().kind matches TokenKind::Ident(t) && t@ == "decreasing_by"@
                ==> final(children)@.len() == old(children)@.len() + 1 && node_of_kind(
                final(children)@[old(children)@.len() as int],
                SyntaxNodeKind::DecreasingBy,
            ),
            !(old(self).lead_tok().kind matches TokenKind::Ident(t) && (t@ == "termination_by"@
                || t@ == "decreasing_by"@)) ==> final(children)@ == old(children)@,
    {
        proof {
            reveal_strlit("termination_by");
            reveal_strlit("decreasing_by");
        }
        self.skip_newlines();
        if self.at_ident() {
            let is_term = match self.peek_kind() {
                TokenKind::Ident(s) => str_eq(s.as_str(), "termination_by"),
                _ => false,
            };
            proof {
                if old(self).lead_tok().kind matches TokenKind::Ident(t) && t@ == "decreasing_by"@ {
                    assert("decreasing_by"@.len() != "termination_by"@.len());
                    assert(!is_term);
                }
            }
            if is_term {
                let kw = self.advance();
                let kw_syn = self.mk_ident_from_token(&kw);
                self.skip_newlines();
                let expr = self.parse_expr();
                children.push(self.mk_node(SyntaxNodeKind::TerminationBy, vec![kw_syn, expr]));
                self.skip_newlines();
            }
            let is_dec = match self.peek_kind() {
                TokenKind::Ident(s) => str_eq(s.as_str(), "decreasing_by"),
                _ => false,
            };
            if is_dec {
                let kw = self.advance();
                let kw_syn = self.mk_ident_from_token(&kw);
                self.skip_newlines();
                let tac = self.parse_tactic_seq();
                children.push(self.mk_node(SyntaxNodeKind::DecreasingBy, vec![kw_syn, tac]));
            }
        }
    }

    /// `structure Name binders extends ... : Type where fields deriving ...`
    pub(crate) fn parse_structure(&mut self) -> (r: Syntax)
        requires
            old(self).wf(),
        ensures
            step(*old(self), *final(self)),
            moved(*old(self), *final(self)),
            r matches Syntax::Node { kind, .. } && kind == SyntaxNodeKind::Structure,
    {
        let kw = self.advance();
        let kw_syn = self.mk_keyword_atom(&kw);
        let mut children = vec![kw_syn];
        self.skip_newlines();
        let decl_id = self.parse_decl_id();
        children.push(decl_id);
        self.skip_newlines();
        self.parse_binder_groups(&mut children);
        if self.at_keyword(Keyword::Extends) {
            let ext = self.parse_extends();
            children.push(ext);
            self.skip_newlines();
        }
        if let Some(ty) = self.parse_opt_type_annot() {
            children.push(ty);
        }
        self.skip_newlines();
        if self.at_keyword(Keyword::Where) {
            let where_kw = self.advance();
            children.push(self.mk_keyword_atom(&where_kw));
            self.skip_newlines();
            if self.at_ident() {
                let is_ctor = match self.peek_nth_non_newline(1).kind {
                    TokenKind::ColonColon => true,
                    _ => false,
                };
                if is_ctor {
                    let ctor_name = self.advance();
                    children.push(self.mk_ident_from_token(&ctor_name));
                    let cc = self.advance();
                    children.push(self.mk_punct(&cc));
                    self.skip_newlines();
                }
            }
            let fields = self.parse_struct_fields_decl();
            children.push(fields);
        }
        if self.at_keyword(Keyword::Deriving) {
            let deriving = self.parse_deriving();
            children.push(deriving);
        }
        self.mk_node(SyntaxNodeKind::Structure, children)
    }

    /// `extends A, B, ...`
    fn parse_extends(&mut self) -> (r: Syntax)
        requires
            old(self).wf(),
        ensures
            crate::parser::node_of_kind(r, SyntaxNodeKind::Extends),
            step(*old(self), *final(self)),
            moved(*old(self), *final(self)),
    {
        let kw = self.advance();
        let kw_syn = self.mk_keyword_atom(&kw);
        let mut children = vec![kw_syn];
        self.skip_newlines();
        let first = self.parse_expr();
        children.push(first);
        while self.eat_exact(&TokenKind::Comma).is_some()
            invariant
                step(*old(self), *self),
                moved(*old(self), *self),
                self.pos > 0,
            decreases self.tokens@.len() - self.pos,
        {
            let comma = &self.tokens[self.pos - 1];
            proof {
                assert(self.valid_span(self.tokens@[self.pos - 1].span));
            }
            children.push(self.mk_punct(comma));
            self.skip_newlines();
            let e = self.parse_expr();
            children.push(e);
            self.skip_newlines();
        }
        self.mk_node(SyntaxNodeKind::Extends, children)
    }

    /// The fields of a structure or class, while indented at least as deep
    /// as the first.
    fn parse_struct_fields_decl(&mut self) -> (r: Syntax)
        requires
            old(self).wf(),
        ensures
            crate::parser::node_of_kind(r, SyntaxNodeKind::StructFields),
            step(*old(self), *final(self)),
    {
        let mut fields: Vec<Syntax> = Vec::new();
        let base_col = self.current_column();
        loop
            invariant
                step(*old(self), *self),
            decreases self.tokens@.len() - self.pos,
        {
            self.skip_newlines();
            if self.is_at_end() {
                break;
            }
            let col = self.current_column();
            if col < base_col {
                break;
            }
            if self.at_keyword(Keyword::Deriving) {
                break;
            }
            if self.at_command_start() && col <= base_col {
                break;
            }
            proof {
                self.lemma_peek_valid();
            }
            let saved = self.pos;
            let field = self.parse_struct_field_decl();
            fields.push(field);
            if self.pos == saved {
                self.advance();
            }
        }
        self.mk_node(SyntaxNodeKind::StructFields, fields)
    }

    /// A field: doc comment, attributes, names, `: type`, `:= default`.
    fn parse_struct_field_decl(&mut self) -> (r: Syntax)
        requires
            old(self).wf(),
        ensures
            crate::parser::node_of_kind(r, SyntaxNodeKind::StructField),
            step(*old(self), *final(self)),
    {
        let mut children: Vec<Syntax> = Vec::new();
        if let TokenKind::DocComment(text) = clone_kind(self.peek_kind()) {
            let tok = self.advance();
            children.push(self.mk_atom(&tok, AtomVal::DocComment(text)));
            self.skip_newlines();
        }
        if let Some(attrs) = self.parse_attributes_opt() {
            children.push(attrs);
            self.skip_newlines();
        }
        while self.at_ident() || self.at_exact(&TokenKind::Underscore)
            invariant
                step(*old(self), *self),
            decreases self.tokens@.len() - self.pos,
        {
            proof {
                self.lemma_peek_valid();
            }
            let tok = self.advance();
            let syn = match tok.kind {
                TokenKind::Underscore => self.mk_punct(&tok),
                _ => self.mk_ident_from_token(&tok),
            };
            children.push(syn);
            self.skip_newlines();
        }
        if let Some(ty) = self.parse_opt_type_annot() {
            children.push(ty);
        }
        self.skip_newlines();
        if self.at_exact(&TokenKind::ColonEq) {
            let assign = self.advance();
            children.push(self.mk_punct(&assign));
            self.skip_newlines();
            let e = self.parse_expr();
            children.push(e);
        }
        self.mk_node(SyntaxNodeKind::StructField, children)
    }

    /// `class`, parsed like a structure (or `class inductive`).
    pub(crate) fn parse_class(&mut self) -> (r: Syntax)
        requires
            old(self).wf(),
        ensures
            step(*old(self), *final(self)),
            moved(*old(self), *final(self)),
            r matches Syntax::Node { kind, .. } && kind == SyntaxNodeKind::ClassDecl,
    {
        let kw = self.advance();
        let kw_syn = self.mk_keyword_atom(&kw);
        let mut children = vec![kw_syn];
        self.skip_newlines();
        if self.at_keyword(Keyword::Inductive) {
            let ind = self.parse_inductive();
            children.push(ind);
            return self.mk_node(SyntaxNodeKind::ClassDecl, children);
        }
        let decl_id = self.parse_decl_id();
        children.push(decl_id);
        self.skip_newlines();
        self.parse_binder_groups(&mut children);
        if self.at_keyword(Keyword::Extends) {
            let ext = self.parse_extends();
            children.push(ext);
            self.skip_newlines();
        }
        if let Some(ty) = self.parse_opt_type_annot() {
            children.push(ty);
        }
        self.skip_newlines();
        if self.at_keyword(Keyword::Where) {
            let where_kw = self.advance();
            children.push(self.mk_keyword_atom(&where_kw));
            self.skip_newlines();
            let fields = self.parse_struct_fields_decl();
            children.push(fields);
        }
        if self.at_keyword(Keyword::Deriving) {
            let deriving = self.parse_deriving();
            children.push(deriving);
        }
        self.mk_node(SyntaxNodeKind::ClassDecl, children)
    }

    /// `inductive Name binders : Type where | ctor ...`
    pub(crate) fn parse_inductive(&mut self) -> (r: Syntax)
        requires
            old(self).wf(),
        ensures
            step(*old(self), *final(self)),
            moved(*old(self), *final(self)),
            r matches Syntax::Node { kind, .. } && kind == SyntaxNodeKind::Inductive,
    {
        let kw = self.advance();
        let kw_syn = self.mk_keyword_atom(&kw);
        let mut children = vec![kw_syn];
        self.skip_newlines();
        let decl_id = self.parse_decl_id();
        children.push(decl_id);
        self.skip_newlines();
        self.parse_binder_groups(&mut children);
        if let Some(ty) = self.parse_opt_type_annot() {
            children.push(ty);
        }
        self.skip_newlines();
        if self.at_keyword(Keyword::Where) {
            let where_kw = self.advance();
            children.push(self.mk_keyword_atom(&where_kw));
            self.skip_newlines();
        }
        let base_col = self.current_column();
        loop
            invariant
                step(*old(self), *self),
                moved(*old(self), *self),
            decreases self.tokens@.len() - self.pos,
        {
            self.skip_newlines();
            if self.is_at_end() {
                break;
            }
            let documented_ctor = match self.peek_kind() {
                TokenKind::DocComment(_) => true,
                _ => false,
            } && match self.peek_nth_non_newline(1).kind {
                TokenKind::Pipe => true,
                _ => false,
            };
            if !self.at_exact(&TokenKind::Pipe) && !documented_ctor {
                let col = self.current_column();
                if col <= base_col && self.at_command_start() {
                    break;
                }
                if col < base_col {
                    break;
                }
                if self.at_keyword(Keyword::Deriving) {
                    break;
                }
                if !self.at_ident() {
                    break;
                }
            }
            proof {
                self.lemma_peek_valid();
            }
            let ctor = self.parse_constructor();
            children.push(ctor);
        }
        if self.at_keyword(Keyword::Deriving) {
            let deriving = self.parse_deriving();
            children.push(deriving);
        }
        self.mk_node(SyntaxNodeKind::Inductive, children)
    }

    /// A constructor: doc comment, `|`, name, binders, `: type`.
    fn parse_constructor(&mut self) -> (r: Syntax)
        requires
            old(self).wf(),
        ensures
            crate::parser::node_of_kind(r, SyntaxNodeKind::Ctor),
            step(*old(self), *final(self)),
            old(self).peek_tok().kind is Pipe || old(self).peek_tok().kind is Ident || old(
                self,
            ).peek_tok().kind is DocComment ==> moved(*old(self), *final(self)),
    {
        let mut children: Vec<Syntax> = Vec::new();
        if let TokenKind::DocComment(text) = clone_kind(self.peek_kind()) {
            let tok = self.advance();
            children.push(self.mk_atom(&tok, AtomVal::DocComment(text)));
            self.skip_newlines();
        }
        if self.eat_exact(&TokenKind::Pipe).is_some() {
            let pipe = &self.tokens[self.pos - 1];
            proof {
                assert(self.valid_span(self.tokens@[self.pos - 1].span));
            }
            children.push(self.mk_punct(pipe));
            self.skip_newlines();
        }
        if let TokenKind::DocComment(text) = clone_kind(self.peek_kind()) {
            let tok = self.advance();
            children.push(self.mk_atom(&tok, AtomVal::DocComment(text)));
            self.skip_newlines();
        }
        let name = if self.at_ident() {
            let tok = self.advance();
            self.mk_ident_from_token(&tok)
        } else if match self.peek_kind() {
            TokenKind::Keyword(_) => true,
            _ => false,
        } {
            let tok = self.advance();
            self.mk_keyword_atom(&tok)
        } else {
            self.error("expected constructor name");
            self.mk_missing()
        };
        children.push(name);
        self.skip_newlines();
        self.parse_binder_groups(&mut children);
        if let Some(ty) = self.parse_opt_type_annot() {
            children.push(ty);
        }
        self.mk_node(SyntaxNodeKind::Ctor, children)
    }

    /// `deriving A, B, ...`
    fn parse_deriving(&mut self) -> (r: Syntax)
        requires
            old(self).wf(),
        ensures
            crate::parser::node_of_kind(r, SyntaxNodeKind::Deriving),
            step(*old(self), *final(self)),
            moved(*old(self), *final(self)),
    {
        let kw = self.advance();
        let kw_syn = self.mk_keyword_atom(&kw);
        let mut children = vec![kw_syn];
        self.skip_newlines();
        if self.at_ident() {
            let tok = self.advance();
            children.push(self.mk_ident_from_token(&tok));
            while self.eat_exact(&TokenKind::Comma).is_some()
                invariant
                    step(*old(self), *self),
                    moved(*old(self), *self),
                    self.pos > 0,
                decreases self.tokens@.len() - self.pos,
            {
                let comma = &self.tokens[self.pos - 1];
                proof {
                    assert(self.valid_span(self.tokens@[self.pos - 1].span));
                }
                children.push(self.mk_punct(comma));
                self.skip_newlines();
                if self.at_ident() {
                    let tok = self.advance();
                    children.push(self.mk_ident_from_token(&tok));
                }
                self.skip_newlines();
            }
        }
        self.mk_node(SyntaxNodeKind::Deriving, children)
    }
}

} // verus!
