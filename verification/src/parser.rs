//! The recursive-descent parser: its state, token navigation, node
//! construction, error recording and indentation tracking.
use vstd::prelude::*;
use vstd::string::StringSliceAdditionalSpecFns;

use crate::keyword::{keyword_text, Keyword};
use crate::lexer::tokenize;
use crate::name::{Limb, Name};
use crate::node_kind::SyntaxNodeKind;
use crate::span::{SourceInfo, Span};
use crate::syntax::{AtomVal, Syntax};
use crate::text::{chars_of, push_all, string_from_chars, string_from_utf8_lossy, utf8_lossy};
use crate::tokkind::{
    clone_token, kind_debug, kind_debug_text, kind_equiv, kinds_equal, same_variant,
    same_variant_exec,
};
use crate::token::{Token, TokenKind};

verus! {

/// An error recorded during parsing.
#[derive(Clone, Debug)]
pub struct ParseError {
    pub span: Span,
    pub message: String,
}

/// Result of parsing a source file.
#[derive(Debug)]
pub struct ParseResult {
    pub syntax: Syntax,
    pub errors: Vec<ParseError>,
}

/// Recursive-descent parser for Lean 4 syntax.
pub struct Parser<'a> {
    pub source: &'a str,
    pub tokens: Vec<Token>,
    pub pos: usize,
    pub errors: Vec<ParseError>,
    /// Stack of expected indentation columns for block-level constructs.
    pub indent_stack: Vec<u32>,
}

/// The index of the `n`-th token from `i` on that is not a newline (the last
/// token when there is none).
pub open spec fn nth_non_newline(toks: Seq<Token>, i: int, n: nat) -> int
    decreases toks.len() - i,
{
    if i < 0 || i >= toks.len() {
        toks.len() - 1
    } else if toks[i].kind is Newline {
        nth_non_newline(toks, i + 1, n)
    } else if n == 0 {
        i
    } else {
        nth_non_newline(toks, i + 1, (n - 1) as nat)
    }
}

/// `q` is a later state of the same parse as `p`: same source and tokens, a
/// position no further back, errors only appended, the same indentation stack.
pub open spec fn advanced<'a>(p: Parser<'a>, q: Parser<'a>) -> bool {
    &&& q.source == p.source
    &&& q.tokens@ == p.tokens@
    &&& p.pos <= q.pos
    &&& p.errors@.is_prefix_of(q.errors@)
    &&& q.indent_stack@ == p.indent_stack@
}

/// `q` is a consistent later state of the same parse as `p`.
pub open spec fn step<'a>(p: Parser<'a>, q: Parser<'a>) -> bool {
    q.wf() && advanced(p, q)
}

/// `s` is a node of kind `k`.
pub open spec fn node_of_kind(s: Syntax, k: SyntaxNodeKind) -> bool {
    s matches Syntax::Node { kind, .. } && kind == k
}

/// From `p` to `q` at least one token was consumed, unless `p` was past the end.
pub open spec fn moved<'a>(p: Parser<'a>, q: Parser<'a>) -> bool {
    p.pos < p.tokens@.len() ==> p.pos < q.pos
}

/// The index of the last `'\n'` byte before `pos`, plus one (0 when there is none).
pub open spec fn line_start(bytes: Seq<u8>, pos: int) -> int
    decreases pos,
{
    if pos <= 0 {
        0
    } else if bytes[pos - 1] == 10 {
        pos
    } else {
        line_start(bytes, pos - 1)
    }
}

impl<'a> Parser<'a> {
    /// The number of bytes of the source.
    pub open spec fn byte_len(&self) -> nat {
        self.source.spec_bytes().len()
    }

    /// The current token (the final `Eof` once past the end).
    pub open spec fn peek_tok(&self) -> Token {
        if self.pos < self.tokens@.len() {
            self.tokens@[self.pos as int]
        } else {
            self.tokens@.last()
        }
    }

    /// The first token at or after the position that is not a newline.
    pub open spec fn lead_tok(&self) -> Token {
        self.tokens@[nth_non_newline(self.tokens@, self.pos as int, 0)]
    }

    /// `s` lies within the source.
    pub open spec fn valid_span(&self, s: Span) -> bool {
        s.start <= s.end && s.end <= self.byte_len()
    }

    /// The parser's state is consistent: the tokens end with `Eof` at the end
    /// of the source, every token and every error lies within the source, and
    /// the position is at most one past the last token.
    pub open spec fn wf(&self) -> bool {
        &&& self.tokens@.len() > 0
        &&& self.tokens@.last().kind is Eof
        &&& self.tokens@.last().span == (Span {
            start: self.byte_len() as u32,
            end: self.byte_len() as u32,
        })
        &&& self.pos <= self.tokens@.len()
        &&& self.tokens@.len() <= usize::MAX
        &&& self.byte_len() <= u32::MAX
        &&& forall|k: int| 0 <= k < self.tokens@.len() ==> self.valid_span(#[trigger] self.tokens@[k].span)
        &&& forall|k: int| 0 <= k < self.errors@.len() ==> self.valid_span(#[trigger] self.errors@[k].span)
    }

    /// The current token is `Eof`.
    pub open spec fn at_eof(&self) -> bool {
        self.peek_tok().kind is Eof
    }

    /// The column (0-based, in bytes) of byte position `p`.
    pub open spec fn column_at(&self, p: int) -> int {
        p - line_start(self.source.spec_bytes(), p)
    }

    pub fn new(source: &'a str) -> (r: Self)
        requires
            source.spec_bytes().len() <= u32::MAX,
        ensures
            r.wf(),
            r.source == source,
            r.pos == 0,
            r.errors@.len() == 0,
            source@.len() == 0 ==> r.tokens@.len() == 1,
            crate::lexer::lexes(source@, source.spec_bytes().len(), r.tokens@),
            r.indent_stack@.len() == 0,
    {
        let tokens = tokenize(source);
        let _n = tokens.len();
        let r = Parser { source, tokens, pos: 0, errors: Vec::new(), indent_stack: Vec::new() };
        proof {
            let n = r.tokens@.len();
            assert forall|k: int| 0 <= k < n implies r.valid_span(#[trigger] r.tokens@[k].span) by {
                assert(r.tokens@[k].span.end <= r.byte_len());
            }
        }
        r
    }

    /// The current token (never past the end: the final `Eof` stands in).
    pub(crate) fn peek(&self) -> (r: &Token)
        requires
            self.wf(),
        ensures
            *r == self.peek_tok(),
    {
        if self.pos < self.tokens.len() {
            &self.tokens[self.pos]
        } else {
            &self.tokens[self.tokens.len() - 1]
        }
    }

    /// The kind of the current token.
    pub(crate) fn peek_kind(&self) -> (r: &TokenKind)
        requires
            self.wf(),
        ensures
            *r == self.peek_tok().kind,
    {
        &self.peek().kind
    }

    /// Look ahead by `n` tokens, skipping newlines.
    pub(crate) fn peek_nth_non_newline(&self, n: usize) -> (r: &Token)
        requires
            self.wf(),
        ensures
            *r == self.tokens@[nth_non_newline(self.tokens@, self.pos as int, n as nat)],
            0 <= nth_non_newline(self.tokens@, self.pos as int, n as nat) < self.tokens@.len(),
    {
        let mut seen: usize = 0;
        let mut i = self.pos;
        while i < self.tokens.len()
            invariant
                self.wf(),
                self.pos <= i <= self.tokens@.len(),
                seen <= n,
                nth_non_newline(self.tokens@, self.pos as int, n as nat) == nth_non_newline(
                    self.tokens@,
                    i as int,
                    (n - seen) as nat,
                ),
            decreases self.tokens@.len() - i,
        {
            let is_nl = match self.tokens[i].kind {
                TokenKind::Newline => true,
                _ => false,
            };
            if !is_nl {
                if seen == n {
                    return &self.tokens[i];
                }
                seen = seen + 1;
            }
            i = i + 1;
        }
        &self.tokens[self.tokens.len() - 1]
    }

    /// Consume the current token and move on.
    pub(crate) fn advance(&mut self) -> (tok: Token)
        requires
            old(self).wf(),
        ensures
            final(self).wf(),
            advanced(*old(self), *final(self)),
            old(self).pos < old(self).tokens@.len() ==> final(self).pos == old(self).pos + 1,
            old(self).pos >= old(self).tokens@.len() ==> final(self).pos == old(self).pos,
            final(self).errors@ == old(self).errors@,
            tok.span == old(self).peek_tok().span,
            kind_equiv(tok.kind, old(self).peek_tok().kind),
            same_variant(tok.kind, old(self).peek_tok().kind),
            final(self).valid_span(tok.span),
    {
        let tok = if self.pos < self.tokens.len() {
            clone_token(&self.tokens[self.pos])
        } else {
            let eof_span = self.eof_span();
            Token::new(TokenKind::Eof, eof_span)
        };
        if self.pos < self.tokens.len() {
            self.pos = self.pos + 1;
        }
        tok
    }

    /// True when the parser has reached the end of input.
    pub(crate) fn is_at_end(&self) -> (b: bool)
        requires
            self.wf(),
        ensures
            b == self.at_eof(),
    {
        match self.peek_kind() {
            TokenKind::Eof => true,
            _ => false,
        }
    }

    /// Skip over any `Newline` tokens.
    pub(crate) fn skip_newlines(&mut self)
        requires
            old(self).wf(),
        ensures
            final(self).wf(),
            advanced(*old(self), *final(self)),
            final(self).errors@ == old(self).errors@,
            !(final(self).peek_tok().kind is Newline),
            !(old(self).peek_tok().kind is Newline) ==> final(self).pos == old(self).pos,
            final(self).peek_tok() == old(self).lead_tok(),
    {
        while self.at_newline()
            invariant
                self.wf(),
                advanced(*old(self), *self),
                self.errors@ == old(self).errors@,
                !(old(self).peek_tok().kind is Newline) ==> self.pos == old(self).pos,
                nth_non_newline(self.tokens@, self.pos as int, 0) == nth_non_newline(
                    self.tokens@,
                    old(self).pos as int,
                    0,
                ),
            decreases self.tokens@.len() - self.pos,
        {
            proof {
                self.lemma_peek_valid();
            }
            self.pos = self.pos + 1;
        }
        proof {
            if self.pos < self.tokens@.len() {
                assert(nth_non_newline(self.tokens@, self.pos as int, 0) == self.pos);
            } else {
                assert(nth_non_newline(self.tokens@, self.pos as int, 0) == self.tokens@.len() - 1);
            }
        }
    }

    /// The current token is a newline.
    pub(crate) fn at_newline(&self) -> (b: bool)
        requires
            self.wf(),
        ensures
            b == (self.peek_tok().kind is Newline),
    {
        match self.peek_kind() {
            TokenKind::Newline => true,
            _ => false,
        }
    }

    /// Span of the previous token.
    pub(crate) fn prev_span(&self) -> (r: Span)
        requires
            self.wf(),
        ensures
            self.pos > 0 ==> r == self.tokens@[self.pos - 1].span,
            self.pos == 0 ==> r == (Span { start: 0, end: 0 }),
    {
        if self.pos > 0 {
            self.tokens[self.pos - 1].span
        } else {
            Span::dummy()
        }
    }

    /// The empty span at the end of the source.
    fn eof_span(&self) -> (r: Span)
        requires
            self.wf(),
        ensures
            r == (Span { start: self.byte_len() as u32, end: self.byte_len() as u32 }),
    {
        let end = self.source.len() as u32;
        Span::new(end, end)
    }

    /// The current token is the keyword `kw`.
    pub(crate) fn at_keyword(&self, kw: Keyword) -> (b: bool)
        requires
            self.wf(),
        ensures
            b == (self.peek_tok().kind == TokenKind::Keyword(kw)),
    {
        match self.peek_kind() {
            TokenKind::Keyword(k) => *k == kw,
            _ => false,
        }
    }

    /// The current token is an identifier.
    pub(crate) fn at_ident(&self) -> (b: bool)
        requires
            self.wf(),
        ensures
            b == (self.peek_tok().kind is Ident),
    {
        match self.peek_kind() {
            TokenKind::Ident(_) => true,
            _ => false,
        }
    }

    /// The current token is built by the same constructor as `kind`.
    pub(crate) fn at_token(&self, kind: &TokenKind) -> (b: bool)
        requires
            self.wf(),
        ensures
            b == same_variant(self.peek_tok().kind, *kind),
    {
        same_variant_exec(self.peek_kind(), kind)
    }

    /// The current token is exactly `kind`.
    pub(crate) fn at_exact(&self, kind: &TokenKind) -> (b: bool)
        requires
            self.wf(),
        ensures
            b == kind_equiv(self.peek_tok().kind, *kind),
    {
        kinds_equal(self.peek_kind(), kind)
    }

    /// Consume the current token if it is built like `kind`.
    pub(crate) fn eat(&mut self, kind: &TokenKind) -> (r: Option<Token>)
        requires
            old(self).wf(),
        ensures
            final(self).wf(),
            advanced(*old(self), *final(self)),
            final(self).errors@ == old(self).errors@,
            r is Some <==> same_variant(old(self).peek_tok().kind, *kind),
            r is None ==> final(self).pos == old(self).pos,
            r matches Some(t) ==> final(self).valid_span(t.span) && moved(
                *old(self),
                *final(self),
            ),
    {
        if self.at_token(kind) {
            Some(self.advance())
        } else {
            None
        }
    }

    /// Consume the current token if it is the keyword `kw`.
    pub(crate) fn eat_keyword(&mut self, kw: Keyword) -> (r: Option<Token>)
        requires
            old(self).wf(),
        ensures
            final(self).wf(),
            advanced(*old(self), *final(self)),
            final(self).errors@ == old(self).errors@,
            r is Some <==> old(self).peek_tok().kind == TokenKind::Keyword(kw),
            r is None ==> final(self).pos == old(self).pos,
            r matches Some(t) ==> final(self).valid_span(t.span) && moved(
                *old(self),
                *final(self),
            ),
    {
        if self.at_keyword(kw) {
            Some(self.advance())
        } else {
            None
        }
    }

    /// Consume the current token if it is exactly `kind`.
    pub(crate) fn eat_exact(&mut self, kind: &TokenKind) -> (r: Option<Token>)
        requires
            old(self).wf(),
        ensures
            final(self).wf(),
            advanced(*old(self), *final(self)),
            final(self).errors@ == old(self).errors@,
            r is Some <==> kind_equiv(old(self).peek_tok().kind, *kind),
            r is None ==> final(self).pos == old(self).pos && *final(self) == *old(self),
            r matches Some(t) ==> final(self).valid_span(t.span) && moved(
                *old(self),
                *final(self),
            ) && final(self).pos > 0,
    {
        if self.at_exact(kind) {
            Some(self.advance())
        } else {
            None
        }
    }

    /// Consume the current token if it is built like `kind`; otherwise record
    /// an error and hand back a token of that kind at the current position.
    pub(crate) fn expect(&mut self, kind: &TokenKind) -> (tok: Token)
        requires
            old(self).wf(),
        ensures
            final(self).wf(),
            advanced(*old(self), *final(self)),
            final(self).valid_span(tok.span),
            same_variant(old(self).peek_tok().kind, *kind) ==> final(self).errors@ == old(
                self,
            ).errors@,
            !same_variant(old(self).peek_tok().kind, *kind) ==> final(self).pos == old(self).pos
                && final(self).errors@ == old(self).errors@.push(
                ParseError {
                    span: old(self).peek_tok().span,
                    message: final(self).errors@.last().message,
                },
            ) && final(self).errors@.last().message@ == "expected "@ + kind_debug_text(*kind)
                + ", found "@ + kind_debug_text(old(self).peek_tok().kind),
    {
        match self.eat(kind) {
            Some(tok) => tok,
            None => {
                let mut out: Vec<char> = Vec::new();
                push_string(&mut out, "expected ");
                push_owned(&mut out, kind_debug(kind));
                push_string(&mut out, ", found ");
                push_owned(&mut out, kind_debug(self.peek_kind()));
                let msg = string_from_chars(out.as_slice());
                self.error_owned(msg);
                let span = self.peek().span;
                Token::new(crate::tokkind::clone_kind(kind), span)
            },
        }
    }

    /// Consume the keyword `kw`, or record an error and hand back a
    /// keyword token at the current position.
    pub(crate) fn expect_keyword(&mut self, kw: Keyword) -> (tok: Token)
        requires
            old(self).wf(),
        ensures
            final(self).wf(),
            advanced(*old(self), *final(self)),
            final(self).valid_span(tok.span),
            old(self).peek_tok().kind == TokenKind::Keyword(kw) ==> final(self).errors@ == old(
                self,
            ).errors@,
            old(self).peek_tok().kind != TokenKind::Keyword(kw) ==> final(self).pos == old(
                self,
            ).pos && final(self).errors@.len() == old(self).errors@.len() + 1
                && final(self).errors@.last().span == old(self).peek_tok().span
                && final(self).errors@.last().message@ == "expected `"@ + keyword_text(kw)
                + "`, found "@ + kind_debug_text(old(self).peek_tok().kind),
    {
        match self.eat_keyword(kw) {
            Some(tok) => tok,
            None => {
                let mut out: Vec<char> = Vec::new();
                push_string(&mut out, "expected `");
                push_string(&mut out, kw.as_str());
                push_string(&mut out, "`, found ");
                push_owned(&mut out, kind_debug(self.peek_kind()));
                let msg = string_from_chars(out.as_slice());
                self.error_owned(msg);
                let span = self.peek().span;
                Token::new(TokenKind::Keyword(kw), span)
            },
        }
    }

    /// Source information for a span (no leading or trailing trivia).
    pub(crate) fn mk_info(&self, span: Span) -> (r: SourceInfo)
        ensures
            r == (SourceInfo {
                leading: Span { start: 0, end: 0 },
                span,
                trailing: Span { start: 0, end: 0 },
            }),
    {
        SourceInfo::new(span)
    }

    /// A `Missing` node at the current position.
    pub(crate) fn mk_missing(&self) -> (r: Syntax)
        requires
            self.wf(),
        ensures
            r == (Syntax::Missing { span: self.peek_tok().span }),
    {
        Syntax::missing(self.peek().span)
    }

    /// An atom for a consumed token.
    pub(crate) fn mk_atom(&self, tok: &Token, val: AtomVal) -> (r: Syntax)
        ensures
            r == (Syntax::Atom { info: self.mk_info_spec(tok.span), val }),
    {
        Syntax::atom(self.mk_info(tok.span), val)
    }

    /// Source information for a span, as a value.
    pub open spec fn mk_info_spec(&self, span: Span) -> SourceInfo {
        SourceInfo { leading: Span { start: 0, end: 0 }, span, trailing: Span { start: 0, end: 0 } }
    }

    /// The text of the source under `span` (decoded; invalid UTF-8 becomes U+FFFD).
    pub open spec fn span_text_spec(&self, span: Span) -> Seq<char> {
        utf8_lossy(self.source.spec_bytes().subrange(span.start as int, span.end as int))
    }

    /// The text of the source under `span`.
    pub(crate) fn span_text(&self, span: Span) -> (r: String)
        requires
            self.valid_span(span),
        ensures
            r@ == self.span_text_spec(span),
    {
        let bytes = self.source.as_bytes();
        string_from_utf8_lossy(
            vstd::slice::slice_subrange(bytes, span.start as usize, span.end as usize),
        )
    }

    /// A keyword atom for a consumed keyword token.
    pub(crate) fn mk_keyword_atom(&self, tok: &Token) -> (r: Syntax)
        requires
            self.valid_span(tok.span),
        ensures
            r matches Syntax::Atom { info, val: AtomVal::Keyword(t) } && info == self.mk_info_spec(
                tok.span,
            ) && t@ == self.span_text_spec(tok.span),
    {
        let text = self.span_text(tok.span);
        self.mk_atom(tok, AtomVal::Keyword(text))
    }

    /// A punctuation atom for a consumed token.
    pub(crate) fn mk_punct(&self, tok: &Token) -> (r: Syntax)
        requires
            self.valid_span(tok.span),
        ensures
            r matches Syntax::Atom { info, val: AtomVal::Punct(t) } && info == self.mk_info_spec(
                tok.span,
            ) && t@ == self.span_text_spec(tok.span),
    {
        let text = self.span_text(tok.span);
        self.mk_atom(tok, AtomVal::Punct(text))
    }

    /// An identifier for a consumed identifier token.
    pub(crate) fn mk_ident_from_token(&self, tok: &Token) -> (r: Syntax)
        requires
            self.valid_span(tok.span),
        ensures
            r matches Syntax::Ident { info, val, raw_val } && info == self.mk_info_spec(tok.span)
                && raw_val@ == self.span_text_spec(tok.span) && val@ == dotted_name_limbs(
                raw_val@,
            ),
    {
        let raw = self.span_text(tok.span);
        let name = name_from_str(raw.as_str());
        Syntax::ident(self.mk_info(tok.span), name, raw.as_str())
    }

    /// A node over `children`, spanning them.
    pub(crate) fn mk_node(&self, kind: SyntaxNodeKind, children: Vec<Syntax>) -> (r: Syntax)
        ensures
            r == (Syntax::Node { info: self.mk_info_spec(children_span(children@)), kind, children }),
    {
        let span = node_span(children.as_slice());
        Syntax::node(self.mk_info(span), kind, children)
    }

    /// A node with an explicit span.
    pub(crate) fn mk_node_span(&self, span: Span, kind: SyntaxNodeKind, children: Vec<Syntax>) -> (r:
        Syntax)
        ensures
            r == (Syntax::Node { info: self.mk_info_spec(span), kind, children }),
    {
        Syntax::node(self.mk_info(span), kind, children)
    }

    /// Record an error at the current token.
    pub(crate) fn error(&mut self, msg: &str)
        requires
            old(self).wf(),
        ensures
            final(self).wf(),
            advanced(*old(self), *final(self)),
            final(self).pos == old(self).pos,
            final(self).errors@.len() == old(self).errors@.len() + 1,
            final(self).errors@.last().span == old(self).peek_tok().span,
            final(self).errors@.last().message@ == msg@,
    {
        let m = string_from_chars(chars_of(msg).as_slice());
        self.error_owned(m);
    }

    /// Record an error with an owned message at the current token.
    fn error_owned(&mut self, msg: String)
        requires
            old(self).wf(),
        ensures
            final(self).wf(),
            advanced(*old(self), *final(self)),
            final(self).pos == old(self).pos,
            final(self).errors@ == old(self).errors@.push(
                ParseError { span: old(self).peek_tok().span, message: msg },
            ),
    {
        let span = self.peek().span;
        self.errors.push(ParseError { span, message: msg });
        proof {
            assert(old(self).errors@.is_prefix_of(self.errors@));
        }
    }

    /// Record an error at a given span.
    pub(crate) fn error_at(&mut self, span: Span, msg: &str)
        requires
            old(self).wf(),
            old(self).valid_span(span),
        ensures
            final(self).wf(),
            advanced(*old(self), *final(self)),
            final(self).pos == old(self).pos,
            final(self).errors@.len() == old(self).errors@.len() + 1,
            final(self).errors@.last().span == span,
            final(self).errors@.last().message@ == msg@,
    {
        let m = string_from_chars(chars_of(msg).as_slice());
        self.errors.push(ParseError { span, message: m });
        proof {
            assert(old(self).errors@.is_prefix_of(self.errors@));
        }
    }

    /// Skip tokens until a command keyword or the end of input.
    pub(crate) fn synchronize(&mut self)
        requires
            old(self).wf(),
        ensures
            final(self).wf(),
            advanced(*old(self), *final(self)),
            final(self).errors@ == old(self).errors@,
            final(self).at_eof() || (final(self).peek_tok().kind matches TokenKind::Keyword(kw)
                && command_keyword(kw)),
    {
        loop
            invariant
                self.wf(),
                advanced(*old(self), *self),
                self.errors@ == old(self).errors@,
            ensures
                self.wf(),
                advanced(*old(self), *self),
                self.errors@ == old(self).errors@,
                self.at_eof() || (self.peek_tok().kind matches TokenKind::Keyword(kw)
                    && command_keyword(kw)),
            decreases self.tokens@.len() - self.pos,
        {
            let stop = match self.peek_kind() {
                TokenKind::Eof => true,
                TokenKind::Keyword(kw) => is_command_keyword(kw),
                _ => false,
            };
            if stop {
                break;
            }
            self.advance();
        }
    }

    /// The column (0-based, in bytes) of a byte position.
    pub(crate) fn column_of(&self, byte_pos: u32) -> (c: u32)
        requires
            byte_pos <= self.byte_len(),
        ensures
            c == self.column_at(byte_pos as int),
    {
        let bytes = self.source.as_bytes();
        let pos = byte_pos as usize;
        let mut i = pos;
        while i > 0 && bytes[i - 1] != 10u8
            invariant
                i <= pos <= bytes@.len(),
                bytes@ == self.source.spec_bytes(),
                line_start(bytes@, pos as int) == line_start(bytes@, i as int),
            decreases i,
        {
            i = i - 1;
        }
        (pos - i) as u32
    }

    /// Column of the current token.
    pub(crate) fn current_column(&self) -> (c: u32)
        requires
            self.wf(),
        ensures
            c == self.column_at(self.peek_tok().span.start as int),
    {
        proof {
            self.lemma_peek_valid();
        }
        self.column_of(self.peek().span.start)
    }

    /// The current token lies within the source.
    /// At a token that is not a newline, it is the leading token.
    pub(crate) proof fn lemma_lead_is_peek(&self)
        requires
            self.wf(),
            !(self.peek_tok().kind is Newline),
        ensures
            self.lead_tok() == self.peek_tok(),
    {
    }

    pub(crate) proof fn lemma_peek_valid(&self)
        requires
            self.wf(),
        ensures
            self.valid_span(self.peek_tok().span),
            !self.at_eof() ==> self.pos + 1 < self.tokens@.len(),
    {
        let n = self.tokens@.len();
        if self.pos < n {
            assert(self.valid_span(self.tokens@[self.pos as int].span));
        } else {
            assert(self.valid_span(self.tokens@[n - 1].span));
        }
    }

    /// Push the current column onto the indent stack.
    pub(crate) fn push_indent(&mut self)
        requires
            old(self).wf(),
        ensures
            final(self).wf(),
            final(self).source == old(self).source,
            final(self).tokens@ == old(self).tokens@,
            final(self).pos == old(self).pos,
            final(self).errors@ == old(self).errors@,
            final(self).indent_stack@ == old(self).indent_stack@.push(
                old(self).column_at(old(self).peek_tok().span.start as int) as u32,
            ),
    {
        let c = self.current_column();
        self.indent_stack.push(c);
    }

    /// Pop the indent stack.
    pub(crate) fn pop_indent(&mut self)
        requires
            old(self).wf(),
        ensures
            final(self).wf(),
            final(self).source == old(self).source,
            final(self).tokens@ == old(self).tokens@,
            final(self).pos == old(self).pos,
            final(self).errors@ == old(self).errors@,
            old(self).indent_stack@.len() > 0 ==> final(self).indent_stack@ == old(
                self,
            ).indent_stack@.drop_last(),
            old(self).indent_stack@.len() == 0 ==> final(self).indent_stack@.len() == 0,
    {
        self.indent_stack.pop();
    }

    /// The current column is deeper than the top of the indent stack (always
    /// true at top level).
    pub(crate) fn is_indented(&self) -> (b: bool)
        requires
            self.wf(),
        ensures
            self.indent_stack@.len() == 0 ==> b,
            self.indent_stack@.len() > 0 ==> b == (self.column_at(
                self.peek_tok().span.start as int,
            ) > self.indent_stack@.last()),
    {
        if self.indent_stack.len() == 0 {
            true
        } else {
            let col = self.indent_stack[self.indent_stack.len() - 1];
            self.current_column() > col
        }
    }

    /// The current token can start a binder.
    pub(crate) fn at_binder_start(&self) -> (b: bool)
        requires
            self.wf(),
        ensures
            b == (self.peek_tok().kind is LParen || self.peek_tok().kind is LBrace
                || self.peek_tok().kind is LBracket || self.peek_tok().kind is LDblAngle),
    {
        match self.peek_kind() {
            TokenKind::LParen | TokenKind::LBrace | TokenKind::LBracket | TokenKind::LDblAngle => true,
            _ => false,
        }
    }
}

fn push_string(out: &mut Vec<char>, s: &str)
    ensures
        final(out)@ == old(out)@ + s@,
{
    let cs = chars_of(s);
    push_all(out, cs.as_slice());
}

fn push_owned(out: &mut Vec<char>, s: String)
    ensures
        final(out)@ == old(out)@ + s@,
{
    push_string(out, s.as_str());
}

/// The pieces of `s` between dots, empty pieces included.
pub open spec fn split_dots(s: Seq<char>) -> Seq<Seq<char>>
    decreases s.len(),
{
    if s.len() == 0 {
        seq![Seq::empty()]
    } else {
        let parts = split_dots(s.drop_last());
        if s.last() == '.' {
            parts.push(Seq::empty())
        } else {
            parts.update(parts.len() - 1, parts.last().push(s.last()))
        }
    }
}

proof fn lemma_split_dots_nonempty(s: Seq<char>)
    ensures
        split_dots(s).len() >= 1,
    decreases s.len(),
{
    if s.len() > 0 {
        lemma_split_dots_nonempty(s.drop_last());
    }
}

/// The components of the name `name_from_str` makes of `s`: every piece
/// between dots as a string component.
pub open spec fn dotted_name_limbs(s: Seq<char>) -> Seq<Limb> {
    split_dots(s).map_values(|p: Seq<char>| Limb::Str(p))
}

/// Convert a string like `"Lean.Meta.whnf"` into a `Name`, one component per
/// piece between dots.
pub fn name_from_str(s: &str) -> (r: Name)
    ensures
        r@ == dotted_name_limbs(s@),
{
    let cs = chars_of(s);
    let mut name = Name::anonymous();
    let mut cur: Vec<char> = Vec::new();
    let mut i: usize = 0;
    proof {
        assert(cs@.take(0) == Seq::<char>::empty());
    }
    while i < cs.len()
        invariant
            i <= cs@.len(),
            cs@ == s@,
            split_dots(cs@.take(i as int)).len() >= 1,
            name@ == split_dots(cs@.take(i as int)).drop_last().map_values(
                |p: Seq<char>| Limb::Str(p),
            ),
            cur@ == split_dots(cs@.take(i as int)).last(),
        decreases cs@.len() - i,
    {
        let c = cs[i];
        proof {
            assert(cs@.take(i + 1).drop_last() == cs@.take(i as int));
            assert(cs@.take(i + 1).last() == c);
            lemma_split_dots_nonempty(cs@.take(i as int));
        }
        if c == '.' {
            let piece = string_from_chars(cur.as_slice());
            name = Name::mk_str(name, piece.as_str());
            cur = Vec::new();
            proof {
                let parts = split_dots(cs@.take(i as int));
                assert(split_dots(cs@.take(i + 1)) == parts.push(Seq::empty()));
                assert(parts.push(Seq::<char>::empty()).drop_last() == parts);
                assert(parts.map_values(|p: Seq<char>| Limb::Str(p)) == parts.drop_last().map_values(
                    |p: Seq<char>| Limb::Str(p),
                ).push(Limb::Str(parts.last())));
            }
        } else {
            cur.push(c);
            proof {
                let parts = split_dots(cs@.take(i as int));
                let np = parts.update(parts.len() - 1, parts.last().push(c));
                assert(split_dots(cs@.take(i + 1)) == np);
                assert(np.drop_last() == parts.drop_last());
            }
        }
        i = i + 1;
    }
    let piece = string_from_chars(cur.as_slice());
    proof {
        assert(cs@.take(cs@.len() as int) == cs@);
        let parts = split_dots(cs@);
        assert(parts.map_values(|p: Seq<char>| Limb::Str(p)) == parts.drop_last().map_values(
            |p: Seq<char>| Limb::Str(p),
        ).push(Limb::Str(parts.last())));
    }
    Name::mk_str(name, piece.as_str())
}

/// The smallest start among `ss` that is not `u32::MAX` (`None` if there is none).
pub open spec fn min_real_start(ss: Seq<Span>) -> Option<u32>
    decreases ss.len(),
{
    if ss.len() == 0 {
        None
    } else {
        let rest = min_real_start(ss.drop_last());
        let s = ss.last().start;
        if s == u32::MAX {
            rest
        } else {
            match rest {
                Some(m) => Some(if s < m { s } else { m }),
                None => Some(s),
            }
        }
    }
}

/// The largest end among `ss` (0 for none).
pub open spec fn max_end(ss: Seq<Span>) -> u32
    decreases ss.len(),
{
    if ss.len() == 0 {
        0
    } else {
        let rest = max_end(ss.drop_last());
        let e = ss.last().end;
        if e > rest {
            e
        } else {
            rest
        }
    }
}

/// The span `node_span` computes for `children`.
pub open spec fn children_span(children: Seq<Syntax>) -> Span {
    if children.len() == 0 {
        Span { start: 0, end: 0 }
    } else {
        let spans = children.map_values(|c: Syntax| crate::syntax::syntax_span(c));
        Span {
            start: match min_real_start(spans) {
                Some(m) => m,
                None => 0,
            },
            end: max_end(spans),
        }
    }
}

/// The span covering `children` (dummy starts at `u32::MAX` are ignored).
pub fn node_span(children: &[Syntax]) -> (r: Span)
    ensures
        r == children_span(children@),
{
    if children.len() == 0 {
        return Span::dummy();
    }
    let ghost spans = children@.map_values(|c: Syntax| crate::syntax::syntax_span(c));
    let mut start: Option<u32> = None;
    let mut end: u32 = 0;
    let mut i: usize = 0;
    while i < children.len()
        invariant
            i <= children@.len(),
            spans == children@.map_values(|c: Syntax| crate::syntax::syntax_span(c)),
            start == min_real_start(spans.take(i as int)),
            end == max_end(spans.take(i as int)),
        decreases children@.len() - i,
    {
        let sp = children[i].span();
        proof {
            assert(spans.take(i + 1).drop_last() == spans.take(i as int));
            assert(spans.take(i + 1).last() == sp);
        }
        if sp.start != u32::MAX {
            start = match start {
                Some(m) => Some(
                    if sp.start < m {
                        sp.start
                    } else {
                        m
                    },
                ),
                None => Some(sp.start),
            };
        }
        if sp.end > end {
            end = sp.end;
        }
        i = i + 1;
    }
    proof {
        assert(spans.take(children@.len() as int) == spans);
    }
    let s = match start {
        Some(m) => m,
        None => 0,
    };
    Span::new(s, end)
}

/// Keywords that start a command.
pub open spec fn command_keyword(kw: Keyword) -> bool {
    match kw {
        Keyword::Def | Keyword::Theorem | Keyword::Lemma | Keyword::Abbrev | Keyword::Opaque
        | Keyword::Instance | Keyword::Example | Keyword::Axiom | Keyword::Structure
        | Keyword::Class | Keyword::Inductive | Keyword::Namespace | Keyword::Module
        | Keyword::Section | Keyword::End | Keyword::Mutual | Keyword::Open | Keyword::Export
        | Keyword::Variable | Keyword::Universe | Keyword::SetOption | Keyword::Attribute
        | Keyword::Import | Keyword::Prelude | Keyword::Private | Keyword::Protected
        | Keyword::Noncomputable | Keyword::Unsafe | Keyword::Partial | Keyword::Nonrec
        | Keyword::Notation | Keyword::Prefix | Keyword::Infix | Keyword::Infixl
        | Keyword::Infixr | Keyword::Postfix | Keyword::Macro | Keyword::Syntax | Keyword::Elab
        | Keyword::Initialize | Keyword::BuiltinInitialize | Keyword::Check | Keyword::Eval
        | Keyword::Print | Keyword::Reduce | Keyword::Synth | Keyword::Exit => true,
        _ => false,
    }
}

/// True if `kw` is a keyword that starts a command.
pub fn is_command_keyword(kw: &Keyword) -> (b: bool)
    ensures
        b == command_keyword(*kw),
{
    match kw {
        Keyword::Def | Keyword::Theorem | Keyword::Lemma | Keyword::Abbrev | Keyword::Opaque
        | Keyword::Instance | Keyword::Example | Keyword::Axiom | Keyword::Structure
        | Keyword::Class | Keyword::Inductive | Keyword::Namespace | Keyword::Module
        | Keyword::Section | Keyword::End | Keyword::Mutual | Keyword::Open | Keyword::Export
        | Keyword::Variable | Keyword::Universe | Keyword::SetOption | Keyword::Attribute
        | Keyword::Import | Keyword::Prelude | Keyword::Private | Keyword::Protected
        | Keyword::Noncomputable | Keyword::Unsafe | Keyword::Partial | Keyword::Nonrec
        | Keyword::Notation | Keyword::Prefix | Keyword::Infix | Keyword::Infixl
        | Keyword::Infixr | Keyword::Postfix | Keyword::Macro | Keyword::Syntax | Keyword::Elab
        | Keyword::Initialize | Keyword::BuiltinInitialize | Keyword::Check | Keyword::Eval
        | Keyword::Print | Keyword::Reduce | Keyword::Synth | Keyword::Exit => true,
        _ => false,
    }
}

} // verus!
