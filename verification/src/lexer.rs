//! The lexer: source text to tokens with byte-offset spans.
use vstd::prelude::*;
use vstd::string::StringSliceAdditionalSpecFns;

use crate::keyword::{keyword_text, Keyword};
use crate::span::Span;
use crate::text::{
    char_is_alphabetic, char_is_alphanumeric, chars_of, string_from_chars, unicode_alphabetic,
    unicode_alphanumeric,
};
use crate::token::{Token, TokenKind};

verus! {

/// Number of bytes of the UTF-8 encoding of `c`.
pub open spec fn char_len(c: char) -> nat {
    vstd::utf8::encode_scalar(c as u32).len()
}

/// Number of bytes of the UTF-8 encoding of `s`.
pub open spec fn utf8_len(s: Seq<char>) -> nat {
    vstd::utf8::encode_utf8(s).len()
}

/// Characters that may start an identifier (`λ` is the lambda token).
pub open spec fn is_ident_start(c: char) -> bool {
    (c == '_' || unicode_alphabetic(c)) && c != 'λ'
}

/// Characters that may continue an identifier.
pub open spec fn is_ident_continue(c: char) -> bool {
    unicode_alphanumeric(c) || c == '_' || c == '\'' || c == '?' || c == '!'
}

/// ASCII decimal digits.
pub open spec fn is_dec_digit(c: char) -> bool {
    '0' <= c <= '9'
}

/// The value of a hexadecimal digit (either case).
pub open spec fn hex_digit_value(c: char) -> Option<u32> {
    if '0' <= c <= '9' {
        Some((c as u32 - '0' as u32) as u32)
    } else if 'a' <= c <= 'f' {
        Some((c as u32 - 'a' as u32 + 10) as u32)
    } else if 'A' <= c <= 'F' {
        Some((c as u32 - 'A' as u32 + 10) as u32)
    } else {
        None
    }
}

/// The character a one-letter escape (`\n`, `\t`, ...) stands for.
pub open spec fn simple_escape(e: char) -> Option<char> {
    if e == 'n' {
        Some('\n')
    } else if e == 't' {
        Some('\t')
    } else if e == 'r' {
        Some('\r')
    } else if e == '\\' {
        Some('\\')
    } else if e == '"' {
        Some('"')
    } else if e == '\'' {
        Some('\'')
    } else if e == '0' {
        Some('\0')
    } else {
        None
    }
}

/// The hexadecimal digits `src[j..j+n]` as a number.
pub open spec fn hex_value(src: Seq<char>, j: int, n: nat) -> nat
    decreases n,
{
    if n == 0 {
        0
    } else {
        hex_value(src, j, (n - 1) as nat) * 16 + (hex_digit_value(src[j + n - 1])->0 as nat)
    }
}

/// The number of hexadecimal digits in a row from `j` on.
pub open spec fn hex_run(src: Seq<char>, j: int) -> nat
    decreases src.len() - j,
{
    if 0 <= j < src.len() && hex_digit_value(src[j]) is Some {
        1 + hex_run(src, j + 1)
    } else {
        0
    }
}

/// `v` is a Unicode scalar value.
pub open spec fn is_scalar(v: nat) -> bool {
    v <= 0x10FFFF && !(0xD800 <= v <= 0xDFFF)
}

/// The braces of a `\u{...}` escape from `i` on: `{`, one to six
/// hexadecimal digits naming a scalar value, `}`.
pub open spec fn unicode_escape_ok(src: Seq<char>, i: int) -> bool {
    let n = hex_run(src, i + 1);
    &&& 0 <= i < src.len()
    &&& src[i] == '{'
    &&& 1 <= n <= 6
    &&& i + 1 + n < src.len()
    &&& src[i + 1 + n] == '}'
    &&& is_scalar(hex_value(src, i + 1, n))
}

/// `16^n`.
pub open spec fn hex_bound(n: nat) -> nat
    decreases n,
{
    if n == 0 {
        1
    } else {
        16 * hex_bound((n - 1) as nat)
    }
}

proof fn lemma_hex_bound()
    ensures
        hex_bound(5) == 1048576,
        hex_bound(6) == 16777216,
        forall|n: nat| n <= 6 ==> #[trigger] hex_bound(n) <= hex_bound(6),
{
    reveal_with_fuel(hex_bound, 7);
    assert forall|n: nat| n <= 6 implies #[trigger] hex_bound(n) <= hex_bound(6) by {
        reveal_with_fuel(hex_bound, 7);
    }
}

/// `n` hexadecimal digits from `j` on, then none: the run has length `n`.
proof fn lemma_hex_run_exact(src: Seq<char>, j: int, n: nat)
    requires
        0 <= j,
        j + n <= src.len(),
        forall|k: int| j <= k < j + n ==> #[trigger] hex_digit_value(src[k]) is Some,
        j + n == src.len() || hex_digit_value(src[j + n]) is None,
    ensures
        hex_run(src, j) == n,
    decreases n,
{
    if n > 0 {
        lemma_hex_run_exact(src, j + 1, (n - 1) as nat);
        assert(hex_digit_value(src[j]) is Some);
    }
}

/// `n` hexadecimal digits from `j` on: the run has at least length `n`.
proof fn lemma_hex_run_at_least(src: Seq<char>, j: int, n: nat)
    requires
        0 <= j,
        j + n <= src.len(),
        forall|k: int| j <= k < j + n ==> #[trigger] hex_digit_value(src[k]) is Some,
    ensures
        hex_run(src, j) >= n,
    decreases n,
{
    if n > 0 {
        lemma_hex_run_at_least(src, j + 1, (n - 1) as nat);
        assert(hex_digit_value(src[j]) is Some);
    }
}

/// The position just after the first `"` at or after `i`, or the end of
/// the text when there is none.
pub open spec fn after_quote(src: Seq<char>, i: int) -> int
    decreases src.len() - i,
{
    if i < 0 || i >= src.len() {
        i
    } else if src[i] == '"' {
        i + 1
    } else {
        after_quote(src, i + 1)
    }
}

/// Token spans lie within `[0, pos]`, each one ends before the next starts.
/// Stated for sources whose byte length fits the `u32` offsets of spans.
pub open spec fn spans_ordered(toks: Seq<Token>, pos: nat) -> bool {
    &&& ends_before(toks, pos)
    &&& forall|k: int| 0 <= k < toks.len() ==> #[trigger] toks[k].span.start <= toks[k].span.end
    &&& forall|k: int, j: int|
        #![trigger toks[k], toks[j]]
        0 <= k < j < toks.len() ==> toks[k].span.end <= toks[j].span.start
}

/// The span covers the characters `src[a..b]`: its offsets are the byte
/// lengths of the UTF-8 encodings of `src[..a]` and `src[..b]`.
pub open spec fn span_covers(src: Seq<char>, span: Span, a: int, b: int) -> bool {
    &&& 0 <= a <= b <= src.len()
    &&& utf8_len(src.take(a)) == span.start
    &&& utf8_len(src.take(b)) == span.end
}

/// The source characters under `span` are exactly `text`.
pub open spec fn spells(src: Seq<char>, span: Span, text: Seq<char>) -> bool {
    exists|a: int, b: int| #[trigger] span_covers(src, span, a, b) && src.subrange(a, b) == text
}

/// Tokens that carry their own source text.
pub open spec fn is_text_kind(k: TokenKind) -> bool {
    k is Ident || k is Keyword || k is NatLit || k is ScientificLit
}

/// `t` is the one character `a`.
pub open spec fn text1(t: Seq<char>, a: char) -> bool {
    t.len() == 1 && t[0] == a
}

/// `t` is the two characters `a b`.
pub open spec fn text2(t: Seq<char>, a: char, b: char) -> bool {
    t.len() == 2 && t[0] == a && t[1] == b
}

/// `t` is the three characters `a b c`.
pub open spec fn text3(t: Seq<char>, a: char, b: char, c: char) -> bool {
    t.len() == 3 && t[0] == a && t[1] == b && t[2] == c
}

/// The source text `t` under a token of kind `k` is one of the kind's
/// spellings (for the operators, punctuation, newlines and the start of an
/// interpolated string; other kinds are not constrained here).
pub open spec fn op_spelling(k: TokenKind, t: Seq<char>) -> bool {
    match k {
        TokenKind::ShiftLeft => text3(t, '<', '<', '<'),
        TokenKind::ShiftRight => text3(t, '>', '>', '>'),
        TokenKind::BitAnd => text3(t, '&', '&', '&'),
        TokenKind::BitOr => text3(t, '|', '|', '|'),
        TokenKind::BitXor => text3(t, '^', '^', '^'),
        TokenKind::Complement => text3(t, '~', '~', '~'),
        TokenKind::Bind => text3(t, '>', '>', '='),
        TokenKind::OrElse => text3(t, '<', '|', '>'),
        TokenKind::MapOp => text3(t, '<', '$', '>'),
        TokenKind::SeqComp => text3(t, '<', '*', '>'),
        TokenKind::SeqLeft => text2(t, '<', '*'),
        TokenKind::SeqRight => text2(t, '*', '>'),
        TokenKind::PipeRight => text2(t, '|', '>'),
        TokenKind::PipeLeft => text2(t, '<', '|'),
        TokenKind::SeqOp => text2(t, '>', '>'),
        TokenKind::Append => text2(t, '+', '+'),
        TokenKind::ColonColon => text2(t, ':', ':'),
        TokenKind::ColonEq => text2(t, ':', '='),
        TokenKind::DotDot => text2(t, '.', '.'),
        TokenKind::FatArrow => text2(t, '=', '>'),
        TokenKind::AndAnd => text2(t, '&', '&'),
        TokenKind::OrOr => text2(t, '|', '|'),
        TokenKind::Arrow => text2(t, '-', '>') || text1(t, '→'),
        TokenKind::LArrow => text2(t, '<', '-') || text1(t, '←'),
        TokenKind::Le => text2(t, '<', '=') || text1(t, '≤'),
        TokenKind::Ge => text2(t, '>', '=') || text1(t, '≥'),
        TokenKind::Ne => text2(t, '!', '=') || text1(t, '≠'),
        TokenKind::Iff => text1(t, '↔'),
        TokenKind::LDblAngle => text1(t, '⦃'),
        TokenKind::RDblAngle => text1(t, '⦄'),
        TokenKind::Forall => text1(t, '∀'),
        TokenKind::LParen => text1(t, '('),
        TokenKind::RParen => text1(t, ')'),
        TokenKind::LBracket => text1(t, '['),
        TokenKind::RBracket => text1(t, ']'),
        TokenKind::LBrace => text1(t, '{'),
        TokenKind::RBrace => text1(t, '}'),
        TokenKind::LAngle => text1(t, '⟨'),
        TokenKind::RAngle => text1(t, '⟩'),
        TokenKind::Comma => text1(t, ','),
        TokenKind::Semicolon => text1(t, ';'),
        TokenKind::Colon => text1(t, ':'),
        TokenKind::Dot => text1(t, '.'),
        TokenKind::At => text1(t, '@'),
        TokenKind::Question => text1(t, '?'),
        TokenKind::Bang => text1(t, '!'),
        TokenKind::Pipe => text1(t, '|'),
        TokenKind::Dollar => text1(t, '$'),
        TokenKind::Plus => text1(t, '+'),
        TokenKind::Minus => text1(t, '-'),
        TokenKind::Star => text1(t, '*'),
        TokenKind::Slash => text1(t, '/'),
        TokenKind::Percent => text1(t, '%'),
        TokenKind::Caret => text1(t, '^'),
        TokenKind::Ampersand => text1(t, '&'),
        TokenKind::Tilde => text1(t, '~'),
        TokenKind::Eq => text1(t, '='),
        TokenKind::Lt => text1(t, '<'),
        TokenKind::Gt => text1(t, '>'),
        TokenKind::Lambda => text1(t, 'λ'),
        TokenKind::Exists => text1(t, '∃'),
        TokenKind::Neg => text1(t, '¬'),
        TokenKind::Conj => text1(t, '∧'),
        TokenKind::Disj => text1(t, '∨'),
        TokenKind::Mem => text1(t, '∈'),
        TokenKind::Compose => text1(t, '∘'),
        TokenKind::Times => text1(t, '×'),
        TokenKind::Cdot => text1(t, '·'),
        TokenKind::Subst => text1(t, '▸'),
        TokenKind::SMul => text1(t, '•'),
        TokenKind::Dvd => text1(t, '∣'),
        TokenKind::Hash => text1(t, '#'),
        TokenKind::Underscore => text1(t, '_'),
        TokenKind::Newline => text1(t, '\n'),
        TokenKind::InterpolBegin => text2(t, 's', '!') || text2(t, 'f', '!'),
        _ => true,
    }
}

/// A token of a kind with fixed spellings covers characters spelling it.
pub open spec fn op_spelled(src: Seq<char>, t: Token) -> bool {
    exists|a: int, b: int|
        #[trigger] span_covers(src, t.span, a, b) && op_spelling(t.kind, src.subrange(a, b))
}

/// A token is spelled by the source under its span: an identifier as written
/// (or between `«` and `»`), a keyword as its text, a numeric literal as
/// written, and an operator, punctuation or newline as one of its spellings.
/// String and character literals, comments, errors and the end are not
/// constrained.
pub open spec fn token_spelled(src: Seq<char>, t: Token) -> bool {
    match t.kind {
        TokenKind::Ident(s) => spells(src, t.span, s@) || spells(
            src,
            t.span,
            seq!['«'] + s@ + seq!['»'],
        ),
        TokenKind::Keyword(kw) => spells(src, t.span, keyword_text(kw)),
        TokenKind::NatLit(s) => spells(src, t.span, s@),
        TokenKind::ScientificLit(s) => spells(src, t.span, s@),
        TokenKind::StrLit(_) | TokenKind::CharLit(_) | TokenKind::DocComment(_)
        | TokenKind::ModuleDoc(_) | TokenKind::Error(_) | TokenKind::Eof
        | TokenKind::InterpolEnd => true,
        _ => op_spelled(src, t),
    }
}

/// A numeric literal token covers a whole numeric literal of the source: the
/// longest one starting where the token starts, scientific exactly when the
/// literal has a fraction or an exponent.
pub open spec fn number_token_ok(src: Seq<char>, t: Token) -> bool {
    (t.kind is NatLit || t.kind is ScientificLit) ==> exists|a: int, b: int|
        #[trigger] span_covers(src, t.span, a, b) && number_extent(src, a) == (
            b,
            t.kind is ScientificLit,
        )
}

/// No token is the end of input.
pub open spec fn no_eof(toks: Seq<Token>) -> bool {
    forall|k: int| 0 <= k < toks.len() ==> !(#[trigger] toks[k].kind is Eof)
}

/// Every token is spelled by the source under its span.
pub open spec fn tokens_spelled(src: Seq<char>, toks: Seq<Token>) -> bool {
    forall|k: int| 0 <= k < toks.len() ==> token_spelled(src, #[trigger] toks[k])
}

proof fn lemma_spells(src: Seq<char>, a: int, b: int, start: usize, end: usize, text: Seq<char>)
    requires
        0 <= a <= b <= src.len(),
        utf8_len(src.take(a)) == start,
        utf8_len(src.take(b)) == end,
        start <= end <= u32::MAX,
        text == src.subrange(a, b),
    ensures
        spells(src, Span { start: start as u32, end: end as u32 }, text),
{
    assert(span_covers(src, Span { start: start as u32, end: end as u32 }, a, b));
}

/// Every token ends at or before `pos`.
pub open spec fn ends_before(toks: Seq<Token>, pos: nat) -> bool {
    forall|k: int| 0 <= k < toks.len() ==> #[trigger] toks[k].span.end <= pos
}

proof fn lemma_utf8_len_concat(a: Seq<char>, b: Seq<char>)
    ensures
        vstd::utf8::encode_utf8(a + b) == vstd::utf8::encode_utf8(a) + vstd::utf8::encode_utf8(b),
        utf8_len(a + b) == utf8_len(a) + utf8_len(b),
    decreases a.len(),
{
    if a.len() == 0 {
        assert(a + b == b);
        assert(vstd::utf8::encode_utf8(a) == Seq::<u8>::empty());
    } else {
        lemma_utf8_len_concat(a.drop_first(), b);
        assert((a + b).drop_first() == a.drop_first() + b);
        assert((a + b)[0] == a[0]);
    }
}

proof fn lemma_utf8_len_push(s: Seq<char>, c: char)
    ensures
        utf8_len(s.push(c)) == utf8_len(s) + char_len(c),
{
    lemma_utf8_len_concat(s, seq![c]);
    assert(s + seq![c] == s.push(c));
    assert(seq![c].drop_first() == Seq::<char>::empty());
    assert(vstd::utf8::encode_utf8(Seq::<char>::empty()) == Seq::<u8>::empty());
    assert(vstd::utf8::encode_utf8(seq![c]) == vstd::utf8::encode_scalar(c as u32)
        + vstd::utf8::encode_utf8(Seq::<char>::empty()));
    assert(vstd::utf8::encode_scalar(c as u32) + Seq::<u8>::empty() == vstd::utf8::encode_scalar(
        c as u32,
    ));
}

proof fn lemma_utf8_len_take_mono(s: Seq<char>, i: int, j: int)
    requires
        0 <= i <= j <= s.len(),
    ensures
        utf8_len(s.take(i)) <= utf8_len(s.take(j)),
        utf8_len(s.take(s.len() as int)) == utf8_len(s),
{
    lemma_utf8_len_concat(s.take(i), s.subrange(i, j));
    assert(s.take(i) + s.subrange(i, j) == s.take(j));
    assert(s.take(s.len() as int) == s);
}

/// The byte offset of character `p` of `src`.
pub open spec fn off(src: Seq<char>, p: int) -> int {
    utf8_len(src.take(p)) as int
}

/// Byte `x` lies under the span of some token.
pub open spec fn byte_covered(toks: Seq<Token>, x: int) -> bool {
    exists|k: int| 0 <= k < toks.len() && #[trigger] toks[k].span.start <= x < toks[k].span.end
}

/// A space, tab or carriage return.
pub open spec fn is_blank(c: char) -> bool {
    c == ' ' || c == '\t' || c == '\r'
}

/// `src[q..e]` is a line comment: `--` up to the end of the line.
pub open spec fn line_comment(src: Seq<char>, q: int, e: int) -> bool {
    &&& 0 <= q && q + 2 <= e <= src.len()
    &&& src[q] == '-' && src[q + 1] == '-'
    &&& forall|j: int| q <= j < e ==> src[j] != '\n'
    &&& e == src.len() || src[e] == '\n'
}

/// `src[q..e]` is a block comment: `/-` up to the closing `-/` (or the end).
pub open spec fn block_comment(src: Seq<char>, q: int, e: int) -> bool {
    &&& 0 <= q && q + 2 <= e <= src.len()
    &&& src[q] == '/' && src[q + 1] == '-'
    &&& e == src.len() || (e >= q + 4 && src[e - 2] == '-' && src[e - 1] == '/')
}

/// Character `p` lies inside a comment.
pub open spec fn in_comment(src: Seq<char>, p: int) -> bool {
    exists|q: int, e: int|
        #![trigger line_comment(src, q, e)]
        #![trigger block_comment(src, q, e)]
        q <= p < e && (line_comment(src, q, e) || block_comment(src, q, e))
}

/// Character `p` belongs to what is dropped after an error token inside a
/// string literal: from the token's end up to and including the next `"`.
pub open spec fn error_tail(src: Seq<char>, toks: Seq<Token>, p: int) -> bool {
    exists|k: int, q: int|
        #![trigger toks[k], off(src, q)]
        0 <= k < toks.len() && toks[k].kind is Error && off(src, q) == toks[k].span.end && 0 <= q
            <= p && forall|j: int| q <= j < p ==> src[j] != '"'
}

/// Character `p` is lexed: it lies under a token, is blank, lies in a
/// comment, or is dropped after an error inside a string literal.
pub open spec fn char_lexed(src: Seq<char>, toks: Seq<Token>, p: int) -> bool {
    ||| byte_covered(toks, off(src, p))
    ||| is_blank(src[p])
    ||| in_comment(src, p)
    ||| error_tail(src, toks, p)
}

/// Every character from `a` to `b` is lexed.
pub open spec fn lexed_range(src: Seq<char>, toks: Seq<Token>, a: int, b: int) -> bool {
    forall|p: int| a <= p < b ==> #[trigger] char_lexed(src, toks, p)
}

proof fn lemma_char_len_pos(c: char)
    ensures
        char_len(c) >= 1,
{
    vstd::utf8::char_is_scalar(c);
}

/// Offsets grow strictly with the position.
proof fn lemma_off_strict(s: Seq<char>, p: int, b: int)
    requires
        0 <= p < b <= s.len(),
    ensures
        off(s, p) < off(s, b),
{
    lemma_utf8_len_push(s.take(p), s[p]);
    assert(s.take(p).push(s[p]) == s.take(p + 1));
    lemma_char_len_pos(s[p]);
    lemma_utf8_len_take_mono(s, p + 1, b);
}

/// The last token, spanning the bytes of `src[a..b]`, covers those characters.
proof fn lemma_last_covers(src: Seq<char>, toks: Seq<Token>, a: int, b: int)
    requires
        0 <= a <= b <= src.len(),
        toks.len() > 0,
        toks.last().span.start as int == off(src, a),
        toks.last().span.end as int == off(src, b),
    ensures
        lexed_range(src, toks, a, b),
{
    assert forall|p: int| a <= p < b implies #[trigger] char_lexed(src, toks, p) by {
        lemma_utf8_len_take_mono(src, a, p);
        lemma_off_strict(src, p, b);
        let k = toks.len() - 1;
        assert(toks[k].span.start <= off(src, p) < toks[k].span.end);
    }
}

/// Before the position after the next quote, no quote occurs.
proof fn lemma_after_quote_clear(src: Seq<char>, i: int, p: int)
    requires
        0 <= i <= p < after_quote(src, i),
    ensures
        forall|j: int| i <= j < p ==> src[j] != '"',
    decreases p - i,
{
    if p > i {
        assert(src[i] != '"');
        lemma_after_quote_clear(src, i + 1, p);
    }
}

/// The characters after an error token, up to and including the next quote,
/// are lexed as dropped.
proof fn lemma_tail_lexed(src: Seq<char>, toks: Seq<Token>, q: int)
    requires
        0 <= q <= src.len(),
        toks.len() > 0,
        toks.last().kind is Error,
        toks.last().span.end as int == off(src, q),
    ensures
        lexed_range(src, toks, q, after_quote(src, q)),
{
    assert forall|p: int| q <= p < after_quote(src, q) implies #[trigger] char_lexed(src, toks, p) by {
        lemma_after_quote_clear(src, q, p);
        let k = toks.len() - 1;
        assert(toks[k].kind is Error && off(src, q) == toks[k].span.end);
    }
}

proof fn lemma_prefix_trans(a: Seq<Token>, b: Seq<Token>, c: Seq<Token>)
    requires
        a.is_prefix_of(b),
        b.is_prefix_of(c),
    ensures
        a.is_prefix_of(c),
{
    assert forall|i: int| 0 <= i < a.len() implies a[i] == c[i] by {
        assert(a[i] == b[i]);
        assert(b[i] == c[i]);
    }
    assert(a =~= c.subrange(0, a.len() as int));
}

/// The characters of a comment are lexed.
proof fn lemma_comment_lexed(src: Seq<char>, toks: Seq<Token>, q: int, e: int)
    requires
        line_comment(src, q, e) || block_comment(src, q, e),
    ensures
        lexed_range(src, toks, q, e),
{
    assert forall|p: int| q <= p < e implies #[trigger] char_lexed(src, toks, p) by {
        if line_comment(src, q, e) {
            assert(in_comment(src, p));
        } else {
            assert(in_comment(src, p));
        }
    }
}

/// A lexed range followed by a step that lexes the next characters while
/// only adding tokens gives a longer lexed range.
proof fn lemma_lexed_step(src: Seq<char>, t0: Seq<Token>, t1: Seq<Token>, a: int, b: int, c: int)
    requires
        lexed_range(src, t0, a, b),
        t0.is_prefix_of(t1),
        lexed_range(src, t1, b, c),
    ensures
        lexed_range(src, t1, a, c),
{
    lemma_lexed_extend(src, t0, t1, a, b);
    lemma_lexed_join(src, t1, a, b, c);
}

/// What is lexed stays lexed as tokens are added.
proof fn lemma_lexed_extend(src: Seq<char>, t1: Seq<Token>, t2: Seq<Token>, a: int, b: int)
    requires
        t1.is_prefix_of(t2),
        lexed_range(src, t1, a, b),
    ensures
        lexed_range(src, t2, a, b),
{
    assert forall|p: int| a <= p < b implies #[trigger] char_lexed(src, t2, p) by {
        assert(char_lexed(src, t1, p));
        if byte_covered(t1, off(src, p)) {
            let k = choose|k: int|
                0 <= k < t1.len() && #[trigger] t1[k].span.start <= off(src, p) < t1[k].span.end;
            assert(t2[k] == t1[k]);
        } else if error_tail(src, t1, p) {
            let (k, q) = choose|k: int, q: int|
                #![trigger t1[k], off(src, q)]
                0 <= k < t1.len() && t1[k].kind is Error && off(src, q) == t1[k].span.end && 0 <= q
                    <= p && forall|j: int| q <= j < p ==> src[j] != '"';
            assert(t2[k] == t1[k]);
        }
    }
}

/// Two lexed ranges side by side make one.
proof fn lemma_lexed_join(src: Seq<char>, toks: Seq<Token>, a: int, b: int, c: int)
    requires
        lexed_range(src, toks, a, b),
        lexed_range(src, toks, b, c),
    ensures
        lexed_range(src, toks, a, c),
{
    assert forall|p: int| a <= p < c implies #[trigger] char_lexed(src, toks, p) by {
        if p < b {
            assert(char_lexed(src, toks, p));
        } else {
            assert(char_lexed(src, toks, p));
        }
    }
}

/// Number of bytes `c` takes in UTF-8.
fn char_utf8_len(c: char) -> (r: usize)
    ensures
        r == char_len(c),
        1 <= r <= 4,
{
    proof {
        vstd::utf8::char_is_scalar(c);
    }
    let v = c as u32;
    if v < 0x80 {
        1
    } else if v < 0x800 {
        2
    } else if v < 0x10000 {
        3
    } else {
        4
    }
}

/// The value of a hexadecimal digit (std `char::to_digit(16)`).
fn hex_val(ch: char) -> (r: Option<u32>)
    ensures
        r == hex_digit_value(ch),
{
    if '0' <= ch && ch <= '9' {
        Some(ch as u32 - '0' as u32)
    } else if 'a' <= ch && ch <= 'f' {
        Some(ch as u32 - 'a' as u32 + 10)
    } else if 'A' <= ch && ch <= 'F' {
        Some(ch as u32 - 'A' as u32 + 10)
    } else {
        None
    }
}

/// Std `str::len`: the number of bytes of the UTF-8 text.
#[verifier::external_body]
pub(crate) fn str_byte_len(s: &str) -> (n: usize)
    ensures
        n == s.spec_bytes().len(),
{
    s.len()
}

/// Std `char::from_u32`: the character with that scalar value, if any.
#[verifier::external_body]
pub(crate) fn char_from_u32(v: u32) -> (r: Option<char>)
    ensures
        r is Some <==> (v <= 0x10FFFF && !(0xD800 <= v <= 0xDFFF)),
        r matches Some(c) ==> c as u32 == v,
{
    char::from_u32(v)
}

fn is_ident_start_exec(ch: char) -> (b: bool)
    ensures
        b == is_ident_start(ch),
{
    (ch == '_' || char_is_alphabetic(ch)) && ch != 'λ'
}

fn is_ident_continue_exec(ch: char) -> (b: bool)
    ensures
        b == is_ident_continue(ch),
{
    char_is_alphanumeric(ch) || ch == '_' || ch == '\'' || ch == '?' || ch == '!'
}

/// Digit classes of numeric literals.
#[derive(Clone, Copy)]
pub enum DigitClass {
    Hex,
    Bin,
    Oct,
    Dec,
}

/// Where the run of digits of `class` (and `_` separators) that starts at
/// `j` ends.
pub open spec fn digit_run_end(s: Seq<char>, j: int, class: DigitClass) -> int
    decreases s.len() - j,
{
    if 0 <= j < s.len() && (s[j] == '_' || in_digit_class(s[j], class)) {
        digit_run_end(s, j + 1, class)
    } else {
        j
    }
}

/// The end of the numeric literal starting at `i`, and whether it is a
/// scientific literal: `0x`, `0b` and `0o` prefixes take hexadecimal, binary
/// and octal digits; a decimal literal may go on with a fraction (a `.` that
/// does not begin `..`, then digits) and an exponent (`e` or `E`, an optional
/// sign and at least one digit).
pub open spec fn number_extent(s: Seq<char>, i: int) -> (int, bool) {
    if char_at(s, i, '0') && (char_at(s, i + 1, 'x') || char_at(s, i + 1, 'X')) {
        (digit_run_end(s, i + 2, DigitClass::Hex), false)
    } else if char_at(s, i, '0') && (char_at(s, i + 1, 'b') || char_at(s, i + 1, 'B')) {
        (digit_run_end(s, i + 2, DigitClass::Bin), false)
    } else if char_at(s, i, '0') && (char_at(s, i + 1, 'o') || char_at(s, i + 1, 'O')) {
        (digit_run_end(s, i + 2, DigitClass::Oct), false)
    } else {
        let j = digit_run_end(s, i, DigitClass::Dec);
        let frac = char_at(s, j, '.') && !char_at(s, j + 1, '.') && j + 1 < s.len() && '0' <= s[j
            + 1] <= '9';
        let j2 = if frac {
            digit_run_end(s, j + 1, DigitClass::Dec)
        } else {
            j
        };
        let k = if char_at(s, j2 + 1, '+') || char_at(s, j2 + 1, '-') {
            j2 + 2
        } else {
            j2 + 1
        };
        let exp = (char_at(s, j2, 'e') || char_at(s, j2, 'E')) && digit_run_end(
            s,
            k,
            DigitClass::Dec,
        ) > k;
        (if exp {
            digit_run_end(s, k, DigitClass::Dec)
        } else {
            j2
        }, frac || exp)
    }
}

pub open spec fn in_digit_class(c: char, class: DigitClass) -> bool {
    match class {
        DigitClass::Hex => ('0' <= c <= '9') || ('a' <= c <= 'f') || ('A' <= c <= 'F'),
        DigitClass::Bin => c == '0' || c == '1',
        DigitClass::Oct => '0' <= c <= '7',
        DigitClass::Dec => '0' <= c <= '9',
    }
}

fn digit_in_class(c: char, class: DigitClass) -> (b: bool)
    ensures
        b == in_digit_class(c, class),
{
    match class {
        DigitClass::Hex => ('0' <= c && c <= '9') || ('a' <= c && c <= 'f') || ('A' <= c && c
            <= 'F'),
        DigitClass::Bin => c == '0' || c == '1',
        DigitClass::Oct => '0' <= c && c <= '7',
        DigitClass::Dec => '0' <= c && c <= '9',
    }
}

/// `toks` is a tokenization of the text `src` of `n` bytes: it ends with its
/// only `Eof`, at the end of the text; and, where the byte length fits the
/// `u32` offsets of spans, the spans are in order, every token is spelled by
/// the text under it, numeric literals are whole, and every character lies
/// under a token, is blank, lies in a comment, or is dropped after an error
/// inside a string literal.
pub open spec fn lexes(src: Seq<char>, n: nat, toks: Seq<Token>) -> bool {
    &&& toks.len() > 0
    &&& toks.last().kind is Eof
    &&& toks.last().span == (Span { start: n as u32, end: n as u32 })
    &&& no_eof(toks.drop_last())
    &&& n <= u32::MAX ==> {
        &&& spans_ordered(toks, n)
        &&& tokens_spelled(src, toks)
        &&& forall|k: int| 0 <= k < toks.len() ==> number_token_ok(src, #[trigger] toks[k])
        &&& lexed_range(src, toks, 0, src.len() as int)
    }
}

/// Tokenize a Lean source text. The result always ends with an `Eof` token
/// at the end of the text; spans are byte offsets, in order, and every token
/// but string and character literals, comments and errors is spelled by the
/// text under its span. Every character lies under a token, is blank, lies
/// in a comment, or is dropped after an error inside a string literal.
pub fn tokenize(source: &str) -> (toks: Vec<Token>)
    ensures
        lexes(source@, source.spec_bytes().len(), toks@),
        source@.len() == 0 ==> toks@.len() == 1,
{
    let mut lexer = Lexer::new(source);
    lexer.tokenize();
    proof {
        lemma_utf8_len_take_mono(lexer.src@, lexer.i as int, lexer.i as int);
    }
    lexer.tokens
}

struct Lexer {
    src: Vec<char>,
    i: usize,
    pos: usize,
    tokens: Vec<Token>,
}

impl Lexer {
    /// The byte length of the whole source fits the `u32` offsets of spans.
    spec fn small(&self) -> bool {
        utf8_len(self.src@) <= u32::MAX
    }

    spec fn wf(&self) -> bool {
        &&& self.i <= self.src@.len()
        &&& self.src@.len() <= usize::MAX
        &&& self.pos == utf8_len(self.src@.take(self.i as int))
        &&& utf8_len(self.src@) <= usize::MAX
        &&& self.small() ==> spans_ordered(self.tokens@, self.pos as nat)
        &&& self.small() ==> tokens_spelled(self.src@, self.tokens@)
        &&& no_eof(self.tokens@)
        &&& self.small() ==> forall|k: int|
            0 <= k < self.tokens@.len() ==> number_token_ok(self.src@, #[trigger] self.tokens@[k])
    }

    /// `c` is the `k`-th character from the current position.
    spec fn at_spec(&self, k: int, c: char) -> bool {
        self.i + k < self.src@.len() && self.src@[self.i + k] == c
    }

    /// The characters from `a` to the current position spell `text`, and
    /// the span from `start` to the current byte offset covers them.
    proof fn lemma_spelled_here(&self, a: int, start: usize, text: Seq<char>)
        requires
            self.wf(),
            self.small(),
            0 <= a <= self.i,
            utf8_len(self.src@.take(a)) == start,
            text == self.src@.subrange(a, self.i as int),
        ensures
            spells(self.src@, Span { start: start as u32, end: self.pos as u32 }, text),
    {
        lemma_utf8_len_take_mono(self.src@, a, self.i as int);
        lemma_utf8_len_take_mono(self.src@, self.i as int, self.src@.len() as int);
        lemma_spells(self.src@, a, self.i as int, start, self.pos, text);
    }

    /// The span from `start` to the current byte offset covers the
    /// characters from `a` to the current position.
    proof fn lemma_covers_here(&self, a: int, start: usize)
        requires
            self.wf(),
            self.small(),
            0 <= a <= self.i,
            utf8_len(self.src@.take(a)) == start,
        ensures
            span_covers(self.src@, Span { start: start as u32, end: self.pos as u32 }, a, self.i as int),
    {
        lemma_utf8_len_take_mono(self.src@, a, self.i as int);
        lemma_utf8_len_take_mono(self.src@, self.i as int, self.src@.len() as int);
    }

    /// The token just pushed, from `start` (the offset of character `a`) to
    /// the current byte offset, covers the characters from `a` on.
    proof fn lemma_pushed_covers(&self, a: int, start: usize)
        requires
            self.wf(),
            self.small(),
            0 <= a <= self.i,
            utf8_len(self.src@.take(a)) == start,
            self.tokens@.len() > 0,
            self.tokens@.last().span == (Span { start: start as u32, end: self.pos as u32 }),
        ensures
            lexed_range(self.src@, self.tokens@, a, self.i as int),
    {
        lemma_utf8_len_take_mono(self.src@, a, self.i as int);
        lemma_utf8_len_take_mono(self.src@, self.i as int, self.src@.len() as int);
        lemma_last_covers(self.src@, self.tokens@, a, self.i as int);
    }

    /// A token of kind `kind` from `start` to the current byte offset is
    /// spelled by the characters from `a` to the current position.
    proof fn lemma_op_here(&self, a: int, start: usize, kind: TokenKind)
        requires
            self.wf(),
            self.small(),
            0 <= a <= self.i,
            utf8_len(self.src@.take(a)) == start,
            op_spelling(kind, self.src@.subrange(a, self.i as int)),
        ensures
            op_spelled(
                self.src@,
                Token { kind, span: Span { start: start as u32, end: self.pos as u32 } },
            ),
    {
        self.lemma_covers_here(a, start);
        let t = Token { kind, span: Span { start: start as u32, end: self.pos as u32 } };
        assert(span_covers(self.src@, t.span, a, self.i as int));
    }

    fn new(source: &str) -> (r: Self)
        ensures
            r.wf(),
            r.i == 0,
            r.src@ == source@,
            r.tokens@.len() == 0,
            utf8_len(r.src@) == source.spec_bytes().len(),
    {
        let src = chars_of(source);
        let _n = str_byte_len(source);
        let _m = src.len();
        proof {
            assert(src@.take(0) == Seq::<char>::empty());
            assert(vstd::utf8::encode_utf8(Seq::<char>::empty()) == Seq::<u8>::empty());
        }
        Lexer { src, i: 0, pos: 0, tokens: Vec::new() }
    }

    fn is_eof(&self) -> (b: bool)
        ensures
            b == (self.i >= self.src@.len()),
    {
        self.i >= self.src.len()
    }

    fn peek_nth_char(&self, k: usize) -> (r: Option<char>)
        requires
            self.i <= self.src@.len(),
        ensures
            r == if self.i + k < self.src@.len() {
                Some(self.src@[self.i + k])
            } else {
                None::<char>
            },
    {
        if k < self.src.len() - self.i {
            Some(self.src[self.i + k])
        } else {
            None
        }
    }

    /// The `k`-th character from the current position is `c`.
    fn at(&self, k: usize, c: char) -> (b: bool)
        requires
            self.i <= self.src@.len(),
        ensures
            b == self.at_spec(k as int, c),
    {
        match self.peek_nth_char(k) {
            Some(d) => d == c,
            None => false,
        }
    }

    fn bump_char(&mut self) -> (r: Option<char>)
        requires
            old(self).wf(),
        ensures
            final(self).wf(),
            final(self).src == old(self).src,
            final(self).tokens == old(self).tokens,
            old(self).i < old(self).src@.len() ==> r == Some(old(self).src@[old(self).i as int])
                && final(self).i == old(self).i + 1 && final(self).pos == old(self).pos + char_len(
                old(self).src@[old(self).i as int],
            ),
            old(self).i >= old(self).src@.len() ==> r is None && final(self).i == old(self).i,
            final(self).pos >= old(self).pos,
    {
        if self.i < self.src.len() {
            let ch = self.src[self.i];
            proof {
                lemma_utf8_len_push(self.src@.take(self.i as int), ch);
                assert(self.src@.take(self.i + 1) == self.src@.take(self.i as int).push(ch));
                lemma_utf8_len_take_mono(self.src@, self.i + 1, self.src@.len() as int);
            }
            let w = char_utf8_len(ch);
            self.pos = self.pos + w;
            self.i = self.i + 1;
            Some(ch)
        } else {
            None
        }
    }

    /// Consume `k` characters (fewer at the end of the text).
    fn bump_n(&mut self, k: usize)
        requires
            old(self).wf(),
        ensures
            final(self).wf(),
            final(self).src == old(self).src,
            final(self).tokens == old(self).tokens,
            final(self).i == if old(self).i + k <= old(self).src@.len() {
                old(self).i + k
            } else {
                old(self).src@.len() as int
            },
            final(self).pos >= old(self).pos,
    {
        let mut j: usize = 0;
        while j < k
            invariant
                self.wf(),
                self.src == old(self).src,
                self.tokens == old(self).tokens,
                j <= k,
                self.i == if old(self).i + j <= old(self).src@.len() {
                    old(self).i + j
                } else {
                    old(self).src@.len() as int
                },
                self.pos >= old(self).pos,
            decreases k - j,
        {
            self.bump_char();
            j = j + 1;
        }
    }

    fn push_token(&mut self, kind: TokenKind, start: usize, end: usize)
        requires
            old(self).wf(),
            start <= end <= old(self).pos,
            !(kind is Eof),
            old(self).small() ==> number_token_ok(
                old(self).src@,
                Token { kind, span: Span { start: start as u32, end: end as u32 } },
            ),
            old(self).small() ==> ends_before(old(self).tokens@, start as nat),
            old(self).small() ==> token_spelled(
                old(self).src@,
                Token { kind, span: Span { start: start as u32, end: end as u32 } },
            ),
        ensures
            final(self).wf(),
            final(self).src == old(self).src,
            final(self).i == old(self).i,
            final(self).pos == old(self).pos,
            final(self).tokens@ == old(self).tokens@.push(
                Token { kind, span: Span { start: start as u32, end: end as u32 } },
            ),
    {
        proof {
            lemma_utf8_len_take_mono(self.src@, self.i as int, self.src@.len() as int);
        }
        let span = Span::new(start as u32, end as u32);
        self.tokens.push(Token::new(kind, span));
    }

    /// The characters `src[a..b]` as a string.
    fn text_between(&self, a: usize, b: usize) -> (r: String)
        requires
            a <= b <= self.src@.len(),
        ensures
            r@ == self.src@.subrange(a as int, b as int),
    {
        let mut v: Vec<char> = Vec::new();
        let mut j = a;
        while j < b
            invariant
                a <= j <= b <= self.src@.len(),
                v@ == self.src@.subrange(a as int, j as int),
            decreases b - j,
        {
            v.push(self.src[j]);
            proof {
                assert(self.src@.subrange(a as int, j + 1) == self.src@.subrange(a as int, j as int).push(
                    self.src@[j as int],
                ));
            }
            j = j + 1;
        }
        string_from_chars(v.as_slice())
    }

    fn tokenize(&mut self)
        requires
            old(self).wf(),
        ensures
            final(self).small() ==> spans_ordered(final(self).tokens@, final(self).pos as nat),
            final(self).small() ==> tokens_spelled(final(self).src@, final(self).tokens@),
            final(self).pos == utf8_len(final(self).src@.take(final(self).i as int)),
            no_eof(final(self).tokens@.drop_last()),
            final(self).small() ==> forall|k: int|
                0 <= k < final(self).tokens@.len() ==> number_token_ok(
                    final(self).src@,
                    #[trigger] final(self).tokens@[k],
                ),
            old(self).i == old(self).src@.len() ==> final(self).tokens@.len() == old(
                self,
            ).tokens@.len() + 1,
            final(self).src == old(self).src,
            final(self).i == final(self).src@.len(),
            final(self).small() ==> lexed_range(
                final(self).src@,
                final(self).tokens@,
                old(self).i as int,
                final(self).i as int,
            ),
            final(self).tokens@.len() > 0,
            final(self).tokens@.last().kind is Eof,
            final(self).tokens@.last().span == (Span {
                start: final(self).pos as u32,
                end: final(self).pos as u32,
            }),
    {
        while !self.is_eof()
            invariant
                self.wf(),
                self.src == old(self).src,
                self.i >= old(self).i,
                old(self).i == old(self).src@.len() ==> self.tokens@ == old(self).tokens@,
                self.small() ==> lexed_range(self.src@, self.tokens@, old(self).i as int, self.i as int),
            decreases self.src@.len() - self.i,
        {
            let ghost i0 = self.i as int;
            let ghost t0 = self.tokens@;
            if self.at(0, ' ') || self.at(0, '\t') || self.at(0, '\r') {
                self.bump_char();
                proof {
                    if self.small() {
                        assert(char_lexed(self.src@, t0, i0));
                        assert(lexed_range(self.src@, t0, i0, self.i as int));
                        lemma_lexed_step(self.src@, t0, self.tokens@, old(self).i as int, i0, self.i as int);
                    }
                }
                continue;
            }
            if self.at(0, '\n') {
                let start = self.pos;
                let start_i = self.i;
                self.bump_char();
                proof {
                    assert(text1(self.src@.subrange(start_i as int, self.i as int), '\n'));
                    if self.small() {
                        self.lemma_op_here(start_i as int, start, TokenKind::Newline);
                    }
                }
                self.push_token(TokenKind::Newline, start, self.pos);
                proof {
                    if self.small() {
                        self.lemma_pushed_covers(i0, start);
                        lemma_lexed_step(self.src@, t0, self.tokens@, old(self).i as int, i0, self.i as int);
                    }
                }
                continue;
            }
            if self.at(0, '-') && self.at(1, '-') {
                self.skip_line_comment();
                proof {
                    if self.small() {
                        lemma_comment_lexed(self.src@, self.tokens@, i0, self.i as int);
                        lemma_lexed_step(self.src@, t0, self.tokens@, old(self).i as int, i0, self.i as int);
                    }
                }
                continue;
            }
            if self.at(0, '/') && self.at(1, '-') && self.at(2, '!') {
                self.lex_doc_comment(true);
                proof {
                    if self.small() {
                        lemma_lexed_step(self.src@, t0, self.tokens@, old(self).i as int, i0, self.i as int);
                    }
                }
                continue;
            }
            if self.at(0, '/') && self.at(1, '-') && self.at(2, '-') {
                self.lex_doc_comment(false);
                proof {
                    if self.small() {
                        lemma_lexed_step(self.src@, t0, self.tokens@, old(self).i as int, i0, self.i as int);
                    }
                }
                continue;
            }
            if self.at(0, '/') && self.at(1, '-') {
                self.skip_block_comment();
                proof {
                    if self.small() {
                        lemma_comment_lexed(self.src@, self.tokens@, i0, self.i as int);
                        lemma_lexed_step(self.src@, t0, self.tokens@, old(self).i as int, i0, self.i as int);
                    }
                }
                continue;
            }
            if self.is_interpol_prefix() {
                self.lex_interpolated_string();
                proof {
                    if self.small() {
                        lemma_lexed_step(self.src@, t0, self.tokens@, old(self).i as int, i0, self.i as int);
                    }
                }
                continue;
            }
            if self.at(0, '"') {
                self.lex_string();
                proof {
                    if self.small() {
                        lemma_lexed_step(self.src@, t0, self.tokens@, old(self).i as int, i0, self.i as int);
                    }
                }
                continue;
            }
            if self.at(0, '\'') {
                self.lex_char();
                proof {
                    if self.small() {
                        lemma_lexed_step(self.src@, t0, self.tokens@, old(self).i as int, i0, self.i as int);
                    }
                }
                continue;
            }
            if self.at(0, '«') {
                self.lex_guillemet_ident();
                proof {
                    if self.small() {
                        lemma_lexed_step(self.src@, t0, self.tokens@, old(self).i as int, i0, self.i as int);
                    }
                }
                continue;
            }
            let c = self.src[self.i];
            if is_dec_digit_exec(c) {
                self.lex_number();
                proof {
                    if self.small() {
                        lemma_lexed_step(self.src@, t0, self.tokens@, old(self).i as int, i0, self.i as int);
                    }
                }
                continue;
            }
            if c == '#' && self.lex_hash_keyword() {
                proof {
                    if self.small() {
                        lemma_lexed_step(self.src@, t0, self.tokens@, old(self).i as int, i0, self.i as int);
                    }
                }
                continue;
            }
            if is_ident_start_exec(c) {
                self.lex_ident_or_keyword();
                proof {
                    if self.small() {
                        lemma_lexed_step(self.src@, t0, self.tokens@, old(self).i as int, i0, self.i as int);
                    }
                }
                continue;
            }
            if self.lex_operator_or_punct() {
                proof {
                    if self.small() {
                        lemma_lexed_step(self.src@, t0, self.tokens@, old(self).i as int, i0, self.i as int);
                    }
                }
                continue;
            }
            let start = self.pos;
            let ch = match self.bump_char() {
                Some(ch) => ch,
                None => '\0',
            };
            let v = vec![ch];
            self.push_token(TokenKind::Error(string_from_chars(v.as_slice())), start, self.pos);
            proof {
                if self.small() {
                    self.lemma_pushed_covers(i0, start);
                    lemma_lexed_step(self.src@, t0, self.tokens@, old(self).i as int, i0, self.i as int);
                }
            }
        }
        let p = self.pos;
        proof {
            lemma_utf8_len_take_mono(self.src@, self.i as int, self.src@.len() as int);
            assert(self.src@.take(self.src@.len() as int) == self.src@);
        }
        let ghost before = self.tokens@;
        self.tokens.push(Token::new(TokenKind::Eof, Span::new(p as u32, p as u32)));
        proof {
            assert(self.tokens@.drop_last() == before);
            if self.small() {
                assert(before.is_prefix_of(self.tokens@));
                lemma_lexed_extend(self.src@, before, self.tokens@, old(self).i as int, self.i as int);
            }
            if self.small() {
                assert forall|k: int, j: int|
                    0 <= k < j < self.tokens@.len() implies #[trigger] self.tokens@[k].span.end
                    <= #[trigger] self.tokens@[j].span.start by {
                    assert(self.tokens@[k] == before[k]);
                    assert(before[k].span.end <= p);
                    if j < before.len() {
                        assert(self.tokens@[j] == before[j]);
                    } else {
                        assert(self.tokens@[j].span.start == p as u32);
                    }
                }
                assert forall|k: int| 0 <= k < self.tokens@.len() implies token_spelled(
                    self.src@,
                    #[trigger] self.tokens@[k],
                ) by {
                    if k < before.len() {
                        assert(self.tokens@[k] == before[k]);
                    }
                }
                assert forall|k: int| 0 <= k < self.tokens@.len() implies number_token_ok(
                    self.src@,
                    #[trigger] self.tokens@[k],
                ) by {
                    if k < before.len() {
                        assert(self.tokens@[k] == before[k]);
                    }
                }
            }
        }
    }

    fn skip_line_comment(&mut self)
        requires
            old(self).wf(),
            old(self).at_spec(0, '-'),
            old(self).at_spec(1, '-'),
        ensures
            final(self).wf(),
            final(self).src == old(self).src,
            final(self).tokens == old(self).tokens,
            final(self).i > old(self).i,
            line_comment(final(self).src@, old(self).i as int, final(self).i as int),
    {
        while self.i < self.src.len() && self.src[self.i] != '\n'
            invariant
                self.wf(),
                self.src == old(self).src,
                self.tokens == old(self).tokens,
                self.i >= old(self).i,
                old(self).at_spec(0, '-'),
                old(self).at_spec(1, '-'),
                self.i < old(self).i + 2 ==> self.i < self.src@.len() && self.src@[self.i as int]
                    == '-',
                forall|j: int| old(self).i <= j < self.i ==> self.src@[j] != '\n',
            decreases self.src@.len() - self.i,
        {
            self.bump_char();
        }
    }

    fn skip_block_comment(&mut self)
        requires
            old(self).wf(),
            old(self).at_spec(0, '/'),
            old(self).at_spec(1, '-'),
        ensures
            final(self).wf(),
            final(self).src == old(self).src,
            final(self).tokens == old(self).tokens,
            final(self).i > old(self).i,
            block_comment(final(self).src@, old(self).i as int, final(self).i as int),
    {
        self.bump_n(2);
        let mut depth: usize = 1;
        while !self.is_eof()
            invariant
                self.wf(),
                self.src == old(self).src,
                self.tokens == old(self).tokens,
                self.i >= old(self).i + 2,
                1 <= depth <= self.i,
            ensures
                self.wf(),
                self.src == old(self).src,
                self.tokens == old(self).tokens,
                self.i >= old(self).i + 2,
                self.i == self.src@.len() || (self.i >= old(self).i + 4 && self.src@[self.i - 2]
                    == '-' && self.src@[self.i - 1] == '/'),
            decreases self.src@.len() - self.i,
        {
            if self.at(0, '/') && self.at(1, '-') {
                depth = depth + 1;
                self.bump_n(2);
                continue;
            }
            if self.at(0, '-') && self.at(1, '/') {
                self.bump_n(2);
                if depth == 1 {
                    break;
                }
                depth = depth - 1;
                continue;
            }
            self.bump_char();
        }
    }

    fn lex_doc_comment(&mut self, module: bool)
        requires
            old(self).wf(),
            old(self).at_spec(0, '/'),
            old(self).at_spec(1, '-'),
            old(self).at_spec(2, '!') || old(self).at_spec(2, '-'),
            old(self).small() ==> ends_before(old(self).tokens@, old(self).pos as nat),
        ensures
            old(self).tokens@.is_prefix_of(final(self).tokens@),
            final(self).small() ==> lexed_range(
                final(self).src@,
                final(self).tokens@,
                old(self).i as int,
                final(self).i as int,
            ),
            final(self).wf(),
            final(self).src == old(self).src,
            final(self).i > old(self).i,
    {
        let start = self.pos;
        self.bump_n(3);
        let content_start = self.i;
        let mut depth: usize = 1;
        while !self.is_eof()
            invariant
                self.wf(),
                self.src == old(self).src,
                self.tokens == old(self).tokens,
                self.i >= content_start == old(self).i + 3,
                start == old(self).pos <= self.pos,
                start == utf8_len(self.src@.take(old(self).i as int)),
                self.small() ==> ends_before(self.tokens@, start as nat),
                1 <= depth <= self.i,
            decreases self.src@.len() - self.i,
        {
            if self.at(0, '/') && self.at(1, '-') {
                depth = depth + 1;
                self.bump_n(2);
                continue;
            }
            if self.at(0, '-') && self.at(1, '/') {
                if depth == 1 {
                    let content = self.text_between(content_start, self.i);
                    self.bump_n(2);
                    let kind = if module {
                        TokenKind::ModuleDoc(content)
                    } else {
                        TokenKind::DocComment(content)
                    };
                    self.push_token(kind, start, self.pos);
                    proof { if self.small() { self.lemma_pushed_covers(old(self).i as int, start); } }
                    return;
                }
                depth = depth - 1;
                self.bump_n(2);
                continue;
            }
            self.bump_char();
        }
        self.push_token(TokenKind::Error("unterminated doc comment".to_owned()), start, self.pos);
        proof { if self.small() { self.lemma_pushed_covers(old(self).i as int, start); } }
    }

    fn is_interpol_prefix(&self) -> (b: bool)
        requires
            self.i <= self.src@.len(),
        ensures
            b == ((self.at_spec(0, 's') || self.at_spec(0, 'f')) && self.at_spec(1, '!')
                && self.at_spec(2, '"')),
    {
        (self.at(0, 's') || self.at(0, 'f')) && self.at(1, '!') && self.at(2, '"')
    }

    fn lex_interpolated_string(&mut self)
        requires
            old(self).wf(),
            old(self).at_spec(0, 's') || old(self).at_spec(0, 'f'),
            old(self).at_spec(1, '!'),
            old(self).at_spec(2, '"'),
            old(self).small() ==> ends_before(old(self).tokens@, old(self).pos as nat),
        ensures
            old(self).tokens@.is_prefix_of(final(self).tokens@),
            final(self).small() ==> lexed_range(
                final(self).src@,
                final(self).tokens@,
                old(self).i as int,
                final(self).i as int,
            ),
            final(self).wf(),
            final(self).src == old(self).src,
            final(self).i > old(self).i,
    {
        let begin_start = self.pos;
        let begin_i = self.i;
        self.bump_n(2);
        proof {
            let t = self.src@.subrange(begin_i as int, self.i as int);
            assert(t.len() == 2 && t[0] == self.src@[begin_i as int] && t[1] == self.src@[begin_i
                + 1]);
            assert(op_spelling(TokenKind::InterpolBegin, t));
            if self.small() {
                self.lemma_op_here(begin_i as int, begin_start, TokenKind::InterpolBegin);
            }
        }
        self.push_token(TokenKind::InterpolBegin, begin_start, self.pos);
        proof {
            if self.small() {
                self.lemma_pushed_covers(begin_i as int, begin_start);
            }
        }
        let ghost mid = self.i as int;
        let ghost toks1 = self.tokens@;
        self.lex_string();
        let ghost toks2 = self.tokens@;
        let end = self.pos;
        self.push_token(TokenKind::InterpolEnd, end, end);
        proof {
            assert(old(self).tokens@.is_prefix_of(toks1));
            assert(toks2.is_prefix_of(self.tokens@));
            lemma_prefix_trans(old(self).tokens@, toks1, toks2);
            lemma_prefix_trans(old(self).tokens@, toks2, self.tokens@);
            if self.small() {
                lemma_lexed_extend(self.src@, toks1, toks2, begin_i as int, mid);
                lemma_lexed_join(self.src@, toks2, begin_i as int, mid, self.i as int);
                lemma_lexed_extend(self.src@, toks2, self.tokens@, begin_i as int, self.i as int);
            }
        }
    }

    fn lex_string(&mut self)
        requires
            old(self).wf(),
            old(self).at_spec(0, '"'),
            old(self).small() ==> ends_before(old(self).tokens@, old(self).pos as nat),
        ensures
            old(self).tokens@.is_prefix_of(final(self).tokens@),
            final(self).small() ==> lexed_range(
                final(self).src@,
                final(self).tokens@,
                old(self).i as int,
                final(self).i as int,
            ),
            final(self).wf(),
            final(self).src == old(self).src,
            final(self).i > old(self).i,
            old(self).small() ==> ends_before(final(self).tokens@, final(self).pos as nat),
    {
        let start = self.pos;
        self.bump_char();
        let mut out: Vec<char> = Vec::new();
        while self.i < self.src.len()
            invariant
                self.wf(),
                self.src == old(self).src,
                self.tokens == old(self).tokens,
                self.i > old(self).i,
                start == old(self).pos <= self.pos,
                start == utf8_len(self.src@.take(old(self).i as int)),
                self.small() ==> ends_before(self.tokens@, start as nat),
            decreases self.src@.len() - self.i,
        {
            let ch = self.src[self.i];
            if ch == '"' {
                self.bump_char();
                self.push_token(TokenKind::StrLit(string_from_chars(out.as_slice())), start, self.pos);
                proof { if self.small() { self.lemma_pushed_covers(old(self).i as int, start); } }
                return;
            }
            if ch == '\\' {
                self.bump_char();
                match self.read_escape() {
                    Ok(c) => out.push(c),
                    Err(msg) => {
                        self.push_token(TokenKind::Error(msg), start, self.pos);
                        let ghost mid = self.i as int;
                        let ghost toks = self.tokens@;
                        proof {
                            if self.small() {
                                self.lemma_pushed_covers(old(self).i as int, start);
                                lemma_utf8_len_take_mono(self.src@, self.i as int, self.src@.len() as int);
                                lemma_tail_lexed(self.src@, self.tokens@, self.i as int);
                            }
                        }
                        self.consume_until_quote();
                        proof {
                            if self.small() {
                                lemma_lexed_join(self.src@, toks, old(self).i as int, mid, self.i as int);
                            }
                        }
                        return;
                    },
                }
                continue;
            }
            out.push(ch);
            self.bump_char();
        }
        self.push_token(
            TokenKind::Error("unterminated string literal".to_owned()),
            start,
            self.pos,
        );
        proof { if self.small() { self.lemma_pushed_covers(old(self).i as int, start); } }
    }

    /// Skip to just after the next `"` (or to the end of the text).
    fn consume_until_quote(&mut self)
        requires
            old(self).wf(),
        ensures
            final(self).wf(),
            final(self).src == old(self).src,
            final(self).tokens == old(self).tokens,
            final(self).i >= old(self).i,
            final(self).pos >= old(self).pos,
            final(self).i == after_quote(old(self).src@, old(self).i as int),
    {
        while self.i < self.src.len()
            invariant_except_break
                after_quote(self.src@, self.i as int) == after_quote(
                    old(self).src@,
                    old(self).i as int,
                ),
            invariant
                self.wf(),
                self.src == old(self).src,
                self.tokens == old(self).tokens,
                self.i >= old(self).i,
                self.pos >= old(self).pos,
            ensures
                self.i == after_quote(old(self).src@, old(self).i as int),
            decreases self.src@.len() - self.i,
        {
            let ch = self.src[self.i];
            self.bump_char();
            if ch == '"' {
                break;
            }
        }
    }

    /// Read the escape after a backslash.
    fn read_escape(&mut self) -> (r: Result<char, String>)
        requires
            old(self).wf(),
        ensures
            final(self).wf(),
            final(self).src == old(self).src,
            final(self).tokens == old(self).tokens,
            final(self).i >= old(self).i,
            final(self).pos >= old(self).pos,
            old(self).i < old(self).src@.len() && simple_escape(old(self).src@[old(self).i as int])
                is Some ==> r == Ok::<char, String>(
                simple_escape(old(self).src@[old(self).i as int])->0,
            ) && final(self).i == old(self).i + 1,
            old(self).i >= old(self).src@.len() ==> r is Err,
    {
        let esc = match self.bump_char() {
            Some(c) => c,
            None => {
                return Err("invalid escape sequence".to_owned());
            },
        };
        if esc == 'n' {
            Ok('\n')
        } else if esc == 't' {
            Ok('\t')
        } else if esc == 'r' {
            Ok('\r')
        } else if esc == '\\' {
            Ok('\\')
        } else if esc == '"' {
            Ok('"')
        } else if esc == '\'' {
            Ok('\'')
        } else if esc == '0' {
            Ok('\0')
        } else if esc == 'x' {
            self.read_hex_escape()
        } else if esc == 'u' {
            self.read_unicode_escape()
        } else {
            let mut msg = chars_of("unknown escape: \\");
            msg.push(esc);
            Err(string_from_chars(msg.as_slice()))
        }
    }

    /// Read the two hex digits of `\xHH`.
    fn read_hex_escape(&mut self) -> (r: Result<char, String>)
        requires
            old(self).wf(),
        ensures
            final(self).wf(),
            final(self).src == old(self).src,
            final(self).tokens == old(self).tokens,
            final(self).i >= old(self).i,
            final(self).pos >= old(self).pos,
            r is Ok <==> old(self).i + 2 <= old(self).src@.len() && hex_digit_value(
                old(self).src@[old(self).i as int],
            ) is Some && hex_digit_value(old(self).src@[old(self).i + 1]) is Some,
            r matches Ok(c) ==> c as u32 == hex_value(old(self).src@, old(self).i as int, 2)
                && final(self).i == old(self).i + 2,
    {
        let h1 = match self.bump_char() {
            Some(c) => c,
            None => {
                return Err("incomplete hex escape".to_owned());
            },
        };
        let h2 = match self.bump_char() {
            Some(c) => c,
            None => {
                return Err("incomplete hex escape".to_owned());
            },
        };
        let value = match (hex_val(h1), hex_val(h2)) {
            (Some(a), Some(b)) => a * 16 + b,
            _ => {
                return Err("invalid hex escape".to_owned());
            },
        };
        proof {
            let src = old(self).src@;
            let i = old(self).i as int;
            assert(hex_value(src, i, 0) == 0);
            assert(hex_value(src, i, 1) == hex_digit_value(src[i])->0);
            assert(hex_value(src, i, 2) == value);
        }
        match char_from_u32(value) {
            Some(c) => Ok(c),
            None => Err("invalid hex scalar".to_owned()),
        }
    }

    /// Read the `{...}` part of `\u{...}`.
    fn read_unicode_escape(&mut self) -> (r: Result<char, String>)
        requires
            old(self).wf(),
        ensures
            final(self).wf(),
            final(self).src == old(self).src,
            final(self).tokens == old(self).tokens,
            final(self).i >= old(self).i,
            final(self).pos >= old(self).pos,
            r is Ok <==> unicode_escape_ok(old(self).src@, old(self).i as int),
            r matches Ok(c) ==> ({
                let n = hex_run(old(self).src@, old(self).i + 1);
                &&& c as u32 == hex_value(old(self).src@, old(self).i + 1, n)
                &&& final(self).i == old(self).i + 2 + n
            }),
    {
        let ghost src = self.src@;
        let ghost j0 = self.i + 1;
        match self.bump_char() {
            Some(c) => {
                if c != '{' {
                    return Err("invalid unicode escape".to_owned());
                }
            },
            None => {
                return Err("invalid unicode escape".to_owned());
            },
        }
        let mut value: u32 = 0;
        let mut digits: usize = 0;
        proof {
            lemma_hex_bound();
        }
        while self.i < self.src.len()
            invariant
                self.wf(),
                self.src == old(self).src,
                src == self.src@,
                self.tokens == old(self).tokens,
                self.i >= old(self).i,
                self.pos >= old(self).pos,
                digits <= 6,
                j0 == old(self).i + 1,
                old(self).i < src.len(),
                src[old(self).i as int] == '{',
                self.i == j0 + digits,
                forall|k: int| j0 <= k < self.i ==> #[trigger] hex_digit_value(src[k]) is Some,
                value == hex_value(src, j0, digits as nat),
                value < hex_bound(digits as nat),
                hex_bound(5) == 1048576,
                hex_bound(6) == 16777216,
                forall|n: nat| n <= 6 ==> #[trigger] hex_bound(n) <= hex_bound(6),
            decreases self.src@.len() - self.i,
        {
            let ch = self.src[self.i];
            if ch == '}' {
                proof {
                    lemma_hex_run_exact(src, j0, digits as nat);
                }
                self.bump_char();
                if digits == 0 {
                    return Err("empty unicode escape".to_owned());
                }
                return match char_from_u32(value) {
                    Some(c) => Ok(c),
                    None => Err("invalid unicode scalar".to_owned()),
                };
            }
            let d = match hex_val(ch) {
                Some(d) => d,
                None => {
                    proof {
                        lemma_hex_run_exact(src, j0, digits as nat);
                    }
                    return Err("invalid unicode escape".to_owned());
                },
            };
            self.bump_char();
            let m = match value.checked_mul(16) {
                Some(m) => m,
                None => u32::MAX,
            };
            value = m.saturating_add(d);
            digits = digits + 1;
            proof {
                assert(hex_value(src, j0, digits as nat) == hex_value(src, j0, (digits - 1) as nat)
                    * 16 + d);
                assert(hex_bound(digits as nat) == 16 * hex_bound((digits - 1) as nat));
            }
            if digits > 6 {
                proof {
                    lemma_hex_run_at_least(src, j0, digits as nat);
                }
                return Err("unicode escape too long".to_owned());
            }
        }
        proof {
            lemma_hex_run_exact(src, j0, digits as nat);
        }
        Err("unterminated unicode escape".to_owned())
    }

    fn lex_char(&mut self)
        requires
            old(self).wf(),
            old(self).at_spec(0, '\''),
            old(self).small() ==> ends_before(old(self).tokens@, old(self).pos as nat),
        ensures
            old(self).tokens@.is_prefix_of(final(self).tokens@),
            final(self).small() ==> lexed_range(
                final(self).src@,
                final(self).tokens@,
                old(self).i as int,
                final(self).i as int,
            ),
            final(self).wf(),
            final(self).src == old(self).src,
            final(self).i > old(self).i,
    {
        let start = self.pos;
        self.bump_char();
        if self.i >= self.src.len() {
            self.push_token(
                TokenKind::Error("unterminated char literal".to_owned()),
                start,
                self.pos,
            );
            proof { if self.small() { self.lemma_pushed_covers(old(self).i as int, start); } }
            return;
        }
        let c = self.src[self.i];
        let mut ch = c;
        if c == '\\' {
            self.bump_char();
            let esc = self.read_escape();
            match esc {
                Ok(e) => {
                    ch = e;
                },
                Err(msg) => {
                    self.push_token(TokenKind::Error(msg), start, self.pos);
                    proof { if self.small() { self.lemma_pushed_covers(old(self).i as int, start); } }
                    return;
                },
            }
        } else {
            self.bump_char();
        }
        let closing = self.bump_char();
        let closed = match closing {
            Some(c2) => c2 == '\'',
            None => false,
        };
        let end = self.pos;
        if closed {
            let ghost before = self.tokens@;
            self.push_token(TokenKind::CharLit(ch), start, end);
            proof {
                let t = Token {
                    kind: TokenKind::CharLit(ch),
                    span: Span { start: start as u32, end: end as u32 },
                };
                assert(self.tokens@ == before.push(t));
                vstd::seq::axiom_seq_push_len(before, t);
                vstd::seq::axiom_seq_push_index_same(before, t, before.len() as int);
                assert(self.tokens@.len() == before.len() + 1);
                assert(self.tokens@.last() == t);
                if self.small() {
                    self.lemma_pushed_covers(old(self).i as int, start);
                }
            }
        } else {
            self.push_token(TokenKind::Error("unterminated char literal".to_owned()), start, end);
            proof { if self.small() { self.lemma_pushed_covers(old(self).i as int, start); } }
        }
    }

    fn lex_guillemet_ident(&mut self)
        requires
            old(self).wf(),
            old(self).at_spec(0, '«'),
            old(self).small() ==> ends_before(old(self).tokens@, old(self).pos as nat),
        ensures
            old(self).tokens@.is_prefix_of(final(self).tokens@),
            final(self).small() ==> lexed_range(
                final(self).src@,
                final(self).tokens@,
                old(self).i as int,
                final(self).i as int,
            ),
            final(self).wf(),
            final(self).src == old(self).src,
            final(self).i > old(self).i,
    {
        let start = self.pos;
        self.bump_char();
        let content_start = self.i;
        while self.i < self.src.len()
            invariant
                self.wf(),
                self.src == old(self).src,
                self.tokens == old(self).tokens,
                self.i >= content_start == old(self).i + 1,
                start == old(self).pos <= self.pos,
                start == utf8_len(self.src@.take(old(self).i as int)),
                self.src@[old(self).i as int] == '«',
                self.small() ==> ends_before(self.tokens@, start as nat),
            decreases self.src@.len() - self.i,
        {
            let ch = self.src[self.i];
            if ch == '»' {
                let content = self.text_between(content_start, self.i);
                self.bump_char();
                proof {
                    let a = old(self).i as int;
                    assert(self.src@.subrange(a, self.i as int) =~= seq!['«'] + content@ + seq!['»']);
                    if self.small() {
                        self.lemma_spelled_here(a, start, seq!['«'] + content@ + seq!['»']);
                    }
                }
                self.push_token(TokenKind::Ident(content), start, self.pos);
                proof { if self.small() { self.lemma_pushed_covers(old(self).i as int, start); } }
                return;
            }
            self.bump_char();
        }
        self.push_token(
            TokenKind::Error("unterminated quoted identifier".to_owned()),
            start,
            self.pos,
        );
        proof { if self.small() { self.lemma_pushed_covers(old(self).i as int, start); } }
    }

    fn consume_ident_continue(&mut self)
        requires
            old(self).wf(),
        ensures
            final(self).wf(),
            final(self).src == old(self).src,
            final(self).tokens == old(self).tokens,
            final(self).i >= old(self).i,
            final(self).pos >= old(self).pos,
            final(self).i < final(self).src@.len() ==> !is_ident_continue(
                final(self).src@[final(self).i as int],
            ),
            forall|j: int|
                old(self).i <= j < final(self).i ==> is_ident_continue(#[trigger] final(self).src@[j]),
    {
        while self.i < self.src.len() && is_ident_continue_exec(self.src[self.i])
            invariant
                self.wf(),
                self.src == old(self).src,
                self.tokens == old(self).tokens,
                self.i >= old(self).i,
                self.pos >= old(self).pos,
                forall|j: int|
                    old(self).i <= j < self.i ==> is_ident_continue(#[trigger] self.src@[j]),
            decreases self.src@.len() - self.i,
        {
            self.bump_char();
        }
    }

    fn lex_ident_or_keyword(&mut self)
        requires
            old(self).wf(),
            old(self).i < old(self).src@.len(),
            old(self).small() ==> ends_before(old(self).tokens@, old(self).pos as nat),
        ensures
            old(self).tokens@.is_prefix_of(final(self).tokens@),
            final(self).small() ==> lexed_range(
                final(self).src@,
                final(self).tokens@,
                old(self).i as int,
                final(self).i as int,
            ),
            final(self).wf(),
            final(self).src == old(self).src,
            final(self).i > old(self).i,
            final(self).tokens@.len() == old(self).tokens@.len() + 1,
            ({
                let text = final(self).src@.subrange(old(self).i as int, final(self).i as int);
                let kind = final(self).tokens@.last().kind;
                &&& text == seq!['_'] ==> kind is Underscore
                &&& kind matches TokenKind::Keyword(kw) ==> keyword_text(kw) == text
                &&& kind matches TokenKind::Ident(s) ==> s@ == text
                &&& kind is Underscore || kind is Keyword || kind is Ident
            }),
    {
        let start = self.pos;
        let start_i = self.i;
        self.bump_char();
        self.consume_ident_continue();
        loop
            invariant
                self.wf(),
                self.src == old(self).src,
                self.tokens == old(self).tokens,
                self.i > start_i == old(self).i,
                start == old(self).pos <= self.pos,
                self.small() ==> ends_before(self.tokens@, start as nat),
            decreases self.src@.len() - self.i,
        {
            if !self.at(0, '.') {
                break;
            }
            if self.i + 1 >= self.src.len() {
                break;
            }
            let next = self.src[self.i + 1];
            if !is_ident_start_exec(next) {
                break;
            }
            self.bump_char();
            self.bump_char();
            self.consume_ident_continue();
        }
        let text = self.text_between(start_i, self.i);
        if self.i == start_i + 1 && self.src[start_i] == '_' {
            proof {
                assert(text@ == seq!['_']);
                assert(text1(self.src@.subrange(start_i as int, self.i as int), '_'));
                if self.small() {
                    self.lemma_op_here(start_i as int, start, TokenKind::Underscore);
                }
            }
            self.push_token(TokenKind::Underscore, start, self.pos);
            proof { if self.small() { self.lemma_pushed_covers(old(self).i as int, start); } }
            return;
        }
        proof {
            if text@ == seq!['_'] {
                assert(text@.len() == 1);
                assert(text@[0] == self.src@[start_i as int]);
            }
        }
        proof {
            if self.small() {
                self.lemma_spelled_here(start_i as int, start, text@);
            }
        }
        match Keyword::parse(text.as_str()) {
            Some(kw) => {
                self.push_token(TokenKind::Keyword(kw), start, self.pos);
                proof { if self.small() { self.lemma_pushed_covers(old(self).i as int, start); } }
            },
            None => {
                self.push_token(TokenKind::Ident(text), start, self.pos);
                proof { if self.small() { self.lemma_pushed_covers(old(self).i as int, start); } }
            },
        }
    }

    fn consume_digits(&mut self, class: DigitClass)
        requires
            old(self).wf(),
        ensures
            final(self).wf(),
            final(self).src == old(self).src,
            final(self).tokens == old(self).tokens,
            final(self).i >= old(self).i,
            final(self).pos >= old(self).pos,
            old(self).i < old(self).src@.len() && (old(self).src@[old(self).i as int] == '_'
                || in_digit_class(old(self).src@[old(self).i as int], class)) ==> final(self).i
                > old(self).i,
            final(self).i == digit_run_end(old(self).src@, old(self).i as int, class),
    {
        while self.i < self.src.len() && (self.src[self.i] == '_' || digit_in_class(
            self.src[self.i],
            class,
        ))
            invariant
                digit_run_end(self.src@, self.i as int, class) == digit_run_end(
                    old(self).src@,
                    old(self).i as int,
                    class,
                ),
                self.wf(),
                self.src == old(self).src,
                self.tokens == old(self).tokens,
                self.i >= old(self).i,
                self.pos >= old(self).pos,
                self.i == old(self).i ==> self.src == old(self).src,
            decreases self.src@.len() - self.i,
        {
            self.bump_char();
        }
    }

    fn lex_number(&mut self)
        requires
            old(self).wf(),
            old(self).i < old(self).src@.len(),
            is_dec_digit(old(self).src@[old(self).i as int]),
            old(self).small() ==> ends_before(old(self).tokens@, old(self).pos as nat),
        ensures
            old(self).tokens@.is_prefix_of(final(self).tokens@),
            final(self).small() ==> lexed_range(
                final(self).src@,
                final(self).tokens@,
                old(self).i as int,
                final(self).i as int,
            ),
            final(self).wf(),
            final(self).src == old(self).src,
            final(self).i > old(self).i,
            final(self).tokens@.len() == old(self).tokens@.len() + 1,
            ({
                let text = final(self).src@.subrange(old(self).i as int, final(self).i as int);
                let kind = final(self).tokens@.last().kind;
                &&& kind matches TokenKind::NatLit(s) ==> s@ == text
                &&& kind matches TokenKind::ScientificLit(s) ==> s@ == text
                &&& kind is NatLit || kind is ScientificLit
                &&& final(self).i == number_extent(old(self).src@, old(self).i as int).0
                &&& kind is ScientificLit == number_extent(old(self).src@, old(self).i as int).1
            }),
    {
        let start = self.pos;
        let start_i = self.i;
        if self.at(0, '0') && (self.at(1, 'x') || self.at(1, 'X')) {
            self.bump_n(2);
            self.consume_digits(DigitClass::Hex);
            let text = self.text_between(start_i, self.i);
            proof {
                if self.small() {
                    self.lemma_spelled_here(start_i as int, start, text@);
                    self.lemma_covers_here(start_i as int, start);
                    assert(number_extent(self.src@, start_i as int) == (self.i as int, false));
                    let sp = Span { start: start as u32, end: self.pos as u32 };
                    let t = Token { kind: TokenKind::NatLit(text), span: sp };
                    assert(span_covers(self.src@, t.span, start_i as int, self.i as int));
                }
            }
            self.push_token(TokenKind::NatLit(text), start, self.pos);
            proof { if self.small() { self.lemma_pushed_covers(old(self).i as int, start); } }
            return;
        }
        if self.at(0, '0') && (self.at(1, 'b') || self.at(1, 'B')) {
            self.bump_n(2);
            self.consume_digits(DigitClass::Bin);
            let text = self.text_between(start_i, self.i);
            proof {
                if self.small() {
                    self.lemma_spelled_here(start_i as int, start, text@);
                    self.lemma_covers_here(start_i as int, start);
                    assert(number_extent(self.src@, start_i as int) == (self.i as int, false));
                    let sp = Span { start: start as u32, end: self.pos as u32 };
                    let t = Token { kind: TokenKind::NatLit(text), span: sp };
                    assert(span_covers(self.src@, t.span, start_i as int, self.i as int));
                }
            }
            self.push_token(TokenKind::NatLit(text), start, self.pos);
            proof { if self.small() { self.lemma_pushed_covers(old(self).i as int, start); } }
            return;
        }
        if self.at(0, '0') && (self.at(1, 'o') || self.at(1, 'O')) {
            self.bump_n(2);
            self.consume_digits(DigitClass::Oct);
            let text = self.text_between(start_i, self.i);
            proof {
                if self.small() {
                    self.lemma_spelled_here(start_i as int, start, text@);
                    self.lemma_covers_here(start_i as int, start);
                    assert(number_extent(self.src@, start_i as int) == (self.i as int, false));
                    let sp = Span { start: start as u32, end: self.pos as u32 };
                    let t = Token { kind: TokenKind::NatLit(text), span: sp };
                    assert(span_covers(self.src@, t.span, start_i as int, self.i as int));
                }
            }
            self.push_token(TokenKind::NatLit(text), start, self.pos);
            proof { if self.small() { self.lemma_pushed_covers(old(self).i as int, start); } }
            return;
        }
        self.consume_digits(DigitClass::Dec);
        let mut has_frac = false;
        let mut has_exp = false;
        if self.at(0, '.') && !self.at(1, '.') && match self.peek_nth_char(1) {
            Some(c) => '0' <= c && c <= '9',
            None => false,
        } {
            has_frac = true;
            self.bump_char();
            self.consume_digits(DigitClass::Dec);
        }
        if self.at(0, 'e') || self.at(0, 'E') {
            let save_i = self.i;
            let save_pos = self.pos;
            self.bump_char();
            if self.at(0, '+') || self.at(0, '-') {
                self.bump_char();
            }
            let exp_start = self.i;
            self.consume_digits(DigitClass::Dec);
            if self.i > exp_start {
                has_exp = true;
            } else {
                self.i = save_i;
                self.pos = save_pos;
            }
        }
        let text = self.text_between(start_i, self.i);
        proof {
            if self.small() {
                self.lemma_spelled_here(start_i as int, start, text@);
                self.lemma_covers_here(start_i as int, start);
                assert(number_extent(self.src@, start_i as int) == (self.i as int, has_frac
                    || has_exp));
                let sp = Span { start: start as u32, end: self.pos as u32 };
                let t1 = Token { kind: TokenKind::ScientificLit(text), span: sp };
                let t2 = Token { kind: TokenKind::NatLit(text), span: sp };
                assert(span_covers(self.src@, t1.span, start_i as int, self.i as int));
                assert(span_covers(self.src@, t2.span, start_i as int, self.i as int));
                if has_frac || has_exp {
                    assert(number_token_ok(self.src@, t1));
                } else {
                    assert(number_token_ok(self.src@, t2));
                }
            }
        }
        if has_frac || has_exp {
            self.push_token(TokenKind::ScientificLit(text), start, self.pos);
            proof { if self.small() { self.lemma_pushed_covers(old(self).i as int, start); } }
        } else {
            self.push_token(TokenKind::NatLit(text), start, self.pos);
            proof { if self.small() { self.lemma_pushed_covers(old(self).i as int, start); } }
        }
    }

    fn lex_hash_keyword(&mut self) -> (b: bool)
        requires
            old(self).wf(),
            old(self).at_spec(0, '#'),
            old(self).small() ==> ends_before(old(self).tokens@, old(self).pos as nat),
        ensures
            old(self).tokens@.is_prefix_of(final(self).tokens@),
            final(self).small() ==> lexed_range(
                final(self).src@,
                final(self).tokens@,
                old(self).i as int,
                final(self).i as int,
            ),
            b,
            final(self).wf(),
            final(self).src == old(self).src,
            final(self).i > old(self).i,
    {
        let start = self.pos;
        let start_i = self.i;
        self.bump_char();
        let ident_start = self.i;
        let ident_start_pos = self.pos;
        proof {
            assert(text1(self.src@.subrange(start_i as int, ident_start as int), '#'));
            if self.small() {
                self.lemma_op_here(start_i as int, start, TokenKind::Hash);
            }
        }
        self.consume_ident_continue();
        if self.i == ident_start {
            self.push_token(TokenKind::Hash, start, self.pos);
            proof { if self.small() { self.lemma_pushed_covers(old(self).i as int, start); } }
            return true;
        }
        let text = self.text_between(start_i, self.i);
        proof {
            if self.small() {
                self.lemma_spelled_here(start_i as int, start, text@);
            }
        }
        match Keyword::parse(text.as_str()) {
            Some(kw) => {
                self.push_token(TokenKind::Keyword(kw), start, self.pos);
                proof { if self.small() { self.lemma_pushed_covers(old(self).i as int, start); } }
            },
            None => {
                proof {
                    assert(ident_start_pos == start + 1);
                }
                self.push_token(TokenKind::Hash, start, start + 1);
                let ghost toks1 = self.tokens@;
                proof {
                    if self.small() {
                        lemma_utf8_len_take_mono(self.src@, ident_start as int, self.src@.len() as int);
                        lemma_last_covers(self.src@, self.tokens@, old(self).i as int, ident_start as int);
                    }
                }
                let ident = self.text_between(ident_start, self.i);
                proof {
                    if self.small() {
                        self.lemma_spelled_here(ident_start as int, ident_start_pos, ident@);
                    }
                }
                self.push_token(TokenKind::Ident(ident), ident_start_pos, self.pos);
                proof {
                    lemma_prefix_trans(old(self).tokens@, toks1, self.tokens@);
                    if self.small() {
                        self.lemma_pushed_covers(ident_start as int, ident_start_pos);
                        lemma_lexed_extend(self.src@, toks1, self.tokens@, old(self).i as int, ident_start as int);
                        lemma_lexed_join(self.src@, self.tokens@, old(self).i as int, ident_start as int, self.i as int);
                    }
                }
            },
        }
        true
    }

    /// Emit `kind` spanning the next `k` characters.
    fn emit_op(&mut self, k: usize, kind: TokenKind) -> (b: bool)
        requires
            old(self).wf(),
            1 <= k,
            old(self).i + k <= old(self).src@.len(),
            old(self).small() ==> ends_before(old(self).tokens@, old(self).pos as nat),
            !is_text_kind(kind),
            !(kind is Eof),
            op_spelling(kind, old(self).src@.subrange(old(self).i as int, old(self).i + k)),
        ensures
            old(self).tokens@.is_prefix_of(final(self).tokens@),
            final(self).small() ==> lexed_range(
                final(self).src@,
                final(self).tokens@,
                old(self).i as int,
                final(self).i as int,
            ),
            b,
            final(self).wf(),
            final(self).src == old(self).src,
            final(self).i == old(self).i + k,
            final(self).tokens@.len() == old(self).tokens@.len() + 1,
            final(self).tokens@.last().kind == kind,
    {
        let start = self.pos;
        let start_i = self.i;
        self.bump_n(k);
        proof {
            assert(self.src@.subrange(start_i as int, self.i as int) == old(self).src@.subrange(
                old(self).i as int,
                old(self).i + k,
            ));
            if self.small() {
                self.lemma_op_here(start_i as int, start, kind);
            }
        }
        self.push_token(kind, start, self.pos);
        proof { if self.small() { self.lemma_pushed_covers(old(self).i as int, start); } }
        true
    }

    fn lex_operator_or_punct(&mut self) -> (b: bool)
        requires
            old(self).wf(),
            old(self).small() ==> ends_before(old(self).tokens@, old(self).pos as nat),
        ensures
            old(self).tokens@.is_prefix_of(final(self).tokens@),
            final(self).small() ==> lexed_range(
                final(self).src@,
                final(self).tokens@,
                old(self).i as int,
                final(self).i as int,
            ),
            final(self).wf(),
            final(self).src == old(self).src,
            b ==> final(self).i > old(self).i,
            !b ==> final(self).i == old(self).i && final(self).tokens == old(self).tokens,
            b == op_at(old(self).src@, old(self).i as int) is Some,
            op_at(old(self).src@, old(self).i as int) matches Some((k, n)) ==> final(self).i == old(
                self,
            ).i + n && final(self).tokens@.len() == old(self).tokens@.len() + 1
                && final(self).tokens@.last().kind == k,
    {
        if self.at(0, '<') && self.at(1, '<') && self.at(2, '<') {
            return self.emit_op(3, TokenKind::ShiftLeft);
        }
        if self.at(0, '>') && self.at(1, '>') && self.at(2, '>') {
            return self.emit_op(3, TokenKind::ShiftRight);
        }
        if self.at(0, '&') && self.at(1, '&') && self.at(2, '&') {
            return self.emit_op(3, TokenKind::BitAnd);
        }
        if self.at(0, '|') && self.at(1, '|') && self.at(2, '|') {
            return self.emit_op(3, TokenKind::BitOr);
        }
        if self.at(0, '^') && self.at(1, '^') && self.at(2, '^') {
            return self.emit_op(3, TokenKind::BitXor);
        }
        if self.at(0, '~') && self.at(1, '~') && self.at(2, '~') {
            return self.emit_op(3, TokenKind::Complement);
        }
        if self.at(0, '>') && self.at(1, '>') && self.at(2, '=') {
            return self.emit_op(3, TokenKind::Bind);
        }
        if self.at(0, '<') && self.at(1, '|') && self.at(2, '>') {
            return self.emit_op(3, TokenKind::OrElse);
        }
        if self.at(0, '<') && self.at(1, '$') && self.at(2, '>') {
            return self.emit_op(3, TokenKind::MapOp);
        }
        if self.at(0, '<') && self.at(1, '*') && self.at(2, '>') {
            return self.emit_op(3, TokenKind::SeqComp);
        }
        if self.at(0, '<') && self.at(1, '*') {
            return self.emit_op(2, TokenKind::SeqLeft);
        }
        if self.at(0, '*') && self.at(1, '>') {
            return self.emit_op(2, TokenKind::SeqRight);
        }
        if self.at(0, '|') && self.at(1, '>') {
            return self.emit_op(2, TokenKind::PipeRight);
        }
        if self.at(0, '<') && self.at(1, '|') {
            return self.emit_op(2, TokenKind::PipeLeft);
        }
        if self.at(0, '>') && self.at(1, '>') {
            return self.emit_op(2, TokenKind::SeqOp);
        }
        if self.at(0, '+') && self.at(1, '+') {
            return self.emit_op(2, TokenKind::Append);
        }
        if self.at(0, ':') && self.at(1, ':') {
            return self.emit_op(2, TokenKind::ColonColon);
        }
        if self.at(0, ':') && self.at(1, '=') {
            return self.emit_op(2, TokenKind::ColonEq);
        }
        if self.at(0, '.') && self.at(1, '.') {
            return self.emit_op(2, TokenKind::DotDot);
        }
        if self.at(0, '=') && self.at(1, '>') {
            return self.emit_op(2, TokenKind::FatArrow);
        }
        if self.at(0, '-') && self.at(1, '>') {
            return self.emit_op(2, TokenKind::Arrow);
        }
        if self.at(0, '←') {
            return self.emit_op(1, TokenKind::LArrow);
        }
        if self.at(0, '<') && self.at(1, '-') {
            return self.emit_op(2, TokenKind::LArrow);
        }
        if self.at(0, '→') {
            return self.emit_op(1, TokenKind::Arrow);
        }
        if self.at(0, '&') && self.at(1, '&') {
            return self.emit_op(2, TokenKind::AndAnd);
        }
        if self.at(0, '|') && self.at(1, '|') {
            return self.emit_op(2, TokenKind::OrOr);
        }
        if self.at(0, '<') && self.at(1, '=') {
            return self.emit_op(2, TokenKind::Le);
        }
        if self.at(0, '≥') {
            return self.emit_op(1, TokenKind::Ge);
        }
        if self.at(0, '>') && self.at(1, '=') {
            return self.emit_op(2, TokenKind::Ge);
        }
        if self.at(0, '≤') {
            return self.emit_op(1, TokenKind::Le);
        }
        if self.at(0, '!') && self.at(1, '=') {
            return self.emit_op(2, TokenKind::Ne);
        }
        if self.at(0, '≠') {
            return self.emit_op(1, TokenKind::Ne);
        }
        if self.at(0, '↔') {
            return self.emit_op(1, TokenKind::Iff);
        }
        if self.at(0, '⦃') {
            return self.emit_op(1, TokenKind::LDblAngle);
        }
        if self.at(0, '⦄') {
            return self.emit_op(1, TokenKind::RDblAngle);
        }
        if self.at(0, '∀') {
            return self.emit_op(1, TokenKind::Forall);
        }
        if self.i >= self.src.len() {
            return false;
        }
        let c = self.src[self.i];
        let kind = match punct_kind(c) {
            Some(k) => k,
            None => {
                return false;
            },
        };
        proof {
            assert(self.src@.subrange(self.i as int, self.i + 1) =~= seq![c]);
        }
        self.emit_op(1, kind)
    }
}

/// `s` has the character `c` at position `i`.
pub open spec fn char_at(s: Seq<char>, i: int, c: char) -> bool {
    0 <= i < s.len() && s[i] == c
}

/// The operator or punctuation token at position `i` of `s`, with its
/// length in characters: the longest spelling wins, and a one-character
/// punctuation token is taken last.
pub open spec fn op_at(s: Seq<char>, i: int) -> Option<(TokenKind, int)> {
    if char_at(s, i, '<') && char_at(s, i + 1, '<') && char_at(s, i + 2, '<') {
        Some((TokenKind::ShiftLeft, 3))
    } else if char_at(s, i, '>') && char_at(s, i + 1, '>') && char_at(s, i + 2, '>') {
        Some((TokenKind::ShiftRight, 3))
    } else if char_at(s, i, '&') && char_at(s, i + 1, '&') && char_at(s, i + 2, '&') {
        Some((TokenKind::BitAnd, 3))
    } else if char_at(s, i, '|') && char_at(s, i + 1, '|') && char_at(s, i + 2, '|') {
        Some((TokenKind::BitOr, 3))
    } else if char_at(s, i, '^') && char_at(s, i + 1, '^') && char_at(s, i + 2, '^') {
        Some((TokenKind::BitXor, 3))
    } else if char_at(s, i, '~') && char_at(s, i + 1, '~') && char_at(s, i + 2, '~') {
        Some((TokenKind::Complement, 3))
    } else if char_at(s, i, '>') && char_at(s, i + 1, '>') && char_at(s, i + 2, '=') {
        Some((TokenKind::Bind, 3))
    } else if char_at(s, i, '<') && char_at(s, i + 1, '|') && char_at(s, i + 2, '>') {
        Some((TokenKind::OrElse, 3))
    } else if char_at(s, i, '<') && char_at(s, i + 1, '$') && char_at(s, i + 2, '>') {
        Some((TokenKind::MapOp, 3))
    } else if char_at(s, i, '<') && char_at(s, i + 1, '*') && char_at(s, i + 2, '>') {
        Some((TokenKind::SeqComp, 3))
    } else if char_at(s, i, '<') && char_at(s, i + 1, '*') {
        Some((TokenKind::SeqLeft, 2))
    } else if char_at(s, i, '*') && char_at(s, i + 1, '>') {
        Some((TokenKind::SeqRight, 2))
    } else if char_at(s, i, '|') && char_at(s, i + 1, '>') {
        Some((TokenKind::PipeRight, 2))
    } else if char_at(s, i, '<') && char_at(s, i + 1, '|') {
        Some((TokenKind::PipeLeft, 2))
    } else if char_at(s, i, '>') && char_at(s, i + 1, '>') {
        Some((TokenKind::SeqOp, 2))
    } else if char_at(s, i, '+') && char_at(s, i + 1, '+') {
        Some((TokenKind::Append, 2))
    } else if char_at(s, i, ':') && char_at(s, i + 1, ':') {
        Some((TokenKind::ColonColon, 2))
    } else if char_at(s, i, ':') && char_at(s, i + 1, '=') {
        Some((TokenKind::ColonEq, 2))
    } else if char_at(s, i, '.') && char_at(s, i + 1, '.') {
        Some((TokenKind::DotDot, 2))
    } else if char_at(s, i, '=') && char_at(s, i + 1, '>') {
        Some((TokenKind::FatArrow, 2))
    } else if char_at(s, i, '-') && char_at(s, i + 1, '>') {
        Some((TokenKind::Arrow, 2))
    } else if char_at(s, i, '←') {
        Some((TokenKind::LArrow, 1))
    } else if char_at(s, i, '<') && char_at(s, i + 1, '-') {
        Some((TokenKind::LArrow, 2))
    } else if char_at(s, i, '→') {
        Some((TokenKind::Arrow, 1))
    } else if char_at(s, i, '&') && char_at(s, i + 1, '&') {
        Some((TokenKind::AndAnd, 2))
    } else if char_at(s, i, '|') && char_at(s, i + 1, '|') {
        Some((TokenKind::OrOr, 2))
    } else if char_at(s, i, '<') && char_at(s, i + 1, '=') {
        Some((TokenKind::Le, 2))
    } else if char_at(s, i, '≥') {
        Some((TokenKind::Ge, 1))
    } else if char_at(s, i, '>') && char_at(s, i + 1, '=') {
        Some((TokenKind::Ge, 2))
    } else if char_at(s, i, '≤') {
        Some((TokenKind::Le, 1))
    } else if char_at(s, i, '!') && char_at(s, i + 1, '=') {
        Some((TokenKind::Ne, 2))
    } else if char_at(s, i, '≠') {
        Some((TokenKind::Ne, 1))
    } else if char_at(s, i, '↔') {
        Some((TokenKind::Iff, 1))
    } else if char_at(s, i, '⦃') {
        Some((TokenKind::LDblAngle, 1))
    } else if char_at(s, i, '⦄') {
        Some((TokenKind::RDblAngle, 1))
    } else if char_at(s, i, '∀') {
        Some((TokenKind::Forall, 1))
    } else if 0 <= i < s.len() && punct_of(s[i]) is Some {
        Some((punct_of(s[i])->0, 1))
    } else {
        None
    }
}

/// The one-character punctuation and operator tokens.
pub open spec fn punct_of(ch: char) -> Option<TokenKind> {
    match ch {
        '(' => Some(TokenKind::LParen),
        ')' => Some(TokenKind::RParen),
        '[' => Some(TokenKind::LBracket),
        ']' => Some(TokenKind::RBracket),
        '{' => Some(TokenKind::LBrace),
        '}' => Some(TokenKind::RBrace),
        '⟨' => Some(TokenKind::LAngle),
        '⟩' => Some(TokenKind::RAngle),
        ',' => Some(TokenKind::Comma),
        ';' => Some(TokenKind::Semicolon),
        ':' => Some(TokenKind::Colon),
        '.' => Some(TokenKind::Dot),
        '@' => Some(TokenKind::At),
        '?' => Some(TokenKind::Question),
        '!' => Some(TokenKind::Bang),
        '|' => Some(TokenKind::Pipe),
        '$' => Some(TokenKind::Dollar),
        '+' => Some(TokenKind::Plus),
        '-' => Some(TokenKind::Minus),
        '*' => Some(TokenKind::Star),
        '/' => Some(TokenKind::Slash),
        '%' => Some(TokenKind::Percent),
        '^' => Some(TokenKind::Caret),
        '&' => Some(TokenKind::Ampersand),
        '~' => Some(TokenKind::Tilde),
        '=' => Some(TokenKind::Eq),
        '<' => Some(TokenKind::Lt),
        '>' => Some(TokenKind::Gt),
        'λ' => Some(TokenKind::Lambda),
        '∃' => Some(TokenKind::Exists),
        '¬' => Some(TokenKind::Neg),
        '∧' => Some(TokenKind::Conj),
        '∨' => Some(TokenKind::Disj),
        '∈' => Some(TokenKind::Mem),
        '∘' => Some(TokenKind::Compose),
        '×' => Some(TokenKind::Times),
        '·' => Some(TokenKind::Cdot),
        '▸' => Some(TokenKind::Subst),
        '•' => Some(TokenKind::SMul),
        '∣' => Some(TokenKind::Dvd),
        '#' => Some(TokenKind::Hash),
        '_' => Some(TokenKind::Underscore),
        _ => None,
    }
}

/// The token of a one-character punctuation or operator.
fn punct_kind(ch: char) -> (r: Option<TokenKind>)
    ensures
        r == punct_of(ch),
        r matches Some(k) ==> !is_text_kind(k) && op_spelling(k, seq![ch]),
{
    match ch {
        '(' => Some(TokenKind::LParen),
        ')' => Some(TokenKind::RParen),
        '[' => Some(TokenKind::LBracket),
        ']' => Some(TokenKind::RBracket),
        '{' => Some(TokenKind::LBrace),
        '}' => Some(TokenKind::RBrace),
        '⟨' => Some(TokenKind::LAngle),
        '⟩' => Some(TokenKind::RAngle),
        ',' => Some(TokenKind::Comma),
        ';' => Some(TokenKind::Semicolon),
        ':' => Some(TokenKind::Colon),
        '.' => Some(TokenKind::Dot),
        '@' => Some(TokenKind::At),
        '?' => Some(TokenKind::Question),
        '!' => Some(TokenKind::Bang),
        '|' => Some(TokenKind::Pipe),
        '$' => Some(TokenKind::Dollar),
        '+' => Some(TokenKind::Plus),
        '-' => Some(TokenKind::Minus),
        '*' => Some(TokenKind::Star),
        '/' => Some(TokenKind::Slash),
        '%' => Some(TokenKind::Percent),
        '^' => Some(TokenKind::Caret),
        '&' => Some(TokenKind::Ampersand),
        '~' => Some(TokenKind::Tilde),
        '=' => Some(TokenKind::Eq),
        '<' => Some(TokenKind::Lt),
        '>' => Some(TokenKind::Gt),
        'λ' => Some(TokenKind::Lambda),
        '∃' => Some(TokenKind::Exists),
        '¬' => Some(TokenKind::Neg),
        '∧' => Some(TokenKind::Conj),
        '∨' => Some(TokenKind::Disj),
        '∈' => Some(TokenKind::Mem),
        '∘' => Some(TokenKind::Compose),
        '×' => Some(TokenKind::Times),
        '·' => Some(TokenKind::Cdot),
        '▸' => Some(TokenKind::Subst),
        '•' => Some(TokenKind::SMul),
        '∣' => Some(TokenKind::Dvd),
        '#' => Some(TokenKind::Hash),
        '_' => Some(TokenKind::Underscore),
        _ => None,
    }
}

fn is_dec_digit_exec(c: char) -> (b: bool)
    ensures
        b == is_dec_digit(c),
{
    '0' <= c && c <= '9'
}

} // verus!
