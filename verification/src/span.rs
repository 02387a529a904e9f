//! Byte spans in source text and the source information of syntax nodes.
use vstd::prelude::*;
use vstd::string::StringSliceAdditionalSpecFns;

verus! {

/// Byte offset in a source file.
pub type BytePos = u32;

/// A span of source text (byte offsets, end exclusive).
#[derive(Clone, Copy, Debug, PartialEq, Eq, Structural, Hash, Default)]
pub struct Span {
    /// Start byte offset (inclusive).
    pub start: BytePos,
    /// End byte offset (exclusive).
    pub end: BytePos,
}

/// The smaller of two offsets.
pub open spec fn min_pos(a: u32, b: u32) -> u32 {
    if a <= b {
        a
    } else {
        b
    }
}

/// The larger of two offsets.
pub open spec fn max_pos(a: u32, b: u32) -> u32 {
    if a >= b {
        a
    } else {
        b
    }
}

impl Span {
    pub fn new(start: BytePos, end: BytePos) -> (r: Self)
        ensures
            r == (Span { start, end }),
    {
        Span { start, end }
    }

    pub fn dummy() -> (r: Self)
        ensures
            r == (Span { start: 0, end: 0 }),
    {
        Span { start: 0, end: 0 }
    }

    /// Number of bytes covered.
    pub fn len(&self) -> (r: u32)
        requires
            self.start <= self.end,
        ensures
            r == self.end - self.start,
    {
        self.end - self.start
    }

    pub fn is_empty(&self) -> (r: bool)
        ensures
            r == (self.start == self.end),
    {
        self.start == self.end
    }

    /// The smallest span covering both.
    pub fn merge(self, other: Span) -> (r: Span)
        ensures
            r == merged(self, other),
    {
        Span {
            start: if self.start <= other.start {
                self.start
            } else {
                other.start
            },
            end: if self.end >= other.end {
                self.end
            } else {
                other.end
            },
        }
    }

    /// The source text of this span.
    pub fn text<'a>(&self, source: &'a str) -> (r: &'a str)
        requires
            self.start <= self.end <= source.spec_bytes().len(),
            vstd::utf8::is_char_boundary(source.spec_bytes(), self.start as int),
            vstd::utf8::is_char_boundary(source.spec_bytes(), self.end as int),
        ensures
            r.spec_bytes() == source.spec_bytes().subrange(self.start as int, self.end as int),
    {
        let ghost bytes = source.spec_bytes();
        let start = self.start as usize;
        let end = self.end as usize;
        proof {
            vstd::utf8::encode_utf8_valid_utf8(source@);
        }
        let (_, rest) = source.split_at(start);
        let ghost rb = bytes.subrange(start as int, bytes.len() as int);
        proof {
            assert(rest.spec_bytes() == rb);
            vstd::utf8::valid_utf8_split(bytes, start as int);
            if end < bytes.len() {
                vstd::utf8::is_char_boundary_iff_not_is_continuation_byte(bytes, end as int);
                vstd::utf8::is_char_boundary_iff_not_is_continuation_byte(rb, (end - start) as int);
                assert(rb[(end - start) as int] == bytes[end as int]);
            } else {
                vstd::utf8::is_char_boundary_start_end_of_seq(rb);
                assert(rb.len() == (end - start) as int);
            }
        }
        let (mid, _) = rest.split_at(end - start);
        proof {
            assert(rb.subrange(0, (end - start) as int) == bytes.subrange(start as int, end as int));
        }
        mid
    }
}

/// Source information for syntax nodes.
#[derive(Clone, Copy, Debug, PartialEq, Eq, Structural, Hash, Default)]
pub struct SourceInfo {
    /// The leading whitespace/comments before this token.
    pub leading: Span,
    /// The actual token span.
    pub span: Span,
    /// The trailing whitespace/comments after this token.
    pub trailing: Span,
}

/// The span that `merge` gives for `a` and `b`.
pub open spec fn merged(a: Span, b: Span) -> Span {
    Span { start: min_pos(a.start, b.start), end: max_pos(a.end, b.end) }
}

/// Merging spans is commutative, associative and idempotent, and the merged
/// span covers both operands.
pub proof fn law_merge(a: Span, b: Span, c: Span)
    ensures
        merged(a, b) == merged(b, a),
        merged(merged(a, b), c) == merged(a, merged(b, c)),
        merged(a, a) == a,
        merged(a, b).start <= a.start && a.end <= merged(a, b).end,
        merged(a, b).start <= b.start && b.end <= merged(a, b).end,
{
}

/// The span covering an item together with its non-empty leading and trailing trivia.
pub open spec fn spec_full_span(info: SourceInfo) -> Span {
    let start = if info.leading.start == info.leading.end {
        info.span.start
    } else {
        info.leading.start
    };
    let end = if info.trailing.start == info.trailing.end {
        info.span.end
    } else {
        info.trailing.end
    };
    Span { start, end }
}

impl SourceInfo {
    pub fn new(span: Span) -> (r: Self)
        ensures
            r == (SourceInfo {
                leading: Span { start: 0, end: 0 },
                span,
                trailing: Span { start: 0, end: 0 },
            }),
    {
        SourceInfo { leading: Span::dummy(), span, trailing: Span::dummy() }
    }

    pub fn with_leading(self, leading: Span) -> (r: Self)
        ensures
            r == (SourceInfo { leading, ..self }),
    {
        let mut s = self;
        s.leading = leading;
        s
    }

    pub fn with_trailing(self, trailing: Span) -> (r: Self)
        ensures
            r == (SourceInfo { trailing, ..self }),
    {
        let mut s = self;
        s.trailing = trailing;
        s
    }

    pub fn dummy() -> (r: Self)
        ensures
            r == (SourceInfo {
                leading: Span { start: 0, end: 0 },
                span: Span { start: 0, end: 0 },
                trailing: Span { start: 0, end: 0 },
            }),
    {
        SourceInfo { leading: Span::dummy(), span: Span::dummy(), trailing: Span::dummy() }
    }

    /// Full span including leading/trailing trivia.
    pub fn full_span(&self) -> (r: Span)
        ensures
            r == spec_full_span(*self),
    {
        if self.leading.is_empty() && self.trailing.is_empty() {
            self.span
        } else {
            let start = if self.leading.is_empty() {
                self.span.start
            } else {
                self.leading.start
            };
            let end = if self.trailing.is_empty() {
                self.span.end
            } else {
                self.trailing.end
            };
            Span::new(start, end)
        }
    }
}

} // verus!
