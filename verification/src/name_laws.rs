//! Laws of hierarchical names: reading a name back from its dotted text,
//! concatenation and prefix replacement.
use vstd::prelude::*;

use crate::name::{dot_parts, dot_scan, dotted_limbs, limb_text, name_text, spec_replace_prefix, Limb};
use crate::text::join;

verus! {

/// `s` is a non-empty piece without dots.
pub open spec fn plain_piece(s: Seq<char>) -> bool {
    s.len() > 0 && !s.contains('.')
}

/// Every component of `v` is a string component that is a plain piece.
pub open spec fn plain_string_name(v: Seq<Limb>) -> bool {
    forall|i: int| 0 <= i < v.len() ==> (#[trigger] v[i] matches Limb::Str(s) && plain_piece(s))
}

proof fn lemma_dot_scan_no_dots(x: Seq<char>, y: Seq<char>)
    requires
        !y.contains('.'),
    ensures
        dot_scan(x + y) == (dot_scan(x).0, dot_scan(x).1 + y),
    decreases y.len(),
{
    if y.len() == 0 {
        assert(x + y == x);
        assert(dot_scan(x).1 + y == dot_scan(x).1);
    } else {
        let y1 = y.drop_last();
        assert(!y1.contains('.')) by {
            if y1.contains('.') {
                let k = choose|k: int| 0 <= k < y1.len() && y1[k] == '.';
                assert(y[k] == '.');
            }
        }
        assert(y.last() != '.') by {
            assert(y[y.len() - 1] == y.last());
        }
        lemma_dot_scan_no_dots(x, y1);
        assert((x + y).drop_last() == x + y1);
        assert((x + y).last() == y.last());
        assert(dot_scan(x).1 + y1 + seq![y.last()] == dot_scan(x).1 + y);
    }
}

proof fn lemma_dot_scan_join(parts: Seq<Seq<char>>)
    requires
        parts.len() >= 1,
        forall|i: int| 0 <= i < parts.len() ==> plain_piece(#[trigger] parts[i]),
    ensures
        dot_scan(join(parts, "."@)) == (parts.drop_last(), parts.last()),
    decreases parts.len(),
{
    reveal_strlit(".");
    if parts.len() == 1 {
        lemma_dot_scan_no_dots(Seq::empty(), parts[0]);
        assert(Seq::<char>::empty() + parts[0] == parts[0]);
        assert(parts.drop_last() == Seq::<Seq<char>>::empty());
    } else {
        let p1 = parts.drop_last();
        assert forall|i: int| 0 <= i < p1.len() implies plain_piece(#[trigger] p1[i]) by {
            assert(p1[i] == parts[i]);
        }
        lemma_dot_scan_join(p1);
        let j = join(p1, "."@);
        let jd = j + "."@;
        assert(jd.drop_last() == j);
        assert(jd.last() == '.');
        assert(p1.last() == parts[parts.len() - 2]);
        assert(dot_scan(jd) == (p1.drop_last().push(p1.last()), Seq::<char>::empty()));
        assert(p1.drop_last().push(p1.last()) == p1);
        assert(plain_piece(parts[parts.len() - 1]));
        lemma_dot_scan_no_dots(jd, parts.last());
        assert(Seq::<char>::empty() + parts.last() == parts.last());
    }
}

/// Reading back the dotted text of a non-empty name made of string components
/// without dots gives the name again.
pub proof fn law_dotted_text_roundtrip(v: Seq<Limb>)
    requires
        v.len() > 0,
        plain_string_name(v),
    ensures
        dotted_limbs(name_text(v)) == v,
{
    let parts = v.map_values(|l: Limb| limb_text(l));
    assert forall|i: int| 0 <= i < parts.len() implies plain_piece(#[trigger] parts[i]) by {
        assert(v[i] matches Limb::Str(s) && plain_piece(s));
    }
    lemma_dot_scan_join(parts);
    assert(parts.drop_last().push(parts.last()) == parts);
    assert(dot_parts(name_text(v)) == parts);
    assert forall|i: int| 0 <= i < v.len() implies #[trigger] dotted_limbs(name_text(v))[i]
        == v[i] by {
        assert(v[i] matches Limb::Str(s) && plain_piece(s));
    }
}

/// Parsing dotted text whose pieces are non-empty and free of dots gives one
/// string component per piece, in order, and the text of that name is the
/// text parsed.
pub proof fn law_parse_dotted_text(parts: Seq<Seq<char>>)
    requires
        parts.len() >= 1,
        forall|i: int| 0 <= i < parts.len() ==> plain_piece(#[trigger] parts[i]),
    ensures
        dotted_limbs(join(parts, "."@)) == parts.map_values(|p: Seq<char>| Limb::Str(p)),
        dotted_limbs(join(parts, "."@)).len() == parts.len(),
        name_text(dotted_limbs(join(parts, "."@))) == join(parts, "."@),
{
    lemma_dot_scan_join(parts);
    assert(parts.last().len() > 0) by {
        assert(plain_piece(parts[parts.len() - 1]));
    }
    assert(parts.drop_last().push(parts.last()) == parts);
    assert(dot_parts(join(parts, "."@)) == parts);
    let v = parts.map_values(|p: Seq<char>| Limb::Str(p));
    assert(v.map_values(|l: Limb| limb_text(l)) == parts);
}

/// Concatenation of names is associative and has the anonymous name as unit,
/// and a name is a prefix of every name it is concatenated with.
pub proof fn law_append(a: Seq<Limb>, b: Seq<Limb>, c: Seq<Limb>)
    ensures
        (a + b) + c == a + (b + c),
        a + Seq::<Limb>::empty() == a,
        Seq::<Limb>::empty() + a == a,
        a.is_prefix_of(a + b),
{
    assert(a + Seq::<Limb>::empty() == a);
    assert(Seq::<Limb>::empty() + a == a);
    assert((a + b) + c == a + (b + c));
    assert((a + b).subrange(0, a.len() as int) == a);
}

/// Replacing a prefix of `p + r` by `q` gives `q + r`; a name without that
/// prefix is left unchanged.
pub proof fn law_replace_prefix(p: Seq<Limb>, q: Seq<Limb>, r: Seq<Limb>, v: Seq<Limb>)
    ensures
        spec_replace_prefix(p + r, p, q) == q + r,
        !p.is_prefix_of(v) ==> spec_replace_prefix(v, p, q) == v,
{
    assert((p + r).subrange(0, p.len() as int) == p);
    assert((p + r).skip(p.len() as int) == r);
}

} // verus!
