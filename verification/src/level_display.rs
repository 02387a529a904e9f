//! Rendering of universe levels (`max u v`, `succ u`, `?m`, numerals).
use vstd::prelude::*;

use crate::level::{depth, is_explicit, size, Level, LevelV};
use crate::name::name_text;
use crate::text::{chars_of, decimal, push_all, string_from_chars, u64_to_decimal};

verus! {

/// The text of a level.
pub open spec fn level_text(l: LevelV) -> Seq<char>
    decreases size(l), 1int,
{
    if is_explicit(l) {
        decimal(depth(l))
    } else {
        match l {
            LevelV::Param(n) => name_text(n),
            LevelV::MVar(n) => "?"@ + name_text(n),
            LevelV::Succ(a) => "succ "@ + child_text(*a),
            LevelV::Max(a, b) => "max "@ + child_text(*a) + " "@ + child_text(*b),
            LevelV::IMax(a, b) => "imax "@ + child_text(*a) + " "@ + child_text(*b),
            LevelV::Zero => Seq::empty(),
        }
    }
}

/// The text of an argument: atoms bare, anything else in parentheses.
pub open spec fn child_text(l: LevelV) -> Seq<char>
    decreases size(l), 2int,
{
    if is_explicit(l) || l is Param || l is MVar {
        level_text(l)
    } else {
        "("@ + level_text(l) + ")"@
    }
}

fn push_str(out: &mut Vec<char>, s: &str)
    ensures
        final(out)@ == old(out)@ + s@,
{
    let cs = chars_of(s);
    push_all(out, cs.as_slice());
}

fn write_level(l: &Level, out: &mut Vec<char>)
    ensures
        final(out)@ == old(out)@ + level_text(l@),
    decreases size(l@), 1int,
{
    if l.is_explicit() {
        let d = u64_to_decimal(l.depth() as u64);
        push_str(out, d.as_str());
        return;
    }
    if l.is_param() {
        let t = l.param_name().to_string();
        push_str(out, t.as_str());
    } else if l.is_mvar() {
        let t = l.mvar_name().to_string();
        push_str(out, "?");
        push_str(out, t.as_str());
        proof {
            assert(old(out)@ + "?"@ + t@ == old(out)@ + ("?"@ + t@));
        }
    } else if l.is_succ() {
        let a = l.succ_of();
        push_str(out, "succ ");
        write_child(a, out);
        proof {
            assert(old(out)@ + "succ "@ + child_text(a@) == old(out)@ + ("succ "@ + child_text(
                a@,
            )));
        }
    } else if l.is_max() {
        let a = l.max_lhs();
        let b = l.max_rhs();
        let ghost o = out@;
        push_str(out, "max ");
        write_child(a, out);
        push_str(out, " ");
        write_child(b, out);
        proof {
            assert(o + "max "@ + child_text(a@) + " "@ + child_text(b@) == o + ("max "@
                + child_text(a@) + " "@ + child_text(b@)));
        }
    } else if l.is_imax() {
        let a = l.imax_lhs();
        let b = l.imax_rhs();
        let ghost o = out@;
        push_str(out, "imax ");
        write_child(a, out);
        push_str(out, " ");
        write_child(b, out);
        proof {
            assert(o + "imax "@ + child_text(a@) + " "@ + child_text(b@) == o + ("imax "@
                + child_text(a@) + " "@ + child_text(b@)));
        }
    } else {
        proof {
            assert(l@ is Zero);
            assert(false);
        }
    }
}

fn write_child(l: &Level, out: &mut Vec<char>)
    ensures
        final(out)@ == old(out)@ + child_text(l@),
    decreases size(l@), 2int,
{
    if l.is_explicit() || l.is_param() || l.is_mvar() {
        write_level(l, out);
    } else {
        let ghost o = out@;
        push_str(out, "(");
        write_level(l, out);
        push_str(out, ")");
        proof {
            assert(o + "("@ + level_text(l@) + ")"@ == o + ("("@ + level_text(l@) + ")"@));
        }
    }
}

impl Level {
    /// The rendering of this level (what `Display` prints).
    pub fn to_string(&self) -> (r: String)
        ensures
            r@ == level_text(self@),
    {
        let mut out: Vec<char> = Vec::new();
        write_level(self, &mut out);
        proof {
            assert(Seq::<char>::empty() + level_text(self@) == level_text(self@));
        }
        string_from_chars(out.as_slice())
    }
}

} // verus!
