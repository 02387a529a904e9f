//! The textual rendering of expressions.
use vstd::prelude::*;

use crate::expr::{erange, esize, Expr, ExprKind, ExprV};
use crate::expr_subst::{has_lbv_ok, has_loose_bvar_spec};
use crate::level::{is_one, Level, LevelV};
use crate::level_display::level_text;
use crate::literal::literal_text;
use crate::name::name_text;
use crate::olean_error::{push_number, push_text};
use crate::text::{chars_of, decimal, join, push_all};

verus! {

/// The text `Display` gives an expression.
pub open spec fn expr_text(e: ExprV) -> Seq<char>
    decreases e,
{
    match e {
        ExprV::BVar(i) => seq!['#'] + decimal(i as nat),
        ExprV::FVar(n) => name_text(n),
        ExprV::MVar(n) => seq!['?'] + name_text(n),
        ExprV::Sort(l) => if l is Zero {
            "Prop"@
        } else if is_one(l) {
            "Type"@
        } else {
            "Sort "@ + level_text(l)
        },
        ExprV::Const(n, ls) => if ls.len() == 0 {
            name_text(n)
        } else {
            name_text(n) + ".{"@ + join(ls.map_values(|l: LevelV| level_text(l)), ", "@) + "}"@
        },
        ExprV::App(f, a) => "("@ + expr_text(*f) + " "@ + expr_text(*a) + ")"@,
        ExprV::Lam(n, d, b, _) => "(fun "@ + name_text(n) + " : "@ + expr_text(*d) + " => "@
            + expr_text(*b) + ")"@,
        ExprV::ForallE(n, d, b, _) => if n.len() == 0 && !has_loose_bvar_spec(*b, 0) {
            "("@ + expr_text(*d) + " → "@ + expr_text(*b) + ")"@
        } else {
            "(∀ "@ + name_text(n) + " : "@ + expr_text(*d) + ", "@ + expr_text(*b) + ")"@
        },
        ExprV::LetE(n, t, v, b, _) => "(let "@ + name_text(n) + " : "@ + expr_text(*t) + " := "@
            + expr_text(*v) + " in "@ + expr_text(*b) + ")"@,
        ExprV::Lit(l) => literal_text(l),
        ExprV::MData(_, x) => expr_text(*x),
        ExprV::Proj(s, i, x) => name_text(s) + "."@ + decimal(i as nat) + " "@ + expr_text(*x),
    }
}

/// The occurrence checks that rendering makes stay within machine integers.
pub open spec fn display_ok(e: ExprV) -> bool
    decreases e,
{
    match e {
        ExprV::App(f, a) => display_ok(*f) && display_ok(*a),
        ExprV::Lam(_, d, b, _) => display_ok(*d) && display_ok(*b),
        ExprV::ForallE(n, d, b, _) => (n.len() == 0 && erange(*b) > 0 ==> has_lbv_ok(*b, 0, 0))
            && display_ok(*d) && display_ok(*b),
        ExprV::LetE(_, t, v, b, _) => display_ok(*t) && display_ok(*v) && display_ok(*b),
        ExprV::MData(_, x) => display_ok(*x),
        ExprV::Proj(_, _, x) => display_ok(*x),
        _ => true,
    }
}

fn push_string(out: &mut Vec<char>, s: &String)
    ensures
        final(out)@ == old(out)@ + s@,
{
    let cs = chars_of(s.as_str());
    push_all(out, cs.as_slice());
}

/// The levels of a constant, separated by `", "`.
fn write_levels(out: &mut Vec<char>, ls: &[Level])
    ensures
        final(out)@ == old(out)@ + join(
            crate::expr::levels_view(ls@).map_values(|l: LevelV| level_text(l)),
            ", "@,
        ),
{
    let ghost texts = crate::expr::levels_view(ls@).map_values(|l: LevelV| level_text(l));
    let ghost start = out@;
    let mut i: usize = 0;
    while i < ls.len()
        invariant
            i <= ls@.len(),
            texts == crate::expr::levels_view(ls@).map_values(|l: LevelV| level_text(l)),
            out@ == start + join(texts.take(i as int), ", "@),
        decreases ls@.len() - i,
    {
        if i > 0 {
            push_text(out, ", ");
        }
        let t = ls[i].to_string();
        push_string(out, &t);
        proof {
            assert(texts.take(i + 1).drop_last() == texts.take(i as int));
            assert(texts.take(i + 1).last() == level_text(ls@[i as int]@));
            if i == 0 {
                assert(texts.take(1) == seq![texts[0]]);
            }
        }
        i = i + 1;
    }
    proof {
        assert(texts.take(ls@.len() as int) == texts);
    }
}

fn write_expr(e: &Expr, out: &mut Vec<char>)
    requires
        display_ok(e@),
    ensures
        final(out)@ == old(out)@ + expr_text(e@),
    decreases esize(e@),
{
    let ghost start = out@;
    match e.kind() {
        ExprKind::BVar(i) => {
            out.push('#');
            push_number(out, *i);
        },
        ExprKind::FVar(n) => {
            push_string(out, &n.to_string());
        },
        ExprKind::MVar(n) => {
            out.push('?');
            push_string(out, &n.to_string());
        },
        ExprKind::Sort(l) => {
            if l.is_zero() {
                push_text(out, "Prop");
            } else if l.is_one() {
                push_text(out, "Type");
            } else {
                push_text(out, "Sort ");
                push_string(out, &l.to_string());
            }
        },
        ExprKind::Const(n, ls) => {
            push_string(out, &n.to_string());
            if ls.len() > 0 {
                push_text(out, ".{");
                write_levels(out, ls.as_slice());
                push_text(out, "}");
            }
        },
        ExprKind::App(f, a) => {
            push_text(out, "(");
            write_expr(f, out);
            push_text(out, " ");
            write_expr(a, out);
            push_text(out, ")");
        },
        ExprKind::Lam(n, d, b, _) => {
            push_text(out, "(fun ");
            push_string(out, &n.to_string());
            push_text(out, " : ");
            write_expr(d, out);
            push_text(out, " => ");
            write_expr(b, out);
            push_text(out, ")");
        },
        ExprKind::ForallE(n, d, b, _) => {
            if n.is_anonymous() && !b.has_loose_bvar(0) {
                push_text(out, "(");
                write_expr(d, out);
                push_text(out, " → ");
                write_expr(b, out);
                push_text(out, ")");
            } else {
                push_text(out, "(∀ ");
                push_string(out, &n.to_string());
                push_text(out, " : ");
                write_expr(d, out);
                push_text(out, ", ");
                write_expr(b, out);
                push_text(out, ")");
            }
        },
        ExprKind::LetE(n, t, v, b, _) => {
            push_text(out, "(let ");
            push_string(out, &n.to_string());
            push_text(out, " : ");
            write_expr(t, out);
            push_text(out, " := ");
            write_expr(v, out);
            push_text(out, " in ");
            write_expr(b, out);
            push_text(out, ")");
        },
        ExprKind::Lit(l) => {
            push_string(out, &l.to_string());
        },
        ExprKind::MData(_, x) => {
            write_expr(x, out);
        },
        ExprKind::Proj(s, i, x) => {
            push_string(out, &s.to_string());
            push_text(out, ".");
            push_number(out, *i);
            push_text(out, " ");
            write_expr(x, out);
        },
    }
    proof {
        assert(out@ =~= start + expr_text(e@));
    }
}

impl Expr {
    /// The text `Display` gives the expression.
    pub fn to_string(&self) -> (r: String)
        requires
            display_ok(self@),
        ensures
            r@ == expr_text(self@),
    {
        let mut out: Vec<char> = Vec::new();
        write_expr(self, &mut out);
        crate::text::string_from_chars(out.as_slice())
    }
}

} // verus!
