//! Laws of expressions: equality is an equivalence, lowering undoes lifting,
//! instantiation leaves closed expressions alone and undoes abstraction.
use vstd::prelude::*;

use crate::expr::{erange, esize, ExprV};
use crate::expr_eq::{
    abstract_core_ok, abstract_core_spec, abstract_spec, expr_eq, first_equal_from,
    lemma_expr_eq_refl,
};
use crate::expr_subst::{
    head_beta_spec, inst_core_spec, inst_spec, lift_core_ok, lift_core_spec, lift_ok, lift_spec,
    lower_core_ok, lower_core_spec, lower_ok, lower_spec,
};

verus! {

/// Every bound variable index of `e` (loose or not) is below `m`.
pub open spec fn bvars_below(e: ExprV, m: int) -> bool
    decreases e,
{
    match e {
        ExprV::BVar(i) => i < m,
        ExprV::App(f, a) => bvars_below(*f, m) && bvars_below(*a, m),
        ExprV::Lam(_, t, b, _) => bvars_below(*t, m) && bvars_below(*b, m),
        ExprV::ForallE(_, t, b, _) => bvars_below(*t, m) && bvars_below(*b, m),
        ExprV::LetE(_, t, v, b, _) => bvars_below(*t, m) && bvars_below(*v, m) && bvars_below(
            *b,
            m,
        ),
        ExprV::MData(_, x) => bvars_below(*x, m),
        ExprV::Proj(_, _, x) => bvars_below(*x, m),
        _ => true,
    }
}

/// One more than the largest loose bound variable index, without truncation.
pub open spec fn loose_max(e: ExprV) -> nat
    decreases e,
{
    match e {
        ExprV::BVar(i) => i as nat + 1,
        ExprV::App(f, a) => nat_max(loose_max(*f), loose_max(*a)),
        ExprV::Lam(_, t, b, _) => nat_max(loose_max(*t), nat_pred(loose_max(*b))),
        ExprV::ForallE(_, t, b, _) => nat_max(loose_max(*t), nat_pred(loose_max(*b))),
        ExprV::LetE(_, t, v, b, _) => nat_max(
            nat_max(loose_max(*t), loose_max(*v)),
            nat_pred(loose_max(*b)),
        ),
        ExprV::MData(_, x) => loose_max(*x),
        ExprV::Proj(_, _, x) => loose_max(*x),
        _ => 0,
    }
}

/// The larger of two naturals.
pub open spec fn nat_max(a: nat, b: nat) -> nat {
    if a >= b {
        a
    } else {
        b
    }
}

/// `n - 1`, stopping at 0.
pub open spec fn nat_pred(n: nat) -> nat {
    if n > 0 {
        (n - 1) as nat
    } else {
        0
    }
}

/// With all indices below `2^32 - 1` the cached range is exact.
proof fn lemma_range_exact(e: ExprV)
    requires
        bvars_below(e, 0xffff_ffff),
    ensures
        erange(e) == loose_max(e),
    decreases e,
{
    match e {
        ExprV::BVar(i) => {
            assert((i as u32) == i);
        },
        ExprV::App(f, a) => {
            lemma_range_exact(*f);
            lemma_range_exact(*a);
        },
        ExprV::Lam(_, t, b, _) => {
            lemma_range_exact(*t);
            lemma_range_exact(*b);
        },
        ExprV::ForallE(_, t, b, _) => {
            lemma_range_exact(*t);
            lemma_range_exact(*b);
        },
        ExprV::LetE(_, t, v, b, _) => {
            lemma_range_exact(*t);
            lemma_range_exact(*v);
            lemma_range_exact(*b);
        },
        ExprV::MData(_, x) => lemma_range_exact(*x),
        ExprV::Proj(_, _, x) => lemma_range_exact(*x),
        _ => {},
    }
}

/// Lifting never lowers the largest loose index and keeps indices below `m + d`.
proof fn lemma_lift_grows(e: ExprV, s: u64, d: u64, off: u64, m: int)
    requires
        lift_core_ok(e, s, d, off),
        bvars_below(e, m),
    ensures
        loose_max(lift_core_spec(e, s, d, off)) >= loose_max(e),
        bvars_below(lift_core_spec(e, s, d, off), m + d),
    decreases e,
{
    if erange(e) != 0 {
        match e {
            ExprV::App(f, a) => {
                lemma_lift_grows(*f, s, d, off, m);
                lemma_lift_grows(*a, s, d, off, m);
            },
            ExprV::Lam(_, t, b, _) => {
                lemma_lift_grows(*t, s, d, off, m);
                lemma_lift_grows(*b, s, d, (off + 1) as u64, m);
            },
            ExprV::ForallE(_, t, b, _) => {
                lemma_lift_grows(*t, s, d, off, m);
                lemma_lift_grows(*b, s, d, (off + 1) as u64, m);
            },
            ExprV::LetE(_, t, v, b, _) => {
                lemma_lift_grows(*t, s, d, off, m);
                lemma_lift_grows(*v, s, d, off, m);
                lemma_lift_grows(*b, s, d, (off + 1) as u64, m);
            },
            ExprV::MData(_, x) => lemma_lift_grows(*x, s, d, off, m),
            ExprV::Proj(_, _, x) => lemma_lift_grows(*x, s, d, off, m),
            _ => {},
        }
    } else {
        lemma_bvars_below_mono(e, m, m + d);
    }
}

proof fn lemma_bvars_below_mono(e: ExprV, m: int, m2: int)
    requires
        bvars_below(e, m),
        m <= m2,
    ensures
        bvars_below(e, m2),
    decreases e,
{
    match e {
        ExprV::App(f, a) => {
            lemma_bvars_below_mono(*f, m, m2);
            lemma_bvars_below_mono(*a, m, m2);
        },
        ExprV::Lam(_, t, b, _) => {
            lemma_bvars_below_mono(*t, m, m2);
            lemma_bvars_below_mono(*b, m, m2);
        },
        ExprV::ForallE(_, t, b, _) => {
            lemma_bvars_below_mono(*t, m, m2);
            lemma_bvars_below_mono(*b, m, m2);
        },
        ExprV::LetE(_, t, v, b, _) => {
            lemma_bvars_below_mono(*t, m, m2);
            lemma_bvars_below_mono(*v, m, m2);
            lemma_bvars_below_mono(*b, m, m2);
        },
        ExprV::MData(_, x) => lemma_bvars_below_mono(*x, m, m2),
        ExprV::Proj(_, _, x) => lemma_bvars_below_mono(*x, m, m2),
        _ => {},
    }
}

/// A lifted expression with a loose bound variable still has one, so lowering
/// descends into it.
proof fn lemma_lifted_range(e: ExprV, s: u64, d: u64, off: u64)
    requires
        lift_core_ok(e, s, d, off),
        bvars_below(e, 0xffff_ffff - d),
        erange(e) != 0,
    ensures
        erange(lift_core_spec(e, s, d, off)) != 0,
        bvars_below(lift_core_spec(e, s, d, off), 0xffff_ffff),
{
    lemma_bvars_below_mono(e, 0xffff_ffff - d, 0xffff_ffff);
    lemma_range_exact(e);
    lemma_lift_grows(e, s, d, off, 0xffff_ffff - d);
    lemma_range_exact(lift_core_spec(e, s, d, off));
}

proof fn lemma_lower_lift_core(e: ExprV, s: u64, d: u64, off: u64)
    requires
        lift_core_ok(e, s, d, off),
        bvars_below(e, 0xffff_ffff - d),
    ensures
        lower_core_ok(lift_core_spec(e, s, d, off), s, d, off),
        lower_core_spec(lift_core_spec(e, s, d, off), s, d, off) == e,
    decreases e,
{
    if erange(e) != 0 {
        lemma_lifted_range(e, s, d, off);
        match e {
            ExprV::App(f, a) => {
                lemma_lower_lift_core(*f, s, d, off);
                lemma_lower_lift_core(*a, s, d, off);
            },
            ExprV::Lam(_, t, b, _) => {
                lemma_lower_lift_core(*t, s, d, off);
                lemma_lower_lift_core(*b, s, d, (off + 1) as u64);
            },
            ExprV::ForallE(_, t, b, _) => {
                lemma_lower_lift_core(*t, s, d, off);
                lemma_lower_lift_core(*b, s, d, (off + 1) as u64);
            },
            ExprV::LetE(_, t, v, b, _) => {
                lemma_lower_lift_core(*t, s, d, off);
                lemma_lower_lift_core(*v, s, d, off);
                lemma_lower_lift_core(*b, s, d, (off + 1) as u64);
            },
            ExprV::MData(_, x) => lemma_lower_lift_core(*x, s, d, off),
            ExprV::Proj(_, _, x) => lemma_lower_lift_core(*x, s, d, off),
            _ => {},
        }
    }
}

/// Lowering by `d` undoes lifting by `d` (for expressions whose lifted bound
/// variable indices stay below `2^32 - 1`).
pub proof fn law_lower_lift(e: ExprV, s: u32, d: u32)
    requires
        lift_ok(e, s, d),
        bvars_below(e, 0xffff_ffff - d),
    ensures
        lower_ok(lift_spec(e, s, d), s, d),
        lower_spec(lift_spec(e, s, d), s, d) == e,
{
    if d != 0 && erange(e) != 0 {
        lemma_lifted_range(e, s as u64, d as u64, 0);
        lemma_lower_lift_core(e, s as u64, d as u64, 0);
    }
}

/// Lifting or lowering by 0, or an expression without loose bound variables,
/// changes nothing.
pub proof fn law_shift_identity(e: ExprV, s: u32, d: u32)
    ensures
        lift_spec(e, s, 0) == e,
        lower_spec(e, s, 0) == e,
        erange(e) == 0 ==> lift_spec(e, s, d) == e && lower_spec(e, s, d) == e,
{
}

/// Instantiation with nothing, or of an expression without loose bound
/// variables, changes nothing; `BVar(0)` instantiated with `x` is `x`.
pub proof fn law_instantiate_identity(e: ExprV, subst: Seq<ExprV>, x: ExprV)
    ensures
        inst_spec(e, Seq::empty()) == e,
        erange(e) == 0 ==> inst_spec(e, subst) == e,
        inst_spec(ExprV::BVar(0), seq![x]) == x,
{
}

/// Head beta reduction of `(fun x => b) a` is `b` instantiated with `a`.
pub proof fn law_head_beta(n: Seq<crate::name::Limb>, t: ExprV, b: ExprV, bi: crate::expr::BinderInfo, a: ExprV)
    ensures
        head_beta_spec(
            ExprV::App(Box::new(ExprV::Lam(n, Box::new(t), Box::new(b), bi)), Box::new(a)),
        ) == inst_spec(b, seq![a]),
{
}

proof fn lemma_expr_eq_sym(a: ExprV, b: ExprV)
    requires
        expr_eq(a, b),
    ensures
        expr_eq(b, a),
    decreases a,
{
    match (a, b) {
        (ExprV::App(f1, a1), ExprV::App(f2, a2)) => {
            lemma_expr_eq_sym(*f1, *f2);
            lemma_expr_eq_sym(*a1, *a2);
        },
        (ExprV::Lam(_, d1, b1, _), ExprV::Lam(_, d2, b2, _)) => {
            lemma_expr_eq_sym(*d1, *d2);
            lemma_expr_eq_sym(*b1, *b2);
        },
        (ExprV::ForallE(_, d1, b1, _), ExprV::ForallE(_, d2, b2, _)) => {
            lemma_expr_eq_sym(*d1, *d2);
            lemma_expr_eq_sym(*b1, *b2);
        },
        (ExprV::LetE(_, t1, v1, b1, _), ExprV::LetE(_, t2, v2, b2, _)) => {
            lemma_expr_eq_sym(*t1, *t2);
            lemma_expr_eq_sym(*v1, *v2);
            lemma_expr_eq_sym(*b1, *b2);
        },
        (ExprV::MData(_, e1), ExprV::MData(_, e2)) => lemma_expr_eq_sym(*e1, *e2),
        (ExprV::Proj(_, _, e1), ExprV::Proj(_, _, e2)) => lemma_expr_eq_sym(*e1, *e2),
        _ => {},
    }
}

proof fn lemma_expr_eq_trans(a: ExprV, b: ExprV, c: ExprV)
    requires
        expr_eq(a, b),
        expr_eq(b, c),
    ensures
        expr_eq(a, c),
    decreases a,
{
    match (a, b, c) {
        (ExprV::App(f1, a1), ExprV::App(f2, a2), ExprV::App(f3, a3)) => {
            lemma_expr_eq_trans(*f1, *f2, *f3);
            lemma_expr_eq_trans(*a1, *a2, *a3);
        },
        (ExprV::Lam(_, d1, b1, _), ExprV::Lam(_, d2, b2, _), ExprV::Lam(_, d3, b3, _)) => {
            lemma_expr_eq_trans(*d1, *d2, *d3);
            lemma_expr_eq_trans(*b1, *b2, *b3);
        },
        (
            ExprV::ForallE(_, d1, b1, _),
            ExprV::ForallE(_, d2, b2, _),
            ExprV::ForallE(_, d3, b3, _),
        ) => {
            lemma_expr_eq_trans(*d1, *d2, *d3);
            lemma_expr_eq_trans(*b1, *b2, *b3);
        },
        (
            ExprV::LetE(_, t1, v1, b1, _),
            ExprV::LetE(_, t2, v2, b2, _),
            ExprV::LetE(_, t3, v3, b3, _),
        ) => {
            lemma_expr_eq_trans(*t1, *t2, *t3);
            lemma_expr_eq_trans(*v1, *v2, *v3);
            lemma_expr_eq_trans(*b1, *b2, *b3);
        },
        (ExprV::MData(_, e1), ExprV::MData(_, e2), ExprV::MData(_, e3)) => lemma_expr_eq_trans(
            *e1,
            *e2,
            *e3,
        ),
        (ExprV::Proj(_, _, e1), ExprV::Proj(_, _, e2), ExprV::Proj(_, _, e3)) => lemma_expr_eq_trans(
            *e1,
            *e2,
            *e3,
        ),
        _ => {},
    }
}

/// Equality of expressions is reflexive, symmetric and transitive, and equal
/// expressions have equal hashes.
pub proof fn law_expr_eq_equivalence(a: ExprV, b: ExprV, c: ExprV)
    ensures
        expr_eq(a, a),
        expr_eq(a, b) ==> expr_eq(b, a),
        expr_eq(a, b) && expr_eq(b, c) ==> expr_eq(a, c),
        expr_eq(a, b) ==> crate::expr::ehash(a) == crate::expr::ehash(b),
{
    lemma_expr_eq_refl(a);
    if expr_eq(a, b) {
        lemma_expr_eq_sym(a, b);
        if expr_eq(b, c) {
            lemma_expr_eq_trans(a, b, c);
        }
    }
}

proof fn lemma_first_equal_from(e: ExprV, s: Seq<ExprV>, k: int, i: int)
    requires
        first_equal_from(e, s, k) == Some(i),
    ensures
        0 <= i < s.len(),
        expr_eq(e, s[i]),
    decreases s.len() - k,
{
    if 0 <= k < s.len() && !expr_eq(e, s[k]) {
        lemma_first_equal_from(e, s, k + 1, i);
    }
}

/// Abstraction below `off` binders stays within machine integers, keeps
/// indices below `2^32 - 1`, and where it changes anything it leaves a loose
/// bound variable at or above `off`.
proof fn lemma_abstract_range(e: ExprV, s: Seq<ExprV>, off: u64)
    requires
        off + esize(e) + s.len() < 0xffff_ffff,
        bvars_below(e, 0xffff_ffff),
    ensures
        abstract_core_ok(e, s, off),
        bvars_below(abstract_core_spec(e, s, off), 0xffff_ffff),
        abstract_core_spec(e, s, off) != e ==> loose_max(abstract_core_spec(e, s, off)) > off,
    decreases e,
{
    match first_equal_from(e, s, 0) {
        Some(i) => {
            lemma_first_equal_from(e, s, 0, i);
        },
        None => match e {
            ExprV::App(f, a) => {
                lemma_abstract_range(*f, s, off);
                lemma_abstract_range(*a, s, off);
            },
            ExprV::Lam(_, d, b, _) => {
                lemma_abstract_range(*d, s, off);
                lemma_abstract_range(*b, s, (off + 1) as u64);
            },
            ExprV::ForallE(_, d, b, _) => {
                lemma_abstract_range(*d, s, off);
                lemma_abstract_range(*b, s, (off + 1) as u64);
            },
            ExprV::LetE(_, t, v, b, _) => {
                lemma_abstract_range(*t, s, off);
                lemma_abstract_range(*v, s, off);
                lemma_abstract_range(*b, s, (off + 1) as u64);
            },
            ExprV::MData(_, x) => lemma_abstract_range(*x, s, off),
            ExprV::Proj(_, _, x) => lemma_abstract_range(*x, s, off),
            _ => {},
        },
    }
}

proof fn lemma_instantiate_abstract_core(e: ExprV, s: Seq<ExprV>, off: u64)
    requires
        off + esize(e) + s.len() < 0xffff_ffff,
        bvars_below(e, 0xffff_ffff),
        loose_max(e) <= off,
        forall|i: int| 0 <= i < s.len() ==> erange(#[trigger] s[i]) == 0,
    ensures
        expr_eq(inst_core_spec(abstract_core_spec(e, s, off), s, off), e),
    decreases e,
{
    let x = abstract_core_spec(e, s, off);
    lemma_abstract_range(e, s, off);
    lemma_range_exact(x);
    if erange(x) == 0 {
        lemma_expr_eq_refl(e);
        return;
    }
    match first_equal_from(e, s, 0) {
        Some(i) => {
            lemma_first_equal_from(e, s, 0, i);
            lemma_expr_eq_sym(e, s[i]);
        },
        None => match e {
            ExprV::App(f, a) => {
                lemma_instantiate_abstract_core(*f, s, off);
                lemma_instantiate_abstract_core(*a, s, off);
            },
            ExprV::Lam(_, d, b, _) => {
                lemma_instantiate_abstract_core(*d, s, off);
                lemma_instantiate_abstract_core(*b, s, (off + 1) as u64);
            },
            ExprV::ForallE(_, d, b, _) => {
                lemma_instantiate_abstract_core(*d, s, off);
                lemma_instantiate_abstract_core(*b, s, (off + 1) as u64);
            },
            ExprV::LetE(_, t, v, b, _) => {
                lemma_instantiate_abstract_core(*t, s, off);
                lemma_instantiate_abstract_core(*v, s, off);
                lemma_instantiate_abstract_core(*b, s, (off + 1) as u64);
            },
            ExprV::MData(_, y) => lemma_instantiate_abstract_core(*y, s, off),
            ExprV::Proj(_, _, y) => lemma_instantiate_abstract_core(*y, s, off),
            _ => lemma_expr_eq_refl(e),
        },
    }
}

/// Instantiating with `s` undoes abstracting over `s`: for a closed `e` and
/// closed `s[i]`, `instantiate(abstract_(e, s), s)` equals `e` (for indices
/// that stay below `2^32 - 1`).
pub proof fn law_instantiate_abstract(e: ExprV, s: Seq<ExprV>)
    requires
        erange(e) == 0,
        forall|i: int| 0 <= i < s.len() ==> erange(#[trigger] s[i]) == 0,
        bvars_below(e, 0xffff_ffff),
        esize(e) + s.len() < 0xffff_ffff,
    ensures
        s.len() > 0 ==> abstract_core_ok(e, s, 0),
        expr_eq(inst_spec(abstract_spec(e, s), s), e),
{
    lemma_range_exact(e);
    if s.len() == 0 {
        lemma_expr_eq_refl(e);
    } else {
        lemma_abstract_range(e, s, 0);
        lemma_instantiate_abstract_core(e, s, 0);
    }
}

} // verus!
