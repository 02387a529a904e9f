//! Laws of universe levels: the simplifications of the smart constructors,
//! parameter instantiation, the `>=` test and level equivalence.
use vstd::prelude::*;

use crate::level::{size, Level, has_mvar, has_param, is_not_zero, is_one, spec_imax, spec_max, LevelV};
use crate::level_norm::spec_normalize;
use crate::level_ops::{
    first_undef_param, geq_core, lemma_no_param_no_hits, occurs_in_level, replace_run,
    spec_instantiate, subst_hits, ReplaceTrace,
};
use crate::name::Limb;

verus! {

/// `max 0 u = u`.
pub proof fn law_max_zero_left(u: LevelV)
    ensures
        spec_max(LevelV::Zero, u) == u,
{
}

/// `max u 0 = u`.
pub proof fn law_max_zero_right(u: LevelV)
    ensures
        spec_max(u, LevelV::Zero) == u,
{
}

/// `max u u = u`.
pub proof fn law_max_idempotent(u: LevelV)
    ensures
        spec_max(u, u) == u,
{
}

/// `imax u 0 = 0`.
pub proof fn law_imax_zero_right(u: LevelV)
    ensures
        spec_imax(u, LevelV::Zero) == LevelV::Zero,
{
}

/// `imax 0 u = u`.
pub proof fn law_imax_zero_left(u: LevelV)
    ensures
        spec_imax(LevelV::Zero, u) == u,
{
}

/// `imax 1 u = u` for a level `u` that may be zero.
pub proof fn law_imax_one_left(u: LevelV)
    requires
        !is_not_zero(u),
    ensures
        spec_imax(LevelV::Succ(Box::new(LevelV::Zero)), u) == u,
{
}

/// `imax u u = u`.
pub proof fn law_imax_idempotent(u: LevelV)
    ensures
        spec_imax(u, u) == u,
{
}

proof fn lemma_empty_subst_no_hits(l: LevelV, ls: Seq<LevelV>)
    ensures
        !subst_hits(l, Seq::empty(), ls),
    decreases l,
{
    match l {
        LevelV::Succ(a) => lemma_empty_subst_no_hits(*a, ls),
        LevelV::Max(a, b) => {
            lemma_empty_subst_no_hits(*a, ls);
            lemma_empty_subst_no_hits(*b, ls);
        },
        LevelV::IMax(a, b) => {
            lemma_empty_subst_no_hits(*a, ls);
            lemma_empty_subst_no_hits(*b, ls);
        },
        _ => {},
    }
}

/// Instantiating a level that mentions no parameter leaves it unchanged.
pub proof fn law_instantiate_without_params(l: LevelV, ps: Seq<Seq<Limb>>, ls: Seq<LevelV>)
    requires
        !has_param(l),
    ensures
        spec_instantiate(l, ps, ls) == Some(l),
{
    lemma_no_param_no_hits(l, ps, ls);
}

/// Instantiating with no parameters leaves every level unchanged.
pub proof fn law_instantiate_empty(l: LevelV, ls: Seq<LevelV>)
    ensures
        spec_instantiate(l, Seq::empty(), ls) == Some(l),
{
    lemma_empty_subst_no_hits(l, ls);
}

/// A parameter instantiated by itself in first position gets its replacement.
pub proof fn law_instantiate_param(p: Seq<Limb>, ps: Seq<Seq<Limb>>, u: LevelV, ls: Seq<LevelV>)
    ensures
        spec_instantiate(LevelV::Param(p), seq![p] + ps, seq![u] + ls) == Some(u),
{
    assert((seq![p] + ps)[0] == p);
    assert((seq![u] + ls)[0] == u);
}

/// `u >= u`.
pub proof fn law_geq_reflexive(u: LevelV)
    ensures
        geq_core(u, u),
{
}

/// `u >= 0`.
pub proof fn law_geq_zero(u: LevelV)
    ensures
        geq_core(u, LevelV::Zero),
{
}

/// Level equivalence (equal, or equal normal forms) is reflexive, symmetric and
/// transitive.
pub proof fn law_equivalence_relation(a: LevelV, b: LevelV, c: LevelV)
    ensures
        a == a || spec_normalize(a) == spec_normalize(a),
        (a == b || spec_normalize(a) == spec_normalize(b)) ==> (b == a || spec_normalize(b)
            == spec_normalize(a)),
        (a == b || spec_normalize(a) == spec_normalize(b)) && (b == c || spec_normalize(b)
            == spec_normalize(c)) ==> (a == c || spec_normalize(a) == spec_normalize(c)),
{
}

/// Every level occurs in itself, and in every level built on it.
pub proof fn law_occurs(u: LevelV, v: LevelV)
    ensures
        occurs_in_level(u, u),
        occurs_in_level(u, LevelV::Succ(Box::new(u))),
        occurs_in_level(u, LevelV::Max(Box::new(u), Box::new(v))),
        occurs_in_level(u, LevelV::IMax(Box::new(v), Box::new(u))),
{
    assert(occurs_in_level(u, u));
}

/// The parameter reported as undefined is a parameter outside the given list.
pub proof fn law_undef_param_is_undefined(l: LevelV, lparams: Seq<Seq<Limb>>)
    ensures
        first_undef_param(l, lparams) matches Some(n) ==> !lparams.contains(n)
            && occurs_in_level(LevelV::Param(n), l),
        first_undef_param(l, lparams) is None ==> forall|n: Seq<Limb>|
            occurs_in_level(LevelV::Param(n), l) ==> lparams.contains(n),
    decreases l,
{
    match l {
        LevelV::Succ(a) => law_undef_param_is_undefined(*a, lparams),
        LevelV::Max(a, b) => {
            law_undef_param_is_undefined(*a, lparams);
            law_undef_param_is_undefined(*b, lparams);
        },
        LevelV::IMax(a, b) => {
            law_undef_param_is_undefined(*a, lparams);
            law_undef_param_is_undefined(*b, lparams);
        },
        _ => {},
    }
}

} // verus!

verus! {

/// Replacing with a function that never gives a level leaves the level as it
/// is, and reports no change.
pub proof fn law_replace_none_is_identity<F: Fn(&Level) -> Option<Level>>(
    f: F,
    l: Level,
    r: Level,
    changed: bool,
    t: ReplaceTrace,
)
    requires
        forall|a: &Level, o: Option<Level>| #[trigger] f.ensures((a,), o) ==> o is None,
        replace_run(f, l, r, changed, t),
    ensures
        r@ == l@,
        !changed,
    decreases t,
{
    l.lemma_children_view();
    match t {
        ReplaceTrace::Given => {
            assert(f.ensures((&l,), Some(r)));
        },
        ReplaceTrace::Leaf => {},
        ReplaceTrace::One(ta, na, ca) => {
            law_replace_none_is_identity(f, l.first_child(), na, ca, *ta);
        },
        ReplaceTrace::Two(ta, na, ca, tb, nb, cb) => {
            law_replace_none_is_identity(f, l.first_child(), na, ca, *ta);
            law_replace_none_is_identity(f, l.second_child(), nb, cb, *tb);
        },
    }
}

/// Replacing with a function that gives every level back unchanged leaves
/// the level as it is: the function answers at the root, and that answer is
/// the result.
pub proof fn law_replace_clone_is_identity<F: Fn(&Level) -> Option<Level>>(
    f: F,
    l: Level,
    r: Level,
    changed: bool,
    t: ReplaceTrace,
)
    requires
        forall|a: &Level, o: Option<Level>| #[trigger] f.ensures((a,), o) ==> (o matches Some(x)
            && x@ == a@),
        replace_run(f, l, r, changed, t),
    ensures
        r@ == l@,
        t is Given,
{
    match t {
        ReplaceTrace::Given => {
            assert(f.ensures((&l,), Some(r)));
        },
        ReplaceTrace::Leaf => {
            assert(f.ensures((&l,), None::<Level>));
        },
        ReplaceTrace::One(..) => {
            assert(f.ensures((&l,), None::<Level>));
        },
        ReplaceTrace::Two(..) => {
            assert(f.ensures((&l,), None::<Level>));
        },
    }
}

/// `s` is `l` itself or a level inside it.
pub open spec fn sub_level(l: LevelV, s: LevelV) -> bool
    decreases l,
{
    s == l || match l {
        LevelV::Succ(a) => sub_level(*a, s),
        LevelV::Max(a, b) => sub_level(*a, s) || sub_level(*b, s),
        LevelV::IMax(a, b) => sub_level(*a, s) || sub_level(*b, s),
        _ => false,
    }
}

/// A level has a parameter exactly when one of its sub-levels (itself
/// included) is a parameter.
pub proof fn law_has_param_iff_param_inside(l: LevelV)
    ensures
        has_param(l) <==> exists|s: LevelV| #[trigger] sub_level(l, s) && s is Param,
    decreases l,
{
    match l {
        LevelV::Succ(a) => {
            law_has_param_iff_param_inside(*a);
            if has_param(l) {
                let s = choose|s: LevelV| #[trigger] sub_level(*a, s) && s is Param;
                assert(sub_level(l, s));
            } else {
                assert forall|s: LevelV| #[trigger] sub_level(l, s) implies !(s is Param) by {
                    if s != l {
                        assert(sub_level(*a, s));
                    }
                }
            }
        },
        LevelV::Max(a, b) | LevelV::IMax(a, b) => {
            law_has_param_iff_param_inside(*a);
            law_has_param_iff_param_inside(*b);
            if has_param(*a) {
                let s = choose|s: LevelV| #[trigger] sub_level(*a, s) && s is Param;
                assert(sub_level(l, s));
            } else if has_param(*b) {
                let s = choose|s: LevelV| #[trigger] sub_level(*b, s) && s is Param;
                assert(sub_level(l, s));
            } else {
                assert forall|s: LevelV| #[trigger] sub_level(l, s) implies !(s is Param) by {
                    if s != l {
                        assert(sub_level(*a, s) || sub_level(*b, s));
                    }
                }
            }
        },
        LevelV::Param(_) => {
            assert(sub_level(l, l));
        },
        _ => {},
    }
}

/// A level has a metavariable exactly when one of its sub-levels (itself
/// included) is a metavariable.
pub proof fn law_has_mvar_iff_mvar_inside(l: LevelV)
    ensures
        has_mvar(l) <==> exists|s: LevelV| #[trigger] sub_level(l, s) && s is MVar,
    decreases l,
{
    match l {
        LevelV::Succ(a) => {
            law_has_mvar_iff_mvar_inside(*a);
            if has_mvar(l) {
                let s = choose|s: LevelV| #[trigger] sub_level(*a, s) && s is MVar;
                assert(sub_level(l, s));
            } else {
                assert forall|s: LevelV| #[trigger] sub_level(l, s) implies !(s is MVar) by {
                    if s != l {
                        assert(sub_level(*a, s));
                    }
                }
            }
        },
        LevelV::Max(a, b) | LevelV::IMax(a, b) => {
            law_has_mvar_iff_mvar_inside(*a);
            law_has_mvar_iff_mvar_inside(*b);
            if has_mvar(*a) {
                let s = choose|s: LevelV| #[trigger] sub_level(*a, s) && s is MVar;
                assert(sub_level(l, s));
            } else if has_mvar(*b) {
                let s = choose|s: LevelV| #[trigger] sub_level(*b, s) && s is MVar;
                assert(sub_level(l, s));
            } else {
                assert forall|s: LevelV| #[trigger] sub_level(l, s) implies !(s is MVar) by {
                    if s != l {
                        assert(sub_level(*a, s) || sub_level(*b, s));
                    }
                }
            }
        },
        LevelV::MVar(_) => {
            assert(sub_level(l, l));
        },
        _ => {},
    }
}

/// A maximum is at least whatever one of its arguments is at least: if
/// `a >= l` (when `left`) or `b >= l` (otherwise), then `max a b >= l`.
pub proof fn law_max_geq_of_argument(a: LevelV, b: LevelV, l: LevelV, left: bool)
    requires
        if left {
            geq_core(a, l)
        } else {
            geq_core(b, l)
        },
    ensures
        geq_core(LevelV::Max(Box::new(a), Box::new(b)), l),
    decreases size(l),
{
    let m = LevelV::Max(Box::new(a), Box::new(b));
    if m == l || l is Zero {
    } else if let LevelV::Max(c, d) = l {
        let x = if left {
            a
        } else {
            b
        };
        if x == l {
            law_max_geq_of_argument(*c, *d, *c, true);
            law_max_geq_of_argument(*c, *d, *d, false);
        }
        assert(geq_core(x, *c) && geq_core(x, *d));
        law_max_geq_of_argument(a, b, *c, left);
        law_max_geq_of_argument(a, b, *d, left);
    } else {
    }
}

/// A maximum is at least each of its arguments: `max a b >= a` and
/// `max a b >= b`.
pub proof fn law_max_geq_arguments(a: LevelV, b: LevelV)
    ensures
        geq_core(LevelV::Max(Box::new(a), Box::new(b)), a),
        geq_core(LevelV::Max(Box::new(a), Box::new(b)), b),
{
    law_max_geq_of_argument(a, b, a, true);
    law_max_geq_of_argument(a, b, b, false);
}

} // verus!
