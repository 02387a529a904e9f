//! Traversals of universe levels: parameter instantiation, replacement,
//! occurrence checks, and the `>=` test on normalized levels.
use vstd::prelude::*;

use crate::level::{
    base, depth, depth_limit, has_param, imax_ok, levels_equal, max_ok, offset, size, spec_imax,
    spec_max, Level, LevelV,
};
use crate::name::{names_equal, Limb, Name};

verus! {

/// The replacement of the first `ps[i] == n` (among the first `min(|ps|, |ls|)` pairs).
pub open spec fn lookup_param(n: Seq<Limb>, ps: Seq<Seq<Limb>>, ls: Seq<LevelV>) -> Option<
    LevelV,
>
    decreases ps.len(),
{
    if ps.len() == 0 || ls.len() == 0 {
        None
    } else if ps[0] == n {
        Some(ls[0])
    } else {
        lookup_param(n, ps.drop_first(), ls.drop_first())
    }
}

/// Some parameter of `l` has a replacement.
pub open spec fn subst_hits(l: LevelV, ps: Seq<Seq<Limb>>, ls: Seq<LevelV>) -> bool
    decreases l,
{
    match l {
        LevelV::Param(n) => lookup_param(n, ps, ls) is Some,
        LevelV::Succ(a) => subst_hits(*a, ps, ls),
        LevelV::Max(a, b) => subst_hits(*a, ps, ls) || subst_hits(*b, ps, ls),
        LevelV::IMax(a, b) => subst_hits(*a, ps, ls) || subst_hits(*b, ps, ls),
        _ => false,
    }
}

/// Instantiation of the parameters `ps` by `ls`; untouched subterms are kept as
/// they are and rebuilt ones go through the smart constructors. `None` when a
/// rebuilt level would exceed the depth limit.
pub open spec fn spec_instantiate(l: LevelV, ps: Seq<Seq<Limb>>, ls: Seq<LevelV>) -> Option<LevelV>
    decreases l,
{
    if !subst_hits(l, ps, ls) {
        Some(l)
    } else {
        match l {
            LevelV::Param(n) => lookup_param(n, ps, ls),
            LevelV::Succ(a) => match spec_instantiate(*a, ps, ls) {
                Some(x) => if depth(x) < depth_limit() {
                    Some(LevelV::Succ(Box::new(x)))
                } else {
                    None
                },
                None => None,
            },
            LevelV::Max(a, b) => match (spec_instantiate(*a, ps, ls), spec_instantiate(*b, ps, ls)) {
                (Some(x), Some(y)) => if max_ok(x, y) {
                    Some(spec_max(x, y))
                } else {
                    None
                },
                _ => None,
            },
            LevelV::IMax(a, b) => match (spec_instantiate(*a, ps, ls), spec_instantiate(*b, ps, ls)) {
                (Some(x), Some(y)) => if imax_ok(x, y) {
                    Some(spec_imax(x, y))
                } else {
                    None
                },
                _ => None,
            },
            _ => Some(l),
        }
    }
}

/// `u` is a subterm of `l`.
pub open spec fn occurs_in_level(u: LevelV, l: LevelV) -> bool
    decreases l,
{
    l == u || match l {
        LevelV::Succ(a) => occurs_in_level(u, *a),
        LevelV::Max(a, b) => occurs_in_level(u, *a) || occurs_in_level(u, *b),
        LevelV::IMax(a, b) => occurs_in_level(u, *a) || occurs_in_level(u, *b),
        _ => false,
    }
}

/// The first parameter of `l` (left to right) that is not among `lparams`.
pub open spec fn first_undef_param(l: LevelV, lparams: Seq<Seq<Limb>>) -> Option<Seq<Limb>>
    decreases l,
{
    match l {
        LevelV::Param(n) => if lparams.contains(n) {
            None
        } else {
            Some(n)
        },
        LevelV::Succ(a) => first_undef_param(*a, lparams),
        LevelV::Max(a, b) => match first_undef_param(*a, lparams) {
            Some(n) => Some(n),
            None => first_undef_param(*b, lparams),
        },
        LevelV::IMax(a, b) => match first_undef_param(*a, lparams) {
            Some(n) => Some(n),
            None => first_undef_param(*b, lparams),
        },
        _ => None,
    }
}

pub proof fn lemma_base_size(l: LevelV)
    ensures
        size(base(l)) + offset(l) == size(l),
        !(base(l) is Succ),
    decreases l,
{
    if let LevelV::Succ(a) = l {
        lemma_base_size(*a);
    }
}

/// `l1 >= l2` for all parameter assignments, by the syntactic rules Lean's
/// kernel uses on normalized levels.
pub open spec fn geq_core(l1: LevelV, l2: LevelV) -> bool
    decreases size(l1) + size(l2),
{
    if l1 == l2 || l2 is Zero {
        true
    } else if l2 is Max {
        match l2 {
            LevelV::Max(a, b) => geq_core(l1, *a) && geq_core(l1, *b),
            _ => false,
        }
    } else if (match l1 {
        LevelV::Max(a, b) => geq_core(*a, l2) || geq_core(*b, l2),
        _ => false,
    }) {
        true
    } else if l2 is IMax {
        match l2 {
            LevelV::IMax(a, b) => geq_core(l1, *a) && geq_core(l1, *b),
            _ => false,
        }
    } else if l1 is IMax {
        match l1 {
            LevelV::IMax(_, b) => geq_core(*b, l2),
            _ => false,
        }
    } else {
        if base(l1) == base(l2) || base(l2) is Zero {
            offset(l1) >= offset(l2)
        } else if offset(l1) == offset(l2) && offset(l1) > 0 {
            proof {
                lemma_base_size(l1);
                lemma_base_size(l2);
            }
            geq_core(base(l1), base(l2))
        } else {
            false
        }
    }
}

pub(crate) fn lookup_exec(n: &Name, ps: &[Name], ls: &[Level]) -> (r: Option<Level>)
    ensures
        r matches Some(x) ==> lookup_param(
            n@,
            ps@.map_values(|p: Name| p@),
            ls@.map_values(|l: Level| l@),
        ) == Some(x@),
        r is None ==> lookup_param(
            n@,
            ps@.map_values(|p: Name| p@),
            ls@.map_values(|l: Level| l@),
        ) is None,
{
    let ghost psv = ps@.map_values(|p: Name| p@);
    let ghost lsv = ls@.map_values(|l: Level| l@);
    let mut i: usize = 0;
    proof {
        assert(psv.skip(0) == psv);
        assert(lsv.skip(0) == lsv);
    }
    while i < ps.len() && i < ls.len()
        invariant
            i <= ps@.len(),
            i <= ls@.len(),
            psv == ps@.map_values(|p: Name| p@),
            lsv == ls@.map_values(|l: Level| l@),
            lookup_param(n@, psv, lsv) == lookup_param(n@, psv.skip(i as int), lsv.skip(i as int)),
        decreases ps@.len() - i,
    {
        proof {
            assert(psv.skip(i as int)[0] == ps@[i as int]@);
            assert(lsv.skip(i as int)[0] == ls@[i as int]@);
            assert(psv.skip(i as int).drop_first() == psv.skip(i + 1));
            assert(lsv.skip(i as int).drop_first() == lsv.skip(i + 1));
        }
        if names_equal(n, &ps[i]) {
            return Some(ls[i].clone());
        }
        i = i + 1;
    }
    proof {
        if i == ps@.len() {
            assert(psv.skip(i as int).len() == 0);
        } else {
            assert(lsv.skip(i as int).len() == 0);
        }
    }
    None
}

/// How one run of replacing went at a node: `f` gave a level, the node has
/// no sub-levels, or the run went on into the sub-levels, giving each a
/// result and whether `f` gave a level somewhere below it.
pub enum ReplaceTrace {
    Given,
    Leaf,
    One(Box<ReplaceTrace>, Level, bool),
    Two(Box<ReplaceTrace>, Level, bool, Box<ReplaceTrace>, Level, bool),
}

/// Along trace `t`, replacing by `f` turns `l` into `r`, and `changed` tells
/// whether `f` gave a level somewhere. Where `f` gives a level, that is the
/// result; elsewhere a `succ`, `max` or `imax` node whose sub-levels are
/// unchanged is kept, and otherwise rebuilt from the replaced sub-levels by
/// the smart constructors.
pub open spec fn replace_run<F: Fn(&Level) -> Option<Level>>(
    f: F,
    l: Level,
    r: Level,
    changed: bool,
    t: ReplaceTrace,
) -> bool
    decreases t,
{
    match t {
        ReplaceTrace::Given => changed && f.ensures((&l,), Some(r)),
        ReplaceTrace::Leaf => f.ensures((&l,), None::<Level>) && !(l@ is Succ) && !(l@ is Max)
            && !(l@ is IMax) && !changed && r@ == l@,
        ReplaceTrace::One(ta, na, ca) => f.ensures((&l,), None::<Level>) && l@ is Succ
            && replace_run(f, l.first_child(), na, ca, *ta) && if ca {
            changed && r@ == LevelV::Succ(Box::new(na@))
        } else {
            !changed && r@ == l@
        },
        ReplaceTrace::Two(ta, na, ca, tb, nb, cb) => f.ensures((&l,), None::<Level>) && (l@ is Max
            || l@ is IMax) && replace_run(f, l.first_child(), na, ca, *ta) && replace_run(
            f,
            l.second_child(),
            nb,
            cb,
            *tb,
        ) && if !ca && !cb {
            !changed && r@ == l@
        } else if l@ is Max {
            changed && r@ == spec_max(na@, nb@)
        } else {
            changed && r@ == spec_imax(na@, nb@)
        },
    }
}

impl Level {
    fn instantiate_core(&self, ps: &[Name], ls: &[Level]) -> (r: (Level, bool))
        requires
            spec_instantiate(
                self@,
                ps@.map_values(|p: Name| p@),
                ls@.map_values(|l: Level| l@),
            ) is Some,
        ensures
            r.0@ == spec_instantiate(
                self@,
                ps@.map_values(|p: Name| p@),
                ls@.map_values(|l: Level| l@),
            )->0,
            r.1 == subst_hits(self@, ps@.map_values(|p: Name| p@), ls@.map_values(|l: Level| l@)),
        decreases size(self@),
    {
        let ghost psv = ps@.map_values(|p: Name| p@);
        let ghost lsv = ls@.map_values(|l: Level| l@);
        if !self.has_param() {
            proof {
                lemma_no_param_no_hits(self@, psv, lsv);
            }
            return (self.clone(), false);
        }
        if self.is_param() {
            let n = self.param_name();
            return match lookup_exec(n, ps, ls) {
                Some(x) => (x, true),
                None => (self.clone(), false),
            };
        }
        if self.is_succ() {
            let a = self.succ_of();
            let (na, ch) = a.instantiate_core(ps, ls);
            if !ch {
                return (self.clone(), false);
            }
            return (Level::succ(na), true);
        }
        if self.is_max() {
            let a = self.max_lhs();
            let b = self.max_rhs();
            let (na, cha) = a.instantiate_core(ps, ls);
            let (nb, chb) = b.instantiate_core(ps, ls);
            if !cha && !chb {
                return (self.clone(), false);
            }
            return (Level::max(na, nb), true);
        }
        if self.is_imax() {
            let a = self.imax_lhs();
            let b = self.imax_rhs();
            let (na, cha) = a.instantiate_core(ps, ls);
            let (nb, chb) = b.instantiate_core(ps, ls);
            if !cha && !chb {
                return (self.clone(), false);
            }
            return (Level::imax(na, nb), true);
        }
        (self.clone(), false)
    }

    /// Instantiate universe parameters: replace `Param(ps[i])` with `ls[i]`.
    pub fn instantiate(&self, ps: &[Name], ls: &[Level]) -> (r: Level)
        requires
            spec_instantiate(
                self@,
                ps@.map_values(|p: Name| p@),
                ls@.map_values(|l: Level| l@),
            ) is Some,
        ensures
            r@ == spec_instantiate(
                self@,
                ps@.map_values(|p: Name| p@),
                ls@.map_values(|l: Level| l@),
            )->0,
    {
        self.instantiate_core(ps, ls).0
    }

    fn replace_core<F: Fn(&Level) -> Option<Level>>(&self, f: &F, Ghost(top): Ghost<nat>) -> (r: (
        Level,
        bool,
        Ghost<ReplaceTrace>,
    ))
        requires
            forall|a: &Level| #[trigger] f.requires((a,)),
            forall|a: &Level, o: Option<Level>|
                #[trigger] f.ensures((a,), o) ==> (o matches Some(x) ==> depth(x@) + top
                    < depth_limit()),
            depth(self@) <= top <= depth_limit(),
        ensures
            depth(r.0@) + top <= depth(self@) + depth_limit(),
            !r.1 ==> r.0@ == self@,
            replace_run(*f, *self, r.0, r.1, r.2@),
        decreases size(self@),
    {
        proof {
            self.lemma_children_view();
        }
        if let Some(r) = f(self) {
            return (r, true, Ghost(ReplaceTrace::Given));
        }
        if self.is_succ() {
            let a = self.succ_of();
            let (na, ch, ta) = a.replace_core(f, Ghost(top));
            let ghost t = ReplaceTrace::One(Box::new(ta@), na, ch);
            if !ch {
                return (self.clone(), false, Ghost(t));
            }
            return (Level::succ(na), true, Ghost(t));
        }
        if self.is_max() {
            let a = self.max_lhs();
            let b = self.max_rhs();
            let (na, cha, ta) = a.replace_core(f, Ghost(top));
            let (nb, chb, tb) = b.replace_core(f, Ghost(top));
            let ghost t = ReplaceTrace::Two(Box::new(ta@), na, cha, Box::new(tb@), nb, chb);
            if !cha && !chb {
                return (self.clone(), false, Ghost(t));
            }
            proof {
                lemma_max_depth(na@, nb@);
            }
            return (Level::max(na, nb), true, Ghost(t));
        }
        if self.is_imax() {
            let a = self.imax_lhs();
            let b = self.imax_rhs();
            let (na, cha, ta) = a.replace_core(f, Ghost(top));
            let (nb, chb, tb) = b.replace_core(f, Ghost(top));
            let ghost t = ReplaceTrace::Two(Box::new(ta@), na, cha, Box::new(tb@), nb, chb);
            if !cha && !chb {
                return (self.clone(), false, Ghost(t));
            }
            proof {
                lemma_imax_depth(na@, nb@);
            }
            return (Level::imax(na, nb), true, Ghost(t));
        }
        (self.clone(), false, Ghost(ReplaceTrace::Leaf))
    }

    /// Apply `f` to each sub-level from the root down; where it returns
    /// `Some`, that level replaces the subterm. Rebuilt nodes go through the
    /// smart constructors.
    pub fn replace<F: Fn(&Level) -> Option<Level>>(&self, f: &F) -> (r: Level)
        requires
            forall|a: &Level| #[trigger] f.requires((a,)),
            forall|a: &Level, o: Option<Level>|
                #[trigger] f.ensures((a,), o) ==> (o matches Some(x) ==> depth(x@) + depth(self@)
                    < depth_limit()),
        ensures
            exists|changed: bool, t: ReplaceTrace| replace_run(*f, *self, r, changed, t),
            depth(r@) <= depth_limit(),
    {
        let d = self.depth();
        let (r, _, _) = self.replace_core(f, Ghost(d as nat));
        r
    }

    /// Visit each sub-level from the root down; returning `false` from `f`
    /// stops the descent below that sub-level.
    pub fn for_each<F: FnMut(&Level) -> bool>(&self, f: &mut F)
        requires
            forall|g: F, a: &Level| #[trigger] call_requires(g, (a,)),
        decreases size(self@),
    {
        if !f(self) {
            return;
        }
        if self.is_succ() {
            self.succ_of().for_each(f);
        } else if self.is_max() {
            self.max_lhs().for_each(f);
            self.max_rhs().for_each(f);
        } else if self.is_imax() {
            self.imax_lhs().for_each(f);
            self.imax_rhs().for_each(f);
        }
    }

    /// Check if `u` occurs anywhere in `self`.
    pub fn occurs(&self, u: &Level) -> (b: bool)
        ensures
            b == occurs_in_level(u@, self@),
        decreases size(self@),
    {
        if levels_equal(self, u) {
            return true;
        }
        if self.is_succ() {
            return self.succ_of().occurs(u);
        }
        if self.is_max() {
            return self.max_lhs().occurs(u) || self.max_rhs().occurs(u);
        }
        if self.is_imax() {
            return self.imax_lhs().occurs(u) || self.imax_rhs().occurs(u);
        }
        false
    }

    /// Find a universe parameter not in the given list (the first one, left to right).
    pub fn get_undef_param(&self, lparams: &[Name]) -> (r: Option<Name>)
        ensures
            r matches Some(n) ==> first_undef_param(self@, lparams@.map_values(|p: Name| p@))
                == Some(n@),
            r is None ==> first_undef_param(self@, lparams@.map_values(|p: Name| p@)) is None,
        decreases size(self@),
    {
        if !self.has_param() {
            proof {
                lemma_no_param_no_undef(self@, lparams@.map_values(|p: Name| p@));
            }
            return None;
        }
        if self.is_param() {
            let n = self.param_name();
            if name_in(n, lparams) {
                return None;
            }
            return Some(n.clone());
        }
        if self.is_succ() {
            return self.succ_of().get_undef_param(lparams);
        }
        if self.is_max() {
            let r = self.max_lhs().get_undef_param(lparams);
            if r.is_some() {
                return r;
            }
            return self.max_rhs().get_undef_param(lparams);
        }
        if self.is_imax() {
            let r = self.imax_lhs().get_undef_param(lparams);
            if r.is_some() {
                return r;
            }
            return self.imax_rhs().get_undef_param(lparams);
        }
        None
    }
}

/// Whether `n` is among `ps` (by value).
pub fn name_in(n: &Name, ps: &[Name]) -> (b: bool)
    ensures
        b == ps@.map_values(|p: Name| p@).contains(n@),
{
    let ghost psv = ps@.map_values(|p: Name| p@);
    let mut i: usize = 0;
    while i < ps.len()
        invariant
            i <= ps@.len(),
            psv == ps@.map_values(|p: Name| p@),
            forall|j: int| 0 <= j < i ==> psv[j] != n@,
        decreases ps@.len() - i,
    {
        if names_equal(n, &ps[i]) {
            proof {
                assert(psv[i as int] == n@);
            }
            return true;
        }
        i = i + 1;
    }
    false
}

pub(crate) proof fn lemma_no_param_no_hits(l: LevelV, ps: Seq<Seq<Limb>>, ls: Seq<LevelV>)
    requires
        !has_param(l),
    ensures
        !subst_hits(l, ps, ls),
    decreases l,
{
    match l {
        LevelV::Succ(a) => lemma_no_param_no_hits(*a, ps, ls),
        LevelV::Max(a, b) => {
            lemma_no_param_no_hits(*a, ps, ls);
            lemma_no_param_no_hits(*b, ps, ls);
        },
        LevelV::IMax(a, b) => {
            lemma_no_param_no_hits(*a, ps, ls);
            lemma_no_param_no_hits(*b, ps, ls);
        },
        _ => {},
    }
}

proof fn lemma_no_param_no_undef(l: LevelV, lps: Seq<Seq<Limb>>)
    requires
        !has_param(l),
    ensures
        first_undef_param(l, lps) is None,
    decreases l,
{
    match l {
        LevelV::Succ(a) => lemma_no_param_no_undef(*a, lps),
        LevelV::Max(a, b) => {
            lemma_no_param_no_undef(*a, lps);
            lemma_no_param_no_undef(*b, lps);
        },
        LevelV::IMax(a, b) => {
            lemma_no_param_no_undef(*a, lps);
            lemma_no_param_no_undef(*b, lps);
        },
        _ => {},
    }
}

pub proof fn lemma_max_depth(a: LevelV, b: LevelV)
    ensures
        depth(spec_max(a, b)) <= if depth(a) >= depth(b) {
            depth(a) + 1
        } else {
            depth(b) + 1
        },
{
}

pub proof fn lemma_imax_depth(a: LevelV, b: LevelV)
    ensures
        depth(spec_imax(a, b)) <= if depth(a) >= depth(b) {
            depth(a) + 1
        } else {
            depth(b) + 1
        },
{
    lemma_max_depth(a, b);
}

} // verus!
