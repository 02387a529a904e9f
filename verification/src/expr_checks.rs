//! Run-time checks that the de Bruijn and universe operations stay within
//! machine integers, for callers that meet expressions they did not build.
use vstd::prelude::*;

use crate::expr::{esize, exprs_view, levels_view, Expr, ExprKind};
use crate::expr_eq::{abstract_core_ok, find_equal};
use crate::expr_subst::{
    inst_core_ok, inst_levels_ok, inst_lparams_ok, inst_ok, lift_core_ok, lift_ok, names_view,
};
use crate::level::{depth, depth_limit, has_param, size, Level, LevelV};
use crate::level_ops::{lemma_no_param_no_hits, lookup_exec, spec_instantiate, subst_hits};
use crate::name::{Limb, Name};

verus! {

impl Expr {
    /// Whether lifting below `off` binders stays within `u64`.
    pub fn lift_core_fits(&self, s: u64, d: u64, off: u64) -> (b: bool)
        ensures
            b == lift_core_ok(self@, s, d, off),
        decreases esize(self@),
    {
        if !self.has_loose_bvars() {
            return true;
        }
        match self.kind() {
            ExprKind::BVar(i) => off <= u64::MAX - s && (*i < off + s || *i <= u64::MAX - d),
            ExprKind::App(f, a) => f.lift_core_fits(s, d, off) && a.lift_core_fits(s, d, off),
            ExprKind::Lam(_, t, b, _) | ExprKind::ForallE(_, t, b, _) => t.lift_core_fits(s, d, off)
                && off < u64::MAX && b.lift_core_fits(s, d, off + 1),
            ExprKind::LetE(_, t, v, b, _) => t.lift_core_fits(s, d, off) && v.lift_core_fits(
                s,
                d,
                off,
            ) && off < u64::MAX && b.lift_core_fits(s, d, off + 1),
            ExprKind::MData(_, x) => x.lift_core_fits(s, d, off),
            ExprKind::Proj(_, _, x) => x.lift_core_fits(s, d, off),
            _ => true,
        }
    }

    /// Whether `lift_loose_bvars(s, d)` stays within `u64`.
    pub fn lift_fits(&self, s: u32, d: u32) -> (b: bool)
        ensures
            b == lift_ok(self@, s, d),
    {
        d == 0 || !self.has_loose_bvars() || self.lift_core_fits(s as u64, d as u64, 0)
    }

    /// Whether instantiating below `off` binders stays within machine integers.
    pub fn inst_core_fits(&self, subst: &[Expr], off: u64) -> (b: bool)
        ensures
            b == inst_core_ok(self@, exprs_view(subst@), off),
        decreases esize(self@),
    {
        if !self.has_loose_bvars() {
            return true;
        }
        match self.kind() {
            ExprKind::BVar(i) => {
                if *i >= off && (*i - off) < subst.len() as u64 && off > 0 {
                    proof {
                        assert(exprs_view(subst@)[(*i - off) as int] == subst@[(*i - off) as int]@);
                    }
                    subst[(*i - off) as usize].lift_fits(0, off as u32)
                } else {
                    true
                }
            },
            ExprKind::App(f, a) => f.inst_core_fits(subst, off) && a.inst_core_fits(subst, off),
            ExprKind::Lam(_, t, b, _) | ExprKind::ForallE(_, t, b, _) => t.inst_core_fits(
                subst,
                off,
            ) && off < u64::MAX && b.inst_core_fits(subst, off + 1),
            ExprKind::LetE(_, t, v, b, _) => t.inst_core_fits(subst, off) && v.inst_core_fits(
                subst,
                off,
            ) && off < u64::MAX && b.inst_core_fits(subst, off + 1),
            ExprKind::MData(_, x) => x.inst_core_fits(subst, off),
            ExprKind::Proj(_, _, x) => x.inst_core_fits(subst, off),
            _ => true,
        }
    }

    /// Whether `instantiate(subst)` stays within machine integers.
    pub fn inst_fits(&self, subst: &[Expr]) -> (b: bool)
        ensures
            b == inst_ok(self@, exprs_view(subst@)),
    {
        subst.len() == 0 || !self.has_loose_bvars() || self.inst_core_fits(subst, 0)
    }

    /// Whether `instantiate1(s)` stays within machine integers.
    pub fn inst1_fits(&self, s: &Expr) -> (b: bool)
        ensures
            b == inst_ok(self@, seq![s@]),
    {
        let v = vec![s.clone()];
        proof {
            assert(exprs_view(v@) =~= seq![s@]);
        }
        self.inst_fits(v.as_slice())
    }

    /// Whether abstracting `s` below `off` binders stays within `u64`.
    pub fn abstract_core_fits(&self, s: &[Expr], off: u64) -> (b: bool)
        ensures
            b == abstract_core_ok(self@, exprs_view(s@), off),
        decreases esize(self@),
    {
        match find_equal(self, s) {
            Some(i) => (i as u64) <= u64::MAX - off,
            None => match self.kind() {
                ExprKind::App(f, a) => f.abstract_core_fits(s, off) && a.abstract_core_fits(s, off),
                ExprKind::Lam(_, d, b, _) | ExprKind::ForallE(_, d, b, _) => d.abstract_core_fits(
                    s,
                    off,
                ) && off < u64::MAX && b.abstract_core_fits(s, off + 1),
                ExprKind::LetE(_, t, v, b, _) => t.abstract_core_fits(s, off)
                    && v.abstract_core_fits(s, off) && off < u64::MAX && b.abstract_core_fits(
                    s,
                    off + 1,
                ),
                ExprKind::MData(_, x) => x.abstract_core_fits(s, off),
                ExprKind::Proj(_, _, x) => x.abstract_core_fits(s, off),
                _ => true,
            },
        }
    }

    /// Whether `abstract_(s)` stays within `u64`.
    pub fn abstract_fits(&self, s: &[Expr]) -> (b: bool)
        ensures
            b == (s@.len() > 0 ==> abstract_core_ok(self@, exprs_view(s@), 0)),
    {
        s.len() == 0 || self.abstract_core_fits(s, 0)
    }

    /// A check that instantiating universe parameters stays within the depth
    /// limit of levels; it may refuse only where a level would come within one
    /// step of that limit.
    pub fn inst_lparams_fits(&self, ps: &[Name], ls: &[Level]) -> (b: bool)
        ensures
            b ==> inst_lparams_ok(self@, names_view(ps@), levels_view(ls@)),
        decreases esize(self@),
    {
        if !self.has_univ_param() {
            return true;
        }
        match self.kind() {
            ExprKind::Sort(l) => l.try_instantiate(ps, ls).is_some(),
            ExprKind::Const(_, lvls) => levels_fit(lvls.as_slice(), ps, ls),
            ExprKind::App(f, a) => f.inst_lparams_fits(ps, ls) && a.inst_lparams_fits(ps, ls),
            ExprKind::Lam(_, t, b, _) | ExprKind::ForallE(_, t, b, _) => t.inst_lparams_fits(
                ps,
                ls,
            ) && b.inst_lparams_fits(ps, ls),
            ExprKind::LetE(_, t, v, b, _) => t.inst_lparams_fits(ps, ls) && v.inst_lparams_fits(
                ps,
                ls,
            ) && b.inst_lparams_fits(ps, ls),
            ExprKind::MData(_, x) => x.inst_lparams_fits(ps, ls),
            ExprKind::Proj(_, _, x) => x.inst_lparams_fits(ps, ls),
            _ => true,
        }
    }
}

/// Every level of `lvls` can be instantiated.
fn levels_fit(lvls: &[Level], ps: &[Name], ls: &[Level]) -> (b: bool)
    ensures
        b ==> inst_levels_ok(levels_view(lvls@), names_view(ps@), levels_view(ls@)),
{
    let mut i: usize = 0;
    while i < lvls.len()
        invariant
            i <= lvls@.len(),
            forall|k: int|
                0 <= k < i ==> (spec_instantiate(
                    #[trigger] levels_view(lvls@)[k],
                    names_view(ps@),
                    levels_view(ls@),
                ) is Some),
        decreases lvls@.len() - i,
    {
        if lvls[i].try_instantiate(ps, ls).is_none() {
            return false;
        }
        i = i + 1;
    }
    true
}

/// Instantiating the parameters `ps` of `l` by `ls` never rebuilds a node
/// around a level of depth `u32::MAX`.
pub open spec fn instantiate_fits(l: LevelV, ps: Seq<Seq<Limb>>, ls: Seq<LevelV>) -> bool
    decreases l,
{
    if !has_param(l) {
        true
    } else {
        match l {
            LevelV::Succ(a) => instantiate_fits(*a, ps, ls) && (subst_hits(*a, ps, ls) ==> depth(
                spec_instantiate(*a, ps, ls)->0,
            ) < depth_limit()),
            LevelV::Max(a, b) | LevelV::IMax(a, b) => instantiate_fits(*a, ps, ls)
                && instantiate_fits(*b, ps, ls) && ((subst_hits(*a, ps, ls) || subst_hits(
                *b,
                ps,
                ls,
            )) ==> depth(spec_instantiate(*a, ps, ls)->0) < depth_limit() && depth(
                spec_instantiate(*b, ps, ls)->0,
            ) < depth_limit()),
            _ => true,
        }
    }
}

impl Level {
    /// Instantiate universe parameters, or `None` where a rebuilt level would
    /// come within one step of the depth limit.
    pub fn try_instantiate(&self, ps: &[Name], ls: &[Level]) -> (r: Option<Level>)
        ensures
            r matches Some(x) ==> spec_instantiate(self@, names_view(ps@), levels_view(ls@))
                == Some(x@),
            r is Some <==> instantiate_fits(self@, names_view(ps@), levels_view(ls@)),
        decreases size(self@),
    {
        let ghost psv = names_view(ps@);
        let ghost lsv = levels_view(ls@);
        proof {
            assert(psv =~= ps@.map_values(|p: Name| p@));
            assert(lsv =~= ls@.map_values(|l: Level| l@));
        }
        if !self.has_param() {
            proof {
                lemma_no_param_no_hits(self@, psv, lsv);
            }
            return Some(self.clone());
        }
        if self.is_param() {
            let n = self.param_name();
            return match lookup_exec(n, ps, ls) {
                Some(x) => Some(x),
                None => Some(self.clone()),
            };
        }
        if self.is_succ() {
            let a = self.succ_of();
            let na = a.try_instantiate(ps, ls)?;
            if !subst_hits_exec(a, ps, ls) {
                return Some(self.clone());
            }
            if na.depth() >= u32::MAX {
                return None;
            }
            return Some(Level::succ(na));
        }
        if self.is_max() || self.is_imax() {
            let (a, b) = if self.is_max() {
                (self.max_lhs(), self.max_rhs())
            } else {
                (self.imax_lhs(), self.imax_rhs())
            };
            let na = a.try_instantiate(ps, ls)?;
            let nb = b.try_instantiate(ps, ls)?;
            if !subst_hits_exec(a, ps, ls) && !subst_hits_exec(b, ps, ls) {
                return Some(self.clone());
            }
            if na.depth() >= u32::MAX || nb.depth() >= u32::MAX {
                return None;
            }
            return Some(
                if self.is_max() {
                    Level::max(na, nb)
                } else {
                    Level::imax(na, nb)
                },
            );
        }
        Some(self.clone())
    }
}

/// Whether some parameter of `l` is one of `ps` (with a level to replace it).
fn subst_hits_exec(l: &Level, ps: &[Name], ls: &[Level]) -> (b: bool)
    ensures
        b == subst_hits(l@, names_view(ps@), levels_view(ls@)),
    decreases size(l@),
{
    proof {
        assert(names_view(ps@) =~= ps@.map_values(|p: Name| p@));
        assert(levels_view(ls@) =~= ls@.map_values(|x: Level| x@));
    }
    if l.is_param() {
        lookup_exec(l.param_name(), ps, ls).is_some()
    } else if l.is_succ() {
        subst_hits_exec(l.succ_of(), ps, ls)
    } else if l.is_max() {
        subst_hits_exec(l.max_lhs(), ps, ls) || subst_hits_exec(l.max_rhs(), ps, ls)
    } else if l.is_imax() {
        subst_hits_exec(l.imax_lhs(), ps, ls) || subst_hits_exec(l.imax_rhs(), ps, ls)
    } else {
        false
    }
}

} // verus!
