//! De Bruijn operations on expressions: lifting and lowering loose bound
//! variables, instantiation, occurrence checks, head beta reduction and
//! universe parameter instantiation.
use vstd::prelude::*;

use crate::expr::{erange, esize, exprs_view, levels_view, Expr, ExprKind, ExprV};
use crate::level::{Level, LevelV};
use crate::level_ops::spec_instantiate;
use crate::name::{Limb, Name};

verus! {

/// `e` with loose bound variables `>= off + s` raised by `d` (the rebuild below
/// `off` binders); subterms without loose bound variables are kept.
pub open spec fn lift_core_spec(e: ExprV, s: u64, d: u64, off: u64) -> ExprV
    decreases e,
{
    if erange(e) == 0 {
        e
    } else {
        match e {
            ExprV::BVar(i) => if i >= off + s {
                ExprV::BVar((i + d) as u64)
            } else {
                e
            },
            ExprV::App(f, a) => ExprV::App(
                Box::new(lift_core_spec(*f, s, d, off)),
                Box::new(lift_core_spec(*a, s, d, off)),
            ),
            ExprV::Lam(n, t, b, bi) => ExprV::Lam(
                n,
                Box::new(lift_core_spec(*t, s, d, off)),
                Box::new(lift_core_spec(*b, s, d, (off + 1) as u64)),
                bi,
            ),
            ExprV::ForallE(n, t, b, bi) => ExprV::ForallE(
                n,
                Box::new(lift_core_spec(*t, s, d, off)),
                Box::new(lift_core_spec(*b, s, d, (off + 1) as u64)),
                bi,
            ),
            ExprV::LetE(n, t, v, b, nd) => ExprV::LetE(
                n,
                Box::new(lift_core_spec(*t, s, d, off)),
                Box::new(lift_core_spec(*v, s, d, off)),
                Box::new(lift_core_spec(*b, s, d, (off + 1) as u64)),
                nd,
            ),
            ExprV::MData(md, x) => ExprV::MData(md, Box::new(lift_core_spec(*x, s, d, off))),
            ExprV::Proj(sn, i, x) => ExprV::Proj(sn, i, Box::new(lift_core_spec(*x, s, d, off))),
            _ => e,
        }
    }
}

/// Lifting below `off` binders computes no index beyond `u64::MAX`.
pub open spec fn lift_core_ok(e: ExprV, s: u64, d: u64, off: u64) -> bool
    decreases e,
{
    if erange(e) == 0 {
        true
    } else {
        match e {
            ExprV::BVar(i) => off + s <= u64::MAX && (i >= off + s ==> i + d <= u64::MAX),
            ExprV::App(f, a) => lift_core_ok(*f, s, d, off) && lift_core_ok(*a, s, d, off),
            ExprV::Lam(_, t, b, _) => lift_core_ok(*t, s, d, off) && off + 1 <= u64::MAX
                && lift_core_ok(*b, s, d, (off + 1) as u64),
            ExprV::ForallE(_, t, b, _) => lift_core_ok(*t, s, d, off) && off + 1 <= u64::MAX
                && lift_core_ok(*b, s, d, (off + 1) as u64),
            ExprV::LetE(_, t, v, b, _) => lift_core_ok(*t, s, d, off) && lift_core_ok(*v, s, d, off)
                && off + 1 <= u64::MAX && lift_core_ok(*b, s, d, (off + 1) as u64),
            ExprV::MData(_, x) => lift_core_ok(*x, s, d, off),
            ExprV::Proj(_, _, x) => lift_core_ok(*x, s, d, off),
            _ => true,
        }
    }
}

/// `lift_loose_bvars(e, s, d)`: loose bound variables `>= s` raised by `d`.
pub open spec fn lift_spec(e: ExprV, s: u32, d: u32) -> ExprV {
    if d == 0 || erange(e) == 0 {
        e
    } else {
        lift_core_spec(e, s as u64, d as u64, 0)
    }
}

/// `lift_loose_bvars(e, s, d)` computes no index beyond `u64::MAX`.
pub open spec fn lift_ok(e: ExprV, s: u32, d: u32) -> bool {
    d == 0 || erange(e) == 0 || lift_core_ok(e, s as u64, d as u64, 0)
}

/// `e` with loose bound variables `>= off + s` lowered by `d`.
pub open spec fn lower_core_spec(e: ExprV, s: u64, d: u64, off: u64) -> ExprV
    decreases e,
{
    if erange(e) == 0 {
        e
    } else {
        match e {
            ExprV::BVar(i) => if i >= off + s {
                ExprV::BVar((i - d) as u64)
            } else {
                e
            },
            ExprV::App(f, a) => ExprV::App(
                Box::new(lower_core_spec(*f, s, d, off)),
                Box::new(lower_core_spec(*a, s, d, off)),
            ),
            ExprV::Lam(n, t, b, bi) => ExprV::Lam(
                n,
                Box::new(lower_core_spec(*t, s, d, off)),
                Box::new(lower_core_spec(*b, s, d, (off + 1) as u64)),
                bi,
            ),
            ExprV::ForallE(n, t, b, bi) => ExprV::ForallE(
                n,
                Box::new(lower_core_spec(*t, s, d, off)),
                Box::new(lower_core_spec(*b, s, d, (off + 1) as u64)),
                bi,
            ),
            ExprV::LetE(n, t, v, b, nd) => ExprV::LetE(
                n,
                Box::new(lower_core_spec(*t, s, d, off)),
                Box::new(lower_core_spec(*v, s, d, off)),
                Box::new(lower_core_spec(*b, s, d, (off + 1) as u64)),
                nd,
            ),
            ExprV::MData(md, x) => ExprV::MData(md, Box::new(lower_core_spec(*x, s, d, off))),
            ExprV::Proj(sn, i, x) => ExprV::Proj(sn, i, Box::new(lower_core_spec(*x, s, d, off))),
            _ => e,
        }
    }
}

/// Lowering below `off` binders computes no index below 0 or beyond `u64::MAX`.
pub open spec fn lower_core_ok(e: ExprV, s: u64, d: u64, off: u64) -> bool
    decreases e,
{
    if erange(e) == 0 {
        true
    } else {
        match e {
            ExprV::BVar(i) => off + s <= u64::MAX && (i >= off + s ==> i >= d),
            ExprV::App(f, a) => lower_core_ok(*f, s, d, off) && lower_core_ok(*a, s, d, off),
            ExprV::Lam(_, t, b, _) => lower_core_ok(*t, s, d, off) && off + 1 <= u64::MAX
                && lower_core_ok(*b, s, d, (off + 1) as u64),
            ExprV::ForallE(_, t, b, _) => lower_core_ok(*t, s, d, off) && off + 1 <= u64::MAX
                && lower_core_ok(*b, s, d, (off + 1) as u64),
            ExprV::LetE(_, t, v, b, _) => lower_core_ok(*t, s, d, off) && lower_core_ok(
                *v,
                s,
                d,
                off,
            ) && off + 1 <= u64::MAX && lower_core_ok(*b, s, d, (off + 1) as u64),
            ExprV::MData(_, x) => lower_core_ok(*x, s, d, off),
            ExprV::Proj(_, _, x) => lower_core_ok(*x, s, d, off),
            _ => true,
        }
    }
}

/// `lower_loose_bvars(e, s, d)`: loose bound variables `>= s` lowered by `d`.
pub open spec fn lower_spec(e: ExprV, s: u32, d: u32) -> ExprV {
    if d == 0 || erange(e) == 0 {
        e
    } else {
        lower_core_spec(e, s as u64, d as u64, 0)
    }
}

/// `lower_loose_bvars(e, s, d)` computes no index below 0 or beyond `u64::MAX`.
pub open spec fn lower_ok(e: ExprV, s: u32, d: u32) -> bool {
    d == 0 || erange(e) == 0 || lower_core_ok(e, s as u64, d as u64, 0)
}

/// `e` with loose `BVar(off + i)` replaced by `subst[i]` lifted by `off`.
pub open spec fn inst_core_spec(e: ExprV, subst: Seq<ExprV>, off: u64) -> ExprV
    decreases e,
{
    if erange(e) == 0 {
        e
    } else {
        match e {
            ExprV::BVar(i) => if i >= off && i - off < subst.len() {
                let x = subst[i - off];
                if off > 0 {
                    lift_spec(x, 0, off as u32)
                } else {
                    x
                }
            } else {
                e
            },
            ExprV::App(f, a) => ExprV::App(
                Box::new(inst_core_spec(*f, subst, off)),
                Box::new(inst_core_spec(*a, subst, off)),
            ),
            ExprV::Lam(n, t, b, bi) => ExprV::Lam(
                n,
                Box::new(inst_core_spec(*t, subst, off)),
                Box::new(inst_core_spec(*b, subst, (off + 1) as u64)),
                bi,
            ),
            ExprV::ForallE(n, t, b, bi) => ExprV::ForallE(
                n,
                Box::new(inst_core_spec(*t, subst, off)),
                Box::new(inst_core_spec(*b, subst, (off + 1) as u64)),
                bi,
            ),
            ExprV::LetE(n, t, v, b, nd) => ExprV::LetE(
                n,
                Box::new(inst_core_spec(*t, subst, off)),
                Box::new(inst_core_spec(*v, subst, off)),
                Box::new(inst_core_spec(*b, subst, (off + 1) as u64)),
                nd,
            ),
            ExprV::MData(md, x) => ExprV::MData(md, Box::new(inst_core_spec(*x, subst, off))),
            ExprV::Proj(sn, i, x) => ExprV::Proj(sn, i, Box::new(inst_core_spec(*x, subst, off))),
            _ => e,
        }
    }
}

/// Instantiation below `off` binders stays within machine integers.
pub open spec fn inst_core_ok(e: ExprV, subst: Seq<ExprV>, off: u64) -> bool
    decreases e,
{
    if erange(e) == 0 {
        true
    } else {
        match e {
            ExprV::BVar(i) => (i >= off && i - off < subst.len() && off > 0) ==> lift_ok(
                subst[i - off],
                0,
                off as u32,
            ),
            ExprV::App(f, a) => inst_core_ok(*f, subst, off) && inst_core_ok(*a, subst, off),
            ExprV::Lam(_, t, b, _) => inst_core_ok(*t, subst, off) && off + 1 <= u64::MAX
                && inst_core_ok(*b, subst, (off + 1) as u64),
            ExprV::ForallE(_, t, b, _) => inst_core_ok(*t, subst, off) && off + 1 <= u64::MAX
                && inst_core_ok(*b, subst, (off + 1) as u64),
            ExprV::LetE(_, t, v, b, _) => inst_core_ok(*t, subst, off) && inst_core_ok(
                *v,
                subst,
                off,
            ) && off + 1 <= u64::MAX && inst_core_ok(*b, subst, (off + 1) as u64),
            ExprV::MData(_, x) => inst_core_ok(*x, subst, off),
            ExprV::Proj(_, _, x) => inst_core_ok(*x, subst, off),
            _ => true,
        }
    }
}

/// `instantiate(e, subst)`: loose `BVar(i)` replaced by `subst[i]`.
pub open spec fn inst_spec(e: ExprV, subst: Seq<ExprV>) -> ExprV {
    if subst.len() == 0 || erange(e) == 0 {
        e
    } else {
        inst_core_spec(e, subst, 0)
    }
}

/// `instantiate(e, subst)` stays within machine integers.
pub open spec fn inst_ok(e: ExprV, subst: Seq<ExprV>) -> bool {
    subst.len() == 0 || erange(e) == 0 || inst_core_ok(e, subst, 0)
}

/// Loose `BVar(idx)` occurs in `e` below `off` binders (as `BVar(idx + off)`).
pub open spec fn has_lbv_spec(e: ExprV, idx: u64, off: u64) -> bool
    decreases e,
{
    if erange(e) == 0 {
        false
    } else {
        match e {
            ExprV::BVar(i) => i == idx + off,
            ExprV::App(f, a) => has_lbv_spec(*f, idx, off) || has_lbv_spec(*a, idx, off),
            ExprV::Lam(_, t, b, _) => has_lbv_spec(*t, idx, off) || has_lbv_spec(
                *b,
                idx,
                (off + 1) as u64,
            ),
            ExprV::ForallE(_, t, b, _) => has_lbv_spec(*t, idx, off) || has_lbv_spec(
                *b,
                idx,
                (off + 1) as u64,
            ),
            ExprV::LetE(_, t, v, b, _) => has_lbv_spec(*t, idx, off) || has_lbv_spec(*v, idx, off)
                || has_lbv_spec(*b, idx, (off + 1) as u64),
            ExprV::MData(_, x) => has_lbv_spec(*x, idx, off),
            ExprV::Proj(_, _, x) => has_lbv_spec(*x, idx, off),
            _ => false,
        }
    }
}

/// The occurrence check below `off` binders stays within machine integers.
pub open spec fn has_lbv_ok(e: ExprV, idx: u64, off: u64) -> bool
    decreases e,
{
    if erange(e) == 0 {
        true
    } else {
        match e {
            ExprV::BVar(_) => idx + off <= u64::MAX,
            ExprV::App(f, a) => has_lbv_ok(*f, idx, off) && has_lbv_ok(*a, idx, off),
            ExprV::Lam(_, t, b, _) => has_lbv_ok(*t, idx, off) && off + 1 <= u64::MAX && has_lbv_ok(
                *b,
                idx,
                (off + 1) as u64,
            ),
            ExprV::ForallE(_, t, b, _) => has_lbv_ok(*t, idx, off) && off + 1 <= u64::MAX
                && has_lbv_ok(*b, idx, (off + 1) as u64),
            ExprV::LetE(_, t, v, b, _) => has_lbv_ok(*t, idx, off) && has_lbv_ok(*v, idx, off) && off
                + 1 <= u64::MAX && has_lbv_ok(*b, idx, (off + 1) as u64),
            ExprV::MData(_, x) => has_lbv_ok(*x, idx, off),
            ExprV::Proj(_, _, x) => has_lbv_ok(*x, idx, off),
            _ => true,
        }
    }
}

/// `has_loose_bvar(e, idx)`.
pub open spec fn has_loose_bvar_spec(e: ExprV, idx: u32) -> bool {
    erange(e) > idx && has_lbv_spec(e, idx as u64, 0)
}

/// `head_beta_reduce(e)`: `(fun x => b) a` becomes `b[0 := a]`.
pub open spec fn head_beta_spec(e: ExprV) -> ExprV {
    match e {
        ExprV::App(f, a) => match *f {
            ExprV::Lam(_, _, b, _) => inst_spec(*b, seq![*a]),
            _ => e,
        },
        _ => e,
    }
}

/// `head_beta_reduce(e)` stays within machine integers.
pub open spec fn head_beta_ok(e: ExprV) -> bool {
    match e {
        ExprV::App(f, a) => match *f {
            ExprV::Lam(_, _, b, _) => inst_ok(*b, seq![*a]),
            _ => true,
        },
        _ => true,
    }
}

/// Each level of `ls` instantiated by `ps := us`.
pub open spec fn inst_levels(ls: Seq<LevelV>, ps: Seq<Seq<Limb>>, us: Seq<LevelV>) -> Seq<LevelV> {
    ls.map_values(|l: LevelV| spec_instantiate(l, ps, us)->0)
}

/// Every level of `ls` can be instantiated by `ps := us`.
pub open spec fn inst_levels_ok(ls: Seq<LevelV>, ps: Seq<Seq<Limb>>, us: Seq<LevelV>) -> bool {
    forall|i: int| 0 <= i < ls.len() ==> (spec_instantiate(#[trigger] ls[i], ps, us) is Some)
}

/// `e` with universe parameters `ps` replaced by `us` in every sort and constant.
pub open spec fn inst_lparams_spec(e: ExprV, ps: Seq<Seq<Limb>>, us: Seq<LevelV>) -> ExprV
    decreases e,
{
    if !crate::expr::e_has_univ_param(e) {
        e
    } else {
        match e {
            ExprV::Sort(l) => ExprV::Sort(spec_instantiate(l, ps, us)->0),
            ExprV::Const(n, ls) => ExprV::Const(n, inst_levels(ls, ps, us)),
            ExprV::App(f, a) => ExprV::App(
                Box::new(inst_lparams_spec(*f, ps, us)),
                Box::new(inst_lparams_spec(*a, ps, us)),
            ),
            ExprV::Lam(n, t, b, bi) => ExprV::Lam(
                n,
                Box::new(inst_lparams_spec(*t, ps, us)),
                Box::new(inst_lparams_spec(*b, ps, us)),
                bi,
            ),
            ExprV::ForallE(n, t, b, bi) => ExprV::ForallE(
                n,
                Box::new(inst_lparams_spec(*t, ps, us)),
                Box::new(inst_lparams_spec(*b, ps, us)),
                bi,
            ),
            ExprV::LetE(n, t, v, b, nd) => ExprV::LetE(
                n,
                Box::new(inst_lparams_spec(*t, ps, us)),
                Box::new(inst_lparams_spec(*v, ps, us)),
                Box::new(inst_lparams_spec(*b, ps, us)),
                nd,
            ),
            ExprV::MData(md, x) => ExprV::MData(md, Box::new(inst_lparams_spec(*x, ps, us))),
            ExprV::Proj(sn, i, x) => ExprV::Proj(sn, i, Box::new(inst_lparams_spec(*x, ps, us))),
            _ => e,
        }
    }
}

/// Every level that universe instantiation rebuilds stays within the depth limit.
pub open spec fn inst_lparams_ok(e: ExprV, ps: Seq<Seq<Limb>>, us: Seq<LevelV>) -> bool
    decreases e,
{
    if !crate::expr::e_has_univ_param(e) {
        true
    } else {
        match e {
            ExprV::Sort(l) => spec_instantiate(l, ps, us) is Some,
            ExprV::Const(_, ls) => inst_levels_ok(ls, ps, us),
            ExprV::App(f, a) => inst_lparams_ok(*f, ps, us) && inst_lparams_ok(*a, ps, us),
            ExprV::Lam(_, t, b, _) => inst_lparams_ok(*t, ps, us) && inst_lparams_ok(*b, ps, us),
            ExprV::ForallE(_, t, b, _) => inst_lparams_ok(*t, ps, us) && inst_lparams_ok(
                *b,
                ps,
                us,
            ),
            ExprV::LetE(_, t, v, b, _) => inst_lparams_ok(*t, ps, us) && inst_lparams_ok(*v, ps, us)
                && inst_lparams_ok(*b, ps, us),
            ExprV::MData(_, x) => inst_lparams_ok(*x, ps, us),
            ExprV::Proj(_, _, x) => inst_lparams_ok(*x, ps, us),
            _ => true,
        }
    }
}

/// The names of `ps`.
pub open spec fn names_view(ps: Seq<Name>) -> Seq<Seq<Limb>> {
    ps.map_values(|p: Name| p@)
}

impl Expr {
    fn lift_core(&self, s: u64, d: u64, offset: u64) -> (r: Expr)
        requires
            lift_core_ok(self@, s, d, offset),
        ensures
            r@ == lift_core_spec(self@, s, d, offset),
        decreases esize(self@),
    {
        if !self.has_loose_bvars() {
            return self.clone();
        }
        match self.kind() {
            ExprKind::BVar(idx) => {
                if *idx >= offset + s {
                    Expr::bvar(*idx + d)
                } else {
                    self.clone()
                }
            },
            ExprKind::App(f, a) => Expr::app(f.lift_core(s, d, offset), a.lift_core(s, d, offset)),
            ExprKind::Lam(n, dom, body, bi) => Expr::lam(
                n.clone(),
                dom.lift_core(s, d, offset),
                body.lift_core(s, d, offset + 1),
                *bi,
            ),
            ExprKind::ForallE(n, dom, body, bi) => Expr::forall_e(
                n.clone(),
                dom.lift_core(s, d, offset),
                body.lift_core(s, d, offset + 1),
                *bi,
            ),
            ExprKind::LetE(n, t, v, b, nd) => Expr::let_e(
                n.clone(),
                t.lift_core(s, d, offset),
                v.lift_core(s, d, offset),
                b.lift_core(s, d, offset + 1),
                *nd,
            ),
            ExprKind::MData(md, e) => Expr::mdata(clone_mdata(md), e.lift_core(s, d, offset)),
            ExprKind::Proj(sn, i, e) => Expr::proj(sn.clone(), *i, e.lift_core(s, d, offset)),
            _ => self.clone(),
        }
    }

    /// Lift loose bound variables `>= s` by `d`: `BVar(i)` becomes `BVar(i + d)`.
    pub fn lift_loose_bvars(&self, s: u32, d: u32) -> (r: Expr)
        requires
            lift_ok(self@, s, d),
        ensures
            r@ == lift_spec(self@, s, d),
    {
        if d == 0 || !self.has_loose_bvars() {
            return self.clone();
        }
        self.lift_core(s as u64, d as u64, 0)
    }

    fn lower_core(&self, s: u64, d: u64, offset: u64) -> (r: Expr)
        requires
            lower_core_ok(self@, s, d, offset),
        ensures
            r@ == lower_core_spec(self@, s, d, offset),
        decreases esize(self@),
    {
        if !self.has_loose_bvars() {
            return self.clone();
        }
        match self.kind() {
            ExprKind::BVar(idx) => {
                if *idx >= offset + s {
                    Expr::bvar(*idx - d)
                } else {
                    self.clone()
                }
            },
            ExprKind::App(f, a) => Expr::app(
                f.lower_core(s, d, offset),
                a.lower_core(s, d, offset),
            ),
            ExprKind::Lam(n, dom, body, bi) => Expr::lam(
                n.clone(),
                dom.lower_core(s, d, offset),
                body.lower_core(s, d, offset + 1),
                *bi,
            ),
            ExprKind::ForallE(n, dom, body, bi) => Expr::forall_e(
                n.clone(),
                dom.lower_core(s, d, offset),
                body.lower_core(s, d, offset + 1),
                *bi,
            ),
            ExprKind::LetE(n, t, v, b, nd) => Expr::let_e(
                n.clone(),
                t.lower_core(s, d, offset),
                v.lower_core(s, d, offset),
                b.lower_core(s, d, offset + 1),
                *nd,
            ),
            ExprKind::MData(md, e) => Expr::mdata(clone_mdata(md), e.lower_core(s, d, offset)),
            ExprKind::Proj(sn, i, e) => Expr::proj(sn.clone(), *i, e.lower_core(s, d, offset)),
            _ => self.clone(),
        }
    }

    /// Non-dependent arrow `a -> b`: `ForallE` with an anonymous binder over
    /// `b` lifted past it.
    pub fn arrow(a: Expr, b: Expr) -> (r: Expr)
        requires
            lift_ok(b@, 0, 1),
        ensures
            r@ == ExprV::ForallE(
                Seq::empty(),
                Box::new(a@),
                Box::new(lift_spec(b@, 0, 1)),
                crate::expr::BinderInfo::Default,
            ),
    {
        Expr::forall_e(
            Name::anonymous(),
            a,
            b.lift_loose_bvars(0, 1),
            crate::expr::BinderInfo::Default,
        )
    }

    /// Lower loose bound variables `>= s` by `d`.
    pub fn lower_loose_bvars(&self, s: u32, d: u32) -> (r: Expr)
        requires
            lower_ok(self@, s, d),
        ensures
            r@ == lower_spec(self@, s, d),
    {
        if d == 0 || !self.has_loose_bvars() {
            return self.clone();
        }
        self.lower_core(s as u64, d as u64, 0)
    }

    fn instantiate_core(&self, subst: &[Expr], offset: u64) -> (r: Expr)
        requires
            inst_core_ok(self@, exprs_view(subst@), offset),
        ensures
            r@ == inst_core_spec(self@, exprs_view(subst@), offset),
        decreases esize(self@),
    {
        if !self.has_loose_bvars() {
            return self.clone();
        }
        match self.kind() {
            ExprKind::BVar(idx) => {
                if *idx >= offset && (*idx - offset) < subst.len() as u64 {
                    let x = &subst[(*idx - offset) as usize];
                    if offset > 0 {
                        x.lift_loose_bvars(0, offset as u32)
                    } else {
                        x.clone()
                    }
                } else {
                    self.clone()
                }
            },
            ExprKind::App(f, a) => {
                let nf = f.instantiate_core(subst, offset);
                let na = a.instantiate_core(subst, offset);
                Expr::app(nf, na)
            },
            ExprKind::Lam(n, d, b, bi) => {
                let nd = d.instantiate_core(subst, offset);
                let nb = b.instantiate_core(subst, offset + 1);
                Expr::lam(n.clone(), nd, nb, *bi)
            },
            ExprKind::ForallE(n, d, b, bi) => {
                let nd = d.instantiate_core(subst, offset);
                let nb = b.instantiate_core(subst, offset + 1);
                Expr::forall_e(n.clone(), nd, nb, *bi)
            },
            ExprKind::LetE(n, t, v, b, nd) => {
                let nt = t.instantiate_core(subst, offset);
                let nv = v.instantiate_core(subst, offset);
                let nb = b.instantiate_core(subst, offset + 1);
                Expr::let_e(n.clone(), nt, nv, nb, *nd)
            },
            ExprKind::MData(md, e) => {
                let ne = e.instantiate_core(subst, offset);
                Expr::mdata(clone_mdata(md), ne)
            },
            ExprKind::Proj(sn, i, e) => {
                let ne = e.instantiate_core(subst, offset);
                Expr::proj(sn.clone(), *i, ne)
            },
            _ => self.clone(),
        }
    }

    /// Replace loose `BVar(i)` with `subst[i]`.
    pub fn instantiate(&self, subst: &[Expr]) -> (r: Expr)
        requires
            inst_ok(self@, exprs_view(subst@)),
        ensures
            r@ == inst_spec(self@, exprs_view(subst@)),
    {
        if subst.len() == 0 || !self.has_loose_bvars() {
            return self.clone();
        }
        self.instantiate_core(subst, 0)
    }

    /// Replace loose `BVar(0)` with `s`.
    pub fn instantiate1(&self, s: &Expr) -> (r: Expr)
        requires
            inst_ok(self@, seq![s@]),
        ensures
            r@ == inst_spec(self@, seq![s@]),
    {
        let v = vec![s.clone()];
        proof {
            assert(exprs_view(v@) == seq![s@]);
        }
        self.instantiate(v.as_slice())
    }

    /// Reverse instantiation: `subst[n-1]` replaces `BVar(0)`, `subst[n-2]`
    /// replaces `BVar(1)`, and so on.
    pub fn instantiate_rev(&self, subst: &[Expr]) -> (r: Expr)
        requires
            inst_ok(self@, exprs_view(subst@).reverse()),
        ensures
            r@ == inst_spec(self@, exprs_view(subst@).reverse()),
    {
        if subst.len() == 0 || !self.has_loose_bvars() {
            return self.clone();
        }
        let ghost sv = exprs_view(subst@);
        let mut rev: Vec<Expr> = Vec::new();
        let mut i: usize = subst.len();
        while i > 0
            invariant
                i <= subst@.len(),
                sv == exprs_view(subst@),
                exprs_view(rev@) == sv.subrange(i as int, sv.len() as int).reverse(),
            decreases i,
        {
            i = i - 1;
            proof {
                assert(sv.subrange(i as int, sv.len() as int).reverse() =~= sv.subrange(
                    i + 1,
                    sv.len() as int,
                ).reverse().push(sv[i as int]));
                assert(exprs_view(rev@.push(subst@[i as int])) == exprs_view(rev@).push(
                    subst@[i as int]@,
                ));
            }
            rev.push(subst[i].clone());
        }
        proof {
            assert(sv.subrange(0, sv.len() as int) == sv);
        }
        self.instantiate(rev.as_slice())
    }

    fn has_loose_bvar_aux(&self, idx: u64, offset: u64, found: &mut bool)
        requires
            has_lbv_ok(self@, idx, offset),
        ensures
            *final(found) == (*old(found) || has_lbv_spec(self@, idx, offset)),
        decreases esize(self@),
    {
        if *found || !self.has_loose_bvars() {
            return;
        }
        match self.kind() {
            ExprKind::BVar(i) => {
                if *i == idx + offset {
                    *found = true;
                }
            },
            ExprKind::App(f, a) => {
                f.has_loose_bvar_aux(idx, offset, found);
                a.has_loose_bvar_aux(idx, offset, found);
            },
            ExprKind::Lam(_, d, b, _) => {
                d.has_loose_bvar_aux(idx, offset, found);
                b.has_loose_bvar_aux(idx, offset + 1, found);
            },
            ExprKind::ForallE(_, d, b, _) => {
                d.has_loose_bvar_aux(idx, offset, found);
                b.has_loose_bvar_aux(idx, offset + 1, found);
            },
            ExprKind::LetE(_, t, v, b, _) => {
                t.has_loose_bvar_aux(idx, offset, found);
                v.has_loose_bvar_aux(idx, offset, found);
                b.has_loose_bvar_aux(idx, offset + 1, found);
            },
            ExprKind::MData(_, e) => {
                e.has_loose_bvar_aux(idx, offset, found);
            },
            ExprKind::Proj(_, _, e) => {
                e.has_loose_bvar_aux(idx, offset, found);
            },
            _ => {},
        }
    }

    /// Whether the loose bound variable `idx` occurs.
    pub fn has_loose_bvar(&self, idx: u32) -> (b: bool)
        requires
            erange(self@) > idx ==> has_lbv_ok(self@, idx as u64, 0),
        ensures
            b == has_loose_bvar_spec(self@, idx),
    {
        if self.loose_bvar_range() <= idx {
            return false;
        }
        let mut found = false;
        self.has_loose_bvar_aux(idx as u64, 0, &mut found);
        found
    }

    /// Head beta reduction: `(fun x => body) arg` becomes `body[0 := arg]`.
    pub fn head_beta_reduce(&self) -> (r: Expr)
        requires
            head_beta_ok(self@),
        ensures
            r@ == head_beta_spec(self@),
    {
        if let ExprKind::App(f, a) = self.kind() {
            if f.is_lam() {
                return f.binding_body().instantiate1(a);
            }
        }
        self.clone()
    }

    /// Whether this is a head beta redex `(fun x => b) a`.
    pub fn is_head_beta(&self) -> (b: bool)
        ensures
            b == (self@ matches ExprV::App(f, _) && (*f) is Lam),
    {
        match self.kind() {
            ExprKind::App(f, _) => f.is_lam(),
            _ => false,
        }
    }

    fn instantiate_level_params_core(&self, ps: &[Name], ls: &[Level]) -> (r: Expr)
        requires
            inst_lparams_ok(self@, names_view(ps@), levels_view(ls@)),
        ensures
            r@ == inst_lparams_spec(self@, names_view(ps@), levels_view(ls@)),
        decreases esize(self@),
    {
        if !self.has_univ_param() {
            return self.clone();
        }
        match self.kind() {
            ExprKind::Sort(l) => Expr::sort(l.instantiate(ps, ls)),
            ExprKind::Const(n, lvls) => {
                let ghost pv = names_view(ps@);
                let ghost uv = levels_view(ls@);
                let ghost lv = levels_view(lvls@);
                let mut new_lvls: Vec<Level> = Vec::new();
                let mut i: usize = 0;
                while i < lvls.len()
                    invariant
                        i <= lvls@.len(),
                        pv == names_view(ps@),
                        uv == levels_view(ls@),
                        lv == levels_view(lvls@),
                        inst_levels_ok(lv, pv, uv),
                        levels_view(new_lvls@) == inst_levels(lv, pv, uv).take(i as int),
                    decreases lvls@.len() - i,
                {
                    proof {
                        assert(lv[i as int] == lvls@[i as int]@);
                    }
                    let nl = lvls[i].instantiate(ps, ls);
                    proof {
                        assert(inst_levels(lv, pv, uv).take(i + 1) == inst_levels(lv, pv, uv).take(
                            i as int,
                        ).push(nl@));
                        assert(levels_view(new_lvls@.push(nl)) == levels_view(new_lvls@).push(nl@));
                    }
                    new_lvls.push(nl);
                    i = i + 1;
                }
                proof {
                    assert(inst_levels(lv, pv, uv).take(lvls@.len() as int) == inst_levels(
                        lv,
                        pv,
                        uv,
                    ));
                }
                Expr::const_(n.clone(), new_lvls)
            },
            ExprKind::App(f, a) => Expr::app(
                f.instantiate_level_params_core(ps, ls),
                a.instantiate_level_params_core(ps, ls),
            ),
            ExprKind::Lam(n, d, b, bi) => Expr::lam(
                n.clone(),
                d.instantiate_level_params_core(ps, ls),
                b.instantiate_level_params_core(ps, ls),
                *bi,
            ),
            ExprKind::ForallE(n, d, b, bi) => Expr::forall_e(
                n.clone(),
                d.instantiate_level_params_core(ps, ls),
                b.instantiate_level_params_core(ps, ls),
                *bi,
            ),
            ExprKind::LetE(n, t, v, b, nd) => Expr::let_e(
                n.clone(),
                t.instantiate_level_params_core(ps, ls),
                v.instantiate_level_params_core(ps, ls),
                b.instantiate_level_params_core(ps, ls),
                *nd,
            ),
            ExprKind::MData(md, e) => Expr::mdata(
                clone_mdata(md),
                e.instantiate_level_params_core(ps, ls),
            ),
            ExprKind::Proj(sn, i, e) => Expr::proj(
                sn.clone(),
                *i,
                e.instantiate_level_params_core(ps, ls),
            ),
            _ => self.clone(),
        }
    }

    /// Instantiate the universe parameters `ps` by `ls` throughout.
    pub fn instantiate_level_params(&self, ps: &[Name], ls: &[Level]) -> (r: Expr)
        requires
            ps@.len() > 0 ==> inst_lparams_ok(self@, names_view(ps@), levels_view(ls@)),
        ensures
            r@ == (if ps@.len() == 0 {
                self@
            } else {
                inst_lparams_spec(self@, names_view(ps@), levels_view(ls@))
            }),
    {
        if ps.len() == 0 || !self.has_univ_param() {
            return self.clone();
        }
        self.instantiate_level_params_core(ps, ls)
    }
}

/// `r` is what replacing by `f` makes of `e`: either `f` gave `r` for `e`,
/// or `f` gave nothing for `e` and `r` has the top constructor of `e` with
/// each sub-expression replaced in the same way.
pub open spec fn replaced_by<F: Fn(&Expr) -> Option<Expr>>(f: F, e: Expr, r: Expr) -> bool
    decreases esize(e@),
{
    proof {
        e.lemma_kind_view();
    }
    f.ensures((&e,), Some(r)) || (f.ensures((&e,), None::<Expr>) && match (
        e.kind_spec(),
        r.kind_spec(),
    ) {
        (ExprKind::App(f1, a1), ExprKind::App(f2, a2)) => replaced_by(f, f1, f2) && replaced_by(
            f,
            a1,
            a2,
        ),
        (ExprKind::Lam(n1, d1, b1, i1), ExprKind::Lam(n2, d2, b2, i2)) => n1@ == n2@ && i1 == i2
            && replaced_by(f, d1, d2) && replaced_by(f, b1, b2),
        (ExprKind::ForallE(n1, d1, b1, i1), ExprKind::ForallE(n2, d2, b2, i2)) => n1@ == n2@ && i1
            == i2 && replaced_by(f, d1, d2) && replaced_by(f, b1, b2),
        (ExprKind::LetE(n1, t1, v1, b1, k1), ExprKind::LetE(n2, t2, v2, b2, k2)) => n1@ == n2@ && k1
            == k2 && replaced_by(f, t1, t2) && replaced_by(f, v1, v2) && replaced_by(f, b1, b2),
        (ExprKind::MData(m1, x1), ExprKind::MData(m2, x2)) => crate::expr::mdata_view(m1@)
            == crate::expr::mdata_view(m2@) && replaced_by(f, x1, x2),
        (ExprKind::Proj(s1, j1, x1), ExprKind::Proj(s2, j2, x2)) => s1@ == s2@ && j1 == j2
            && replaced_by(f, x1, x2),
        _ => r@ == e@,
    })
}

impl Expr {
    /// Apply `f` to each sub-expression from the root down; where it returns
    /// `Some`, that expression replaces the subterm, and elsewhere the node is
    /// rebuilt from its replaced children.
    pub fn replace<F: Fn(&Expr) -> Option<Expr>>(&self, f: &F) -> (r: Expr)
        requires
            forall|a: &Expr| #[trigger] f.requires((a,)),
        ensures
            replaced_by(*f, *self, r),
        decreases esize(self@),
    {
        proof {
            self.lemma_kind_view();
        }
        if let Some(r) = f(self) {
            return r;
        }
        match self.kind() {
            ExprKind::App(fun, arg) => {
                let nf = fun.replace(f);
                let na = arg.replace(f);
                Expr::app(nf, na)
            },
            ExprKind::Lam(n, d, b, bi) => Expr::lam(n.clone(), d.replace(f), b.replace(f), *bi),
            ExprKind::ForallE(n, d, b, bi) => Expr::forall_e(
                n.clone(),
                d.replace(f),
                b.replace(f),
                *bi,
            ),
            ExprKind::LetE(n, t, v, b, nd) => Expr::let_e(
                n.clone(),
                t.replace(f),
                v.replace(f),
                b.replace(f),
                *nd,
            ),
            ExprKind::MData(md, e) => Expr::mdata(clone_mdata(md), e.replace(f)),
            ExprKind::Proj(sn, i, e) => Expr::proj(sn.clone(), *i, e.replace(f)),
            _ => self.clone(),
        }
    }

    /// Visit each sub-expression from the root down; returning `false` from
    /// `f` stops the descent below that sub-expression.
    pub fn for_each<F: FnMut(&Expr) -> bool>(&self, f: &mut F)
        requires
            forall|g: F, a: &Expr| #[trigger] call_requires(g, (a,)),
        decreases esize(self@),
    {
        if !f(self) {
            return;
        }
        match self.kind() {
            ExprKind::App(fun, arg) => {
                fun.for_each(f);
                arg.for_each(f);
            },
            ExprKind::Lam(_, d, b, _) => {
                d.for_each(f);
                b.for_each(f);
            },
            ExprKind::ForallE(_, d, b, _) => {
                d.for_each(f);
                b.for_each(f);
            },
            ExprKind::LetE(_, t, v, b, _) => {
                t.for_each(f);
                v.for_each(f);
                b.for_each(f);
            },
            ExprKind::MData(_, e) => e.for_each(f),
            ExprKind::Proj(_, _, e) => e.for_each(f),
            _ => {},
        }
    }
}

/// A copy of a metadata map.
pub fn clone_mdata(md: &crate::expr::MData) -> (r: crate::expr::MData)
    ensures
        crate::expr::mdata_view(r@) == crate::expr::mdata_view(md@),
{
    let mut out: crate::expr::MData = Vec::new();
    let mut i: usize = 0;
    while i < md.len()
        invariant
            i <= md@.len(),
            crate::expr::mdata_view(out@) == crate::expr::mdata_view(md@).take(i as int),
        decreases md@.len() - i,
    {
        let (n, v) = &md[i];
        let p = (n.clone(), v.clone());
        proof {
            assert(crate::expr::mdata_view(out@.push(p)) == crate::expr::mdata_view(out@).push(
                (p.0@, p.1@),
            ));
            assert(crate::expr::mdata_view(md@).take(i + 1) == crate::expr::mdata_view(md@).take(
                i as int,
            ).push((md@[i as int].0@, md@[i as int].1@)));
        }
        out.push(p);
        i = i + 1;
    }
    proof {
        assert(crate::expr::mdata_view(md@).take(md@.len() as int) == crate::expr::mdata_view(md@));
    }
    out
}

} // verus!
