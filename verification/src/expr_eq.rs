//! Equality of expressions (structural, up to binder names, binder info and
//! metadata, with the cached hash deciding quickly) and abstraction of
//! subterms into bound variables.
use vstd::prelude::*;

use crate::expr::{ehash, esize, exprs_view, levels_view, Expr, ExprKind, ExprV};
use crate::expr_subst::clone_mdata;
use crate::level::{levels_equal, Level};
use crate::literal::literals_equal;
use crate::name::names_equal;

verus! {

/// Equality of expressions: equal hashes and equal structure, where binder
/// names, binder info, the `let` non-dependency flag and metadata are ignored.
pub open spec fn expr_eq(a: ExprV, b: ExprV) -> bool
    decreases a,
{
    ehash(a) == ehash(b) && match (a, b) {
        (ExprV::BVar(x), ExprV::BVar(y)) => x == y,
        (ExprV::FVar(x), ExprV::FVar(y)) => x == y,
        (ExprV::MVar(x), ExprV::MVar(y)) => x == y,
        (ExprV::Sort(x), ExprV::Sort(y)) => x == y,
        (ExprV::Const(n1, l1), ExprV::Const(n2, l2)) => n1 == n2 && l1 == l2,
        (ExprV::App(f1, a1), ExprV::App(f2, a2)) => expr_eq(*f1, *f2) && expr_eq(*a1, *a2),
        (ExprV::Lam(_, d1, b1, _), ExprV::Lam(_, d2, b2, _)) => expr_eq(*d1, *d2) && expr_eq(
            *b1,
            *b2,
        ),
        (ExprV::ForallE(_, d1, b1, _), ExprV::ForallE(_, d2, b2, _)) => expr_eq(*d1, *d2)
            && expr_eq(*b1, *b2),
        (ExprV::LetE(_, t1, v1, b1, _), ExprV::LetE(_, t2, v2, b2, _)) => expr_eq(*t1, *t2)
            && expr_eq(*v1, *v2) && expr_eq(*b1, *b2),
        (ExprV::Lit(x), ExprV::Lit(y)) => x == y,
        (ExprV::MData(_, e1), ExprV::MData(_, e2)) => expr_eq(*e1, *e2),
        (ExprV::Proj(s1, i1, e1), ExprV::Proj(s2, i2, e2)) => s1 == s2 && i1 == i2 && expr_eq(
            *e1,
            *e2,
        ),
        _ => false,
    }
}

/// Every expression equals itself.
pub proof fn lemma_expr_eq_refl(a: ExprV)
    ensures
        expr_eq(a, a),
    decreases a,
{
    match a {
        ExprV::App(f, x) => {
            lemma_expr_eq_refl(*f);
            lemma_expr_eq_refl(*x);
        },
        ExprV::Lam(_, d, b, _) => {
            lemma_expr_eq_refl(*d);
            lemma_expr_eq_refl(*b);
        },
        ExprV::ForallE(_, d, b, _) => {
            lemma_expr_eq_refl(*d);
            lemma_expr_eq_refl(*b);
        },
        ExprV::LetE(_, t, v, b, _) => {
            lemma_expr_eq_refl(*t);
            lemma_expr_eq_refl(*v);
            lemma_expr_eq_refl(*b);
        },
        ExprV::MData(_, x) => lemma_expr_eq_refl(*x),
        ExprV::Proj(_, _, x) => lemma_expr_eq_refl(*x),
        _ => {},
    }
}

/// Whether two lists of levels are equal.
fn level_lists_equal(a: &[Level], b: &[Level]) -> (r: bool)
    ensures
        r == (levels_view(a@) == levels_view(b@)),
{
    if a.len() != b.len() {
        return false;
    }
    let mut i: usize = 0;
    while i < a.len()
        invariant
            a@.len() == b@.len(),
            i <= a@.len(),
            forall|j: int| 0 <= j < i ==> a@[j]@ == b@[j]@,
        decreases a@.len() - i,
    {
        if !levels_equal(&a[i], &b[i]) {
            proof {
                assert(levels_view(a@)[i as int] != levels_view(b@)[i as int]);
            }
            return false;
        }
        i = i + 1;
    }
    proof {
        assert(levels_view(a@) =~= levels_view(b@));
    }
    true
}

/// Structural comparison of two expressions (the hash already matched).
fn structural_eq(a: &Expr, b: &Expr) -> (r: bool)
    requires
        ehash(a@) == ehash(b@),
    ensures
        r == expr_eq(a@, b@),
    decreases esize(a@), 0int,
{
    match (a.kind(), b.kind()) {
        (ExprKind::BVar(x), ExprKind::BVar(y)) => *x == *y,
        (ExprKind::FVar(x), ExprKind::FVar(y)) => names_equal(x, y),
        (ExprKind::MVar(x), ExprKind::MVar(y)) => names_equal(x, y),
        (ExprKind::Sort(x), ExprKind::Sort(y)) => levels_equal(x, y),
        (ExprKind::Const(n1, l1), ExprKind::Const(n2, l2)) => names_equal(n1, n2)
            && level_lists_equal(l1.as_slice(), l2.as_slice()),
        (ExprKind::App(f1, a1), ExprKind::App(f2, a2)) => exprs_equal(f1, f2) && exprs_equal(a1, a2),
        (ExprKind::Lam(_, d1, b1, _), ExprKind::Lam(_, d2, b2, _)) => exprs_equal(d1, d2)
            && exprs_equal(b1, b2),
        (ExprKind::ForallE(_, d1, b1, _), ExprKind::ForallE(_, d2, b2, _)) => exprs_equal(d1, d2)
            && exprs_equal(b1, b2),
        (ExprKind::LetE(_, t1, v1, b1, _), ExprKind::LetE(_, t2, v2, b2, _)) => exprs_equal(t1, t2)
            && exprs_equal(v1, v2) && exprs_equal(b1, b2),
        (ExprKind::Lit(x), ExprKind::Lit(y)) => literals_equal(x, y),
        (ExprKind::MData(_, e1), ExprKind::MData(_, e2)) => exprs_equal(e1, e2),
        (ExprKind::Proj(s1, i1, e1), ExprKind::Proj(s2, i2, e2)) => names_equal(s1, s2) && *i1
            == *i2 && exprs_equal(e1, e2),
        _ => false,
    }
}

/// Equality of expressions: the same allocation, or equal hashes and equal
/// structure.
pub fn exprs_equal(a: &Expr, b: &Expr) -> (r: bool)
    ensures
        r == expr_eq(a@, b@),
    decreases esize(a@), 1int,
{
    if Expr::same_node(a, b) {
        proof {
            lemma_expr_eq_refl(a@);
        }
        return true;
    }
    if a.hash() != b.hash() {
        return false;
    }
    structural_eq(a, b)
}

impl PartialEq for Expr {
    fn eq(&self, other: &Self) -> (r: bool) {
        exprs_equal(self, other)
    }
}

impl vstd::std_specs::cmp::PartialEqSpecImpl for Expr {
    open spec fn obeys_eq_spec() -> bool {
        true
    }

    open spec fn eq_spec(&self, other: &Self) -> bool {
        expr_eq(self@, other@)
    }
}

impl Eq for Expr {

}

/// The first position `i >= k` with `s[i]` equal to `e`.
pub open spec fn first_equal_from(e: ExprV, s: Seq<ExprV>, k: int) -> Option<int>
    decreases s.len() - k,
{
    if k < 0 || k >= s.len() {
        None
    } else if expr_eq(e, s[k]) {
        Some(k)
    } else {
        first_equal_from(e, s, k + 1)
    }
}

/// `e` with every subterm equal to some `s[i]` replaced by `BVar(i + off)`
/// (the first such `i`), below `off` binders.
pub open spec fn abstract_core_spec(e: ExprV, s: Seq<ExprV>, off: u64) -> ExprV
    decreases e,
{
    match first_equal_from(e, s, 0) {
        Some(i) => ExprV::BVar((i + off) as u64),
        None => match e {
            ExprV::App(f, a) => ExprV::App(
                Box::new(abstract_core_spec(*f, s, off)),
                Box::new(abstract_core_spec(*a, s, off)),
            ),
            ExprV::Lam(n, d, b, bi) => ExprV::Lam(
                n,
                Box::new(abstract_core_spec(*d, s, off)),
                Box::new(abstract_core_spec(*b, s, (off + 1) as u64)),
                bi,
            ),
            ExprV::ForallE(n, d, b, bi) => ExprV::ForallE(
                n,
                Box::new(abstract_core_spec(*d, s, off)),
                Box::new(abstract_core_spec(*b, s, (off + 1) as u64)),
                bi,
            ),
            ExprV::LetE(n, t, v, b, nd) => ExprV::LetE(
                n,
                Box::new(abstract_core_spec(*t, s, off)),
                Box::new(abstract_core_spec(*v, s, off)),
                Box::new(abstract_core_spec(*b, s, (off + 1) as u64)),
                nd,
            ),
            ExprV::MData(md, x) => ExprV::MData(md, Box::new(abstract_core_spec(*x, s, off))),
            ExprV::Proj(sn, i, x) => ExprV::Proj(sn, i, Box::new(abstract_core_spec(*x, s, off))),
            _ => e,
        },
    }
}

/// Abstraction below `off` binders stays within machine integers.
pub open spec fn abstract_core_ok(e: ExprV, s: Seq<ExprV>, off: u64) -> bool
    decreases e,
{
    match first_equal_from(e, s, 0) {
        Some(i) => i + off <= u64::MAX,
        None => match e {
            ExprV::App(f, a) => abstract_core_ok(*f, s, off) && abstract_core_ok(*a, s, off),
            ExprV::Lam(_, d, b, _) => abstract_core_ok(*d, s, off) && off + 1 <= u64::MAX
                && abstract_core_ok(*b, s, (off + 1) as u64),
            ExprV::ForallE(_, d, b, _) => abstract_core_ok(*d, s, off) && off + 1 <= u64::MAX
                && abstract_core_ok(*b, s, (off + 1) as u64),
            ExprV::LetE(_, t, v, b, _) => abstract_core_ok(*t, s, off) && abstract_core_ok(*v, s, off)
                && off + 1 <= u64::MAX && abstract_core_ok(*b, s, (off + 1) as u64),
            ExprV::MData(_, x) => abstract_core_ok(*x, s, off),
            ExprV::Proj(_, _, x) => abstract_core_ok(*x, s, off),
            _ => true,
        },
    }
}

/// `abstract_(e, s)`: occurrences of `s[i]` become `BVar(i)`.
pub open spec fn abstract_spec(e: ExprV, s: Seq<ExprV>) -> ExprV {
    if s.len() == 0 {
        e
    } else {
        abstract_core_spec(e, s, 0)
    }
}

/// The first position of an element of `s` equal to `e`.
pub(crate) fn find_equal(e: &Expr, s: &[Expr]) -> (r: Option<usize>)
    ensures
        r matches Some(i) ==> first_equal_from(e@, exprs_view(s@), 0) == Some(i as int),
        r is None ==> first_equal_from(e@, exprs_view(s@), 0) is None,
{
    let ghost sv = exprs_view(s@);
    let mut i: usize = 0;
    while i < s.len()
        invariant
            i <= s@.len(),
            sv == exprs_view(s@),
            first_equal_from(e@, sv, 0) == first_equal_from(e@, sv, i as int),
        decreases s@.len() - i,
    {
        let hit = exprs_equal(e, &s[i]);
        proof {
            assert(sv[i as int] == s@[i as int]@);
        }
        if hit {
            return Some(i);
        }
        i = i + 1;
    }
    None
}

impl Expr {
    fn abstract_core(&self, s: &[Expr], offset: u64) -> (r: Expr)
        requires
            abstract_core_ok(self@, exprs_view(s@), offset),
        ensures
            r@ == abstract_core_spec(self@, exprs_view(s@), offset),
        decreases esize(self@),
    {
        if let Some(i) = find_equal(self, s) {
            return Expr::bvar(i as u64 + offset);
        }
        match self.kind() {
            ExprKind::App(f, a) => Expr::app(f.abstract_core(s, offset), a.abstract_core(s, offset)),
            ExprKind::Lam(n, d, b, bi) => Expr::lam(
                n.clone(),
                d.abstract_core(s, offset),
                b.abstract_core(s, offset + 1),
                *bi,
            ),
            ExprKind::ForallE(n, d, b, bi) => Expr::forall_e(
                n.clone(),
                d.abstract_core(s, offset),
                b.abstract_core(s, offset + 1),
                *bi,
            ),
            ExprKind::LetE(n, t, v, b, nd) => Expr::let_e(
                n.clone(),
                t.abstract_core(s, offset),
                v.abstract_core(s, offset),
                b.abstract_core(s, offset + 1),
                *nd,
            ),
            ExprKind::MData(md, e) => Expr::mdata(clone_mdata(md), e.abstract_core(s, offset)),
            ExprKind::Proj(sn, i, e) => Expr::proj(sn.clone(), *i, e.abstract_core(s, offset)),
            _ => self.clone(),
        }
    }

    /// Abstract: replace occurrences of `s[i]` with `BVar(i)`.
    pub fn abstract_(&self, s: &[Expr]) -> (r: Expr)
        requires
            s@.len() > 0 ==> abstract_core_ok(self@, exprs_view(s@), 0),
        ensures
            r@ == abstract_spec(self@, exprs_view(s@)),
    {
        if s.len() == 0 {
            return self.clone();
        }
        self.abstract_core(s, 0)
    }
}

} // verus!
