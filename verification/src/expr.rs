//! Expressions of Lean 4's type theory, with cached metadata (hash, depth,
//! occurrence flags and the range of loose bound variables).
use std::sync::Arc;
use vstd::prelude::*;

use crate::level::{level_hash, mix32, Level, LevelV};
use crate::literal::{le_bytes, LitV, Literal};
use crate::name::{spec_name_hash, Limb, Name};

verus! {

/// Binder annotation info.
#[derive(Clone, Copy, Debug, PartialEq, Eq, Structural, Hash)]
pub enum BinderInfo {
    Default,
    Implicit,
    StrictImplicit,
    InstImplicit,
}

/// A metadata value as a mathematical value.
pub enum MDataV {
    Bool(bool),
    Name(Seq<Limb>),
    Nat(u64),
    Str(Seq<char>),
}

/// A metadata value.
#[derive(Debug)]
pub enum MDataValue {
    Bool(bool),
    Name(Name),
    Nat(u64),
    String(String),
}

impl View for MDataValue {
    type V = MDataV;

    open spec fn view(&self) -> MDataV {
        match self {
            MDataValue::Bool(b) => MDataV::Bool(*b),
            MDataValue::Name(n) => MDataV::Name(n@),
            MDataValue::Nat(n) => MDataV::Nat(*n),
            MDataValue::String(s) => MDataV::Str(s@),
        }
    }
}

impl Clone for MDataValue {
    fn clone(&self) -> (r: Self)
        ensures
            r@ == self@,
    {
        match self {
            MDataValue::Bool(b) => MDataValue::Bool(*b),
            MDataValue::Name(n) => MDataValue::Name(n.clone()),
            MDataValue::Nat(n) => MDataValue::Nat(*n),
            MDataValue::String(s) => MDataValue::String(s.clone()),
        }
    }
}

/// Metadata key-value map (a list of `(Name, value)` pairs).
pub type MData = Vec<(Name, MDataValue)>;

/// The mathematical value of a metadata map.
pub open spec fn mdata_view(md: Seq<(Name, MDataValue)>) -> Seq<(Seq<Limb>, MDataV)> {
    md.map_values(|p: (Name, MDataValue)| (p.0@, p.1@))
}

/// An expression as a mathematical value.
pub enum ExprV {
    BVar(u64),
    FVar(Seq<Limb>),
    MVar(Seq<Limb>),
    Sort(LevelV),
    Const(Seq<Limb>, Seq<LevelV>),
    App(Box<ExprV>, Box<ExprV>),
    Lam(Seq<Limb>, Box<ExprV>, Box<ExprV>, BinderInfo),
    ForallE(Seq<Limb>, Box<ExprV>, Box<ExprV>, BinderInfo),
    LetE(Seq<Limb>, Box<ExprV>, Box<ExprV>, Box<ExprV>, bool),
    Lit(LitV),
    MData(Seq<(Seq<Limb>, MDataV)>, Box<ExprV>),
    Proj(Seq<Limb>, u64, Box<ExprV>),
}

/// Number of nodes of an expression.
pub open spec fn esize(e: ExprV) -> nat
    decreases e,
{
    match e {
        ExprV::App(f, a) => 1 + esize(*f) + esize(*a),
        ExprV::Lam(_, t, b, _) => 1 + esize(*t) + esize(*b),
        ExprV::ForallE(_, t, b, _) => 1 + esize(*t) + esize(*b),
        ExprV::LetE(_, t, v, b, _) => 1 + esize(*t) + esize(*v) + esize(*b),
        ExprV::MData(_, x) => 1 + esize(*x),
        ExprV::Proj(_, _, x) => 1 + esize(*x),
        _ => 1,
    }
}

/// The hash of a machine integer: `(n as u32) * 2654435761 ^ (n >> 32)`, 32-bit.
pub open spec fn hash_u64(n: u64) -> u32 {
    vstd::wrapping::u32_specs::wrapping_mul(n as u32, 2654435761u32) ^ ((n >> 32u64) as u32)
}

/// The 32-bit hash of a name.
pub open spec fn name_hash32(n: Seq<Limb>) -> u32 {
    spec_name_hash(n) as u32
}

/// The hashes of `ls` folded with `mix32`, starting from 0.
pub open spec fn hash_levels(ls: Seq<LevelV>) -> u32
    decreases ls.len(),
{
    if ls.len() == 0 {
        0
    } else {
        mix32(hash_levels(ls.drop_last()), level_hash(ls.last()))
    }
}

/// The bytes `bs` folded into `seed` with `mix32`.
pub open spec fn bytes_hash(seed: u32, bs: Seq<u8>) -> u32
    decreases bs.len(),
{
    if bs.len() == 0 {
        seed
    } else {
        mix32(bytes_hash(seed, bs.drop_last()), bs.last() as u32)
    }
}

/// The hash of a literal.
pub open spec fn lit_hash(l: LitV) -> u32 {
    match l {
        LitV::Nat(n) => bytes_hash(41, le_bytes(n)),
        LitV::Str(s) => bytes_hash(43, vstd::utf8::encode_utf8(s)),
    }
}

/// The cached hash of an expression.
pub open spec fn ehash(e: ExprV) -> u32
    decreases e,
{
    match e {
        ExprV::BVar(i) => mix32(7, hash_u64(i)),
        ExprV::FVar(n) => mix32(11, name_hash32(n)),
        ExprV::MVar(n) => mix32(13, name_hash32(n)),
        ExprV::Sort(l) => mix32(17, level_hash(l)),
        ExprV::Const(n, ls) => mix32(mix32(19, name_hash32(n)), hash_levels(ls)),
        ExprV::App(f, a) => mix32(mix32(23, ehash(*f)), ehash(*a)),
        ExprV::Lam(n, t, b, _) => mix32(mix32(mix32(29, name_hash32(n)), ehash(*t)), ehash(*b)),
        ExprV::ForallE(n, t, b, _) => mix32(
            mix32(mix32(31, name_hash32(n)), ehash(*t)),
            ehash(*b),
        ),
        ExprV::LetE(n, t, v, b, _) => mix32(
            mix32(mix32(mix32(37, name_hash32(n)), ehash(*t)), ehash(*v)),
            ehash(*b),
        ),
        ExprV::Lit(l) => lit_hash(l),
        ExprV::MData(_, x) => mix32(47, ehash(*x)),
        ExprV::Proj(s, i, x) => mix32(mix32(mix32(53, name_hash32(s)), hash_u64(i)), ehash(*x)),
    }
}

/// `x + 1`, saturating at 255.
pub open spec fn sat_succ8(x: u8) -> u8 {
    if x == 255 {
        255
    } else {
        (x + 1) as u8
    }
}

/// The larger of two bytes.
pub open spec fn max8(a: u8, b: u8) -> u8 {
    if a >= b {
        a
    } else {
        b
    }
}

/// The cached approximate depth of an expression (saturating at 255).
pub open spec fn edepth(e: ExprV) -> u8
    decreases e,
{
    match e {
        ExprV::App(f, a) => sat_succ8(max8(edepth(*f), edepth(*a))),
        ExprV::Lam(_, t, b, _) => sat_succ8(max8(edepth(*t), edepth(*b))),
        ExprV::ForallE(_, t, b, _) => sat_succ8(max8(edepth(*t), edepth(*b))),
        ExprV::LetE(_, t, v, b, _) => sat_succ8(max8(max8(edepth(*t), edepth(*v)), edepth(*b))),
        ExprV::MData(_, x) => edepth(*x),
        ExprV::Proj(_, _, x) => sat_succ8(edepth(*x)),
        _ => 0,
    }
}

/// A free variable occurs in the expression.
pub open spec fn e_has_fvar(e: ExprV) -> bool
    decreases e,
{
    match e {
        ExprV::FVar(_) => true,
        ExprV::App(f, a) => e_has_fvar(*f) || e_has_fvar(*a),
        ExprV::Lam(_, t, b, _) => e_has_fvar(*t) || e_has_fvar(*b),
        ExprV::ForallE(_, t, b, _) => e_has_fvar(*t) || e_has_fvar(*b),
        ExprV::LetE(_, t, v, b, _) => e_has_fvar(*t) || e_has_fvar(*v) || e_has_fvar(*b),
        ExprV::MData(_, x) => e_has_fvar(*x),
        ExprV::Proj(_, _, x) => e_has_fvar(*x),
        _ => false,
    }
}

/// An expression metavariable occurs in the expression.
pub open spec fn e_has_expr_mvar(e: ExprV) -> bool
    decreases e,
{
    match e {
        ExprV::MVar(_) => true,
        ExprV::App(f, a) => e_has_expr_mvar(*f) || e_has_expr_mvar(*a),
        ExprV::Lam(_, t, b, _) => e_has_expr_mvar(*t) || e_has_expr_mvar(*b),
        ExprV::ForallE(_, t, b, _) => e_has_expr_mvar(*t) || e_has_expr_mvar(*b),
        ExprV::LetE(_, t, v, b, _) => e_has_expr_mvar(*t) || e_has_expr_mvar(*v)
            || e_has_expr_mvar(*b),
        ExprV::MData(_, x) => e_has_expr_mvar(*x),
        ExprV::Proj(_, _, x) => e_has_expr_mvar(*x),
        _ => false,
    }
}

/// Some level of `ls` has a metavariable.
pub open spec fn levels_have_mvar(ls: Seq<LevelV>) -> bool {
    exists|i: int| 0 <= i < ls.len() && crate::level::has_mvar(#[trigger] ls[i])
}

/// Some level of `ls` has a parameter.
pub open spec fn levels_have_param(ls: Seq<LevelV>) -> bool {
    exists|i: int| 0 <= i < ls.len() && crate::level::has_param(#[trigger] ls[i])
}

/// A universe metavariable occurs in the expression.
pub open spec fn e_has_univ_mvar(e: ExprV) -> bool
    decreases e,
{
    match e {
        ExprV::Sort(l) => crate::level::has_mvar(l),
        ExprV::Const(_, ls) => levels_have_mvar(ls),
        ExprV::App(f, a) => e_has_univ_mvar(*f) || e_has_univ_mvar(*a),
        ExprV::Lam(_, t, b, _) => e_has_univ_mvar(*t) || e_has_univ_mvar(*b),
        ExprV::ForallE(_, t, b, _) => e_has_univ_mvar(*t) || e_has_univ_mvar(*b),
        ExprV::LetE(_, t, v, b, _) => e_has_univ_mvar(*t) || e_has_univ_mvar(*v)
            || e_has_univ_mvar(*b),
        ExprV::MData(_, x) => e_has_univ_mvar(*x),
        ExprV::Proj(_, _, x) => e_has_univ_mvar(*x),
        _ => false,
    }
}

/// A universe parameter occurs in the expression.
pub open spec fn e_has_univ_param(e: ExprV) -> bool
    decreases e,
{
    match e {
        ExprV::Sort(l) => crate::level::has_param(l),
        ExprV::Const(_, ls) => levels_have_param(ls),
        ExprV::App(f, a) => e_has_univ_param(*f) || e_has_univ_param(*a),
        ExprV::Lam(_, t, b, _) => e_has_univ_param(*t) || e_has_univ_param(*b),
        ExprV::ForallE(_, t, b, _) => e_has_univ_param(*t) || e_has_univ_param(*b),
        ExprV::LetE(_, t, v, b, _) => e_has_univ_param(*t) || e_has_univ_param(*v)
            || e_has_univ_param(*b),
        ExprV::MData(_, x) => e_has_univ_param(*x),
        ExprV::Proj(_, _, x) => e_has_univ_param(*x),
        _ => false,
    }
}

/// `x + 1`, saturating at `u32::MAX`.
pub open spec fn sat_succ32(x: u32) -> u32 {
    if x == u32::MAX {
        u32::MAX
    } else {
        (x + 1) as u32
    }
}

/// `x - 1`, stopping at 0.
pub open spec fn pred32(x: u32) -> u32 {
    if x > 0 {
        (x - 1) as u32
    } else {
        0
    }
}

/// The larger of two 32-bit numbers.
pub open spec fn max32(a: u32, b: u32) -> u32 {
    if a >= b {
        a
    } else {
        b
    }
}

/// The cached loose bound variable range: one more than the largest loose
/// index (indices taken modulo 2^32, saturating), 0 for closed expressions.
pub open spec fn erange(e: ExprV) -> u32
    decreases e,
{
    match e {
        ExprV::BVar(i) => sat_succ32(i as u32),
        ExprV::App(f, a) => max32(erange(*f), erange(*a)),
        ExprV::Lam(_, t, b, _) => max32(erange(*t), pred32(erange(*b))),
        ExprV::ForallE(_, t, b, _) => max32(erange(*t), pred32(erange(*b))),
        ExprV::LetE(_, t, v, b, _) => max32(max32(erange(*t), erange(*v)), pred32(erange(*b))),
        ExprV::MData(_, x) => erange(*x),
        ExprV::Proj(_, _, x) => erange(*x),
        _ => 0,
    }
}

/// The mathematical values of a list of expressions.
pub open spec fn exprs_view(es: Seq<Expr>) -> Seq<ExprV> {
    es.map_values(|e: Expr| e@)
}

/// `f` applied to `args` one after the other.
pub open spec fn mk_app_spec(f: ExprV, args: Seq<ExprV>) -> ExprV
    decreases args.len(),
{
    if args.len() == 0 {
        f
    } else {
        ExprV::App(Box::new(mk_app_spec(f, args.drop_last())), Box::new(args.last()))
    }
}

/// Std `Arc::clone`: a new handle to the same allocation.
#[verifier::external_body]
fn share<T>(a: &Arc<T>) -> (res: Arc<T>)
    ensures
        res == *a,
{
    Arc::clone(a)
}

/// Expression of Lean 4's type theory. Each `Expr` caches its hash, depth,
/// occurrence flags and loose bound variable range.
#[derive(Debug)]
pub struct Expr {
    inner: Arc<ExprInner>,
}

#[derive(Debug)]
struct ExprInner {
    kind: ExprKind,
    data: ExprData,
}

/// Cached metadata for an expression.
#[derive(Debug)]
struct ExprData {
    hash: u32,
    approx_depth: u8,
    has_fvar: bool,
    has_expr_mvar: bool,
    has_univ_mvar: bool,
    has_univ_param: bool,
    loose_bvar_range: u32,
}

/// The twelve constructors of Lean 4's `Expr`.
#[derive(Debug)]
pub enum ExprKind {
    BVar(u64),
    FVar(Name),
    MVar(Name),
    Sort(Level),
    Const(Name, Vec<Level>),
    App(Expr, Expr),
    Lam(Name, Expr, Expr, BinderInfo),
    ForallE(Name, Expr, Expr, BinderInfo),
    LetE(Name, Expr, Expr, Expr, bool),
    Lit(Literal),
    MData(MData, Expr),
    Proj(Name, u64, Expr),
}

/// The mathematical values of a list of levels.
pub open spec fn levels_view(ls: Seq<Level>) -> Seq<LevelV> {
    ls.map_values(|l: Level| l@)
}

impl Expr {
    /// The expression as a mathematical value.
    pub closed spec fn ev(&self) -> ExprV
        decreases self,
    {
        match self.inner.kind {
            ExprKind::BVar(i) => ExprV::BVar(i),
            ExprKind::FVar(n) => ExprV::FVar(n@),
            ExprKind::MVar(n) => ExprV::MVar(n@),
            ExprKind::Sort(l) => ExprV::Sort(l@),
            ExprKind::Const(n, ls) => ExprV::Const(n@, levels_view(ls@)),
            ExprKind::App(f, a) => ExprV::App(Box::new(f.ev()), Box::new(a.ev())),
            ExprKind::Lam(n, t, b, bi) => ExprV::Lam(n@, Box::new(t.ev()), Box::new(b.ev()), bi),
            ExprKind::ForallE(n, t, b, bi) => ExprV::ForallE(
                n@,
                Box::new(t.ev()),
                Box::new(b.ev()),
                bi,
            ),
            ExprKind::LetE(n, t, v, b, nd) => ExprV::LetE(
                n@,
                Box::new(t.ev()),
                Box::new(v.ev()),
                Box::new(b.ev()),
                nd,
            ),
            ExprKind::Lit(l) => ExprV::Lit(l@),
            ExprKind::MData(md, x) => ExprV::MData(mdata_view(md@), Box::new(x.ev())),
            ExprKind::Proj(s, i, x) => ExprV::Proj(s@, i, Box::new(x.ev())),
        }
    }

    /// The top constructor of the expression, with its sub-expressions.
    pub closed spec fn kind_spec(&self) -> ExprKind {
        self.inner.kind
    }

    /// The value of the top constructor is the value of the expression.
    pub proof fn lemma_kind_view(&self)
        ensures
            self.kind_spec()@ == self@,
    {
    }

    /// The cached data describes the expression.
    #[verifier::type_invariant]
    closed spec fn cached_data_ok(self) -> bool {
        &&& self.inner.data.hash == ehash(self.ev())
        &&& self.inner.data.approx_depth == edepth(self.ev())
        &&& self.inner.data.has_fvar == e_has_fvar(self.ev())
        &&& self.inner.data.has_expr_mvar == e_has_expr_mvar(self.ev())
        &&& self.inner.data.has_univ_mvar == e_has_univ_mvar(self.ev())
        &&& self.inner.data.has_univ_param == e_has_univ_param(self.ev())
        &&& self.inner.data.loose_bvar_range == erange(self.ev())
    }
}

impl View for ExprKind {
    type V = ExprV;

    open spec fn view(&self) -> ExprV {
        match self {
            ExprKind::BVar(i) => ExprV::BVar(*i),
            ExprKind::FVar(n) => ExprV::FVar(n@),
            ExprKind::MVar(n) => ExprV::MVar(n@),
            ExprKind::Sort(l) => ExprV::Sort(l@),
            ExprKind::Const(n, ls) => ExprV::Const(n@, levels_view(ls@)),
            ExprKind::App(f, a) => ExprV::App(Box::new(f@), Box::new(a@)),
            ExprKind::Lam(n, t, b, bi) => ExprV::Lam(n@, Box::new(t@), Box::new(b@), *bi),
            ExprKind::ForallE(n, t, b, bi) => ExprV::ForallE(n@, Box::new(t@), Box::new(b@), *bi),
            ExprKind::LetE(n, t, v, b, nd) => ExprV::LetE(
                n@,
                Box::new(t@),
                Box::new(v@),
                Box::new(b@),
                *nd,
            ),
            ExprKind::Lit(l) => ExprV::Lit(l@),
            ExprKind::MData(md, x) => ExprV::MData(mdata_view(md@), Box::new(x@)),
            ExprKind::Proj(s, i, x) => ExprV::Proj(s@, *i, Box::new(x@)),
        }
    }
}

impl View for Expr {
    type V = ExprV;

    open spec fn view(&self) -> ExprV {
        self.ev()
    }
}

impl Clone for Expr {
    fn clone(&self) -> (r: Self)
        ensures
            r == *self,
    {
        proof {
            use_type_invariant(self);
        }
        Expr { inner: share(&self.inner) }
    }
}

/// Std `Arc::ptr_eq`: both handles point to the same allocation, which then
/// holds one value.
#[verifier::external_body]
fn arc_ptr_eq<T>(a: &Arc<T>, b: &Arc<T>) -> (r: bool)
    ensures
        r ==> *a == *b,
{
    Arc::ptr_eq(a, b)
}

impl Expr {
    /// Whether both handles share one node (then they are the same expression).
    pub fn same_node(a: &Expr, b: &Expr) -> (r: bool)
        ensures
            r ==> a@ == b@,
    {
        arc_ptr_eq(&a.inner, &b.inner)
    }
}

/// `a * 31 + b`, 32-bit wrapping.
fn mix(a: u32, b: u32) -> (r: u32)
    ensures
        r == mix32(a, b),
{
    a.wrapping_mul(31).wrapping_add(b)
}

fn hash_u64_exec(n: u64) -> (r: u32)
    ensures
        r == hash_u64(n),
{
    let h = (n as u32).wrapping_mul(2654435761u32);
    h ^ ((n >> 32u64) as u32)
}

fn name_hash_u32(n: &Name) -> (r: u32)
    ensures
        r == name_hash32(n@),
{
    let h = n.hash();
    h as u32
}

fn succ8(x: u8) -> (r: u8)
    ensures
        r == sat_succ8(x),
{
    x.saturating_add(1)
}

fn max_u8(a: u8, b: u8) -> (r: u8)
    ensures
        r == max8(a, b),
{
    if a >= b {
        a
    } else {
        b
    }
}

fn max_u32(a: u32, b: u32) -> (r: u32)
    ensures
        r == max32(a, b),
{
    if a >= b {
        a
    } else {
        b
    }
}

fn pred_u32(x: u32) -> (r: u32)
    ensures
        r == pred32(x),
{
    if x > 0 {
        x - 1
    } else {
        0
    }
}

/// The hashes of `ls` folded with `mix`.
fn hash_levels_exec(ls: &[Level]) -> (h: u32)
    ensures
        h == hash_levels(levels_view(ls@)),
{
    let ghost v = levels_view(ls@);
    let mut h: u32 = 0;
    let mut i: usize = 0;
    while i < ls.len()
        invariant
            i <= ls@.len(),
            v == levels_view(ls@),
            h == hash_levels(v.take(i as int)),
        decreases ls@.len() - i,
    {
        let lh = ls[i].hash();
        proof {
            assert(v.take(i + 1).drop_last() == v.take(i as int));
            assert(v.take(i + 1).last() == ls@[i as int]@);
        }
        h = mix(h, lh);
        i = i + 1;
    }
    proof {
        assert(v.take(ls@.len() as int) == v);
    }
    h
}

/// The bytes `bs` folded into `seed`.
fn bytes_hash_exec(seed: u32, bs: &[u8]) -> (h: u32)
    ensures
        h == bytes_hash(seed, bs@),
{
    let mut h: u32 = seed;
    let mut i: usize = 0;
    while i < bs.len()
        invariant
            i <= bs@.len(),
            h == bytes_hash(seed, bs@.take(i as int)),
        decreases bs@.len() - i,
    {
        proof {
            assert(bs@.take(i + 1).drop_last() == bs@.take(i as int));
            assert(bs@.take(i + 1).last() == bs@[i as int]);
        }
        h = mix(h, bs[i] as u32);
        i = i + 1;
    }
    proof {
        assert(bs@.take(bs@.len() as int) == bs@);
    }
    h
}

/// Whether some level of `ls` has a parameter (`params`) or a metavariable.
fn levels_any(ls: &[Level], params: bool) -> (b: bool)
    ensures
        !params ==> b == levels_have_mvar(levels_view(ls@)),
        params ==> b == levels_have_param(levels_view(ls@)),
{
    let ghost v = levels_view(ls@);
    let mut i: usize = 0;
    while i < ls.len()
        invariant
            i <= ls@.len(),
            v == levels_view(ls@),
            forall|j: int|
                0 <= j < i ==> !(if params {
                    crate::level::has_param(#[trigger] v[j])
                } else {
                    crate::level::has_mvar(v[j])
                }),
        decreases ls@.len() - i,
    {
        let hit = if params {
            ls[i].has_param()
        } else {
            ls[i].has_mvar()
        };
        proof {
            assert(v[i as int] == ls@[i as int]@);
        }
        if hit {
            return true;
        }
        i = i + 1;
    }
    false
}

impl Expr {
    /// The bound variable with de Bruijn index `idx`.
    pub fn bvar(idx: u64) -> (r: Self)
        ensures
            r@ == ExprV::BVar(idx),
    {
        let data = ExprData {
            hash: mix(7, hash_u64_exec(idx)),
            approx_depth: 0,
            has_fvar: false,
            has_expr_mvar: false,
            has_univ_mvar: false,
            has_univ_param: false,
            loose_bvar_range: (idx as u32).saturating_add(1),
        };
        Expr { inner: Arc::new(ExprInner { kind: ExprKind::BVar(idx), data }) }
    }

    /// The free variable `id`.
    pub fn fvar(id: Name) -> (r: Self)
        ensures
            r@ == ExprV::FVar(id@),
    {
        let data = ExprData {
            hash: mix(11, name_hash_u32(&id)),
            approx_depth: 0,
            has_fvar: true,
            has_expr_mvar: false,
            has_univ_mvar: false,
            has_univ_param: false,
            loose_bvar_range: 0,
        };
        Expr { inner: Arc::new(ExprInner { kind: ExprKind::FVar(id), data }) }
    }

    /// The metavariable `id`.
    pub fn mvar(id: Name) -> (r: Self)
        ensures
            r@ == ExprV::MVar(id@),
    {
        let data = ExprData {
            hash: mix(13, name_hash_u32(&id)),
            approx_depth: 0,
            has_fvar: false,
            has_expr_mvar: true,
            has_univ_mvar: false,
            has_univ_param: false,
            loose_bvar_range: 0,
        };
        Expr { inner: Arc::new(ExprInner { kind: ExprKind::MVar(id), data }) }
    }

    /// `Sort level`.
    pub fn sort(level: Level) -> (r: Self)
        ensures
            r@ == ExprV::Sort(level@),
    {
        let data = ExprData {
            hash: mix(17, level.hash()),
            approx_depth: 0,
            has_fvar: false,
            has_expr_mvar: false,
            has_univ_mvar: level.has_mvar(),
            has_univ_param: level.has_param(),
            loose_bvar_range: 0,
        };
        Expr { inner: Arc::new(ExprInner { kind: ExprKind::Sort(level), data }) }
    }

    /// `Prop` = `Sort 0`.
    pub fn prop() -> (r: Self)
        ensures
            r@ == ExprV::Sort(LevelV::Zero),
    {
        Expr::sort(Level::zero())
    }

    /// `Type` = `Sort 1`.
    pub fn type_() -> (r: Self)
        ensures
            r@ == ExprV::Sort(LevelV::Succ(Box::new(LevelV::Zero))),
    {
        Expr::sort(Level::one())
    }

    /// The constant `name` at universe levels `levels`.
    pub fn const_(name: Name, levels: Vec<Level>) -> (r: Self)
        ensures
            r@ == ExprV::Const(name@, levels_view(levels@)),
    {
        let has_univ_mvar = levels_any(levels.as_slice(), false);
        let has_univ_param = levels_any(levels.as_slice(), true);
        let data = ExprData {
            hash: mix(mix(19, name_hash_u32(&name)), hash_levels_exec(levels.as_slice())),
            approx_depth: 0,
            has_fvar: false,
            has_expr_mvar: false,
            has_univ_mvar,
            has_univ_param,
            loose_bvar_range: 0,
        };
        Expr { inner: Arc::new(ExprInner { kind: ExprKind::Const(name, levels), data }) }
    }

    /// The application `f a`.
    pub fn app(f: Expr, a: Expr) -> (r: Self)
        ensures
            r@ == ExprV::App(Box::new(f@), Box::new(a@)),
            r.kind_spec() == ExprKind::App(f, a),
    {
        proof {
            use_type_invariant(&f);
            use_type_invariant(&a);
        }
        let fd = &f.inner.data;
        let ad = &a.inner.data;
        let data = ExprData {
            hash: mix(mix(23, fd.hash), ad.hash),
            approx_depth: succ8(max_u8(fd.approx_depth, ad.approx_depth)),
            has_fvar: fd.has_fvar || ad.has_fvar,
            has_expr_mvar: fd.has_expr_mvar || ad.has_expr_mvar,
            has_univ_mvar: fd.has_univ_mvar || ad.has_univ_mvar,
            has_univ_param: fd.has_univ_param || ad.has_univ_param,
            loose_bvar_range: max_u32(fd.loose_bvar_range, ad.loose_bvar_range),
        };
        Expr { inner: Arc::new(ExprInner { kind: ExprKind::App(f, a), data }) }
    }

    /// Nested applications: `mk_app(f, [a1, a2, a3])` is `((f a1) a2) a3`.
    pub fn mk_app(f: Expr, args: &[Expr]) -> (r: Self)
        ensures
            r@ == mk_app_spec(f@, exprs_view(args@)),
    {
        let ghost av = exprs_view(args@);
        let mut result = f;
        let mut i: usize = 0;
        while i < args.len()
            invariant
                i <= args@.len(),
                av == exprs_view(args@),
                result@ == mk_app_spec(f@, av.take(i as int)),
            decreases args@.len() - i,
        {
            proof {
                assert(av.take(i + 1).drop_last() == av.take(i as int));
                assert(av.take(i + 1).last() == args@[i as int]@);
            }
            result = Expr::app(result, args[i].clone());
            i = i + 1;
        }
        proof {
            assert(av.take(args@.len() as int) == av);
        }
        result
    }

    /// The lambda `fun (name : ty) => body`.
    pub fn lam(name: Name, ty: Expr, body: Expr, bi: BinderInfo) -> (r: Self)
        ensures
            r@ == ExprV::Lam(name@, Box::new(ty@), Box::new(body@), bi),
            r.kind_spec() == ExprKind::Lam(name, ty, body, bi),
    {
        proof {
            use_type_invariant(&ty);
            use_type_invariant(&body);
        }
        let td = &ty.inner.data;
        let bd = &body.inner.data;
        let data = ExprData {
            hash: mix(mix(mix(29, name_hash_u32(&name)), td.hash), bd.hash),
            approx_depth: succ8(max_u8(td.approx_depth, bd.approx_depth)),
            has_fvar: td.has_fvar || bd.has_fvar,
            has_expr_mvar: td.has_expr_mvar || bd.has_expr_mvar,
            has_univ_mvar: td.has_univ_mvar || bd.has_univ_mvar,
            has_univ_param: td.has_univ_param || bd.has_univ_param,
            loose_bvar_range: max_u32(td.loose_bvar_range, pred_u32(bd.loose_bvar_range)),
        };
        Expr { inner: Arc::new(ExprInner { kind: ExprKind::Lam(name, ty, body, bi), data }) }
    }

    /// The dependent arrow `(name : ty) -> body`.
    pub fn forall_e(name: Name, ty: Expr, body: Expr, bi: BinderInfo) -> (r: Self)
        ensures
            r@ == ExprV::ForallE(name@, Box::new(ty@), Box::new(body@), bi),
            r.kind_spec() == ExprKind::ForallE(name, ty, body, bi),
    {
        proof {
            use_type_invariant(&ty);
            use_type_invariant(&body);
        }
        let td = &ty.inner.data;
        let bd = &body.inner.data;
        let data = ExprData {
            hash: mix(mix(mix(31, name_hash_u32(&name)), td.hash), bd.hash),
            approx_depth: succ8(max_u8(td.approx_depth, bd.approx_depth)),
            has_fvar: td.has_fvar || bd.has_fvar,
            has_expr_mvar: td.has_expr_mvar || bd.has_expr_mvar,
            has_univ_mvar: td.has_univ_mvar || bd.has_univ_mvar,
            has_univ_param: td.has_univ_param || bd.has_univ_param,
            loose_bvar_range: max_u32(td.loose_bvar_range, pred_u32(bd.loose_bvar_range)),
        };
        Expr { inner: Arc::new(ExprInner { kind: ExprKind::ForallE(name, ty, body, bi), data }) }
    }

    /// `let name : ty := val; body`.
    pub fn let_e(name: Name, ty: Expr, val: Expr, body: Expr, non_dep: bool) -> (r: Self)
        ensures
            r@ == ExprV::LetE(name@, Box::new(ty@), Box::new(val@), Box::new(body@), non_dep),
            r.kind_spec() == ExprKind::LetE(name, ty, val, body, non_dep),
    {
        proof {
            use_type_invariant(&ty);
            use_type_invariant(&val);
            use_type_invariant(&body);
        }
        let td = &ty.inner.data;
        let vd = &val.inner.data;
        let bd = &body.inner.data;
        let data = ExprData {
            hash: mix(mix(mix(mix(37, name_hash_u32(&name)), td.hash), vd.hash), bd.hash),
            approx_depth: succ8(
                max_u8(max_u8(td.approx_depth, vd.approx_depth), bd.approx_depth),
            ),
            has_fvar: td.has_fvar || vd.has_fvar || bd.has_fvar,
            has_expr_mvar: td.has_expr_mvar || vd.has_expr_mvar || bd.has_expr_mvar,
            has_univ_mvar: td.has_univ_mvar || vd.has_univ_mvar || bd.has_univ_mvar,
            has_univ_param: td.has_univ_param || vd.has_univ_param || bd.has_univ_param,
            loose_bvar_range: max_u32(
                max_u32(td.loose_bvar_range, vd.loose_bvar_range),
                pred_u32(bd.loose_bvar_range),
            ),
        };
        Expr {
            inner: Arc::new(ExprInner { kind: ExprKind::LetE(name, ty, val, body, non_dep), data }),
        }
    }

    /// A literal.
    pub fn lit(l: Literal) -> (r: Self)
        ensures
            r@ == ExprV::Lit(l@),
    {
        let hash = match &l {
            Literal::Nat(n) => {
                let bytes = n.to_bytes_le();
                bytes_hash_exec(41, bytes.as_slice())
            },
            Literal::Str(s) => bytes_hash_exec(43, s.as_str().as_bytes()),
        };
        let data = ExprData {
            hash,
            approx_depth: 0,
            has_fvar: false,
            has_expr_mvar: false,
            has_univ_mvar: false,
            has_univ_param: false,
            loose_bvar_range: 0,
        };
        Expr { inner: Arc::new(ExprInner { kind: ExprKind::Lit(l), data }) }
    }

    /// `e` annotated with metadata `md`.
    pub fn mdata(md: MData, e: Expr) -> (r: Self)
        ensures
            r@ == ExprV::MData(mdata_view(md@), Box::new(e@)),
            r.kind_spec() == ExprKind::MData(md, e),
    {
        proof {
            use_type_invariant(&e);
        }
        let d = &e.inner.data;
        let data = ExprData {
            hash: mix(47, d.hash),
            approx_depth: d.approx_depth,
            has_fvar: d.has_fvar,
            has_expr_mvar: d.has_expr_mvar,
            has_univ_mvar: d.has_univ_mvar,
            has_univ_param: d.has_univ_param,
            loose_bvar_range: d.loose_bvar_range,
        };
        Expr { inner: Arc::new(ExprInner { kind: ExprKind::MData(md, e), data }) }
    }

    /// The projection of field `idx` of structure `sname` out of `e`.
    pub fn proj(sname: Name, idx: u64, e: Expr) -> (r: Self)
        ensures
            r@ == ExprV::Proj(sname@, idx, Box::new(e@)),
            r.kind_spec() == ExprKind::Proj(sname, idx, e),
    {
        proof {
            use_type_invariant(&e);
        }
        let d = &e.inner.data;
        let data = ExprData {
            hash: mix(mix(mix(53, name_hash_u32(&sname)), hash_u64_exec(idx)), d.hash),
            approx_depth: succ8(d.approx_depth),
            has_fvar: d.has_fvar,
            has_expr_mvar: d.has_expr_mvar,
            has_univ_mvar: d.has_univ_mvar,
            has_univ_param: d.has_univ_param,
            loose_bvar_range: d.loose_bvar_range,
        };
        Expr { inner: Arc::new(ExprInner { kind: ExprKind::Proj(sname, idx, e), data }) }
    }
}

/// The head of an application spine: `f` for `f a1 ... an`.
pub open spec fn app_fn_of(e: ExprV) -> ExprV
    decreases e,
{
    match e {
        ExprV::App(f, _) => app_fn_of(*f),
        _ => e,
    }
}

/// The arguments of an application spine, in order: `[a1, ..., an]` for `f a1 ... an`.
pub open spec fn app_args_of(e: ExprV) -> Seq<ExprV>
    decreases e,
{
    match e {
        ExprV::App(f, a) => app_args_of(*f).push(*a),
        _ => Seq::empty(),
    }
}

impl Expr {
    pub fn hash(&self) -> (h: u32)
        ensures
            h == ehash(self@),
    {
        proof {
            use_type_invariant(self);
        }
        self.inner.data.hash
    }

    pub fn approx_depth(&self) -> (d: u8)
        ensures
            d == edepth(self@),
    {
        proof {
            use_type_invariant(self);
        }
        self.inner.data.approx_depth
    }

    pub fn has_fvar(&self) -> (b: bool)
        ensures
            b == e_has_fvar(self@),
    {
        proof {
            use_type_invariant(self);
        }
        self.inner.data.has_fvar
    }

    pub fn has_expr_mvar(&self) -> (b: bool)
        ensures
            b == e_has_expr_mvar(self@),
    {
        proof {
            use_type_invariant(self);
        }
        self.inner.data.has_expr_mvar
    }

    pub fn has_univ_mvar(&self) -> (b: bool)
        ensures
            b == e_has_univ_mvar(self@),
    {
        proof {
            use_type_invariant(self);
        }
        self.inner.data.has_univ_mvar
    }

    pub fn has_univ_param(&self) -> (b: bool)
        ensures
            b == e_has_univ_param(self@),
    {
        proof {
            use_type_invariant(self);
        }
        self.inner.data.has_univ_param
    }

    pub fn has_mvar(&self) -> (b: bool)
        ensures
            b == (e_has_expr_mvar(self@) || e_has_univ_mvar(self@)),
    {
        self.has_expr_mvar() || self.has_univ_mvar()
    }

    pub fn loose_bvar_range(&self) -> (r: u32)
        ensures
            r == erange(self@),
    {
        proof {
            use_type_invariant(self);
        }
        self.inner.data.loose_bvar_range
    }

    pub fn has_loose_bvars(&self) -> (b: bool)
        ensures
            b == (erange(self@) > 0),
    {
        self.loose_bvar_range() > 0
    }

    /// The constructor of the expression and its fields.
    pub fn kind(&self) -> (k: &ExprKind)
        ensures
            k@ == self@,
            *k == self.kind_spec(),
    {
        &self.inner.kind
    }

    pub fn is_bvar(&self) -> (b: bool)
        ensures
            b == (self@ is BVar),
    {
        match &self.inner.kind {
            ExprKind::BVar(_) => true,
            _ => false,
        }
    }

    pub fn is_fvar(&self) -> (b: bool)
        ensures
            b == (self@ is FVar),
    {
        match &self.inner.kind {
            ExprKind::FVar(_) => true,
            _ => false,
        }
    }

    pub fn is_mvar(&self) -> (b: bool)
        ensures
            b == (self@ is MVar),
    {
        match &self.inner.kind {
            ExprKind::MVar(_) => true,
            _ => false,
        }
    }

    pub fn is_sort(&self) -> (b: bool)
        ensures
            b == (self@ is Sort),
    {
        match &self.inner.kind {
            ExprKind::Sort(_) => true,
            _ => false,
        }
    }

    pub fn is_const(&self) -> (b: bool)
        ensures
            b == (self@ is Const),
    {
        match &self.inner.kind {
            ExprKind::Const(_, _) => true,
            _ => false,
        }
    }

    pub fn is_app(&self) -> (b: bool)
        ensures
            b == (self@ is App),
    {
        match &self.inner.kind {
            ExprKind::App(_, _) => true,
            _ => false,
        }
    }

    pub fn is_lam(&self) -> (b: bool)
        ensures
            b == (self@ is Lam),
    {
        match &self.inner.kind {
            ExprKind::Lam(..) => true,
            _ => false,
        }
    }

    pub fn is_forall(&self) -> (b: bool)
        ensures
            b == (self@ is ForallE),
    {
        match &self.inner.kind {
            ExprKind::ForallE(..) => true,
            _ => false,
        }
    }

    pub fn is_let(&self) -> (b: bool)
        ensures
            b == (self@ is LetE),
    {
        match &self.inner.kind {
            ExprKind::LetE(..) => true,
            _ => false,
        }
    }

    pub fn is_lit(&self) -> (b: bool)
        ensures
            b == (self@ is Lit),
    {
        match &self.inner.kind {
            ExprKind::Lit(_) => true,
            _ => false,
        }
    }

    pub fn is_mdata(&self) -> (b: bool)
        ensures
            b == (self@ is MData),
    {
        match &self.inner.kind {
            ExprKind::MData(..) => true,
            _ => false,
        }
    }

    pub fn is_proj(&self) -> (b: bool)
        ensures
            b == (self@ is Proj),
    {
        match &self.inner.kind {
            ExprKind::Proj(..) => true,
            _ => false,
        }
    }

    pub fn is_binding(&self) -> (b: bool)
        ensures
            b == (self@ is Lam || self@ is ForallE),
    {
        self.is_lam() || self.is_forall()
    }

    /// `Sort 0`.
    pub fn is_prop(&self) -> (b: bool)
        ensures
            b == (self@ == ExprV::Sort(LevelV::Zero)),
    {
        match &self.inner.kind {
            ExprKind::Sort(l) => l.is_zero(),
            _ => false,
        }
    }

    pub fn bvar_idx(&self) -> (r: u64)
        requires
            self@ is BVar,
        ensures
            self@ == ExprV::BVar(r),
    {
        match &self.inner.kind {
            ExprKind::BVar(i) => *i,
            _ => vstd::pervasive::unreached(),
        }
    }

    pub fn fvar_name(&self) -> (r: &Name)
        requires
            self@ is FVar,
        ensures
            self@ == ExprV::FVar(r@),
    {
        match &self.inner.kind {
            ExprKind::FVar(n) => n,
            _ => vstd::pervasive::unreached(),
        }
    }

    pub fn mvar_name(&self) -> (r: &Name)
        requires
            self@ is MVar,
        ensures
            self@ == ExprV::MVar(r@),
    {
        match &self.inner.kind {
            ExprKind::MVar(n) => n,
            _ => vstd::pervasive::unreached(),
        }
    }

    pub fn sort_level(&self) -> (r: &Level)
        requires
            self@ is Sort,
        ensures
            self@ == ExprV::Sort(r@),
    {
        match &self.inner.kind {
            ExprKind::Sort(l) => l,
            _ => vstd::pervasive::unreached(),
        }
    }

    pub fn const_name(&self) -> (r: &Name)
        requires
            self@ is Const,
        ensures
            self@ matches ExprV::Const(n, _) && n == r@,
    {
        match &self.inner.kind {
            ExprKind::Const(n, _) => n,
            _ => vstd::pervasive::unreached(),
        }
    }

    pub fn const_levels(&self) -> (r: &[Level])
        requires
            self@ is Const,
        ensures
            self@ matches ExprV::Const(_, ls) && ls == levels_view(r@),
    {
        match &self.inner.kind {
            ExprKind::Const(_, ls) => ls.as_slice(),
            _ => vstd::pervasive::unreached(),
        }
    }

    pub fn app_fn(&self) -> (r: &Expr)
        requires
            self@ is App,
        ensures
            self@ matches ExprV::App(f, _) && *f == r@,
    {
        match &self.inner.kind {
            ExprKind::App(f, _) => f,
            _ => vstd::pervasive::unreached(),
        }
    }

    pub fn app_arg(&self) -> (r: &Expr)
        requires
            self@ is App,
        ensures
            self@ matches ExprV::App(_, a) && *a == r@,
    {
        match &self.inner.kind {
            ExprKind::App(_, a) => a,
            _ => vstd::pervasive::unreached(),
        }
    }

    pub fn binding_name(&self) -> (r: &Name)
        requires
            self@ is Lam || self@ is ForallE,
        ensures
            (self@ matches ExprV::Lam(n, _, _, _) && n == r@) || (self@ matches ExprV::ForallE(
                n,
                _,
                _,
                _,
            ) && n == r@),
    {
        match &self.inner.kind {
            ExprKind::Lam(n, ..) => n,
            ExprKind::ForallE(n, ..) => n,
            _ => vstd::pervasive::unreached(),
        }
    }

    pub fn binding_domain(&self) -> (r: &Expr)
        requires
            self@ is Lam || self@ is ForallE,
        ensures
            (self@ matches ExprV::Lam(_, d, _, _) && *d == r@) || (self@ matches ExprV::ForallE(
                _,
                d,
                _,
                _,
            ) && *d == r@),
    {
        match &self.inner.kind {
            ExprKind::Lam(_, d, ..) => d,
            ExprKind::ForallE(_, d, ..) => d,
            _ => vstd::pervasive::unreached(),
        }
    }

    pub fn binding_body(&self) -> (r: &Expr)
        requires
            self@ is Lam || self@ is ForallE,
        ensures
            (self@ matches ExprV::Lam(_, _, b, _) && *b == r@) || (self@ matches ExprV::ForallE(
                _,
                _,
                b,
                _,
            ) && *b == r@),
    {
        match &self.inner.kind {
            ExprKind::Lam(_, _, b, _) => b,
            ExprKind::ForallE(_, _, b, _) => b,
            _ => vstd::pervasive::unreached(),
        }
    }

    pub fn binding_info(&self) -> (r: BinderInfo)
        requires
            self@ is Lam || self@ is ForallE,
        ensures
            (self@ matches ExprV::Lam(_, _, _, bi) && bi == r) || (self@ matches ExprV::ForallE(
                _,
                _,
                _,
                bi,
            ) && bi == r),
    {
        match &self.inner.kind {
            ExprKind::Lam(_, _, _, bi) => *bi,
            ExprKind::ForallE(_, _, _, bi) => *bi,
            _ => vstd::pervasive::unreached(),
        }
    }

    pub fn let_name(&self) -> (r: &Name)
        requires
            self@ is LetE,
        ensures
            self@ matches ExprV::LetE(n, _, _, _, _) && n == r@,
    {
        match &self.inner.kind {
            ExprKind::LetE(n, ..) => n,
            _ => vstd::pervasive::unreached(),
        }
    }

    pub fn let_type(&self) -> (r: &Expr)
        requires
            self@ is LetE,
        ensures
            self@ matches ExprV::LetE(_, t, _, _, _) && *t == r@,
    {
        match &self.inner.kind {
            ExprKind::LetE(_, t, ..) => t,
            _ => vstd::pervasive::unreached(),
        }
    }

    pub fn let_value(&self) -> (r: &Expr)
        requires
            self@ is LetE,
        ensures
            self@ matches ExprV::LetE(_, _, v, _, _) && *v == r@,
    {
        match &self.inner.kind {
            ExprKind::LetE(_, _, v, ..) => v,
            _ => vstd::pervasive::unreached(),
        }
    }

    pub fn let_body(&self) -> (r: &Expr)
        requires
            self@ is LetE,
        ensures
            self@ matches ExprV::LetE(_, _, _, b, _) && *b == r@,
    {
        match &self.inner.kind {
            ExprKind::LetE(_, _, _, b, _) => b,
            _ => vstd::pervasive::unreached(),
        }
    }

    pub fn let_nondep(&self) -> (r: bool)
        requires
            self@ is LetE,
        ensures
            self@ matches ExprV::LetE(_, _, _, _, nd) && nd == r,
    {
        match &self.inner.kind {
            ExprKind::LetE(_, _, _, _, nd) => *nd,
            _ => vstd::pervasive::unreached(),
        }
    }

    pub fn lit_value(&self) -> (r: &Literal)
        requires
            self@ is Lit,
        ensures
            self@ == ExprV::Lit(r@),
    {
        match &self.inner.kind {
            ExprKind::Lit(l) => l,
            _ => vstd::pervasive::unreached(),
        }
    }

    pub fn mdata_data(&self) -> (r: &MData)
        requires
            self@ is MData,
        ensures
            self@ matches ExprV::MData(md, _) && md == mdata_view(r@),
    {
        match &self.inner.kind {
            ExprKind::MData(d, _) => d,
            _ => vstd::pervasive::unreached(),
        }
    }

    pub fn mdata_expr(&self) -> (r: &Expr)
        requires
            self@ is MData,
        ensures
            self@ matches ExprV::MData(_, x) && *x == r@,
    {
        match &self.inner.kind {
            ExprKind::MData(_, e) => e,
            _ => vstd::pervasive::unreached(),
        }
    }

    pub fn proj_sname(&self) -> (r: &Name)
        requires
            self@ is Proj,
        ensures
            self@ matches ExprV::Proj(sn, _, _) && sn == r@,
    {
        match &self.inner.kind {
            ExprKind::Proj(s, ..) => s,
            _ => vstd::pervasive::unreached(),
        }
    }

    pub fn proj_idx(&self) -> (r: u64)
        requires
            self@ is Proj,
        ensures
            self@ matches ExprV::Proj(_, i, _) && i == r,
    {
        match &self.inner.kind {
            ExprKind::Proj(_, i, _) => *i,
            _ => vstd::pervasive::unreached(),
        }
    }

    pub fn proj_expr(&self) -> (r: &Expr)
        requires
            self@ is Proj,
        ensures
            self@ matches ExprV::Proj(_, _, x) && *x == r@,
    {
        match &self.inner.kind {
            ExprKind::Proj(_, _, e) => e,
            _ => vstd::pervasive::unreached(),
        }
    }

    /// The head function of `f a1 a2 ... an`, that is `f`.
    pub fn get_app_fn(&self) -> (r: &Expr)
        ensures
            r@ == app_fn_of(self@),
    {
        let mut e = self;
        while e.is_app()
            invariant
                app_fn_of(e@) == app_fn_of(self@),
            decreases esize(e@),
        {
            e = e.app_fn();
        }
        e
    }

    /// Collect the arguments of `f a1 ... an`: pushes them onto `args`, reverses
    /// the whole vector, and returns `f`.
    pub fn get_app_args(&self, args: &mut Vec<Expr>) -> (r: &Expr)
        ensures
            r@ == app_fn_of(self@),
            exprs_view(final(args)@) == (exprs_view(old(args)@) + app_args_of(self@).reverse()).reverse(),
    {
        let mut e = self;
        let ghost start = exprs_view(args@);
        while e.is_app()
            invariant
                app_fn_of(e@) == app_fn_of(self@),
                start + app_args_of(self@).reverse() == exprs_view(args@) + app_args_of(e@).reverse(),
            decreases esize(e@),
        {
            let a = e.app_arg().clone();
            let fe = e.app_fn();
            proof {
                let f = fe@;
                assert(app_args_of(e@) == app_args_of(f).push(a@));
                assert(app_args_of(e@).reverse() == seq![a@] + app_args_of(f).reverse());
                assert(exprs_view(args@.push(a)) == exprs_view(args@).push(a@));
            }
            args.push(a);
            e = fe;
        }
        let mut rev: Vec<Expr> = Vec::new();
        let ghost all = exprs_view(args@);
        while args.len() > 0
            invariant
                exprs_view(rev@) + exprs_view(args@).reverse() == all.reverse(),
            decreases args@.len(),
        {
            let ghost before = exprs_view(args@);
            let x = args.pop().unwrap();
            proof {
                assert(before == exprs_view(args@).push(x@));
                assert(before.reverse() =~= seq![x@] + exprs_view(args@).reverse());
                assert(exprs_view(rev@.push(x)) == exprs_view(rev@).push(x@));
            }
            rev.push(x);
        }
        *args = rev;
        e
    }

    /// The number of arguments of `f a1 ... an`, that is `n`.
    pub fn get_app_num_args(&self) -> (n: usize)
        requires
            app_args_of(self@).len() <= usize::MAX,
        ensures
            n == app_args_of(self@).len(),
    {
        let mut e = self;
        let mut n: usize = 0;
        while e.is_app()
            invariant
                n + app_args_of(e@).len() == app_args_of(self@).len(),
                app_args_of(self@).len() <= usize::MAX,
            decreases esize(e@),
        {
            e = e.app_fn();
            n = n + 1;
        }
        n
    }
}

} // verus!
