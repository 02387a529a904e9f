//! The Lean 4 type checker: type inference, weak head normal forms and
//! definitional equality.
//!
//! Every inference, reduction step and comparison spends one unit of a step
//! budget (2^64 - 1 units for a fresh checker); a checker that runs out
//! reports a kernel panic instead of running on.
use vstd::prelude::*;

use rustc_hash::FxHashMap;

use crate::constant_info::{ConstantInfo, ConstantV, Declaration, DefinitionSafety};
use crate::environment::{EnvView, Environment};
use crate::expr::{app_args_of, app_fn_of, ehash, levels_view, e_has_expr_mvar, e_has_fvar, e_has_univ_mvar, exprs_view, Expr, ExprKind, ExprV};
use crate::expr_subst::{inst_lparams_spec, inst_spec, names_view};
use crate::expr_eq::{expr_eq, exprs_equal};
use crate::kernel_error::{KernelError, KernelResult};
use crate::level::{depth, depth_limit, is_not_zero, spec_imax, spec_max, Level, LevelV};
use crate::level_norm::{levels_equivalent, normalize_fits, spec_normalize};
use crate::literal::{Literal, LitV};
use crate::name::{name_text, Limb, Name};
use crate::olean_error::push_text;
use crate::quot::{is_quot_rec, quot_reduce_rec};
use crate::text::{chars_of, string_from_chars};

verus! {

// ─── Caches ─────────────────────────────────────────────────────────────

/// Expressions keyed by an expression hash, in an `FxHashMap`.
#[verifier::external_body]
pub(crate) struct HashExprCache {
    map: FxHashMap<u64, Expr>,
}

/// What a hash-keyed cache holds.
pub uninterp spec fn hash_cache_contents(c: HashExprCache) -> Map<u64, ExprV>;

impl HashExprCache {
    /// `FxHashMap::default`: an empty cache.
    #[verifier::external_body]
    pub(crate) fn new() -> (r: Self)
        ensures
            hash_cache_contents(r).dom() == Set::<u64>::empty(),
    {
        HashExprCache { map: FxHashMap::default() }
    }

    /// `HashMap::get`, cloned: the expression stored under `key`, if any.
    #[verifier::external_body]
    pub(crate) fn get(&self, key: u64) -> (r: Option<Expr>)
        ensures
            r is None <==> !hash_cache_contents(*self).contains_key(key),
            r matches Some(e) ==> e@ == hash_cache_contents(*self)[key],
    {
        self.map.get(&key).cloned()
    }

    /// `HashMap::insert`: store `e` under `key`.
    #[verifier::external_body]
    pub(crate) fn insert(&mut self, key: u64, e: Expr)
        ensures
            hash_cache_contents(*final(self)) == hash_cache_contents(*old(self)).insert(key, e@),
    {
        self.map.insert(key, e);
    }
}

/// Results of definitional equality checks, keyed by the pair of hashes.
#[verifier::external_body]
pub(crate) struct DefEqCache {
    map: FxHashMap<(u64, u64), bool>,
}

/// What a definitional equality cache holds.
pub uninterp spec fn def_eq_cache_contents(c: DefEqCache) -> Map<(u64, u64), bool>;

impl DefEqCache {
    /// `FxHashMap::default`: an empty cache.
    #[verifier::external_body]
    pub(crate) fn new() -> (r: Self)
        ensures
            def_eq_cache_contents(r).dom() == Set::<(u64, u64)>::empty(),
    {
        DefEqCache { map: FxHashMap::default() }
    }

    /// `HashMap::get`, copied: the result stored under `key`, if any.
    #[verifier::external_body]
    pub(crate) fn get(&self, key: (u64, u64)) -> (r: Option<bool>)
        ensures
            r is None <==> !def_eq_cache_contents(*self).contains_key(key),
            r matches Some(b) ==> b == def_eq_cache_contents(*self)[key],
    {
        self.map.get(&key).copied()
    }

    /// `HashMap::insert`: store `b` under `key`.
    #[verifier::external_body]
    pub(crate) fn insert(&mut self, key: (u64, u64), b: bool)
        ensures
            def_eq_cache_contents(*final(self)) == def_eq_cache_contents(*old(self)).insert(key, b),
    {
        self.map.insert(key, b);
    }
}

/// The types of the free variables introduced while checking, by name.
#[verifier::external_body]
pub(crate) struct LocalContext {
    map: FxHashMap<Name, Expr>,
}

/// What a local context holds.
pub uninterp spec fn local_context_contents(c: LocalContext) -> Map<Seq<Limb>, ExprV>;

impl LocalContext {
    /// `FxHashMap::default`: an empty context.
    #[verifier::external_body]
    pub(crate) fn new() -> (r: Self)
        ensures
            local_context_contents(r).dom() == Set::<Seq<Limb>>::empty(),
    {
        LocalContext { map: FxHashMap::default() }
    }

    /// `HashMap::get`, cloned: the type of `n`, if it is in the context.
    #[verifier::external_body]
    pub(crate) fn get(&self, n: &Name) -> (r: Option<Expr>)
        ensures
            r is None <==> !local_context_contents(*self).contains_key(n@),
            r matches Some(e) ==> e@ == local_context_contents(*self)[n@],
    {
        self.map.get(n).cloned()
    }

    /// `HashMap::insert`: give `n` the type `ty`.
    #[verifier::external_body]
    pub(crate) fn insert(&mut self, n: Name, ty: Expr)
        ensures
            local_context_contents(*final(self)) == local_context_contents(*old(self)).insert(
                n@,
                ty@,
            ),
    {
        self.map.insert(n, ty);
    }

    /// `HashMap::remove`: take `n` out of the context.
    #[verifier::external_body]
    pub(crate) fn remove(&mut self, n: &Name)
        ensures
            local_context_contents(*final(self)) == local_context_contents(*old(self)).remove(n@),
    {
        self.map.remove(n);
    }
}

// ─── Shapes ─────────────────────────────────────────────────────────────

/// The domain of a binder.
pub open spec fn binding_domain_of(e: ExprV) -> ExprV {
    match e {
        ExprV::Lam(_, d, _, _) => *d,
        ExprV::ForallE(_, d, _, _) => *d,
        _ => e,
    }
}

/// A weak head normal form: no `let`, no metadata and no beta redex at the
/// head.
pub open spec fn whnf_shape(e: ExprV) -> bool {
    &&& !(e is LetE)
    &&& !(e is MData)
    &&& (e is App ==> !(app_fn_of(e) is Lam))
}

/// One step of weak head reduction from `e` to `n`: beta at the head, `let`
/// and metadata are exact; unfolding a constant, reducing an application
/// whose head is a constant or a lambda under further arguments, and
/// reducing a projection lead to some expression.
pub open spec fn whnf_step(e: ExprV, n: ExprV) -> bool {
    match e {
        ExprV::App(f, a) => match *f {
            ExprV::Lam(_, _, b, _) => n == inst_spec(*b, seq![*a]),
            _ => app_fn_of(e) is Const || app_fn_of(e) is Lam,
        },
        ExprV::LetE(_, _, v, b, _) => n == inst_spec(*b, seq![*v]),
        ExprV::MData(_, inner) => n == *inner,
        ExprV::Const(..) | ExprV::Proj(..) => true,
        _ => false,
    }
}

/// `w` is reached from `e` by `k` steps of weak head reduction.
pub open spec fn reduces_in(e: ExprV, w: ExprV, k: nat) -> bool
    decreases k,
{
    if k == 0 {
        w == e
    } else {
        exists|m: ExprV| reduces_in(e, m, (k - 1) as nat) && #[trigger] whnf_step(m, w)
    }
}

/// An expression that is its own weak head normal form whatever the
/// environment: a variable, a sort, a binder or a literal.
pub open spec fn whnf_atom(e: ExprV) -> bool {
    e is BVar || e is FVar || e is MVar || e is Sort || e is Lam || e is ForallE || e is Lit
}

/// The name `_tc.<id>` given to the `id`-th fresh variable.
pub open spec fn fresh_name_limbs(id: u64) -> Seq<Limb> {
    seq![Limb::Str("_tc"@), Limb::Num(id)]
}

/// The message of the panic reported when the step budget runs out.
pub open spec fn budget_text() -> Seq<char> {
    "step budget exhausted"@
}

/// An expression holds expression or universe metavariables.
pub open spec fn has_mvars(e: ExprV) -> bool {
    e_has_expr_mvar(e) || e_has_univ_mvar(e)
}

/// A declaration of the kinds the checker checks and adds: axioms,
/// definitions, theorems and opaque constants.
pub open spec fn checked_decl(d: Declaration) -> bool {
    d is Axiom || d is Definition || d is Theorem || d is Opaque
}

/// The name of a checked declaration.
pub open spec fn decl_name(d: Declaration) -> Seq<Limb> {
    match d {
        Declaration::Axiom { name, .. } => name@,
        Declaration::Definition { name, .. } => name@,
        Declaration::Theorem { name, .. } => name@,
        Declaration::Opaque { name, .. } => name@,
        _ => Seq::empty(),
    }
}

/// The type of a checked declaration.
pub open spec fn decl_type(d: Declaration) -> ExprV {
    match d {
        Declaration::Axiom { type_, .. } => type_@,
        Declaration::Definition { type_, .. } => type_@,
        Declaration::Theorem { type_, .. } => type_@,
        Declaration::Opaque { type_, .. } => type_@,
        _ => ExprV::BVar(0),
    }
}

/// The value of a definition, theorem or opaque constant.
pub open spec fn decl_value(d: Declaration) -> ExprV {
    match d {
        Declaration::Definition { value, .. } => value@,
        Declaration::Theorem { value, .. } => value@,
        Declaration::Opaque { value, .. } => value@,
        _ => ExprV::BVar(0),
    }
}

/// The declaration a checked declaration adds to the environment.
pub open spec fn decl_constant(d: Declaration) -> ConstantV {
    match d {
        Declaration::Definition { name, level_params, type_, value, hints, safety } =>
            ConstantV::Definition {
            name: name@,
            level_params: names_view(level_params@),
            type_: type_@,
            value: value@,
            hints,
            safety,
        },
        Declaration::Theorem { name, level_params, type_, value } => ConstantV::Theorem {
            name: name@,
            level_params: names_view(level_params@),
            type_: type_@,
            value: value@,
        },
        Declaration::Opaque { name, level_params, type_, value, is_unsafe } => ConstantV::Opaque {
            name: name@,
            level_params: names_view(level_params@),
            type_: type_@,
            value: value@,
            is_unsafe,
        },
        Declaration::Axiom { name, level_params, type_, is_unsafe } => ConstantV::Axiom {
            name: name@,
            level_params: names_view(level_params@),
            type_: type_@,
            is_unsafe,
        },
        _ => ConstantV::Axiom {
            name: Seq::empty(),
            level_params: Seq::empty(),
            type_: ExprV::BVar(0),
            is_unsafe: false,
        },
    }
}

/// A kernel panic with a message of the checker's own.
fn panic_error(s: &str) -> (e: KernelError)
    ensures
        e matches KernelError::Panic(m) && m@ == s@,
{
    KernelError::Panic(string_from_chars(chars_of(s).as_slice()))
}

/// `prefix` + the name `n` + `suffix`.
fn name_message(prefix: &str, n: &Name, suffix: &str) -> (r: String)
    ensures
        r@ == prefix@ + name_text(n@) + suffix@,
{
    let mut out: Vec<char> = Vec::new();
    push_text(&mut out, prefix);
    let s = n.to_string();
    push_text(&mut out, s.as_str());
    push_text(&mut out, suffix);
    string_from_chars(out.as_slice())
}

/// The Lean 4 type checker.
pub struct TypeChecker {
    env: Environment,
    infer_cache: HashExprCache,
    whnf_cache: HashExprCache,
    def_eq_cache: DefEqCache,
    local_ctx: LocalContext,
    next_id: u64,
    budget: u64,
}

/// The type of constant `n` of `env` at universe levels `ls`: its declared
/// type with its level parameters replaced by `ls`.
pub open spec fn const_type_at(env: EnvView, n: Seq<Limb>, ls: Seq<LevelV>) -> ExprV {
    let c = env.constants[n];
    if ls.len() == 0 {
        c.spec_type()
    } else {
        inst_lparams_spec(c.spec_type(), c.spec_level_params(), ls)
    }
}

/// Two sorts are definitionally equal when their levels are equal or both
/// normalize to the same level.
pub open spec fn sort_levels_equivalent(a: ExprV, b: ExprV) -> bool {
    match (a, b) {
        (ExprV::Sort(l1), ExprV::Sort(l2)) => l1 == l2 || (normalize_fits(l1) && normalize_fits(l2)
            && spec_normalize(l1) == spec_normalize(l2)),
        _ => false,
    }
}

impl TypeChecker {
    /// The environment the checker works in.
    pub closed spec fn environment(&self) -> EnvView {
        self.env@
    }

    /// The steps the checker may still take.
    pub closed spec fn steps_left(&self) -> u64 {
        self.budget
    }

    /// The number given to the next fresh variable.
    pub closed spec fn next_fresh(&self) -> u64 {
        self.next_id
    }

    /// Room left for fresh names: the counter never overtakes the budget.
    pub closed spec fn slack(&self) -> int {
        u64::MAX - self.next_id - self.budget
    }

    /// The checker's invariant: room for fresh names, and every cached weak
    /// head normal form has that shape.
    pub closed spec fn inv(&self) -> bool {
        &&& self.next_id + self.budget <= u64::MAX
        &&& forall|k: u64| #[trigger]
            hash_cache_contents(self.whnf_cache).contains_key(k) ==> whnf_shape(
                hash_cache_contents(self.whnf_cache)[k],
            )
    }

    /// The type of the free variable `n` in the local context, if any.
    pub closed spec fn local_type(&self, n: Seq<Limb>) -> Option<ExprV> {
        if local_context_contents(self.local_ctx).contains_key(n) {
            Some(local_context_contents(self.local_ctx)[n])
        } else {
            None
        }
    }

    /// The type cached under `h`.
    pub closed spec fn cached_type(&self, h: u64) -> ExprV {
        hash_cache_contents(self.infer_cache)[h]
    }

    /// `a` and `b` are sorts whose weak head normal forms are not cached, under
    /// distinct hashes, with at least `steps` steps of the budget left.
    pub open spec fn sorts_compared(self, a: ExprV, b: ExprV, steps: int) -> bool {
        &&& a is Sort
        &&& b is Sort
        &&& !self.whnf_cached(ehash(a) as u64)
        &&& !self.whnf_cached(ehash(b) as u64)
        &&& ehash(a) as u64 != ehash(b) as u64
        &&& self.steps_left() >= steps
    }

    /// Whether a weak head normal form is cached under `h`.
    pub closed spec fn whnf_cached(&self, h: u64) -> bool {
        hash_cache_contents(self.whnf_cache).contains_key(h)
    }

    /// The weak head normal form cached under `h`.
    pub closed spec fn cached_whnf(&self, h: u64) -> ExprV {
        hash_cache_contents(self.whnf_cache)[h]
    }

    /// The answer cached for the pair of hashes `k`, if any.
    pub closed spec fn cached_def_eq(&self, k: (u64, u64)) -> Option<bool> {
        if def_eq_cache_contents(self.def_eq_cache).contains_key(k) {
            Some(def_eq_cache_contents(self.def_eq_cache)[k])
        } else {
            None
        }
    }

    /// Whether an inferred type is cached under `h`.
    pub closed spec fn infer_cached(&self, h: u64) -> bool {
        hash_cache_contents(self.infer_cache).contains_key(h)
    }

    /// A checker for `env` with empty caches and a full budget.
    pub fn new(env: Environment) -> (r: Self)
        ensures
            r.environment() == env@,
            r.steps_left() == u64::MAX,
            r.next_fresh() == 0,
            r.inv(),
            forall|h: u64| !r.infer_cached(h),
            forall|n: Seq<Limb>| r.local_type(n) is None,
    {
        TypeChecker {
            env,
            infer_cache: HashExprCache::new(),
            whnf_cache: HashExprCache::new(),
            def_eq_cache: DefEqCache::new(),
            local_ctx: LocalContext::new(),
            next_id: 0,
            budget: u64::MAX,
        }
    }

    /// A checker for `env` with empty caches and `steps` steps.
    pub fn with_budget(env: Environment, steps: u64) -> (r: Self)
        ensures
            r.environment() == env@,
            r.steps_left() == steps,
            r.next_fresh() == 0,
            r.inv(),
    {
        TypeChecker {
            env,
            infer_cache: HashExprCache::new(),
            whnf_cache: HashExprCache::new(),
            def_eq_cache: DefEqCache::new(),
            local_ctx: LocalContext::new(),
            next_id: 0,
            budget: steps,
        }
    }

    pub fn env(&self) -> (r: &Environment)
        ensures
            r@ == self.environment(),
    {
        &self.env
    }

    /// Spend one step of the budget.
    fn spend(&mut self) -> (r: KernelResult<()>)
        ensures
            r matches Err(x) ==> !(x is AlreadyDeclared),
            r is Ok <==> old(self).budget > 0,
            r is Ok ==> final(self).budget == old(self).budget - 1,
            r is Err ==> final(self).budget == old(self).budget,
            r matches Err(e) ==> e matches KernelError::Panic(m) && m@ == budget_text(),
            final(self).next_id == old(self).next_id,
            final(self).env == old(self).env,
            final(self).whnf_cache == old(self).whnf_cache,
            final(self).infer_cache == old(self).infer_cache,
            final(self).local_ctx == old(self).local_ctx,
            final(self).def_eq_cache == old(self).def_eq_cache,
    {
        if self.budget == 0 {
            return Err(panic_error("step budget exhausted"));
        }
        self.budget = self.budget - 1;
        Ok(())
    }

    /// A fresh name `_tc.<id>` for a variable introduced under a binder.
    fn fresh_name(&mut self) -> (r: Name)
        requires
            old(self).next_id < u64::MAX,
        ensures
            r@ == fresh_name_limbs(old(self).next_id),
            final(self).next_id == old(self).next_id + 1,
            final(self).budget == old(self).budget,
            final(self).env == old(self).env,
            final(self).whnf_cache == old(self).whnf_cache,
            final(self).infer_cache == old(self).infer_cache,
            final(self).local_ctx == old(self).local_ctx,
            final(self).def_eq_cache == old(self).def_eq_cache,
    {
        let id = self.next_id;
        self.next_id = self.next_id + 1;
        let r = Name::mk_num(Name::mk_simple("_tc"), id);
        proof {
            reveal_strlit("_tc");
            assert(r@ =~= fresh_name_limbs(id));
        }
        r
    }
    // ─── Type inference ─────────────────────────────────────────────────

    /// Infer the type of an expression (without full checking).
    pub fn infer_type(&mut self, e: &Expr) -> (r: KernelResult<Expr>)
        requires
            old(self).inv(),
        ensures
            r matches Err(x) ==> !(x is AlreadyDeclared),
            final(self).inv(),
            final(self).environment() == old(self).environment(),
            final(self).steps_left() <= old(self).steps_left(),
            final(self).slack() >= old(self).slack(),
            old(self).infer_cached(ehash(e@) as u64) ==> (r matches Ok(t) && t@
                == old(self).cached_type(ehash(e@) as u64)),
            !old(self).infer_cached(ehash(e@) as u64) && old(self).steps_left() == 0 ==> (r matches Err(
                KernelError::Panic(m),
            ) && m@ == budget_text()),
            !old(self).infer_cached(ehash(e@) as u64) && old(self).steps_left() > 0 ==> {
                &&& e@ is BVar ==> r is Err
                &&& e@ is MVar ==> r is Err
                &&& e@ matches ExprV::Sort(l) ==> (depth(l) < depth_limit() ==> (r matches Ok(t)
                    && t@ == ExprV::Sort(LevelV::Succ(Box::new(l)))))
                &&& e@ matches ExprV::Lit(LitV::Nat(_)) ==> (r matches Ok(t) && t@ == ExprV::Const(
                    seq![Limb::Str("Nat"@)],
                    Seq::empty(),
                ))
                &&& e@ matches ExprV::Lit(LitV::Str(_)) ==> (r matches Ok(t) && t@ == ExprV::Const(
                    seq![Limb::Str("String"@)],
                    Seq::empty(),
                ))
                &&& e@ matches ExprV::FVar(n) ==> ((r is Ok <==> old(self).local_type(n) is Some) && (
                r matches Ok(t) ==> Some(t@) == old(self).local_type(n)))
                &&& e@ matches ExprV::Const(n, _) ==> (!old(self).environment().constants.contains_key(
                    n,
                ) ==> (r matches Err(KernelError::UnknownConstant(m)) && m@ == n))
                &&& e@ matches ExprV::Const(n, ls) ==> (r matches Ok(t) ==> t@ == const_type_at(
                    old(self).environment(),
                    n,
                    ls,
                ))
                &&& e@ matches ExprV::Lam(n, d, _, bi) ==> (r matches Ok(t) ==> t@ matches ExprV::ForallE(
                    n2,
                    d2,
                    _,
                    b2,
                ) && n2 == n && d2 == d && b2 == bi)
                &&& e@ is ForallE ==> (r matches Ok(t) ==> t@ is Sort)
            },
        decreases old(self).steps_left(), 0int,
    {
        let key = e.hash() as u64;
        if let Some(cached) = self.infer_cache.get(key) {
            return Ok(cached);
        }
        self.spend()?;
        let ty = self.infer_type_core(e)?;
        self.infer_cache.insert(key, ty.clone());
        Ok(ty)
    }

    fn infer_type_core(&mut self, e: &Expr) -> (r: KernelResult<Expr>)
        requires
            old(self).inv(),
            old(self).slack() >= 1,
        ensures
            r matches Err(x) ==> !(x is AlreadyDeclared),
            final(self).inv(),
            final(self).environment() == old(self).environment(),
            final(self).steps_left() <= old(self).steps_left(),
            final(self).slack() >= old(self).slack() - 1,
            e@ is BVar ==> r is Err,
            e@ is MVar ==> r is Err,
            e@ matches ExprV::Sort(l) ==> (depth(l) < depth_limit() ==> (r matches Ok(t) && t@
                == ExprV::Sort(LevelV::Succ(Box::new(l))))),
            e@ matches ExprV::Lit(LitV::Nat(_)) ==> r matches Ok(t) && t@ == ExprV::Const(
                seq![Limb::Str("Nat"@)],
                Seq::empty(),
            ),
            e@ matches ExprV::Lit(LitV::Str(_)) ==> r matches Ok(t) && t@ == ExprV::Const(
                seq![Limb::Str("String"@)],
                Seq::empty(),
            ),
            e@ matches ExprV::FVar(n) ==> (r is Ok <==> old(self).local_type(n) is Some) && (
            r matches Ok(t) ==> Some(t@) == old(self).local_type(n)),
            e@ matches ExprV::Const(n, _) ==> (!old(self).environment().constants.contains_key(n)
                ==> (r matches Err(KernelError::UnknownConstant(m)) && m@ == n)),
            e@ matches ExprV::Const(n, ls) ==> (r matches Ok(t) ==> t@ == const_type_at(
                old(self).environment(),
                n,
                ls,
            )),
            e@ matches ExprV::Lam(n, d, _, bi) ==> (r matches Ok(t) ==> t@ matches ExprV::ForallE(
                n2,
                d2,
                _,
                b2,
            ) && n2 == n && d2 == d && b2 == bi),
            e@ is ForallE ==> (r matches Ok(t) ==> t@ is Sort),
        decreases old(self).steps_left(), 3int,
    {
        match e.kind() {
            ExprKind::BVar(_) => Err(panic_error("loose bound variable in infer_type")),
            ExprKind::FVar(n) => match self.local_ctx.get(n) {
                Some(t) => Ok(t),
                None => Err(
                    KernelError::Panic(
                        name_message("free variable '", n, "' not in local context"),
                    ),
                ),
            },
            ExprKind::MVar(n) => Err(
                KernelError::Panic(name_message("metavariable '", n, "' in infer_type")),
            ),
            ExprKind::Sort(l) => {
                if l.depth() >= u32::MAX {
                    return Err(panic_error("universe level too deep"));
                }
                Ok(Expr::sort(Level::succ(l.clone())))
            },
            ExprKind::Const(name, levels) => self.infer_constant(name, levels.as_slice()),
            ExprKind::App(f, a) => self.infer_app(f, a),
            ExprKind::Lam(name, domain, body, bi) => self.infer_lambda(name, domain, body, *bi),
            ExprKind::ForallE(_, domain, body, _) => self.infer_pi(domain, body).0,
            ExprKind::LetE(_, ty, val, body, _) => self.infer_let(ty, val, body),
            ExprKind::Lit(lit) => Ok(self.infer_lit(lit)),
            ExprKind::MData(_, inner) => self.infer_type(inner),
            ExprKind::Proj(sname, idx, inner) => self.infer_proj(sname, *idx, inner),
        }
    }

    /// The type of a constant at the given universe levels.
    fn infer_constant(&self, name: &Name, levels: &[Level]) -> (r: KernelResult<Expr>)
        ensures
            r matches Err(x) ==> !(x is AlreadyDeclared),
            !self.environment().constants.contains_key(name@) ==> (r matches Err(
                KernelError::UnknownConstant(m),
            ) && m@ == name@),
            self.environment().constants.contains_key(name@)
                && self.environment().constants[name@].spec_level_params().len() != levels@.len()
                ==> (r matches Err(KernelError::IncorrectNumLevels { name: m, expected, got })
                && m@ == name@ && expected == self.environment().constants[name@].spec_level_params().len()
                && got == levels@.len()),
            r matches Ok(t) ==> self.environment().constants.contains_key(name@) && (levels@.len()
                == 0 ==> t@ == self.environment().constants[name@].spec_type()),
            self.environment().constants.contains_key(name@) && levels@.len() == 0
                && self.environment().constants[name@].spec_level_params().len() == 0 ==> r is Ok,
            r matches Ok(t) ==> t@ == const_type_at(self.environment(), name@, levels_view(levels@)),
    {
        let info = self.env.get(name)?;
        let expected = info.level_params().len();
        let got = levels.len();
        if expected != got {
            return Err(KernelError::IncorrectNumLevels { name: name.clone(), expected, got });
        }
        let ty = info.type_().clone();
        if levels.len() == 0 {
            Ok(ty)
        } else {
            let params = info.level_params();
            if !ty.inst_lparams_fits(params, levels) {
                return Err(panic_error("universe level too deep"));
            }
            Ok(ty.instantiate_level_params(params, levels))
        }
    }

    fn infer_app(&mut self, f: &Expr, a: &Expr) -> (r: KernelResult<Expr>)
        requires
            old(self).inv(),
        ensures
            r matches Err(x) ==> !(x is AlreadyDeclared),
            final(self).inv(),
            final(self).environment() == old(self).environment(),
            final(self).steps_left() <= old(self).steps_left(),
            final(self).slack() >= old(self).slack(),
            !old(self).infer_cached(ehash(f@) as u64) && old(self).steps_left() == 0 ==> (r matches Err(
                KernelError::Panic(m),
            ) && m@ == budget_text()),
        decreases old(self).steps_left(), 2int,
    {
        let f_type = self.infer_type(f)?;
        let f_type = self.whnf(&f_type)?;
        if !f_type.is_forall() {
            return Err(KernelError::FunctionExpected(f.clone()));
        }
        let body = f_type.binding_body();
        if !body.inst1_fits(a) {
            return Err(panic_error("bound variable index out of range"));
        }
        Ok(body.instantiate1(a))
    }

    fn infer_lambda(&mut self, name: &Name, domain: &Expr, body: &Expr, bi: crate::expr::BinderInfo) -> (r:
        KernelResult<Expr>)
        requires
            old(self).inv(),
            old(self).slack() >= 1,
        ensures
            r matches Err(x) ==> !(x is AlreadyDeclared),
            final(self).inv(),
            final(self).environment() == old(self).environment(),
            final(self).steps_left() <= old(self).steps_left(),
            final(self).slack() >= old(self).slack() - 1,
            r matches Ok(t) ==> t@ matches ExprV::ForallE(n, d, _, b) && n == name@ && *d
                == domain@ && b == bi,
            !old(self).infer_cached(ehash(domain@) as u64) && old(self).steps_left() == 0 ==> (r matches Err(
                KernelError::Panic(m),
            ) && m@ == budget_text()),
        decreases old(self).steps_left(), 2int,
    {
        let domain_type = self.infer_type(domain)?;
        self.ensure_sort(&domain_type)?;
        let fvar_name = self.fresh_name();
        self.local_ctx.insert(fvar_name.clone(), domain.clone());
        let fvar = Expr::fvar(fvar_name.clone());
        if !body.inst1_fits(&fvar) {
            return Err(panic_error("bound variable index out of range"));
        }
        let body_inst = body.instantiate1(&fvar);
        let body_type = self.infer_type(&body_inst)?;
        self.local_ctx.remove(&fvar_name);
        let fv = vec![fvar];
        if !body_type.abstract_fits(fv.as_slice()) {
            return Err(panic_error("bound variable index out of range"));
        }
        let body_type_abs = body_type.abstract_(fv.as_slice());
        Ok(Expr::forall_e(name.clone(), domain.clone(), body_type_abs, bi))
    }

    /// The type of the pi type `∀ x : domain, body`: `Sort (imax s1 s2)`,
    /// where the domain's type reduces to `Sort s1` and the type of the body
    /// (opened with a fresh variable) reduces to `Sort s2`. Besides the
    /// result it hands back, as ghost values, `s1`, `s2` and the body's
    /// type.
    fn infer_pi(&mut self, domain: &Expr, body: &Expr) -> (r: (
        KernelResult<Expr>,
        Ghost<LevelV>,
        Ghost<LevelV>,
        Ghost<ExprV>,
    ))
        requires
            old(self).inv(),
            old(self).slack() >= 1,
        ensures
            r.0 matches Err(x) ==> !(x is AlreadyDeclared),
            final(self).inv(),
            final(self).environment() == old(self).environment(),
            final(self).steps_left() <= old(self).steps_left(),
            final(self).slack() >= old(self).slack() - 1,
            r.0 matches Ok(t) ==> t@ == ExprV::Sort(spec_imax(r.1@, r.2@)),
            r.0 matches Ok(t) ==> (r.2@ is Zero ==> t@ == ExprV::Sort(LevelV::Zero)),
            r.0 matches Ok(t) ==> (is_not_zero(r.2@) ==> t@ == ExprV::Sort(spec_max(r.1@, r.2@))),
            r.0 is Ok ==> final(self).whnf_cached(ehash(r.3@) as u64) && final(self).cached_whnf(
                ehash(r.3@) as u64,
            ) == ExprV::Sort(r.2@),
            !old(self).infer_cached(ehash(domain@) as u64) && old(self).steps_left() == 0 ==> (r.0 matches Err(
                KernelError::Panic(m),
            ) && m@ == budget_text()),
        decreases old(self).steps_left(), 2int,
    {
        let none = (Ghost(LevelV::Zero), Ghost(LevelV::Zero), Ghost(ExprV::BVar(0)));
        let domain_type = match self.infer_type(domain) {
            Ok(t) => t,
            Err(e) => {
                return (Err(e), none.0, none.1, none.2);
            },
        };
        let s1 = match self.ensure_sort(&domain_type) {
            Ok(l) => l,
            Err(e) => {
                return (Err(e), none.0, none.1, none.2);
            },
        };
        let fvar_name = self.fresh_name();
        self.local_ctx.insert(fvar_name.clone(), domain.clone());
        let fvar = Expr::fvar(fvar_name.clone());
        if !body.inst1_fits(&fvar) {
            return (Err(panic_error("bound variable index out of range")), none.0, none.1, none.2);
        }
        let body_inst = body.instantiate1(&fvar);
        let body_type = match self.infer_type(&body_inst) {
            Ok(t) => t,
            Err(e) => {
                return (Err(e), none.0, none.1, none.2);
            },
        };
        self.local_ctx.remove(&fvar_name);
        let s2 = match self.ensure_sort(&body_type) {
            Ok(l) => l,
            Err(e) => {
                return (Err(e), none.0, none.1, none.2);
            },
        };
        let ghost found = (s1@, s2@, body_type@);
        let res: KernelResult<Expr> = if s1.depth() >= u32::MAX || s2.depth() >= u32::MAX {
            Err(panic_error("universe level too deep"))
        } else {
            Ok(Expr::sort(Level::imax(s1, s2)))
        };
        (res, Ghost(found.0), Ghost(found.1), Ghost(found.2))
    }

    fn infer_let(&mut self, ty: &Expr, val: &Expr, body: &Expr) -> (r: KernelResult<Expr>)
        requires
            old(self).inv(),
        ensures
            r matches Err(x) ==> !(x is AlreadyDeclared),
            final(self).inv(),
            final(self).environment() == old(self).environment(),
            final(self).steps_left() <= old(self).steps_left(),
            final(self).slack() >= old(self).slack(),
            !old(self).infer_cached(ehash(ty@) as u64) && old(self).steps_left() == 0 ==> (r matches Err(
                KernelError::Panic(m),
            ) && m@ == budget_text()),
        decreases old(self).steps_left(), 2int,
    {
        let ty_type = self.infer_type(ty)?;
        self.ensure_sort(&ty_type)?;
        if !body.inst1_fits(val) {
            return Err(panic_error("bound variable index out of range"));
        }
        let body_inst = body.instantiate1(val);
        self.infer_type(&body_inst)
    }

    /// The type of a literal: `Nat` or `String`.
    fn infer_lit(&self, lit: &Literal) -> (r: Expr)
        ensures
            lit@ is Nat ==> r@ == ExprV::Const(seq![Limb::Str("Nat"@)], Seq::empty()),
            lit@ is Str ==> r@ == ExprV::Const(seq![Limb::Str("String"@)], Seq::empty()),
    {
        let r = match lit {
            Literal::Nat(_) => Expr::const_(Name::mk_simple("Nat"), Vec::new()),
            Literal::Str(_) => Expr::const_(Name::mk_simple("String"), Vec::new()),
        };
        proof {
            reveal_strlit("Nat");
            reveal_strlit("String");
            assert(crate::expr::levels_view(Seq::<Level>::empty()) =~= Seq::<LevelV>::empty());
        }
        r
    }

    fn infer_proj(&mut self, sname: &Name, idx: u64, e: &Expr) -> (r: KernelResult<Expr>)
        requires
            old(self).inv(),
        ensures
            r matches Err(x) ==> !(x is AlreadyDeclared),
            final(self).inv(),
            final(self).environment() == old(self).environment(),
            final(self).steps_left() <= old(self).steps_left(),
            final(self).slack() >= old(self).slack(),
            !old(self).infer_cached(ehash(e@) as u64) && old(self).steps_left() == 0 ==> (r matches Err(
                KernelError::Panic(m),
            ) && m@ == budget_text()),
        decreases old(self).steps_left(), 2int,
    {
        let e_type = self.infer_type(e)?;
        let e_type = self.whnf(&e_type)?;
        let e_type_fn = e_type.get_app_fn();
        if !e_type_fn.is_const() || !crate::name::names_equal(e_type_fn.const_name(), sname) {
            return Err(
                KernelError::TypeMismatch {
                    expected: Expr::const_(sname.clone(), Vec::new()),
                    got: e_type.clone(),
                },
            );
        }
        let info = self.env.get(sname)?;
        match info {
            ConstantInfo::Inductive { ctors, num_params, .. } => {
                if ctors.len() != 1 {
                    return Err(
                        KernelError::InductiveError(
                            name_message("projection on non-structure type '", sname, "'"),
                        ),
                    );
                }
                let ctor_info = self.env.get(&ctors[0])?;
                let ctor_type = ctor_info.type_().clone();
                let levels = e_type_fn.const_levels();
                let params = info.level_params();
                if params.len() > 0 && !ctor_type.inst_lparams_fits(params, levels) {
                    return Err(panic_error("universe level too deep"));
                }
                let mut ty = ctor_type.instantiate_level_params(params, levels);
                let mut e_type_args: Vec<Expr> = Vec::new();
                e_type.get_app_args(&mut e_type_args);
                let mut i: usize = 0;
                while (i as u64) < (*num_params as u64)
                    invariant
                        i <= *num_params,
                        self.inv(),
                        self.environment() == old(self).environment(),
                        self.steps_left() <= old(self).steps_left(),
                        self.slack() >= old(self).slack(),
                        old(self).infer_cached(ehash(e@) as u64) || old(self).steps_left() > 0,
                    decreases *num_params - i,
                {
                    if !ty.is_forall() {
                        return Err(KernelError::InductiveError(message("projection type error")));
                    }
                    let arg = if i < e_type_args.len() {
                        &e_type_args[i]
                    } else {
                        e
                    };
                    let body = ty.binding_body();
                    if !body.inst1_fits(arg) {
                        return Err(panic_error("bound variable index out of range"));
                    }
                    ty = body.instantiate1(arg);
                    i = i + 1;
                }
                let mut j: u64 = 0;
                while j < idx
                    invariant
                        j <= idx,
                        self.inv(),
                        self.environment() == old(self).environment(),
                        self.steps_left() <= old(self).steps_left(),
                        self.slack() >= old(self).slack(),
                        old(self).infer_cached(ehash(e@) as u64) || old(self).steps_left() > 0,
                    decreases idx - j,
                {
                    if !ty.is_forall() {
                        return Err(
                            KernelError::InductiveError(message("projection index out of range")),
                        );
                    }
                    let proj_j = Expr::proj(sname.clone(), j, e.clone());
                    let body = ty.binding_body();
                    if !body.inst1_fits(&proj_j) {
                        return Err(panic_error("bound variable index out of range"));
                    }
                    ty = body.instantiate1(&proj_j);
                    j = j + 1;
                }
                if ty.is_forall() {
                    Ok(ty.binding_domain().clone())
                } else {
                    Err(KernelError::InductiveError(message("projection index out of range")))
                }
            },
            _ => Err(
                KernelError::InductiveError(
                    name_message("'", sname, "' is not an inductive type"),
                ),
            ),
        }
    }
    // ─── Weak head normal form ──────────────────────────────────────────

    /// Reduce an expression to weak head normal form. A result found in the
    /// cache under the expression's hash is returned as it is; otherwise the
    /// result is reached from `e` by steps of `whnf_step`.
    pub fn whnf(&mut self, e: &Expr) -> (r: KernelResult<Expr>)
        requires
            old(self).inv(),
        ensures
            r matches Err(x) ==> !(x is AlreadyDeclared),
            r matches Err(x) ==> x is Panic,
            final(self).inv(),
            final(self).environment() == old(self).environment(),
            final(self).steps_left() <= old(self).steps_left(),
            final(self).slack() >= old(self).slack(),
            r matches Ok(w) ==> whnf_shape(w@),
            !old(self).whnf_cached(ehash(e@) as u64) ==> (r matches Ok(w) ==> exists|k: nat|
                reduces_in(e@, w@, k)),
            r matches Ok(w) ==> (final(self).whnf_cached(ehash(e@) as u64)
                && final(self).cached_whnf(ehash(e@) as u64) == w@),
            old(self).whnf_cached(ehash(e@) as u64) ==> (r matches Ok(w) && w@
                == old(self).cached_whnf(ehash(e@) as u64)),
            !old(self).whnf_cached(ehash(e@) as u64) && old(self).steps_left() == 0 ==> (r matches Err(
                KernelError::Panic(m),
            ) && m@ == budget_text()),
            (!old(self).whnf_cached(ehash(e@) as u64) && old(self).steps_left() >= 2 && whnf_atom(
                e@,
            )) ==> (r matches Ok(w) && w@ == e@),
            (!old(self).whnf_cached(ehash(e@) as u64) && old(self).steps_left() >= 2 && whnf_atom(
                e@,
            )) ==> final(self).steps_left() == old(self).steps_left() - 2 && forall|k: u64|
                #[trigger] final(self).whnf_cached(k) == (k == ehash(e@) as u64 || old(
                    self,
                ).whnf_cached(k)),
        decreases old(self).steps_left(), 0int,
    {
        let key = e.hash() as u64;
        if let Some(cached) = self.whnf_cache.get(key) {
            return Ok(cached);
        }
        self.spend()?;
        let result = self.whnf_core(e)?;
        self.whnf_cache.insert(key, result.clone());
        Ok(result)
    }

    fn whnf_core(&mut self, e: &Expr) -> (r: KernelResult<Expr>)
        requires
            old(self).inv(),
        ensures
            r matches Err(x) ==> !(x is AlreadyDeclared),
            (old(self).budget > 0 && whnf_atom(e@)) ==> (r matches Ok(w) && w@ == e@),
            (old(self).budget > 0 && whnf_atom(e@)) ==> final(self).whnf_cache == old(
                self,
            ).whnf_cache && final(self).budget == old(self).budget - 1,
            r matches Err(x) ==> x is Panic,
            final(self).inv(),
            final(self).environment() == old(self).environment(),
            final(self).steps_left() <= old(self).steps_left(),
            final(self).slack() >= old(self).slack(),
            r matches Ok(w) ==> whnf_shape(w@),
            r matches Ok(w) ==> exists|k: nat| reduces_in(e@, w@, k),
        decreases old(self).steps_left(), 4int,
    {
        let ghost start_env = self.environment();
        let ghost start_budget = self.budget;
        let ghost start_slack = self.slack();
        let ghost orig = e@;
        let ghost mut first = true;
        
        let mut cur = e.clone();
        proof {
            assert(reduces_in(orig, cur@, 0));
        }
        loop
            invariant
                first ==> (cur@ == orig && self.budget == start_budget && self.whnf_cache == old(
                    self,
                ).whnf_cache),
                orig == e@,
                !first ==> !whnf_atom(orig),
                self.inv(),
                self.environment() == start_env,
                self.budget <= start_budget,
                self.slack() >= start_slack,
                start_budget == old(self).budget,
                start_env == old(self).environment(),
                start_slack == old(self).slack(),
                exists|k: nat| reduces_in(orig, cur@, k),
            decreases self.budget,
        {
            self.spend()?;
            let next: Option<Expr> = match cur.kind() {
                ExprKind::BVar(_) | ExprKind::FVar(_) | ExprKind::MVar(_) | ExprKind::Sort(_)
                | ExprKind::Lam(..) | ExprKind::ForallE(..) | ExprKind::Lit(_) => None,
                ExprKind::Const(_, _) => self.unfold_definition(&cur)?,
                ExprKind::App(f, a) => {
                    if f.is_lam() {
                        let body = f.binding_body();
                        if !body.inst1_fits(a) {
                            return Err(panic_error("bound variable index out of range"));
                        }
                        Some(cur.head_beta_reduce())
                    } else {
                        let fn_ = cur.get_app_fn();
                        if fn_.is_const() {
                            self.try_reduce_app(&cur)?
                        } else if fn_.is_lam() {
                            Some(beta_all(&cur)?)
                        } else {
                            None
                        }
                    }
                },
                ExprKind::LetE(_, _, val, body, _) => {
                    if !body.inst1_fits(val) {
                        return Err(panic_error("bound variable index out of range"));
                    }
                    Some(body.instantiate1(val))
                },
                ExprKind::MData(_, inner) => Some(inner.clone()),
                ExprKind::Proj(sname, idx, s) => self.reduce_proj(sname, *idx, s)?,
            };
            match next {
                Some(n) => {
                    proof {
                        assert(first ==> !whnf_atom(orig));
                        first = false;
                        let k = choose|k: nat| reduces_in(orig, cur@, k);
                        assert(whnf_step(cur@, n@));
                        assert(reduces_in(orig, n@, k + 1));
                    }
                    cur = n;
                },
                None => {
                    return Ok(cur);
                },
            }
        }
    }

    /// Try to reduce an application whose head is a constant.
    fn try_reduce_app(&mut self, e: &Expr) -> (r: KernelResult<Option<Expr>>)
        requires
            old(self).inv(),
            app_fn_of(e@) is Const,
        ensures
            r matches Err(x) ==> !(x is AlreadyDeclared),
            r matches Err(x) ==> x is Panic,
            final(self).inv(),
            final(self).environment() == old(self).environment(),
            final(self).steps_left() <= old(self).steps_left(),
            final(self).slack() >= old(self).slack(),
        decreases old(self).steps_left(), 3int,
    {
        let fn_ = e.get_app_fn();
        let fn_name = fn_.const_name();
        if self.env.is_recursor(fn_name) {
            if let Some(reduced) = self.reduce_recursor(e)? {
                return Ok(Some(reduced));
            }
        }
        if self.env.is_quot_initialized() && is_quot_rec(fn_name) {
            let mut all_args: Vec<Expr> = Vec::new();
            let ghost before = all_args@;
            e.get_app_args(&mut all_args);
            proof {
                let t = app_args_of(e@);
                assert(exprs_view(before) =~= Seq::<ExprV>::empty());
                assert(Seq::<ExprV>::empty() + t.reverse() =~= t.reverse());
                assert(t.reverse().reverse() =~= t);
                assert(exprs_view(all_args@) == t);
                assert(exprs_view(all_args@).len() == all_args@.len());
                assert(all_args@.len() == all_args.len());
                assert(t.len() <= usize::MAX);
            }
            let env = self.env.clone();
            let steps = self.budget;
            let whnf_fn = |x: &Expr| -> (w: Expr)
                {
                    let mut tc = TypeChecker::with_budget(env.clone(), steps);
                    match tc.whnf(x) {
                        Ok(w) => w,
                        Err(_) => x.clone(),
                    }
                };
            if let Some(reduced) = quot_reduce_rec(e, &whnf_fn) {
                return Ok(Some(reduced));
            }
        }
        if let Some(unfolded) = self.unfold_definition(fn_)? {
            let mut args: Vec<Expr> = Vec::new();
            e.get_app_args(&mut args);
            return Ok(Some(Expr::mk_app(unfolded, args.as_slice())));
        }
        Ok(None)
    }

    /// Unfold a definition constant (not an unsafe one).
    fn unfold_definition(&self, e: &Expr) -> (r: KernelResult<Option<Expr>>)
        ensures
            r matches Err(x) ==> !(x is AlreadyDeclared),
            r matches Err(x) ==> x is Panic,
            !(e@ is Const) ==> r == Ok::<Option<Expr>, KernelError>(None),
    {
        if !e.is_const() {
            return Ok(None);
        }
        let name = e.const_name();
        let levels = e.const_levels();
        match self.env.find(name) {
            Some(ConstantInfo::Definition { value, level_params, safety, .. }) => {
                if *safety == DefinitionSafety::Unsafe {
                    return Ok(None);
                }
                if levels.len() == 0 {
                    Ok(Some(value.clone()))
                } else {
                    if level_params.len() > 0 && !value.inst_lparams_fits(
                        level_params.as_slice(),
                        levels,
                    ) {
                        return Err(panic_error("universe level too deep"));
                    }
                    Ok(Some(value.instantiate_level_params(level_params.as_slice(), levels)))
                }
            },
            _ => Ok(None),
        }
    }

    /// Reduce a projection out of a constructor application.
    fn reduce_proj(&mut self, sname: &Name, idx: u64, struct_expr: &Expr) -> (r: KernelResult<
        Option<Expr>,
    >)
        requires
            old(self).inv(),
        ensures
            r matches Err(x) ==> !(x is AlreadyDeclared),
            r matches Err(x) ==> x is Panic,
            final(self).inv(),
            final(self).environment() == old(self).environment(),
            final(self).steps_left() <= old(self).steps_left(),
            final(self).slack() >= old(self).slack(),
        decreases old(self).steps_left(), 1int,
    {
        let s = self.whnf(struct_expr)?;
        let s_fn = s.get_app_fn();
        if !s_fn.is_const() {
            return Ok(None);
        }
        if let Some(ConstantInfo::Constructor { induct_name, num_params, .. }) = self.env.find(
            s_fn.const_name(),
        ) {
            if !crate::name::names_equal(induct_name, sname) {
                return Ok(None);
            }
            let field_idx = match idx.checked_add(*num_params as u64) {
                Some(k) => k,
                None => {
                    return Ok(None);
                },
            };
            let mut args: Vec<Expr> = Vec::new();
            s.get_app_args(&mut args);
            if field_idx < args.len() as u64 {
                return Ok(Some(args[field_idx as usize].clone()));
            }
        }
        Ok(None)
    }

    /// Reduce a recursor application whose major premise reduces to a
    /// constructor (iota reduction).
    fn reduce_recursor(&mut self, e: &Expr) -> (r: KernelResult<Option<Expr>>)
        requires
            old(self).inv(),
            app_fn_of(e@) is Const,
        ensures
            r matches Err(x) ==> !(x is AlreadyDeclared),
            r matches Err(x) ==> x is Panic,
            final(self).inv(),
            final(self).environment() == old(self).environment(),
            final(self).steps_left() <= old(self).steps_left(),
            final(self).slack() >= old(self).slack(),
        decreases old(self).steps_left(), 2int,
    {
        let fn_ = e.get_app_fn();
        let fn_name = fn_.const_name();
        let (num_params, num_indices, num_motives, num_minors, rules) = match self.env.find(
            fn_name,
        ) {
            Some(
                ConstantInfo::Recursor {
                    num_params,
                    num_indices,
                    num_motives,
                    num_minors,
                    rules,
                    ..
                },
            ) => (*num_params as u64, *num_indices as u64, *num_motives as u64, *num_minors as u64, rules.clone()),
            _ => {
                return Ok(None);
            },
        };
        let mut args: Vec<Expr> = Vec::new();
        e.get_app_args(&mut args);
        let major_idx: u64 = num_params + num_motives + num_minors + num_indices;
        if (args.len() as u64) <= major_idx {
            return Ok(None);
        }
        let major = self.whnf(&args[major_idx as usize])?;
        let major_fn = major.get_app_fn();
        if !major_fn.is_const() {
            return Ok(None);
        }
        let ctor_name = major_fn.const_name();
        let mut found: Option<usize> = None;
        let mut k: usize = 0;
        while k < rules.len()
            invariant
                k <= rules@.len(),
                found matches Some(x) ==> x < rules@.len(),
            decreases rules@.len() - k,
        {
            if crate::name::names_equal(&rules[k].ctor_name, ctor_name) {
                found = Some(k);
                break;
            }
            k = k + 1;
        }
        let rule = match found {
            Some(x) => &rules[x],
            None => {
                return Ok(None);
            },
        };
        let mut major_args: Vec<Expr> = Vec::new();
        major.get_app_args(&mut major_args);
        let mut result = rule.rhs.clone();
        let levels = fn_.const_levels();
        if levels.len() > 0 {
            if let Some(ConstantInfo::Recursor { level_params, .. }) = self.env.find(fn_name) {
                if level_params.len() > 0 && !result.inst_lparams_fits(
                    level_params.as_slice(),
                    levels,
                ) {
                    return Err(panic_error("universe level too deep"));
                }
                result = result.instantiate_level_params(level_params.as_slice(), levels);
            }
        }
        let pre_args_count: u64 = num_params + num_motives + num_minors;
        let pre_end: usize = if pre_args_count < args.len() as u64 {
            pre_args_count as usize
        } else {
            args.len()
        };
        let mut i: usize = 0;
        while i < pre_end
            invariant
                pre_end <= args@.len(),
            decreases pre_end - i,
        {
            result = Expr::app(result, args[i].clone());
            i = i + 1;
        }
        let fields_end_u64: u64 = num_params + rule.num_fields as u64;
        let fields_end: usize = if fields_end_u64 < major_args.len() as u64 {
            fields_end_u64 as usize
        } else {
            major_args.len()
        };
        let mut i: usize = if num_params < major_args.len() as u64 {
            num_params as usize
        } else {
            major_args.len()
        };
        while i < fields_end
            invariant
                fields_end <= major_args@.len(),
            decreases fields_end - i,
        {
            result = Expr::app(result, major_args[i].clone());
            i = i + 1;
        }
        let mut i: usize = major_idx as usize + 1;
        while i < args.len()
            decreases args.len() - i,
        {
            result = Expr::app(result, args[i].clone());
            i = i + 1;
        }
        Ok(Some(result))
    }
    // ─── Definitional equality ──────────────────────────────────────────

    /// Check if two expressions are definitionally equal.
    pub fn is_def_eq(&mut self, a: &Expr, b: &Expr) -> (r: KernelResult<bool>)
        requires
            old(self).inv(),
        ensures
            r matches Err(x) ==> !(x is AlreadyDeclared),
            final(self).inv(),
            final(self).environment() == old(self).environment(),
            final(self).steps_left() <= old(self).steps_left(),
            final(self).slack() >= old(self).slack(),
            expr_eq(a@, b@) ==> r == Ok::<bool, KernelError>(true),
            !expr_eq(a@, b@) ==> (old(self).cached_def_eq((ehash(a@) as u64, ehash(b@) as u64))
                matches Some(c) ==> r == Ok::<bool, KernelError>(c)),
            !expr_eq(a@, b@) && old(self).cached_def_eq((ehash(a@) as u64, ehash(b@) as u64))
                is None && old(self).steps_left() == 0 ==> (r matches Err(KernelError::Panic(m))
                && m@ == budget_text()),
            !expr_eq(a@, b@) && old(self).cached_def_eq((ehash(a@) as u64, ehash(b@) as u64))
                is None && old(self).sorts_compared(a@, b@, 5) ==> r == Ok::<bool, KernelError>(
                sort_levels_equivalent(a@, b@),
            ),
        decreases old(self).steps_left(), 0int,
    {
        if exprs_equal(a, b) {
            return Ok(true);
        }
        let key = (a.hash() as u64, b.hash() as u64);
        if let Some(cached) = self.def_eq_cache.get(key) {
            return Ok(cached);
        }
        self.spend()?;
        let result = self.is_def_eq_core(a, b)?;
        self.def_eq_cache.insert(key, result);
        Ok(result)
    }

    fn is_def_eq_core(&mut self, a: &Expr, b: &Expr) -> (r: KernelResult<bool>)
        requires
            old(self).inv(),
            old(self).slack() >= 1,
        ensures
            r matches Err(x) ==> !(x is AlreadyDeclared),
            final(self).inv(),
            final(self).environment() == old(self).environment(),
            final(self).steps_left() <= old(self).steps_left(),
            final(self).slack() >= old(self).slack() - 1,
            expr_eq(a@, b@) ==> r == Ok::<bool, KernelError>(true) && *final(self) == *old(self),
            old(self).sorts_compared(a@, b@, 4) ==> r == Ok::<bool, KernelError>(
                sort_levels_equivalent(a@, b@),
            ),
        decreases old(self).steps_left(), 4int,
    {
        if exprs_equal(a, b) {
            return Ok(true);
        }
        let a = self.whnf(a)?;
        let b = self.whnf(b)?;
        if exprs_equal(&a, &b) {
            return Ok(true);
        }
        match (a.kind(), b.kind()) {
            (ExprKind::Sort(l1), ExprKind::Sort(l2)) => {
                return Ok(levels_equivalent(l1, l2));
            },
            (ExprKind::Const(n1, ls1), ExprKind::Const(n2, ls2)) => {
                if crate::name::names_equal(n1, n2) && ls1.len() == ls2.len() {
                    let mut all_eq = true;
                    let mut i: usize = 0;
                    while i < ls1.len()
                        invariant
                            ls1@.len() == ls2@.len(),
                        decreases ls1@.len() - i,
                    {
                        if !levels_equivalent(&ls1[i], &ls2[i]) {
                            all_eq = false;
                            break;
                        }
                        i = i + 1;
                    }
                    if all_eq {
                        return Ok(true);
                    }
                }
            },
            (ExprKind::BVar(i1), ExprKind::BVar(i2)) => {
                return Ok(*i1 == *i2);
            },
            (ExprKind::FVar(n1), ExprKind::FVar(n2)) => {
                return Ok(crate::name::names_equal(n1, n2));
            },
            _ => {},
        }
        if (a.is_lam() && b.is_lam()) || (a.is_forall() && b.is_forall()) {
            return self.is_def_eq_binding(&a, &b);
        }
        if a.is_app() && b.is_app() {
            if self.is_def_eq_app(&a, &b)? {
                return Ok(true);
            }
        }
        match self.is_proof_irrel(&a, &b) {
            Ok(true) => {
                return Ok(true);
            },
            _ => {},
        }
        if self.try_eta(&a, &b)? {
            return Ok(true);
        }
        Ok(false)
    }

    /// Compare two binders: their domains, then their bodies opened with one
    /// fresh variable.
    fn is_def_eq_binding(&mut self, a: &Expr, b: &Expr) -> (r: KernelResult<bool>)
        requires
            old(self).inv(),
            old(self).slack() >= 1,
            a@ is Lam || a@ is ForallE,
            b@ is Lam || b@ is ForallE,
        ensures
            r matches Err(x) ==> !(x is AlreadyDeclared),
            final(self).inv(),
            final(self).environment() == old(self).environment(),
            final(self).steps_left() <= old(self).steps_left(),
            final(self).slack() >= old(self).slack() - 1,
            !expr_eq(binding_domain_of(a@), binding_domain_of(b@)) && old(self).cached_def_eq(
                (ehash(binding_domain_of(a@)) as u64, ehash(binding_domain_of(b@)) as u64),
            ) is None && old(self).steps_left() == 0 ==> (r matches Err(KernelError::Panic(m)) && m@
                == budget_text()),
        decreases old(self).steps_left(), 2int,
    {
        if !self.is_def_eq(a.binding_domain(), b.binding_domain())? {
            return Ok(false);
        }
        let fvar_name = self.fresh_name();
        self.local_ctx.insert(fvar_name.clone(), a.binding_domain().clone());
        let fvar = Expr::fvar(fvar_name.clone());
        if !a.binding_body().inst1_fits(&fvar) || !b.binding_body().inst1_fits(&fvar) {
            return Err(panic_error("bound variable index out of range"));
        }
        let a_body = a.binding_body().instantiate1(&fvar);
        let b_body = b.binding_body().instantiate1(&fvar);
        let result = self.is_def_eq(&a_body, &b_body);
        self.local_ctx.remove(&fvar_name);
        result
    }

    /// Compare two applications: heads and arguments pairwise.
    fn is_def_eq_app(&mut self, a: &Expr, b: &Expr) -> (r: KernelResult<bool>)
        requires
            old(self).inv(),
        ensures
            r matches Err(x) ==> !(x is AlreadyDeclared),
            final(self).inv(),
            final(self).environment() == old(self).environment(),
            final(self).steps_left() <= old(self).steps_left(),
            final(self).slack() >= old(self).slack(),
            app_args_of(a@).len() != app_args_of(b@).len() ==> r == Ok::<bool, KernelError>(false),
        decreases old(self).steps_left(), 2int,
    {
        let mut a_args: Vec<Expr> = Vec::new();
        let mut b_args: Vec<Expr> = Vec::new();
        let a_fn = a.get_app_args(&mut a_args);
        let b_fn = b.get_app_args(&mut b_args);
        proof {
            assert(exprs_view(a_args@).len() == app_args_of(a@).len());
            assert(exprs_view(b_args@).len() == app_args_of(b@).len());
        }
        if a_args.len() != b_args.len() {
            return Ok(false);
        }
        if !self.is_def_eq(a_fn, b_fn)? {
            return Ok(false);
        }
        let ghost start_env = self.environment();
        let ghost start_budget = self.budget;
        let ghost start_slack = self.slack();
        let mut i: usize = 0;
        while i < a_args.len()
            invariant
                a_args@.len() == b_args@.len(),
                app_args_of(a@).len() == app_args_of(b@).len(),
                self.inv(),
                self.environment() == start_env,
                self.budget <= start_budget,
                self.slack() >= start_slack,
                start_budget <= old(self).budget,
                start_env == old(self).environment(),
                start_slack >= old(self).slack(),
            decreases a_args@.len() - i,
        {
            if !self.is_def_eq(&a_args[i], &b_args[i])? {
                return Ok(false);
            }
            i = i + 1;
        }
        Ok(true)
    }

    /// Proof irrelevance: two proofs of the same proposition are equal.
    fn is_proof_irrel(&mut self, a: &Expr, b: &Expr) -> (r: KernelResult<bool>)
        requires
            old(self).inv(),
        ensures
            r matches Err(x) ==> !(x is AlreadyDeclared),
            final(self).inv(),
            final(self).environment() == old(self).environment(),
            final(self).steps_left() <= old(self).steps_left(),
            final(self).slack() >= old(self).slack(),
            !old(self).infer_cached(ehash(a@) as u64) && old(self).steps_left() == 0 ==> (r matches Err(
                KernelError::Panic(m),
            ) && m@ == budget_text()),
        decreases old(self).steps_left(), 2int,
    {
        let a_type = self.infer_type(a)?;
        let a_type = self.whnf(&a_type)?;
        if a_type.is_prop() {
            return Ok(true);
        }
        let a_type_type = self.infer_type(&a_type)?;
        let a_type_type = self.whnf(&a_type_type)?;
        if a_type_type.is_prop() {
            let b_type = self.infer_type(b)?;
            if self.is_def_eq(&a_type, &b_type)? {
                return Ok(true);
            }
        }
        Ok(false)
    }

    /// Eta: a lambda equals `fun x => e x` for an `e` that is no lambda.
    fn try_eta(&mut self, a: &Expr, b: &Expr) -> (r: KernelResult<bool>)
        requires
            old(self).inv(),
        ensures
            r matches Err(x) ==> !(x is AlreadyDeclared),
            final(self).inv(),
            final(self).environment() == old(self).environment(),
            final(self).steps_left() <= old(self).steps_left(),
            final(self).slack() >= old(self).slack(),
            (a@ is Lam) == (b@ is Lam) ==> r == Ok::<bool, KernelError>(false) && *final(self)
                == *old(self),
        decreases old(self).steps_left(), 2int,
    {
        if a.is_lam() && !b.is_lam() {
            if !b.lift_fits(0, 1) {
                return Err(panic_error("bound variable index out of range"));
            }
            let b_eta = Expr::lam(
                a.binding_name().clone(),
                a.binding_domain().clone(),
                Expr::app(b.lift_loose_bvars(0, 1), Expr::bvar(0)),
                a.binding_info(),
            );
            return self.is_def_eq(a, &b_eta);
        }
        if b.is_lam() && !a.is_lam() {
            if !a.lift_fits(0, 1) {
                return Err(panic_error("bound variable index out of range"));
            }
            let a_eta = Expr::lam(
                b.binding_name().clone(),
                b.binding_domain().clone(),
                Expr::app(a.lift_loose_bvars(0, 1), Expr::bvar(0)),
                b.binding_info(),
            );
            return self.is_def_eq(&a_eta, b);
        }
        Ok(false)
    }

    // ─── Checking helpers ───────────────────────────────────────────────

    /// The level of a sort, after reducing to weak head normal form.
    pub fn ensure_sort(&mut self, e: &Expr) -> (r: KernelResult<Level>)
        requires
            old(self).inv(),
        ensures
            r matches Err(x) ==> !(x is AlreadyDeclared),
            final(self).inv(),
            final(self).environment() == old(self).environment(),
            final(self).steps_left() <= old(self).steps_left(),
            final(self).slack() >= old(self).slack(),
            r matches Err(KernelError::TypeExpected(w)) ==> whnf_shape(w@) && !(w@ is Sort),
            r matches Ok(l) ==> (final(self).whnf_cached(ehash(e@) as u64)
                && final(self).cached_whnf(ehash(e@) as u64) == ExprV::Sort(l@)),
        decreases old(self).steps_left(), 1int,
    {
        let w = self.whnf(e)?;
        let level = match w.kind() {
            ExprKind::Sort(l) => Some(l.clone()),
            _ => None,
        };
        match level {
            Some(l) => Ok(l),
            None => Err(KernelError::TypeExpected(w)),
        }
    }

    /// A Pi type, after reducing to weak head normal form.
    pub fn ensure_pi(&mut self, e: &Expr) -> (r: KernelResult<Expr>)
        requires
            old(self).inv(),
        ensures
            r matches Err(x) ==> !(x is AlreadyDeclared),
            final(self).inv(),
            final(self).environment() == old(self).environment(),
            final(self).steps_left() <= old(self).steps_left(),
            final(self).slack() >= old(self).slack(),
            r matches Ok(t) ==> t@ is ForallE,
            r matches Err(KernelError::FunctionExpected(w)) ==> whnf_shape(w@) && !(w@ is ForallE),
        decreases old(self).steps_left(), 1int,
    {
        let w = self.whnf(e)?;
        if w.is_forall() {
            Ok(w)
        } else {
            Err(KernelError::FunctionExpected(w))
        }
    }
    // ─── Declaration checking ───────────────────────────────────────────

    /// Check a declaration and add it to the environment.
    pub fn check_and_add(&mut self, decl: Declaration) -> (r: KernelResult<Environment>)
        requires
            old(self).inv(),
        ensures
            final(self).inv(),
            final(self).steps_left() <= old(self).steps_left(),
            r is Err ==> final(self).environment() == old(self).environment(),
            r matches Ok(env) ==> final(self).environment() == env@,
            decl is Quot ==> (r matches Ok(env) && env@.constants == old(self).environment().constants
                && env@.quot_initialized),
            decl is InductiveDecl ==> (r matches Err(KernelError::InductiveError(m)) && m@
                == "inductive checking not yet implemented"@),
            checked_decl(decl) ==> (has_mvars(decl_type(decl)) ==> (r matches Err(
                KernelError::HasMVar(n),
            ) && n@ == decl_name(decl))),
            checked_decl(decl) ==> (!has_mvars(decl_type(decl)) && e_has_fvar(decl_type(decl)) ==> (
            r matches Err(KernelError::HasFVar(n)) && n@ == decl_name(decl))),
            checked_decl(decl) && !(decl is Axiom) && !has_mvars(decl_type(decl)) && !e_has_fvar(
                decl_type(decl),
            ) ==> (has_mvars(decl_value(decl)) ==> (r matches Err(KernelError::HasMVar(n)) && n@
                == decl_name(decl))),
            checked_decl(decl) && !(decl is Axiom) && !has_mvars(decl_type(decl)) && !e_has_fvar(
                decl_type(decl),
            ) && !has_mvars(decl_value(decl)) ==> (e_has_fvar(decl_value(decl)) ==> (r matches Err(
                KernelError::HasFVar(n),
            ) && n@ == decl_name(decl))),
            r matches Err(KernelError::AlreadyDeclared(n)) ==> checked_decl(decl) && n@ == decl_name(
                decl,
            ) && old(self).environment().constants.contains_key(decl_name(decl)),
            checked_decl(decl) ==> (r matches Ok(env) ==> !old(self).environment().constants.contains_key(
                decl_name(decl),
            ) && env@.constants == old(self).environment().constants.insert(
                decl_name(decl),
                env@.constants[decl_name(decl)],
            ) && env@.constants[decl_name(decl)]@ == decl_constant(decl)
                && env@.quot_initialized == old(self).environment().quot_initialized),
    {
        match decl {
            Declaration::Axiom { name, level_params, type_, is_unsafe } => {
                self.check_no_mvar_fvar(&name, &type_)?;
                let _sort = self.check_type(&type_, level_params.as_slice())?;
                let info = ConstantInfo::Axiom { name, level_params, type_, is_unsafe };
                self.env = self.env.add_constant(info)?;
                Ok(self.env.clone())
            },
            Declaration::Definition { name, level_params, type_, value, hints, safety } => {
                self.check_no_mvar_fvar(&name, &type_)?;
                self.check_no_mvar_fvar(&name, &value)?;
                let _sort = self.check_type(&type_, level_params.as_slice())?;
                let val_type = self.infer_type(&value)?;
                if !self.is_def_eq(&type_, &val_type)? {
                    return Err(KernelError::TypeMismatch { expected: type_.clone(), got: val_type });
                }
                let info = ConstantInfo::Definition { name, level_params, type_, value, hints, safety };
                self.env = self.env.add_constant(info)?;
                Ok(self.env.clone())
            },
            Declaration::Theorem { name, level_params, type_, value } => {
                self.check_no_mvar_fvar(&name, &type_)?;
                self.check_no_mvar_fvar(&name, &value)?;
                let _sort = self.check_type(&type_, level_params.as_slice())?;
                let val_type = self.infer_type(&value)?;
                if !self.is_def_eq(&type_, &val_type)? {
                    return Err(KernelError::TypeMismatch { expected: type_.clone(), got: val_type });
                }
                let info = ConstantInfo::Theorem { name, level_params, type_, value };
                self.env = self.env.add_constant(info)?;
                Ok(self.env.clone())
            },
            Declaration::Opaque { name, level_params, type_, value, is_unsafe } => {
                self.check_no_mvar_fvar(&name, &type_)?;
                self.check_no_mvar_fvar(&name, &value)?;
                let _sort = self.check_type(&type_, level_params.as_slice())?;
                let val_type = self.infer_type(&value)?;
                if !self.is_def_eq(&type_, &val_type)? {
                    return Err(KernelError::TypeMismatch { expected: type_.clone(), got: val_type });
                }
                let info = ConstantInfo::Opaque { name, level_params, type_, value, is_unsafe };
                self.env = self.env.add_constant(info)?;
                Ok(self.env.clone())
            },
            Declaration::Quot => {
                self.env = self.env.set_quot_initialized();
                Ok(self.env.clone())
            },
            Declaration::InductiveDecl { .. } => {
                Err(KernelError::InductiveError(message("inductive checking not yet implemented")))
            },
        }
    }

    /// Check that a type is valid: its type is a sort.
    fn check_type(&mut self, type_: &Expr, _level_params: &[Name]) -> (r: KernelResult<Level>)
        requires
            old(self).inv(),
        ensures
            r matches Err(x) ==> !(x is AlreadyDeclared),
            final(self).inv(),
            final(self).environment() == old(self).environment(),
            final(self).steps_left() <= old(self).steps_left(),
            final(self).slack() >= old(self).slack(),
    {
        let ty = self.infer_type(type_)?;
        self.ensure_sort(&ty)
    }

    /// A declaration may hold neither metavariables nor free variables.
    fn check_no_mvar_fvar(&self, name: &Name, e: &Expr) -> (r: KernelResult<()>)
        ensures
            r matches Err(x) ==> !(x is AlreadyDeclared),
            has_mvars(e@) ==> (r matches Err(KernelError::HasMVar(n)) && n@ == name@),
            !has_mvars(e@) && e_has_fvar(e@) ==> (r matches Err(KernelError::HasFVar(n)) && n@
                == name@),
            !has_mvars(e@) && !e_has_fvar(e@) ==> r is Ok,
    {
        if e.has_expr_mvar() || e.has_univ_mvar() {
            return Err(KernelError::HasMVar(name.clone()));
        }
        if e.has_fvar() {
            return Err(KernelError::HasFVar(name.clone()));
        }
        Ok(())
    }
}

/// Beta-reduce the application `e` of a lambda to all its arguments: each
/// argument instantiates the body while it is a lambda, and is applied to it
/// after.
fn beta_all(e: &Expr) -> (r: KernelResult<Expr>)
    ensures
        r matches Err(x) ==> x is Panic,
{
    let mut args: Vec<Expr> = Vec::new();
    let head = e.get_app_args(&mut args);
    let mut result = head.clone();
    let mut i: usize = 0;
    while i < args.len()
        decreases args.len() - i,
    {
        if result.is_lam() {
            let body = result.binding_body();
            if !body.inst1_fits(&args[i]) {
                return Err(panic_error("bound variable index out of range"));
            }
            result = body.instantiate1(&args[i]);
        } else {
            result = Expr::app(result, args[i].clone());
        }
        i = i + 1;
    }
    Ok(result)
}

/// A message of the checker's own.
fn message(s: &str) -> (r: String)
    ensures
        r@ == s@,
{
    string_from_chars(chars_of(s).as_slice())
}

} // verus!
