//! Universe levels in Lean 4's type theory.
//!
//! Lean 4 uses a cumulative universe hierarchy: `Prop : Sort 0`,
//! `Type u : Sort (u+1)`. Levels are zero, successor, max, imax, parameters
//! and metavariables.
use std::sync::Arc;
use vstd::prelude::*;

use crate::name::{names_equal, spec_name_hash, Limb, Name};

verus! {

/// A universe level as a mathematical value.
pub enum LevelV {
    Zero,
    Succ(Box<LevelV>),
    Max(Box<LevelV>, Box<LevelV>),
    IMax(Box<LevelV>, Box<LevelV>),
    Param(Seq<Limb>),
    MVar(Seq<Limb>),
}

/// Largest depth a level can record.
pub open spec fn depth_limit() -> nat {
    0xffff_ffffnat
}

/// Number of nodes of a level.
pub open spec fn size(l: LevelV) -> nat
    decreases l,
{
    match l {
        LevelV::Succ(a) => 1 + size(*a),
        LevelV::Max(a, b) => 1 + size(*a) + size(*b),
        LevelV::IMax(a, b) => 1 + size(*a) + size(*b),
        _ => 1,
    }
}

/// The height of the level tree (leaves have depth 0).
pub open spec fn depth(l: LevelV) -> nat
    decreases l,
{
    match l {
        LevelV::Succ(a) => depth(*a) + 1,
        LevelV::Max(a, b) => if depth(*a) >= depth(*b) {
            depth(*a) + 1
        } else {
            depth(*b) + 1
        },
        LevelV::IMax(a, b) => if depth(*a) >= depth(*b) {
            depth(*a) + 1
        } else {
            depth(*b) + 1
        },
        _ => 0,
    }
}

/// The level-hash combiner: `a * 31 + b` modulo 2^32.
pub open spec fn mix32(a: u32, b: u32) -> u32 {
    vstd::wrapping::u32_specs::wrapping_add(vstd::wrapping::u32_specs::wrapping_mul(a, 31), b)
}

/// The cached hash of a level.
pub open spec fn level_hash(l: LevelV) -> u32
    decreases l,
{
    match l {
        LevelV::Zero => 2221,
        LevelV::Succ(a) => mix32(level_hash(*a), 2243),
        LevelV::Max(a, b) => mix32(level_hash(*a), mix32(level_hash(*b), 2251)),
        LevelV::IMax(a, b) => mix32(level_hash(*a), mix32(level_hash(*b), 2267)),
        LevelV::Param(n) => mix32(spec_name_hash(n) as u32, 2237),
        LevelV::MVar(n) => mix32(spec_name_hash(n) as u32, 2239),
    }
}

/// Some metavariable occurs in the level.
pub open spec fn has_mvar(l: LevelV) -> bool
    decreases l,
{
    match l {
        LevelV::Succ(a) => has_mvar(*a),
        LevelV::Max(a, b) => has_mvar(*a) || has_mvar(*b),
        LevelV::IMax(a, b) => has_mvar(*a) || has_mvar(*b),
        LevelV::MVar(_) => true,
        _ => false,
    }
}

/// Some parameter occurs in the level.
pub open spec fn has_param(l: LevelV) -> bool
    decreases l,
{
    match l {
        LevelV::Succ(a) => has_param(*a),
        LevelV::Max(a, b) => has_param(*a) || has_param(*b),
        LevelV::IMax(a, b) => has_param(*a) || has_param(*b),
        LevelV::Param(_) => true,
        _ => false,
    }
}

/// `succ^n(zero)` for some `n`.
pub open spec fn is_explicit(l: LevelV) -> bool
    decreases l,
{
    match l {
        LevelV::Zero => true,
        LevelV::Succ(a) => is_explicit(*a),
        _ => false,
    }
}

/// `l` with all outer `succ` removed.
pub open spec fn base(l: LevelV) -> LevelV
    decreases l,
{
    match l {
        LevelV::Succ(a) => base(*a),
        _ => l,
    }
}

/// The number of outer `succ` of `l`.
pub open spec fn offset(l: LevelV) -> nat
    decreases l,
{
    match l {
        LevelV::Succ(a) => offset(*a) + 1,
        _ => 0,
    }
}

/// `succ^k(l)`.
pub open spec fn succ_n(l: LevelV, k: nat) -> LevelV
    decreases k,
{
    if k == 0 {
        l
    } else {
        LevelV::Succ(Box::new(succ_n(l, (k - 1) as nat)))
    }
}

/// Constructor discriminant used for ordering.
pub open spec fn kind_num(l: LevelV) -> u8 {
    match l {
        LevelV::Zero => 0,
        LevelV::Succ(_) => 1,
        LevelV::Max(_, _) => 2,
        LevelV::IMax(_, _) => 3,
        LevelV::Param(_) => 4,
        LevelV::MVar(_) => 5,
    }
}

/// Definitely not zero for any assignment of the parameters.
pub open spec fn is_not_zero(l: LevelV) -> bool
    decreases l,
{
    match l {
        LevelV::Succ(_) => true,
        LevelV::Max(a, b) => is_not_zero(*a) || is_not_zero(*b),
        LevelV::IMax(_, b) => is_not_zero(*b),
        _ => false,
    }
}

/// `succ(zero)`.
pub open spec fn is_one(l: LevelV) -> bool {
    l == LevelV::Succ(Box::new(LevelV::Zero))
}

/// The simplifications of the smart `max` constructor.
pub open spec fn spec_max(a: LevelV, b: LevelV) -> LevelV {
    if is_explicit(a) && is_explicit(b) {
        if depth(a) >= depth(b) {
            a
        } else {
            b
        }
    } else if a == b {
        a
    } else if a is Zero {
        b
    } else if b is Zero {
        a
    } else if b matches LevelV::Max(x, y) && (*x == a || *y == a) {
        b
    } else if a matches LevelV::Max(x, y) && (*x == b || *y == b) {
        a
    } else if base(a) == base(b) {
        if offset(a) > offset(b) {
            a
        } else {
            b
        }
    } else {
        LevelV::Max(Box::new(a), Box::new(b))
    }
}

/// The smart `max` stays within the depth limit.
pub open spec fn max_ok(a: LevelV, b: LevelV) -> bool {
    spec_max(a, b) == LevelV::Max(Box::new(a), Box::new(b)) ==> (depth(a) < depth_limit() && depth(
        b,
    ) < depth_limit())
}

/// The simplifications of the smart `imax` constructor.
pub open spec fn spec_imax(a: LevelV, b: LevelV) -> LevelV {
    if is_not_zero(b) {
        spec_max(a, b)
    } else if b is Zero {
        b
    } else if a is Zero || is_one(a) {
        b
    } else if a == b {
        a
    } else {
        LevelV::IMax(Box::new(a), Box::new(b))
    }
}

/// The smart `imax` stays within the depth limit.
pub open spec fn imax_ok(a: LevelV, b: LevelV) -> bool {
    if is_not_zero(b) {
        max_ok(a, b)
    } else {
        spec_imax(a, b) == LevelV::IMax(Box::new(a), Box::new(b)) ==> (depth(a) < depth_limit()
            && depth(b) < depth_limit())
    }
}

/// Std `Arc::clone`: a new handle to the same allocation.
#[verifier::external_body]
fn share<T>(a: &Arc<T>) -> (res: Arc<T>)
    ensures
        res == *a,
{
    Arc::clone(a)
}

/// Universe levels in Lean 4's type theory.
#[derive(Debug)]
pub struct Level {
    inner: Arc<LevelInner>,
}

#[derive(Debug)]
struct LevelInner {
    kind: LevelKind,
    data: LevelData,
}

/// Cached metadata for a level, matching Lean 4's packed layout.
#[derive(Debug)]
struct LevelData {
    hash: u32,
    has_mvar: bool,
    has_param: bool,
    depth: u32,
}

#[derive(Debug)]
enum LevelKind {
    Zero,
    Succ(Level),
    Max(Level, Level),
    IMax(Level, Level),
    Param(Name),
    MVar(Name),
}

impl Level {
    /// The level as a mathematical value.
    pub closed spec fn lv(&self) -> LevelV
        decreases self,
    {
        match self.inner.kind {
            LevelKind::Zero => LevelV::Zero,
            LevelKind::Succ(a) => LevelV::Succ(Box::new(a.lv())),
            LevelKind::Max(a, b) => LevelV::Max(Box::new(a.lv()), Box::new(b.lv())),
            LevelKind::IMax(a, b) => LevelV::IMax(Box::new(a.lv()), Box::new(b.lv())),
            LevelKind::Param(n) => LevelV::Param(n@),
            LevelKind::MVar(n) => LevelV::MVar(n@),
        }
    }

    /// The first sub-level of a `succ`, `max` or `imax` node.
    pub closed spec fn first_child(&self) -> Level {
        match self.inner.kind {
            LevelKind::Succ(a) => a,
            LevelKind::Max(a, _) => a,
            LevelKind::IMax(a, _) => a,
            _ => *self,
        }
    }

    /// The second sub-level of a `max` or `imax` node.
    pub closed spec fn second_child(&self) -> Level {
        match self.inner.kind {
            LevelKind::Max(_, b) => b,
            LevelKind::IMax(_, b) => b,
            _ => *self,
        }
    }

    /// The sub-levels have the values of the children of the level's value.
    pub proof fn lemma_children_view(&self)
        ensures
            self.lv() is Succ ==> self.lv() == LevelV::Succ(Box::new(self.first_child().lv())),
            self.lv() is Max ==> self.lv() == LevelV::Max(
                Box::new(self.first_child().lv()),
                Box::new(self.second_child().lv()),
            ),
            self.lv() is IMax ==> self.lv() == LevelV::IMax(
                Box::new(self.first_child().lv()),
                Box::new(self.second_child().lv()),
            ),
    {
    }

    /// The cached data describes the level.
    #[verifier::type_invariant]
    closed spec fn cached_data_ok(self) -> bool {
        &&& self.inner.data.hash == level_hash(self.lv())
        &&& self.inner.data.has_mvar == has_mvar(self.lv())
        &&& self.inner.data.has_param == has_param(self.lv())
        &&& self.inner.data.depth == depth(self.lv())
    }
}

impl View for Level {
    type V = LevelV;

    open spec fn view(&self) -> LevelV {
        self.lv()
    }
}

impl Clone for Level {
    fn clone(&self) -> (r: Self)
        ensures
            r == *self,
    {
        proof {
            use_type_invariant(self);
        }
        Level { inner: share(&self.inner) }
    }
}

/// The level-hash combiner (`a * 31 + b`, wrapping).
fn mix_hash_u32(a: u32, b: u32) -> (r: u32)
    ensures
        r == mix32(a, b),
{
    a.wrapping_mul(31).wrapping_add(b)
}

fn truncate_hash(h: u64) -> (r: u32)
    ensures
        r == h as u32,
{
    h as u32
}

impl Level {
    pub fn zero() -> (r: Self)
        ensures
            r@ == LevelV::Zero,
    {
        Level {
            inner: Arc::new(
                LevelInner {
                    kind: LevelKind::Zero,
                    data: LevelData { hash: 2221, has_mvar: false, has_param: false, depth: 0 },
                },
            ),
        }
    }

    pub fn succ(l: Level) -> (r: Self)
        requires
            depth(l@) < depth_limit(),
        ensures
            r@ == LevelV::Succ(Box::new(l@)),
    {
        proof {
            use_type_invariant(&l);
        }
        let data = LevelData {
            hash: mix_hash_u32(l.inner.data.hash, 2243),
            has_mvar: l.inner.data.has_mvar,
            has_param: l.inner.data.has_param,
            depth: l.inner.data.depth + 1,
        };
        Level { inner: Arc::new(LevelInner { kind: LevelKind::Succ(l), data }) }
    }

    /// Raw max constructor (no simplification).
    pub fn max_core(l1: Level, l2: Level) -> (r: Self)
        requires
            depth(l1@) < depth_limit(),
            depth(l2@) < depth_limit(),
        ensures
            r@ == LevelV::Max(Box::new(l1@), Box::new(l2@)),
    {
        proof {
            use_type_invariant(&l1);
            use_type_invariant(&l2);
        }
        let d1 = l1.inner.data.depth;
        let d2 = l2.inner.data.depth;
        let data = LevelData {
            hash: mix_hash_u32(l1.inner.data.hash, mix_hash_u32(l2.inner.data.hash, 2251)),
            has_mvar: l1.inner.data.has_mvar || l2.inner.data.has_mvar,
            has_param: l1.inner.data.has_param || l2.inner.data.has_param,
            depth: if d1 >= d2 {
                d1 + 1
            } else {
                d2 + 1
            },
        };
        Level { inner: Arc::new(LevelInner { kind: LevelKind::Max(l1, l2), data }) }
    }

    /// Raw imax constructor (no simplification).
    pub fn imax_core(l1: Level, l2: Level) -> (r: Self)
        requires
            depth(l1@) < depth_limit(),
            depth(l2@) < depth_limit(),
        ensures
            r@ == LevelV::IMax(Box::new(l1@), Box::new(l2@)),
    {
        proof {
            use_type_invariant(&l1);
            use_type_invariant(&l2);
        }
        let d1 = l1.inner.data.depth;
        let d2 = l2.inner.data.depth;
        let data = LevelData {
            hash: mix_hash_u32(l1.inner.data.hash, mix_hash_u32(l2.inner.data.hash, 2267)),
            has_mvar: l1.inner.data.has_mvar || l2.inner.data.has_mvar,
            has_param: l1.inner.data.has_param || l2.inner.data.has_param,
            depth: if d1 >= d2 {
                d1 + 1
            } else {
                d2 + 1
            },
        };
        Level { inner: Arc::new(LevelInner { kind: LevelKind::IMax(l1, l2), data }) }
    }

    /// Smart `max` constructor with simplifications.
    pub fn max(l1: Level, l2: Level) -> (r: Self)
        requires
            max_ok(l1@, l2@),
        ensures
            r@ == spec_max(l1@, l2@),
    {
        if l1.is_explicit() && l2.is_explicit() {
            return if l1.depth() >= l2.depth() {
                l1
            } else {
                l2
            };
        }
        if levels_equal(&l1, &l2) {
            return l1;
        }
        if l1.is_zero() {
            return l2;
        }
        if l2.is_zero() {
            return l1;
        }
        if let LevelKind::Max(a, b) = &l2.inner.kind {
            if levels_equal(a, &l1) || levels_equal(b, &l1) {
                return l2;
            }
        }
        if let LevelKind::Max(a, b) = &l1.inner.kind {
            if levels_equal(a, &l2) || levels_equal(b, &l2) {
                return l1;
            }
        }
        let (base1, off1) = l1.to_offset();
        let (base2, off2) = l2.to_offset();
        if levels_equal(&base1, &base2) {
            return if off1 > off2 {
                l1
            } else {
                l2
            };
        }
        Level::max_core(l1, l2)
    }

    /// Smart `imax` constructor with simplifications.
    pub fn imax(l1: Level, l2: Level) -> (r: Self)
        requires
            imax_ok(l1@, l2@),
        ensures
            r@ == spec_imax(l1@, l2@),
    {
        if l2.is_not_zero() {
            return Level::max(l1, l2);
        }
        if l2.is_zero() {
            return l2;
        }
        if l1.is_zero() || l1.is_one() {
            return l2;
        }
        if levels_equal(&l1, &l2) {
            return l1;
        }
        Level::imax_core(l1, l2)
    }

    pub fn param(n: Name) -> (r: Self)
        ensures
            r@ == LevelV::Param(n@),
    {
        let hash = mix_hash_u32(truncate_hash(n.hash()), 2237);
        Level {
            inner: Arc::new(
                LevelInner {
                    kind: LevelKind::Param(n),
                    data: LevelData { hash, has_mvar: false, has_param: true, depth: 0 },
                },
            ),
        }
    }

    pub fn mvar(n: Name) -> (r: Self)
        ensures
            r@ == LevelV::MVar(n@),
    {
        let hash = mix_hash_u32(truncate_hash(n.hash()), 2239);
        Level {
            inner: Arc::new(
                LevelInner {
                    kind: LevelKind::MVar(n),
                    data: LevelData { hash, has_mvar: true, has_param: false, depth: 0 },
                },
            ),
        }
    }

    /// `Type 0` = `Sort 1` = `Sort (succ zero)`.
    pub fn one() -> (r: Self)
        ensures
            r@ == LevelV::Succ(Box::new(LevelV::Zero)),
    {
        Level::succ(Level::zero())
    }

    /// Build `succ^k(l)`.
    pub fn succ_n(l: Level, k: u32) -> (r: Self)
        requires
            depth(l@) + k <= depth_limit(),
        ensures
            r@ == succ_n(l@, k as nat),
    {
        let mut r = l;
        let mut i: u32 = 0;
        while i < k
            invariant
                i <= k,
                depth(l@) + k <= depth_limit(),
                r@ == succ_n(l@, i as nat),
                depth(r@) == depth(l@) + i,
            decreases k - i,
        {
            r = Level::succ(r);
            i = i + 1;
        }
        r
    }

    pub fn hash(&self) -> (h: u32)
        ensures
            h == level_hash(self@),
    {
        proof {
            use_type_invariant(self);
        }
        self.inner.data.hash
    }

    pub fn depth(&self) -> (d: u32)
        ensures
            d == depth(self@),
    {
        proof {
            use_type_invariant(self);
        }
        self.inner.data.depth
    }

    pub fn has_mvar(&self) -> (b: bool)
        ensures
            b == has_mvar(self@),
    {
        proof {
            use_type_invariant(self);
        }
        self.inner.data.has_mvar
    }

    pub fn has_param(&self) -> (b: bool)
        ensures
            b == has_param(self@),
    {
        proof {
            use_type_invariant(self);
        }
        self.inner.data.has_param
    }

    pub fn is_zero(&self) -> (b: bool)
        ensures
            b == self@ is Zero,
    {
        match &self.inner.kind {
            LevelKind::Zero => true,
            _ => false,
        }
    }

    pub fn is_succ(&self) -> (b: bool)
        ensures
            b == self@ is Succ,
    {
        match &self.inner.kind {
            LevelKind::Succ(_) => true,
            _ => false,
        }
    }

    pub fn is_max(&self) -> (b: bool)
        ensures
            b == self@ is Max,
    {
        match &self.inner.kind {
            LevelKind::Max(_, _) => true,
            _ => false,
        }
    }

    pub fn is_imax(&self) -> (b: bool)
        ensures
            b == self@ is IMax,
    {
        match &self.inner.kind {
            LevelKind::IMax(_, _) => true,
            _ => false,
        }
    }

    pub fn is_param(&self) -> (b: bool)
        ensures
            b == self@ is Param,
    {
        match &self.inner.kind {
            LevelKind::Param(_) => true,
            _ => false,
        }
    }

    pub fn is_mvar(&self) -> (b: bool)
        ensures
            b == self@ is MVar,
    {
        match &self.inner.kind {
            LevelKind::MVar(_) => true,
            _ => false,
        }
    }

    pub fn is_one(&self) -> (b: bool)
        ensures
            b == is_one(self@),
    {
        match &self.inner.kind {
            LevelKind::Succ(inner) => inner.is_zero(),
            _ => false,
        }
    }

    /// A level is explicit if it is `succ^n(zero)` for some `n`.
    pub fn is_explicit(&self) -> (b: bool)
        ensures
            b == is_explicit(self@),
        decreases size(self@),
    {
        match &self.inner.kind {
            LevelKind::Zero => true,
            LevelKind::Succ(l) => l.is_explicit(),
            _ => false,
        }
    }

    /// The number an explicit level stands for.
    pub fn to_explicit(&self) -> (r: Option<u32>)
        ensures
            r == if is_explicit(self@) {
                Some(offset(self@) as u32)
            } else {
                None::<u32>
            },
    {
        if self.is_explicit() {
            Some(self.to_offset().1)
        } else {
            None
        }
    }

    /// Decompose `succ^k(l)` into `(l, k)`.
    pub fn to_offset(&self) -> (r: (Level, u32))
        ensures
            r.0@ == base(self@),
            r.1 == offset(self@),
    {
        proof {
            use_type_invariant(self);
            lemma_offset_le_depth(self@);
        }
        let mut l = self.clone();
        let mut k: u32 = 0;
        loop
            invariant
                base(l@) == base(self@),
                offset(l@) + k == offset(self@),
                offset(self@) <= depth(self@) <= depth_limit(),
            decreases offset(l@),
        {
            let next = match &l.inner.kind {
                LevelKind::Succ(inner) => inner.clone(),
                _ => {
                    return (l, k);
                },
            };
            k = k + 1;
            l = next;
        }
    }

    /// The inner level of `succ(l)`.
    pub fn succ_of(&self) -> (r: &Level)
        requires
            self@ is Succ,
        ensures
            LevelV::Succ(Box::new(r@)) == self@,
            *r == self.first_child(),
    {
        match &self.inner.kind {
            LevelKind::Succ(l) => l,
            _ => vstd::pervasive::unreached(),
        }
    }

    pub fn max_lhs(&self) -> (r: &Level)
        requires
            self@ is Max,
        ensures
            self@ matches LevelV::Max(a, _) && *a == r@,
            *r == self.first_child(),
    {
        match &self.inner.kind {
            LevelKind::Max(l, _) => l,
            _ => vstd::pervasive::unreached(),
        }
    }

    pub fn max_rhs(&self) -> (r: &Level)
        requires
            self@ is Max,
        ensures
            self@ matches LevelV::Max(_, b) && *b == r@,
            *r == self.second_child(),
    {
        match &self.inner.kind {
            LevelKind::Max(_, r) => r,
            _ => vstd::pervasive::unreached(),
        }
    }

    pub fn imax_lhs(&self) -> (r: &Level)
        requires
            self@ is IMax,
        ensures
            self@ matches LevelV::IMax(a, _) && *a == r@,
            *r == self.first_child(),
    {
        match &self.inner.kind {
            LevelKind::IMax(l, _) => l,
            _ => vstd::pervasive::unreached(),
        }
    }

    pub fn imax_rhs(&self) -> (r: &Level)
        requires
            self@ is IMax,
        ensures
            self@ matches LevelV::IMax(_, b) && *b == r@,
            *r == self.second_child(),
    {
        match &self.inner.kind {
            LevelKind::IMax(_, r) => r,
            _ => vstd::pervasive::unreached(),
        }
    }

    /// The left argument of a max or imax.
    pub fn lhs(&self) -> (r: &Level)
        requires
            self@ is Max || self@ is IMax,
        ensures
            self@ matches LevelV::Max(a, _) ==> *a == r@,
            self@ matches LevelV::IMax(a, _) ==> *a == r@,
    {
        match &self.inner.kind {
            LevelKind::Max(l, _) => l,
            LevelKind::IMax(l, _) => l,
            _ => vstd::pervasive::unreached(),
        }
    }

    /// The right argument of a max or imax.
    pub fn rhs(&self) -> (r: &Level)
        requires
            self@ is Max || self@ is IMax,
        ensures
            self@ matches LevelV::Max(_, b) ==> *b == r@,
            self@ matches LevelV::IMax(_, b) ==> *b == r@,
    {
        match &self.inner.kind {
            LevelKind::Max(_, r) => r,
            LevelKind::IMax(_, r) => r,
            _ => vstd::pervasive::unreached(),
        }
    }

    pub fn param_name(&self) -> (r: &Name)
        requires
            self@ is Param,
        ensures
            self@ == LevelV::Param(r@),
    {
        match &self.inner.kind {
            LevelKind::Param(n) => n,
            _ => vstd::pervasive::unreached(),
        }
    }

    pub fn mvar_name(&self) -> (r: &Name)
        requires
            self@ is MVar,
        ensures
            self@ == LevelV::MVar(r@),
    {
        match &self.inner.kind {
            LevelKind::MVar(n) => n,
            _ => vstd::pervasive::unreached(),
        }
    }

    /// The name of a parameter or metavariable.
    pub fn level_id(&self) -> (r: &Name)
        requires
            self@ is Param || self@ is MVar,
        ensures
            self@ == LevelV::Param(r@) || self@ == LevelV::MVar(r@),
    {
        match &self.inner.kind {
            LevelKind::Param(n) => n,
            LevelKind::MVar(n) => n,
            _ => vstd::pervasive::unreached(),
        }
    }

    /// True if the level is not zero for any assignment of the parameters.
    pub fn is_not_zero(&self) -> (b: bool)
        ensures
            b == is_not_zero(self@),
        decreases size(self@),
    {
        match &self.inner.kind {
            LevelKind::Zero => false,
            LevelKind::Param(_) => false,
            LevelKind::MVar(_) => false,
            LevelKind::Succ(_) => true,
            LevelKind::Max(l, r) => l.is_not_zero() || r.is_not_zero(),
            LevelKind::IMax(_, r) => r.is_not_zero(),
        }
    }

    /// Constructor discriminant used for ordering.
    pub fn kind_num(&self) -> (k: u8)
        ensures
            k == kind_num(self@),
    {
        match &self.inner.kind {
            LevelKind::Zero => 0,
            LevelKind::Succ(_) => 1,
            LevelKind::Max(_, _) => 2,
            LevelKind::IMax(_, _) => 3,
            LevelKind::Param(_) => 4,
            LevelKind::MVar(_) => 5,
        }
    }
}

proof fn lemma_offset_le_depth(l: LevelV)
    ensures
        offset(l) <= depth(l),
    decreases l,
{
    if let LevelV::Succ(a) = l {
        lemma_offset_le_depth(*a);
    }
}

/// Structural equality of levels (hash and constructor mismatches decide quickly).
pub fn levels_equal(a: &Level, b: &Level) -> (r: bool)
    ensures
        r == (a@ == b@),
    decreases size(a@),
{
    proof {
        use_type_invariant(a);
        use_type_invariant(b);
    }
    if a.inner.data.hash != b.inner.data.hash {
        return false;
    }
    if a.kind_num() != b.kind_num() {
        return false;
    }
    match (&a.inner.kind, &b.inner.kind) {
        (LevelKind::Zero, LevelKind::Zero) => true,
        (LevelKind::Param(n1), LevelKind::Param(n2)) => names_equal(n1, n2),
        (LevelKind::MVar(n1), LevelKind::MVar(n2)) => names_equal(n1, n2),
        (LevelKind::Succ(x), LevelKind::Succ(y)) => levels_equal(x, y),
        (LevelKind::Max(x1, x2), LevelKind::Max(y1, y2)) => levels_equal(x1, y1) && levels_equal(
            x2,
            y2,
        ),
        (LevelKind::IMax(x1, x2), LevelKind::IMax(y1, y2)) => levels_equal(x1, y1)
            && levels_equal(x2, y2),
        _ => false,
    }
}

impl PartialEq for Level {
    fn eq(&self, other: &Self) -> (r: bool) {
        levels_equal(self, other)
    }
}

impl vstd::std_specs::cmp::PartialEqSpecImpl for Level {
    open spec fn obeys_eq_spec() -> bool {
        true
    }

    open spec fn eq_spec(&self, other: &Self) -> bool {
        self@ == other@
    }
}

impl Eq for Level {

}

} // verus!
