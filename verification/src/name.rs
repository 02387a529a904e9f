//! Hierarchical names, matching Lean 4's `Name` type.
use std::sync::Arc;
use vstd::prelude::*;

use crate::hash::{lean_string_hash, mix_hash, spec_mix_hash, spec_string_hash};
use crate::text::{
    chars_of, decimal, join, join_strings, occurs_in, str_contains, string_from_chars,
    u64_to_decimal,
};

verus! {

/// One component of a name, as a mathematical value.
pub enum Limb {
    Str(Seq<char>),
    Num(u64),
}

/// Hash value of `Name.anonymous` in Lean 4.
pub const ANONYMOUS_HASH: u64 = 1723u64;

/// The hash Lean 4 gives the name with components `v` (root first).
pub open spec fn spec_name_hash(v: Seq<Limb>) -> u64
    decreases v.len(),
{
    if v.len() == 0 {
        ANONYMOUS_HASH
    } else {
        let p = spec_name_hash(v.drop_last());
        match v.last() {
            Limb::Str(s) => spec_mix_hash(p, spec_string_hash(s)),
            Limb::Num(n) => spec_mix_hash(p, n),
        }
    }
}

/// The text of a component: the string itself, or the decimal digits of a number.
pub open spec fn limb_text(l: Limb) -> Seq<char> {
    match l {
        Limb::Str(s) => s,
        Limb::Num(n) => decimal(n as nat),
    }
}

/// The dot-separated rendering of a name; the anonymous name is `[anonymous]`.
pub open spec fn name_text(v: Seq<Limb>) -> Seq<char> {
    if v.len() == 0 {
        "[anonymous]"@
    } else {
        join(v.map_values(|l: Limb| limb_text(l)), "."@)
    }
}

/// Scan of `s` for `from_str_parts`: the finished non-empty dot-separated pieces
/// and the piece still being read.
pub open spec fn dot_scan(s: Seq<char>) -> (Seq<Seq<char>>, Seq<char>)
    decreases s.len(),
{
    if s.len() == 0 {
        (Seq::empty(), Seq::empty())
    } else {
        let (done, cur) = dot_scan(s.drop_last());
        if s.last() == '.' {
            (if cur.len() > 0 { done.push(cur) } else { done }, Seq::empty())
        } else {
            (done, cur.push(s.last()))
        }
    }
}

/// The non-empty pieces of `s` between dots, in order.
pub open spec fn dot_parts(s: Seq<char>) -> Seq<Seq<char>> {
    let (done, cur) = dot_scan(s);
    if cur.len() > 0 {
        done.push(cur)
    } else {
        done
    }
}

/// The components of the name that `from_str_parts` builds from `s`.
pub open spec fn dotted_limbs(s: Seq<char>) -> Seq<Limb> {
    dot_parts(s).map_values(|p: Seq<char>| Limb::Str(p))
}

/// `prefix` replaced by `new_prefix` at the start of `v`, when it is a prefix.
pub open spec fn spec_replace_prefix(v: Seq<Limb>, prefix: Seq<Limb>, new_prefix: Seq<Limb>) -> Seq<
    Limb,
> {
    if prefix.is_prefix_of(v) {
        new_prefix + v.skip(prefix.len() as int)
    } else {
        v
    }
}

/// Some string component of `v` contains `p`.
pub open spec fn some_str_contains(v: Seq<Limb>, p: Seq<char>) -> bool {
    exists|i: int| 0 <= i < v.len() && #[trigger] v[i] is Str && occurs_in(v[i]->Str_0, p)
}

/// Std `Arc::clone`: a new handle to the same allocation.
#[verifier::external_body]
fn share<T>(a: &Arc<T>) -> (res: Arc<T>)
    ensures
        res == *a,
{
    Arc::clone(a)
}

/// Hierarchical names, matching Lean 4's `Name` type.
///
/// Names are immutable, reference-counted, and carry a cached hash.
#[derive(Hash, Debug)]
pub struct Name {
    inner: Arc<NameInner>,
}

#[derive(Hash, Debug)]
struct NameInner {
    kind: NameKind,
    hash: u64,
}

#[derive(Hash, Debug)]
enum NameKind {
    Anonymous,
    Str { prefix: Name, s: String },
    Num { prefix: Name, n: u64 },
}

/// A component of a name as a runtime value.
#[derive(Debug)]
pub enum NameLimbValue {
    Str(String),
    Num(u64),
}

impl View for NameLimbValue {
    type V = Limb;

    open spec fn view(&self) -> Limb {
        match self {
            NameLimbValue::Str(s) => Limb::Str(s@),
            NameLimbValue::Num(n) => Limb::Num(*n),
        }
    }
}

impl Name {
    /// The components of this name, root first.
    pub closed spec fn limbs(&self) -> Seq<Limb>
        decreases self,
    {
        match self.inner.kind {
            NameKind::Anonymous => Seq::empty(),
            NameKind::Str { prefix, s } => prefix.limbs().push(Limb::Str(s@)),
            NameKind::Num { prefix, n } => prefix.limbs().push(Limb::Num(n)),
        }
    }

    /// The cached hash is Lean's hash of the components.
    #[verifier::type_invariant]
    closed spec fn cached_hash_ok(self) -> bool {
        self.inner.hash == spec_name_hash(self.limbs())
    }
}

impl View for Name {
    type V = Seq<Limb>;

    open spec fn view(&self) -> Seq<Limb> {
        self.limbs()
    }
}

impl Clone for Name {
    fn clone(&self) -> (r: Self)
        ensures
            r == *self,
    {
        proof {
            use_type_invariant(self);
        }
        Name { inner: share(&self.inner) }
    }
}

impl Name {
    /// The anonymous (empty) name.
    pub fn anonymous() -> (r: Self)
        ensures
            r@ == Seq::<Limb>::empty(),
    {
        Name { inner: Arc::new(NameInner { kind: NameKind::Anonymous, hash: ANONYMOUS_HASH }) }
    }

    fn mk_str_owned(prefix: Name, s: String) -> (r: Self)
        ensures
            r@ == prefix@.push(Limb::Str(s@)),
    {
        proof {
            use_type_invariant(&prefix);
        }
        let s_hash = lean_string_hash(s.as_str());
        let hash = mix_hash(prefix.hash(), s_hash);
        proof {
            assert(prefix@.push(Limb::Str(s@)).drop_last() == prefix@);
        }
        Name { inner: Arc::new(NameInner { kind: NameKind::Str { prefix, s }, hash }) }
    }

    /// Create a string name component: `prefix.s`.
    pub fn mk_str(prefix: Name, s: &str) -> (r: Self)
        ensures
            r@ == prefix@.push(Limb::Str(s@)),
    {
        Name::mk_str_owned(prefix, s.to_owned())
    }

    /// Create a numeric name component: `prefix.n`.
    pub fn mk_num(prefix: Name, n: u64) -> (r: Self)
        ensures
            r@ == prefix@.push(Limb::Num(n)),
    {
        proof {
            use_type_invariant(&prefix);
        }
        let hash = mix_hash(prefix.hash(), n);
        proof {
            assert(prefix@.push(Limb::Num(n)).drop_last() == prefix@);
        }
        Name { inner: Arc::new(NameInner { kind: NameKind::Num { prefix, n }, hash }) }
    }

    /// Parse a dot-separated string into a hierarchical name; empty pieces are skipped.
    /// e.g. "Lean.Meta.whnf" becomes `.str (.str (.str .anonymous "Lean") "Meta") "whnf"`.
    pub fn from_str_parts(s: &str) -> (r: Self)
        ensures
            r@ == dotted_limbs(s@),
    {
        let cs = chars_of(s);
        let mut result = Name::anonymous();
        let mut cur: Vec<char> = Vec::new();
        let mut i: usize = 0;
        while i < cs.len()
            invariant
                i <= cs@.len(),
                cs@ == s@,
                result@ == dot_scan(cs@.take(i as int)).0.map_values(|p: Seq<char>| Limb::Str(p)),
                cur@ == dot_scan(cs@.take(i as int)).1,
            decreases cs@.len() - i,
        {
            let c = cs[i];
            proof {
                assert(cs@.take(i + 1).drop_last() == cs@.take(i as int));
                assert(cs@.take(i + 1).last() == c);
            }
            if c == '.' {
                if cur.len() > 0 {
                    let piece = string_from_chars(cur.as_slice());
                    let ghost old_result = result@;
                    result = Name::mk_str_owned(result, piece);
                    proof {
                        let d = dot_scan(cs@.take(i as int)).0;
                        assert(d.push(cur@).map_values(|p: Seq<char>| Limb::Str(p)) == d.map_values(
                            |p: Seq<char>| Limb::Str(p),
                        ).push(Limb::Str(cur@)));
                    }
                    cur = Vec::new();
                }
            } else {
                cur.push(c);
            }
            i = i + 1;
        }
        proof {
            assert(cs@.take(cs@.len() as int) == cs@);
        }
        if cur.len() > 0 {
            let piece = string_from_chars(cur.as_slice());
            result = Name::mk_str_owned(result, piece);
            proof {
                let d = dot_scan(cs@).0;
                assert(d.push(cur@).map_values(|p: Seq<char>| Limb::Str(p)) == d.map_values(
                    |p: Seq<char>| Limb::Str(p),
                ).push(Limb::Str(cur@)));
            }
        }
        result
    }

    /// Create a simple (single-component) name.
    pub fn mk_simple(s: &str) -> (r: Self)
        ensures
            r@ == seq![Limb::Str(s@)],
    {
        let r = Name::mk_str(Name::anonymous(), s);
        proof {
            assert(Seq::<Limb>::empty().push(Limb::Str(s@)) == seq![Limb::Str(s@)]);
        }
        r
    }

    /// The cached hash, which is Lean 4's hash of this name.
    pub fn hash(&self) -> (h: u64)
        ensures
            h == spec_name_hash(self@),
    {
        proof {
            use_type_invariant(self);
        }
        self.inner.hash
    }

    pub fn is_anonymous(&self) -> (b: bool)
        ensures
            b == (self@.len() == 0),
    {
        match &self.inner.kind {
            NameKind::Anonymous => true,
            _ => false,
        }
    }

    pub fn is_str(&self) -> (b: bool)
        ensures
            b == (self@.len() > 0 && self@.last() is Str),
    {
        match &self.inner.kind {
            NameKind::Str { .. } => true,
            _ => false,
        }
    }

    pub fn is_num(&self) -> (b: bool)
        ensures
            b == (self@.len() > 0 && self@.last() is Num),
    {
        match &self.inner.kind {
            NameKind::Num { .. } => true,
            _ => false,
        }
    }

    /// Returns `true` if the name has at most one component.
    pub fn is_atomic(&self) -> (b: bool)
        ensures
            b == (self@.len() <= 1),
    {
        match &self.inner.kind {
            NameKind::Anonymous => true,
            NameKind::Str { prefix, .. } => prefix.is_anonymous(),
            NameKind::Num { prefix, .. } => prefix.is_anonymous(),
        }
    }

    /// The prefix of a non-anonymous name; the anonymous name is its own prefix.
    pub fn get_prefix(&self) -> (r: &Name)
        ensures
            r@ == if self@.len() == 0 {
                self@
            } else {
                self@.drop_last()
            },
    {
        match &self.inner.kind {
            NameKind::Anonymous => self,
            NameKind::Str { prefix, .. } => prefix,
            NameKind::Num { prefix, .. } => prefix,
        }
    }

    /// The string component of a string name.
    pub fn get_string(&self) -> (r: &str)
        requires
            self@.len() > 0 && self@.last() is Str,
        ensures
            Limb::Str(r@) == self@.last(),
    {
        match &self.inner.kind {
            NameKind::Str { s, .. } => s.as_str(),
            _ => vstd::pervasive::unreached(),
        }
    }

    /// The numeric component of a numeric name.
    pub fn get_numeral(&self) -> (r: u64)
        requires
            self@.len() > 0 && self@.last() is Num,
        ensures
            Limb::Num(r) == self@.last(),
    {
        match &self.inner.kind {
            NameKind::Num { n, .. } => *n,
            _ => vstd::pervasive::unreached(),
        }
    }

    /// The root (first) component of this name.
    pub fn get_root(&self) -> (r: Name)
        ensures
            r@ == self@.take(if self@.len() == 0 {
                0int
            } else {
                1int
            }),
    {
        let mut n = self.clone();
        while !n.get_prefix().is_anonymous()
            invariant
                n@.len() <= self@.len(),
                self@.len() > 0 ==> n@.len() >= 1,
                self@.len() == 0 ==> n@.len() == 0,
                n@ == self@.take(n@.len() as int),
            decreases n@.len(),
        {
            let next = n.get_prefix().clone();
            proof {
                assert(next@ == self@.take(next@.len() as int));
            }
            n = next;
        }
        n
    }

    /// Whether `self` is a prefix of `other` (component-wise).
    pub fn is_prefix_of(&self, other: &Name) -> (b: bool)
        ensures
            b == self@.is_prefix_of(other@),
    {
        let l1 = self.to_limbs();
        let l2 = other.to_limbs();
        if l1.len() > l2.len() {
            return false;
        }
        let mut i: usize = 0;
        while i < l1.len()
            invariant
                i <= l1@.len() <= l2@.len(),
                l1@.map_values(|l: NameLimbValue| l@) == self@,
                l2@.map_values(|l: NameLimbValue| l@) == other@,
                forall|j: int| 0 <= j < i ==> self@[j] == other@[j],
            decreases l1@.len() - i,
        {
            if !limb_eq(&l1[i], &l2[i]) {
                proof {
                    assert(self@[i as int] == l1@[i as int]@);
                    assert(other@[i as int] == l2@[i as int]@);
                }
                return false;
            }
            proof {
                assert(self@[i as int] == l1@[i as int]@);
                assert(other@[i as int] == l2@[i as int]@);
            }
            i = i + 1;
        }
        true
    }

    /// Concatenate two names: `self + other`.
    pub fn append(&self, other: &Name) -> (r: Name)
        ensures
            r@ == self@ + other@,
        decreases other@.len(),
    {
        if other.is_anonymous() {
            proof {
                assert(self@ + other@ == self@);
            }
            return self.clone();
        }
        if self.is_anonymous() {
            proof {
                assert(self@ + other@ == other@);
            }
            return other.clone();
        }
        match &other.inner.kind {
            NameKind::Anonymous => self.clone(),
            NameKind::Str { prefix, s } => {
                let new_prefix = if prefix.is_anonymous() {
                    proof {
                        assert(self@ + prefix@ == self@);
                    }
                    self.clone()
                } else {
                    self.append(prefix)
                };
                let r = Name::mk_str_owned(new_prefix, s.clone());
                proof {
                    assert(self@ + other@ == (self@ + prefix@).push(Limb::Str(s@)));
                }
                r
            },
            NameKind::Num { prefix, n } => {
                let new_prefix = if prefix.is_anonymous() {
                    proof {
                        assert(self@ + prefix@ == self@);
                    }
                    self.clone()
                } else {
                    self.append(prefix)
                };
                let r = Name::mk_num(new_prefix, *n);
                proof {
                    assert(self@ + other@ == (self@ + prefix@).push(Limb::Num(*n)));
                }
                r
            },
        }
    }

    /// Replace `prefix` at the start of this name with `new_prefix`.
    pub fn replace_prefix(&self, prefix: &Name, new_prefix: &Name) -> (r: Name)
        ensures
            r@ == spec_replace_prefix(self@, prefix@, new_prefix@),
        decreases self@.len(),
    {
        if names_equal(self, prefix) {
            proof {
                assert(self@.skip(prefix@.len() as int) == Seq::<Limb>::empty());
                assert(new_prefix@ + Seq::<Limb>::empty() == new_prefix@);
            }
            return new_prefix.clone();
        }
        match &self.inner.kind {
            NameKind::Anonymous => {
                proof {
                    assert(!prefix@.is_prefix_of(self@));
                }
                self.clone()
            },
            NameKind::Str { prefix: q, s } => {
                let p = q.replace_prefix(prefix, new_prefix);
                let r = Name::mk_str_owned(p, s.clone());
                proof {
                    lemma_replace_prefix_step(self@, q@, Limb::Str(s@), prefix@, new_prefix@);
                }
                r
            },
            NameKind::Num { prefix: q, n } => {
                let p = q.replace_prefix(prefix, new_prefix);
                let r = Name::mk_num(p, *n);
                proof {
                    lemma_replace_prefix_step(self@, q@, Limb::Num(*n), prefix@, new_prefix@);
                }
                r
            },
        }
    }

    /// The components of this name as runtime values, root first.
    pub fn to_limbs(&self) -> (v: Vec<NameLimbValue>)
        ensures
            v@.map_values(|l: NameLimbValue| l@) == self@,
        decreases self@.len(),
    {
        match &self.inner.kind {
            NameKind::Anonymous => {
                let v: Vec<NameLimbValue> = Vec::new();
                proof {
                    assert(v@.map_values(|l: NameLimbValue| l@) == Seq::<Limb>::empty());
                }
                v
            },
            NameKind::Str { prefix, s } => {
                let mut v = prefix.to_limbs();
                let ghost old_v = v@;
                v.push(NameLimbValue::Str(s.clone()));
                proof {
                    assert(v@.map_values(|l: NameLimbValue| l@) == old_v.map_values(
                        |l: NameLimbValue| l@,
                    ).push(Limb::Str(s@)));
                }
                v
            },
            NameKind::Num { prefix, n } => {
                let mut v = prefix.to_limbs();
                let ghost old_v = v@;
                v.push(NameLimbValue::Num(*n));
                proof {
                    assert(v@.map_values(|l: NameLimbValue| l@) == old_v.map_values(
                        |l: NameLimbValue| l@,
                    ).push(Limb::Num(*n)));
                }
                v
            },
        }
    }

    /// Component texts in order (root first); numbers are rendered in decimal.
    pub fn components(&self) -> (v: Vec<String>)
        ensures
            v@.map_values(|s: String| s@) == self@.map_values(|l: Limb| limb_text(l)),
    {
        let limbs = self.to_limbs();
        let mut out: Vec<String> = Vec::new();
        let mut i: usize = 0;
        while i < limbs.len()
            invariant
                i <= limbs@.len(),
                limbs@.map_values(|l: NameLimbValue| l@) == self@,
                out@.len() == i,
                forall|j: int| 0 <= j < i ==> #[trigger] out@[j]@ == limb_text(self@[j]),
            decreases limbs@.len() - i,
        {
            let text = match &limbs[i] {
                NameLimbValue::Str(s) => s.clone(),
                NameLimbValue::Num(n) => u64_to_decimal(*n),
            };
            proof {
                assert(self@[i as int] == limbs@[i as int]@);
            }
            out.push(text);
            i = i + 1;
        }
        proof {
            assert(out@.map_values(|s: String| s@) == self@.map_values(|l: Limb| limb_text(l)));
        }
        out
    }

    /// Dot-separated (or `sep`-separated) rendering; the anonymous name is `[anonymous]`.
    pub fn to_string_with_sep(&self, sep: &str) -> (r: String)
        ensures
            r@ == if self@.len() == 0 {
                "[anonymous]"@
            } else {
                join(self@.map_values(|l: Limb| limb_text(l)), sep@)
            },
    {
        if self.is_anonymous() {
            return "[anonymous]".to_owned();
        }
        let parts = self.components();
        let r = join_strings(&parts, sep);
        proof {
            assert(parts@.map_values(|p: String| p@) == self@.map_values(|l: Limb| limb_text(l)));
        }
        r
    }

    /// The dot-separated rendering (Lean's `toString`).
    pub fn to_string(&self) -> (r: String)
        ensures
            r@ == name_text(self@),
    {
        self.to_string_with_sep(".")
    }

    /// Whether `p` occurs in some string component of this name.
    pub fn contains(&self, p: &str) -> (b: bool)
        ensures
            b == some_str_contains(self@, p@),
    {
        let mut n: &Name = self;
        loop
            invariant
                n@.len() <= self@.len(),
                n@ == self@.take(n@.len() as int),
                forall|i: int|
                    n@.len() <= i < self@.len() ==> !(#[trigger] self@[i] is Str && occurs_in(
                        self@[i]->Str_0,
                        p@,
                    )),
            decreases n@.len(),
        {
            match &n.inner.kind {
                NameKind::Anonymous => {
                    return false;
                },
                NameKind::Str { prefix, s } => {
                    proof {
                        assert(self@[n@.len() - 1] == n@.last());
                    }
                    if str_contains(s.as_str(), p) {
                        return true;
                    }
                    proof {
                        assert(prefix@ == self@.take(prefix@.len() as int));
                    }
                    n = prefix;
                },
                NameKind::Num { prefix, .. } => {
                    proof {
                        assert(self@[n@.len() - 1] == n@.last());
                        assert(prefix@ == self@.take(prefix@.len() as int));
                    }
                    n = prefix;
                },
            }
        }
    }

    /// The number of components of this name.
    pub fn num_parts(&self) -> (r: usize)
        requires
            self@.len() <= usize::MAX,
        ensures
            r == self@.len(),
    {
        let mut count: usize = 0;
        let mut n: &Name = self;
        loop
            invariant
                self@.len() <= usize::MAX,
                count + n@.len() == self@.len(),
            decreases n@.len(),
        {
            match &n.inner.kind {
                NameKind::Anonymous => {
                    return count;
                },
                NameKind::Str { prefix, .. } => {
                    count = count + 1;
                    n = prefix;
                },
                NameKind::Num { prefix, .. } => {
                    count = count + 1;
                    n = prefix;
                },
            }
        }
    }
}

proof fn lemma_replace_prefix_step(
    v: Seq<Limb>,
    q: Seq<Limb>,
    last: Limb,
    prefix: Seq<Limb>,
    new_prefix: Seq<Limb>,
)
    requires
        v == q.push(last),
        v != prefix,
    ensures
        spec_replace_prefix(q, prefix, new_prefix).push(last) == spec_replace_prefix(
            v,
            prefix,
            new_prefix,
        ),
{
    if prefix.is_prefix_of(v) {
        if prefix.len() == v.len() {
            assert(prefix == v);
        }
        assert(prefix.is_prefix_of(q));
        assert((new_prefix + q.skip(prefix.len() as int)).push(last) == new_prefix + v.skip(
            prefix.len() as int,
        ));
    } else {
        if prefix.is_prefix_of(q) {
            assert(prefix.is_prefix_of(v));
        }
    }
}

/// Equality of component values.
fn limb_eq(a: &NameLimbValue, b: &NameLimbValue) -> (r: bool)
    ensures
        r == (a@ == b@),
{
    match (a, b) {
        (NameLimbValue::Str(s1), NameLimbValue::Str(s2)) => *s1 == *s2,
        (NameLimbValue::Num(n1), NameLimbValue::Num(n2)) => *n1 == *n2,
        _ => false,
    }
}

/// Structural comparison of two names (hash mismatch decides quickly).
pub fn names_equal(a: &Name, b: &Name) -> (r: bool)
    ensures
        r == (a@ == b@),
    decreases a@.len(),
{
    proof {
        use_type_invariant(a);
        use_type_invariant(b);
    }
    if a.inner.hash != b.inner.hash {
        return false;
    }
    match &a.inner.kind {
        NameKind::Anonymous => b.is_anonymous(),
        NameKind::Str { prefix: p1, s: s1 } => {
            proof {
                assert(a@ == p1@.push(Limb::Str(s1@)));
            }
            match &b.inner.kind {
                NameKind::Str { prefix: p2, s: s2 } => {
                    proof {
                        assert(b@ == p2@.push(Limb::Str(s2@)));
                    }
                    if !(*s1 == *s2) {
                        proof {
                            assert(a@.last() != b@.last());
                        }
                        return false;
                    }
                    let r = names_equal(p1, p2);
                    proof {
                        if !r {
                            assert(a@.drop_last() == p1@);
                            assert(b@.drop_last() == p2@);
                        }
                    }
                    r
                },
                NameKind::Num { prefix: p2, n: n2 } => {
                    proof {
                        assert(b@ == p2@.push(Limb::Num(*n2)));
                        assert(a@.last() != b@.last());
                    }
                    false
                },
                NameKind::Anonymous => false,
            }
        },
        NameKind::Num { prefix: p1, n: n1 } => {
            proof {
                assert(a@ == p1@.push(Limb::Num(*n1)));
            }
            match &b.inner.kind {
                NameKind::Num { prefix: p2, n: n2 } => {
                    proof {
                        assert(b@ == p2@.push(Limb::Num(*n2)));
                    }
                    if *n1 != *n2 {
                        proof {
                            assert(a@.last() != b@.last());
                        }
                        return false;
                    }
                    let r = names_equal(p1, p2);
                    proof {
                        if !r {
                            assert(a@.drop_last() == p1@);
                            assert(b@.drop_last() == p2@);
                        }
                    }
                    r
                },
                NameKind::Str { prefix: p2, s: s2 } => {
                    proof {
                        assert(b@ == p2@.push(Limb::Str(s2@)));
                        assert(a@.last() != b@.last());
                    }
                    false
                },
                NameKind::Anonymous => false,
            }
        },
    }
}

impl Default for Name {
    fn default() -> (r: Self)
        ensures
            r@ == Seq::<Limb>::empty(),
    {
        Name::anonymous()
    }
}

} // verus!
