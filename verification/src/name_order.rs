//! Equality and ordering of names.
use core::cmp::Ordering;
use vstd::prelude::*;

use crate::name::{names_equal, Limb, Name};

verus! {

/// Lexicographic order of byte strings: negative, zero or positive.
pub open spec fn bytes_order(a: Seq<u8>, b: Seq<u8>) -> int
    decreases a.len(),
{
    if a.len() == 0 {
        if b.len() == 0 {
            0
        } else {
            -1
        }
    } else if b.len() == 0 {
        1
    } else if a[0] < b[0] {
        -1
    } else if a[0] > b[0] {
        1
    } else {
        bytes_order(a.drop_first(), b.drop_first())
    }
}

/// Order of two components: strings by their UTF-8 bytes, numbers by value,
/// and every string above every number (as in Lean 4).
pub open spec fn limb_order(a: Limb, b: Limb) -> int {
    match (a, b) {
        (Limb::Str(x), Limb::Str(y)) => bytes_order(
            vstd::utf8::encode_utf8(x),
            vstd::utf8::encode_utf8(y),
        ),
        (Limb::Num(x), Limb::Num(y)) => if x < y {
            -1
        } else if x > y {
            1
        } else {
            0
        },
        (Limb::Str(_), Limb::Num(_)) => 1,
        (Limb::Num(_), Limb::Str(_)) => -1,
    }
}

/// Order of names from component `i` on: the first differing component
/// decides, otherwise the shorter name is smaller.
pub open spec fn name_order_from(a: Seq<Limb>, b: Seq<Limb>, i: int) -> int
    decreases a.len() - i,
{
    if i < 0 || i >= a.len() || i >= b.len() {
        if a.len() < b.len() {
            -1
        } else if a.len() > b.len() {
            1
        } else {
            0
        }
    } else {
        let c = limb_order(a[i], b[i]);
        if c != 0 {
            c
        } else {
            name_order_from(a, b, i + 1)
        }
    }
}

/// Order of two names: negative, zero or positive.
pub open spec fn name_order(a: Seq<Limb>, b: Seq<Limb>) -> int {
    name_order_from(a, b, 0)
}

/// The `Ordering` that a negative, zero or positive number stands for.
pub open spec fn order_to_ordering(c: int) -> Ordering {
    if c < 0 {
        Ordering::Less
    } else if c > 0 {
        Ordering::Greater
    } else {
        Ordering::Equal
    }
}

/// Std `Ord` for `str`: lexicographic comparison of the bytes.
#[verifier::external_body]
fn string_byte_order(a: &String, b: &String) -> (r: i8)
    ensures
        r == bytes_order(vstd::utf8::encode_utf8(a@), vstd::utf8::encode_utf8(b@)),
{
    match a.as_str().cmp(b.as_str()) {
        Ordering::Less => -1,
        Ordering::Equal => 0,
        Ordering::Greater => 1,
    }
}

fn limb_value_order(a: &crate::name::NameLimbValue, b: &crate::name::NameLimbValue) -> (r: i8)
    ensures
        r == limb_order(a@, b@),
{
    match (a, b) {
        (crate::name::NameLimbValue::Str(x), crate::name::NameLimbValue::Str(y)) => string_byte_order(x, y),
        (crate::name::NameLimbValue::Num(x), crate::name::NameLimbValue::Num(y)) => {
            if *x < *y {
                -1
            } else if *x > *y {
                1
            } else {
                0
            }
        },
        (crate::name::NameLimbValue::Str(_), crate::name::NameLimbValue::Num(_)) => 1,
        (crate::name::NameLimbValue::Num(_), crate::name::NameLimbValue::Str(_)) => -1,
    }
}

/// Three-way comparison of names (Lean 4's `Name.cmp`), as -1, 0 or 1.
pub fn compare_names(a: &Name, b: &Name) -> (r: i8)
    ensures
        r == name_order(a@, b@),
        -1 <= r <= 1,
{
    let l1 = a.to_limbs();
    let l2 = b.to_limbs();
    let mut i: usize = 0;
    while i < l1.len() && i < l2.len()
        invariant
            i <= l1@.len(),
            i <= l2@.len(),
            l1@.map_values(|l: crate::name::NameLimbValue| l@) == a@,
            l2@.map_values(|l: crate::name::NameLimbValue| l@) == b@,
            name_order(a@, b@) == name_order_from(a@, b@, i as int),
        decreases l1@.len() - i,
    {
        let c = limb_value_order(&l1[i], &l2[i]);
        proof {
            assert(a@[i as int] == l1@[i as int]@);
            assert(b@[i as int] == l2@[i as int]@);
        }
        if c != 0 {
            proof {
                lemma_limb_order_range(a@[i as int], b@[i as int]);
            }
            return c;
        }
        i = i + 1;
    }
    if l1.len() < l2.len() {
        -1
    } else if l1.len() > l2.len() {
        1
    } else {
        0
    }
}

proof fn lemma_bytes_order_range(a: Seq<u8>, b: Seq<u8>)
    ensures
        -1 <= bytes_order(a, b) <= 1,
    decreases a.len(),
{
    if a.len() > 0 && b.len() > 0 && a[0] == b[0] {
        lemma_bytes_order_range(a.drop_first(), b.drop_first());
    }
}

proof fn lemma_limb_order_range(a: Limb, b: Limb)
    ensures
        -1 <= limb_order(a, b) <= 1,
{
    match (a, b) {
        (Limb::Str(x), Limb::Str(y)) => lemma_bytes_order_range(
            vstd::utf8::encode_utf8(x),
            vstd::utf8::encode_utf8(y),
        ),
        _ => {},
    }
}

proof fn lemma_bytes_order_refl(a: Seq<u8>)
    ensures
        bytes_order(a, a) == 0,
    decreases a.len(),
{
    if a.len() > 0 {
        lemma_bytes_order_refl(a.drop_first());
    }
}

proof fn lemma_bytes_order_antisym(a: Seq<u8>, b: Seq<u8>)
    ensures
        bytes_order(a, b) == -bytes_order(b, a),
    decreases a.len(),
{
    if a.len() > 0 && b.len() > 0 && a[0] == b[0] {
        lemma_bytes_order_antisym(a.drop_first(), b.drop_first());
    }
}

proof fn lemma_bytes_order_zero(a: Seq<u8>, b: Seq<u8>)
    requires
        bytes_order(a, b) == 0,
    ensures
        a == b,
    decreases a.len(),
{
    if a.len() > 0 && b.len() > 0 {
        lemma_bytes_order_zero(a.drop_first(), b.drop_first());
        assert(a == seq![a[0]] + a.drop_first());
        assert(b == seq![b[0]] + b.drop_first());
    }
}

proof fn lemma_limb_order_zero(a: Limb, b: Limb)
    requires
        limb_order(a, b) == 0,
    ensures
        a == b,
{
    match (a, b) {
        (Limb::Str(x), Limb::Str(y)) => {
            lemma_bytes_order_zero(vstd::utf8::encode_utf8(x), vstd::utf8::encode_utf8(y));
            vstd::utf8::encode_utf8_decode_utf8(x);
            vstd::utf8::encode_utf8_decode_utf8(y);
        },
        _ => {},
    }
}

proof fn lemma_name_order_from_refl(a: Seq<Limb>, i: int)
    requires
        0 <= i,
    ensures
        name_order_from(a, a, i) == 0,
    decreases a.len() - i,
{
    if i < a.len() {
        match a[i] {
            Limb::Str(x) => lemma_bytes_order_refl(vstd::utf8::encode_utf8(x)),
            _ => {},
        }
        lemma_name_order_from_refl(a, i + 1);
    }
}

proof fn lemma_name_order_from_antisym(a: Seq<Limb>, b: Seq<Limb>, i: int)
    requires
        0 <= i,
    ensures
        name_order_from(a, b, i) == -name_order_from(b, a, i),
    decreases a.len() - i,
{
    if i < a.len() && i < b.len() {
        match (a[i], b[i]) {
            (Limb::Str(x), Limb::Str(y)) => lemma_bytes_order_antisym(
                vstd::utf8::encode_utf8(x),
                vstd::utf8::encode_utf8(y),
            ),
            _ => {},
        }
        lemma_name_order_from_antisym(a, b, i + 1);
    }
}

proof fn lemma_name_order_from_zero(a: Seq<Limb>, b: Seq<Limb>, i: int)
    requires
        0 <= i <= a.len(),
        i <= b.len(),
        name_order_from(a, b, i) == 0,
    ensures
        a.skip(i) == b.skip(i),
    decreases a.len() - i,
{
    if i < a.len() && i < b.len() {
        lemma_limb_order_zero(a[i], b[i]);
        lemma_name_order_from_zero(a, b, i + 1);
        assert(a.skip(i) == seq![a[i]] + a.skip(i + 1));
        assert(b.skip(i) == seq![b[i]] + b.skip(i + 1));
    }
}

/// Names are ordered reflexively: every name compares equal to itself.
pub proof fn law_name_order_reflexive(a: Seq<Limb>)
    ensures
        name_order(a, a) == 0,
{
    lemma_name_order_from_refl(a, 0);
}

/// Swapping the operands of the name comparison negates its result.
pub proof fn law_name_order_antisymmetric(a: Seq<Limb>, b: Seq<Limb>)
    ensures
        name_order(a, b) == -name_order(b, a),
{
    lemma_name_order_from_antisym(a, b, 0);
}

/// Two names compare equal exactly when they have the same components, so the
/// order agrees with `==`.
pub proof fn law_name_order_zero_iff_equal(a: Seq<Limb>, b: Seq<Limb>)
    ensures
        name_order(a, b) == 0 <==> a == b,
{
    if name_order(a, b) == 0 {
        lemma_name_order_from_zero(a, b, 0);
        assert(a.skip(0) == a);
        assert(b.skip(0) == b);
    }
    if a == b {
        lemma_name_order_from_refl(a, 0);
    }
}

proof fn lemma_bytes_order_trans(a: Seq<u8>, b: Seq<u8>, c: Seq<u8>)
    requires
        bytes_order(a, b) < 0,
        bytes_order(b, c) < 0,
    ensures
        bytes_order(a, c) < 0,
    decreases a.len(),
{
    if a.len() > 0 && b.len() > 0 && c.len() > 0 && a[0] == b[0] && b[0] == c[0] {
        lemma_bytes_order_trans(a.drop_first(), b.drop_first(), c.drop_first());
    }
}

proof fn lemma_limb_order_trans(a: Limb, b: Limb, c: Limb)
    requires
        limb_order(a, b) < 0,
        limb_order(b, c) < 0,
    ensures
        limb_order(a, c) < 0,
{
    match (a, b, c) {
        (Limb::Str(x), Limb::Str(y), Limb::Str(z)) => lemma_bytes_order_trans(
            vstd::utf8::encode_utf8(x),
            vstd::utf8::encode_utf8(y),
            vstd::utf8::encode_utf8(z),
        ),
        _ => {},
    }
}

proof fn lemma_name_order_from_trans(a: Seq<Limb>, b: Seq<Limb>, c: Seq<Limb>, i: int)
    requires
        0 <= i,
        name_order_from(a, b, i) < 0,
        name_order_from(b, c, i) < 0,
    ensures
        name_order_from(a, c, i) < 0,
    decreases a.len() - i,
{
    if i < a.len() && i < b.len() && i < c.len() {
        let ab = limb_order(a[i], b[i]);
        let bc = limb_order(b[i], c[i]);
        if ab == 0 {
            lemma_limb_order_zero(a[i], b[i]);
            if bc == 0 {
                lemma_limb_order_zero(b[i], c[i]);
                lemma_name_order_from_trans(a, b, c, i + 1);
            }
        } else if bc == 0 {
            lemma_limb_order_zero(b[i], c[i]);
        } else {
            lemma_limb_order_trans(a[i], b[i], c[i]);
        }
    }
}

/// The name order is transitive: if `a` is below `b` and `b` below `c`, then
/// `a` is below `c`; the same holds for "at most".
pub proof fn law_name_order_transitive(a: Seq<Limb>, b: Seq<Limb>, c: Seq<Limb>)
    ensures
        name_order(a, b) < 0 && name_order(b, c) < 0 ==> name_order(a, c) < 0,
        name_order(a, b) <= 0 && name_order(b, c) <= 0 ==> name_order(a, c) <= 0,
{
    if name_order(a, b) < 0 && name_order(b, c) < 0 {
        lemma_name_order_from_trans(a, b, c, 0);
    }
    if name_order(a, b) <= 0 && name_order(b, c) <= 0 {
        law_name_order_zero_iff_equal(a, b);
        law_name_order_zero_iff_equal(b, c);
        if name_order(a, b) < 0 && name_order(b, c) < 0 {
            lemma_name_order_from_trans(a, b, c, 0);
        }
    }
}

impl PartialEq for Name {
    fn eq(&self, other: &Self) -> (r: bool) {
        names_equal(self, other)
    }
}

impl vstd::std_specs::cmp::PartialEqSpecImpl for Name {
    open spec fn obeys_eq_spec() -> bool {
        true
    }

    open spec fn eq_spec(&self, other: &Self) -> bool {
        self@ == other@
    }
}

impl Eq for Name {

}

impl PartialOrd for Name {
    fn partial_cmp(&self, other: &Self) -> (r: Option<Ordering>) {
        let c = compare_names(self, other);
        if c < 0 {
            Some(Ordering::Less)
        } else if c > 0 {
            Some(Ordering::Greater)
        } else {
            Some(Ordering::Equal)
        }
    }
}

impl vstd::std_specs::cmp::PartialOrdSpecImpl for Name {
    open spec fn obeys_partial_cmp_spec() -> bool {
        true
    }

    open spec fn partial_cmp_spec(&self, other: &Self) -> Option<Ordering> {
        Some(order_to_ordering(name_order(self@, other@)))
    }
}

} // verus!
