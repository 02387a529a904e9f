//! Literal values of expressions: arbitrary-precision natural numbers and
//! strings.
use vstd::prelude::*;

use crate::text::{chars_of, decimal, push_all, string_from_chars};

verus! {

/// The number whose base-2^32 digits, least significant first, are `d`.
pub open spec fn digits_value(d: Seq<u32>) -> nat
    decreases d.len(),
{
    if d.len() == 0 {
        0
    } else {
        d[0] as nat + 0x1_0000_0000nat * digits_value(d.drop_first())
    }
}

/// The little-endian bytes of `n`, without trailing zero bytes; zero is `[0]`.
pub open spec fn le_bytes(n: nat) -> Seq<u8>
    decreases n,
{
    if n < 256 {
        seq![n as u8]
    } else {
        seq![(n % 256) as u8] + le_bytes(n / 256)
    }
}

/// An arbitrary-precision natural number, stored as base-2^32 digits (least
/// significant first, no trailing zero digit).
#[derive(Debug)]
pub struct Natural {
    digits: Vec<u32>,
}

impl Natural {
    /// No trailing zero digit, so each number has exactly one representation.
    #[verifier::type_invariant]
    closed spec fn normalized(self) -> bool {
        self.digits@.len() == 0 || self.digits@.last() != 0
    }

    /// The digits of the number.
    pub closed spec fn digit_seq(&self) -> Seq<u32> {
        self.digits@
    }
}

impl View for Natural {
    type V = nat;

    open spec fn view(&self) -> nat {
        digits_value(self.digit_seq())
    }
}

/// The value of `d` with its trailing zero digits removed is the value of `d`.
proof fn lemma_trailing_zero(d: Seq<u32>)
    requires
        d.len() > 0,
        d.last() == 0,
    ensures
        digits_value(d.drop_last()) == digits_value(d),
    decreases d.len(),
{
    if d.len() > 1 {
        lemma_trailing_zero(d.drop_first());
        assert(d.drop_first().drop_last() == d.drop_last().drop_first());
        assert(d.drop_last()[0] == d[0]);
    } else {
        reveal_with_fuel(digits_value, 2);
        assert(d.drop_first().len() == 0);
        assert(d.drop_last().len() == 0);
    }
}

/// Distinct normalized digit sequences have distinct values.
proof fn lemma_digits_injective(a: Seq<u32>, b: Seq<u32>)
    requires
        a.len() == 0 || a.last() != 0,
        b.len() == 0 || b.last() != 0,
        digits_value(a) == digits_value(b),
    ensures
        a == b,
    decreases a.len(),
{
    if a.len() > 0 && b.len() > 0 {
        assert(a.drop_first().len() == 0 || a.drop_first().last() != 0);
        assert(b.drop_first().len() == 0 || b.drop_first().last() != 0);
        lemma_digits_injective(a.drop_first(), b.drop_first());
        assert(a == seq![a[0]] + a.drop_first());
        assert(b == seq![b[0]] + b.drop_first());
    } else if a.len() > 0 {
        lemma_nonzero_value(a);
    } else if b.len() > 0 {
        lemma_nonzero_value(b);
    }
}

/// A normalized non-empty digit sequence has a positive value.
proof fn lemma_nonzero_value(a: Seq<u32>)
    requires
        a.len() > 0,
        a.last() != 0,
    ensures
        digits_value(a) > 0,
    decreases a.len(),
{
    if a.len() > 1 {
        lemma_nonzero_value(a.drop_first());
    }
}

/// std `Display` for `num_bigint::BigUint` (of the number with digits `d`):
/// the decimal digits of the value.
#[verifier::external_body]
fn biguint_decimal(d: &[u32]) -> (s: String)
    ensures
        s@ == decimal(digits_value(d@)),
{
    num_bigint::BigUint::from_slice(d).to_string()
}

/// `num_bigint::BigUint::to_bytes_le` (of the number with digits `d`).
#[verifier::external_body]
fn biguint_le_bytes(d: &[u32]) -> (b: Vec<u8>)
    ensures
        b@ == le_bytes(digits_value(d@)),
{
    num_bigint::BigUint::from_slice(d).to_bytes_le()
}

/// `num_bigint::BigUint` addition, of the numbers with digits `a` and `b`.
#[verifier::external_body]
fn biguint_add(a: &[u32], b: &[u32]) -> (r: Vec<u32>)
    ensures
        digits_value(r@) == digits_value(a@) + digits_value(b@),
{
    (num_bigint::BigUint::from_slice(a) + num_bigint::BigUint::from_slice(b)).to_u32_digits()
}

/// `num_bigint::BigUint` subtraction, of the numbers with digits `a` and `b`
/// (the crate panics when `b` is the larger).
#[verifier::external_body]
fn biguint_sub(a: &[u32], b: &[u32]) -> (r: Vec<u32>)
    requires
        digits_value(a@) >= digits_value(b@),
    ensures
        digits_value(r@) == digits_value(a@) - digits_value(b@),
{
    (num_bigint::BigUint::from_slice(a) - num_bigint::BigUint::from_slice(b)).to_u32_digits()
}

/// `num_bigint::BigUint` multiplication, of the numbers with digits `a` and `b`.
#[verifier::external_body]
fn biguint_mul(a: &[u32], b: &[u32]) -> (r: Vec<u32>)
    ensures
        digits_value(r@) == digits_value(a@) * digits_value(b@),
{
    (num_bigint::BigUint::from_slice(a) * num_bigint::BigUint::from_slice(b)).to_u32_digits()
}

/// `num_bigint::BigUint` division, rounding down, of the numbers with digits
/// `a` and `b` (the crate panics on a zero divisor).
#[verifier::external_body]
fn biguint_div(a: &[u32], b: &[u32]) -> (r: Vec<u32>)
    requires
        digits_value(b@) > 0,
    ensures
        digits_value(r@) == digits_value(a@) / digits_value(b@),
{
    (num_bigint::BigUint::from_slice(a) / num_bigint::BigUint::from_slice(b)).to_u32_digits()
}

/// `num_bigint::BigUint` remainder, of the numbers with digits `a` and `b`
/// (the crate panics on a zero divisor).
#[verifier::external_body]
fn biguint_rem(a: &[u32], b: &[u32]) -> (r: Vec<u32>)
    requires
        digits_value(b@) > 0,
    ensures
        digits_value(r@) == digits_value(a@) % digits_value(b@),
{
    (num_bigint::BigUint::from_slice(a) % num_bigint::BigUint::from_slice(b)).to_u32_digits()
}

/// `num_bigint::BigUint::pow`: the number with digits `a` raised to `e`.
#[verifier::external_body]
fn biguint_pow(a: &[u32], e: u32) -> (r: Vec<u32>)
    ensures
        digits_value(r@) == vstd::arithmetic::power::pow(digits_value(a@) as int, e as nat),
{
    num_bigint::BigUint::from_slice(a).pow(e).to_u32_digits()
}

/// `num_bigint::BigUint` `<<` by `n` bits, of the number with digits `a`.
#[verifier::external_body]
fn biguint_shl(a: &[u32], n: u64) -> (r: Vec<u32>)
    ensures
        digits_value(r@) == digits_value(a@) * vstd::arithmetic::power2::pow2(n as nat),
{
    (num_bigint::BigUint::from_slice(a) << n).to_u32_digits()
}

/// `num_bigint::BigUint` `>>` by `n` bits, of the number with digits `a`.
#[verifier::external_body]
fn biguint_shr(a: &[u32], n: u64) -> (r: Vec<u32>)
    ensures
        digits_value(r@) == digits_value(a@) / vstd::arithmetic::power2::pow2(n as nat),
{
    (num_bigint::BigUint::from_slice(a) >> n).to_u32_digits()
}

/// `num_bigint::BigUint` `<=`, of the numbers with digits `a` and `b`.
#[verifier::external_body]
fn biguint_le(a: &[u32], b: &[u32]) -> (r: bool)
    ensures
        r == (digits_value(a@) <= digits_value(b@)),
{
    num_bigint::BigUint::from_slice(a) <= num_bigint::BigUint::from_slice(b)
}

/// `num_bigint::BigUint` addition of one, of the number with digits `d`, read
/// back as its base-2^32 digits.
#[verifier::external_body]
fn biguint_succ_digits(d: &[u32]) -> (r: Vec<u32>)
    ensures
        digits_value(r@) == digits_value(d@) + 1,
{
    (num_bigint::BigUint::from_slice(d) + 1u32).to_u32_digits()
}

/// `num_bigint::BigUint` subtraction of one, of the number with digits `d`
/// (the crate panics below zero, so the number must be positive), read back
/// as its base-2^32 digits.
#[verifier::external_body]
fn biguint_pred_digits(d: &[u32]) -> (r: Vec<u32>)
    requires
        digits_value(d@) > 0,
    ensures
        digits_value(r@) == digits_value(d@) - 1,
{
    (num_bigint::BigUint::from_slice(d) - 1u32).to_u32_digits()
}

impl Natural {
    /// The number `n`.
    pub fn from_u64(n: u64) -> (r: Natural)
        ensures
            r@ == n,
    {
        let lo = (n % 0x1_0000_0000) as u32;
        let hi = (n / 0x1_0000_0000) as u32;
        let mut digits: Vec<u32> = Vec::new();
        if hi != 0 {
            digits.push(lo);
            digits.push(hi);
            proof {
                reveal_with_fuel(digits_value, 3);
                let t = digits@.drop_first();
                assert(t.drop_first() == Seq::<u32>::empty());
                assert(digits_value(t) == hi as nat);
                assert(digits_value(digits@) == lo as nat + 0x1_0000_0000nat * hi as nat);
            }
        } else if lo != 0 {
            digits.push(lo);
            proof {
                reveal_with_fuel(digits_value, 2);
                assert(digits@.drop_first() == Seq::<u32>::empty());
                assert(digits_value(digits@) == lo as nat);
            }
        } else {
            proof {
                assert(n == 0);
            }
        }
        Natural { digits }
    }

    /// The number with base-2^32 digits `digits`, least significant first.
    pub fn from_digits(digits: Vec<u32>) -> (r: Natural)
        ensures
            r@ == digits_value(digits@),
    {
        let mut d = digits;
        let ghost orig = d@;
        while d.len() > 0 && d[d.len() - 1] == 0
            invariant
                digits_value(d@) == digits_value(orig),
            decreases d@.len(),
        {
            proof {
                lemma_trailing_zero(d@);
            }
            d.pop();
        }
        Natural { digits: d }
    }

    /// Whether the number is zero.
    pub fn is_zero(&self) -> (b: bool)
        ensures
            b == (self@ == 0),
    {
        proof {
            use_type_invariant(self);
            if self.digits@.len() > 0 {
                lemma_nonzero_value(self.digits@);
            }
        }
        self.digits.len() == 0
    }

    /// The sum.
    pub fn plus(&self, other: &Natural) -> (r: Natural)
        ensures
            r@ == self@ + other@,
    {
        Natural::from_digits(biguint_add(self.digits.as_slice(), other.digits.as_slice()))
    }

    /// The difference; `other` is at most the number.
    pub fn minus(&self, other: &Natural) -> (r: Natural)
        requires
            self@ >= other@,
        ensures
            r@ == self@ - other@,
    {
        Natural::from_digits(biguint_sub(self.digits.as_slice(), other.digits.as_slice()))
    }

    /// The product.
    pub fn times(&self, other: &Natural) -> (r: Natural)
        ensures
            r@ == self@ * other@,
    {
        Natural::from_digits(biguint_mul(self.digits.as_slice(), other.digits.as_slice()))
    }

    /// This number raised to the power `e`.
    pub fn power(&self, e: u32) -> (r: Natural)
        ensures
            r@ == vstd::arithmetic::power::pow(self@ as int, e as nat),
    {
        Natural::from_digits(biguint_pow(self.digits.as_slice(), e))
    }

    /// This number shifted left by `n` bits.
    pub fn shift_left(&self, n: u64) -> (r: Natural)
        ensures
            r@ == self@ * vstd::arithmetic::power2::pow2(n as nat),
    {
        Natural::from_digits(biguint_shl(self.digits.as_slice(), n))
    }

    /// This number shifted right by `n` bits.
    pub fn shift_right(&self, n: u64) -> (r: Natural)
        ensures
            r@ == self@ / vstd::arithmetic::power2::pow2(n as nat),
    {
        Natural::from_digits(biguint_shr(self.digits.as_slice(), n))
    }

    /// The quotient, rounded down; `other` is not zero.
    pub fn quotient(&self, other: &Natural) -> (r: Natural)
        requires
            other@ > 0,
        ensures
            r@ == self@ / other@,
    {
        Natural::from_digits(biguint_div(self.digits.as_slice(), other.digits.as_slice()))
    }

    /// The remainder; `other` is not zero.
    pub fn remainder(&self, other: &Natural) -> (r: Natural)
        requires
            other@ > 0,
        ensures
            r@ == self@ % other@,
    {
        Natural::from_digits(biguint_rem(self.digits.as_slice(), other.digits.as_slice()))
    }

    /// Whether the number is at most `other`.
    pub fn le(&self, other: &Natural) -> (b: bool)
        ensures
            b == (self@ <= other@),
    {
        biguint_le(self.digits.as_slice(), other.digits.as_slice())
    }

    /// The number plus one.
    pub fn succ(&self) -> (r: Natural)
        ensures
            r@ == self@ + 1,
    {
        Natural::from_digits(biguint_succ_digits(self.digits.as_slice()))
    }

    /// The number less one.
    pub fn pred(&self) -> (r: Natural)
        requires
            self@ > 0,
        ensures
            r@ == self@ - 1,
    {
        Natural::from_digits(biguint_pred_digits(self.digits.as_slice()))
    }

    /// The base-2^32 digits, least significant first, without trailing zeros.
    pub fn digits(&self) -> (r: &Vec<u32>)
        ensures
            digits_value(r@) == self@,
            r@.len() == 0 || r@.last() != 0,
    {
        proof {
            use_type_invariant(self);
        }
        &self.digits
    }

    /// The value, when it fits in a `u64`.
    pub fn to_u64(&self) -> (r: Option<u64>)
        ensures
            r matches Some(v) ==> v == self@,
            r is None <==> self@ > u64::MAX,
    {
        proof {
            use_type_invariant(self);
        }
        let n = self.digits.len();
        if n == 0 {
            return Some(0);
        }
        if n == 1 {
            proof {
                reveal_with_fuel(digits_value, 2);
                assert(self.digits@.drop_first() == Seq::<u32>::empty());
            }
            return Some(self.digits[0] as u64);
        }
        if n == 2 {
            proof {
                reveal_with_fuel(digits_value, 3);
                assert(self.digits@.drop_first().drop_first() == Seq::<u32>::empty());
            }
            let d0 = self.digits[0] as u64;
            let d1 = self.digits[1] as u64;
            proof {
                let t = self.digits@.drop_first();
                assert(t[0] == d1);
                assert(digits_value(t) == d1 as nat);
                assert(d1 * 0x1_0000_0000 + d0 <= u64::MAX) by (nonlinear_arith)
                    requires
                        d0 <= u32::MAX,
                        d1 <= u32::MAX,
                ;
            }
            let v = d0 + d1 * 0x1_0000_0000u64;
            return Some(v);
        }
        proof {
            let t1 = self.digits@.drop_first();
            let t = t1.drop_first();
            assert(t.len() > 0 && t.last() != 0);
            lemma_nonzero_value(t);
            assert(digits_value(t1) >= 0x1_0000_0000nat);
            assert(self@ >= 0x1_0000_0000nat * 0x1_0000_0000nat);
        }
        None
    }

    /// Decimal digits of the number.
    pub fn to_decimal(&self) -> (s: String)
        ensures
            s@ == decimal(self@),
    {
        biguint_decimal(self.digits.as_slice())
    }

    /// Little-endian bytes of the number (`[0]` for zero).
    pub fn to_bytes_le(&self) -> (b: Vec<u8>)
        ensures
            b@ == le_bytes(self@),
    {
        biguint_le_bytes(self.digits.as_slice())
    }
}

/// Whether two numbers are equal.
pub fn naturals_equal(a: &Natural, b: &Natural) -> (r: bool)
    ensures
        r == (a@ == b@),
{
    proof {
        use_type_invariant(a);
        use_type_invariant(b);
    }
    if a.digits.len() != b.digits.len() {
        proof {
            if a@ == b@ {
                lemma_digits_injective(a.digits@, b.digits@);
            }
        }
        return false;
    }
    let mut i: usize = 0;
    while i < a.digits.len()
        invariant
            a.digits@.len() == b.digits@.len(),
            a.digits@.len() == 0 || a.digits@.last() != 0,
            b.digits@.len() == 0 || b.digits@.last() != 0,
            i <= a.digits@.len(),
            forall|j: int| 0 <= j < i ==> a.digits@[j] == b.digits@[j],
        decreases a.digits@.len() - i,
    {
        if a.digits[i] != b.digits[i] {
            proof {
                if a@ == b@ {
                    lemma_digits_injective(a.digits@, b.digits@);
                }
            }
            return false;
        }
        i = i + 1;
    }
    proof {
        assert(a.digits@ == b.digits@);
    }
    true
}

impl Clone for Natural {
    fn clone(&self) -> (r: Self)
        ensures
            r@ == self@,
    {
        proof {
            use_type_invariant(self);
        }
        Natural { digits: self.digits.clone() }
    }
}

/// A literal as a mathematical value.
pub enum LitV {
    Nat(nat),
    Str(Seq<char>),
}

/// Lean 4 literal values.
#[derive(Debug)]
pub enum Literal {
    Nat(Natural),
    Str(String),
}

impl View for Literal {
    type V = LitV;

    open spec fn view(&self) -> LitV {
        match self {
            Literal::Nat(n) => LitV::Nat(n@),
            Literal::Str(s) => LitV::Str(s@),
        }
    }
}

/// The text `Display` gives a literal: the number in decimal, or the string in
/// double quotes.
pub open spec fn literal_text(l: LitV) -> Seq<char> {
    match l {
        LitV::Nat(n) => decimal(n),
        LitV::Str(s) => seq!['"'] + s + seq!['"'],
    }
}

impl Literal {
    /// A natural-number literal.
    pub fn natural(n: Natural) -> (r: Self)
        ensures
            r@ == LitV::Nat(n@),
    {
        Literal::Nat(n)
    }

    /// A natural-number literal from a machine integer.
    pub fn nat_small(n: u64) -> (r: Self)
        ensures
            r@ == LitV::Nat(n as nat),
    {
        Literal::Nat(Natural::from_u64(n))
    }

    /// A string literal.
    pub fn string(s: String) -> (r: Self)
        ensures
            r@ == LitV::Str(s@),
    {
        Literal::Str(s)
    }

    pub fn is_nat(&self) -> (b: bool)
        ensures
            b == (self@ is Nat),
    {
        match self {
            Literal::Nat(_) => true,
            _ => false,
        }
    }

    pub fn is_string(&self) -> (b: bool)
        ensures
            b == (self@ is Str),
    {
        match self {
            Literal::Str(_) => true,
            _ => false,
        }
    }

    /// The number of a natural-number literal.
    pub fn get_nat(&self) -> (r: &Natural)
        requires
            self@ is Nat,
        ensures
            self@ == LitV::Nat(r@),
    {
        match self {
            Literal::Nat(n) => n,
            _ => vstd::pervasive::unreached(),
        }
    }

    /// The text of a string literal.
    pub fn get_string(&self) -> (r: &str)
        requires
            self@ is Str,
        ensures
            self@ == LitV::Str(r@),
    {
        match self {
            Literal::Str(s) => s.as_str(),
            _ => vstd::pervasive::unreached(),
        }
    }

    /// The text `Display` gives the literal.
    pub fn to_string(&self) -> (r: String)
        ensures
            r@ == literal_text(self@),
    {
        match self {
            Literal::Nat(n) => n.to_decimal(),
            Literal::Str(s) => {
                let mut out: Vec<char> = Vec::new();
                out.push('"');
                let cs = chars_of(s.as_str());
                push_all(&mut out, cs.as_slice());
                out.push('"');
                proof {
                    assert(out@ == seq!['"'] + s@ + seq!['"']);
                }
                string_from_chars(out.as_slice())
            },
        }
    }
}

/// Whether two literals are equal.
pub fn literals_equal(a: &Literal, b: &Literal) -> (r: bool)
    ensures
        r == (a@ == b@),
{
    match (a, b) {
        (Literal::Nat(x), Literal::Nat(y)) => naturals_equal(x, y),
        (Literal::Str(x), Literal::Str(y)) => crate::text::str_eq(x.as_str(), y.as_str()),
        _ => false,
    }
}

impl Clone for Literal {
    fn clone(&self) -> (r: Self)
        ensures
            r@ == self@,
    {
        match self {
            Literal::Nat(n) => Literal::Nat(n.clone()),
            Literal::Str(s) => Literal::Str(s.clone()),
        }
    }
}

} // verus!
