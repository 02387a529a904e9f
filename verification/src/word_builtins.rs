//! The builtins of fixed-width integers, characters, byte arrays and bit
//! shifts, and the byte size and emptiness of strings. Fixed-width values
//! are numbers; an argument too large for 64 bits reads as the stated
//! default.
use vstd::prelude::*;

use crate::text::{chars_of, string_from_chars};
use crate::interp::{
    builtin_error, extract_nat, extract_str, find_two_nats, gives_bool, gives_decision, gives_nat,
    make_decision, nat_arg, nats_in, str_arg, InterpError, Value,
};
use crate::lexer::{char_from_u32, str_byte_len, utf8_len};
use crate::literal::Natural;
use crate::name::{dotted_limbs, names_equal, Limb, Name};

verus! {

/// The last number among `args`.
pub open spec fn last_nat(args: Seq<Value>) -> Option<nat>
    decreases args.len(),
{
    if args.len() == 0 {
        None
    } else {
        match args.last() {
            Value::Nat(n) => Some(n@),
            _ => last_nat(args.drop_last()),
        }
    }
}

/// The bytes of the first byte array among `args`.
pub open spec fn first_bytes(args: Seq<Value>) -> Option<Seq<u8>>
    decreases args.len(),
{
    if args.len() == 0 {
        None
    } else {
        match args[0] {
            Value::ByteArray(bs) => Some(bs@),
            _ => first_bytes(args.drop_first()),
        }
    }
}

/// `n` where it fits in 64 bits, else `d`.
pub open spec fn fit64(n: nat, d: nat) -> nat {
    if n <= u64::MAX {
        n
    } else {
        d
    }
}

/// 2^32.
pub open spec fn two32() -> nat {
    0x1_0000_0000
}

/// 2^64.
pub open spec fn two64() -> nat {
    0x1_0000_0000_0000_0000
}

/// `a - b` modulo 2^64, for `a` and `b` below 2^64.
pub open spec fn wrap_sub(a: nat, b: nat) -> nat {
    if a >= b {
        (a - b) as nat
    } else {
        (a + two64() - b) as nat
    }
}

/// The code of the character `Char.ofNat` makes of `n`: `n` where it is a
/// Unicode scalar value, else U+FFFD (a number too large for 32 bits reads
/// as 0).
pub open spec fn char_code(n: nat) -> nat {
    let c = if n <= u32::MAX {
        n
    } else {
        0
    };
    if c <= 0x10FFFF && !(0xD800 <= c <= 0xDFFF) {
        c
    } else {
        0xFFFD
    }
}

/// An index as a machine word: `n` where it fits, else 0.
pub open spec fn fit_index(n: nat) -> nat {
    if n <= usize::MAX {
        n
    } else {
        0
    }
}

/// What the fixed-width builtin named `name` gives on `args`; `None` when
/// `name` is none of them.
pub open spec fn word_builtin(name: Seq<Limb>, args: Seq<Value>, r: Option<Result<Value, InterpError>>) -> bool {
    let last = last_nat(args);
    let ns = nats_in(args);
    let one = |res: Result<Value, InterpError>, f: spec_fn(nat) -> nat|
        if last is Some {
            gives_nat(res, f(last->0))
        } else {
            res matches Err(InterpError::BuiltinError(_))
        };
    let two = |res: Result<Value, InterpError>, f: spec_fn(nat, nat) -> nat|
        if ns.len() >= 2 {
            gives_nat(res, f(fit64(ns[0], 0), fit64(ns[1], 0)))
        } else {
            res matches Err(InterpError::BuiltinError(_))
        };
    let decide = |res: Result<Value, InterpError>, f: spec_fn(nat, nat) -> bool|
        if ns.len() >= 2 {
            gives_decision(res, f(ns[0], ns[1]))
        } else {
            res matches Err(InterpError::BuiltinError(_))
        };
    let shift = |res: Result<Value, InterpError>, left: bool|
        if nat_arg(args, 0) is Some && nat_arg(args, 1) is Some {
            let a = nat_arg(args, 0)->0;
            let b = nat_arg(args, 1)->0;
            if b <= u64::MAX {
                gives_nat(
                    res,
                    if left {
                        a * vstd::arithmetic::power2::pow2(b)
                    } else {
                        a / vstd::arithmetic::power2::pow2(b)
                    },
                )
            } else {
                res matches Err(InterpError::BuiltinError(_))
            }
        } else {
            res matches Err(InterpError::BuiltinError(_))
        };
    if name == dotted_limbs("UInt32.ofNat"@) {
        r matches Some(res) && one(res, |n: nat| fit64(n, u64::MAX as nat) % two32())
    } else if name == dotted_limbs("UInt64.ofNat"@) || name == dotted_limbs("USize.ofNat"@) {
        r matches Some(res) && one(res, |n: nat| fit64(n, u64::MAX as nat))
    } else if name == dotted_limbs("UInt8.ofNat"@) {
        r matches Some(res) && one(res, |n: nat| fit64(n, 0) % 256)
    } else if name == dotted_limbs("UInt16.ofNat"@) {
        r matches Some(res) && one(res, |n: nat| fit64(n, 0) % 65536)
    } else if name == dotted_limbs("Char.ofNat"@) {
        r matches Some(res) && one(res, |n: nat| char_code(n))
    } else if name == dotted_limbs("UInt32.toNat"@) || name == dotted_limbs("UInt64.toNat"@)
        || name == dotted_limbs("USize.toNat"@) || name == dotted_limbs("UInt8.toNat"@) || name
        == dotted_limbs("UInt16.toNat"@) || name == dotted_limbs("Char.toNat"@) {
        r matches Some(res) && one(res, |n: nat| n)
    } else if name == dotted_limbs("UInt32.add"@) {
        r matches Some(res) && two(res, |a: nat, b: nat| ((a + b) % two64()) % two32())
    } else if name == dotted_limbs("UInt32.sub"@) {
        r matches Some(res) && two(res, |a: nat, b: nat| wrap_sub(a, b) % two32())
    } else if name == dotted_limbs("UInt32.mul"@) {
        r matches Some(res) && two(res, |a: nat, b: nat| ((a * b) % two64()) % two32())
    } else if name == dotted_limbs("UInt64.add"@) {
        r matches Some(res) && two(res, |a: nat, b: nat| (a + b) % two64())
    } else if name == dotted_limbs("UInt64.sub"@) {
        r matches Some(res) && two(res, |a: nat, b: nat| wrap_sub(a, b))
    } else if name == dotted_limbs("UInt64.mul"@) {
        r matches Some(res) && two(res, |a: nat, b: nat| (a * b) % two64())
    } else if name == dotted_limbs("UInt32.div"@) || name == dotted_limbs("UInt64.div"@) {
        r matches Some(res) && two(res, |a: nat, b: nat| if b == 0 { 0 } else { a / b })
    } else if name == dotted_limbs("UInt32.mod"@) || name == dotted_limbs("UInt64.mod"@) {
        r matches Some(res) && two(res, |a: nat, b: nat| if b == 0 { 0 } else { a % b })
    } else if name == dotted_limbs("UInt32.decEq"@) || name == dotted_limbs("UInt64.decEq"@) {
        r matches Some(res) && decide(res, |a: nat, b: nat| a == b)
    } else if name == dotted_limbs("UInt32.decLt"@) || name == dotted_limbs("UInt64.decLt"@) {
        r matches Some(res) && decide(res, |a: nat, b: nat| a < b)
    } else if name == dotted_limbs("UInt32.decLe"@) || name == dotted_limbs("UInt64.decLe"@) {
        r matches Some(res) && decide(res, |a: nat, b: nat| a <= b)
    } else if name == dotted_limbs("Nat.shiftLeft"@) {
        r matches Some(res) && shift(res, true)
    } else if name == dotted_limbs("Nat.shiftRight"@) {
        r matches Some(res) && shift(res, false)
    } else if name == dotted_limbs("ByteArray.mkEmpty"@) {
        r matches Some(Ok(Value::ByteArray(bs))) && bs@.len() == 0
    } else if name == dotted_limbs("ByteArray.size"@) {
        r matches Some(res) && match first_bytes(args) {
            Some(bs) => gives_nat(res, bs.len()),
            None => res matches Err(InterpError::BuiltinError(_)),
        }
    } else if name == dotted_limbs("String.isEmpty"@) {
        r matches Some(res) && match str_arg(args, 0) {
            Some(t) => gives_bool(res, t.len() == 0),
            None => res matches Err(InterpError::BuiltinError(_)),
        }
    } else if name == dotted_limbs("String.get"@) {
        r matches Some(res) && if str_arg(args, 0) is Some && last is Some {
            let t = str_arg(args, 0)->0;
            let i = fit_index(last->0);
            gives_nat(res, if i < t.len() { t[i as int] as u32 as nat } else { 0 })
        } else {
            res matches Err(InterpError::BuiltinError(_))
        }
    } else if name == dotted_limbs("String.take"@) || name == dotted_limbs("String.drop"@) {
        r matches Some(res) && if str_arg(args, 0) is Some && last is Some {
            let t = str_arg(args, 0)->0;
            let i = if fit_index(last->0) < t.len() { fit_index(last->0) } else { t.len() };
            res matches Ok(Value::String(u)) && u@ == if name == dotted_limbs("String.take"@) {
                t.take(i as int)
            } else {
                t.skip(i as int)
            }
        } else {
            res matches Err(InterpError::BuiltinError(_))
        }
    } else if name == dotted_limbs("String.push"@) {
        r matches Some(res) && if str_arg(args, 0) is Some && args.len() > 1 {
            res matches Ok(Value::String(u)) && u@.len() == str_arg(args, 0)->0.len() + 1
                && u@.drop_last() == str_arg(args, 0)->0 && u@.last() as u32 as nat == match args[1] {
                Value::Nat(n) => char_code(n@),
                _ => 0xFFFD,
            }
        } else {
            res matches Err(InterpError::BuiltinError(_))
        }
    } else if name == dotted_limbs("String.utf8ByteSize"@) {
        r matches Some(res) && match str_arg(args, 0) {
            Some(t) => gives_nat(res, utf8_len(t)),
            None => res matches Err(InterpError::BuiltinError(_)),
        }
    } else {
        r is None
    }
}

/// The last number among the arguments.
fn find_last_nat(args: &[Value]) -> (r: Result<&Natural, InterpError>)
    ensures
        r is Ok <==> last_nat(args@) is Some,
        r matches Ok(n) ==> n@ == last_nat(args@)->0,
        r is Err ==> r matches Err(InterpError::BuiltinError(_)),
{
    let mut k = args.len();
    proof {
        assert(args@.take(k as int) =~= args@);
    }
    while k > 0
        invariant
            k <= args@.len(),
            last_nat(args@) == last_nat(args@.take(k as int)),
        decreases k,
    {
        proof {
            assert(args@.take(k as int).drop_last() =~= args@.take(k - 1));
            assert(args@.take(k as int).last() == args@[k - 1]);
        }
        if let Value::Nat(n) = &args[k - 1] {
            return Ok(n);
        }
        k = k - 1;
    }
    Err(builtin_error("expected Nat arg"))
}

/// The first byte array among the arguments.
fn find_bytes(args: &[Value]) -> (r: Result<&Vec<u8>, InterpError>)
    ensures
        r is Ok <==> first_bytes(args@) is Some,
        r matches Ok(bs) ==> bs@ == first_bytes(args@)->0,
        r is Err ==> r matches Err(InterpError::BuiltinError(_)),
{
    let mut i: usize = 0;
    proof {
        assert(args@.skip(0) =~= args@);
    }
    while i < args.len()
        invariant
            i <= args@.len(),
            first_bytes(args@) == first_bytes(args@.skip(i as int)),
        decreases args@.len() - i,
    {
        proof {
            assert(args@.skip(i as int).drop_first() =~= args@.skip(i + 1));
        }
        if let Value::ByteArray(bs) = &args[i] {
            return Ok(bs);
        }
        i = i + 1;
    }
    Err(builtin_error("expected ByteArray arg"))
}

/// `n` where it fits in 64 bits, else `d`.
fn u64_or(n: &Natural, d: u64) -> (r: u64)
    ensures
        r == fit64(n@, d as nat),
{
    match n.to_u64() {
        Some(v) => v,
        None => d,
    }
}

/// A number result.
fn number(n: u64) -> (r: Result<Value, InterpError>)
    ensures
        gives_nat(r, n as nat),
{
    Ok(Value::nat_small(n))
}

/// The numbers of a two-argument fixed-width operation: the first two
/// numbers among the arguments, each read as 0 when too large for 64 bits.
fn two_words(args: &[Value]) -> (r: Result<(u64, u64), InterpError>)
    ensures
        r is Ok <==> nats_in(args@).len() >= 2,
        r matches Ok((x, y)) ==> x == fit64(nats_in(args@)[0], 0) && y == fit64(
            nats_in(args@)[1],
            0,
        ),
        r is Err ==> r matches Err(InterpError::BuiltinError(_)),
{
    match find_two_nats(args) {
        Ok((a, b)) => Ok((u64_or(a, 0), u64_or(b, 0))),
        Err(e) => Err(e),
    }
}

/// `x * y` modulo 2^64.
fn mul_wrap(x: u64, y: u64) -> (r: u64)
    ensures
        r == ((x as nat) * (y as nat)) % two64(),
{
    let xx = x as u128;
    let yy = y as u128;
    proof {
        assert(xx * yy <= 0xFFFF_FFFF_FFFF_FFFFu128 * 0xFFFF_FFFF_FFFF_FFFFu128) by (nonlinear_arith)
            requires
                xx <= 0xFFFF_FFFF_FFFF_FFFFu128,
                yy <= 0xFFFF_FFFF_FFFF_FFFFu128,
        ;
    }
    ((xx * yy) % 0x1_0000_0000_0000_0000u128) as u64
}

/// `x + y` modulo 2^64.
fn add_wrap(x: u64, y: u64) -> (r: u64)
    ensures
        r == ((x as nat) + (y as nat)) % two64(),
{
    (((x as u128) + (y as u128)) % 0x1_0000_0000_0000_0000u128) as u64
}

/// `x - y` modulo 2^64.
fn sub_wrap(x: u64, y: u64) -> (r: u64)
    ensures
        r == wrap_sub(x as nat, y as nat),
{
    if x >= y {
        x - y
    } else {
        (((x as u128) + 0x1_0000_0000_0000_0000u128) - (y as u128)) as u64
    }
}

/// Call the fixed-width builtin named `name` on `args`; `None` when `name`
/// is none of them.
pub fn call_word_builtin(name: &Name, args: &[Value]) -> (r: Option<Result<Value, InterpError>>)
    ensures
        word_builtin(name@, args@, r),
{
    let is = |s: &str| -> (b: bool)
        ensures
            b == (name@ == dotted_limbs(s@)),
        { names_equal(name, &Name::from_str_parts(s)) };
    if is("UInt32.ofNat") {
        return Some(match find_last_nat(args) {
            Ok(n) => number(u64_or(n, u64::MAX) % 0x1_0000_0000),
            Err(e) => Err(e),
        });
    }
    if is("UInt64.ofNat") || is("USize.ofNat") {
        return Some(match find_last_nat(args) {
            Ok(n) => number(u64_or(n, u64::MAX)),
            Err(e) => Err(e),
        });
    }
    if is("UInt8.ofNat") {
        return Some(match find_last_nat(args) {
            Ok(n) => number(u64_or(n, 0) % 256),
            Err(e) => Err(e),
        });
    }
    if is("UInt16.ofNat") {
        return Some(match find_last_nat(args) {
            Ok(n) => number(u64_or(n, 0) % 65536),
            Err(e) => Err(e),
        });
    }
    if is("Char.ofNat") {
        return Some(match find_last_nat(args) {
            Ok(n) => {
                let c: u32 = match n.to_u64() {
                    Some(v) => if v <= 0xFFFF_FFFF {
                        v as u32
                    } else {
                        0
                    },
                    None => 0,
                };
                let code: u32 = match char_from_u32(c) {
                    Some(_) => c,
                    None => 0xFFFD,
                };
                number(code as u64)
            },
            Err(e) => Err(e),
        });
    }
    if is("UInt32.toNat") || is("UInt64.toNat") || is("USize.toNat") || is("UInt8.toNat") || is(
        "UInt16.toNat",
    ) || is("Char.toNat") {
        return Some(match find_last_nat(args) {
            Ok(n) => Ok(Value::Nat(n.clone())),
            Err(e) => Err(e),
        });
    }
    if is("UInt32.add") {
        return Some(match two_words(args) {
            Ok((x, y)) => number(add_wrap(x, y) % 0x1_0000_0000),
            Err(e) => Err(e),
        });
    }
    if is("UInt32.sub") {
        return Some(match two_words(args) {
            Ok((x, y)) => number(sub_wrap(x, y) % 0x1_0000_0000),
            Err(e) => Err(e),
        });
    }
    if is("UInt32.mul") {
        return Some(match two_words(args) {
            Ok((x, y)) => number(mul_wrap(x, y) % 0x1_0000_0000),
            Err(e) => Err(e),
        });
    }
    if is("UInt64.add") {
        return Some(match two_words(args) {
            Ok((x, y)) => number(add_wrap(x, y)),
            Err(e) => Err(e),
        });
    }
    if is("UInt64.sub") {
        return Some(match two_words(args) {
            Ok((x, y)) => number(sub_wrap(x, y)),
            Err(e) => Err(e),
        });
    }
    if is("UInt64.mul") {
        return Some(match two_words(args) {
            Ok((x, y)) => number(mul_wrap(x, y)),
            Err(e) => Err(e),
        });
    }
    if is("UInt32.div") || is("UInt64.div") {
        return Some(match two_words(args) {
            Ok((x, y)) => number(if y == 0 { 0 } else { x / y }),
            Err(e) => Err(e),
        });
    }
    if is("UInt32.mod") || is("UInt64.mod") {
        return Some(match two_words(args) {
            Ok((x, y)) => number(if y == 0 { 0 } else { x % y }),
            Err(e) => Err(e),
        });
    }
    if is("UInt32.decEq") || is("UInt64.decEq") {
        return Some(match find_two_nats(args) {
            Ok((a, b)) => Ok(make_decision(a.le(b) && b.le(a))),
            Err(e) => Err(e),
        });
    }
    if is("UInt32.decLt") || is("UInt64.decLt") {
        return Some(match find_two_nats(args) {
            Ok((a, b)) => Ok(make_decision(!b.le(a))),
            Err(e) => Err(e),
        });
    }
    if is("UInt32.decLe") || is("UInt64.decLe") {
        return Some(match find_two_nats(args) {
            Ok((a, b)) => Ok(make_decision(a.le(b))),
            Err(e) => Err(e),
        });
    }
    if is("Nat.shiftLeft") || is("Nat.shiftRight") {
        let left = is("Nat.shiftLeft");
        return Some(match (extract_nat(args, 0), extract_nat(args, 1)) {
            (Ok(a), Ok(b)) => match b.to_u64() {
                Some(n) => if left {
                    Ok(Value::Nat(a.shift_left(n)))
                } else {
                    Ok(Value::Nat(a.shift_right(n)))
                },
                None => Err(builtin_error("shift amount too large")),
            },
            (Err(e), _) => Err(e),
            (_, Err(e)) => Err(e),
        });
    }
    if is("ByteArray.mkEmpty") {
        return Some(Ok(Value::ByteArray(Vec::new())));
    }
    if is("ByteArray.size") {
        return Some(match find_bytes(args) {
            Ok(bs) => number(bs.len() as u64),
            Err(e) => Err(e),
        });
    }
    if is("String.isEmpty") {
        return Some(match extract_str(args, 0) {
            Ok(t) => Ok(Value::bool_(str_byte_len(t) == 0)),
            Err(e) => Err(e),
        });
    }
    if is("String.get") || is("String.take") || is("String.drop") {
        let which: u8 = if is("String.get") {
            0
        } else if is("String.take") {
            1
        } else {
            2
        };
        return Some(match (extract_str(args, 0), find_last_nat(args)) {
            (Ok(t), Ok(n)) => {
                let cs = chars_of(t);
                let i: usize = match n.to_u64() {
                    Some(v) => if v <= usize::MAX as u64 {
                        v as usize
                    } else {
                        0
                    },
                    None => 0,
                };
                if which == 0 {
                    if i < cs.len() {
                        let code: u32 = cs[i] as u32;
                        proof {
                            assert(code as nat == t@[i as int] as u32 as nat);
                        }
                        number(code as u64)
                    } else {
                        number(0)
                    }
                } else {
                    let k = if i < cs.len() {
                        i
                    } else {
                        cs.len()
                    };
                    let part = if which == 1 {
                        vstd::slice::slice_subrange(cs.as_slice(), 0, k)
                    } else {
                        vstd::slice::slice_subrange(cs.as_slice(), k, cs.len())
                    };
                    proof {
                        assert(cs@.subrange(0, k as int) =~= t@.take(k as int));
                        assert(cs@.subrange(k as int, cs@.len() as int) =~= t@.skip(k as int));
                    }
                    Ok(Value::String(string_from_chars(part)))
                }
            },
            (Err(e), _) => Err(e),
            (_, Err(e)) => Err(e),
        });
    }
    if is("String.push") {
        return Some(match extract_str(args, 0) {
            Ok(t) => if args.len() > 1 {
                let ch: char = match &args[1] {
                    Value::Nat(n) => {
                        let c: u32 = match n.to_u64() {
                            Some(v) => if v <= 0xFFFF_FFFF {
                                v as u32
                            } else {
                                0
                            },
                            None => 0,
                        };
                        match char_from_u32(c) {
                            Some(ch) => {
                                proof {
                                    assert(ch as u32 == c);
                                    assert(ch as u32 as nat == char_code(n@));
                                }
                                ch
                            },
                            None => {
                                proof {
                                    assert(char_code(n@) == 0xFFFD);
                                }
                                '\u{FFFD}'
                            },
                        }
                    },
                    _ => '\u{FFFD}',
                };
                proof {
                    assert('\u{FFFD}' as u32 as nat == 0xFFFD);
                }
                let mut cs = chars_of(t);
                cs.push(ch);
                proof {
                    assert(cs@.drop_last() =~= t@);
                }
                Ok(Value::String(string_from_chars(cs.as_slice())))
            } else {
                Err(builtin_error("String.push: missing char arg"))
            },
            Err(e) => Err(e),
        });
    }
    if is("String.utf8ByteSize") {
        return Some(match extract_str(args, 0) {
            Ok(t) => number(str_byte_len(t) as u64),
            Err(e) => Err(e),
        });
    }
    None
}

} // verus!
