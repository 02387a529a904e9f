//! Type-directed reading of the Lean objects in a compacted region: names,
//! universe levels, expressions, declarations and the module data.
//!
//! The compactor writes every object after the objects it points to, so a
//! well-formed region only has pointers to earlier positions. The reader
//! follows a pointer only to an earlier object; a pointer forward (which only
//! a damaged region can hold, and along which a cycle could run) is read as
//! malformed, as is an object that does not fit in the region.
use vstd::prelude::*;

use rustc_hash::FxHashMap;

use crate::constant_info::{
    rules_view, ConstantInfo, ConstantV, DefinitionSafety, QuotKind, RecursorRule, RecursorRuleV,
    ReducibilityHints,
};
use crate::expr::{levels_view, mdata_view, BinderInfo, Expr, ExprV, MData, MDataV, MDataValue};
use crate::literal::{LitV, Literal};
use crate::expr_subst::names_view;
use crate::level::{depth, depth_limit, spec_imax, spec_max, Level, LevelV};
use crate::name::{Limb, Name};
use crate::olean_error::{push_number, push_text, OleanError};
use crate::region::{CompactedRegion, ObjRef, LEAN_TAG_ARRAY, LEAN_TAG_MPZ, LEAN_TAG_STRING};
use crate::text::{chars_of, decimal, string_from_chars};

verus! {

// ─── Reading the region ─────────────────────────────────────────────────

/// A message of the reader's own.
fn message(s: &str) -> (r: String)
    ensures
        r@ == s@,
{
    string_from_chars(chars_of(s).as_slice())
}

/// The root object of a region: the reference its first word holds.
pub open spec fn root_of(r: CompactedRegion) -> ObjRef {
    if r.bytes().len() < 8 {
        ObjRef::Null
    } else {
        r.resolved(r.word(0, 8))
    }
}

/// A measure that strictly drops along every pointer the reader follows.
pub open spec fn rank(o: ObjRef) -> nat {
    match o {
        ObjRef::Ptr(p) => p as nat + 1,
        _ => 0,
    }
}

/// `o` is no pointer, or points before `pos`.
pub open spec fn earlier(o: ObjRef, pos: usize) -> bool {
    rank(o) <= pos
}

/// The object at `pos` has its header and `n` pointer fields in the region.
pub open spec fn fits(r: CompactedRegion, pos: usize, n: nat) -> bool {
    pos + 8 + 8 * n <= r.bytes().len()
}

/// The tag byte of the object at `pos`.
pub open spec fn tag_of(r: CompactedRegion, pos: usize) -> u8 {
    r.bytes()[pos + 7]
}

/// The `i`-th pointer field of the object at `pos`.
pub open spec fn field_of(r: CompactedRegion, pos: usize, i: nat) -> ObjRef {
    r.resolved(r.word(pos + 8 + i * 8, 8))
}

/// The scalar byte `k` after `n` pointer fields, when it is in the region.
pub open spec fn scalar_fits(r: CompactedRegion, pos: usize, n: nat, k: nat) -> bool {
    pos + 8 + 8 * n + k < r.bytes().len()
}

/// The scalar byte `k` after `n` pointer fields.
pub open spec fn scalar_of(r: CompactedRegion, pos: usize, n: nat, k: nat) -> u8 {
    r.bytes()[pos + 8 + 8 * n + k]
}

/// The text of a string object; the empty text for anything else.
pub open spec fn string_at(r: CompactedRegion, o: ObjRef) -> Seq<char> {
    match o {
        ObjRef::Ptr(pos) => if fits(r, pos, 1) && tag_of(r, pos) == LEAN_TAG_STRING && pos + 32
            <= usize::MAX {
            let size = r.word(pos + 8, 8) as usize as int;
            let lo = pos + 32;
            let body = r.bytes().subrange(lo, lo + size - 1);
            if size != 0 && lo + size <= r.bytes().len() && vstd::utf8::valid_utf8(body) {
                vstd::utf8::decode_utf8(body)
            } else {
                Seq::empty()
            }
        } else {
            Seq::empty()
        },
        _ => Seq::empty(),
    }
}

/// The big number at `pos` can be read.
pub open spec fn mpz_readable(r: CompactedRegion, pos: usize) -> bool {
    if r.gmp() {
        r.gmp_readable(pos)
    } else {
        r.native_readable(pos)
    }
}

/// The value of the big number at `pos` when it fits in 64 bits, else 0.
pub open spec fn mpz_value(r: CompactedRegion, pos: usize) -> u64 {
    if r.gmp() {
        let size = r.word(pos + 12, 4) as u32 as i32;
        match r.resolved(r.word(pos + 16, 8)) {
            ObjRef::Ptr(lpos) => if size == 1 {
                r.word(lpos as int, 8)
            } else {
                0
            },
            _ => 0,
        }
    } else {
        if r.bytes()[pos + 24] == 0 && r.word(pos + 16, 8) as usize == 1 {
            r.word(pos + 32, 8)
        } else {
            0
        }
    }
}

/// A natural number: a scalar, or a big number that fits in 64 bits; 0 for
/// anything else.
pub open spec fn nat_at(r: CompactedRegion, o: ObjRef) -> u64 {
    match o {
        ObjRef::Scalar(n) => n,
        ObjRef::Ptr(pos) => if fits(r, pos, 0) && tag_of(r, pos) == LEAN_TAG_MPZ && mpz_readable(
            r,
            pos,
        ) {
            mpz_value(r, pos)
        } else {
            0
        },
        ObjRef::Null => 0,
    }
}

/// A Lean `Bool`: the scalar 1 is `true`.
pub open spec fn bool_at(o: ObjRef) -> bool {
    o == ObjRef::Scalar(1)
}

/// The name an object denotes: `str` (tag 1) and `num` (tag 2) cells on an
/// earlier prefix; anything else is the anonymous name.
pub open spec fn name_at(r: CompactedRegion, o: ObjRef) -> Seq<Limb>
    decreases rank(o),
{
    match o {
        ObjRef::Ptr(pos) => if fits(r, pos, 2) && (tag_of(r, pos) == 1 || tag_of(r, pos) == 2)
            && earlier(field_of(r, pos, 0), pos) {
            let prefix = name_at(r, field_of(r, pos, 0));
            if tag_of(r, pos) == 1 {
                prefix.push(Limb::Str(string_at(r, field_of(r, pos, 1))))
            } else {
                prefix.push(Limb::Num(nat_at(r, field_of(r, pos, 1))))
            }
        } else {
            Seq::empty()
        },
        _ => Seq::empty(),
    }
}

/// The universe level an object denotes: `succ` (1), `max` (2), `imax` (3)
/// over earlier levels, `param` (4), `mvar` (5); anything else, and a level
/// nested deeper than a level can record, is zero.
pub open spec fn level_at(r: CompactedRegion, o: ObjRef) -> LevelV
    decreases rank(o),
{
    match o {
        ObjRef::Ptr(pos) => if fits(r, pos, 1) && tag_of(r, pos) == 1 && earlier(
            field_of(r, pos, 0),
            pos,
        ) {
            let a = level_at(r, field_of(r, pos, 0));
            if depth(a) < depth_limit() {
                LevelV::Succ(Box::new(a))
            } else {
                LevelV::Zero
            }
        } else if fits(r, pos, 2) && (tag_of(r, pos) == 2 || tag_of(r, pos) == 3) && earlier(
            field_of(r, pos, 0),
            pos,
        ) && earlier(field_of(r, pos, 1), pos) {
            let a = level_at(r, field_of(r, pos, 0));
            let b = level_at(r, field_of(r, pos, 1));
            if depth(a) < depth_limit() && depth(b) < depth_limit() {
                if tag_of(r, pos) == 2 {
                    spec_max(a, b)
                } else {
                    spec_imax(a, b)
                }
            } else {
                LevelV::Zero
            }
        } else if fits(r, pos, 1) && tag_of(r, pos) == 4 {
            LevelV::Param(name_at(r, field_of(r, pos, 0)))
        } else if fits(r, pos, 1) && tag_of(r, pos) == 5 {
            LevelV::MVar(name_at(r, field_of(r, pos, 0)))
        } else {
            LevelV::Zero
        },
        _ => LevelV::Zero,
    }
}

/// The heads of a Lean `List`: `cons` cells (tag 1) with an earlier tail,
/// ending at `nil` or at anything that is not a `cons` cell; `None` when a
/// cell does not fit in the region or its tail points forward.
pub open spec fn list_heads(r: CompactedRegion, o: ObjRef) -> Option<Seq<ObjRef>>
    decreases rank(o),
{
    match o {
        ObjRef::Ptr(pos) => if !fits(r, pos, 0) {
            None
        } else if tag_of(r, pos) == 1 {
            if fits(r, pos, 2) && earlier(field_of(r, pos, 1), pos) {
                match list_heads(r, field_of(r, pos, 1)) {
                    Some(t) => Some(seq![field_of(r, pos, 0)] + t),
                    None => None,
                }
            } else {
                None
            }
        } else {
            Some(Seq::empty())
        },
        _ => Some(Seq::empty()),
    }
}

/// The names the objects `hs` denote.
pub open spec fn names_at(r: CompactedRegion, hs: Seq<ObjRef>) -> Seq<Seq<Limb>> {
    hs.map_values(|h: ObjRef| name_at(r, h))
}

/// The levels the objects `hs` denote.
pub open spec fn levels_at(r: CompactedRegion, hs: Seq<ObjRef>) -> Seq<LevelV> {
    hs.map_values(|h: ObjRef| level_at(r, h))
}

/// The binder annotation a stored byte encodes.
pub open spec fn binder_info_of(b: u8) -> BinderInfo {
    if b == 1 {
        BinderInfo::Implicit
    } else if b == 2 {
        BinderInfo::StrictImplicit
    } else if b == 3 {
        BinderInfo::InstImplicit
    } else {
        BinderInfo::Default
    }
}

/// Lean's encoding of binder annotations: 0 default, 1 implicit, 2 strict
/// implicit, 3 instance implicit; any other byte reads as default.
pub proof fn law_binder_info_encoding()
    ensures
        binder_info_of(0) == BinderInfo::Default,
        binder_info_of(1) == BinderInfo::Implicit,
        binder_info_of(2) == BinderInfo::StrictImplicit,
        binder_info_of(3) == BinderInfo::InstImplicit,
        forall|b: u8| b > 3 ==> #[trigger] binder_info_of(b) == BinderInfo::Default,
{
}

/// A metadata value: `ofString` (0), `ofBool` (1), `ofName` (2), `ofNat` (3);
/// the others (and a scalar or null) read as numbers.
pub open spec fn data_value_at(r: CompactedRegion, o: ObjRef) -> Option<MDataV> {
    match o {
        ObjRef::Scalar(t) => Some(MDataV::Nat(t)),
        ObjRef::Ptr(pos) => if !fits(r, pos, 0) {
            None
        } else if tag_of(r, pos) > 3 {
            Some(MDataV::Nat(0))
        } else if !fits(r, pos, 1) {
            None
        } else if tag_of(r, pos) == 0 {
            Some(MDataV::Str(string_at(r, field_of(r, pos, 0))))
        } else if tag_of(r, pos) == 1 {
            Some(MDataV::Bool(bool_at(field_of(r, pos, 0))))
        } else if tag_of(r, pos) == 2 {
            Some(MDataV::Name(name_at(r, field_of(r, pos, 0))))
        } else {
            Some(MDataV::Nat(nat_at(r, field_of(r, pos, 0))))
        },
        ObjRef::Null => Some(MDataV::Nat(0)),
    }
}

/// A metadata entry: a pair of a name and a value.
pub open spec fn entry_at(r: CompactedRegion, o: ObjRef) -> Option<(Seq<Limb>, MDataV)> {
    match o {
        ObjRef::Ptr(pos) => if fits(r, pos, 2) {
            match data_value_at(r, field_of(r, pos, 1)) {
                Some(v) => Some((name_at(r, field_of(r, pos, 0)), v)),
                None => None,
            }
        } else {
            None
        },
        _ => None,
    }
}

/// What `f` reads from each of `hs`, when every one of them reads.
pub open spec fn decode_all<T>(hs: Seq<ObjRef>, f: spec_fn(ObjRef) -> Option<T>) -> Option<Seq<T>>
    decreases hs.len(),
{
    if hs.len() == 0 {
        Some(Seq::empty())
    } else {
        match (decode_all(hs.drop_last(), f), f(hs.last())) {
            (Some(p), Some(e)) => Some(p.push(e)),
            _ => None,
        }
    }
}

/// The entries the objects `hs` denote, when every one of them reads.
pub open spec fn entries_at(r: CompactedRegion, hs: Seq<ObjRef>) -> Option<
    Seq<(Seq<Limb>, MDataV)>,
> {
    decode_all(hs, |h: ObjRef| entry_at(r, h))
}

/// A metadata map: a `List` of entries.
pub open spec fn mdata_at(r: CompactedRegion, o: ObjRef) -> Option<Seq<(Seq<Limb>, MDataV)>> {
    match list_heads(r, o) {
        Some(hs) => entries_at(r, hs),
        None => None,
    }
}

/// A literal: `natVal` (0) or `strVal` (1).
pub open spec fn literal_at(r: CompactedRegion, o: ObjRef) -> Option<LitV> {
    match o {
        ObjRef::Ptr(pos) => if !fits(r, pos, 1) {
            None
        } else if tag_of(r, pos) == 0 {
            Some(LitV::Nat(nat_at(r, field_of(r, pos, 0)) as nat))
        } else if tag_of(r, pos) == 1 {
            Some(LitV::Str(string_at(r, field_of(r, pos, 0))))
        } else {
            None
        },
        _ => None,
    }
}

/// The expression an object denotes, by tag: `bvar` 0, `fvar` 1, `mvar` 2,
/// `sort` 3, `const` 4, `app` 5, `lam` 6, `forallE` 7, `letE` 8, `lit` 9,
/// `mdata` 10, `proj` 11; a scalar is a bound variable. `None` when the
/// object is null, has another tag, does not fit, or points forward to an
/// expression.
pub open spec fn expr_at(r: CompactedRegion, o: ObjRef) -> Option<ExprV>
    decreases rank(o),
{
    match o {
        ObjRef::Null => None,
        ObjRef::Scalar(n) => Some(ExprV::BVar(n)),
        ObjRef::Ptr(pos) => {
            let t = tag_of(r, pos);
            let f0 = field_of(r, pos, 0);
            let f1 = field_of(r, pos, 1);
            let f2 = field_of(r, pos, 2);
            let f3 = field_of(r, pos, 3);
            if !fits(r, pos, 0) || t > 11 {
                None
            } else if t <= 3 || t == 9 {
                if !fits(r, pos, 1) {
                    None
                } else if t == 0 {
                    Some(ExprV::BVar(nat_at(r, f0)))
                } else if t == 1 {
                    Some(ExprV::FVar(name_at(r, f0)))
                } else if t == 2 {
                    Some(ExprV::MVar(name_at(r, f0)))
                } else if t == 3 {
                    Some(ExprV::Sort(level_at(r, f0)))
                } else {
                    match literal_at(r, f0) {
                        Some(l) => Some(ExprV::Lit(l)),
                        None => None,
                    }
                }
            } else if t == 4 {
                if !fits(r, pos, 2) {
                    None
                } else {
                    match list_heads(r, f1) {
                        Some(hs) => Some(ExprV::Const(name_at(r, f0), levels_at(r, hs))),
                        None => None,
                    }
                }
            } else if t == 5 {
                if !fits(r, pos, 2) || !earlier(f0, pos) || !earlier(f1, pos) {
                    None
                } else {
                    match (expr_at(r, f0), expr_at(r, f1)) {
                        (Some(a), Some(b)) => Some(ExprV::App(Box::new(a), Box::new(b))),
                        _ => None,
                    }
                }
            } else if t == 6 || t == 7 {
                if !fits(r, pos, 3) || !scalar_fits(r, pos, 3, 0) || !earlier(f1, pos) || !earlier(
                    f2,
                    pos,
                ) {
                    None
                } else {
                    match (expr_at(r, f1), expr_at(r, f2)) {
                        (Some(ty), Some(body)) => {
                            let bi = binder_info_of(scalar_of(r, pos, 3, 0));
                            if t == 6 {
                                Some(ExprV::Lam(name_at(r, f0), Box::new(ty), Box::new(body), bi))
                            } else {
                                Some(
                                    ExprV::ForallE(name_at(r, f0), Box::new(ty), Box::new(body), bi),
                                )
                            }
                        },
                        _ => None,
                    }
                }
            } else if t == 8 {
                if !fits(r, pos, 4) || !scalar_fits(r, pos, 4, 0) || !earlier(f1, pos) || !earlier(
                    f2,
                    pos,
                ) || !earlier(f3, pos) {
                    None
                } else {
                    match (expr_at(r, f1), expr_at(r, f2), expr_at(r, f3)) {
                        (Some(ty), Some(val), Some(body)) => Some(
                            ExprV::LetE(
                                name_at(r, f0),
                                Box::new(ty),
                                Box::new(val),
                                Box::new(body),
                                scalar_of(r, pos, 4, 0) != 0,
                            ),
                        ),
                        _ => None,
                    }
                }
            } else if t == 10 {
                if !fits(r, pos, 2) || !earlier(f1, pos) {
                    None
                } else {
                    match (mdata_at(r, f0), expr_at(r, f1)) {
                        (Some(md), Some(e)) => Some(ExprV::MData(md, Box::new(e))),
                        _ => None,
                    }
                }
            } else {
                if !fits(r, pos, 3) || !earlier(f2, pos) {
                    None
                } else {
                    match expr_at(r, f2) {
                        Some(e) => Some(ExprV::Proj(name_at(r, f0), nat_at(r, f1), Box::new(e))),
                        None => None,
                    }
                }
            }
        },
    }
}

/// Reducibility hints: `opaque` (0), `abbrev` (1), `regular` (2) with its
/// height; anything else reads as opaque.
pub open spec fn hints_at(r: CompactedRegion, o: ObjRef) -> Option<ReducibilityHints> {
    match o {
        ObjRef::Scalar(t) => Some(
            if t == 1 {
                ReducibilityHints::Abbreviation
            } else {
                ReducibilityHints::Opaque
            },
        ),
        ObjRef::Ptr(pos) => if !fits(r, pos, 0) {
            None
        } else if tag_of(r, pos) == 1 {
            Some(ReducibilityHints::Abbreviation)
        } else if tag_of(r, pos) == 2 {
            if pos + 12 <= r.bytes().len() {
                Some(ReducibilityHints::Regular(r.word(pos + 8, 4) as u32))
            } else {
                None
            }
        } else {
            Some(ReducibilityHints::Opaque)
        },
        ObjRef::Null => Some(ReducibilityHints::Opaque),
    }
}

/// Definition safety: scalar 0 is unsafe, 2 partial, anything else safe.
pub open spec fn safety_of(o: ObjRef) -> DefinitionSafety {
    if o == ObjRef::Scalar(0) {
        DefinitionSafety::Unsafe
    } else if o == ObjRef::Scalar(2) {
        DefinitionSafety::Partial
    } else {
        DefinitionSafety::Safe
    }
}

/// Quotient kind: scalar 1 is `mk`, 2 `lift`, 3 `ind`, anything else `type`.
pub open spec fn quot_kind_of(o: ObjRef) -> QuotKind {
    if o == ObjRef::Scalar(1) {
        QuotKind::Mk
    } else if o == ObjRef::Scalar(2) {
        QuotKind::Lift
    } else if o == ObjRef::Scalar(3) {
        QuotKind::Ind
    } else {
        QuotKind::Type
    }
}

/// The part every declaration shares: its name, universe parameters and type.
pub open spec fn constant_val_at(r: CompactedRegion, o: ObjRef) -> Option<
    (Seq<Limb>, Seq<Seq<Limb>>, ExprV),
> {
    match o {
        ObjRef::Ptr(pos) => if fits(r, pos, 3) {
            match (list_heads(r, field_of(r, pos, 1)), expr_at(r, field_of(r, pos, 2))) {
                (Some(hs), Some(t)) => Some(
                    (name_at(r, field_of(r, pos, 0)), names_at(r, hs), t),
                ),
                _ => None,
            }
        } else {
            None
        },
        _ => None,
    }
}

/// A computation rule of a recursor: constructor, number of fields, right-hand side.
pub open spec fn rule_at(r: CompactedRegion, o: ObjRef) -> Option<RecursorRuleV> {
    match o {
        ObjRef::Ptr(pos) => if fits(r, pos, 3) {
            match expr_at(r, field_of(r, pos, 2)) {
                Some(e) => Some(
                    RecursorRuleV {
                        ctor_name: name_at(r, field_of(r, pos, 0)),
                        num_fields: nat_at(r, field_of(r, pos, 1)) as u32,
                        rhs: e,
                    },
                ),
                None => None,
            }
        } else {
            None
        },
        _ => None,
    }
}

/// The rules of a `List` of rules.
pub open spec fn rules_at(r: CompactedRegion, o: ObjRef) -> Option<Seq<RecursorRuleV>> {
    match list_heads(r, o) {
        Some(hs) => decode_all(hs, |h: ObjRef| rule_at(r, h)),
        None => None,
    }
}

/// The names of a `List Name`.
pub open spec fn name_list_at(r: CompactedRegion, o: ObjRef) -> Option<Seq<Seq<Limb>>> {
    match list_heads(r, o) {
        Some(hs) => Some(names_at(r, hs)),
        None => None,
    }
}

/// How many pointer fields, and which scalar byte, a declaration body of
/// each kind is read through.
pub open spec fn val_layout(t: u8) -> (nat, Option<(nat, nat)>) {
    if t == 0 {
        (1, Some((1, 0)))
    } else if t == 1 {
        (4, None)
    } else if t == 2 || t == 4 {
        (2, None)
    } else if t == 3 {
        (2, Some((3, 0)))
    } else if t == 5 {
        (6, Some((6, 2)))
    } else if t == 6 {
        (5, Some((5, 0)))
    } else {
        (7, Some((7, 1)))
    }
}

/// The declaration body of kind `t` at `v` fits in the region.
pub open spec fn val_fits(r: CompactedRegion, t: u8, v: usize) -> bool {
    let (n, sc) = val_layout(t);
    fits(r, v, n) && match sc {
        Some((m, k)) => scalar_fits(r, v, m, k),
        None => true,
    }
}

/// The declaration body of kind `t` (0 axiom, 1 definition, 2 theorem,
/// 3 opaque, 4 quotient, 5 inductive, 6 constructor, 7 recursor) at `v`.
pub open spec fn val_at(r: CompactedRegion, t: u8, v: usize) -> Option<ConstantV> {
    let f1 = field_of(r, v, 1);
    let f2 = field_of(r, v, 2);
    let f3 = field_of(r, v, 3);
    let f4 = field_of(r, v, 4);
    let f5 = field_of(r, v, 5);
    if t > 7 || !val_fits(r, t, v) {
        None
    } else {
        match constant_val_at(r, field_of(r, v, 0)) {
            None => None,
            Some((name, level_params, type_)) => if t == 0 {
                Some(
                    ConstantV::Axiom {
                        name,
                        level_params,
                        type_,
                        is_unsafe: scalar_of(r, v, 1, 0) != 0,
                    },
                )
            } else if t == 1 {
                match (expr_at(r, f1), hints_at(r, f2)) {
                    (Some(value), Some(hints)) => Some(
                        ConstantV::Definition {
                            name,
                            level_params,
                            type_,
                            value,
                            hints,
                            safety: safety_of(f3),
                        },
                    ),
                    _ => None,
                }
            } else if t == 2 {
                match expr_at(r, f1) {
                    Some(value) => Some(ConstantV::Theorem { name, level_params, type_, value }),
                    None => None,
                }
            } else if t == 3 {
                match expr_at(r, f1) {
                    Some(value) => Some(
                        ConstantV::Opaque {
                            name,
                            level_params,
                            type_,
                            value,
                            is_unsafe: scalar_of(r, v, 3, 0) != 0,
                        },
                    ),
                    None => None,
                }
            } else if t == 4 {
                Some(ConstantV::Quot { name, level_params, type_, kind: quot_kind_of(f1) })
            } else if t == 5 {
                match (name_list_at(r, f3), name_list_at(r, f4)) {
                    (Some(all), Some(ctors)) => Some(
                        ConstantV::Inductive {
                            name,
                            level_params,
                            type_,
                            num_params: nat_at(r, f1) as u32,
                            num_indices: nat_at(r, f2) as u32,
                            all,
                            ctors,
                            num_nested: nat_at(r, f5) as u32,
                            is_rec: scalar_of(r, v, 6, 0) != 0,
                            is_unsafe: scalar_of(r, v, 6, 1) != 0,
                            is_reflexive: scalar_of(r, v, 6, 2) != 0,
                        },
                    ),
                    _ => None,
                }
            } else if t == 6 {
                Some(
                    ConstantV::Constructor {
                        name,
                        level_params,
                        type_,
                        induct_name: name_at(r, f1),
                        ctor_idx: nat_at(r, f2) as u32,
                        num_params: nat_at(r, f3) as u32,
                        num_fields: nat_at(r, f4) as u32,
                        is_unsafe: scalar_of(r, v, 5, 0) != 0,
                    },
                )
            } else {
                match (name_list_at(r, f1), rules_at(r, field_of(r, v, 6))) {
                    (Some(all), Some(rules)) => Some(
                        ConstantV::Recursor {
                            name,
                            level_params,
                            type_,
                            all,
                            num_params: nat_at(r, f2) as u32,
                            num_indices: nat_at(r, f3) as u32,
                            num_motives: nat_at(r, f4) as u32,
                            num_minors: nat_at(r, f5) as u32,
                            rules,
                            is_k: scalar_of(r, v, 7, 0) != 0,
                            is_unsafe: scalar_of(r, v, 7, 1) != 0,
                        },
                    ),
                    _ => None,
                }
            },
        }
    }
}

/// A declaration: a cell whose tag gives the kind and whose one field
/// points to the body.
pub open spec fn constant_at(r: CompactedRegion, o: ObjRef) -> Option<ConstantV> {
    match o {
        ObjRef::Ptr(pos) => if fits(r, pos, 1) {
            match field_of(r, pos, 0) {
                ObjRef::Ptr(v) => val_at(r, tag_of(r, pos), v),
                _ => None,
            }
        } else {
            None
        },
        _ => None,
    }
}

/// The elements of a Lean `Array` (tag 246); no elements for a scalar or
/// null; `None` when it is not an array or does not fit in the region.
pub open spec fn array_heads(r: CompactedRegion, o: ObjRef) -> Option<Seq<ObjRef>> {
    match o {
        ObjRef::Ptr(pos) => if !fits(r, pos, 1) || tag_of(r, pos) != LEAN_TAG_ARRAY {
            None
        } else {
            let size = r.word(pos + 8, 8) as usize as int;
            if pos + 24 + 8 * size > r.bytes().len() {
                None
            } else {
                Some(Seq::new(size as nat, |i: int| r.resolved(r.word(pos + 24 + 8 * i, 8))))
            }
        },
        _ => Some(Seq::empty()),
    }
}

/// An import as a mathematical value.
pub struct ImportV {
    pub module: Seq<Limb>,
    pub import_all: bool,
    pub is_exported: bool,
    pub is_meta: bool,
}

/// An import: the module's name and three flags.
pub open spec fn import_at(r: CompactedRegion, o: ObjRef) -> Option<ImportV> {
    match o {
        ObjRef::Ptr(pos) => if fits(r, pos, 1) && scalar_fits(r, pos, 1, 2) {
            Some(
                ImportV {
                    module: name_at(r, field_of(r, pos, 0)),
                    import_all: scalar_of(r, pos, 1, 0) != 0,
                    is_exported: scalar_of(r, pos, 1, 1) != 0,
                    is_meta: scalar_of(r, pos, 1, 2) != 0,
                },
            )
        } else {
            None
        },
        _ => None,
    }
}

/// Module data as a mathematical value.
pub struct ModuleV {
    pub imports: Seq<ImportV>,
    pub const_names: Seq<Seq<Limb>>,
    pub constants: Seq<ConstantV>,
    pub extra_const_names: Seq<Seq<Limb>>,
}

/// The names of an `Array Name`.
pub open spec fn name_array_at(r: CompactedRegion, o: ObjRef) -> Option<Seq<Seq<Limb>>> {
    match array_heads(r, o) {
        Some(hs) => Some(names_at(r, hs)),
        None => None,
    }
}

/// The module data at the root: a structure (tag 0) of imports, declaration
/// names, declarations and extra declaration names (its other fields are
/// not read).
pub open spec fn module_at(r: CompactedRegion, o: ObjRef) -> Option<ModuleV> {
    match o {
        ObjRef::Ptr(pos) => if !fits(r, pos, 0) || tag_of(r, pos) != 0 || !fits(r, pos, 4) {
            None
        } else {
            let imports = match array_heads(r, field_of(r, pos, 0)) {
                Some(hs) => decode_all(hs, |h: ObjRef| import_at(r, h)),
                None => None,
            };
            let constants = match array_heads(r, field_of(r, pos, 2)) {
                Some(hs) => decode_all(hs, |h: ObjRef| constant_at(r, h)),
                None => None,
            };
            match (
                imports,
                name_array_at(r, field_of(r, pos, 1)),
                constants,
                name_array_at(r, field_of(r, pos, 3)),
            ) {
                (Some(i), Some(n), Some(c), Some(x)) => Some(
                    ModuleV { imports: i, const_names: n, constants: c, extra_const_names: x },
                ),
                _ => None,
            }
        },
        _ => None,
    }
}

// ─── Caches ─────────────────────────────────────────────────────────────

/// Names already read, by position, in an `FxHashMap`.
#[verifier::external_body]
pub(crate) struct NameCache {
    map: FxHashMap<usize, Name>,
}

/// What a name cache holds: for each position the components of its name.
pub uninterp spec fn name_cache_contents(c: NameCache) -> Map<usize, Seq<Limb>>;

impl NameCache {
    /// `FxHashMap::default`: an empty cache.
    #[verifier::external_body]
    pub(crate) fn new() -> (r: Self)
        ensures
            name_cache_contents(r).dom() == Set::<usize>::empty(),
    {
        NameCache { map: FxHashMap::default() }
    }

    /// `HashMap::get`, cloned: the name stored for `pos`, if any.
    #[verifier::external_body]
    pub(crate) fn get(&self, pos: usize) -> (r: Option<Name>)
        ensures
            r is None <==> !name_cache_contents(*self).contains_key(pos),
            r matches Some(n) ==> n@ == name_cache_contents(*self)[pos],
    {
        self.map.get(&pos).cloned()
    }

    /// `HashMap::insert`: store `n` for `pos`.
    #[verifier::external_body]
    pub(crate) fn insert(&mut self, pos: usize, n: Name)
        ensures
            name_cache_contents(*final(self)) == name_cache_contents(*old(self)).insert(pos, n@),
    {
        self.map.insert(pos, n);
    }
}

/// Levels already read, by position, in an `FxHashMap`.
#[verifier::external_body]
pub(crate) struct LevelCache {
    map: FxHashMap<usize, Level>,
}

/// What a level cache holds: for each position its level.
pub uninterp spec fn level_cache_contents(c: LevelCache) -> Map<usize, LevelV>;

impl LevelCache {
    /// `FxHashMap::default`: an empty cache.
    #[verifier::external_body]
    pub(crate) fn new() -> (r: Self)
        ensures
            level_cache_contents(r).dom() == Set::<usize>::empty(),
    {
        LevelCache { map: FxHashMap::default() }
    }

    /// `HashMap::get`, cloned: the level stored for `pos`, if any.
    #[verifier::external_body]
    pub(crate) fn get(&self, pos: usize) -> (r: Option<Level>)
        ensures
            r is None <==> !level_cache_contents(*self).contains_key(pos),
            r matches Some(l) ==> l@ == level_cache_contents(*self)[pos],
    {
        self.map.get(&pos).cloned()
    }

    /// `HashMap::insert`: store `l` for `pos`.
    #[verifier::external_body]
    pub(crate) fn insert(&mut self, pos: usize, l: Level)
        ensures
            level_cache_contents(*final(self)) == level_cache_contents(*old(self)).insert(pos, l@),
    {
        self.map.insert(pos, l);
    }
}

/// Expressions already read, by position, in an `FxHashMap`.
#[verifier::external_body]
pub(crate) struct ExprCache {
    map: FxHashMap<usize, Expr>,
}

/// What an expression cache holds: for each position its expression.
pub uninterp spec fn expr_cache_contents(c: ExprCache) -> Map<usize, ExprV>;

impl ExprCache {
    /// `FxHashMap::default`: an empty cache.
    #[verifier::external_body]
    pub(crate) fn new() -> (r: Self)
        ensures
            expr_cache_contents(r).dom() == Set::<usize>::empty(),
    {
        ExprCache { map: FxHashMap::default() }
    }

    /// `HashMap::get`, cloned: the expression stored for `pos`, if any.
    #[verifier::external_body]
    pub(crate) fn get(&self, pos: usize) -> (r: Option<Expr>)
        ensures
            r is None <==> !expr_cache_contents(*self).contains_key(pos),
            r matches Some(e) ==> e@ == expr_cache_contents(*self)[pos],
    {
        self.map.get(&pos).cloned()
    }

    /// `HashMap::insert`: store `e` for `pos`.
    #[verifier::external_body]
    pub(crate) fn insert(&mut self, pos: usize, e: Expr)
        ensures
            expr_cache_contents(*final(self)) == expr_cache_contents(*old(self)).insert(pos, e@),
    {
        self.map.insert(pos, e);
    }
}

// ─── The reader ─────────────────────────────────────────────────────────

/// Module data extracted from an `.olean` file.
#[derive(Debug)]
pub struct ModuleData {
    pub imports: Vec<Import>,
    pub const_names: Vec<Name>,
    pub constants: Vec<ConstantInfo>,
    pub extra_const_names: Vec<Name>,
}

/// An import declaration in a module.
#[derive(Debug, Clone)]
pub struct Import {
    pub module: Name,
    pub import_all: bool,
    pub is_exported: bool,
    pub is_meta: bool,
}

impl View for Import {
    type V = ImportV;

    open spec fn view(&self) -> ImportV {
        ImportV {
            module: self.module@,
            import_all: self.import_all,
            is_exported: self.is_exported,
            is_meta: self.is_meta,
        }
    }
}

/// The views of a list of imports.
pub open spec fn imports_view(v: Seq<Import>) -> Seq<ImportV> {
    v.map_values(|i: Import| i@)
}

/// The views of a list of declarations.
pub open spec fn constants_view(v: Seq<ConstantInfo>) -> Seq<ConstantV> {
    v.map_values(|c: ConstantInfo| c@)
}

impl View for ModuleData {
    type V = ModuleV;

    open spec fn view(&self) -> ModuleV {
        ModuleV {
            imports: imports_view(self.imports@),
            const_names: names_view(self.const_names@),
            constants: constants_view(self.constants@),
            extra_const_names: names_view(self.extra_const_names@),
        }
    }
}

/// Type-directed deserializer for Lean objects in a compacted region.
pub struct Deserializer<'a> {
    region: &'a CompactedRegion,
    name_cache: NameCache,
    level_cache: LevelCache,
    expr_cache: ExprCache,
}

impl<'a> Deserializer<'a> {
    /// The region read.
    pub closed spec fn source(&self) -> CompactedRegion {
        *self.region
    }

    /// Every cached value is what its position denotes.
    pub closed spec fn caches_ok(&self) -> bool {
        &&& forall|p: usize| #[trigger]
            name_cache_contents(self.name_cache).contains_key(p) ==> name_cache_contents(
                self.name_cache,
            )[p] == name_at(*self.region, ObjRef::Ptr(p))
        &&& forall|p: usize| #[trigger]
            level_cache_contents(self.level_cache).contains_key(p) ==> level_cache_contents(
                self.level_cache,
            )[p] == level_at(*self.region, ObjRef::Ptr(p))
        &&& forall|p: usize| #[trigger]
            expr_cache_contents(self.expr_cache).contains_key(p) ==> expr_at(
                *self.region,
                ObjRef::Ptr(p),
            ) == Some(expr_cache_contents(self.expr_cache)[p])
    }

    pub fn new(region: &'a CompactedRegion) -> (r: Self)
        ensures
            r.source() == *region,
            r.caches_ok(),
    {
        Deserializer {
            region,
            name_cache: NameCache::new(),
            level_cache: LevelCache::new(),
            expr_cache: ExprCache::new(),
        }
    }

    /// Whether the object at `pos` has its header and `n` pointer fields.
    fn fits_exec(&self, pos: usize, n: usize) -> (b: bool)
        requires
            n <= 16,
        ensures
            b == fits(*self.region, pos, n as nat),
    {
        let len = self.region.data_len();
        len >= 8 + 8 * n && pos <= len - (8 + 8 * n)
    }

    /// Whether `o` is no pointer or points before `pos`.
    fn earlier_exec(o: ObjRef, pos: usize) -> (b: bool)
        ensures
            b == earlier(o, pos),
    {
        match o {
            ObjRef::Ptr(p) => p < pos,
            _ => true,
        }
    }

    /// Read a Lean `Bool`: `Scalar(1)` is true.
    fn deser_bool(&self, obj: ObjRef) -> (b: bool)
        ensures
            b == bool_at(obj),
    {
        match obj {
            ObjRef::Scalar(n) => n == 1,
            _ => false,
        }
    }

    /// Read a natural number (small = scalar, large = big number object).
    fn deser_nat(&self, obj: ObjRef) -> (n: u64)
        ensures
            n == nat_at(*self.region, obj),
    {
        match obj {
            ObjRef::Scalar(n) => n,
            ObjRef::Ptr(pos) => {
                if !self.fits_exec(pos, 0) {
                    return 0;
                }
                let tag = self.region.obj_tag(pos);
                if tag != LEAN_TAG_MPZ || !self.mpz_readable_exec(pos) {
                    return 0;
                }
                match self.region.mpz_to_u64(pos) {
                    Ok(v) => v,
                    Err(_) => 0,
                }
            },
            ObjRef::Null => 0,
        }
    }

    /// Whether the big number at `pos` can be read.
    fn mpz_readable_exec(&self, pos: usize) -> (b: bool)
        requires
            fits(*self.region, pos, 0),
        ensures
            b == mpz_readable(*self.region, pos),
    {
        let len = self.region.data_len();
        if self.region.gmp_format() {
            if len < 24 || pos > len - 24 {
                return false;
            }
            let size = self.region.read_u32(pos + 12) as i32;
            if size == 1 {
                let raw = self.region.read_u64(pos + 16);
                match self.region.resolve(raw) {
                    ObjRef::Ptr(lpos) => len >= 8 && lpos <= len - 8,
                    _ => true,
                }
            } else {
                true
            }
        } else {
            if len < 25 || pos > len - 25 {
                return false;
            }
            let size = self.region.read_u64(pos + 16) as usize;
            let sign = self.region.read_u8(pos + 24);
            if size == 1 && sign == 0 {
                len >= 40 && pos <= len - 40
            } else {
                true
            }
        }
    }

    /// Read a string object (tag 249); the empty string for anything else.
    fn deser_string_obj(&self, obj: ObjRef) -> (s: String)
        ensures
            s@ == string_at(*self.region, obj),
    {
        match obj {
            ObjRef::Ptr(pos) => {
                if !self.fits_exec(pos, 1) || pos > usize::MAX - 32 {
                    return String::new();
                }
                let tag = self.region.obj_tag(pos);
                if tag != LEAN_TAG_STRING {
                    return String::new();
                }
                proof {
                    reveal_strlit("");
                }
                match self.region.string_value(pos) {
                    Ok(s) => s.to_string(),
                    Err(_) => String::new(),
                }
            },
            _ => String::new(),
        }
    }

    /// Read a name (tags: 1 = `str`, 2 = `num`; anything else is anonymous).
    pub fn deser_name(&mut self, obj: ObjRef) -> (r: Name)
        requires
            old(self).caches_ok(),
        ensures
            r@ == name_at(old(self).source(), obj),
            final(self).source() == old(self).source(),
            final(self).caches_ok(),
        decreases rank(obj),
    {
        match obj {
            ObjRef::Ptr(pos) => {
                if let Some(cached) = self.name_cache.get(pos) {
                    return cached;
                }
                if !self.fits_exec(pos, 2) {
                    return Name::anonymous();
                }
                let tag = self.region.obj_tag(pos);
                let prefix_ref = self.region.ctor_obj_field(pos, 0);
                if (tag != 1 && tag != 2) || !Self::earlier_exec(prefix_ref, pos) {
                    return Name::anonymous();
                }
                let second_ref = self.region.ctor_obj_field(pos, 1);
                let prefix = self.deser_name(prefix_ref);
                let name = if tag == 1 {
                    let s = self.deser_string_obj(second_ref);
                    Name::mk_str(prefix, s.as_str())
                } else {
                    let n = self.deser_nat(second_ref);
                    Name::mk_num(prefix, n)
                };
                self.name_cache.insert(pos, name.clone());
                name
            },
            _ => Name::anonymous(),
        }
    }
    /// Read a universe level (tags: 1 = `succ`, 2 = `max`, 3 = `imax`,
    /// 4 = `param`, 5 = `mvar`; anything else is zero).
    fn deser_level(&mut self, obj: ObjRef) -> (r: Level)
        requires
            old(self).caches_ok(),
        ensures
            r@ == level_at(old(self).source(), obj),
            final(self).source() == old(self).source(),
            final(self).caches_ok(),
        decreases rank(obj),
    {
        match obj {
            ObjRef::Ptr(pos) => {
                if let Some(cached) = self.level_cache.get(pos) {
                    return cached;
                }
                if !self.fits_exec(pos, 1) {
                    return Level::zero();
                }
                let tag = self.region.obj_tag(pos);
                let first = self.region.ctor_obj_field(pos, 0);
                let level = if tag == 1 && Self::earlier_exec(first, pos) {
                    let a = self.deser_level(first);
                    if a.depth() < u32::MAX {
                        Level::succ(a)
                    } else {
                        Level::zero()
                    }
                } else if (tag == 2 || tag == 3) && self.fits_exec(pos, 2) && Self::earlier_exec(
                    first,
                    pos,
                ) && Self::earlier_exec(self.region.ctor_obj_field(pos, 1), pos) {
                    let second = self.region.ctor_obj_field(pos, 1);
                    let a = self.deser_level(first);
                    let b = self.deser_level(second);
                    if a.depth() < u32::MAX && b.depth() < u32::MAX {
                        if tag == 2 {
                            Level::max(a, b)
                        } else {
                            Level::imax(a, b)
                        }
                    } else {
                        Level::zero()
                    }
                } else if tag == 4 {
                    Level::param(self.deser_name(first))
                } else if tag == 5 {
                    Level::mvar(self.deser_name(first))
                } else {
                    Level::zero()
                };
                self.level_cache.insert(pos, level.clone());
                level
            },
            _ => Level::zero(),
        }
    }

    /// The error for an object that does not fit in the region.
    fn out_of_bounds(&self, pos: usize) -> (e: OleanError)
        ensures
            e == (OleanError::OutOfBounds { pos, size: self.source().bytes().len() as usize }),
    {
        OleanError::OutOfBounds { pos, size: self.region.data_len() }
    }

    /// The heads of the Lean `List` at `obj`.
    fn list_heads_exec(&self, obj: ObjRef) -> (r: Result<Vec<ObjRef>, OleanError>)
        ensures
            r is Ok <==> list_heads(self.source(), obj) is Some,
            r matches Ok(v) ==> v@ == list_heads(self.source(), obj)->0,
    {
        let ghost src = self.source();
        let mut out: Vec<ObjRef> = Vec::new();
        let mut cur = obj;
        loop
            invariant
                self.source() == src,
                list_heads(src, obj) == (match list_heads(src, cur) {
                    Some(t) => Some(out@ + t),
                    None => None::<Seq<ObjRef>>,
                }),
            decreases rank(cur),
        {
            match cur {
                ObjRef::Ptr(pos) => {
                    if !self.fits_exec(pos, 0) {
                        return Err(self.out_of_bounds(pos));
                    }
                    if self.region.obj_tag(pos) != 1 {
                        proof {
                            assert(out@ + Seq::<ObjRef>::empty() == out@);
                        }
                        return Ok(out);
                    }
                    if !self.fits_exec(pos, 2) {
                        return Err(self.out_of_bounds(pos));
                    }
                    let head = self.region.ctor_obj_field(pos, 0);
                    let tail = self.region.ctor_obj_field(pos, 1);
                    if !Self::earlier_exec(tail, pos) {
                        return Err(OleanError::Deserialize(message("list cell points forward")));
                    }
                    proof {
                        if let Some(t) = list_heads(src, tail) {
                            assert(out@.push(head) + t == out@ + (seq![head] + t));
                        }
                    }
                    out.push(head);
                    cur = tail;
                },
                _ => {
                    proof {
                        assert(out@ + Seq::<ObjRef>::empty() == out@);
                    }
                    return Ok(out);
                },
            }
        }
    }

    /// Read the names the objects `heads` denote.
    fn deser_names(&mut self, heads: &Vec<ObjRef>) -> (r: Vec<Name>)
        requires
            old(self).caches_ok(),
        ensures
            final(self).source() == old(self).source(),
            final(self).caches_ok(),
            names_view(r@) == names_at(old(self).source(), heads@),
    {
        let ghost src = self.source();
        let mut out: Vec<Name> = Vec::new();
        let mut i: usize = 0;
        while i < heads.len()
            invariant
                self.source() == src,
                src == old(self).source(),
                self.caches_ok(),
                i <= heads@.len(),
                names_view(out@) == names_at(src, heads@.take(i as int)),
            decreases heads.len() - i,
        {
            let n = self.deser_name(heads[i]);
            let ghost before = out@;
            proof {
                assert(heads@.take(i + 1) == heads@.take(i as int).push(heads@[i as int]));
                assert(names_at(src, heads@.take(i + 1)) =~= names_at(src, heads@.take(i as int)).push(
                    names_at(src, heads@.take(i + 1))[i as int],
                ));
            }
            out.push(n);
            proof {
                assert(names_view(out@) =~= names_view(before).push(n@));
            }
            i = i + 1;
        }
        proof {
            assert(heads@.take(i as int) == heads@);
        }
        out
    }

    /// Read a Lean `List Name`.
    fn deser_name_list(&mut self, obj: ObjRef) -> (r: Result<Vec<Name>, OleanError>)
        requires
            old(self).caches_ok(),
        ensures
            final(self).source() == old(self).source(),
            final(self).caches_ok(),
            r is Ok <==> list_heads(old(self).source(), obj) is Some,
            r matches Ok(v) ==> names_view(v@) == names_at(
                old(self).source(),
                list_heads(old(self).source(), obj)->0,
            ),
    {
        let heads = self.list_heads_exec(obj)?;
        Ok(self.deser_names(&heads))
    }

    /// Read a Lean `List Level`.
    fn deser_level_list(&mut self, obj: ObjRef) -> (r: Result<Vec<Level>, OleanError>)
        requires
            old(self).caches_ok(),
        ensures
            final(self).source() == old(self).source(),
            final(self).caches_ok(),
            r is Ok <==> list_heads(old(self).source(), obj) is Some,
            r matches Ok(v) ==> levels_view(v@) == levels_at(
                old(self).source(),
                list_heads(old(self).source(), obj)->0,
            ),
    {
        let heads = self.list_heads_exec(obj)?;
        let ghost src = self.source();
        let mut out: Vec<Level> = Vec::new();
        let mut i: usize = 0;
        while i < heads.len()
            invariant
                self.source() == src,
                self.caches_ok(),
                i <= heads@.len(),
                levels_view(out@) == levels_at(src, heads@.take(i as int)),
            decreases heads.len() - i,
        {
            let l = self.deser_level(heads[i]);
            let ghost before = out@;
            proof {
                assert(heads@.take(i + 1) == heads@.take(i as int).push(heads@[i as int]));
                assert(levels_at(src, heads@.take(i + 1)) =~= levels_at(src, heads@.take(i as int)).push(
                    levels_at(src, heads@.take(i + 1))[i as int],
                ));
            }
            out.push(l);
            proof {
                assert(levels_view(out@) =~= levels_view(before).push(l@));
            }
            i = i + 1;
        }
        proof {
            assert(heads@.take(i as int) == heads@);
        }
        Ok(out)
    }
    /// Read a metadata value.
    fn deser_data_value(&mut self, obj: ObjRef) -> (r: Result<MDataValue, OleanError>)
        requires
            old(self).caches_ok(),
        ensures
            final(self).source() == old(self).source(),
            final(self).caches_ok(),
            r is Ok <==> data_value_at(old(self).source(), obj) is Some,
            r matches Ok(v) ==> v@ == data_value_at(old(self).source(), obj)->0,
    {
        match obj {
            ObjRef::Scalar(tag) => Ok(MDataValue::Nat(tag)),
            ObjRef::Ptr(pos) => {
                if !self.fits_exec(pos, 0) {
                    return Err(self.out_of_bounds(pos));
                }
                let tag = self.region.obj_tag(pos);
                if tag > 3 {
                    return Ok(MDataValue::Nat(0));
                }
                if !self.fits_exec(pos, 1) {
                    return Err(self.out_of_bounds(pos));
                }
                let f0 = self.region.ctor_obj_field(pos, 0);
                if tag == 0 {
                    Ok(MDataValue::String(self.deser_string_obj(f0)))
                } else if tag == 1 {
                    Ok(MDataValue::Bool(self.deser_bool(f0)))
                } else if tag == 2 {
                    Ok(MDataValue::Name(self.deser_name(f0)))
                } else {
                    Ok(MDataValue::Nat(self.deser_nat(f0)))
                }
            },
            ObjRef::Null => Ok(MDataValue::Nat(0)),
        }
    }

    /// Read a metadata entry: a name and a value.
    fn deser_mdata_entry(&mut self, obj: ObjRef) -> (r: Result<(Name, MDataValue), OleanError>)
        requires
            old(self).caches_ok(),
        ensures
            final(self).source() == old(self).source(),
            final(self).caches_ok(),
            r is Ok <==> entry_at(old(self).source(), obj) is Some,
            r matches Ok(p) ==> (p.0@, p.1@) == entry_at(old(self).source(), obj)->0,
    {
        let pos = expect_ptr(obj, "KVMap entry")?;
        if !self.fits_exec(pos, 2) {
            return Err(self.out_of_bounds(pos));
        }
        let name_ref = self.region.ctor_obj_field(pos, 0);
        let val_ref = self.region.ctor_obj_field(pos, 1);
        let name = self.deser_name(name_ref);
        let val = self.deser_data_value(val_ref)?;
        Ok((name, val))
    }

    /// Read a metadata map: a `List` of entries.
    fn deser_mdata(&mut self, obj: ObjRef) -> (r: Result<MData, OleanError>)
        requires
            old(self).caches_ok(),
        ensures
            final(self).source() == old(self).source(),
            final(self).caches_ok(),
            r is Ok <==> mdata_at(old(self).source(), obj) is Some,
            r matches Ok(md) ==> mdata_view(md@) == mdata_at(old(self).source(), obj)->0,
    {
        let heads = self.list_heads_exec(obj)?;
        let ghost src = self.source();
        let mut out: Vec<(Name, MDataValue)> = Vec::new();
        let mut i: usize = 0;
        while i < heads.len()
            invariant
                self.source() == src,
                self.caches_ok(),
                i <= heads@.len(),
                entries_at(src, heads@.take(i as int)) == Some(mdata_view(out@)),
                src == old(self).source(),
                list_heads(src, obj) == Some(heads@),
            decreases heads.len() - i,
        {
            proof {
                assert(heads@.take(i + 1).drop_last() == heads@.take(i as int));
            }
            let entry = match self.deser_mdata_entry(heads[i]) {
                Ok(e) => e,
                Err(e) => {
                    proof {
                        lemma_decode_fail(heads@, |h: ObjRef| entry_at(src, h), (i + 1) as nat);
                    }
                    return Err(e);
                },
            };
            let ghost before = out@;
            out.push(entry);
            proof {
                assert(mdata_view(out@) =~= mdata_view(before).push((entry.0@, entry.1@)));
            }
            i = i + 1;
        }
        proof {
            assert(heads@.take(i as int) == heads@);
        }
        Ok(out)
    }

    /// Read a literal: `natVal` (0) or `strVal` (1).
    fn deser_literal(&mut self, obj: ObjRef) -> (r: Result<Literal, OleanError>)
        ensures
            final(self).source() == old(self).source(),
            final(self).caches_ok() == old(self).caches_ok(),
            r is Ok <==> literal_at(old(self).source(), obj) is Some,
            r matches Ok(l) ==> l@ == literal_at(old(self).source(), obj)->0,
    {
        let pos = expect_ptr(obj, "Literal")?;
        if !self.fits_exec(pos, 1) {
            return Err(self.out_of_bounds(pos));
        }
        let tag = self.region.obj_tag(pos);
        let f0 = self.region.ctor_obj_field(pos, 0);
        if tag == 0 {
            Ok(Literal::nat_small(self.deser_nat(f0)))
        } else if tag == 1 {
            Ok(Literal::string(self.deser_string_obj(f0)))
        } else {
            Err(OleanError::Deserialize(tagged_message("unknown Literal tag: ", tag)))
        }
    }

    /// Read an expression.
    pub fn deser_expr(&mut self, obj: ObjRef) -> (r: Result<Expr, OleanError>)
        requires
            old(self).caches_ok(),
        ensures
            final(self).source() == old(self).source(),
            final(self).caches_ok(),
            r is Ok <==> expr_at(old(self).source(), obj) is Some,
            r matches Ok(e) ==> e@ == expr_at(old(self).source(), obj)->0,
        decreases rank(obj),
    {
        let pos = match obj {
            ObjRef::Null => {
                return Err(OleanError::Deserialize(message("null Expr")));
            },
            ObjRef::Scalar(n) => {
                return Ok(Expr::bvar(n));
            },
            ObjRef::Ptr(pos) => pos,
        };
        if let Some(cached) = self.expr_cache.get(pos) {
            return Ok(cached);
        }
        if !self.fits_exec(pos, 0) {
            return Err(self.out_of_bounds(pos));
        }
        let tag = self.region.obj_tag(pos);
        if tag > 11 {
            return Err(OleanError::Deserialize(tagged_message("unknown Expr tag: ", tag)));
        }
        let needed: usize = if tag <= 3 || tag == 9 {
            1
        } else if tag == 4 || tag == 5 || tag == 10 {
            2
        } else if tag == 8 {
            4
        } else {
            3
        };
        if !self.fits_exec(pos, needed) {
            return Err(self.out_of_bounds(pos));
        }
        let f0 = self.region.ctor_obj_field(pos, 0);
        let expr = if tag == 0 {
            Expr::bvar(self.deser_nat(f0))
        } else if tag == 1 {
            Expr::fvar(self.deser_name(f0))
        } else if tag == 2 {
            Expr::mvar(self.deser_name(f0))
        } else if tag == 3 {
            Expr::sort(self.deser_level(f0))
        } else if tag == 9 {
            let lit = self.deser_literal(f0)?;
            Expr::lit(lit)
        } else if tag == 4 {
            let f1 = self.region.ctor_obj_field(pos, 1);
            let name = self.deser_name(f0);
            let levels = self.deser_level_list(f1)?;
            Expr::const_(name, levels)
        } else if tag == 5 {
            let f1 = self.region.ctor_obj_field(pos, 1);
            if !Self::earlier_exec(f0, pos) || !Self::earlier_exec(f1, pos) {
                return Err(points_forward());
            }
            let a = self.deser_expr(f0)?;
            let b = self.deser_expr(f1)?;
            Expr::app(a, b)
        } else if tag == 6 || tag == 7 {
            let f1 = self.region.ctor_obj_field(pos, 1);
            let f2 = self.region.ctor_obj_field(pos, 2);
            if !self.scalar_fits_exec(pos, 3, 0) || !Self::earlier_exec(f1, pos)
                || !Self::earlier_exec(f2, pos) {
                return Err(self.malformed(pos, 3, 0, f1, f2, f2));
            }
            let bi = deser_binder_info(self.region.ctor_scalar_u8(pos, 3, 0));
            let name = self.deser_name(f0);
            let ty = self.deser_expr(f1)?;
            let body = self.deser_expr(f2)?;
            if tag == 6 {
                Expr::lam(name, ty, body, bi)
            } else {
                Expr::forall_e(name, ty, body, bi)
            }
        } else if tag == 8 {
            let f1 = self.region.ctor_obj_field(pos, 1);
            let f2 = self.region.ctor_obj_field(pos, 2);
            let f3 = self.region.ctor_obj_field(pos, 3);
            if !self.scalar_fits_exec(pos, 4, 0) || !Self::earlier_exec(f1, pos)
                || !Self::earlier_exec(f2, pos) || !Self::earlier_exec(f3, pos) {
                return Err(self.malformed(pos, 4, 0, f1, f2, f3));
            }
            let nondep = self.region.ctor_scalar_u8(pos, 4, 0) != 0;
            let name = self.deser_name(f0);
            let ty = self.deser_expr(f1)?;
            let val = self.deser_expr(f2)?;
            let body = self.deser_expr(f3)?;
            Expr::let_e(name, ty, val, body, nondep)
        } else if tag == 10 {
            let f1 = self.region.ctor_obj_field(pos, 1);
            if !Self::earlier_exec(f1, pos) {
                return Err(points_forward());
            }
            let md = self.deser_mdata(f0)?;
            let inner = self.deser_expr(f1)?;
            Expr::mdata(md, inner)
        } else {
            let f1 = self.region.ctor_obj_field(pos, 1);
            let f2 = self.region.ctor_obj_field(pos, 2);
            if !Self::earlier_exec(f2, pos) {
                return Err(points_forward());
            }
            let name = self.deser_name(f0);
            let idx = self.deser_nat(f1);
            let s = self.deser_expr(f2)?;
            Expr::proj(name, idx, s)
        };
        self.expr_cache.insert(pos, expr.clone());
        Ok(expr)
    }

    /// Whether scalar byte `k` after `n` pointer fields is in the region.
    fn scalar_fits_exec(&self, pos: usize, n: usize, k: usize) -> (b: bool)
        requires
            n <= 16,
            k <= 16,
        ensures
            b == scalar_fits(*self.region, pos, n as nat, k as nat),
    {
        let len = self.region.data_len();
        len > 8 + 8 * n + k && pos < len - (8 + 8 * n + k)
    }

    /// The error for a binder or `let` cell whose scalar byte is missing or
    /// whose children point forward.
    fn malformed(&self, pos: usize, n: usize, k: usize, a: ObjRef, b: ObjRef, c: ObjRef) -> (e:
        OleanError)
        requires
            n <= 16,
            k <= 16,
    {
        if !self.scalar_fits_exec(pos, n, k) {
            self.out_of_bounds(pos)
        } else {
            points_forward()
        }
    }
    /// Read reducibility hints.
    fn deser_reducibility_hints(&self, obj: ObjRef) -> (r: Result<ReducibilityHints, OleanError>)
        ensures
            r is Ok <==> hints_at(self.source(), obj) is Some,
            r matches Ok(h) ==> h == hints_at(self.source(), obj)->0,
    {
        match obj {
            ObjRef::Scalar(t) => Ok(
                if t == 1 {
                    ReducibilityHints::Abbreviation
                } else {
                    ReducibilityHints::Opaque
                },
            ),
            ObjRef::Ptr(pos) => {
                if !self.fits_exec(pos, 0) {
                    return Err(self.out_of_bounds(pos));
                }
                let tag = self.region.obj_tag(pos);
                if tag == 1 {
                    Ok(ReducibilityHints::Abbreviation)
                } else if tag == 2 {
                    if self.region.data_len() - pos < 12 {
                        return Err(self.out_of_bounds(pos));
                    }
                    let height = self.region.ctor_scalar_u32(pos, 0, 0);
                    Ok(ReducibilityHints::Regular(height))
                } else {
                    Ok(ReducibilityHints::Opaque)
                }
            },
            ObjRef::Null => Ok(ReducibilityHints::Opaque),
        }
    }

    /// Read the part every declaration shares: name, universe parameters, type.
    fn deser_constant_val(&mut self, pos: usize) -> (r: Result<(Name, Vec<Name>, Expr), OleanError>)
        requires
            old(self).caches_ok(),
        ensures
            final(self).source() == old(self).source(),
            final(self).caches_ok(),
            r is Ok <==> constant_val_at(old(self).source(), ObjRef::Ptr(pos)) is Some,
            r matches Ok(t) ==> (t.0@, names_view(t.1@), t.2@) == constant_val_at(
                old(self).source(),
                ObjRef::Ptr(pos),
            )->0,
    {
        if !self.fits_exec(pos, 3) {
            return Err(self.out_of_bounds(pos));
        }
        let name_ref = self.region.ctor_obj_field(pos, 0);
        let params_ref = self.region.ctor_obj_field(pos, 1);
        let type_ref = self.region.ctor_obj_field(pos, 2);
        let name = self.deser_name(name_ref);
        let level_params = self.deser_name_list(params_ref)?;
        let type_ = self.deser_expr(type_ref)?;
        Ok((name, level_params, type_))
    }

    /// Read a computation rule of a recursor.
    fn deser_recursor_rule(&mut self, obj: ObjRef) -> (r: Result<RecursorRule, OleanError>)
        requires
            old(self).caches_ok(),
        ensures
            final(self).source() == old(self).source(),
            final(self).caches_ok(),
            r is Ok <==> rule_at(old(self).source(), obj) is Some,
            r matches Ok(x) ==> x@ == rule_at(old(self).source(), obj)->0,
    {
        let pos = expect_ptr(obj, "RecursorRule")?;
        if !self.fits_exec(pos, 3) {
            return Err(self.out_of_bounds(pos));
        }
        let ctor_ref = self.region.ctor_obj_field(pos, 0);
        let nfields_ref = self.region.ctor_obj_field(pos, 1);
        let rhs_ref = self.region.ctor_obj_field(pos, 2);
        let ctor_name = self.deser_name(ctor_ref);
        let num_fields = self.deser_nat(nfields_ref) as u32;
        let rhs = self.deser_expr(rhs_ref)?;
        Ok(RecursorRule { ctor_name, num_fields, rhs })
    }

    /// Read a `List` of computation rules.
    fn deser_rule_list(&mut self, obj: ObjRef) -> (r: Result<Vec<RecursorRule>, OleanError>)
        requires
            old(self).caches_ok(),
        ensures
            final(self).source() == old(self).source(),
            final(self).caches_ok(),
            r is Ok <==> rules_at(old(self).source(), obj) is Some,
            r matches Ok(v) ==> rules_view(v@) == rules_at(old(self).source(), obj)->0,
    {
        let heads = self.list_heads_exec(obj)?;
        let ghost src = self.source();
        let ghost f = |h: ObjRef| rule_at(src, h);
        let mut out: Vec<RecursorRule> = Vec::new();
        let mut i: usize = 0;
        while i < heads.len()
            invariant
                self.source() == src,
                self.caches_ok(),
                i <= heads@.len(),
                decode_all(heads@.take(i as int), f) == Some(rules_view(out@)),
                src == old(self).source(),
                list_heads(src, obj) == Some(heads@),
                f == (|h: ObjRef| rule_at(src, h)),
            decreases heads.len() - i,
        {
            proof {
                assert(heads@.take(i + 1).drop_last() == heads@.take(i as int));
            }
            let rule = match self.deser_recursor_rule(heads[i]) {
                Ok(x) => x,
                Err(e) => {
                    proof {
                        lemma_decode_fail(heads@, f, (i + 1) as nat);
                    }
                    return Err(e);
                },
            };
            let ghost before = out@;
            out.push(rule);
            proof {
                assert(rules_view(out@) =~= rules_view(before).push(rule@));
            }
            i = i + 1;
        }
        proof {
            assert(heads@.take(i as int) == heads@);
        }
        Ok(out)
    }

    /// Whether the declaration body of kind `t` at `v` fits in the region.
    fn val_fits_exec(&self, t: u8, v: usize) -> (b: bool)
        requires
            t <= 7,
        ensures
            b == val_fits(self.source(), t, v),
    {
        let (n, m, k, has_scalar): (usize, usize, usize, bool) = if t == 0 {
            (1, 1, 0, true)
        } else if t == 1 {
            (4, 0, 0, false)
        } else if t == 2 || t == 4 {
            (2, 0, 0, false)
        } else if t == 3 {
            (2, 3, 0, true)
        } else if t == 5 {
            (6, 6, 2, true)
        } else if t == 6 {
            (5, 5, 0, true)
        } else {
            (7, 7, 1, true)
        };
        self.fits_exec(v, n) && (!has_scalar || self.scalar_fits_exec(v, m, k))
    }

    /// Read an axiom body.
    fn deser_axiom_val(&mut self, pos: usize) -> (r: Result<ConstantInfo, OleanError>)
        requires
            old(self).caches_ok(),
        ensures
            final(self).source() == old(self).source(),
            final(self).caches_ok(),
            r is Ok <==> val_at(old(self).source(), 0, pos) is Some,
            r matches Ok(c) ==> c@ == val_at(old(self).source(), 0, pos)->0,
    {
        if !self.val_fits_exec(0, pos) {
            return Err(self.out_of_bounds(pos));
        }
        let cv_ref = self.region.ctor_obj_field(pos, 0);
        let cv_pos = expect_ptr(cv_ref, "AxiomVal.toConstantVal")?;
        let (name, level_params, type_) = self.deser_constant_val(cv_pos)?;
        let is_unsafe = self.region.ctor_scalar_u8(pos, 1, 0) != 0;
        Ok(ConstantInfo::Axiom { name, level_params, type_, is_unsafe })
    }

    /// Read a definition body.
    fn deser_definition_val(&mut self, pos: usize) -> (r: Result<ConstantInfo, OleanError>)
        requires
            old(self).caches_ok(),
        ensures
            final(self).source() == old(self).source(),
            final(self).caches_ok(),
            r is Ok <==> val_at(old(self).source(), 1, pos) is Some,
            r matches Ok(c) ==> c@ == val_at(old(self).source(), 1, pos)->0,
    {
        if !self.val_fits_exec(1, pos) {
            return Err(self.out_of_bounds(pos));
        }
        let cv_ref = self.region.ctor_obj_field(pos, 0);
        let value_ref = self.region.ctor_obj_field(pos, 1);
        let hints_ref = self.region.ctor_obj_field(pos, 2);
        let safety_ref = self.region.ctor_obj_field(pos, 3);
        let cv_pos = expect_ptr(cv_ref, "DefinitionVal.toConstantVal")?;
        let (name, level_params, type_) = self.deser_constant_val(cv_pos)?;
        let value = self.deser_expr(value_ref)?;
        let hints = self.deser_reducibility_hints(hints_ref)?;
        let safety = deser_definition_safety(safety_ref);
        Ok(ConstantInfo::Definition { name, level_params, type_, value, hints, safety })
    }

    /// Read a theorem body.
    fn deser_theorem_val(&mut self, pos: usize) -> (r: Result<ConstantInfo, OleanError>)
        requires
            old(self).caches_ok(),
        ensures
            final(self).source() == old(self).source(),
            final(self).caches_ok(),
            r is Ok <==> val_at(old(self).source(), 2, pos) is Some,
            r matches Ok(c) ==> c@ == val_at(old(self).source(), 2, pos)->0,
    {
        if !self.val_fits_exec(2, pos) {
            return Err(self.out_of_bounds(pos));
        }
        let cv_ref = self.region.ctor_obj_field(pos, 0);
        let value_ref = self.region.ctor_obj_field(pos, 1);
        let cv_pos = expect_ptr(cv_ref, "TheoremVal.toConstantVal")?;
        let (name, level_params, type_) = self.deser_constant_val(cv_pos)?;
        let value = self.deser_expr(value_ref)?;
        Ok(ConstantInfo::Theorem { name, level_params, type_, value })
    }

    /// Read an opaque constant body.
    fn deser_opaque_val(&mut self, pos: usize) -> (r: Result<ConstantInfo, OleanError>)
        requires
            old(self).caches_ok(),
        ensures
            final(self).source() == old(self).source(),
            final(self).caches_ok(),
            r is Ok <==> val_at(old(self).source(), 3, pos) is Some,
            r matches Ok(c) ==> c@ == val_at(old(self).source(), 3, pos)->0,
    {
        if !self.val_fits_exec(3, pos) {
            return Err(self.out_of_bounds(pos));
        }
        let cv_ref = self.region.ctor_obj_field(pos, 0);
        let value_ref = self.region.ctor_obj_field(pos, 1);
        let is_unsafe = self.region.ctor_scalar_u8(pos, 3, 0) != 0;
        let cv_pos = expect_ptr(cv_ref, "OpaqueVal.toConstantVal")?;
        let (name, level_params, type_) = self.deser_constant_val(cv_pos)?;
        let value = self.deser_expr(value_ref)?;
        Ok(ConstantInfo::Opaque { name, level_params, type_, value, is_unsafe })
    }

    /// Read a quotient primitive body.
    fn deser_quot_val(&mut self, pos: usize) -> (r: Result<ConstantInfo, OleanError>)
        requires
            old(self).caches_ok(),
        ensures
            final(self).source() == old(self).source(),
            final(self).caches_ok(),
            r is Ok <==> val_at(old(self).source(), 4, pos) is Some,
            r matches Ok(c) ==> c@ == val_at(old(self).source(), 4, pos)->0,
    {
        if !self.val_fits_exec(4, pos) {
            return Err(self.out_of_bounds(pos));
        }
        let cv_ref = self.region.ctor_obj_field(pos, 0);
        let kind_ref = self.region.ctor_obj_field(pos, 1);
        let cv_pos = expect_ptr(cv_ref, "QuotVal.toConstantVal")?;
        let (name, level_params, type_) = self.deser_constant_val(cv_pos)?;
        let kind = deser_quot_kind(kind_ref);
        Ok(ConstantInfo::Quot { name, level_params, type_, kind })
    }

    /// Read an inductive type body.
    fn deser_inductive_val(&mut self, pos: usize) -> (r: Result<ConstantInfo, OleanError>)
        requires
            old(self).caches_ok(),
        ensures
            final(self).source() == old(self).source(),
            final(self).caches_ok(),
            r is Ok <==> val_at(old(self).source(), 5, pos) is Some,
            r matches Ok(c) ==> c@ == val_at(old(self).source(), 5, pos)->0,
    {
        if !self.val_fits_exec(5, pos) {
            return Err(self.out_of_bounds(pos));
        }
        let cv_ref = self.region.ctor_obj_field(pos, 0);
        let num_params_ref = self.region.ctor_obj_field(pos, 1);
        let num_indices_ref = self.region.ctor_obj_field(pos, 2);
        let all_ref = self.region.ctor_obj_field(pos, 3);
        let ctors_ref = self.region.ctor_obj_field(pos, 4);
        let num_nested_ref = self.region.ctor_obj_field(pos, 5);
        let is_rec = self.region.ctor_scalar_u8(pos, 6, 0) != 0;
        let is_unsafe = self.region.ctor_scalar_u8(pos, 6, 1) != 0;
        let is_reflexive = self.region.ctor_scalar_u8(pos, 6, 2) != 0;
        let cv_pos = expect_ptr(cv_ref, "InductiveVal.toConstantVal")?;
        let (name, level_params, type_) = self.deser_constant_val(cv_pos)?;
        let num_params = self.deser_nat(num_params_ref) as u32;
        let num_indices = self.deser_nat(num_indices_ref) as u32;
        let all = self.deser_name_list(all_ref)?;
        let ctors = self.deser_name_list(ctors_ref)?;
        let num_nested = self.deser_nat(num_nested_ref) as u32;
        Ok(
            ConstantInfo::Inductive {
                name,
                level_params,
                type_,
                num_params,
                num_indices,
                all,
                ctors,
                num_nested,
                is_rec,
                is_unsafe,
                is_reflexive,
            },
        )
    }

    /// Read a constructor body.
    fn deser_constructor_val(&mut self, pos: usize) -> (r: Result<ConstantInfo, OleanError>)
        requires
            old(self).caches_ok(),
        ensures
            final(self).source() == old(self).source(),
            final(self).caches_ok(),
            r is Ok <==> val_at(old(self).source(), 6, pos) is Some,
            r matches Ok(c) ==> c@ == val_at(old(self).source(), 6, pos)->0,
    {
        if !self.val_fits_exec(6, pos) {
            return Err(self.out_of_bounds(pos));
        }
        let cv_ref = self.region.ctor_obj_field(pos, 0);
        let induct_ref = self.region.ctor_obj_field(pos, 1);
        let cidx_ref = self.region.ctor_obj_field(pos, 2);
        let num_params_ref = self.region.ctor_obj_field(pos, 3);
        let num_fields_ref = self.region.ctor_obj_field(pos, 4);
        let is_unsafe = self.region.ctor_scalar_u8(pos, 5, 0) != 0;
        let cv_pos = expect_ptr(cv_ref, "ConstructorVal.toConstantVal")?;
        let (name, level_params, type_) = self.deser_constant_val(cv_pos)?;
        let induct_name = self.deser_name(induct_ref);
        let ctor_idx = self.deser_nat(cidx_ref) as u32;
        let num_params = self.deser_nat(num_params_ref) as u32;
        let num_fields = self.deser_nat(num_fields_ref) as u32;
        Ok(
            ConstantInfo::Constructor {
                name,
                level_params,
                type_,
                induct_name,
                ctor_idx,
                num_params,
                num_fields,
                is_unsafe,
            },
        )
    }

    /// Read a recursor body.
    fn deser_recursor_val(&mut self, pos: usize) -> (r: Result<ConstantInfo, OleanError>)
        requires
            old(self).caches_ok(),
        ensures
            final(self).source() == old(self).source(),
            final(self).caches_ok(),
            r is Ok <==> val_at(old(self).source(), 7, pos) is Some,
            r matches Ok(c) ==> c@ == val_at(old(self).source(), 7, pos)->0,
    {
        if !self.val_fits_exec(7, pos) {
            return Err(self.out_of_bounds(pos));
        }
        let cv_ref = self.region.ctor_obj_field(pos, 0);
        let all_ref = self.region.ctor_obj_field(pos, 1);
        let num_params_ref = self.region.ctor_obj_field(pos, 2);
        let num_indices_ref = self.region.ctor_obj_field(pos, 3);
        let num_motives_ref = self.region.ctor_obj_field(pos, 4);
        let num_minors_ref = self.region.ctor_obj_field(pos, 5);
        let rules_ref = self.region.ctor_obj_field(pos, 6);
        let is_k = self.region.ctor_scalar_u8(pos, 7, 0) != 0;
        let is_unsafe = self.region.ctor_scalar_u8(pos, 7, 1) != 0;
        let cv_pos = expect_ptr(cv_ref, "RecursorVal.toConstantVal")?;
        let (name, level_params, type_) = self.deser_constant_val(cv_pos)?;
        let all = self.deser_name_list(all_ref)?;
        let num_params = self.deser_nat(num_params_ref) as u32;
        let num_indices = self.deser_nat(num_indices_ref) as u32;
        let num_motives = self.deser_nat(num_motives_ref) as u32;
        let num_minors = self.deser_nat(num_minors_ref) as u32;
        let rules = self.deser_rule_list(rules_ref)?;
        Ok(
            ConstantInfo::Recursor {
                name,
                level_params,
                type_,
                all,
                num_params,
                num_indices,
                num_motives,
                num_minors,
                rules,
                is_k,
                is_unsafe,
            },
        )
    }

    /// Read a declaration: the kind is the cell's tag, the body its one field.
    fn deser_constant_info(&mut self, obj: ObjRef) -> (r: Result<ConstantInfo, OleanError>)
        requires
            old(self).caches_ok(),
        ensures
            final(self).source() == old(self).source(),
            final(self).caches_ok(),
            r is Ok <==> constant_at(old(self).source(), obj) is Some,
            r matches Ok(c) ==> c@ == constant_at(old(self).source(), obj)->0,
    {
        let pos = expect_ptr(obj, "ConstantInfo")?;
        if !self.fits_exec(pos, 1) {
            return Err(self.out_of_bounds(pos));
        }
        let tag = self.region.obj_tag(pos);
        let val_ref = self.region.ctor_obj_field(pos, 0);
        let val_pos = expect_ptr(val_ref, "ConstantInfo.val")?;
        match tag {
            0 => self.deser_axiom_val(val_pos),
            1 => self.deser_definition_val(val_pos),
            2 => self.deser_theorem_val(val_pos),
            3 => self.deser_opaque_val(val_pos),
            4 => self.deser_quot_val(val_pos),
            5 => self.deser_inductive_val(val_pos),
            6 => self.deser_constructor_val(val_pos),
            7 => self.deser_recursor_val(val_pos),
            _ => Err(OleanError::Deserialize(tagged_message("unknown ConstantInfo tag: ", tag))),
        }
    }
    /// The elements of the Lean `Array` at `obj`.
    fn array_heads_exec(&self, obj: ObjRef) -> (r: Result<Vec<ObjRef>, OleanError>)
        ensures
            r is Ok <==> array_heads(self.source(), obj) is Some,
            r matches Ok(v) ==> v@ == array_heads(self.source(), obj)->0,
    {
        let pos = match obj {
            ObjRef::Ptr(pos) => pos,
            _ => {
                return Ok(Vec::new());
            },
        };
        if !self.fits_exec(pos, 1) {
            return Err(self.out_of_bounds(pos));
        }
        let tag = self.region.obj_tag(pos);
        if tag != LEAN_TAG_ARRAY {
            let mut out: Vec<char> = Vec::new();
            push_text(&mut out, "expected Array (tag 246), got tag ");
            push_number(&mut out, tag as u64);
            return Err(OleanError::Deserialize(string_from_chars(out.as_slice())));
        }
        let size = self.region.array_size(pos);
        let len = self.region.data_len();
        if len - pos < 24 || (len - pos - 24) / 8 < size {
            return Err(self.out_of_bounds(pos));
        }
        let ghost src = self.source();
        let mut out: Vec<ObjRef> = Vec::new();
        let mut i: usize = 0;
        while i < size
            invariant
                self.source() == src,
                i <= size,
                pos + 24 + 8 * size <= src.bytes().len(),
                out@.len() == i,
                forall|k: int|
                    0 <= k < i ==> out@[k] == src.resolved(src.word(pos + 24 + 8 * k, 8)),
            decreases size - i,
        {
            out.push(self.region.array_elem(pos, i));
            i = i + 1;
        }
        proof {
            assert(out@ =~= Seq::new(
                size as nat,
                |k: int| src.resolved(src.word(pos + 24 + 8 * k, 8)),
            ));
        }
        Ok(out)
    }

    /// Read an import: the module's name and three flags.
    fn deser_import(&mut self, obj: ObjRef) -> (r: Result<Import, OleanError>)
        requires
            old(self).caches_ok(),
        ensures
            final(self).source() == old(self).source(),
            final(self).caches_ok(),
            r is Ok <==> import_at(old(self).source(), obj) is Some,
            r matches Ok(i) ==> i@ == import_at(old(self).source(), obj)->0,
    {
        let pos = expect_ptr(obj, "Import")?;
        if !self.fits_exec(pos, 1) || !self.scalar_fits_exec(pos, 1, 2) {
            return Err(self.out_of_bounds(pos));
        }
        let module_ref = self.region.ctor_obj_field(pos, 0);
        let module = self.deser_name(module_ref);
        let import_all = self.region.ctor_scalar_u8(pos, 1, 0) != 0;
        let is_exported = self.region.ctor_scalar_u8(pos, 1, 1) != 0;
        let is_meta = self.region.ctor_scalar_u8(pos, 1, 2) != 0;
        Ok(Import { module, import_all, is_exported, is_meta })
    }

    /// Read an `Array Import`.
    fn deser_import_array(&mut self, obj: ObjRef) -> (r: Result<Vec<Import>, OleanError>)
        requires
            old(self).caches_ok(),
        ensures
            final(self).source() == old(self).source(),
            final(self).caches_ok(),
            r is Ok <==> (match array_heads(old(self).source(), obj) {
                Some(hs) => decode_all(hs, |h: ObjRef| import_at(old(self).source(), h)) is Some,
                None => false,
            }),
            r matches Ok(v) ==> Some(imports_view(v@)) == decode_all(
                array_heads(old(self).source(), obj)->0,
                |h: ObjRef| import_at(old(self).source(), h),
            ),
    {
        let heads = self.array_heads_exec(obj)?;
        let ghost src = self.source();
        let ghost f = |h: ObjRef| import_at(src, h);
        let mut out: Vec<Import> = Vec::new();
        let mut i: usize = 0;
        while i < heads.len()
            invariant
                self.source() == src,
                self.caches_ok(),
                i <= heads@.len(),
                decode_all(heads@.take(i as int), f) == Some(imports_view(out@)),
                src == old(self).source(),
                array_heads(src, obj) == Some(heads@),
                f == (|h: ObjRef| import_at(src, h)),
            decreases heads.len() - i,
        {
            proof {
                assert(heads@.take(i + 1).drop_last() == heads@.take(i as int));
            }
            let imp = match self.deser_import(heads[i]) {
                Ok(x) => x,
                Err(e) => {
                    proof {
                        lemma_decode_fail(heads@, f, (i + 1) as nat);
                    }
                    return Err(e);
                },
            };
            let ghost before = out@;
            out.push(imp);
            proof {
                assert(imports_view(out@) =~= imports_view(before).push(imp@));
            }
            i = i + 1;
        }
        proof {
            assert(heads@.take(i as int) == heads@);
        }
        Ok(out)
    }

    /// Read an `Array ConstantInfo`.
    fn deser_constant_array(&mut self, obj: ObjRef) -> (r: Result<Vec<ConstantInfo>, OleanError>)
        requires
            old(self).caches_ok(),
        ensures
            final(self).source() == old(self).source(),
            final(self).caches_ok(),
            r is Ok <==> (match array_heads(old(self).source(), obj) {
                Some(hs) => decode_all(hs, |h: ObjRef| constant_at(old(self).source(), h)) is Some,
                None => false,
            }),
            r matches Ok(v) ==> Some(constants_view(v@)) == decode_all(
                array_heads(old(self).source(), obj)->0,
                |h: ObjRef| constant_at(old(self).source(), h),
            ),
    {
        let heads = self.array_heads_exec(obj)?;
        let ghost src = self.source();
        let ghost f = |h: ObjRef| constant_at(src, h);
        let mut out: Vec<ConstantInfo> = Vec::new();
        let mut i: usize = 0;
        while i < heads.len()
            invariant
                self.source() == src,
                self.caches_ok(),
                i <= heads@.len(),
                decode_all(heads@.take(i as int), f) == Some(constants_view(out@)),
                src == old(self).source(),
                array_heads(src, obj) == Some(heads@),
                f == (|h: ObjRef| constant_at(src, h)),
            decreases heads.len() - i,
        {
            proof {
                assert(heads@.take(i + 1).drop_last() == heads@.take(i as int));
            }
            let c = match self.deser_constant_info(heads[i]) {
                Ok(x) => x,
                Err(e) => {
                    proof {
                        lemma_decode_fail(heads@, f, (i + 1) as nat);
                    }
                    return Err(e);
                },
            };
            let ghost before = out@;
            out.push(c);
            proof {
                assert(constants_view(out@) =~= constants_view(before).push(c@));
            }
            i = i + 1;
        }
        proof {
            assert(heads@.take(i as int) == heads@);
        }
        Ok(out)
    }

    /// Read an `Array Name`.
    fn deser_name_array(&mut self, obj: ObjRef) -> (r: Result<Vec<Name>, OleanError>)
        requires
            old(self).caches_ok(),
        ensures
            final(self).source() == old(self).source(),
            final(self).caches_ok(),
            r is Ok <==> name_array_at(old(self).source(), obj) is Some,
            r matches Ok(v) ==> names_view(v@) == name_array_at(old(self).source(), obj)->0,
    {
        let heads = self.array_heads_exec(obj)?;
        Ok(self.deser_names(&heads))
    }

    /// Read the module data at `obj`.
    fn deser_module_data(&mut self, obj: ObjRef) -> (r: Result<ModuleData, OleanError>)
        requires
            old(self).caches_ok(),
        ensures
            final(self).source() == old(self).source(),
            final(self).caches_ok(),
            r is Ok <==> module_at(old(self).source(), obj) is Some,
            r matches Ok(m) ==> m@ == module_at(old(self).source(), obj)->0,
    {
        let pos = expect_ptr(obj, "ModuleData")?;
        if !self.fits_exec(pos, 0) {
            return Err(self.out_of_bounds(pos));
        }
        let tag = self.region.obj_tag(pos);
        if tag != 0 {
            return Err(OleanError::Deserialize(tagged_message("ModuleData: expected tag 0, got ", tag)));
        }
        if !self.fits_exec(pos, 4) {
            return Err(self.out_of_bounds(pos));
        }
        let imports_ref = self.region.ctor_obj_field(pos, 0);
        let const_names_ref = self.region.ctor_obj_field(pos, 1);
        let constants_ref = self.region.ctor_obj_field(pos, 2);
        let extra_const_names_ref = self.region.ctor_obj_field(pos, 3);
        let imports = self.deser_import_array(imports_ref)?;
        let const_names = self.deser_name_array(const_names_ref)?;
        let constants = self.deser_constant_array(constants_ref)?;
        let extra_const_names = self.deser_name_array(extra_const_names_ref)?;
        Ok(ModuleData { imports, const_names, constants, extra_const_names })
    }

    /// Read the root object as module data.
    pub fn read_module_data(&mut self) -> (r: Result<ModuleData, OleanError>)
        requires
            old(self).caches_ok(),
        ensures
            final(self).source() == old(self).source(),
            final(self).caches_ok(),
            r is Ok <==> module_at(old(self).source(), root_of(old(self).source())) is Some,
            r matches Ok(m) ==> m@ == module_at(old(self).source(), root_of(old(self).source()))->0,
    {
        let root = self.region.root();
        self.deser_module_data(root)
    }
}

/// Read definition safety: scalar 0 is unsafe, 2 partial, anything else safe.
fn deser_definition_safety(obj: ObjRef) -> (r: DefinitionSafety)
    ensures
        r == safety_of(obj),
{
    match obj {
        ObjRef::Scalar(0) => DefinitionSafety::Unsafe,
        ObjRef::Scalar(1) => DefinitionSafety::Safe,
        ObjRef::Scalar(2) => DefinitionSafety::Partial,
        _ => DefinitionSafety::Safe,
    }
}

/// Read a quotient kind: scalar 1 is `mk`, 2 `lift`, 3 `ind`, else `type`.
fn deser_quot_kind(obj: ObjRef) -> (r: QuotKind)
    ensures
        r == quot_kind_of(obj),
{
    match obj {
        ObjRef::Scalar(0) => QuotKind::Type,
        ObjRef::Scalar(1) => QuotKind::Mk,
        ObjRef::Scalar(2) => QuotKind::Lift,
        ObjRef::Scalar(3) => QuotKind::Ind,
        _ => QuotKind::Type,
    }
}

/// The error for an object whose child lies at or after it.
fn points_forward() -> (e: OleanError)
    ensures
        e is Deserialize,
{
    OleanError::Deserialize(message("object points forward"))
}

/// `prefix` followed by the decimal digits of `tag`.
fn tagged_message(prefix: &str, tag: u8) -> (r: String)
    ensures
        r@ == prefix@ + decimal(tag as nat),
{
    let mut out: Vec<char> = Vec::new();
    push_text(&mut out, prefix);
    push_number(&mut out, tag as u64);
    string_from_chars(out.as_slice())
}

/// Expect a pointer, returning its position.
fn expect_ptr(obj: ObjRef, context: &str) -> (r: Result<usize, OleanError>)
    ensures
        obj matches ObjRef::Ptr(p) ==> r == Ok::<usize, OleanError>(p),
        !(obj is Ptr) ==> r is Err,
{
    match obj {
        ObjRef::Ptr(pos) => Ok(pos),
        _ => {
            let mut out: Vec<char> = Vec::new();
            push_text(&mut out, "expected object pointer for ");
            push_text(&mut out, context);
            Err(OleanError::Deserialize(string_from_chars(out.as_slice())))
        },
    }
}

/// The binder annotation a stored byte encodes.
fn deser_binder_info(b: u8) -> (r: BinderInfo)
    ensures
        r == binder_info_of(b),
        b == 0 ==> r == BinderInfo::Default,
        b == 1 ==> r == BinderInfo::Implicit,
        b == 2 ==> r == BinderInfo::StrictImplicit,
        b == 3 ==> r == BinderInfo::InstImplicit,
        b > 3 ==> r == BinderInfo::Default,
{
    match b {
        0 => BinderInfo::Default,
        1 => BinderInfo::Implicit,
        2 => BinderInfo::StrictImplicit,
        3 => BinderInfo::InstImplicit,
        _ => BinderInfo::Default,
    }
}

/// One object that fails to read makes the whole sequence fail.
proof fn lemma_decode_fail<T>(hs: Seq<ObjRef>, f: spec_fn(ObjRef) -> Option<T>, k: nat)
    requires
        1 <= k <= hs.len(),
        f(hs[k - 1]) is None,
    ensures
        decode_all(hs, f) is None,
    decreases hs.len(),
{
    if k < hs.len() {
        lemma_decode_fail(hs.drop_last(), f, k);
    } else {
        assert(hs.last() == hs[k - 1]);
    }
}

} // verus!
