//! Binding powers of the infix and prefix operators.
//!
//! A pair `(left, right)` gives how tightly an operator binds to the
//! expression on its left and on its right: `right > left` makes the operator
//! left-associative, `left > right` right-associative.
use vstd::prelude::*;

use crate::token::TokenKind;

verus! {

/// Binding power pair: (left, right).
pub type BindingPower = (u32, u32);

/// The binding-power table for infix operators.
pub open spec fn infix_bp(op: TokenKind) -> Option<(u32, u32)> {
    match op {
        TokenKind::PipeRight => Some((10, 11)),
        TokenKind::PipeLeft | TokenKind::Dollar => Some((10, 9)),
        TokenKind::OrElse => Some((20, 21)),
        TokenKind::Iff => Some((20, 20)),
        TokenKind::Arrow => Some((25, 24)),
        TokenKind::OrOr | TokenKind::Disj | TokenKind::BitOr => Some((30, 31)),
        TokenKind::BitXor => Some((32, 33)),
        TokenKind::AndAnd | TokenKind::Conj | TokenKind::BitAnd | TokenKind::Ampersand => Some(
            (35, 36),
        ),
        TokenKind::ShiftLeft | TokenKind::ShiftRight => Some((45, 46)),
        TokenKind::Eq | TokenKind::Ne | TokenKind::Le | TokenKind::Ge | TokenKind::Lt
        | TokenKind::Gt | TokenKind::Mem => Some((50, 51)),
        TokenKind::Bind => Some((55, 56)),
        TokenKind::SeqOp | TokenKind::SeqLeft | TokenKind::SeqRight | TokenKind::SeqComp => Some(
            (60, 61),
        ),
        TokenKind::Plus | TokenKind::Minus | TokenKind::Append => Some((65, 66)),
        TokenKind::Cons => Some((67, 66)),
        TokenKind::Star | TokenKind::Slash | TokenKind::Percent | TokenKind::Times
        | TokenKind::Cdot | TokenKind::SMul | TokenKind::Dvd => Some((70, 71)),
        TokenKind::Subst => Some((75, 76)),
        TokenKind::Caret => Some((80, 79)),
        TokenKind::Compose => Some((90, 91)),
        TokenKind::MapOp => Some((100, 101)),
        _ => None,
    }
}

/// Operators that associate to the right: `right < left`.
pub open spec fn right_assoc(op: TokenKind) -> bool {
    op is PipeLeft || op is Dollar || op is Arrow || op is Cons || op is Caret
}

/// The binding power of an infix operator, or `None` for a token that is no
/// infix operator.
pub fn infix_binding_power(op: &TokenKind) -> (r: Option<BindingPower>)
    ensures
        r == infix_bp(*op),
{
    let bp = match op {
        TokenKind::PipeRight => (10, 11),
        TokenKind::PipeLeft | TokenKind::Dollar => (10, 9),
        TokenKind::OrElse => (20, 21),
        TokenKind::Iff => (20, 20),
        TokenKind::Arrow => (25, 24),
        TokenKind::OrOr | TokenKind::Disj | TokenKind::BitOr => (30, 31),
        TokenKind::BitXor => (32, 33),
        TokenKind::AndAnd | TokenKind::Conj | TokenKind::BitAnd | TokenKind::Ampersand => (35, 36),
        TokenKind::ShiftLeft | TokenKind::ShiftRight => (45, 46),
        TokenKind::Eq
        | TokenKind::Ne
        | TokenKind::Le
        | TokenKind::Ge
        | TokenKind::Lt
        | TokenKind::Gt
        | TokenKind::Mem => (50, 51),
        TokenKind::Bind => (55, 56),
        TokenKind::SeqOp | TokenKind::SeqLeft | TokenKind::SeqRight | TokenKind::SeqComp => (
            60,
            61,
        ),
        TokenKind::Plus | TokenKind::Minus | TokenKind::Append => (65, 66),
        TokenKind::Cons => (67, 66),
        TokenKind::Star
        | TokenKind::Slash
        | TokenKind::Percent
        | TokenKind::Times
        | TokenKind::Cdot
        | TokenKind::SMul
        | TokenKind::Dvd => (70, 71),
        TokenKind::Subst => (75, 76),
        TokenKind::Caret => (80, 79),
        TokenKind::Compose => (90, 91),
        TokenKind::MapOp => (100, 101),
        _ => {
            return None;
        },
    };
    Some(bp)
}

/// The binding power of a prefix operator: the negations and complements.
pub open spec fn prefix_bp(op: TokenKind) -> Option<u32> {
    match op {
        TokenKind::Neg | TokenKind::Bang | TokenKind::Complement | TokenKind::Tilde
        | TokenKind::Minus => Some(200),
        _ => None,
    }
}

/// The binding power of a prefix operator, or `None`.
pub fn prefix_binding_power(op: &TokenKind) -> (r: Option<u32>)
    ensures
        r == prefix_bp(*op),
{
    match op {
        TokenKind::Neg | TokenKind::Bang | TokenKind::Complement | TokenKind::Tilde => Some(200),
        TokenKind::Minus => Some(200),
        _ => None,
    }
}

/// Every infix operator associates one way: to the left (`left < right`),
/// to the right (`right < left`, exactly the right-associative ones), or,
/// for `↔` alone, not at all; and every prefix operator binds tighter than
/// any infix operator on either side.
pub proof fn law_binding_power_associativity(op: TokenKind, other: TokenKind)
    ensures
        infix_bp(op) matches Some(bp) ==> (right_assoc(op) <==> bp.1 < bp.0),
        infix_bp(op) matches Some(bp) ==> (bp.0 == bp.1 <==> op is Iff),
        infix_bp(op) matches Some(bp) ==> (prefix_bp(other) matches Some(p) ==> bp.0 < p && bp.1
            < p),
{
}

} // verus!
