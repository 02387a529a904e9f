//! Comparisons of token kinds and their debug rendering (as `{:?}` prints
//! them), used by the parser's error messages.
use vstd::prelude::*;

use crate::keyword::Keyword;
use crate::text::{chars_of, push_all, str_eq, string_from_chars};
use crate::token::{Token, TokenKind};

verus! {

/// `a` and `b` are built by the same constructor.
pub open spec fn same_variant(a: TokenKind, b: TokenKind) -> bool {
    match (a, b) {
        (TokenKind::Ident(_), TokenKind::Ident(_)) => true,
        (TokenKind::NatLit(_), TokenKind::NatLit(_)) => true,
        (TokenKind::StrLit(_), TokenKind::StrLit(_)) => true,
        (TokenKind::CharLit(_), TokenKind::CharLit(_)) => true,
        (TokenKind::ScientificLit(_), TokenKind::ScientificLit(_)) => true,
        (TokenKind::Keyword(_), TokenKind::Keyword(_)) => true,
        (TokenKind::LParen, TokenKind::LParen) => true,
        (TokenKind::RParen, TokenKind::RParen) => true,
        (TokenKind::LBracket, TokenKind::LBracket) => true,
        (TokenKind::RBracket, TokenKind::RBracket) => true,
        (TokenKind::LBrace, TokenKind::LBrace) => true,
        (TokenKind::RBrace, TokenKind::RBrace) => true,
        (TokenKind::LAngle, TokenKind::LAngle) => true,
        (TokenKind::RAngle, TokenKind::RAngle) => true,
        (TokenKind::LDblAngle, TokenKind::LDblAngle) => true,
        (TokenKind::RDblAngle, TokenKind::RDblAngle) => true,
        (TokenKind::Comma, TokenKind::Comma) => true,
        (TokenKind::Semicolon, TokenKind::Semicolon) => true,
        (TokenKind::Colon, TokenKind::Colon) => true,
        (TokenKind::ColonColon, TokenKind::ColonColon) => true,
        (TokenKind::ColonEq, TokenKind::ColonEq) => true,
        (TokenKind::Dot, TokenKind::Dot) => true,
        (TokenKind::DotDot, TokenKind::DotDot) => true,
        (TokenKind::Arrow, TokenKind::Arrow) => true,
        (TokenKind::FatArrow, TokenKind::FatArrow) => true,
        (TokenKind::LArrow, TokenKind::LArrow) => true,
        (TokenKind::At, TokenKind::At) => true,
        (TokenKind::Hash, TokenKind::Hash) => true,
        (TokenKind::Question, TokenKind::Question) => true,
        (TokenKind::Bang, TokenKind::Bang) => true,
        (TokenKind::Underscore, TokenKind::Underscore) => true,
        (TokenKind::Pipe, TokenKind::Pipe) => true,
        (TokenKind::Dollar, TokenKind::Dollar) => true,
        (TokenKind::Plus, TokenKind::Plus) => true,
        (TokenKind::Minus, TokenKind::Minus) => true,
        (TokenKind::Star, TokenKind::Star) => true,
        (TokenKind::Slash, TokenKind::Slash) => true,
        (TokenKind::Percent, TokenKind::Percent) => true,
        (TokenKind::Caret, TokenKind::Caret) => true,
        (TokenKind::Ampersand, TokenKind::Ampersand) => true,
        (TokenKind::Tilde, TokenKind::Tilde) => true,
        (TokenKind::Eq, TokenKind::Eq) => true,
        (TokenKind::Ne, TokenKind::Ne) => true,
        (TokenKind::Le, TokenKind::Le) => true,
        (TokenKind::Ge, TokenKind::Ge) => true,
        (TokenKind::Lt, TokenKind::Lt) => true,
        (TokenKind::Gt, TokenKind::Gt) => true,
        (TokenKind::AndAnd, TokenKind::AndAnd) => true,
        (TokenKind::OrOr, TokenKind::OrOr) => true,
        (TokenKind::Append, TokenKind::Append) => true,
        (TokenKind::Cons, TokenKind::Cons) => true,
        (TokenKind::Bind, TokenKind::Bind) => true,
        (TokenKind::SeqOp, TokenKind::SeqOp) => true,
        (TokenKind::MapOp, TokenKind::MapOp) => true,
        (TokenKind::SeqComp, TokenKind::SeqComp) => true,
        (TokenKind::SeqLeft, TokenKind::SeqLeft) => true,
        (TokenKind::SeqRight, TokenKind::SeqRight) => true,
        (TokenKind::OrElse, TokenKind::OrElse) => true,
        (TokenKind::PipeRight, TokenKind::PipeRight) => true,
        (TokenKind::PipeLeft, TokenKind::PipeLeft) => true,
        (TokenKind::Forall, TokenKind::Forall) => true,
        (TokenKind::Exists, TokenKind::Exists) => true,
        (TokenKind::Lambda, TokenKind::Lambda) => true,
        (TokenKind::Neg, TokenKind::Neg) => true,
        (TokenKind::Conj, TokenKind::Conj) => true,
        (TokenKind::Disj, TokenKind::Disj) => true,
        (TokenKind::Iff, TokenKind::Iff) => true,
        (TokenKind::Mem, TokenKind::Mem) => true,
        (TokenKind::Compose, TokenKind::Compose) => true,
        (TokenKind::Times, TokenKind::Times) => true,
        (TokenKind::Cdot, TokenKind::Cdot) => true,
        (TokenKind::Subst, TokenKind::Subst) => true,
        (TokenKind::SMul, TokenKind::SMul) => true,
        (TokenKind::Dvd, TokenKind::Dvd) => true,
        (TokenKind::BitAnd, TokenKind::BitAnd) => true,
        (TokenKind::BitOr, TokenKind::BitOr) => true,
        (TokenKind::BitXor, TokenKind::BitXor) => true,
        (TokenKind::ShiftLeft, TokenKind::ShiftLeft) => true,
        (TokenKind::ShiftRight, TokenKind::ShiftRight) => true,
        (TokenKind::Complement, TokenKind::Complement) => true,
        (TokenKind::InterpolBegin, TokenKind::InterpolBegin) => true,
        (TokenKind::InterpolEnd, TokenKind::InterpolEnd) => true,
        (TokenKind::Newline, TokenKind::Newline) => true,
        (TokenKind::Eof, TokenKind::Eof) => true,
        (TokenKind::DocComment(_), TokenKind::DocComment(_)) => true,
        (TokenKind::ModuleDoc(_), TokenKind::ModuleDoc(_)) => true,
        (TokenKind::Error(_), TokenKind::Error(_)) => true,
        _ => false,
    }
}

/// `a` and `b` are the same kind with payloads of equal value.
pub open spec fn kind_equiv(a: TokenKind, b: TokenKind) -> bool {
    match (a, b) {
        (TokenKind::Ident(x), TokenKind::Ident(y)) => x@ == y@,
        (TokenKind::NatLit(x), TokenKind::NatLit(y)) => x@ == y@,
        (TokenKind::StrLit(x), TokenKind::StrLit(y)) => x@ == y@,
        (TokenKind::CharLit(x), TokenKind::CharLit(y)) => x == y,
        (TokenKind::ScientificLit(x), TokenKind::ScientificLit(y)) => x@ == y@,
        (TokenKind::Keyword(x), TokenKind::Keyword(y)) => x == y,
        (TokenKind::LParen, TokenKind::LParen) => true,
        (TokenKind::RParen, TokenKind::RParen) => true,
        (TokenKind::LBracket, TokenKind::LBracket) => true,
        (TokenKind::RBracket, TokenKind::RBracket) => true,
        (TokenKind::LBrace, TokenKind::LBrace) => true,
        (TokenKind::RBrace, TokenKind::RBrace) => true,
        (TokenKind::LAngle, TokenKind::LAngle) => true,
        (TokenKind::RAngle, TokenKind::RAngle) => true,
        (TokenKind::LDblAngle, TokenKind::LDblAngle) => true,
        (TokenKind::RDblAngle, TokenKind::RDblAngle) => true,
        (TokenKind::Comma, TokenKind::Comma) => true,
        (TokenKind::Semicolon, TokenKind::Semicolon) => true,
        (TokenKind::Colon, TokenKind::Colon) => true,
        (TokenKind::ColonColon, TokenKind::ColonColon) => true,
        (TokenKind::ColonEq, TokenKind::ColonEq) => true,
        (TokenKind::Dot, TokenKind::Dot) => true,
        (TokenKind::DotDot, TokenKind::DotDot) => true,
        (TokenKind::Arrow, TokenKind::Arrow) => true,
        (TokenKind::FatArrow, TokenKind::FatArrow) => true,
        (TokenKind::LArrow, TokenKind::LArrow) => true,
        (TokenKind::At, TokenKind::At) => true,
        (TokenKind::Hash, TokenKind::Hash) => true,
        (TokenKind::Question, TokenKind::Question) => true,
        (TokenKind::Bang, TokenKind::Bang) => true,
        (TokenKind::Underscore, TokenKind::Underscore) => true,
        (TokenKind::Pipe, TokenKind::Pipe) => true,
        (TokenKind::Dollar, TokenKind::Dollar) => true,
        (TokenKind::Plus, TokenKind::Plus) => true,
        (TokenKind::Minus, TokenKind::Minus) => true,
        (TokenKind::Star, TokenKind::Star) => true,
        (TokenKind::Slash, TokenKind::Slash) => true,
        (TokenKind::Percent, TokenKind::Percent) => true,
        (TokenKind::Caret, TokenKind::Caret) => true,
        (TokenKind::Ampersand, TokenKind::Ampersand) => true,
        (TokenKind::Tilde, TokenKind::Tilde) => true,
        (TokenKind::Eq, TokenKind::Eq) => true,
        (TokenKind::Ne, TokenKind::Ne) => true,
        (TokenKind::Le, TokenKind::Le) => true,
        (TokenKind::Ge, TokenKind::Ge) => true,
        (TokenKind::Lt, TokenKind::Lt) => true,
        (TokenKind::Gt, TokenKind::Gt) => true,
        (TokenKind::AndAnd, TokenKind::AndAnd) => true,
        (TokenKind::OrOr, TokenKind::OrOr) => true,
        (TokenKind::Append, TokenKind::Append) => true,
        (TokenKind::Cons, TokenKind::Cons) => true,
        (TokenKind::Bind, TokenKind::Bind) => true,
        (TokenKind::SeqOp, TokenKind::SeqOp) => true,
        (TokenKind::MapOp, TokenKind::MapOp) => true,
        (TokenKind::SeqComp, TokenKind::SeqComp) => true,
        (TokenKind::SeqLeft, TokenKind::SeqLeft) => true,
        (TokenKind::SeqRight, TokenKind::SeqRight) => true,
        (TokenKind::OrElse, TokenKind::OrElse) => true,
        (TokenKind::PipeRight, TokenKind::PipeRight) => true,
        (TokenKind::PipeLeft, TokenKind::PipeLeft) => true,
        (TokenKind::Forall, TokenKind::Forall) => true,
        (TokenKind::Exists, TokenKind::Exists) => true,
        (TokenKind::Lambda, TokenKind::Lambda) => true,
        (TokenKind::Neg, TokenKind::Neg) => true,
        (TokenKind::Conj, TokenKind::Conj) => true,
        (TokenKind::Disj, TokenKind::Disj) => true,
        (TokenKind::Iff, TokenKind::Iff) => true,
        (TokenKind::Mem, TokenKind::Mem) => true,
        (TokenKind::Compose, TokenKind::Compose) => true,
        (TokenKind::Times, TokenKind::Times) => true,
        (TokenKind::Cdot, TokenKind::Cdot) => true,
        (TokenKind::Subst, TokenKind::Subst) => true,
        (TokenKind::SMul, TokenKind::SMul) => true,
        (TokenKind::Dvd, TokenKind::Dvd) => true,
        (TokenKind::BitAnd, TokenKind::BitAnd) => true,
        (TokenKind::BitOr, TokenKind::BitOr) => true,
        (TokenKind::BitXor, TokenKind::BitXor) => true,
        (TokenKind::ShiftLeft, TokenKind::ShiftLeft) => true,
        (TokenKind::ShiftRight, TokenKind::ShiftRight) => true,
        (TokenKind::Complement, TokenKind::Complement) => true,
        (TokenKind::InterpolBegin, TokenKind::InterpolBegin) => true,
        (TokenKind::InterpolEnd, TokenKind::InterpolEnd) => true,
        (TokenKind::Newline, TokenKind::Newline) => true,
        (TokenKind::Eof, TokenKind::Eof) => true,
        (TokenKind::DocComment(x), TokenKind::DocComment(y)) => x@ == y@,
        (TokenKind::ModuleDoc(x), TokenKind::ModuleDoc(y)) => x@ == y@,
        (TokenKind::Error(x), TokenKind::Error(y)) => x@ == y@,
        _ => false,
    }
}

/// Whether `a` and `b` are built by the same constructor.
pub fn same_variant_exec(a: &TokenKind, b: &TokenKind) -> (r: bool)
    ensures
        r == same_variant(*a, *b),
{
    match (a, b) {
        (TokenKind::Ident(_), TokenKind::Ident(_)) => true,
        (TokenKind::NatLit(_), TokenKind::NatLit(_)) => true,
        (TokenKind::StrLit(_), TokenKind::StrLit(_)) => true,
        (TokenKind::CharLit(_), TokenKind::CharLit(_)) => true,
        (TokenKind::ScientificLit(_), TokenKind::ScientificLit(_)) => true,
        (TokenKind::Keyword(_), TokenKind::Keyword(_)) => true,
        (TokenKind::LParen, TokenKind::LParen) => true,
        (TokenKind::RParen, TokenKind::RParen) => true,
        (TokenKind::LBracket, TokenKind::LBracket) => true,
        (TokenKind::RBracket, TokenKind::RBracket) => true,
        (TokenKind::LBrace, TokenKind::LBrace) => true,
        (TokenKind::RBrace, TokenKind::RBrace) => true,
        (TokenKind::LAngle, TokenKind::LAngle) => true,
        (TokenKind::RAngle, TokenKind::RAngle) => true,
        (TokenKind::LDblAngle, TokenKind::LDblAngle) => true,
        (TokenKind::RDblAngle, TokenKind::RDblAngle) => true,
        (TokenKind::Comma, TokenKind::Comma) => true,
        (TokenKind::Semicolon, TokenKind::Semicolon) => true,
        (TokenKind::Colon, TokenKind::Colon) => true,
        (TokenKind::ColonColon, TokenKind::ColonColon) => true,
        (TokenKind::ColonEq, TokenKind::ColonEq) => true,
        (TokenKind::Dot, TokenKind::Dot) => true,
        (TokenKind::DotDot, TokenKind::DotDot) => true,
        (TokenKind::Arrow, TokenKind::Arrow) => true,
        (TokenKind::FatArrow, TokenKind::FatArrow) => true,
        (TokenKind::LArrow, TokenKind::LArrow) => true,
        (TokenKind::At, TokenKind::At) => true,
        (TokenKind::Hash, TokenKind::Hash) => true,
        (TokenKind::Question, TokenKind::Question) => true,
        (TokenKind::Bang, TokenKind::Bang) => true,
        (TokenKind::Underscore, TokenKind::Underscore) => true,
        (TokenKind::Pipe, TokenKind::Pipe) => true,
        (TokenKind::Dollar, TokenKind::Dollar) => true,
        (TokenKind::Plus, TokenKind::Plus) => true,
        (TokenKind::Minus, TokenKind::Minus) => true,
        (TokenKind::Star, TokenKind::Star) => true,
        (TokenKind::Slash, TokenKind::Slash) => true,
        (TokenKind::Percent, TokenKind::Percent) => true,
        (TokenKind::Caret, TokenKind::Caret) => true,
        (TokenKind::Ampersand, TokenKind::Ampersand) => true,
        (TokenKind::Tilde, TokenKind::Tilde) => true,
        (TokenKind::Eq, TokenKind::Eq) => true,
        (TokenKind::Ne, TokenKind::Ne) => true,
        (TokenKind::Le, TokenKind::Le) => true,
        (TokenKind::Ge, TokenKind::Ge) => true,
        (TokenKind::Lt, TokenKind::Lt) => true,
        (TokenKind::Gt, TokenKind::Gt) => true,
        (TokenKind::AndAnd, TokenKind::AndAnd) => true,
        (TokenKind::OrOr, TokenKind::OrOr) => true,
        (TokenKind::Append, TokenKind::Append) => true,
        (TokenKind::Cons, TokenKind::Cons) => true,
        (TokenKind::Bind, TokenKind::Bind) => true,
        (TokenKind::SeqOp, TokenKind::SeqOp) => true,
        (TokenKind::MapOp, TokenKind::MapOp) => true,
        (TokenKind::SeqComp, TokenKind::SeqComp) => true,
        (TokenKind::SeqLeft, TokenKind::SeqLeft) => true,
        (TokenKind::SeqRight, TokenKind::SeqRight) => true,
        (TokenKind::OrElse, TokenKind::OrElse) => true,
        (TokenKind::PipeRight, TokenKind::PipeRight) => true,
        (TokenKind::PipeLeft, TokenKind::PipeLeft) => true,
        (TokenKind::Forall, TokenKind::Forall) => true,
        (TokenKind::Exists, TokenKind::Exists) => true,
        (TokenKind::Lambda, TokenKind::Lambda) => true,
        (TokenKind::Neg, TokenKind::Neg) => true,
        (TokenKind::Conj, TokenKind::Conj) => true,
        (TokenKind::Disj, TokenKind::Disj) => true,
        (TokenKind::Iff, TokenKind::Iff) => true,
        (TokenKind::Mem, TokenKind::Mem) => true,
        (TokenKind::Compose, TokenKind::Compose) => true,
        (TokenKind::Times, TokenKind::Times) => true,
        (TokenKind::Cdot, TokenKind::Cdot) => true,
        (TokenKind::Subst, TokenKind::Subst) => true,
        (TokenKind::SMul, TokenKind::SMul) => true,
        (TokenKind::Dvd, TokenKind::Dvd) => true,
        (TokenKind::BitAnd, TokenKind::BitAnd) => true,
        (TokenKind::BitOr, TokenKind::BitOr) => true,
        (TokenKind::BitXor, TokenKind::BitXor) => true,
        (TokenKind::ShiftLeft, TokenKind::ShiftLeft) => true,
        (TokenKind::ShiftRight, TokenKind::ShiftRight) => true,
        (TokenKind::Complement, TokenKind::Complement) => true,
        (TokenKind::InterpolBegin, TokenKind::InterpolBegin) => true,
        (TokenKind::InterpolEnd, TokenKind::InterpolEnd) => true,
        (TokenKind::Newline, TokenKind::Newline) => true,
        (TokenKind::Eof, TokenKind::Eof) => true,
        (TokenKind::DocComment(_), TokenKind::DocComment(_)) => true,
        (TokenKind::ModuleDoc(_), TokenKind::ModuleDoc(_)) => true,
        (TokenKind::Error(_), TokenKind::Error(_)) => true,
        _ => false,
    }
}

/// Whether `a` and `b` are the same kind with equal payloads.
pub fn kinds_equal(a: &TokenKind, b: &TokenKind) -> (r: bool)
    ensures
        r == kind_equiv(*a, *b),
{
    match (a, b) {
        (TokenKind::Ident(x), TokenKind::Ident(y)) => str_eq(x.as_str(), y.as_str()),
        (TokenKind::NatLit(x), TokenKind::NatLit(y)) => str_eq(x.as_str(), y.as_str()),
        (TokenKind::StrLit(x), TokenKind::StrLit(y)) => str_eq(x.as_str(), y.as_str()),
        (TokenKind::CharLit(x), TokenKind::CharLit(y)) => *x == *y,
        (TokenKind::ScientificLit(x), TokenKind::ScientificLit(y)) => str_eq(x.as_str(), y.as_str()),
        (TokenKind::Keyword(x), TokenKind::Keyword(y)) => *x == *y,
        (TokenKind::LParen, TokenKind::LParen) => true,
        (TokenKind::RParen, TokenKind::RParen) => true,
        (TokenKind::LBracket, TokenKind::LBracket) => true,
        (TokenKind::RBracket, TokenKind::RBracket) => true,
        (TokenKind::LBrace, TokenKind::LBrace) => true,
        (TokenKind::RBrace, TokenKind::RBrace) => true,
        (TokenKind::LAngle, TokenKind::LAngle) => true,
        (TokenKind::RAngle, TokenKind::RAngle) => true,
        (TokenKind::LDblAngle, TokenKind::LDblAngle) => true,
        (TokenKind::RDblAngle, TokenKind::RDblAngle) => true,
        (TokenKind::Comma, TokenKind::Comma) => true,
        (TokenKind::Semicolon, TokenKind::Semicolon) => true,
        (TokenKind::Colon, TokenKind::Colon) => true,
        (TokenKind::ColonColon, TokenKind::ColonColon) => true,
        (TokenKind::ColonEq, TokenKind::ColonEq) => true,
        (TokenKind::Dot, TokenKind::Dot) => true,
        (TokenKind::DotDot, TokenKind::DotDot) => true,
        (TokenKind::Arrow, TokenKind::Arrow) => true,
        (TokenKind::FatArrow, TokenKind::FatArrow) => true,
        (TokenKind::LArrow, TokenKind::LArrow) => true,
        (TokenKind::At, TokenKind::At) => true,
        (TokenKind::Hash, TokenKind::Hash) => true,
        (TokenKind::Question, TokenKind::Question) => true,
        (TokenKind::Bang, TokenKind::Bang) => true,
        (TokenKind::Underscore, TokenKind::Underscore) => true,
        (TokenKind::Pipe, TokenKind::Pipe) => true,
        (TokenKind::Dollar, TokenKind::Dollar) => true,
        (TokenKind::Plus, TokenKind::Plus) => true,
        (TokenKind::Minus, TokenKind::Minus) => true,
        (TokenKind::Star, TokenKind::Star) => true,
        (TokenKind::Slash, TokenKind::Slash) => true,
        (TokenKind::Percent, TokenKind::Percent) => true,
        (TokenKind::Caret, TokenKind::Caret) => true,
        (TokenKind::Ampersand, TokenKind::Ampersand) => true,
        (TokenKind::Tilde, TokenKind::Tilde) => true,
        (TokenKind::Eq, TokenKind::Eq) => true,
        (TokenKind::Ne, TokenKind::Ne) => true,
        (TokenKind::Le, TokenKind::Le) => true,
        (TokenKind::Ge, TokenKind::Ge) => true,
        (TokenKind::Lt, TokenKind::Lt) => true,
        (TokenKind::Gt, TokenKind::Gt) => true,
        (TokenKind::AndAnd, TokenKind::AndAnd) => true,
        (TokenKind::OrOr, TokenKind::OrOr) => true,
        (TokenKind::Append, TokenKind::Append) => true,
        (TokenKind::Cons, TokenKind::Cons) => true,
        (TokenKind::Bind, TokenKind::Bind) => true,
        (TokenKind::SeqOp, TokenKind::SeqOp) => true,
        (TokenKind::MapOp, TokenKind::MapOp) => true,
        (TokenKind::SeqComp, TokenKind::SeqComp) => true,
        (TokenKind::SeqLeft, TokenKind::SeqLeft) => true,
        (TokenKind::SeqRight, TokenKind::SeqRight) => true,
        (TokenKind::OrElse, TokenKind::OrElse) => true,
        (TokenKind::PipeRight, TokenKind::PipeRight) => true,
        (TokenKind::PipeLeft, TokenKind::PipeLeft) => true,
        (TokenKind::Forall, TokenKind::Forall) => true,
        (TokenKind::Exists, TokenKind::Exists) => true,
        (TokenKind::Lambda, TokenKind::Lambda) => true,
        (TokenKind::Neg, TokenKind::Neg) => true,
        (TokenKind::Conj, TokenKind::Conj) => true,
        (TokenKind::Disj, TokenKind::Disj) => true,
        (TokenKind::Iff, TokenKind::Iff) => true,
        (TokenKind::Mem, TokenKind::Mem) => true,
        (TokenKind::Compose, TokenKind::Compose) => true,
        (TokenKind::Times, TokenKind::Times) => true,
        (TokenKind::Cdot, TokenKind::Cdot) => true,
        (TokenKind::Subst, TokenKind::Subst) => true,
        (TokenKind::SMul, TokenKind::SMul) => true,
        (TokenKind::Dvd, TokenKind::Dvd) => true,
        (TokenKind::BitAnd, TokenKind::BitAnd) => true,
        (TokenKind::BitOr, TokenKind::BitOr) => true,
        (TokenKind::BitXor, TokenKind::BitXor) => true,
        (TokenKind::ShiftLeft, TokenKind::ShiftLeft) => true,
        (TokenKind::ShiftRight, TokenKind::ShiftRight) => true,
        (TokenKind::Complement, TokenKind::Complement) => true,
        (TokenKind::InterpolBegin, TokenKind::InterpolBegin) => true,
        (TokenKind::InterpolEnd, TokenKind::InterpolEnd) => true,
        (TokenKind::Newline, TokenKind::Newline) => true,
        (TokenKind::Eof, TokenKind::Eof) => true,
        (TokenKind::DocComment(x), TokenKind::DocComment(y)) => str_eq(x.as_str(), y.as_str()),
        (TokenKind::ModuleDoc(x), TokenKind::ModuleDoc(y)) => str_eq(x.as_str(), y.as_str()),
        (TokenKind::Error(x), TokenKind::Error(y)) => str_eq(x.as_str(), y.as_str()),
        _ => false,
    }
}

/// A copy of a token kind.
pub fn clone_kind(k: &TokenKind) -> (r: TokenKind)
    ensures
        kind_equiv(r, *k),
        same_variant(r, *k),
{
    match k {
        TokenKind::Ident(x) => TokenKind::Ident(x.clone()),
        TokenKind::NatLit(x) => TokenKind::NatLit(x.clone()),
        TokenKind::StrLit(x) => TokenKind::StrLit(x.clone()),
        TokenKind::CharLit(x) => TokenKind::CharLit(*x),
        TokenKind::ScientificLit(x) => TokenKind::ScientificLit(x.clone()),
        TokenKind::Keyword(x) => TokenKind::Keyword(*x),
        TokenKind::LParen => TokenKind::LParen,
        TokenKind::RParen => TokenKind::RParen,
        TokenKind::LBracket => TokenKind::LBracket,
        TokenKind::RBracket => TokenKind::RBracket,
        TokenKind::LBrace => TokenKind::LBrace,
        TokenKind::RBrace => TokenKind::RBrace,
        TokenKind::LAngle => TokenKind::LAngle,
        TokenKind::RAngle => TokenKind::RAngle,
        TokenKind::LDblAngle => TokenKind::LDblAngle,
        TokenKind::RDblAngle => TokenKind::RDblAngle,
        TokenKind::Comma => TokenKind::Comma,
        TokenKind::Semicolon => TokenKind::Semicolon,
        TokenKind::Colon => TokenKind::Colon,
        TokenKind::ColonColon => TokenKind::ColonColon,
        TokenKind::ColonEq => TokenKind::ColonEq,
        TokenKind::Dot => TokenKind::Dot,
        TokenKind::DotDot => TokenKind::DotDot,
        TokenKind::Arrow => TokenKind::Arrow,
        TokenKind::FatArrow => TokenKind::FatArrow,
        TokenKind::LArrow => TokenKind::LArrow,
        TokenKind::At => TokenKind::At,
        TokenKind::Hash => TokenKind::Hash,
        TokenKind::Question => TokenKind::Question,
        TokenKind::Bang => TokenKind::Bang,
        TokenKind::Underscore => TokenKind::Underscore,
        TokenKind::Pipe => TokenKind::Pipe,
        TokenKind::Dollar => TokenKind::Dollar,
        TokenKind::Plus => TokenKind::Plus,
        TokenKind::Minus => TokenKind::Minus,
        TokenKind::Star => TokenKind::Star,
        TokenKind::Slash => TokenKind::Slash,
        TokenKind::Percent => TokenKind::Percent,
        TokenKind::Caret => TokenKind::Caret,
        TokenKind::Ampersand => TokenKind::Ampersand,
        TokenKind::Tilde => TokenKind::Tilde,
        TokenKind::Eq => TokenKind::Eq,
        TokenKind::Ne => TokenKind::Ne,
        TokenKind::Le => TokenKind::Le,
        TokenKind::Ge => TokenKind::Ge,
        TokenKind::Lt => TokenKind::Lt,
        TokenKind::Gt => TokenKind::Gt,
        TokenKind::AndAnd => TokenKind::AndAnd,
        TokenKind::OrOr => TokenKind::OrOr,
        TokenKind::Append => TokenKind::Append,
        TokenKind::Cons => TokenKind::Cons,
        TokenKind::Bind => TokenKind::Bind,
        TokenKind::SeqOp => TokenKind::SeqOp,
        TokenKind::MapOp => TokenKind::MapOp,
        TokenKind::SeqComp => TokenKind::SeqComp,
        TokenKind::SeqLeft => TokenKind::SeqLeft,
        TokenKind::SeqRight => TokenKind::SeqRight,
        TokenKind::OrElse => TokenKind::OrElse,
        TokenKind::PipeRight => TokenKind::PipeRight,
        TokenKind::PipeLeft => TokenKind::PipeLeft,
        TokenKind::Forall => TokenKind::Forall,
        TokenKind::Exists => TokenKind::Exists,
        TokenKind::Lambda => TokenKind::Lambda,
        TokenKind::Neg => TokenKind::Neg,
        TokenKind::Conj => TokenKind::Conj,
        TokenKind::Disj => TokenKind::Disj,
        TokenKind::Iff => TokenKind::Iff,
        TokenKind::Mem => TokenKind::Mem,
        TokenKind::Compose => TokenKind::Compose,
        TokenKind::Times => TokenKind::Times,
        TokenKind::Cdot => TokenKind::Cdot,
        TokenKind::Subst => TokenKind::Subst,
        TokenKind::SMul => TokenKind::SMul,
        TokenKind::Dvd => TokenKind::Dvd,
        TokenKind::BitAnd => TokenKind::BitAnd,
        TokenKind::BitOr => TokenKind::BitOr,
        TokenKind::BitXor => TokenKind::BitXor,
        TokenKind::ShiftLeft => TokenKind::ShiftLeft,
        TokenKind::ShiftRight => TokenKind::ShiftRight,
        TokenKind::Complement => TokenKind::Complement,
        TokenKind::InterpolBegin => TokenKind::InterpolBegin,
        TokenKind::InterpolEnd => TokenKind::InterpolEnd,
        TokenKind::Newline => TokenKind::Newline,
        TokenKind::Eof => TokenKind::Eof,
        TokenKind::DocComment(x) => TokenKind::DocComment(x.clone()),
        TokenKind::ModuleDoc(x) => TokenKind::ModuleDoc(x.clone()),
        TokenKind::Error(x) => TokenKind::Error(x.clone()),
    }
}

/// A copy of a token.
pub fn clone_token(t: &Token) -> (r: Token)
    ensures
        r.span == t.span,
        kind_equiv(r.kind, t.kind),
        same_variant(r.kind, t.kind),
{
    Token { kind: clone_kind(&t.kind), span: t.span }
}

/// The name of a keyword constructor.
pub open spec fn keyword_debug_text(k: Keyword) -> Seq<char> {
    match k {
        Keyword::Def => "Def"@,
        Keyword::Theorem => "Theorem"@,
        Keyword::Lemma => "Lemma"@,
        Keyword::Abbrev => "Abbrev"@,
        Keyword::Opaque => "Opaque"@,
        Keyword::Instance => "Instance"@,
        Keyword::Example => "Example"@,
        Keyword::Axiom => "Axiom"@,
        Keyword::Structure => "Structure"@,
        Keyword::Class => "Class"@,
        Keyword::Inductive => "Inductive"@,
        Keyword::Namespace => "Namespace"@,
        Keyword::Module => "Module"@,
        Keyword::Prelude => "Prelude"@,
        Keyword::Section => "Section"@,
        Keyword::End => "End"@,
        Keyword::Mutual => "Mutual"@,
        Keyword::Open => "Open"@,
        Keyword::Export => "Export"@,
        Keyword::Variable => "Variable"@,
        Keyword::Universe => "Universe"@,
        Keyword::SetOption => "SetOption"@,
        Keyword::Attribute => "Attribute"@,
        Keyword::Initialize => "Initialize"@,
        Keyword::BuiltinInitialize => "BuiltinInitialize"@,
        Keyword::Notation => "Notation"@,
        Keyword::Prefix => "Prefix"@,
        Keyword::Infix => "Infix"@,
        Keyword::Infixl => "Infixl"@,
        Keyword::Infixr => "Infixr"@,
        Keyword::Postfix => "Postfix"@,
        Keyword::Macro => "Macro"@,
        Keyword::Syntax => "Syntax"@,
        Keyword::Elab => "Elab"@,
        Keyword::Check => "Check"@,
        Keyword::Eval => "Eval"@,
        Keyword::Print => "Print"@,
        Keyword::Reduce => "Reduce"@,
        Keyword::Synth => "Synth"@,
        Keyword::Exit => "Exit"@,
        Keyword::Import => "Import"@,
        Keyword::Private => "Private"@,
        Keyword::Protected => "Protected"@,
        Keyword::Noncomputable => "Noncomputable"@,
        Keyword::Unsafe => "Unsafe"@,
        Keyword::Partial => "Partial"@,
        Keyword::Nonrec => "Nonrec"@,
        Keyword::In => "In"@,
        Keyword::True => "True"@,
        Keyword::False => "False"@,
        Keyword::Where => "Where"@,
        Keyword::Deriving => "Deriving"@,
        Keyword::Extends => "Extends"@,
        Keyword::Let => "Let"@,
        Keyword::Do => "Do"@,
        Keyword::With => "With"@,
        Keyword::Type => "Type"@,
        Keyword::Sort => "Sort"@,
        Keyword::Prop => "Prop"@,
        Keyword::Sorry => "Sorry"@,
        Keyword::Return => "Return"@,
        Keyword::Match => "Match"@,
        Keyword::If => "If"@,
        Keyword::Then => "Then"@,
        Keyword::Else => "Else"@,
        Keyword::By => "By"@,
        Keyword::Fun => "Fun"@,
        Keyword::Forall => "Forall"@,
        Keyword::For => "For"@,
        Keyword::Have => "Have"@,
        Keyword::Show => "Show"@,
        Keyword::Suffices => "Suffices"@,
        Keyword::Assume => "Assume"@,
        Keyword::Unless => "Unless"@,
        Keyword::Pure => "Pure"@,
        Keyword::Nomatch => "Nomatch"@,
        Keyword::Nofun => "Nofun"@,
    }
}

/// The text `{:?}` gives a string: quoted, with escapes.
pub uninterp spec fn str_debug_text(s: Seq<char>) -> Seq<char>;

/// The text `{:?}` gives a character: single-quoted, with escapes.
pub uninterp spec fn char_debug_text(c: char) -> Seq<char>;

/// std `Debug` for `str` (`format!("{:?}", s)`).
#[verifier::external_body]
fn str_debug(s: &str) -> (r: String)
    ensures
        r@ == str_debug_text(s@),
{
    format!("{:?}", s)
}

/// std `Debug` for `char` (`format!("{:?}", c)`).
#[verifier::external_body]
fn char_debug(c: char) -> (r: String)
    ensures
        r@ == char_debug_text(c),
{
    format!("{:?}", c)
}

/// The text `{:?}` gives a token kind: the constructor's name, with its
/// payload in parentheses.
pub open spec fn kind_debug_text(k: TokenKind) -> Seq<char> {
    match k {
        TokenKind::Ident(x) => "Ident("@ + str_debug_text(x@) + ")"@,
        TokenKind::NatLit(x) => "NatLit("@ + str_debug_text(x@) + ")"@,
        TokenKind::StrLit(x) => "StrLit("@ + str_debug_text(x@) + ")"@,
        TokenKind::CharLit(x) => "CharLit("@ + char_debug_text(x) + ")"@,
        TokenKind::ScientificLit(x) => "ScientificLit("@ + str_debug_text(x@) + ")"@,
        TokenKind::Keyword(x) => "Keyword("@ + keyword_debug_text(x) + ")"@,
        TokenKind::LParen => "LParen"@,
        TokenKind::RParen => "RParen"@,
        TokenKind::LBracket => "LBracket"@,
        TokenKind::RBracket => "RBracket"@,
        TokenKind::LBrace => "LBrace"@,
        TokenKind::RBrace => "RBrace"@,
        TokenKind::LAngle => "LAngle"@,
        TokenKind::RAngle => "RAngle"@,
        TokenKind::LDblAngle => "LDblAngle"@,
        TokenKind::RDblAngle => "RDblAngle"@,
        TokenKind::Comma => "Comma"@,
        TokenKind::Semicolon => "Semicolon"@,
        TokenKind::Colon => "Colon"@,
        TokenKind::ColonColon => "ColonColon"@,
        TokenKind::ColonEq => "ColonEq"@,
        TokenKind::Dot => "Dot"@,
        TokenKind::DotDot => "DotDot"@,
        TokenKind::Arrow => "Arrow"@,
        TokenKind::FatArrow => "FatArrow"@,
        TokenKind::LArrow => "LArrow"@,
        TokenKind::At => "At"@,
        TokenKind::Hash => "Hash"@,
        TokenKind::Question => "Question"@,
        TokenKind::Bang => "Bang"@,
        TokenKind::Underscore => "Underscore"@,
        TokenKind::Pipe => "Pipe"@,
        TokenKind::Dollar => "Dollar"@,
        TokenKind::Plus => "Plus"@,
        TokenKind::Minus => "Minus"@,
        TokenKind::Star => "Star"@,
        TokenKind::Slash => "Slash"@,
        TokenKind::Percent => "Percent"@,
        TokenKind::Caret => "Caret"@,
        TokenKind::Ampersand => "Ampersand"@,
        TokenKind::Tilde => "Tilde"@,
        TokenKind::Eq => "Eq"@,
        TokenKind::Ne => "Ne"@,
        TokenKind::Le => "Le"@,
        TokenKind::Ge => "Ge"@,
        TokenKind::Lt => "Lt"@,
        TokenKind::Gt => "Gt"@,
        TokenKind::AndAnd => "AndAnd"@,
        TokenKind::OrOr => "OrOr"@,
        TokenKind::Append => "Append"@,
        TokenKind::Cons => "Cons"@,
        TokenKind::Bind => "Bind"@,
        TokenKind::SeqOp => "Seq"@,
        TokenKind::MapOp => "Map"@,
        TokenKind::SeqComp => "SeqComp"@,
        TokenKind::SeqLeft => "SeqLeft"@,
        TokenKind::SeqRight => "SeqRight"@,
        TokenKind::OrElse => "OrElse"@,
        TokenKind::PipeRight => "PipeRight"@,
        TokenKind::PipeLeft => "PipeLeft"@,
        TokenKind::Forall => "Forall"@,
        TokenKind::Exists => "Exists"@,
        TokenKind::Lambda => "Lambda"@,
        TokenKind::Neg => "Neg"@,
        TokenKind::Conj => "Conj"@,
        TokenKind::Disj => "Disj"@,
        TokenKind::Iff => "Iff"@,
        TokenKind::Mem => "Mem"@,
        TokenKind::Compose => "Compose"@,
        TokenKind::Times => "Times"@,
        TokenKind::Cdot => "Cdot"@,
        TokenKind::Subst => "Subst"@,
        TokenKind::SMul => "SMul"@,
        TokenKind::Dvd => "Dvd"@,
        TokenKind::BitAnd => "BitAnd"@,
        TokenKind::BitOr => "BitOr"@,
        TokenKind::BitXor => "BitXor"@,
        TokenKind::ShiftLeft => "ShiftLeft"@,
        TokenKind::ShiftRight => "ShiftRight"@,
        TokenKind::Complement => "Complement"@,
        TokenKind::InterpolBegin => "InterpolBegin"@,
        TokenKind::InterpolEnd => "InterpolEnd"@,
        TokenKind::Newline => "Newline"@,
        TokenKind::Eof => "Eof"@,
        TokenKind::DocComment(x) => "DocComment("@ + str_debug_text(x@) + ")"@,
        TokenKind::ModuleDoc(x) => "ModuleDoc("@ + str_debug_text(x@) + ")"@,
        TokenKind::Error(x) => "Error("@ + str_debug_text(x@) + ")"@,
    }
}

fn push_str(out: &mut Vec<char>, s: &str)
    ensures
        final(out)@ == old(out)@ + s@,
{
    let cs = chars_of(s);
    push_all(out, cs.as_slice());
}

fn keyword_debug(k: Keyword) -> (r: &'static str)
    ensures
        r@ == keyword_debug_text(k),
{
    match k {
        Keyword::Def => "Def",
        Keyword::Theorem => "Theorem",
        Keyword::Lemma => "Lemma",
        Keyword::Abbrev => "Abbrev",
        Keyword::Opaque => "Opaque",
        Keyword::Instance => "Instance",
        Keyword::Example => "Example",
        Keyword::Axiom => "Axiom",
        Keyword::Structure => "Structure",
        Keyword::Class => "Class",
        Keyword::Inductive => "Inductive",
        Keyword::Namespace => "Namespace",
        Keyword::Module => "Module",
        Keyword::Prelude => "Prelude",
        Keyword::Section => "Section",
        Keyword::End => "End",
        Keyword::Mutual => "Mutual",
        Keyword::Open => "Open",
        Keyword::Export => "Export",
        Keyword::Variable => "Variable",
        Keyword::Universe => "Universe",
        Keyword::SetOption => "SetOption",
        Keyword::Attribute => "Attribute",
        Keyword::Initialize => "Initialize",
        Keyword::BuiltinInitialize => "BuiltinInitialize",
        Keyword::Notation => "Notation",
        Keyword::Prefix => "Prefix",
        Keyword::Infix => "Infix",
        Keyword::Infixl => "Infixl",
        Keyword::Infixr => "Infixr",
        Keyword::Postfix => "Postfix",
        Keyword::Macro => "Macro",
        Keyword::Syntax => "Syntax",
        Keyword::Elab => "Elab",
        Keyword::Check => "Check",
        Keyword::Eval => "Eval",
        Keyword::Print => "Print",
        Keyword::Reduce => "Reduce",
        Keyword::Synth => "Synth",
        Keyword::Exit => "Exit",
        Keyword::Import => "Import",
        Keyword::Private => "Private",
        Keyword::Protected => "Protected",
        Keyword::Noncomputable => "Noncomputable",
        Keyword::Unsafe => "Unsafe",
        Keyword::Partial => "Partial",
        Keyword::Nonrec => "Nonrec",
        Keyword::In => "In",
        Keyword::True => "True",
        Keyword::False => "False",
        Keyword::Where => "Where",
        Keyword::Deriving => "Deriving",
        Keyword::Extends => "Extends",
        Keyword::Let => "Let",
        Keyword::Do => "Do",
        Keyword::With => "With",
        Keyword::Type => "Type",
        Keyword::Sort => "Sort",
        Keyword::Prop => "Prop",
        Keyword::Sorry => "Sorry",
        Keyword::Return => "Return",
        Keyword::Match => "Match",
        Keyword::If => "If",
        Keyword::Then => "Then",
        Keyword::Else => "Else",
        Keyword::By => "By",
        Keyword::Fun => "Fun",
        Keyword::Forall => "Forall",
        Keyword::For => "For",
        Keyword::Have => "Have",
        Keyword::Show => "Show",
        Keyword::Suffices => "Suffices",
        Keyword::Assume => "Assume",
        Keyword::Unless => "Unless",
        Keyword::Pure => "Pure",
        Keyword::Nomatch => "Nomatch",
        Keyword::Nofun => "Nofun",
    }
}

/// The text `{:?}` gives a token kind.
pub fn kind_debug(k: &TokenKind) -> (r: String)
    ensures
        r@ == kind_debug_text(*k),
{
    let mut out: Vec<char> = Vec::new();
    match k {
        TokenKind::Ident(x) => {
            push_str(&mut out, "Ident(");
            push_str(&mut out, str_debug(x.as_str()).as_str());
            push_str(&mut out, ")");
        },
        TokenKind::NatLit(x) => {
            push_str(&mut out, "NatLit(");
            push_str(&mut out, str_debug(x.as_str()).as_str());
            push_str(&mut out, ")");
        },
        TokenKind::StrLit(x) => {
            push_str(&mut out, "StrLit(");
            push_str(&mut out, str_debug(x.as_str()).as_str());
            push_str(&mut out, ")");
        },
        TokenKind::CharLit(x) => {
            push_str(&mut out, "CharLit(");
            push_str(&mut out, char_debug(*x).as_str());
            push_str(&mut out, ")");
        },
        TokenKind::ScientificLit(x) => {
            push_str(&mut out, "ScientificLit(");
            push_str(&mut out, str_debug(x.as_str()).as_str());
            push_str(&mut out, ")");
        },
        TokenKind::Keyword(x) => {
            push_str(&mut out, "Keyword(");
            push_str(&mut out, keyword_debug(*x));
            push_str(&mut out, ")");
        },
        TokenKind::LParen => push_str(&mut out, "LParen"),
        TokenKind::RParen => push_str(&mut out, "RParen"),
        TokenKind::LBracket => push_str(&mut out, "LBracket"),
        TokenKind::RBracket => push_str(&mut out, "RBracket"),
        TokenKind::LBrace => push_str(&mut out, "LBrace"),
        TokenKind::RBrace => push_str(&mut out, "RBrace"),
        TokenKind::LAngle => push_str(&mut out, "LAngle"),
        TokenKind::RAngle => push_str(&mut out, "RAngle"),
        TokenKind::LDblAngle => push_str(&mut out, "LDblAngle"),
        TokenKind::RDblAngle => push_str(&mut out, "RDblAngle"),
        TokenKind::Comma => push_str(&mut out, "Comma"),
        TokenKind::Semicolon => push_str(&mut out, "Semicolon"),
        TokenKind::Colon => push_str(&mut out, "Colon"),
        TokenKind::ColonColon => push_str(&mut out, "ColonColon"),
        TokenKind::ColonEq => push_str(&mut out, "ColonEq"),
        TokenKind::Dot => push_str(&mut out, "Dot"),
        TokenKind::DotDot => push_str(&mut out, "DotDot"),
        TokenKind::Arrow => push_str(&mut out, "Arrow"),
        TokenKind::FatArrow => push_str(&mut out, "FatArrow"),
        TokenKind::LArrow => push_str(&mut out, "LArrow"),
        TokenKind::At => push_str(&mut out, "At"),
        TokenKind::Hash => push_str(&mut out, "Hash"),
        TokenKind::Question => push_str(&mut out, "Question"),
        TokenKind::Bang => push_str(&mut out, "Bang"),
        TokenKind::Underscore => push_str(&mut out, "Underscore"),
        TokenKind::Pipe => push_str(&mut out, "Pipe"),
        TokenKind::Dollar => push_str(&mut out, "Dollar"),
        TokenKind::Plus => push_str(&mut out, "Plus"),
        TokenKind::Minus => push_str(&mut out, "Minus"),
        TokenKind::Star => push_str(&mut out, "Star"),
        TokenKind::Slash => push_str(&mut out, "Slash"),
        TokenKind::Percent => push_str(&mut out, "Percent"),
        TokenKind::Caret => push_str(&mut out, "Caret"),
        TokenKind::Ampersand => push_str(&mut out, "Ampersand"),
        TokenKind::Tilde => push_str(&mut out, "Tilde"),
        TokenKind::Eq => push_str(&mut out, "Eq"),
        TokenKind::Ne => push_str(&mut out, "Ne"),
        TokenKind::Le => push_str(&mut out, "Le"),
        TokenKind::Ge => push_str(&mut out, "Ge"),
        TokenKind::Lt => push_str(&mut out, "Lt"),
        TokenKind::Gt => push_str(&mut out, "Gt"),
        TokenKind::AndAnd => push_str(&mut out, "AndAnd"),
        TokenKind::OrOr => push_str(&mut out, "OrOr"),
        TokenKind::Append => push_str(&mut out, "Append"),
        TokenKind::Cons => push_str(&mut out, "Cons"),
        TokenKind::Bind => push_str(&mut out, "Bind"),
        TokenKind::SeqOp => push_str(&mut out, "Seq"),
        TokenKind::MapOp => push_str(&mut out, "Map"),
        TokenKind::SeqComp => push_str(&mut out, "SeqComp"),
        TokenKind::SeqLeft => push_str(&mut out, "SeqLeft"),
        TokenKind::SeqRight => push_str(&mut out, "SeqRight"),
        TokenKind::OrElse => push_str(&mut out, "OrElse"),
        TokenKind::PipeRight => push_str(&mut out, "PipeRight"),
        TokenKind::PipeLeft => push_str(&mut out, "PipeLeft"),
        TokenKind::Forall => push_str(&mut out, "Forall"),
        TokenKind::Exists => push_str(&mut out, "Exists"),
        TokenKind::Lambda => push_str(&mut out, "Lambda"),
        TokenKind::Neg => push_str(&mut out, "Neg"),
        TokenKind::Conj => push_str(&mut out, "Conj"),
        TokenKind::Disj => push_str(&mut out, "Disj"),
        TokenKind::Iff => push_str(&mut out, "Iff"),
        TokenKind::Mem => push_str(&mut out, "Mem"),
        TokenKind::Compose => push_str(&mut out, "Compose"),
        TokenKind::Times => push_str(&mut out, "Times"),
        TokenKind::Cdot => push_str(&mut out, "Cdot"),
        TokenKind::Subst => push_str(&mut out, "Subst"),
        TokenKind::SMul => push_str(&mut out, "SMul"),
        TokenKind::Dvd => push_str(&mut out, "Dvd"),
        TokenKind::BitAnd => push_str(&mut out, "BitAnd"),
        TokenKind::BitOr => push_str(&mut out, "BitOr"),
        TokenKind::BitXor => push_str(&mut out, "BitXor"),
        TokenKind::ShiftLeft => push_str(&mut out, "ShiftLeft"),
        TokenKind::ShiftRight => push_str(&mut out, "ShiftRight"),
        TokenKind::Complement => push_str(&mut out, "Complement"),
        TokenKind::InterpolBegin => push_str(&mut out, "InterpolBegin"),
        TokenKind::InterpolEnd => push_str(&mut out, "InterpolEnd"),
        TokenKind::Newline => push_str(&mut out, "Newline"),
        TokenKind::Eof => push_str(&mut out, "Eof"),
        TokenKind::DocComment(x) => {
            push_str(&mut out, "DocComment(");
            push_str(&mut out, str_debug(x.as_str()).as_str());
            push_str(&mut out, ")");
        },
        TokenKind::ModuleDoc(x) => {
            push_str(&mut out, "ModuleDoc(");
            push_str(&mut out, str_debug(x.as_str()).as_str());
            push_str(&mut out, ")");
        },
        TokenKind::Error(x) => {
            push_str(&mut out, "Error(");
            push_str(&mut out, str_debug(x.as_str()).as_str());
            push_str(&mut out, ")");
        },
    }
    string_from_chars(out.as_slice())
}

} // verus!
