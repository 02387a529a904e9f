//! Tokens produced by the lexer.
use vstd::prelude::*;

use crate::keyword::Keyword;
use crate::span::Span;

verus! {

/// A token with its source span.
#[derive(Clone, Debug)]
pub struct Token {
    pub kind: TokenKind,
    pub span: Span,
}

/// The kinds of tokens.
#[derive(Clone, Debug, PartialEq)]
pub enum TokenKind {
    Ident(String),
    NatLit(String),
    StrLit(String),
    CharLit(char),
    ScientificLit(String),
    Keyword(Keyword),
    LParen,
    RParen,
    LBracket,
    RBracket,
    LBrace,
    RBrace,
    LAngle,
    RAngle,
    LDblAngle,
    RDblAngle,
    Comma,
    Semicolon,
    Colon,
    ColonColon,
    ColonEq,
    Dot,
    DotDot,
    Arrow,
    FatArrow,
    LArrow,
    At,
    Hash,
    Question,
    Bang,
    Underscore,
    Pipe,
    Dollar,
    Plus,
    Minus,
    Star,
    Slash,
    Percent,
    Caret,
    Ampersand,
    Tilde,
    Eq,
    Ne,
    Le,
    Ge,
    Lt,
    Gt,
    AndAnd,
    OrOr,
    Append,
    Cons,
    Bind,
    SeqOp,
    MapOp,
    SeqComp,
    SeqLeft,
    SeqRight,
    OrElse,
    PipeRight,
    PipeLeft,
    Forall,
    Exists,
    Lambda,
    Neg,
    Conj,
    Disj,
    Iff,
    Mem,
    Compose,
    Times,
    Cdot,
    Subst,
    SMul,
    Dvd,
    BitAnd,
    BitOr,
    BitXor,
    ShiftLeft,
    ShiftRight,
    Complement,
    InterpolBegin,
    InterpolEnd,
    Newline,
    Eof,
    DocComment(String),
    ModuleDoc(String),
    Error(String),
}

/// Operator tokens.
pub open spec fn is_operator_kind(k: TokenKind) -> bool {
    match k {
        TokenKind::Plus | TokenKind::Minus | TokenKind::Star | TokenKind::Slash
        | TokenKind::Percent | TokenKind::Caret | TokenKind::Ampersand | TokenKind::Tilde
        | TokenKind::Eq | TokenKind::Ne | TokenKind::Le | TokenKind::Ge | TokenKind::Lt
        | TokenKind::Gt | TokenKind::AndAnd | TokenKind::OrOr | TokenKind::Append
        | TokenKind::Cons | TokenKind::Bind | TokenKind::SeqOp | TokenKind::MapOp
        | TokenKind::SeqComp | TokenKind::SeqLeft | TokenKind::SeqRight | TokenKind::OrElse
        | TokenKind::PipeRight | TokenKind::PipeLeft | TokenKind::Arrow | TokenKind::FatArrow
        | TokenKind::LArrow | TokenKind::Forall | TokenKind::Exists | TokenKind::Lambda
        | TokenKind::Neg | TokenKind::Conj | TokenKind::Disj | TokenKind::Iff | TokenKind::Mem
        | TokenKind::Compose | TokenKind::Times | TokenKind::Cdot | TokenKind::Subst
        | TokenKind::SMul | TokenKind::Dvd | TokenKind::BitAnd | TokenKind::BitOr
        | TokenKind::BitXor | TokenKind::ShiftLeft | TokenKind::ShiftRight
        | TokenKind::Complement | TokenKind::Pipe | TokenKind::Dollar => true,
        _ => false,
    }
}

impl Token {
    pub fn new(kind: TokenKind, span: Span) -> (r: Self)
        ensures
            r == (Token { kind, span }),
    {
        Token { kind, span }
    }

    pub fn is_keyword(&self, kw: Keyword) -> (b: bool)
        ensures
            b == (self.kind == TokenKind::Keyword(kw)),
    {
        match &self.kind {
            TokenKind::Keyword(k) => *k == kw,
            _ => false,
        }
    }

    pub fn is_eof(&self) -> (b: bool)
        ensures
            b == self.kind is Eof,
    {
        match &self.kind {
            TokenKind::Eof => true,
            _ => false,
        }
    }

    pub fn is_ident(&self) -> (b: bool)
        ensures
            b == self.kind is Ident,
    {
        match &self.kind {
            TokenKind::Ident(_) => true,
            _ => false,
        }
    }
}

impl TokenKind {
    pub fn is_operator(&self) -> (b: bool)
        ensures
            b == is_operator_kind(*self),
    {
        match self {
            TokenKind::Plus | TokenKind::Minus | TokenKind::Star | TokenKind::Slash
            | TokenKind::Percent | TokenKind::Caret | TokenKind::Ampersand | TokenKind::Tilde
            | TokenKind::Eq | TokenKind::Ne | TokenKind::Le | TokenKind::Ge | TokenKind::Lt
            | TokenKind::Gt | TokenKind::AndAnd | TokenKind::OrOr | TokenKind::Append
            | TokenKind::Cons | TokenKind::Bind | TokenKind::SeqOp | TokenKind::MapOp
            | TokenKind::SeqComp | TokenKind::SeqLeft | TokenKind::SeqRight | TokenKind::OrElse
            | TokenKind::PipeRight | TokenKind::PipeLeft | TokenKind::Arrow
            | TokenKind::FatArrow | TokenKind::LArrow | TokenKind::Forall | TokenKind::Exists
            | TokenKind::Lambda | TokenKind::Neg | TokenKind::Conj | TokenKind::Disj
            | TokenKind::Iff | TokenKind::Mem | TokenKind::Compose | TokenKind::Times
            | TokenKind::Cdot | TokenKind::Subst | TokenKind::SMul | TokenKind::Dvd
            | TokenKind::BitAnd | TokenKind::BitOr | TokenKind::BitXor | TokenKind::ShiftLeft
            | TokenKind::ShiftRight | TokenKind::Complement | TokenKind::Pipe
            | TokenKind::Dollar => true,
            _ => false,
        }
    }

    pub fn is_literal(&self) -> (b: bool)
        ensures
            b == (self is NatLit || self is StrLit || self is CharLit || self is ScientificLit),
    {
        match self {
            TokenKind::NatLit(_) | TokenKind::StrLit(_) | TokenKind::CharLit(_)
            | TokenKind::ScientificLit(_) => true,
            _ => false,
        }
    }
}

} // verus!
