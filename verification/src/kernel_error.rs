//! Errors of the kernel: environment updates and type checking.
use vstd::prelude::*;

use crate::expr::Expr;
use crate::expr_display::{display_ok, expr_text};
use crate::name::{name_text, Name};
use crate::olean_error::{push_number, push_text};
use crate::text::string_from_chars;
use crate::text::decimal;

verus! {

/// What the kernel rejected, and why.
#[derive(Debug)]
pub enum KernelError {
    UnknownConstant(Name),
    AlreadyDeclared(Name),
    TypeExpected(Expr),
    FunctionExpected(Expr),
    TypeMismatch { expected: Expr, got: Expr },
    DefEqFailure { lhs: Expr, rhs: Expr },
    UndefLevelParam(Name),
    HasMVar(Name),
    HasFVar(Name),
    HasLocal(Name),
    Panic(String),
    InductiveError(String),
    QuotNotInitialized,
    IncorrectNumLevels { name: Name, expected: usize, got: usize },
    UnsafeDefinition(Name),
}

/// Result of a kernel operation.
pub type KernelResult<T> = Result<T, KernelError>;

/// The expressions an error carries can all be printed.
pub open spec fn kernel_error_printable(e: KernelError) -> bool {
    match e {
        KernelError::TypeExpected(x) => display_ok(x@),
        KernelError::FunctionExpected(x) => display_ok(x@),
        KernelError::TypeMismatch { expected, got } => display_ok(expected@) && display_ok(got@),
        KernelError::DefEqFailure { lhs, rhs } => display_ok(lhs@) && display_ok(rhs@),
        _ => true,
    }
}

/// The message of a kernel error, as its users see it.
pub open spec fn kernel_error_message(e: KernelError) -> Seq<char> {
    match e {
        KernelError::UnknownConstant(n) => "unknown constant '"@ + name_text(n@) + "'"@,
        KernelError::AlreadyDeclared(n) => "already declared '"@ + name_text(n@) + "'"@,
        KernelError::TypeExpected(x) => "type expected: "@ + expr_text(x@),
        KernelError::FunctionExpected(x) => "function expected: "@ + expr_text(x@),
        KernelError::TypeMismatch { expected, got } => "type mismatch: expected "@ + expr_text(
            expected@,
        ) + ", got "@ + expr_text(got@),
        KernelError::DefEqFailure { lhs, rhs } => "definitional equality failure: "@ + expr_text(
            lhs@,
        ) + " != "@ + expr_text(rhs@),
        KernelError::UndefLevelParam(n) => "universe level not found: "@ + name_text(n@),
        KernelError::HasMVar(n) => "declaration has metavariables: "@ + name_text(n@),
        KernelError::HasFVar(n) => "declaration has free variables: "@ + name_text(n@),
        KernelError::HasLocal(n) => "declaration has local constants: "@ + name_text(n@),
        KernelError::Panic(s) => "kernel panic: "@ + s@,
        KernelError::InductiveError(s) => "inductive error: "@ + s@,
        KernelError::QuotNotInitialized => "quotient not initialized"@,
        KernelError::IncorrectNumLevels { name, expected, got } =>
            "incorrect number of universe levels for '"@ + name_text(name@) + "': expected "@
                + decimal(expected as nat) + ", got "@ + decimal(got as nat),
        KernelError::UnsafeDefinition(n) => "unsafe declaration in safe environment: "@
            + name_text(n@),
    }
}

fn push_name(out: &mut Vec<char>, n: &Name)
    ensures
        final(out)@ == old(out)@ + name_text(n@),
{
    let s = n.to_string();
    push_text(out, s.as_str());
}

fn push_expr(out: &mut Vec<char>, e: &Expr)
    requires
        display_ok(e@),
    ensures
        final(out)@ == old(out)@ + expr_text(e@),
{
    let s = e.to_string();
    push_text(out, s.as_str());
}

impl KernelError {
    /// The message of the error (what `Display` prints).
    pub fn message(&self) -> (r: String)
        requires
            kernel_error_printable(*self),
        ensures
            r@ == kernel_error_message(*self),
    {
        let mut out: Vec<char> = Vec::new();
        match self {
            KernelError::UnknownConstant(n) => {
                push_text(&mut out, "unknown constant '");
                push_name(&mut out, n);
                push_text(&mut out, "'");
            },
            KernelError::AlreadyDeclared(n) => {
                push_text(&mut out, "already declared '");
                push_name(&mut out, n);
                push_text(&mut out, "'");
            },
            KernelError::TypeExpected(x) => {
                push_text(&mut out, "type expected: ");
                push_expr(&mut out, x);
            },
            KernelError::FunctionExpected(x) => {
                push_text(&mut out, "function expected: ");
                push_expr(&mut out, x);
            },
            KernelError::TypeMismatch { expected, got } => {
                push_text(&mut out, "type mismatch: expected ");
                push_expr(&mut out, expected);
                push_text(&mut out, ", got ");
                push_expr(&mut out, got);
            },
            KernelError::DefEqFailure { lhs, rhs } => {
                push_text(&mut out, "definitional equality failure: ");
                push_expr(&mut out, lhs);
                push_text(&mut out, " != ");
                push_expr(&mut out, rhs);
            },
            KernelError::UndefLevelParam(n) => {
                push_text(&mut out, "universe level not found: ");
                push_name(&mut out, n);
            },
            KernelError::HasMVar(n) => {
                push_text(&mut out, "declaration has metavariables: ");
                push_name(&mut out, n);
            },
            KernelError::HasFVar(n) => {
                push_text(&mut out, "declaration has free variables: ");
                push_name(&mut out, n);
            },
            KernelError::HasLocal(n) => {
                push_text(&mut out, "declaration has local constants: ");
                push_name(&mut out, n);
            },
            KernelError::Panic(s) => {
                push_text(&mut out, "kernel panic: ");
                push_text(&mut out, s.as_str());
            },
            KernelError::InductiveError(s) => {
                push_text(&mut out, "inductive error: ");
                push_text(&mut out, s.as_str());
            },
            KernelError::QuotNotInitialized => {
                push_text(&mut out, "quotient not initialized");
            },
            KernelError::IncorrectNumLevels { name, expected, got } => {
                push_text(&mut out, "incorrect number of universe levels for '");
                push_name(&mut out, name);
                push_text(&mut out, "': expected ");
                push_number(&mut out, *expected as u64);
                push_text(&mut out, ", got ");
                push_number(&mut out, *got as u64);
            },
            KernelError::UnsafeDefinition(n) => {
                push_text(&mut out, "unsafe declaration in safe environment: ");
                push_name(&mut out, n);
            },
        }
        string_from_chars(out.as_slice())
    }
}

} // verus!
