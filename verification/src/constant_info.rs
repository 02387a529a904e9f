//! Declarations stored in the environment: axioms, definitions, theorems,
//! opaque constants, quotient primitives and inductive types with their
//! constructors and recursors.
use vstd::prelude::*;

use crate::expr::{Expr, ExprV};
use crate::expr_subst::names_view;
use crate::expr_display::{display_ok, expr_text};
use crate::name::{name_text, Limb, Name};
use crate::olean_error::push_text;
use crate::text::{chars_of, push_all, string_from_chars};

verus! {

/// Whether a definition may be used by the kernel and compiler.
#[derive(Clone, Copy, Debug, PartialEq, Eq, Structural, Hash)]
pub enum DefinitionSafety {
    Safe,
    Unsafe,
    Partial,
}

/// How eagerly a definition is unfolded.
#[derive(Clone, Copy, Debug, PartialEq, Eq, Structural)]
pub enum ReducibilityHints {
    Opaque,
    Abbreviation,
    Regular(u32),
}

impl ReducibilityHints {
    pub fn is_abbrev(&self) -> (b: bool)
        ensures
            b == (*self is Abbreviation),
    {
        match self {
            ReducibilityHints::Abbreviation => true,
            _ => false,
        }
    }

    pub fn is_opaque(&self) -> (b: bool)
        ensures
            b == (*self is Opaque),
    {
        match self {
            ReducibilityHints::Opaque => true,
            _ => false,
        }
    }

    /// The height of a regular definition, 0 otherwise.
    pub fn get_height(&self) -> (h: u32)
        ensures
            h == (match *self {
                ReducibilityHints::Regular(x) => x,
                _ => 0,
            }),
    {
        match self {
            ReducibilityHints::Regular(h) => *h,
            _ => 0,
        }
    }
}

/// The four quotient primitives.
#[derive(Clone, Copy, Debug, PartialEq, Eq, Structural, Hash)]
pub enum QuotKind {
    Type,
    Mk,
    Lift,
    Ind,
}

/// A computation rule of a recursor.
#[derive(Clone, Debug)]
pub struct RecursorRule {
    pub ctor_name: Name,
    pub num_fields: u32,
    pub rhs: Expr,
}

/// A declaration of the environment.
#[derive(Clone, Debug)]
pub enum ConstantInfo {
    Axiom {
        name: Name,
        level_params: Vec<Name>,
        type_: Expr,
        is_unsafe: bool,
    },
    Definition {
        name: Name,
        level_params: Vec<Name>,
        type_: Expr,
        value: Expr,
        hints: ReducibilityHints,
        safety: DefinitionSafety,
    },
    Theorem {
        name: Name,
        level_params: Vec<Name>,
        type_: Expr,
        value: Expr,
    },
    Opaque {
        name: Name,
        level_params: Vec<Name>,
        type_: Expr,
        value: Expr,
        is_unsafe: bool,
    },
    Quot {
        name: Name,
        level_params: Vec<Name>,
        type_: Expr,
        kind: QuotKind,
    },
    Inductive {
        name: Name,
        level_params: Vec<Name>,
        type_: Expr,
        num_params: u32,
        num_indices: u32,
        all: Vec<Name>,
        ctors: Vec<Name>,
        num_nested: u32,
        is_rec: bool,
        is_unsafe: bool,
        is_reflexive: bool,
    },
    Constructor {
        name: Name,
        level_params: Vec<Name>,
        type_: Expr,
        induct_name: Name,
        ctor_idx: u32,
        num_params: u32,
        num_fields: u32,
        is_unsafe: bool,
    },
    Recursor {
        name: Name,
        level_params: Vec<Name>,
        type_: Expr,
        all: Vec<Name>,
        num_params: u32,
        num_indices: u32,
        num_motives: u32,
        num_minors: u32,
        rules: Vec<RecursorRule>,
        is_k: bool,
        is_unsafe: bool,
    },
}

/// A computation rule as a mathematical value.
pub struct RecursorRuleV {
    pub ctor_name: Seq<Limb>,
    pub num_fields: u32,
    pub rhs: ExprV,
}

impl View for RecursorRule {
    type V = RecursorRuleV;

    open spec fn view(&self) -> RecursorRuleV {
        RecursorRuleV { ctor_name: self.ctor_name@, num_fields: self.num_fields, rhs: self.rhs@ }
    }
}

/// The views of a list of rules.
pub open spec fn rules_view(rs: Seq<RecursorRule>) -> Seq<RecursorRuleV> {
    rs.map_values(|x: RecursorRule| x@)
}

/// A declaration as a mathematical value.
pub enum ConstantV {
    Axiom { name: Seq<Limb>, level_params: Seq<Seq<Limb>>, type_: ExprV, is_unsafe: bool },
    Definition {
        name: Seq<Limb>,
        level_params: Seq<Seq<Limb>>,
        type_: ExprV,
        value: ExprV,
        hints: ReducibilityHints,
        safety: DefinitionSafety,
    },
    Theorem { name: Seq<Limb>, level_params: Seq<Seq<Limb>>, type_: ExprV, value: ExprV },
    Opaque {
        name: Seq<Limb>,
        level_params: Seq<Seq<Limb>>,
        type_: ExprV,
        value: ExprV,
        is_unsafe: bool,
    },
    Quot { name: Seq<Limb>, level_params: Seq<Seq<Limb>>, type_: ExprV, kind: QuotKind },
    Inductive {
        name: Seq<Limb>,
        level_params: Seq<Seq<Limb>>,
        type_: ExprV,
        num_params: u32,
        num_indices: u32,
        all: Seq<Seq<Limb>>,
        ctors: Seq<Seq<Limb>>,
        num_nested: u32,
        is_rec: bool,
        is_unsafe: bool,
        is_reflexive: bool,
    },
    Constructor {
        name: Seq<Limb>,
        level_params: Seq<Seq<Limb>>,
        type_: ExprV,
        induct_name: Seq<Limb>,
        ctor_idx: u32,
        num_params: u32,
        num_fields: u32,
        is_unsafe: bool,
    },
    Recursor {
        name: Seq<Limb>,
        level_params: Seq<Seq<Limb>>,
        type_: ExprV,
        all: Seq<Seq<Limb>>,
        num_params: u32,
        num_indices: u32,
        num_motives: u32,
        num_minors: u32,
        rules: Seq<RecursorRuleV>,
        is_k: bool,
        is_unsafe: bool,
    },
}

impl View for ConstantInfo {
    type V = ConstantV;

    open spec fn view(&self) -> ConstantV {
        match self {
            ConstantInfo::Axiom { name, level_params, type_, is_unsafe } => ConstantV::Axiom {
                name: name@,
                level_params: names_view(level_params@),
                type_: type_@,
                is_unsafe: *is_unsafe,
            },
            ConstantInfo::Definition { name, level_params, type_, value, hints, safety } =>
                ConstantV::Definition {
                name: name@,
                level_params: names_view(level_params@),
                type_: type_@,
                value: value@,
                hints: *hints,
                safety: *safety,
            },
            ConstantInfo::Theorem { name, level_params, type_, value } => ConstantV::Theorem {
                name: name@,
                level_params: names_view(level_params@),
                type_: type_@,
                value: value@,
            },
            ConstantInfo::Opaque { name, level_params, type_, value, is_unsafe } =>
                ConstantV::Opaque {
                name: name@,
                level_params: names_view(level_params@),
                type_: type_@,
                value: value@,
                is_unsafe: *is_unsafe,
            },
            ConstantInfo::Quot { name, level_params, type_, kind } => ConstantV::Quot {
                name: name@,
                level_params: names_view(level_params@),
                type_: type_@,
                kind: *kind,
            },
            ConstantInfo::Inductive {
                name,
                level_params,
                type_,
                num_params,
                num_indices,
                all,
                ctors,
                num_nested,
                is_rec,
                is_unsafe,
                is_reflexive,
            } => ConstantV::Inductive {
                name: name@,
                level_params: names_view(level_params@),
                type_: type_@,
                num_params: *num_params,
                num_indices: *num_indices,
                all: names_view(all@),
                ctors: names_view(ctors@),
                num_nested: *num_nested,
                is_rec: *is_rec,
                is_unsafe: *is_unsafe,
                is_reflexive: *is_reflexive,
            },
            ConstantInfo::Constructor {
                name,
                level_params,
                type_,
                induct_name,
                ctor_idx,
                num_params,
                num_fields,
                is_unsafe,
            } => ConstantV::Constructor {
                name: name@,
                level_params: names_view(level_params@),
                type_: type_@,
                induct_name: induct_name@,
                ctor_idx: *ctor_idx,
                num_params: *num_params,
                num_fields: *num_fields,
                is_unsafe: *is_unsafe,
            },
            ConstantInfo::Recursor {
                name,
                level_params,
                type_,
                all,
                num_params,
                num_indices,
                num_motives,
                num_minors,
                rules,
                is_k,
                is_unsafe,
            } => ConstantV::Recursor {
                name: name@,
                level_params: names_view(level_params@),
                type_: type_@,
                all: names_view(all@),
                num_params: *num_params,
                num_indices: *num_indices,
                num_motives: *num_motives,
                num_minors: *num_minors,
                rules: rules_view(rules@),
                is_k: *is_k,
                is_unsafe: *is_unsafe,
            },
        }
    }
}

/// The word `Display` puts before a declaration.
pub open spec fn kind_word(c: ConstantInfo) -> Seq<char> {
    match c {
        ConstantInfo::Axiom { .. } => "axiom"@,
        ConstantInfo::Definition { .. } => "def"@,
        ConstantInfo::Theorem { .. } => "theorem"@,
        ConstantInfo::Opaque { .. } => "opaque"@,
        ConstantInfo::Quot { .. } => "quot"@,
        ConstantInfo::Inductive { .. } => "inductive"@,
        ConstantInfo::Constructor { .. } => "ctor"@,
        ConstantInfo::Recursor { .. } => "rec"@,
    }
}

impl ConstantInfo {
    /// The name of the declaration.
    pub open spec fn spec_name(self) -> Seq<Limb> {
        match self {
            ConstantInfo::Axiom { name, .. } => name@,
            ConstantInfo::Definition { name, .. } => name@,
            ConstantInfo::Theorem { name, .. } => name@,
            ConstantInfo::Opaque { name, .. } => name@,
            ConstantInfo::Quot { name, .. } => name@,
            ConstantInfo::Inductive { name, .. } => name@,
            ConstantInfo::Constructor { name, .. } => name@,
            ConstantInfo::Recursor { name, .. } => name@,
        }
    }

    /// The type of the declaration.
    pub open spec fn spec_type(self) -> ExprV {
        match self {
            ConstantInfo::Axiom { type_, .. } => type_@,
            ConstantInfo::Definition { type_, .. } => type_@,
            ConstantInfo::Theorem { type_, .. } => type_@,
            ConstantInfo::Opaque { type_, .. } => type_@,
            ConstantInfo::Quot { type_, .. } => type_@,
            ConstantInfo::Inductive { type_, .. } => type_@,
            ConstantInfo::Constructor { type_, .. } => type_@,
            ConstantInfo::Recursor { type_, .. } => type_@,
        }
    }

    /// The universe parameters of the declaration.
    pub open spec fn spec_level_params(self) -> Seq<Seq<Limb>> {
        match self {
            ConstantInfo::Axiom { level_params, .. } => level_params@.map_values(|p: Name| p@),
            ConstantInfo::Definition { level_params, .. } => level_params@.map_values(|p: Name| p@),
            ConstantInfo::Theorem { level_params, .. } => level_params@.map_values(|p: Name| p@),
            ConstantInfo::Opaque { level_params, .. } => level_params@.map_values(|p: Name| p@),
            ConstantInfo::Quot { level_params, .. } => level_params@.map_values(|p: Name| p@),
            ConstantInfo::Inductive { level_params, .. } => level_params@.map_values(|p: Name| p@),
            ConstantInfo::Constructor { level_params, .. } => level_params@.map_values(|p: Name| p@),
            ConstantInfo::Recursor { level_params, .. } => level_params@.map_values(|p: Name| p@),
        }
    }

    pub fn name(&self) -> (r: &Name)
        ensures
            r@ == self.spec_name(),
    {
        match self {
            ConstantInfo::Axiom { name, .. } => name,
            ConstantInfo::Definition { name, .. } => name,
            ConstantInfo::Theorem { name, .. } => name,
            ConstantInfo::Opaque { name, .. } => name,
            ConstantInfo::Quot { name, .. } => name,
            ConstantInfo::Inductive { name, .. } => name,
            ConstantInfo::Constructor { name, .. } => name,
            ConstantInfo::Recursor { name, .. } => name,
        }
    }

    pub fn level_params(&self) -> (r: &[Name])
        ensures
            r@.map_values(|p: Name| p@) == self.spec_level_params(),
    {
        match self {
            ConstantInfo::Axiom { level_params, .. } => level_params.as_slice(),
            ConstantInfo::Definition { level_params, .. } => level_params.as_slice(),
            ConstantInfo::Theorem { level_params, .. } => level_params.as_slice(),
            ConstantInfo::Opaque { level_params, .. } => level_params.as_slice(),
            ConstantInfo::Quot { level_params, .. } => level_params.as_slice(),
            ConstantInfo::Inductive { level_params, .. } => level_params.as_slice(),
            ConstantInfo::Constructor { level_params, .. } => level_params.as_slice(),
            ConstantInfo::Recursor { level_params, .. } => level_params.as_slice(),
        }
    }

    pub fn type_(&self) -> (r: &Expr)
        ensures
            r@ == self.spec_type(),
    {
        match self {
            ConstantInfo::Axiom { type_, .. } => type_,
            ConstantInfo::Definition { type_, .. } => type_,
            ConstantInfo::Theorem { type_, .. } => type_,
            ConstantInfo::Opaque { type_, .. } => type_,
            ConstantInfo::Quot { type_, .. } => type_,
            ConstantInfo::Inductive { type_, .. } => type_,
            ConstantInfo::Constructor { type_, .. } => type_,
            ConstantInfo::Recursor { type_, .. } => type_,
        }
    }

    /// The value of a definition, theorem or opaque constant.
    pub fn value(&self) -> (r: Option<&Expr>)
        ensures
            r is Some <==> (*self is Definition || *self is Theorem || *self is Opaque),
            r matches Some(v) ==> (*self matches ConstantInfo::Definition { value, .. } && value
                == *v) || (*self matches ConstantInfo::Theorem { value, .. } && value == *v) || (
            *self matches ConstantInfo::Opaque { value, .. } && value == *v),
    {
        match self {
            ConstantInfo::Definition { value, .. } => Some(value),
            ConstantInfo::Theorem { value, .. } => Some(value),
            ConstantInfo::Opaque { value, .. } => Some(value),
            _ => None,
        }
    }

    pub fn is_definition(&self) -> (b: bool)
        ensures
            b == (*self is Definition),
    {
        match self {
            ConstantInfo::Definition { .. } => true,
            _ => false,
        }
    }

    pub fn is_axiom(&self) -> (b: bool)
        ensures
            b == (*self is Axiom),
    {
        match self {
            ConstantInfo::Axiom { .. } => true,
            _ => false,
        }
    }

    pub fn is_theorem(&self) -> (b: bool)
        ensures
            b == (*self is Theorem),
    {
        match self {
            ConstantInfo::Theorem { .. } => true,
            _ => false,
        }
    }

    pub fn is_opaque(&self) -> (b: bool)
        ensures
            b == (*self is Opaque),
    {
        match self {
            ConstantInfo::Opaque { .. } => true,
            _ => false,
        }
    }

    pub fn is_quot(&self) -> (b: bool)
        ensures
            b == (*self is Quot),
    {
        match self {
            ConstantInfo::Quot { .. } => true,
            _ => false,
        }
    }

    pub fn is_inductive(&self) -> (b: bool)
        ensures
            b == (*self is Inductive),
    {
        match self {
            ConstantInfo::Inductive { .. } => true,
            _ => false,
        }
    }

    pub fn is_constructor(&self) -> (b: bool)
        ensures
            b == (*self is Constructor),
    {
        match self {
            ConstantInfo::Constructor { .. } => true,
            _ => false,
        }
    }

    pub fn is_recursor(&self) -> (b: bool)
        ensures
            b == (*self is Recursor),
    {
        match self {
            ConstantInfo::Recursor { .. } => true,
            _ => false,
        }
    }

    /// Whether the declaration is unsafe (definitions: by their safety).
    pub fn is_unsafe(&self) -> (b: bool)
        ensures
            b == (match *self {
                ConstantInfo::Axiom { is_unsafe, .. } => is_unsafe,
                ConstantInfo::Definition { safety, .. } => safety == DefinitionSafety::Unsafe,
                ConstantInfo::Opaque { is_unsafe, .. } => is_unsafe,
                ConstantInfo::Inductive { is_unsafe, .. } => is_unsafe,
                ConstantInfo::Constructor { is_unsafe, .. } => is_unsafe,
                ConstantInfo::Recursor { is_unsafe, .. } => is_unsafe,
                _ => false,
            }),
    {
        match self {
            ConstantInfo::Axiom { is_unsafe, .. } => *is_unsafe,
            ConstantInfo::Definition { safety, .. } => *safety == DefinitionSafety::Unsafe,
            ConstantInfo::Opaque { is_unsafe, .. } => *is_unsafe,
            ConstantInfo::Inductive { is_unsafe, .. } => *is_unsafe,
            ConstantInfo::Constructor { is_unsafe, .. } => *is_unsafe,
            ConstantInfo::Recursor { is_unsafe, .. } => *is_unsafe,
            _ => false,
        }
    }

    /// The reducibility hints of a definition.
    pub fn hints(&self) -> (r: Option<&ReducibilityHints>)
        ensures
            r is Some <==> *self is Definition,
            r matches Some(h) ==> (*self matches ConstantInfo::Definition { hints, .. } && hints
                == *h),
    {
        match self {
            ConstantInfo::Definition { hints, .. } => Some(hints),
            _ => None,
        }
    }

    /// The text `Display` gives the declaration: `kind name : type`.
    pub fn to_string(&self) -> (r: String)
        requires
            display_ok(self.spec_type()),
        ensures
            r@ == kind_word(*self) + " "@ + name_text(self.spec_name()) + " : "@ + expr_text(
                self.spec_type(),
            ),
    {
        let mut out: Vec<char> = Vec::new();
        match self {
            ConstantInfo::Axiom { .. } => push_text(&mut out, "axiom"),
            ConstantInfo::Definition { .. } => push_text(&mut out, "def"),
            ConstantInfo::Theorem { .. } => push_text(&mut out, "theorem"),
            ConstantInfo::Opaque { .. } => push_text(&mut out, "opaque"),
            ConstantInfo::Quot { .. } => push_text(&mut out, "quot"),
            ConstantInfo::Inductive { .. } => push_text(&mut out, "inductive"),
            ConstantInfo::Constructor { .. } => push_text(&mut out, "ctor"),
            ConstantInfo::Recursor { .. } => push_text(&mut out, "rec"),
        }
        push_text(&mut out, " ");
        let n = self.name().to_string();
        let nc = chars_of(n.as_str());
        push_all(&mut out, nc.as_slice());
        push_text(&mut out, " : ");
        let t = self.type_().to_string();
        let tc = chars_of(t.as_str());
        push_all(&mut out, tc.as_slice());
        string_from_chars(out.as_slice())
    }
}

/// An inductive type of an inductive declaration.
#[derive(Clone, Debug)]
pub struct InductiveType {
    pub name: Name,
    pub type_: Expr,
    pub ctors: Vec<ConstructorDecl>,
}

/// A constructor of an inductive type.
#[derive(Clone, Debug)]
pub struct ConstructorDecl {
    pub name: Name,
    pub type_: Expr,
}

/// A declaration as submitted to the kernel.
#[derive(Clone, Debug)]
pub enum Declaration {
    Axiom { name: Name, level_params: Vec<Name>, type_: Expr, is_unsafe: bool },
    Definition {
        name: Name,
        level_params: Vec<Name>,
        type_: Expr,
        value: Expr,
        hints: ReducibilityHints,
        safety: DefinitionSafety,
    },
    Theorem { name: Name, level_params: Vec<Name>, type_: Expr, value: Expr },
    Opaque { name: Name, level_params: Vec<Name>, type_: Expr, value: Expr, is_unsafe: bool },
    Quot,
    InductiveDecl {
        level_params: Vec<Name>,
        num_params: u32,
        types: Vec<InductiveType>,
        is_unsafe: bool,
    },
}

} // verus!
