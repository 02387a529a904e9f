//! The kinds of interior syntax-tree nodes.
use vstd::prelude::*;

verus! {

/// Kind of an interior syntax node.
#[derive(Debug, Clone, Copy, PartialEq, Eq, Structural, Hash)]
pub enum SyntaxNodeKind {
    Module,
    Header,
    ImportDecl,
    Command,
    Declaration,
    DeclModifiers,
    DeclId,
    DeclSig,
    OptDeclSig,
    DeclVal,
    DeclValSimple,
    DeclValEqns,
    WhereStructInst,
    Definition,
    Theorem,
    Abbrev,
    Opaque,
    Instance,
    Example,
    Axiom,
    Structure,
    StructCtor,
    StructField,
    StructFields,
    StructExplicitBinder,
    Extends,
    ClassDecl,
    Inductive,
    Ctor,
    OptDeriving,
    Deriving,
    Namespace,
    Section,
    End,
    Mutual,
    Variable,
    Universe,
    OpenDecl,
    OpenSimple,
    OpenOnly,
    OpenHiding,
    OpenRenaming,
    SetOption,
    Attribute,
    AttributeList,
    AttrInstance,
    Export,
    HashCommand,
    Check,
    Eval,
    Print,
    Reduce,
    Synth,
    ModuleDoc,
    DocComment,
    Init,
    Initialize,
    Private,
    Protected,
    Noncomputable,
    Unsafe,
    Partial,
    Nonrec,
    App,
    Fun,
    FunBinder,
    BasicFun,
    MatchAlts,
    MatchAlt,
    Forall,
    DepArrow,
    Let,
    LetDecl,
    LetIdDecl,
    LetPatDecl,
    LetEqnsDecl,
    LetRec,
    Have,
    HaveDecl,
    HaveIdDecl,
    LetFun,
    Match,
    MatchDiscr,
    NoMatch,
    NoFun,
    If,
    IfThenElse,
    Do,
    DoSeq,
    DoSeqItem,
    DoLet,
    DoLetRec,
    DoLetElse,
    DoReassign,
    DoExpr,
    DoReturn,
    DoFor,
    DoUnless,
    ByTactic,
    TacticSeq,
    Tactic,
    TacticSemicolon,
    Show,
    Suffices,
    TypeAscription,
    Tuple,
    Paren,
    AnonymousCtor,
    StructInst,
    StructInstField,
    StructInstFieldAbbrev,
    Explicit,
    Inaccessible,
    NamedArgument,
    Ellipsis,
    Argument,
    CDot,
    Hole,
    Sorry,
    Absurd,
    Ident,
    Num,
    Scientific,
    Str,
    Char,
    NameLit,
    Sort,
    Type,
    Prop,
    Arrow,
    BinOp,
    UnaryOp,
    PrefixOp,
    Projection,
    DotNotation,
    WhereDecls,
    FunImplicitBinder,
    FunStrictImplicitBinder,
    FunInstBinder,
    ExplicitBinder,
    ImplicitBinder,
    StrictImplicitBinder,
    InstBinder,
    TerminationBy,
    DecreasingBy,
    LevelExpr,
    Token,
    Missing,
    Null,
    Group,
    Sep,
    Semicolon,
}

/// The display name of a kind: its variant name with the first letter in lower case.
pub open spec fn kind_display_name(k: SyntaxNodeKind) -> Seq<char> {
    match k {
        SyntaxNodeKind::Module => "module"@,
        SyntaxNodeKind::Header => "header"@,
        SyntaxNodeKind::ImportDecl => "importDecl"@,
        SyntaxNodeKind::Command => "command"@,
        SyntaxNodeKind::Declaration => "declaration"@,
        SyntaxNodeKind::DeclModifiers => "declModifiers"@,
        SyntaxNodeKind::DeclId => "declId"@,
        SyntaxNodeKind::DeclSig => "declSig"@,
        SyntaxNodeKind::OptDeclSig => "optDeclSig"@,
        SyntaxNodeKind::DeclVal => "declVal"@,
        SyntaxNodeKind::DeclValSimple => "declValSimple"@,
        SyntaxNodeKind::DeclValEqns => "declValEqns"@,
        SyntaxNodeKind::WhereStructInst => "whereStructInst"@,
        SyntaxNodeKind::Definition => "definition"@,
        SyntaxNodeKind::Theorem => "theorem"@,
        SyntaxNodeKind::Abbrev => "abbrev"@,
        SyntaxNodeKind::Opaque => "opaque"@,
        SyntaxNodeKind::Instance => "instance"@,
        SyntaxNodeKind::Example => "example"@,
        SyntaxNodeKind::Axiom => "axiom"@,
        SyntaxNodeKind::Structure => "structure"@,
        SyntaxNodeKind::StructCtor => "structCtor"@,
        SyntaxNodeKind::StructField => "structField"@,
        SyntaxNodeKind::StructFields => "structFields"@,
        SyntaxNodeKind::StructExplicitBinder => "structExplicitBinder"@,
        SyntaxNodeKind::Extends => "extends"@,
        SyntaxNodeKind::ClassDecl => "classDecl"@,
        SyntaxNodeKind::Inductive => "inductive"@,
        SyntaxNodeKind::Ctor => "ctor"@,
        SyntaxNodeKind::OptDeriving => "optDeriving"@,
        SyntaxNodeKind::Deriving => "deriving"@,
        SyntaxNodeKind::Namespace => "namespace"@,
        SyntaxNodeKind::Section => "section"@,
        SyntaxNodeKind::End => "end"@,
        SyntaxNodeKind::Mutual => "mutual"@,
        SyntaxNodeKind::Variable => "variable"@,
        SyntaxNodeKind::Universe => "universe"@,
        SyntaxNodeKind::OpenDecl => "openDecl"@,
        SyntaxNodeKind::OpenSimple => "openSimple"@,
        SyntaxNodeKind::OpenOnly => "openOnly"@,
        SyntaxNodeKind::OpenHiding => "openHiding"@,
        SyntaxNodeKind::OpenRenaming => "openRenaming"@,
        SyntaxNodeKind::SetOption => "setOption"@,
        SyntaxNodeKind::Attribute => "attribute"@,
        SyntaxNodeKind::AttributeList => "attributeList"@,
        SyntaxNodeKind::AttrInstance => "attrInstance"@,
        SyntaxNodeKind::Export => "export"@,
        SyntaxNodeKind::HashCommand => "hashCommand"@,
        SyntaxNodeKind::Check => "check"@,
        SyntaxNodeKind::Eval => "eval"@,
        SyntaxNodeKind::Print => "print"@,
        SyntaxNodeKind::Reduce => "reduce"@,
        SyntaxNodeKind::Synth => "synth"@,
        SyntaxNodeKind::ModuleDoc => "moduleDoc"@,
        SyntaxNodeKind::DocComment => "docComment"@,
        SyntaxNodeKind::Init => "init"@,
        SyntaxNodeKind::Initialize => "initialize"@,
        SyntaxNodeKind::Private => "private"@,
        SyntaxNodeKind::Protected => "protected"@,
        SyntaxNodeKind::Noncomputable => "noncomputable"@,
        SyntaxNodeKind::Unsafe => "unsafe"@,
        SyntaxNodeKind::Partial => "partial"@,
        SyntaxNodeKind::Nonrec => "nonrec"@,
        SyntaxNodeKind::App => "app"@,
        SyntaxNodeKind::Fun => "fun"@,
        SyntaxNodeKind::FunBinder => "funBinder"@,
        SyntaxNodeKind::BasicFun => "basicFun"@,
        SyntaxNodeKind::MatchAlts => "matchAlts"@,
        SyntaxNodeKind::MatchAlt => "matchAlt"@,
        SyntaxNodeKind::Forall => "forall"@,
        SyntaxNodeKind::DepArrow => "depArrow"@,
        SyntaxNodeKind::Let => "let"@,
        SyntaxNodeKind::LetDecl => "letDecl"@,
        SyntaxNodeKind::LetIdDecl => "letIdDecl"@,
        SyntaxNodeKind::LetPatDecl => "letPatDecl"@,
        SyntaxNodeKind::LetEqnsDecl => "letEqnsDecl"@,
        SyntaxNodeKind::LetRec => "letRec"@,
        SyntaxNodeKind::Have => "have"@,
        SyntaxNodeKind::HaveDecl => "haveDecl"@,
        SyntaxNodeKind::HaveIdDecl => "haveIdDecl"@,
        SyntaxNodeKind::LetFun => "letFun"@,
        SyntaxNodeKind::Match => "match"@,
        SyntaxNodeKind::MatchDiscr => "matchDiscr"@,
        SyntaxNodeKind::NoMatch => "noMatch"@,
        SyntaxNodeKind::NoFun => "noFun"@,
        SyntaxNodeKind::If => "if"@,
        SyntaxNodeKind::IfThenElse => "ifThenElse"@,
        SyntaxNodeKind::Do => "do"@,
        SyntaxNodeKind::DoSeq => "doSeq"@,
        SyntaxNodeKind::DoSeqItem => "doSeqItem"@,
        SyntaxNodeKind::DoLet => "doLet"@,
        SyntaxNodeKind::DoLetRec => "doLetRec"@,
        SyntaxNodeKind::DoLetElse => "doLetElse"@,
        SyntaxNodeKind::DoReassign => "doReassign"@,
        SyntaxNodeKind::DoExpr => "doExpr"@,
        SyntaxNodeKind::DoReturn => "doReturn"@,
        SyntaxNodeKind::DoFor => "doFor"@,
        SyntaxNodeKind::DoUnless => "doUnless"@,
        SyntaxNodeKind::ByTactic => "byTactic"@,
        SyntaxNodeKind::TacticSeq => "tacticSeq"@,
        SyntaxNodeKind::Tactic => "tactic"@,
        SyntaxNodeKind::TacticSemicolon => "tacticSemicolon"@,
        SyntaxNodeKind::Show => "show"@,
        SyntaxNodeKind::Suffices => "suffices"@,
        SyntaxNodeKind::TypeAscription => "typeAscription"@,
        SyntaxNodeKind::Tuple => "tuple"@,
        SyntaxNodeKind::Paren => "paren"@,
        SyntaxNodeKind::AnonymousCtor => "anonymousCtor"@,
        SyntaxNodeKind::StructInst => "structInst"@,
        SyntaxNodeKind::StructInstField => "structInstField"@,
        SyntaxNodeKind::StructInstFieldAbbrev => "structInstFieldAbbrev"@,
        SyntaxNodeKind::Explicit => "explicit"@,
        SyntaxNodeKind::Inaccessible => "inaccessible"@,
        SyntaxNodeKind::NamedArgument => "namedArgument"@,
        SyntaxNodeKind::Ellipsis => "ellipsis"@,
        SyntaxNodeKind::Argument => "argument"@,
        SyntaxNodeKind::CDot => "cDot"@,
        SyntaxNodeKind::Hole => "hole"@,
        SyntaxNodeKind::Sorry => "sorry"@,
        SyntaxNodeKind::Absurd => "absurd"@,
        SyntaxNodeKind::Ident => "ident"@,
        SyntaxNodeKind::Num => "num"@,
        SyntaxNodeKind::Scientific => "scientific"@,
        SyntaxNodeKind::Str => "str"@,
        SyntaxNodeKind::Char => "char"@,
        SyntaxNodeKind::NameLit => "nameLit"@,
        SyntaxNodeKind::Sort => "sort"@,
        SyntaxNodeKind::Type => "type"@,
        SyntaxNodeKind::Prop => "prop"@,
        SyntaxNodeKind::Arrow => "arrow"@,
        SyntaxNodeKind::BinOp => "binOp"@,
        SyntaxNodeKind::UnaryOp => "unaryOp"@,
        SyntaxNodeKind::PrefixOp => "prefixOp"@,
        SyntaxNodeKind::Projection => "projection"@,
        SyntaxNodeKind::DotNotation => "dotNotation"@,
        SyntaxNodeKind::WhereDecls => "whereDecls"@,
        SyntaxNodeKind::FunImplicitBinder => "funImplicitBinder"@,
        SyntaxNodeKind::FunStrictImplicitBinder => "funStrictImplicitBinder"@,
        SyntaxNodeKind::FunInstBinder => "funInstBinder"@,
        SyntaxNodeKind::ExplicitBinder => "explicitBinder"@,
        SyntaxNodeKind::ImplicitBinder => "implicitBinder"@,
        SyntaxNodeKind::StrictImplicitBinder => "strictImplicitBinder"@,
        SyntaxNodeKind::InstBinder => "instBinder"@,
        SyntaxNodeKind::TerminationBy => "terminationBy"@,
        SyntaxNodeKind::DecreasingBy => "decreasingBy"@,
        SyntaxNodeKind::LevelExpr => "levelExpr"@,
        SyntaxNodeKind::Token => "token"@,
        SyntaxNodeKind::Missing => "missing"@,
        SyntaxNodeKind::Null => "null"@,
        SyntaxNodeKind::Group => "group"@,
        SyntaxNodeKind::Sep => "sep"@,
        SyntaxNodeKind::Semicolon => "semicolon"@,
    }
}

impl SyntaxNodeKind {
    /// The display name (lower camel case), as `Display` prints it.
    pub fn display_name(&self) -> (r: &'static str)
        ensures
            r@ == kind_display_name(*self),
    {
        match self {
            SyntaxNodeKind::Module => "module",
            SyntaxNodeKind::Header => "header",
            SyntaxNodeKind::ImportDecl => "importDecl",
            SyntaxNodeKind::Command => "command",
            SyntaxNodeKind::Declaration => "declaration",
            SyntaxNodeKind::DeclModifiers => "declModifiers",
            SyntaxNodeKind::DeclId => "declId",
            SyntaxNodeKind::DeclSig => "declSig",
            SyntaxNodeKind::OptDeclSig => "optDeclSig",
            SyntaxNodeKind::DeclVal => "declVal",
            SyntaxNodeKind::DeclValSimple => "declValSimple",
            SyntaxNodeKind::DeclValEqns => "declValEqns",
            SyntaxNodeKind::WhereStructInst => "whereStructInst",
            SyntaxNodeKind::Definition => "definition",
            SyntaxNodeKind::Theorem => "theorem",
            SyntaxNodeKind::Abbrev => "abbrev",
            SyntaxNodeKind::Opaque => "opaque",
            SyntaxNodeKind::Instance => "instance",
            SyntaxNodeKind::Example => "example",
            SyntaxNodeKind::Axiom => "axiom",
            SyntaxNodeKind::Structure => "structure",
            SyntaxNodeKind::StructCtor => "structCtor",
            SyntaxNodeKind::StructField => "structField",
            SyntaxNodeKind::StructFields => "structFields",
            SyntaxNodeKind::StructExplicitBinder => "structExplicitBinder",
            SyntaxNodeKind::Extends => "extends",
            SyntaxNodeKind::ClassDecl => "classDecl",
            SyntaxNodeKind::Inductive => "inductive",
            SyntaxNodeKind::Ctor => "ctor",
            SyntaxNodeKind::OptDeriving => "optDeriving",
            SyntaxNodeKind::Deriving => "deriving",
            SyntaxNodeKind::Namespace => "namespace",
            SyntaxNodeKind::Section => "section",
            SyntaxNodeKind::End => "end",
            SyntaxNodeKind::Mutual => "mutual",
            SyntaxNodeKind::Variable => "variable",
            SyntaxNodeKind::Universe => "universe",
            SyntaxNodeKind::OpenDecl => "openDecl",
            SyntaxNodeKind::OpenSimple => "openSimple",
            SyntaxNodeKind::OpenOnly => "openOnly",
            SyntaxNodeKind::OpenHiding => "openHiding",
            SyntaxNodeKind::OpenRenaming => "openRenaming",
            SyntaxNodeKind::SetOption => "setOption",
            SyntaxNodeKind::Attribute => "attribute",
            SyntaxNodeKind::AttributeList => "attributeList",
            SyntaxNodeKind::AttrInstance => "attrInstance",
            SyntaxNodeKind::Export => "export",
            SyntaxNodeKind::HashCommand => "hashCommand",
            SyntaxNodeKind::Check => "check",
            SyntaxNodeKind::Eval => "eval",
            SyntaxNodeKind::Print => "print",
            SyntaxNodeKind::Reduce => "reduce",
            SyntaxNodeKind::Synth => "synth",
            SyntaxNodeKind::ModuleDoc => "moduleDoc",
            SyntaxNodeKind::DocComment => "docComment",
            SyntaxNodeKind::Init => "init",
            SyntaxNodeKind::Initialize => "initialize",
            SyntaxNodeKind::Private => "private",
            SyntaxNodeKind::Protected => "protected",
            SyntaxNodeKind::Noncomputable => "noncomputable",
            SyntaxNodeKind::Unsafe => "unsafe",
            SyntaxNodeKind::Partial => "partial",
            SyntaxNodeKind::Nonrec => "nonrec",
            SyntaxNodeKind::App => "app",
            SyntaxNodeKind::Fun => "fun",
            SyntaxNodeKind::FunBinder => "funBinder",
            SyntaxNodeKind::BasicFun => "basicFun",
            SyntaxNodeKind::MatchAlts => "matchAlts",
            SyntaxNodeKind::MatchAlt => "matchAlt",
            SyntaxNodeKind::Forall => "forall",
            SyntaxNodeKind::DepArrow => "depArrow",
            SyntaxNodeKind::Let => "let",
            SyntaxNodeKind::LetDecl => "letDecl",
            SyntaxNodeKind::LetIdDecl => "letIdDecl",
            SyntaxNodeKind::LetPatDecl => "letPatDecl",
            SyntaxNodeKind::LetEqnsDecl => "letEqnsDecl",
            SyntaxNodeKind::LetRec => "letRec",
            SyntaxNodeKind::Have => "have",
            SyntaxNodeKind::HaveDecl => "haveDecl",
            SyntaxNodeKind::HaveIdDecl => "haveIdDecl",
            SyntaxNodeKind::LetFun => "letFun",
            SyntaxNodeKind::Match => "match",
            SyntaxNodeKind::MatchDiscr => "matchDiscr",
            SyntaxNodeKind::NoMatch => "noMatch",
            SyntaxNodeKind::NoFun => "noFun",
            SyntaxNodeKind::If => "if",
            SyntaxNodeKind::IfThenElse => "ifThenElse",
            SyntaxNodeKind::Do => "do",
            SyntaxNodeKind::DoSeq => "doSeq",
            SyntaxNodeKind::DoSeqItem => "doSeqItem",
            SyntaxNodeKind::DoLet => "doLet",
            SyntaxNodeKind::DoLetRec => "doLetRec",
            SyntaxNodeKind::DoLetElse => "doLetElse",
            SyntaxNodeKind::DoReassign => "doReassign",
            SyntaxNodeKind::DoExpr => "doExpr",
            SyntaxNodeKind::DoReturn => "doReturn",
            SyntaxNodeKind::DoFor => "doFor",
            SyntaxNodeKind::DoUnless => "doUnless",
            SyntaxNodeKind::ByTactic => "byTactic",
            SyntaxNodeKind::TacticSeq => "tacticSeq",
            SyntaxNodeKind::Tactic => "tactic",
            SyntaxNodeKind::TacticSemicolon => "tacticSemicolon",
            SyntaxNodeKind::Show => "show",
            SyntaxNodeKind::Suffices => "suffices",
            SyntaxNodeKind::TypeAscription => "typeAscription",
            SyntaxNodeKind::Tuple => "tuple",
            SyntaxNodeKind::Paren => "paren",
            SyntaxNodeKind::AnonymousCtor => "anonymousCtor",
            SyntaxNodeKind::StructInst => "structInst",
            SyntaxNodeKind::StructInstField => "structInstField",
            SyntaxNodeKind::StructInstFieldAbbrev => "structInstFieldAbbrev",
            SyntaxNodeKind::Explicit => "explicit",
            SyntaxNodeKind::Inaccessible => "inaccessible",
            SyntaxNodeKind::NamedArgument => "namedArgument",
            SyntaxNodeKind::Ellipsis => "ellipsis",
            SyntaxNodeKind::Argument => "argument",
            SyntaxNodeKind::CDot => "cDot",
            SyntaxNodeKind::Hole => "hole",
            SyntaxNodeKind::Sorry => "sorry",
            SyntaxNodeKind::Absurd => "absurd",
            SyntaxNodeKind::Ident => "ident",
            SyntaxNodeKind::Num => "num",
            SyntaxNodeKind::Scientific => "scientific",
            SyntaxNodeKind::Str => "str",
            SyntaxNodeKind::Char => "char",
            SyntaxNodeKind::NameLit => "nameLit",
            SyntaxNodeKind::Sort => "sort",
            SyntaxNodeKind::Type => "type",
            SyntaxNodeKind::Prop => "prop",
            SyntaxNodeKind::Arrow => "arrow",
            SyntaxNodeKind::BinOp => "binOp",
            SyntaxNodeKind::UnaryOp => "unaryOp",
            SyntaxNodeKind::PrefixOp => "prefixOp",
            SyntaxNodeKind::Projection => "projection",
            SyntaxNodeKind::DotNotation => "dotNotation",
            SyntaxNodeKind::WhereDecls => "whereDecls",
            SyntaxNodeKind::FunImplicitBinder => "funImplicitBinder",
            SyntaxNodeKind::FunStrictImplicitBinder => "funStrictImplicitBinder",
            SyntaxNodeKind::FunInstBinder => "funInstBinder",
            SyntaxNodeKind::ExplicitBinder => "explicitBinder",
            SyntaxNodeKind::ImplicitBinder => "implicitBinder",
            SyntaxNodeKind::StrictImplicitBinder => "strictImplicitBinder",
            SyntaxNodeKind::InstBinder => "instBinder",
            SyntaxNodeKind::TerminationBy => "terminationBy",
            SyntaxNodeKind::DecreasingBy => "decreasingBy",
            SyntaxNodeKind::LevelExpr => "levelExpr",
            SyntaxNodeKind::Token => "token",
            SyntaxNodeKind::Missing => "missing",
            SyntaxNodeKind::Null => "null",
            SyntaxNodeKind::Group => "group",
            SyntaxNodeKind::Sep => "sep",
            SyntaxNodeKind::Semicolon => "semicolon",
        }
    }

    /// The display name as an owned string.
    pub fn to_string(&self) -> (r: String)
        ensures
            r@ == kind_display_name(*self),
    {
        self.display_name().to_owned()
    }
}

} // verus!
