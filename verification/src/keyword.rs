//! Reserved words of the surface syntax.
use vstd::prelude::*;

use crate::text::str_eq;

verus! {

/// A reserved word (including the `#`-commands).
#[derive(Debug, Clone, Copy, PartialEq, Eq, Structural, Hash)]
pub enum Keyword {
    Def,
    Theorem,
    Lemma,
    Abbrev,
    Opaque,
    Instance,
    Example,
    Axiom,
    Structure,
    Class,
    Inductive,
    Namespace,
    Module,
    Prelude,
    Section,
    End,
    Mutual,
    Open,
    Export,
    Variable,
    Universe,
    SetOption,
    Attribute,
    Initialize,
    BuiltinInitialize,
    Notation,
    Prefix,
    Infix,
    Infixl,
    Infixr,
    Postfix,
    Macro,
    Syntax,
    Elab,
    Check,
    Eval,
    Print,
    Reduce,
    Synth,
    Exit,
    Import,
    Private,
    Protected,
    Noncomputable,
    Unsafe,
    Partial,
    Nonrec,
    In,
    True,
    False,
    Where,
    Deriving,
    Extends,
    Let,
    Do,
    With,
    Type,
    Sort,
    Prop,
    Sorry,
    Return,
    Match,
    If,
    Then,
    Else,
    By,
    Fun,
    Forall,
    For,
    Have,
    Show,
    Suffices,
    Assume,
    Unless,
    Pure,
    Nomatch,
    Nofun,
}

/// The text of a keyword.
pub open spec fn keyword_text(k: Keyword) -> Seq<char> {
    match k {
        Keyword::Def => "def"@,
        Keyword::Theorem => "theorem"@,
        Keyword::Lemma => "lemma"@,
        Keyword::Abbrev => "abbrev"@,
        Keyword::Opaque => "opaque"@,
        Keyword::Instance => "instance"@,
        Keyword::Example => "example"@,
        Keyword::Axiom => "axiom"@,
        Keyword::Structure => "structure"@,
        Keyword::Class => "class"@,
        Keyword::Inductive => "inductive"@,
        Keyword::Namespace => "namespace"@,
        Keyword::Module => "module"@,
        Keyword::Prelude => "prelude"@,
        Keyword::Section => "section"@,
        Keyword::End => "end"@,
        Keyword::Mutual => "mutual"@,
        Keyword::Open => "open"@,
        Keyword::Export => "export"@,
        Keyword::Variable => "variable"@,
        Keyword::Universe => "universe"@,
        Keyword::SetOption => "set_option"@,
        Keyword::Attribute => "attribute"@,
        Keyword::Initialize => "initialize"@,
        Keyword::BuiltinInitialize => "builtin_initialize"@,
        Keyword::Notation => "notation"@,
        Keyword::Prefix => "prefix"@,
        Keyword::Infix => "infix"@,
        Keyword::Infixl => "infixl"@,
        Keyword::Infixr => "infixr"@,
        Keyword::Postfix => "postfix"@,
        Keyword::Macro => "macro"@,
        Keyword::Syntax => "syntax"@,
        Keyword::Elab => "elab"@,
        Keyword::Check => "#check"@,
        Keyword::Eval => "#eval"@,
        Keyword::Print => "#print"@,
        Keyword::Reduce => "#reduce"@,
        Keyword::Synth => "#synth"@,
        Keyword::Exit => "#exit"@,
        Keyword::Import => "import"@,
        Keyword::Private => "private"@,
        Keyword::Protected => "protected"@,
        Keyword::Noncomputable => "noncomputable"@,
        Keyword::Unsafe => "unsafe"@,
        Keyword::Partial => "partial"@,
        Keyword::Nonrec => "nonrec"@,
        Keyword::In => "in"@,
        Keyword::True => "true"@,
        Keyword::False => "false"@,
        Keyword::Where => "where"@,
        Keyword::Deriving => "deriving"@,
        Keyword::Extends => "extends"@,
        Keyword::Let => "let"@,
        Keyword::Do => "do"@,
        Keyword::With => "with"@,
        Keyword::Type => "Type"@,
        Keyword::Sort => "Sort"@,
        Keyword::Prop => "Prop"@,
        Keyword::Sorry => "sorry"@,
        Keyword::Return => "return"@,
        Keyword::Match => "match"@,
        Keyword::If => "if"@,
        Keyword::Then => "then"@,
        Keyword::Else => "else"@,
        Keyword::By => "by"@,
        Keyword::Fun => "fun"@,
        Keyword::Forall => "forall"@,
        Keyword::For => "for"@,
        Keyword::Have => "have"@,
        Keyword::Show => "show"@,
        Keyword::Suffices => "suffices"@,
        Keyword::Assume => "assume"@,
        Keyword::Unless => "unless"@,
        Keyword::Pure => "pure"@,
        Keyword::Nomatch => "nomatch"@,
        Keyword::Nofun => "nofun"@,
    }
}

/// Number of keywords.
pub const KEYWORD_COUNT: usize = 77usize;

/// Position of a keyword in the keyword table.
pub open spec fn keyword_index(k: Keyword) -> usize {
    match k {
        Keyword::Def => 0,
        Keyword::Theorem => 1,
        Keyword::Lemma => 2,
        Keyword::Abbrev => 3,
        Keyword::Opaque => 4,
        Keyword::Instance => 5,
        Keyword::Example => 6,
        Keyword::Axiom => 7,
        Keyword::Structure => 8,
        Keyword::Class => 9,
        Keyword::Inductive => 10,
        Keyword::Namespace => 11,
        Keyword::Module => 12,
        Keyword::Prelude => 13,
        Keyword::Section => 14,
        Keyword::End => 15,
        Keyword::Mutual => 16,
        Keyword::Open => 17,
        Keyword::Export => 18,
        Keyword::Variable => 19,
        Keyword::Universe => 20,
        Keyword::SetOption => 21,
        Keyword::Attribute => 22,
        Keyword::Initialize => 23,
        Keyword::BuiltinInitialize => 24,
        Keyword::Notation => 25,
        Keyword::Prefix => 26,
        Keyword::Infix => 27,
        Keyword::Infixl => 28,
        Keyword::Infixr => 29,
        Keyword::Postfix => 30,
        Keyword::Macro => 31,
        Keyword::Syntax => 32,
        Keyword::Elab => 33,
        Keyword::Check => 34,
        Keyword::Eval => 35,
        Keyword::Print => 36,
        Keyword::Reduce => 37,
        Keyword::Synth => 38,
        Keyword::Exit => 39,
        Keyword::Import => 40,
        Keyword::Private => 41,
        Keyword::Protected => 42,
        Keyword::Noncomputable => 43,
        Keyword::Unsafe => 44,
        Keyword::Partial => 45,
        Keyword::Nonrec => 46,
        Keyword::In => 47,
        Keyword::True => 48,
        Keyword::False => 49,
        Keyword::Where => 50,
        Keyword::Deriving => 51,
        Keyword::Extends => 52,
        Keyword::Let => 53,
        Keyword::Do => 54,
        Keyword::With => 55,
        Keyword::Type => 56,
        Keyword::Sort => 57,
        Keyword::Prop => 58,
        Keyword::Sorry => 59,
        Keyword::Return => 60,
        Keyword::Match => 61,
        Keyword::If => 62,
        Keyword::Then => 63,
        Keyword::Else => 64,
        Keyword::By => 65,
        Keyword::Fun => 66,
        Keyword::Forall => 67,
        Keyword::For => 68,
        Keyword::Have => 69,
        Keyword::Show => 70,
        Keyword::Suffices => 71,
        Keyword::Assume => 72,
        Keyword::Unless => 73,
        Keyword::Pure => 74,
        Keyword::Nomatch => 75,
        Keyword::Nofun => 76,
    }
}

/// The keyword at position `i` of the keyword table.
pub open spec fn spec_keyword_at(i: usize) -> Keyword {
    match i {
        0 => Keyword::Def,
        1 => Keyword::Theorem,
        2 => Keyword::Lemma,
        3 => Keyword::Abbrev,
        4 => Keyword::Opaque,
        5 => Keyword::Instance,
        6 => Keyword::Example,
        7 => Keyword::Axiom,
        8 => Keyword::Structure,
        9 => Keyword::Class,
        10 => Keyword::Inductive,
        11 => Keyword::Namespace,
        12 => Keyword::Module,
        13 => Keyword::Prelude,
        14 => Keyword::Section,
        15 => Keyword::End,
        16 => Keyword::Mutual,
        17 => Keyword::Open,
        18 => Keyword::Export,
        19 => Keyword::Variable,
        20 => Keyword::Universe,
        21 => Keyword::SetOption,
        22 => Keyword::Attribute,
        23 => Keyword::Initialize,
        24 => Keyword::BuiltinInitialize,
        25 => Keyword::Notation,
        26 => Keyword::Prefix,
        27 => Keyword::Infix,
        28 => Keyword::Infixl,
        29 => Keyword::Infixr,
        30 => Keyword::Postfix,
        31 => Keyword::Macro,
        32 => Keyword::Syntax,
        33 => Keyword::Elab,
        34 => Keyword::Check,
        35 => Keyword::Eval,
        36 => Keyword::Print,
        37 => Keyword::Reduce,
        38 => Keyword::Synth,
        39 => Keyword::Exit,
        40 => Keyword::Import,
        41 => Keyword::Private,
        42 => Keyword::Protected,
        43 => Keyword::Noncomputable,
        44 => Keyword::Unsafe,
        45 => Keyword::Partial,
        46 => Keyword::Nonrec,
        47 => Keyword::In,
        48 => Keyword::True,
        49 => Keyword::False,
        50 => Keyword::Where,
        51 => Keyword::Deriving,
        52 => Keyword::Extends,
        53 => Keyword::Let,
        54 => Keyword::Do,
        55 => Keyword::With,
        56 => Keyword::Type,
        57 => Keyword::Sort,
        58 => Keyword::Prop,
        59 => Keyword::Sorry,
        60 => Keyword::Return,
        61 => Keyword::Match,
        62 => Keyword::If,
        63 => Keyword::Then,
        64 => Keyword::Else,
        65 => Keyword::By,
        66 => Keyword::Fun,
        67 => Keyword::Forall,
        68 => Keyword::For,
        69 => Keyword::Have,
        70 => Keyword::Show,
        71 => Keyword::Suffices,
        72 => Keyword::Assume,
        73 => Keyword::Unless,
        74 => Keyword::Pure,
        75 => Keyword::Nomatch,
        _ => Keyword::Nofun,
    }
}

/// The keyword at position `i` of the keyword table.
fn keyword_at(i: usize) -> (k: Keyword)
    requires
        i < KEYWORD_COUNT,
    ensures
        k == spec_keyword_at(i),
{
    match i {
        0 => Keyword::Def,
        1 => Keyword::Theorem,
        2 => Keyword::Lemma,
        3 => Keyword::Abbrev,
        4 => Keyword::Opaque,
        5 => Keyword::Instance,
        6 => Keyword::Example,
        7 => Keyword::Axiom,
        8 => Keyword::Structure,
        9 => Keyword::Class,
        10 => Keyword::Inductive,
        11 => Keyword::Namespace,
        12 => Keyword::Module,
        13 => Keyword::Prelude,
        14 => Keyword::Section,
        15 => Keyword::End,
        16 => Keyword::Mutual,
        17 => Keyword::Open,
        18 => Keyword::Export,
        19 => Keyword::Variable,
        20 => Keyword::Universe,
        21 => Keyword::SetOption,
        22 => Keyword::Attribute,
        23 => Keyword::Initialize,
        24 => Keyword::BuiltinInitialize,
        25 => Keyword::Notation,
        26 => Keyword::Prefix,
        27 => Keyword::Infix,
        28 => Keyword::Infixl,
        29 => Keyword::Infixr,
        30 => Keyword::Postfix,
        31 => Keyword::Macro,
        32 => Keyword::Syntax,
        33 => Keyword::Elab,
        34 => Keyword::Check,
        35 => Keyword::Eval,
        36 => Keyword::Print,
        37 => Keyword::Reduce,
        38 => Keyword::Synth,
        39 => Keyword::Exit,
        40 => Keyword::Import,
        41 => Keyword::Private,
        42 => Keyword::Protected,
        43 => Keyword::Noncomputable,
        44 => Keyword::Unsafe,
        45 => Keyword::Partial,
        46 => Keyword::Nonrec,
        47 => Keyword::In,
        48 => Keyword::True,
        49 => Keyword::False,
        50 => Keyword::Where,
        51 => Keyword::Deriving,
        52 => Keyword::Extends,
        53 => Keyword::Let,
        54 => Keyword::Do,
        55 => Keyword::With,
        56 => Keyword::Type,
        57 => Keyword::Sort,
        58 => Keyword::Prop,
        59 => Keyword::Sorry,
        60 => Keyword::Return,
        61 => Keyword::Match,
        62 => Keyword::If,
        63 => Keyword::Then,
        64 => Keyword::Else,
        65 => Keyword::By,
        66 => Keyword::Fun,
        67 => Keyword::Forall,
        68 => Keyword::For,
        69 => Keyword::Have,
        70 => Keyword::Show,
        71 => Keyword::Suffices,
        72 => Keyword::Assume,
        73 => Keyword::Unless,
        74 => Keyword::Pure,
        75 => Keyword::Nomatch,
        _ => Keyword::Nofun,
    }
}

impl Keyword {
    /// The keyword spelled `text`, if any.
    pub fn parse(text: &str) -> (r: Option<Keyword>)
        ensures
            forall|k: Keyword| #[trigger] keyword_text(k) == text@ <==> r == Some(k),
    {
        let mut i: usize = 0;
        while i < KEYWORD_COUNT
            invariant
                i <= KEYWORD_COUNT,
                forall|j: usize| j < i ==> keyword_text(#[trigger] spec_keyword_at(j)) != text@,
            decreases KEYWORD_COUNT - i,
        {
            let kw = keyword_at(i);
            if str_eq(text, kw.as_str()) {
                proof {
                    assert forall|k: Keyword| #[trigger] keyword_text(k) == text@ <==> Some(kw)
                        == Some(k) by {
                        law_keyword_text_injective(k, kw);
                    }
                }
                return Some(kw);
            }
            i = i + 1;
        }
        proof {
            assert forall|k: Keyword| keyword_text(k) != text@ by {
                assert(spec_keyword_at(keyword_index(k)) == k);
            }
        }
        None
    }

    /// The text of the keyword.
    pub fn as_str(&self) -> (r: &'static str)
        ensures
            r@ == keyword_text(*self),
    {
        match self {
            Keyword::Def => "def",
            Keyword::Theorem => "theorem",
            Keyword::Lemma => "lemma",
            Keyword::Abbrev => "abbrev",
            Keyword::Opaque => "opaque",
            Keyword::Instance => "instance",
            Keyword::Example => "example",
            Keyword::Axiom => "axiom",
            Keyword::Structure => "structure",
            Keyword::Class => "class",
            Keyword::Inductive => "inductive",
            Keyword::Namespace => "namespace",
            Keyword::Module => "module",
            Keyword::Prelude => "prelude",
            Keyword::Section => "section",
            Keyword::End => "end",
            Keyword::Mutual => "mutual",
            Keyword::Open => "open",
            Keyword::Export => "export",
            Keyword::Variable => "variable",
            Keyword::Universe => "universe",
            Keyword::SetOption => "set_option",
            Keyword::Attribute => "attribute",
            Keyword::Initialize => "initialize",
            Keyword::BuiltinInitialize => "builtin_initialize",
            Keyword::Notation => "notation",
            Keyword::Prefix => "prefix",
            Keyword::Infix => "infix",
            Keyword::Infixl => "infixl",
            Keyword::Infixr => "infixr",
            Keyword::Postfix => "postfix",
            Keyword::Macro => "macro",
            Keyword::Syntax => "syntax",
            Keyword::Elab => "elab",
            Keyword::Check => "#check",
            Keyword::Eval => "#eval",
            Keyword::Print => "#print",
            Keyword::Reduce => "#reduce",
            Keyword::Synth => "#synth",
            Keyword::Exit => "#exit",
            Keyword::Import => "import",
            Keyword::Private => "private",
            Keyword::Protected => "protected",
            Keyword::Noncomputable => "noncomputable",
            Keyword::Unsafe => "unsafe",
            Keyword::Partial => "partial",
            Keyword::Nonrec => "nonrec",
            Keyword::In => "in",
            Keyword::True => "true",
            Keyword::False => "false",
            Keyword::Where => "where",
            Keyword::Deriving => "deriving",
            Keyword::Extends => "extends",
            Keyword::Let => "let",
            Keyword::Do => "do",
            Keyword::With => "with",
            Keyword::Type => "Type",
            Keyword::Sort => "Sort",
            Keyword::Prop => "Prop",
            Keyword::Sorry => "sorry",
            Keyword::Return => "return",
            Keyword::Match => "match",
            Keyword::If => "if",
            Keyword::Then => "then",
            Keyword::Else => "else",
            Keyword::By => "by",
            Keyword::Fun => "fun",
            Keyword::Forall => "forall",
            Keyword::For => "for",
            Keyword::Have => "have",
            Keyword::Show => "show",
            Keyword::Suffices => "suffices",
            Keyword::Assume => "assume",
            Keyword::Unless => "unless",
            Keyword::Pure => "pure",
            Keyword::Nomatch => "nomatch",
            Keyword::Nofun => "nofun",
        }
    }

    /// The text of the keyword (what `Display` prints).
    pub fn to_string(&self) -> (r: String)
        ensures
            r@ == keyword_text(*self),
    {
        self.as_str().to_owned()
    }
}


/// A number that tells the keywords' spellings apart: the length and the
/// first two and last two characters.
pub open spec fn text_code(s: Seq<char>) -> int {
    (((s.len() * 128 + s[0] as int) * 128 + s[1] as int) * 128 + s[s.len() - 2] as int) * 128
        + s[s.len() - 1] as int
}

/// The position in the keyword table of the keyword whose spelling has code `c`.
pub open spec fn index_of_text_code(c: int) -> usize {
    if c == 1016689382 {
        0
    } else if c == 2124034797 {
        1
    } else if c == 1570338529 {
        2
    } else if c == 1815655158 {
        3
    } else if c == 1845246693 {
        4
    } else if c == 2369499621 {
        5
    } else if c == 2092840549 {
        6
    } else if c == 1547581421 {
        7
    } else if c == 2659006821 {
        8
    } else if c == 1551579635 {
        9
    } else if c == 2637937509 {
        10
    } else if c == 2648207845 {
        11
    } else if c == 1841034853 {
        12
    } else if c == 2115809893 {
        13
    } else if c == 2121889774 {
        14
    } else if c == 1018935140 {
        15
    } else if c == 1841131756 {
        16
    } else if c == 1308373742 {
        17
    } else if c == 1824405876 {
        18
    } else if c == 2396550757 {
        19
    } else if c == 2394667493 {
        20
    } else if c == 2927196142 {
        21
    } else if c == 2621258341 {
        22
    } else if c == 2906373477 {
        23
    } else if c == 5039291749 {
        24
    } else if c == 2380003310 {
        25
    } else if c == 1847375096 {
        26
    } else if c == 1564194040 {
        27
    } else if c == 1832631404 {
        28
    } else if c == 1832631410 {
        29
    } else if c == 2115761400 {
        30
    } else if c == 1572370799 {
        31
    } else if c == 1853780216 {
        32
    } else if c == 1287336162 {
        33
    } else if c == 1685647851 {
        34
    } else if c == 1417244908 {
        35
    } else if c == 1685862260 {
        36
    } else if c == 1954329061 {
        37
    } else if c == 1685912168 {
        38
    } else if c == 1417245940 {
        39
    } else if c == 1832614260 {
        40
    } else if c == 2115811941 {
        41
    } else if c == 2652680932 {
        42
    } else if c == 3722180197 {
        43
    } else if c == 1857794917 {
        44
    } else if c == 2115530988 {
        45
    } else if c == 1843131107 {
        46
    } else if c == 758887662 {
        47
    } else if c == 1318894309 {
        48
    } else if c == 1557690853 {
        49
    } else if c == 1593456997 {
        50
    } else if c == 2358867815 {
        51
    } else if c == 2092839539 {
        52
    } else if c == 1033466612 {
        53
    } else if c == 748417647 {
        54
    } else if c == 1325038184 {
        55
    } else if c == 1251899493 {
        56
    } else if c == 1249638772 {
        57
    } else if c == 1243396080 {
        58
    } else if c == 1585183097 {
        59
    } else if c == 1851357550 {
        60
    } else if c == 1572368872 {
        61
    } else if c == 758756582 {
        62
    } else if c == 1318728430 {
        63
    } else if c == 1287338469 {
        64
    } else if c == 744386937 {
        65
    } else if c == 1021147886 {
        66
    } else if c == 1826354796 {
        67
    } else if c == 1021048818 {
        68
    } else if c == 1293450085 {
        69
    } else if c == 1316632567 {
        70
    } else if c == 2390586099 {
        71
    } else if c == 1815934693 {
        72
    } else if c == 1857796595 {
        73
    } else if c == 1310554469 {
        74
    } else if c == 2111566312 {
        75
    } else {
        76
    }
}

proof fn lemma_text_codes()
    ensures
        forall|k: Keyword| index_of_text_code(text_code(#[trigger] keyword_text(k))) == keyword_index(k),
{
    reveal_strlit("def");
    assert(text_code("def"@) == 1016689382);
    reveal_strlit("theorem");
    assert(text_code("theorem"@) == 2124034797);
    reveal_strlit("lemma");
    assert(text_code("lemma"@) == 1570338529);
    reveal_strlit("abbrev");
    assert(text_code("abbrev"@) == 1815655158);
    reveal_strlit("opaque");
    assert(text_code("opaque"@) == 1845246693);
    reveal_strlit("instance");
    assert(text_code("instance"@) == 2369499621);
    reveal_strlit("example");
    assert(text_code("example"@) == 2092840549);
    reveal_strlit("axiom");
    assert(text_code("axiom"@) == 1547581421);
    reveal_strlit("structure");
    assert(text_code("structure"@) == 2659006821);
    reveal_strlit("class");
    assert(text_code("class"@) == 1551579635);
    reveal_strlit("inductive");
    assert(text_code("inductive"@) == 2637937509);
    reveal_strlit("namespace");
    assert(text_code("namespace"@) == 2648207845);
    reveal_strlit("module");
    assert(text_code("module"@) == 1841034853);
    reveal_strlit("prelude");
    assert(text_code("prelude"@) == 2115809893);
    reveal_strlit("section");
    assert(text_code("section"@) == 2121889774);
    reveal_strlit("end");
    assert(text_code("end"@) == 1018935140);
    reveal_strlit("mutual");
    assert(text_code("mutual"@) == 1841131756);
    reveal_strlit("open");
    assert(text_code("open"@) == 1308373742);
    reveal_strlit("export");
    assert(text_code("export"@) == 1824405876);
    reveal_strlit("variable");
    assert(text_code("variable"@) == 2396550757);
    reveal_strlit("universe");
    assert(text_code("universe"@) == 2394667493);
    reveal_strlit("set_option");
    assert(text_code("set_option"@) == 2927196142);
    reveal_strlit("attribute");
    assert(text_code("attribute"@) == 2621258341);
    reveal_strlit("initialize");
    assert(text_code("initialize"@) == 2906373477);
    reveal_strlit("builtin_initialize");
    assert(text_code("builtin_initialize"@) == 5039291749);
    reveal_strlit("notation");
    assert(text_code("notation"@) == 2380003310);
    reveal_strlit("prefix");
    assert(text_code("prefix"@) == 1847375096);
    reveal_strlit("infix");
    assert(text_code("infix"@) == 1564194040);
    reveal_strlit("infixl");
    assert(text_code("infixl"@) == 1832631404);
    reveal_strlit("infixr");
    assert(text_code("infixr"@) == 1832631410);
    reveal_strlit("postfix");
    assert(text_code("postfix"@) == 2115761400);
    reveal_strlit("macro");
    assert(text_code("macro"@) == 1572370799);
    reveal_strlit("syntax");
    assert(text_code("syntax"@) == 1853780216);
    reveal_strlit("elab");
    assert(text_code("elab"@) == 1287336162);
    reveal_strlit("#check");
    assert(text_code("#check"@) == 1685647851);
    reveal_strlit("#eval");
    assert(text_code("#eval"@) == 1417244908);
    reveal_strlit("#print");
    assert(text_code("#print"@) == 1685862260);
    reveal_strlit("#reduce");
    assert(text_code("#reduce"@) == 1954329061);
    reveal_strlit("#synth");
    assert(text_code("#synth"@) == 1685912168);
    reveal_strlit("#exit");
    assert(text_code("#exit"@) == 1417245940);
    reveal_strlit("import");
    assert(text_code("import"@) == 1832614260);
    reveal_strlit("private");
    assert(text_code("private"@) == 2115811941);
    reveal_strlit("protected");
    assert(text_code("protected"@) == 2652680932);
    reveal_strlit("noncomputable");
    assert(text_code("noncomputable"@) == 3722180197);
    reveal_strlit("unsafe");
    assert(text_code("unsafe"@) == 1857794917);
    reveal_strlit("partial");
    assert(text_code("partial"@) == 2115530988);
    reveal_strlit("nonrec");
    assert(text_code("nonrec"@) == 1843131107);
    reveal_strlit("in");
    assert(text_code("in"@) == 758887662);
    reveal_strlit("true");
    assert(text_code("true"@) == 1318894309);
    reveal_strlit("false");
    assert(text_code("false"@) == 1557690853);
    reveal_strlit("where");
    assert(text_code("where"@) == 1593456997);
    reveal_strlit("deriving");
    assert(text_code("deriving"@) == 2358867815);
    reveal_strlit("extends");
    assert(text_code("extends"@) == 2092839539);
    reveal_strlit("let");
    assert(text_code("let"@) == 1033466612);
    reveal_strlit("do");
    assert(text_code("do"@) == 748417647);
    reveal_strlit("with");
    assert(text_code("with"@) == 1325038184);
    reveal_strlit("Type");
    assert(text_code("Type"@) == 1251899493);
    reveal_strlit("Sort");
    assert(text_code("Sort"@) == 1249638772);
    reveal_strlit("Prop");
    assert(text_code("Prop"@) == 1243396080);
    reveal_strlit("sorry");
    assert(text_code("sorry"@) == 1585183097);
    reveal_strlit("return");
    assert(text_code("return"@) == 1851357550);
    reveal_strlit("match");
    assert(text_code("match"@) == 1572368872);
    reveal_strlit("if");
    assert(text_code("if"@) == 758756582);
    reveal_strlit("then");
    assert(text_code("then"@) == 1318728430);
    reveal_strlit("else");
    assert(text_code("else"@) == 1287338469);
    reveal_strlit("by");
    assert(text_code("by"@) == 744386937);
    reveal_strlit("fun");
    assert(text_code("fun"@) == 1021147886);
    reveal_strlit("forall");
    assert(text_code("forall"@) == 1826354796);
    reveal_strlit("for");
    assert(text_code("for"@) == 1021048818);
    reveal_strlit("have");
    assert(text_code("have"@) == 1293450085);
    reveal_strlit("show");
    assert(text_code("show"@) == 1316632567);
    reveal_strlit("suffices");
    assert(text_code("suffices"@) == 2390586099);
    reveal_strlit("assume");
    assert(text_code("assume"@) == 1815934693);
    reveal_strlit("unless");
    assert(text_code("unless"@) == 1857796595);
    reveal_strlit("pure");
    assert(text_code("pure"@) == 1310554469);
    reveal_strlit("nomatch");
    assert(text_code("nomatch"@) == 2111566312);
    reveal_strlit("nofun");
    assert(text_code("nofun"@) == 1574697710);
}

/// Different keywords are spelled differently.
pub proof fn law_keyword_text_injective(a: Keyword, b: Keyword)
    ensures
        keyword_text(a) == keyword_text(b) ==> a == b,
{
    lemma_text_codes();
    assert(spec_keyword_at(keyword_index(a)) == a);
    assert(spec_keyword_at(keyword_index(b)) == b);
}

} // verus!
