use std::sync::Arc;

use num_bigint::BigUint;
use rslean::literal::Natural;
use rslean::name::Name;
use rslean::node_kind::SyntaxNodeKind;
use rslean::span::{SourceInfo, Span};
use rslean::syntax::{AtomVal, Syntax};

fn info(start: u32, end: u32) -> SourceInfo {
    SourceInfo::new(Span::new(start, end))
}

#[test]
fn constructs_missing() {
    let s = Syntax::missing(Span::new(2, 2));
    assert!(s.is_missing());
    assert_eq!(s.span(), Span::new(2, 2));
    assert_eq!(s.num_children(), 0);
}

#[test]
fn constructs_atom() {
    let s = Syntax::atom(info(1, 4), AtomVal::Keyword("def".into()));
    assert!(s.is_atom());
    assert_eq!(s.atom_val(), Some(&AtomVal::Keyword("def".into())));
    assert_eq!(s.span(), Span::new(1, 4));
}

#[test]
fn constructs_ident() {
    let name = Name::from_str_parts("Lean.Meta.whnf");
    let s = Syntax::ident(info(5, 19), name.clone(), "Lean.Meta.whnf");
    assert!(s.is_ident());
    assert_eq!(s.ident_name(), Some(&name));
    assert_eq!(s.to_string(), "Lean.Meta.whnf");
}

#[test]
fn constructs_node() {
    let child = Syntax::atom(info(0, 3), AtomVal::Keyword("def".into()));
    let node = Syntax::node(info(0, 3), SyntaxNodeKind::Command, vec![child]);
    assert!(node.is_node());
    assert_eq!(node.kind(), Some(SyntaxNodeKind::Command));
    assert_eq!(node.num_children(), 1);
}

#[test]
fn source_info_and_full_span_work() {
    let base = SourceInfo::new(Span::new(10, 13))
        .with_leading(Span::new(7, 10))
        .with_trailing(Span::new(13, 15));
    let atom = Syntax::atom(base.clone(), AtomVal::Keyword("theorem".into()));
    assert_eq!(atom.source_info(), base);
    assert_eq!(atom.span(), Span::new(7, 15));
}

#[test]
fn children_and_child_access() {
    let n = Syntax::node(
        info(0, 7),
        SyntaxNodeKind::App,
        vec![
            Syntax::ident(info(0, 1), Name::mk_simple("f"), "f"),
            Syntax::ident(info(2, 3), Name::mk_simple("x"), "x"),
        ],
    );
    assert_eq!(n.children().len(), 2);
    assert!(n.child(0).unwrap().is_ident());
    assert!(n.child(1).unwrap().is_ident());
    assert!(n.child(2).is_none());
}

#[test]
fn node_kind_matching() {
    let n = Syntax::node(info(0, 1), SyntaxNodeKind::Type, vec![]);
    assert!(n.node_kind_matches(SyntaxNodeKind::Type));
    assert!(!n.node_kind_matches(SyntaxNodeKind::Prop));

    let a = Syntax::atom(info(0, 1), AtomVal::Punct("(".into()));
    assert!(!a.node_kind_matches(SyntaxNodeKind::Type));
}

#[test]
fn for_each_preorder_traversal() {
    let tree = Syntax::node(
        info(0, 8),
        SyntaxNodeKind::Command,
        vec![
            Syntax::atom(info(0, 3), AtomVal::Keyword("def".into())),
            Syntax::ident(info(4, 5), Name::mk_simple("f"), "f"),
            Syntax::node(
                info(6, 8),
                SyntaxNodeKind::App,
                vec![Syntax::ident(info(6, 7), Name::mk_simple("x"), "x")],
            ),
        ],
    );

    let mut tags = Vec::new();
    tree.for_each(&mut |s| {
        if s.is_node() {
            tags.push("node");
        } else if s.is_atom() {
            tags.push("atom");
        } else if s.is_ident() {
            tags.push("ident");
        }
    });

    assert_eq!(tags, vec!["node", "atom", "ident", "node", "ident"]);
}

#[test]
fn find_returns_first_match() {
    let tree = Syntax::node(
        info(0, 5),
        SyntaxNodeKind::App,
        vec![
            Syntax::ident(info(0, 1), Name::mk_simple("a"), "a"),
            Syntax::ident(info(2, 3), Name::mk_simple("b"), "b"),
        ],
    );
    let found = tree.find(&|s| s.ident_name().is_some_and(|n| n.to_string() == "b"));
    assert!(found.is_some());
    assert_eq!(found.unwrap().to_string(), "b");
}

#[test]
fn has_missing_detects_missing_anywhere() {
    let tree = Syntax::node(
        info(0, 5),
        SyntaxNodeKind::App,
        vec![
            Syntax::ident(info(0, 1), Name::mk_simple("f"), "f"),
            Syntax::node(
                info(2, 5),
                SyntaxNodeKind::Argument,
                vec![Syntax::missing(Span::new(3, 3))],
            ),
        ],
    );
    assert!(tree.has_missing());
    assert!(!Syntax::ident(info(0, 1), Name::mk_simple("x"), "x").has_missing());
}

#[test]
fn display_atom_and_ident() {
    let atom = Syntax::atom(info(0, 2), AtomVal::Keyword("if".into()));
    let ident = Syntax::ident(info(3, 7), Name::mk_simple("then"), "`then`");
    assert_eq!(atom.to_string(), "if");
    assert_eq!(ident.to_string(), "`then`");
}

#[test]
fn display_node_reconstructs_source_like_text() {
    let node = Syntax::node(
        info(0, 12),
        SyntaxNodeKind::Command,
        vec![
            Syntax::atom(info(0, 3), AtomVal::Keyword("def".into())),
            Syntax::ident(info(4, 5), Name::mk_simple("x"), "x"),
            Syntax::atom(info(6, 7), AtomVal::Punct(":".into())),
            Syntax::ident(info(8, 11), Name::mk_simple("Nat"), "Nat"),
        ],
    );
    assert_eq!(node.to_string(), "def x:Nat");
}

#[test]
fn display_atom_val_variants() {
    assert_eq!(AtomVal::Keyword("def".into()).to_string(), "def");
    assert_eq!(AtomVal::Punct("=>".into()).to_string(), "=>");
    assert_eq!(AtomVal::NumLit("42".into()).to_string(), "42");
    assert_eq!(AtomVal::StrLit("\"hi\"".into()).to_string(), "\"hi\"");
    assert_eq!(AtomVal::CharLit("'x'".into()).to_string(), "'x'");
    assert_eq!(AtomVal::ScientificLit("1.2e3".into()).to_string(), "1.2e3");
    assert_eq!(
        AtomVal::DocComment("/-! docs -/".into()).to_string(),
        "/-! docs -/"
    );
}

#[test]
fn biguint_constructor_and_ident_arc_work() {
    let num = BigUint::parse_bytes(b"12345678901234567890", 10).unwrap();
    let lit = Syntax::num_lit_biguint(info(0, 20), Natural::from_digits(num.to_u32_digits()));
    assert_eq!(lit.to_string(), "12345678901234567890");

    let n = Arc::new(Name::from_str_parts("Lean.Parser"));
    let i = Syntax::ident_arc(info(21, 32), n.clone(), "Lean.Parser");
    assert_eq!(i.ident_name(), Some(n.as_ref()));
}

#[test]
fn display_is_lower_camel_case() {
    assert_eq!(SyntaxNodeKind::Module.to_string(), "module");
    assert_eq!(SyntaxNodeKind::DeclId.to_string(), "declId");
    assert_eq!(SyntaxNodeKind::IfThenElse.to_string(), "ifThenElse");
    assert_eq!(SyntaxNodeKind::CDot.to_string(), "cDot");
    assert_eq!(SyntaxNodeKind::LevelExpr.to_string(), "levelExpr");
}

#[test]
fn enum_variants_compare_and_hash() {
    assert_eq!(SyntaxNodeKind::Let, SyntaxNodeKind::Let);
    assert_ne!(SyntaxNodeKind::Let, SyntaxNodeKind::Have);
}

#[test]
fn natural_little_endian_bytes_and_decimal() {
    let n = Natural::from_u64(258);
    assert_eq!(n.to_bytes_le(), vec![2u8, 1u8]);
    assert_eq!(n.to_decimal(), "258");
    let big = Natural::from_digits(vec![0, 1]);
    assert_eq!(big.to_decimal(), "4294967296");
    assert_eq!(big.to_bytes_le(), vec![0u8, 0, 0, 0, 1]);
}
