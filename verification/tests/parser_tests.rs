use rslean::node_kind::SyntaxNodeKind;
use rslean::parse_command::parse;
use rslean::parser::{name_from_str, node_span};
use rslean::pratt::{infix_binding_power, prefix_binding_power};
use rslean::span::Span;
use rslean::syntax::Syntax;
use rslean::token::TokenKind;

fn report(src: &str, errors: &[rslean::parser::ParseError]) {
    for e in errors {
        let line = src[..e.span.start as usize].matches('\n').count() + 1;
        println!("  error at line {}: {}", line, e.message);
    }
}

#[test]
fn test_parse_empty() {
    let res = parse("");
    assert!(res.errors.is_empty(), "errors: {:?}", res.errors);
    assert!(res.syntax.node_kind_matches(SyntaxNodeKind::Module));
}

#[test]
fn test_parse_prelude_header() {
    let res = parse("prelude");
    assert!(res.errors.is_empty(), "errors: {:?}", res.errors);
    let module = &res.syntax;
    assert!(module.node_kind_matches(SyntaxNodeKind::Module));
    let header = module.child(0).unwrap();
    assert!(header.node_kind_matches(SyntaxNodeKind::Header));
}

#[test]
fn test_parse_imports() {
    let src = "import Init\nimport Lean.Meta\n";
    let res = parse(src);
    assert!(res.errors.is_empty(), "errors: {:?}", res.errors);
    let header = res.syntax.child(0).unwrap();
    assert!(header.node_kind_matches(SyntaxNodeKind::Header));
    assert_eq!(header.num_children(), 2, "header children: {:?}", header);
}

#[test]
fn test_parse_universe_decl() {
    let src = "universe u v w\n";
    let res = parse(src);
    assert!(res.errors.is_empty(), "errors: {:?}", res.errors);
    assert_eq!(res.syntax.num_children(), 2);
    let cmd = res.syntax.child(1).unwrap();
    assert!(cmd.node_kind_matches(SyntaxNodeKind::Universe));
    assert_eq!(cmd.num_children(), 4);
}

#[test]
fn test_parse_namespace_section_end() {
    let src = "namespace Foo\nsection Bar\nend Bar\nend Foo\n";
    let res = parse(src);
    assert!(res.errors.is_empty(), "errors: {:?}", res.errors);
    assert_eq!(res.syntax.num_children(), 5);
}

#[test]
fn test_parse_set_option() {
    let src = "set_option maxRecDepth 1000\n";
    let res = parse(src);
    assert!(res.errors.is_empty(), "errors: {:?}", res.errors);
    let cmd = res.syntax.child(1).unwrap();
    assert!(cmd.node_kind_matches(SyntaxNodeKind::SetOption));
}

#[test]
fn parser_test_parse_hash_check() {
    let src = "#check Nat\n";
    let res = parse(src);
    let cmd = res.syntax.child(1).unwrap();
    assert!(cmd.node_kind_matches(SyntaxNodeKind::Check));
}

#[test]
fn test_name_from_str() {
    let n = name_from_str("Lean.Meta.whnf");
    assert_eq!(n.to_string(), "Lean.Meta.whnf");

    let n = name_from_str("Nat");
    assert_eq!(n.to_string(), "Nat");
}

#[test]
fn test_node_span() {
    let s1 = Syntax::missing(Span::new(0, 5));
    let s2 = Syntax::missing(Span::new(10, 15));
    let sp = node_span(&[s1, s2]);
    assert_eq!(sp.start, 0);
    assert_eq!(sp.end, 15);
}

#[test]
fn parser_test_parse_attributes() {
    let src = "@[simp, inline] def foo := 1\n";
    let res = parse(src);
    let cmd = res.syntax.child(1).unwrap();
    assert!(
        cmd.node_kind_matches(SyntaxNodeKind::Declaration)
            || cmd.node_kind_matches(SyntaxNodeKind::Definition)
    );
}

#[test]
fn test_parse_prelude_snippet() {
    let src = r#"
prelude

set_option autoImplicit false

universe u v w

inductive PUnit : Sort u where
  | unit : PUnit

inductive True : Prop where
  | intro : True

inductive False : Prop

inductive Empty : Type

def absurd {a : Prop} {b : Sort v} (h₁ : a) (h₂ : ¬a) : b :=
  (h₂ h₁).elim

inductive Eq : α → α → Prop where
  | refl (a : α) : Eq a a
"#;
    let result = parse(src);
    let num_cmds = result.syntax.num_children().saturating_sub(1);
    assert!(num_cmds >= 7, "expected >= 7 commands, got {}", num_cmds);
    report(src, &result.errors);
    assert!(result.errors.len() <= 3, "too many errors: {}", result.errors.len());
}

#[test]
fn test_parse_def_with_pattern_matching() {
    let src = r#"
def Nat.add : Nat → Nat → Nat
  | n, .zero => n
  | n, .succ m => .succ (Nat.add n m)
"#;
    let result = parse(src);
    let cmd = result.syntax.child(1).unwrap();
    assert!(
        cmd.node_kind_matches(SyntaxNodeKind::Definition)
            || cmd.node_kind_matches(SyntaxNodeKind::Declaration),
        "expected Definition or Declaration, got {:?}",
        cmd.kind()
    );
}

#[test]
fn test_parse_structure() {
    let src = r#"
structure Prod (α : Type u) (β : Type v) where
  mk ::
  fst : α
  snd : β
"#;
    let result = parse(src);
    let _cmd = result.syntax.child(1).unwrap();
    report(src, &result.errors);
}

#[test]
fn test_parse_class_instance() {
    let src = r#"
class Add (α : Type u) where
  add : α → α → α

instance : Add Nat where
  add := Nat.add
"#;
    let result = parse(src);
    let num_cmds = result.syntax.num_children().saturating_sub(1);
    assert!(num_cmds >= 2, "expected >= 2 commands, got {}", num_cmds);
}

#[test]
fn test_parse_if_then_else() {
    let src = r#"
def max (a b : Nat) : Nat :=
  if a > b then a else b
"#;
    let result = parse(src);
    report(src, &result.errors);
}

#[test]
fn test_parse_match_expr() {
    let src = r#"
def foo (n : Nat) : Nat :=
  match n with
  | 0 => 1
  | n + 1 => n
"#;
    let result = parse(src);
    report(src, &result.errors);
}

#[test]
fn test_parse_do_notation() {
    let src = r#"
def main : IO Unit := do
  let x ← pure 42
  return x
"#;
    let result = parse(src);
    report(src, &result.errors);
}

#[test]
fn test_parse_anonymous_ctor() {
    let src = r#"
def p : Prod Nat Nat := ⟨1, 2⟩
"#;
    let result = parse(src);
    report(src, &result.errors);
}

#[test]
fn test_parse_namespace_section() {
    let src = r#"
namespace Foo
  section Bar
    def x := 42
  end Bar
end Foo
"#;
    let result = parse(src);
    assert!(result.errors.is_empty(), "errors: {:?}", result.errors);
}

#[test]
fn test_parse_universe_poly() {
    let src = r#"
universe u v

def id.{w} (a : Sort w) (x : a) : a := x
"#;
    let result = parse(src);
    report(src, &result.errors);
}

#[test]
fn test_parse_open_in() {
    let src = r#"
open Nat in
def foo := zero
"#;
    let result = parse(src);
    report(src, &result.errors);
}

#[test]
fn integration_test_parse_attributes() {
    let src = r#"
@[simp] theorem foo : True := True.intro
"#;
    let result = parse(src);
    let cmd = result.syntax.child(1).unwrap();
    assert!(
        cmd.node_kind_matches(SyntaxNodeKind::Declaration),
        "expected wrapped Declaration"
    );
}

#[test]
fn test_parse_inductive_with_constructors() {
    let src = r#"
inductive List (α : Type u) where
  | nil : List α
  | cons (head : α) (tail : List α) : List α
"#;
    let result = parse(src);
    report(src, &result.errors);
}

#[test]
fn test_parse_set_option_in() {
    let src = r#"
set_option maxRecDepth 1000 in
def deep := 42
"#;
    let result = parse(src);
    report(src, &result.errors);
}

#[test]
fn test_parse_fun_lambda() {
    let src = r#"
def inc := fun (n : Nat) => n + 1
"#;
    let result = parse(src);
    report(src, &result.errors);
}

#[test]
fn test_parse_forall() {
    let src = r#"
def myProp := ∀ (x : Nat), x = x
"#;
    let result = parse(src);
    report(src, &result.errors);
}

#[test]
fn test_parse_where_clause() {
    let src = r#"
def foo (n : Nat) : Nat := bar n where
  bar (x : Nat) : Nat := x + 1
"#;
    let result = parse(src);
    report(src, &result.errors);
}

#[test]
fn integration_test_parse_hash_check() {
    let src = "#check Nat.add\n";
    let result = parse(src);
    let cmd = result.syntax.child(1).unwrap();
    assert!(cmd.node_kind_matches(SyntaxNodeKind::Check));
}

#[test]
fn test_parse_hash_eval() {
    let src = "#eval 2 + 3\n";
    let result = parse(src);
    let cmd = result.syntax.child(1).unwrap();
    assert!(cmd.node_kind_matches(SyntaxNodeKind::Eval));
}

// ---- further checks of the parser, the tables and their laws ----

#[test]
fn binding_powers_follow_associativity() {
    // left-associative
    assert_eq!(infix_binding_power(&TokenKind::Plus), Some((65, 66)));
    // right-associative
    assert_eq!(infix_binding_power(&TokenKind::Arrow), Some((25, 24)));
    assert_eq!(infix_binding_power(&TokenKind::Caret), Some((80, 79)));
    assert_eq!(infix_binding_power(&TokenKind::Cons), Some((67, 66)));
    // non-associative
    assert_eq!(infix_binding_power(&TokenKind::Iff), Some((20, 20)));
    assert_eq!(infix_binding_power(&TokenKind::MapOp), Some((100, 101)));
    assert_eq!(infix_binding_power(&TokenKind::Comma), None);
    assert_eq!(prefix_binding_power(&TokenKind::Minus), Some(200));
    assert_eq!(prefix_binding_power(&TokenKind::Bang), Some(200));
    assert_eq!(prefix_binding_power(&TokenKind::Plus), None);
}

#[test]
fn parse_always_gives_a_module() {
    for src in ["", "def", ")))", "namespace", "@[", "#check", "structure X where\n  a :"] {
        let res = parse(src);
        assert!(res.syntax.node_kind_matches(SyntaxNodeKind::Module), "{:?}", src);
        assert!(res.syntax.child(0).unwrap().node_kind_matches(SyntaxNodeKind::Header));
    }
}

#[test]
fn parse_reports_missing_token() {
    let res = parse("namespace\n");
    assert!(!res.errors.is_empty());
    let res = parse("def x := (1\n");
    assert!(!res.errors.is_empty());
    assert!(res.errors.iter().any(|e| e.message.contains("expected")), "{:?}", res.errors);
}

#[test]
fn node_span_of_no_children_is_empty() {
    let sp = node_span(&[]);
    assert_eq!(sp, Span::new(0, 0));
}

#[test]
fn name_from_str_splits_on_dots() {
    let n = name_from_str("a.b.c");
    assert_eq!(n.num_parts(), 3);
    // the empty text is one empty component, not the anonymous name
    let n = name_from_str("");
    assert!(!n.is_anonymous());
    assert_eq!(n.num_parts(), 1);
}

#[test]
fn stray_literals_at_command_level_are_reported_with_their_debug_text() {
    let res = parse("\"a\\tb\"\n'x'\n");
    let messages: Vec<String> = res.errors.iter().map(|e| e.message.clone()).collect();
    assert!(
        messages.iter().any(|m| m == "unexpected token StrLit(\"a\\tb\") at command level"),
        "{:?}",
        messages
    );
    assert!(
        messages.iter().any(|m| m == "unexpected token CharLit('x') at command level"),
        "{:?}",
        messages
    );
}
