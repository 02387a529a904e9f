use std::collections::HashMap;
use rslean::hash::{lean_string_hash, mix_hash};
use rslean::name::Name;

#[test]
fn test_anonymous() {
    let n = Name::anonymous();
    assert!(n.is_anonymous());
    assert!(!n.is_str());
    assert!(!n.is_num());
    assert!(n.is_atomic());
    assert_eq!(n.hash(), 1723);
    assert_eq!(n.to_string(), "[anonymous]");
}

#[test]
fn test_simple_str() {
    let n = Name::mk_simple("Nat");
    assert!(n.is_str());
    assert!(n.is_atomic());
    assert_eq!(n.get_string(), "Nat");
    assert!(n.get_prefix().is_anonymous());
    assert_eq!(n.to_string(), "Nat");
}

#[test]
fn test_hierarchical_name() {
    let n = Name::from_str_parts("Lean.Meta.whnf");
    assert!(n.is_str());
    assert!(!n.is_atomic());
    assert_eq!(n.get_string(), "whnf");
    assert_eq!(n.get_prefix().get_string(), "Meta");
    assert_eq!(n.get_prefix().get_prefix().get_string(), "Lean");
    assert!(n.get_prefix().get_prefix().get_prefix().is_anonymous());
    assert_eq!(n.to_string(), "Lean.Meta.whnf");
    assert_eq!(n.num_parts(), 3);
}

#[test]
fn test_numeric_name() {
    let prefix = Name::mk_simple("_uniq");
    let n = Name::mk_num(prefix, 231);
    assert!(n.is_num());
    assert_eq!(n.get_numeral(), 231);
    assert_eq!(n.get_prefix().get_string(), "_uniq");
    assert_eq!(n.to_string(), "_uniq.231");
}

#[test]
fn name_test_equality() {
    let a = Name::from_str_parts("Lean.Meta");
    let b = Name::from_str_parts("Lean.Meta");
    let c = Name::from_str_parts("Lean.Elab");
    assert_eq!(a, b);
    assert_ne!(a, c);
    assert_eq!(a.hash(), b.hash());
}

#[test]
fn test_ordering() {
    let a = Name::from_str_parts("A.B");
    let b = Name::from_str_parts("A.C");
    let c = Name::from_str_parts("B.A");
    assert!(a < b);
    assert!(a < c);
    assert!(b < c);
}

#[test]
fn test_prefix_check() {
    let prefix = Name::from_str_parts("Lean.Meta");
    let full = Name::from_str_parts("Lean.Meta.whnf");
    let other = Name::from_str_parts("Lean.Elab.Term");
    assert!(prefix.is_prefix_of(&full));
    assert!(!prefix.is_prefix_of(&other));
    assert!(Name::anonymous().is_prefix_of(&full));
}

#[test]
fn test_append() {
    let a = Name::from_str_parts("Lean");
    let b = Name::from_str_parts("Meta.whnf");
    let c = a.append(&b);
    assert_eq!(c, Name::from_str_parts("Lean.Meta.whnf"));
}

#[test]
fn test_get_root() {
    let n = Name::from_str_parts("Lean.Meta.whnf");
    let root = n.get_root();
    assert_eq!(root, Name::mk_simple("Lean"));
}

#[test]
fn test_replace_prefix() {
    let n = Name::from_str_parts("Lean.Meta.whnf");
    let old_prefix = Name::from_str_parts("Lean.Meta");
    let new_prefix = Name::from_str_parts("Lean.Elab");
    let result = n.replace_prefix(&old_prefix, &new_prefix);
    assert_eq!(result, Name::from_str_parts("Lean.Elab.whnf"));
}

#[test]
fn test_contains() {
    let n = Name::from_str_parts("Lean.Meta.whnf");
    assert!(n.contains("whnf"));
    assert!(n.contains("Meta"));
    assert!(!n.contains("Elab"));
}

#[test]
fn test_hash_consistency() {
    // Same name constructed two ways should have same hash
    let a = Name::mk_str(Name::mk_str(Name::anonymous(), "Lean"), "Meta");
    let b = Name::from_str_parts("Lean.Meta");
    assert_eq!(a.hash(), b.hash());
    assert_eq!(a, b);
}

#[test]
fn test_clone_sharing() {
    let a = Name::from_str_parts("Lean.Meta.whnf");
    let b = a.clone();
    assert_eq!(a, b);
    assert_eq!(a.hash(), b.hash());
}

#[test]
fn test_mix_hash_matches_lean4() {
    // Verify our mixHash matches Lean 4's lean_uint64_mix_hash
    // mixHash(1723, string_hash("Nat")) should produce the same result
    let anon_hash: u64 = 1723;
    let nat_str_hash = lean_string_hash("Nat");
    let name_hash = mix_hash(anon_hash, nat_str_hash);
    // The Name constructor should produce the same hash
    let n = Name::mk_simple("Nat");
    assert_eq!(n.hash(), name_hash);
}

#[test]
fn test_empty_string_component() {
    let n = Name::mk_str(Name::anonymous(), "");
    assert!(n.is_str());
    assert_eq!(n.get_string(), "");
}

#[test]
fn test_std_hash_map_usage() {
    let mut map = HashMap::new();
    let n1 = Name::from_str_parts("Lean.Meta.whnf");
    let n2 = Name::from_str_parts("Lean.Meta.isDefEq");
    map.insert(n1.clone(), 1);
    map.insert(n2.clone(), 2);
    assert_eq!(map.get(&n1), Some(&1));
    assert_eq!(map.get(&n2), Some(&2));
}

#[test]
fn test_default_is_anonymous() {
    let n: Name = Default::default();
    assert!(n.is_anonymous());
}

#[test]
fn name_order_is_transitive_across_component_kinds() {
    let x = Name::mk_simple("x");
    let a = Name::mk_num(x.clone(), 1);
    let b = Name::mk_num(x.clone(), 2);
    let c = Name::mk_str(x.clone(), "a");
    assert!(a < b);
    assert!(b < c);
    assert!(a < c);
    assert!(c > a);
}

#[test]
fn dotted_text_skips_empty_parts() {
    assert_eq!(Name::from_str_parts("A..B"), Name::from_str_parts("A.B"));
    assert_eq!(Name::from_str_parts(".A."), Name::mk_simple("A"));
    assert!(Name::from_str_parts("").is_anonymous());
}
