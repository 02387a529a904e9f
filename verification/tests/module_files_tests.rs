use rslean::module_files::{first_found, module_file_parts, LoadPlan};
use rslean::name::Name;

#[test]
fn module_file_of_dotted_name() {
    let parts = module_file_parts(&Name::from_str_parts("Init.Prelude")).unwrap();
    assert_eq!(parts, vec!["Init".to_string(), "Prelude.olean".to_string()]);
}

#[test]
fn module_file_of_single_component() {
    let parts = module_file_parts(&Name::from_str_parts("Lean")).unwrap();
    assert_eq!(parts, vec!["Lean.olean".to_string()]);
}

#[test]
fn module_file_of_anonymous_name() {
    assert!(module_file_parts(&Name::anonymous()).is_none());
}

#[test]
fn module_file_replaces_an_extension_of_the_last_component() {
    let name = Name::mk_str(Name::mk_str(Name::anonymous(), "A"), "b.c");
    let parts = module_file_parts(&name).unwrap();
    assert_eq!(parts, vec!["A".to_string(), "b.olean".to_string()]);
}

#[test]
fn first_found_picks_the_first_existing() {
    assert_eq!(first_found(&[false, true, true]), Some(1));
    assert_eq!(first_found(&[false, false]), None);
    assert_eq!(first_found(&[]), None);
}

#[test]
fn load_plan_visits_each_file_once_breadth_first() {
    let mut plan = LoadPlan::new(vec!["a".to_string(), "b".to_string()]);
    assert_eq!(plan.next_file(), Some("a".to_string()));
    plan.record_loaded(vec![
        ("c".to_string(), Name::from_str_parts("C")),
        ("b".to_string(), Name::from_str_parts("B")),
    ]);
    assert_eq!(plan.next_file(), Some("b".to_string()));
    assert_eq!(plan.module_name("b"), Some(Name::from_str_parts("B")));
    assert_eq!(plan.module_name("a"), None);
    plan.record_loaded(vec![]);
    assert_eq!(plan.next_file(), Some("c".to_string()));
    plan.record_loaded(vec![("a".to_string(), Name::from_str_parts("A"))]);
    // "b" again and "a" were loaded already.
    assert_eq!(plan.next_file(), None);
    assert_eq!(
        plan.loaded_files().to_vec(),
        vec!["a".to_string(), "b".to_string(), "c".to_string()]
    );
}

#[test]
fn load_plan_keeps_the_last_name_recorded() {
    let mut plan = LoadPlan::new(vec!["x".to_string()]);
    assert_eq!(plan.next_file(), Some("x".to_string()));
    plan.record_loaded(vec![
        ("y".to_string(), Name::from_str_parts("First")),
        ("y".to_string(), Name::from_str_parts("Second")),
    ]);
    assert_eq!(plan.module_name("y"), Some(Name::from_str_parts("Second")));
}
