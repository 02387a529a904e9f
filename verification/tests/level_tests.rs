use rslean::level::Level;
use rslean::name::Name;

#[test]
fn test_zero() {
    let z = Level::zero();
    assert!(z.is_zero());
    assert!(z.is_explicit());
    assert_eq!(z.to_explicit(), Some(0));
    assert_eq!(z.depth(), 0);
    assert!(!z.has_mvar());
    assert!(!z.has_param());
    assert_eq!(z.to_string(), "0");
}

#[test]
fn test_succ() {
    let one = Level::one();
    assert!(one.is_succ());
    assert!(one.is_explicit());
    assert_eq!(one.to_explicit(), Some(1));
    assert!(one.is_one());
    assert!(one.succ_of().is_zero());
    assert_eq!(one.to_string(), "1");

    let two = Level::succ(one.clone());
    assert_eq!(two.to_explicit(), Some(2));
    assert_eq!(two.to_string(), "2");
}

#[test]
fn test_param() {
    let u = Level::param(Name::mk_simple("u"));
    assert!(u.is_param());
    assert!(!u.is_explicit());
    assert!(u.has_param());
    assert!(!u.has_mvar());
    assert_eq!(u.param_name(), &Name::mk_simple("u"));
    assert_eq!(u.to_string(), "u");
}

#[test]
fn test_mvar() {
    let m = Level::mvar(Name::mk_simple("m"));
    assert!(m.is_mvar());
    assert!(m.has_mvar());
    assert!(!m.has_param());
    assert_eq!(m.to_string(), "?m");
}

#[test]
fn test_max_simplification() {
    let z = Level::zero();
    let one = Level::one();
    let u = Level::param(Name::mk_simple("u"));

    // max 0 u = u
    assert_eq!(Level::max(z.clone(), u.clone()), u.clone());
    // max u 0 = u
    assert_eq!(Level::max(u.clone(), z.clone()), u.clone());
    // max u u = u
    assert_eq!(Level::max(u.clone(), u.clone()), u.clone());
    // max 0 1 = 1
    assert_eq!(Level::max(z.clone(), one.clone()), one);
}

#[test]
fn test_imax_simplification() {
    let z = Level::zero();
    let u = Level::param(Name::mk_simple("u"));
    let v = Level::param(Name::mk_simple("v"));

    // imax u 0 = 0
    assert!(Level::imax(u.clone(), z.clone()).is_zero());
    // imax 0 v = v
    assert_eq!(Level::imax(z.clone(), v.clone()), v.clone());
    // imax u u = u
    assert_eq!(Level::imax(u.clone(), u.clone()), u);
}

#[test]
fn test_to_offset() {
    let u = Level::param(Name::mk_simple("u"));
    let su = Level::succ(u.clone());
    let ssu = Level::succ(su.clone());
    let (base, offset) = ssu.to_offset();
    assert_eq!(base, u);
    assert_eq!(offset, 2);
}

#[test]
fn level_test_equality() {
    let u = Level::param(Name::mk_simple("u"));
    let v = Level::param(Name::mk_simple("v"));
    let u2 = Level::param(Name::mk_simple("u"));
    assert_eq!(u, u2);
    assert_ne!(u, v);
}

#[test]
fn level_test_instantiate() {
    let u = Level::param(Name::mk_simple("u"));
    let v = Level::param(Name::mk_simple("v"));
    let max_uv = Level::max(u.clone(), v.clone());

    let ps = vec![Name::mk_simple("u")];
    let ls = vec![Level::one()];
    let result = max_uv.instantiate(&ps, &ls);
    // max 1 v => should simplify
    assert_eq!(result, Level::max(Level::one(), v.clone()));
}

#[test]
fn test_is_not_zero() {
    let z = Level::zero();
    let one = Level::one();
    let u = Level::param(Name::mk_simple("u"));
    assert!(!z.is_not_zero());
    assert!(one.is_not_zero());
    assert!(!u.is_not_zero());
    assert!(Level::succ(u.clone()).is_not_zero());
    assert!(Level::max(one.clone(), u.clone()).is_not_zero());
}

#[test]
fn test_is_equivalent() {
    let u = Level::param(Name::mk_simple("u"));
    let max_u_u = Level::max_core(u.clone(), u.clone());
    assert!(u.is_equivalent(&max_u_u));
}

#[test]
fn test_is_geq() {
    let z = Level::zero();
    let one = Level::one();
    let u = Level::param(Name::mk_simple("u"));
    let su = Level::succ(u.clone());

    assert!(one.is_geq(&z));
    assert!(su.is_geq(&u));
    assert!(!u.is_geq(&su));
}

#[test]
fn test_occurs() {
    let u = Level::param(Name::mk_simple("u"));
    let v = Level::param(Name::mk_simple("v"));
    let max = Level::max(u.clone(), v.clone());
    assert!(max.occurs(&u));
    assert!(max.occurs(&v));
    assert!(!max.occurs(&Level::zero()));
}

#[test]
fn test_get_undef_param() {
    let u = Level::param(Name::mk_simple("u"));
    let v = Level::param(Name::mk_simple("v"));
    let max = Level::max(u.clone(), v.clone());
    let params = vec![Name::mk_simple("u")];
    let undef = max.get_undef_param(&params);
    assert_eq!(undef, Some(Name::mk_simple("v")));
}

#[test]
fn test_normalize_max() {
    let u = Level::param(Name::mk_simple("u"));
    let su = Level::succ(u.clone());
    // max u (succ u) should normalize to succ u
    let m = Level::max_core(u.clone(), su.clone());
    let n = m.normalize();
    assert_eq!(n, su);
}

#[test]
fn test_display() {
    let u = Level::param(Name::mk_simple("u"));
    let v = Level::param(Name::mk_simple("v"));
    let max = Level::max(u.clone(), v.clone());
    assert_eq!(max.to_string(), "max u v");

    let su = Level::succ(u.clone());
    assert_eq!(su.to_string(), "succ u");
}

#[test]
fn replace_rebuilds_changed_nodes_with_smart_constructors() {
    let u = Level::param(Name::mk_simple("u"));
    let v = Level::param(Name::mk_simple("v"));
    let l = Level::succ(Level::max(u.clone(), v.clone()));
    let r = l.replace(&|x: &Level| {
        if x.is_param() && x.param_name() == &Name::mk_simple("u") {
            Some(Level::zero())
        } else {
            None
        }
    });
    // max 0 v simplifies to v, so succ (max u v) becomes succ v
    assert_eq!(r, Level::succ(v.clone()));
    let same = l.replace(&|_x: &Level| None);
    assert_eq!(same, l);
    assert_eq!(same.to_string(), l.to_string());
}

#[test]
fn equivalent_levels_by_normal_form() {
    let u = Level::param(Name::mk_simple("u"));
    let v = Level::param(Name::mk_simple("v"));
    let a = Level::max(u.clone(), v.clone());
    let b = Level::max(v.clone(), u.clone());
    assert!(rslean::level_norm::levels_equivalent(&a, &b));
    assert!(rslean::level_norm::levels_equivalent(&a, &a));
    assert!(!rslean::level_norm::levels_equivalent(&u, &v));
    let one = Level::succ(Level::zero());
    assert!(!rslean::level_norm::levels_equivalent(&one, &Level::zero()));
}

#[test]
fn replacing_with_no_answers_or_with_copies_changes_nothing() {
    let u = Level::param(Name::mk_simple("u"));
    let l = Level::max(Level::succ(u.clone()), Level::param(Name::mk_simple("v")));
    let none = l.replace(&|_: &Level| None);
    assert!(rslean::level::levels_equal(&none, &l));
    let same = l.replace(&|x: &Level| Some(x.clone()));
    assert!(rslean::level::levels_equal(&same, &l));
}
