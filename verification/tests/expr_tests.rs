use rslean::expr::{BinderInfo, Expr};
use rslean::level::Level;
use rslean::literal::{Literal, Natural};
use rslean::name::Name;

fn cnst(s: &str) -> Expr {
    Expr::const_(Name::mk_simple(s), vec![])
}

#[test]
fn test_bvar() {
    let b = Expr::bvar(0);
    assert!(b.is_bvar());
    assert_eq!(b.bvar_idx(), 0);
    assert!(b.has_loose_bvars());
    assert_eq!(b.loose_bvar_range(), 1);
}

#[test]
fn test_sort() {
    let p = Expr::prop();
    assert!(p.is_sort());
    assert!(p.is_prop());
    assert_eq!(p.to_string(), "Prop");
    let t = Expr::type_();
    assert!(!t.is_prop());
    assert_eq!(t.to_string(), "Type");
}

#[test]
fn test_const() {
    let c = Expr::const_(Name::from_str_parts("Nat.add"), vec![]);
    assert!(c.is_const());
    assert_eq!(c.const_name(), &Name::from_str_parts("Nat.add"));
}

#[test]
fn test_app() {
    let f = cnst("f");
    let a = cnst("a");
    let app = Expr::app(f.clone(), a.clone());
    assert!(app.is_app());
    assert_eq!(app.app_fn(), &f);
    assert_eq!(app.app_arg(), &a);
    assert_eq!(app.get_app_num_args(), 1);
}

#[test]
fn test_lambda() {
    let body = Expr::bvar(0);
    let ty = Expr::type_();
    let lam = Expr::lam(Name::mk_simple("x"), ty.clone(), body, BinderInfo::Default);
    assert!(lam.is_lam());
    assert!(!lam.has_loose_bvars());
    assert_eq!(lam.binding_info(), BinderInfo::Default);
}

#[test]
fn test_forall() {
    let body = Expr::bvar(0);
    let ty = Expr::type_();
    let pi = Expr::forall_e(Name::mk_simple("x"), ty, body, BinderInfo::Default);
    assert!(pi.is_forall());
    assert!(pi.is_binding());
}

#[test]
fn expr_test_instantiate() {
    let body = Expr::bvar(0);
    let c = cnst("c");
    let result = body.instantiate1(&c);
    assert_eq!(result, c);
}

#[test]
fn test_instantiate_nested() {
    let body = Expr::app(Expr::bvar(1), Expr::bvar(0));
    let a = cnst("a");
    let b = cnst("b");
    let result = body.instantiate(&[b.clone(), a.clone()]);
    assert_eq!(result, Expr::app(a, b));
}

#[test]
fn test_head_beta_reduce() {
    let body = Expr::bvar(0);
    let lam = Expr::lam(Name::mk_simple("x"), Expr::type_(), body, BinderInfo::Default);
    let c = cnst("c");
    let app = Expr::app(lam, c.clone());
    assert!(app.is_head_beta());
    let result = app.head_beta_reduce();
    assert_eq!(result, c);
}

#[test]
fn test_abstract() {
    let c = cnst("c");
    let body = Expr::app(c.clone(), c.clone());
    let abstracted = body.abstract_(&[c.clone()]);
    let expected = Expr::app(Expr::bvar(0), Expr::bvar(0));
    assert_eq!(abstracted, expected);
}

#[test]
fn test_lift_lower() {
    let b0 = Expr::bvar(0);
    let lifted = b0.lift_loose_bvars(0, 2);
    assert_eq!(lifted.bvar_idx(), 2);
    let lowered = lifted.lower_loose_bvars(0, 2);
    assert_eq!(lowered, b0);
}

#[test]
fn expr_test_equality() {
    let a = cnst("Nat");
    let b = cnst("Nat");
    let c = cnst("Bool");
    assert_eq!(a, b);
    assert_ne!(a, c);
}

#[test]
fn test_get_app_args() {
    let f = cnst("f");
    let a1 = cnst("a");
    let a2 = cnst("b");
    let app = Expr::app(Expr::app(f.clone(), a1.clone()), a2.clone());
    let mut args = Vec::new();
    let head = app.get_app_args(&mut args);
    assert_eq!(head, &f);
    assert_eq!(args, vec![a1, a2]);
}

#[test]
fn test_lit() {
    let n = Expr::lit(Literal::nat_small(42));
    assert!(n.is_lit());
    assert!(!n.has_loose_bvars());
    assert_eq!(n.to_string(), "42");
}

#[test]
fn test_proj() {
    let e = cnst("p");
    let p = Expr::proj(Name::mk_simple("Prod"), 0, e);
    assert!(p.is_proj());
    assert_eq!(p.proj_idx(), 0);
}

#[test]
fn test_instantiate_level_params() {
    let u = Name::mk_simple("u");
    let e = Expr::sort(Level::param(u.clone()));
    let result = e.instantiate_level_params(&[u], &[Level::one()]);
    assert_eq!(result, Expr::sort(Level::one()));
}

#[test]
fn test_has_loose_bvar() {
    let body = Expr::app(Expr::bvar(0), Expr::bvar(1));
    assert!(body.has_loose_bvar(0));
    assert!(body.has_loose_bvar(1));
    assert!(!body.has_loose_bvar(2));
}

#[test]
fn binders_close_their_variable_and_ignore_names_in_structure() {
    let lam = Expr::lam(Name::mk_simple("x"), Expr::type_(), Expr::bvar(1), BinderInfo::Default);
    assert_eq!(lam.loose_bvar_range(), 1);
    assert!(lam.has_loose_bvar(0));
    let lam_y = Expr::lam(Name::mk_simple("y"), Expr::type_(), Expr::bvar(1), BinderInfo::Default);
    assert_ne!(lam, lam_y);
    assert_eq!(lam.approx_depth(), 1);
}

#[test]
fn display_of_binders_constants_and_projections() {
    let arrow = Expr::arrow(cnst("A"), cnst("B"));
    assert_eq!(arrow.to_string(), "(A → B)");
    let pi = Expr::forall_e(Name::mk_simple("x"), cnst("A"), Expr::bvar(0), BinderInfo::Implicit);
    assert_eq!(pi.to_string(), "(∀ x : A, #0)");
    let lam = Expr::lam(Name::mk_simple("x"), cnst("A"), Expr::bvar(0), BinderInfo::Default);
    assert_eq!(lam.to_string(), "(fun x : A => #0)");
    let c = Expr::const_(Name::mk_simple("List"), vec![Level::param(Name::mk_simple("u")), Level::one()]);
    assert_eq!(c.to_string(), "List.{u, 1}");
    let p = Expr::proj(Name::mk_simple("Prod"), 1, cnst("p"));
    assert_eq!(p.to_string(), "Prod.1 p");
    let l = Expr::let_e(Name::mk_simple("x"), cnst("A"), cnst("a"), Expr::bvar(0), false);
    assert_eq!(l.to_string(), "(let x : A := a in #0)");
    let s = Expr::lit(Literal::string("hi".to_string()));
    assert_eq!(s.to_string(), "\"hi\"");
    assert_eq!(Expr::mvar(Name::mk_simple("m")).to_string(), "?m");
    assert_eq!(Expr::sort(Level::param(Name::mk_simple("u"))).to_string(), "Sort u");
}

#[test]
fn instantiate_rev_and_lifting_under_binders() {
    let body = Expr::app(Expr::bvar(1), Expr::bvar(0));
    let a = cnst("a");
    let b = cnst("b");
    let r = body.instantiate_rev(&[a.clone(), b.clone()]);
    assert_eq!(r, Expr::app(a.clone(), b.clone()));
    let lam = Expr::lam(Name::mk_simple("x"), Expr::type_(), Expr::app(Expr::bvar(0), Expr::bvar(1)), BinderInfo::Default);
    let lifted = lam.lift_loose_bvars(0, 3);
    let expected = Expr::lam(Name::mk_simple("x"), Expr::type_(), Expr::app(Expr::bvar(0), Expr::bvar(4)), BinderInfo::Default);
    assert_eq!(lifted, expected);
    assert_eq!(lifted.lower_loose_bvars(0, 3), lam);
    let under = Expr::lam(Name::mk_simple("x"), Expr::type_(), Expr::bvar(1), BinderInfo::Default);
    let inst = under.instantiate1(&Expr::bvar(5));
    assert_eq!(inst, Expr::lam(Name::mk_simple("x"), Expr::type_(), Expr::bvar(6), BinderInfo::Default));
}

#[test]
fn big_natural_literals_and_mdata() {
    let n = Natural::from_digits(vec![0, 1, 0]);
    assert_eq!(n.to_u64(), Some(1u64 << 32));
    let e = Expr::lit(Literal::natural(n));
    assert_eq!(e.to_string(), "4294967296");
    let md = Expr::mdata(vec![], cnst("x"));
    assert!(md.is_mdata());
    assert_eq!(md.to_string(), "x");
    assert_eq!(md.mdata_expr(), &cnst("x"));
    let mk = Expr::mk_app(cnst("f"), &[cnst("a"), cnst("b")]);
    assert_eq!(mk.get_app_num_args(), 2);
    assert_eq!(mk.get_app_fn(), &cnst("f"));
}

#[test]
fn instantiate_undoes_abstract() {
    let c = cnst("c");
    let f = cnst("f");
    let body = Expr::app(c.clone(), Expr::bvar(0));
    let lam = Expr::lam(Name::mk_simple("x"), Expr::type_(), body, BinderInfo::Default);
    let e = Expr::app(f.clone(), lam);
    let abstracted = e.abstract_(&[c.clone()]);
    let expected_body = Expr::app(Expr::bvar(1), Expr::bvar(0));
    let expected = Expr::app(
        f.clone(),
        Expr::lam(Name::mk_simple("x"), Expr::type_(), expected_body, BinderInfo::Default),
    );
    assert_eq!(abstracted, expected);
    assert_eq!(abstracted.instantiate(&[c.clone()]), e);
}

#[test]
fn replace_substitutes_below_binders() {
    let c = cnst("c");
    let d = cnst("d");
    let body = Expr::app(c.clone(), Expr::bvar(0));
    let e = Expr::lam(Name::mk_simple("x"), c.clone(), body, BinderInfo::Default);
    let r = e.replace(&|x: &Expr| if *x == c { Some(d.clone()) } else { None });
    let expected = Expr::lam(
        Name::mk_simple("x"),
        d.clone(),
        Expr::app(d.clone(), Expr::bvar(0)),
        BinderInfo::Default,
    );
    assert_eq!(r, expected);
}
