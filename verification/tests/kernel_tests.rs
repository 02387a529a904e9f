use rslean::constant_info::{
    ConstantInfo, Declaration, DefinitionSafety, InductiveType, ReducibilityHints,
};
use rslean::environment::Environment;
use rslean::expr::{BinderInfo, Expr};
use rslean::kernel_error::KernelError;
use rslean::level::Level;
use rslean::literal::Literal;
use rslean::name::Name;
use rslean::stats::DeclarationStats;
use rslean::type_checker::TypeChecker;

// ====================== Environment ======================

#[test]
fn test_empty_env() {
    let env = Environment::new();
    assert_eq!(env.num_constants(), 0);
    assert!(env.find(&Name::mk_simple("Nat")).is_none());
}

#[test]
fn test_add_and_find() {
    let env = Environment::new();
    let nat = ConstantInfo::Axiom {
        name: Name::mk_simple("Nat"),
        level_params: vec![],
        type_: Expr::type_(),
        is_unsafe: false,
    };
    let env2 = env.add_constant(nat).unwrap();
    assert_eq!(env2.num_constants(), 1);
    assert!(env2.find(&Name::mk_simple("Nat")).is_some());
    // Original env unchanged
    assert_eq!(env.num_constants(), 0);
}

#[test]
fn test_duplicate_error() {
    let env = Environment::new();
    let nat = ConstantInfo::Axiom {
        name: Name::mk_simple("Nat"),
        level_params: vec![],
        type_: Expr::type_(),
        is_unsafe: false,
    };
    let env2 = env.add_constant(nat.clone()).unwrap();
    let result = env2.add_constant(nat);
    assert!(result.is_err());
}

#[test]
fn test_quot_initialized() {
    let env = Environment::new();
    assert!(!env.is_quot_initialized());
    let env2 = env.set_quot_initialized();
    assert!(env2.is_quot_initialized());
}

// ====================== Type checker ======================

fn nat_const() -> Expr {
    Expr::const_(Name::mk_simple("Nat"), vec![])
}

fn setup_nat_env() -> Environment {
    let mut env = Environment::new();
    // Nat : Type
    let nat_info = ConstantInfo::Inductive {
        name: Name::mk_simple("Nat"),
        level_params: vec![],
        type_: Expr::type_(),
        num_params: 0,
        num_indices: 0,
        all: vec![Name::mk_simple("Nat")],
        ctors: vec![Name::from_str_parts("Nat.zero"), Name::from_str_parts("Nat.succ")],
        num_nested: 0,
        is_rec: true,
        is_unsafe: false,
        is_reflexive: false,
    };
    env.add_constant_unchecked(nat_info);

    // Nat.zero : Nat
    let zero_info = ConstantInfo::Constructor {
        name: Name::from_str_parts("Nat.zero"),
        level_params: vec![],
        type_: nat_const(),
        induct_name: Name::mk_simple("Nat"),
        ctor_idx: 0,
        num_params: 0,
        num_fields: 0,
        is_unsafe: false,
    };
    env.add_constant_unchecked(zero_info);

    // Nat.succ : Nat → Nat
    let succ_type = Expr::forall_e(Name::mk_simple("n"), nat_const(), nat_const(), BinderInfo::Default);
    let succ_info = ConstantInfo::Constructor {
        name: Name::from_str_parts("Nat.succ"),
        level_params: vec![],
        type_: succ_type,
        induct_name: Name::mk_simple("Nat"),
        ctor_idx: 1,
        num_params: 0,
        num_fields: 1,
        is_unsafe: false,
    };
    env.add_constant_unchecked(succ_info);
    env
}

#[test]
fn test_infer_sort() {
    let env = Environment::new();
    let mut tc = TypeChecker::new(env);
    let ty = tc.infer_type(&Expr::prop()).unwrap();
    // Prop : Type = Sort 1
    assert!(ty == Expr::sort(Level::one()));
}

#[test]
fn test_infer_const() {
    let env = setup_nat_env();
    let mut tc = TypeChecker::new(env);
    let ty = tc.infer_type(&nat_const()).unwrap();
    // Nat : Type
    assert!(ty == Expr::type_());
}

#[test]
fn test_infer_app() {
    let env = setup_nat_env();
    let mut tc = TypeChecker::new(env);
    let succ = Expr::const_(Name::from_str_parts("Nat.succ"), vec![]);
    let zero = Expr::const_(Name::from_str_parts("Nat.zero"), vec![]);
    let app = Expr::app(succ, zero);
    let ty = tc.infer_type(&app).unwrap();
    assert!(ty == nat_const());
}

#[test]
fn test_infer_lambda() {
    let env = setup_nat_env();
    let mut tc = TypeChecker::new(env);
    // fun (x : Nat) => x
    let id = Expr::lam(Name::mk_simple("x"), nat_const(), Expr::bvar(0), BinderInfo::Default);
    let ty = tc.infer_type(&id).unwrap();
    // Should be Nat → Nat
    assert!(ty.is_forall());
}

#[test]
fn test_whnf_delta() {
    let mut env = setup_nat_env();
    // Add: myDef := Nat.zero
    let info = ConstantInfo::Definition {
        name: Name::mk_simple("myDef"),
        level_params: vec![],
        type_: nat_const(),
        value: Expr::const_(Name::from_str_parts("Nat.zero"), vec![]),
        hints: ReducibilityHints::Regular(1),
        safety: DefinitionSafety::Safe,
    };
    env.add_constant_unchecked(info);
    let mut tc = TypeChecker::new(env);

    let my_def = Expr::const_(Name::mk_simple("myDef"), vec![]);
    let reduced = tc.whnf(&my_def).unwrap();
    assert!(reduced == Expr::const_(Name::from_str_parts("Nat.zero"), vec![]));
}

#[test]
fn test_whnf_beta() {
    let env = setup_nat_env();
    let mut tc = TypeChecker::new(env);
    // (fun x => x) Nat.zero → Nat.zero
    let id = Expr::lam(Name::mk_simple("x"), nat_const(), Expr::bvar(0), BinderInfo::Default);
    let zero = Expr::const_(Name::from_str_parts("Nat.zero"), vec![]);
    let app = Expr::app(id, zero.clone());
    let reduced = tc.whnf(&app).unwrap();
    assert!(reduced == zero);
}

#[test]
fn test_whnf_let() {
    let env = setup_nat_env();
    let mut tc = TypeChecker::new(env);
    let zero = Expr::const_(Name::from_str_parts("Nat.zero"), vec![]);
    let let_expr = Expr::let_e(Name::mk_simple("x"), nat_const(), zero.clone(), Expr::bvar(0), false);
    let reduced = tc.whnf(&let_expr).unwrap();
    assert!(reduced == zero);
}

#[test]
fn test_def_eq_simple() {
    let env = setup_nat_env();
    let mut tc = TypeChecker::new(env);
    let n = nat_const();
    assert!(tc.is_def_eq(&n, &n).unwrap());

    let zero = Expr::const_(Name::from_str_parts("Nat.zero"), vec![]);
    assert!(!tc.is_def_eq(&n, &zero).unwrap());
}

#[test]
fn test_def_eq_delta() {
    let mut env = setup_nat_env();
    let zero = Expr::const_(Name::from_str_parts("Nat.zero"), vec![]);
    let info = ConstantInfo::Definition {
        name: Name::mk_simple("myZero"),
        level_params: vec![],
        type_: nat_const(),
        value: zero.clone(),
        hints: ReducibilityHints::Regular(1),
        safety: DefinitionSafety::Safe,
    };
    env.add_constant_unchecked(info);
    let mut tc = TypeChecker::new(env);

    let my_zero = Expr::const_(Name::mk_simple("myZero"), vec![]);
    assert!(tc.is_def_eq(&my_zero, &zero).unwrap());
}

#[test]
fn test_def_eq_universe_levels() {
    let env = Environment::new();
    let mut tc = TypeChecker::new(env);
    let s1 = Expr::sort(Level::zero());
    let s2 = Expr::sort(Level::zero());
    assert!(tc.is_def_eq(&s1, &s2).unwrap());

    let s3 = Expr::sort(Level::one());
    assert!(!tc.is_def_eq(&s1, &s3).unwrap());
}

#[test]
fn test_check_axiom() {
    let env = Environment::new();
    let mut tc = TypeChecker::new(env);
    let decl = Declaration::Axiom {
        name: Name::mk_simple("MyType"),
        level_params: vec![],
        type_: Expr::type_(),
        is_unsafe: false,
    };
    let new_env = tc.check_and_add(decl).unwrap();
    assert!(new_env.find(&Name::mk_simple("MyType")).is_some());
}

#[test]
fn test_check_definition() {
    let env = setup_nat_env();
    let mut tc = TypeChecker::new(env);
    let zero = Expr::const_(Name::from_str_parts("Nat.zero"), vec![]);
    let decl = Declaration::Definition {
        name: Name::mk_simple("myVal"),
        level_params: vec![],
        type_: nat_const(),
        value: zero,
        hints: ReducibilityHints::Regular(1),
        safety: DefinitionSafety::Safe,
    };
    let new_env = tc.check_and_add(decl).unwrap();
    assert!(new_env.find(&Name::mk_simple("myVal")).is_some());
}

#[test]
fn test_infer_lit() {
    let mut env = setup_nat_env();
    // Add String type
    let str_info = ConstantInfo::Axiom {
        name: Name::mk_simple("String"),
        level_params: vec![],
        type_: Expr::type_(),
        is_unsafe: false,
    };
    env.add_constant_unchecked(str_info);
    let mut tc = TypeChecker::new(env);

    let nat_lit = Expr::lit(Literal::nat_small(42));
    let ty = tc.infer_type(&nat_lit).unwrap();
    assert!(ty == nat_const());

    let str_lit = Expr::lit(Literal::string("hello".to_string()));
    let ty = tc.infer_type(&str_lit).unwrap();
    assert!(ty == Expr::const_(Name::mk_simple("String"), vec![]));
}

// ---- further checks ----

#[test]
fn environment_lookups_by_kind() {
    let env = setup_nat_env();
    assert_eq!(env.num_constants(), 3);
    assert!(env.is_inductive(&Name::mk_simple("Nat")));
    assert!(env.is_constructor(&Name::from_str_parts("Nat.succ")));
    assert!(!env.is_recursor(&Name::mk_simple("Nat")));
    match env.get(&Name::mk_simple("Int")) {
        Err(e) => assert_eq!(e.message(), "unknown constant 'Int'"),
        Ok(_) => panic!("Int is not declared"),
    }
    let mut seen = 0;
    env.for_each_constant(|_| seen += 1);
    assert_eq!(seen, 3);
}

#[test]
fn adding_twice_is_refused_with_already_declared() {
    let mut tc = TypeChecker::new(Environment::new());
    let decl_a = || Declaration::Axiom {
        name: Name::mk_simple("A"),
        level_params: vec![],
        type_: Expr::type_(),
        is_unsafe: false,
    };
    tc.check_and_add(decl_a()).unwrap();
    match tc.check_and_add(decl_a()) {
        Err(KernelError::AlreadyDeclared(n)) => assert_eq!(n.to_string(), "A"),
        other => panic!("expected AlreadyDeclared, got {:?}", other),
    }
    assert_eq!(tc.env().num_constants(), 1);
}

#[test]
fn declarations_with_free_or_meta_variables_are_refused() {
    let mut tc = TypeChecker::new(Environment::new());
    let with_fvar = Declaration::Axiom {
        name: Name::mk_simple("F"),
        level_params: vec![],
        type_: Expr::fvar(Name::mk_simple("x")),
        is_unsafe: false,
    };
    assert!(matches!(tc.check_and_add(with_fvar), Err(KernelError::HasFVar(_))));
    let with_mvar = Declaration::Axiom {
        name: Name::mk_simple("M"),
        level_params: vec![],
        type_: Expr::mvar(Name::mk_simple("m")),
        is_unsafe: false,
    };
    match tc.check_and_add(with_mvar) {
        Err(e) => assert_eq!(e.message(), "declaration has metavariables: M"),
        Ok(_) => panic!("expected an error"),
    }
}

#[test]
fn quot_and_inductive_declarations() {
    let mut tc = TypeChecker::new(Environment::new());
    let env = tc.check_and_add(Declaration::Quot).unwrap();
    assert!(env.is_quot_initialized());
    let ind = Declaration::InductiveDecl {
        level_params: vec![],
        num_params: 0,
        types: vec![InductiveType { name: Name::mk_simple("T"), type_: Expr::type_(), ctors: vec![] }],
        is_unsafe: false,
    };
    match tc.check_and_add(ind) {
        Err(e) => assert_eq!(e.message(), "inductive error: inductive checking not yet implemented"),
        Ok(_) => panic!("expected an error"),
    }
}

#[test]
fn definition_with_wrong_type_is_a_mismatch() {
    let mut tc = TypeChecker::new(setup_nat_env());
    let decl = Declaration::Definition {
        name: Name::mk_simple("bad"),
        level_params: vec![],
        type_: nat_const(),
        value: Expr::type_(),
        hints: ReducibilityHints::Opaque,
        safety: DefinitionSafety::Safe,
    };
    assert!(matches!(tc.check_and_add(decl), Err(KernelError::TypeMismatch { .. })));
}

#[test]
fn loose_variables_and_metavariables_have_no_type() {
    let mut tc = TypeChecker::new(Environment::new());
    assert!(matches!(tc.infer_type(&Expr::bvar(0)), Err(KernelError::Panic(_))));
    match tc.infer_type(&Expr::const_(Name::mk_simple("Nope"), vec![])) {
        Err(KernelError::UnknownConstant(n)) => assert_eq!(n.to_string(), "Nope"),
        other => panic!("expected UnknownConstant, got {:?}", other),
    }
    match tc.ensure_sort(&Expr::bvar(3)) {
        Err(KernelError::TypeExpected(e)) => assert!(e == Expr::bvar(3)),
        other => panic!("expected TypeExpected, got {:?}", other),
    }
}

#[test]
fn the_step_budget_bounds_the_work() {
    let mut tc = TypeChecker::with_budget(setup_nat_env(), 0);
    match tc.whnf(&nat_const()) {
        Err(e) => assert_eq!(e.message(), "kernel panic: step budget exhausted"),
        Ok(_) => panic!("no steps were left"),
    }
}

#[test]
fn def_eq_is_reflexive_and_unfolds_projections() {
    let mut tc = TypeChecker::new(setup_nat_env());
    let e = Expr::app(
        Expr::const_(Name::from_str_parts("Nat.succ"), vec![]),
        Expr::const_(Name::from_str_parts("Nat.zero"), vec![]),
    );
    assert!(tc.is_def_eq(&e, &e).unwrap());
    // Prop and Type are different sorts; max 0 1 and 1 are the same level
    let m = Expr::sort(Level::max(Level::zero(), Level::one()));
    assert!(tc.is_def_eq(&m, &Expr::type_()).unwrap());
    assert!(tc.ensure_pi(&Expr::type_()).is_err());
}

#[test]
fn declaration_statistics_count_each_kind() {
    let env = setup_nat_env();
    let mut constants = Vec::new();
    env.for_each_constant(|c| constants.push(c.clone()));
    let mut stats = DeclarationStats::new();
    stats.add_constants(&constants);
    assert_eq!(stats.inductives, 1);
    assert_eq!(stats.constructors, 2);
    assert_eq!(stats.axioms, 0);
    assert_eq!(stats.total(), 3);
    stats.add_constants(&constants);
    assert_eq!(stats.constructors, 4);
    assert_eq!(stats.total(), 6);
}

#[test]
fn kernel_error_messages() {
    let e = Expr::bvar(0);
    assert_eq!(
        KernelError::TypeExpected(e.clone()).message(),
        "type expected: #0"
    );
    assert_eq!(
        KernelError::IncorrectNumLevels { name: Name::mk_simple("f"), expected: 1, got: 2 }
            .message(),
        "incorrect number of universe levels for 'f': expected 1, got 2"
    );
    assert_eq!(KernelError::QuotNotInitialized.message(), "quotient not initialized");
}

#[test]
fn cached_answers_survive_an_exhausted_budget() {
    let mut tc = TypeChecker::with_budget(setup_nat_env(), 1);
    let prop = Expr::sort(Level::zero());
    let ty = tc.infer_type(&prop).unwrap();
    assert!(ty == Expr::type_());
    // no steps are left, but the answer for `Prop` is cached
    assert!(tc.infer_type(&prop).unwrap() == Expr::type_());
    match tc.infer_type(&Expr::type_()) {
        Err(e) => assert_eq!(e.message(), "kernel panic: step budget exhausted"),
        Ok(_) => panic!("no steps were left"),
    }
    let a = Expr::sort(Level::one());
    match tc.is_def_eq(&a, &prop) {
        Err(e) => assert_eq!(e.message(), "kernel panic: step budget exhausted"),
        Ok(_) => panic!("no steps were left"),
    }
}
