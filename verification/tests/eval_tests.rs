use rslean::constant_info::{ConstantInfo, DefinitionSafety, RecursorRule, ReducibilityHints};
use rslean::environment::Environment;
use rslean::eval::Interpreter;
use rslean::expr::{BinderInfo, Expr};
use rslean::interp::{InterpError, LocalEnv, Value};
use rslean::level::Level;
use rslean::literal::Literal;
use rslean::name::Name;

fn make_interp() -> Interpreter {
    Interpreter::new(Environment::new())
}

fn nat_of(v: &Value) -> Option<u64> {
    v.as_nat().and_then(|n| n.to_u64())
}

fn nat_lit(n: u64) -> Expr {
    Expr::lit(Literal::nat_small(n))
}

fn str_lit(s: &str) -> Expr {
    Expr::lit(Literal::string(s.to_string()))
}

/// An environment declaring `name` as an axiom with `arity` explicit binders.
fn env_with_builtin(name: &str, arity: u32) -> Environment {
    let mut ty = Expr::type_();
    for _ in 0..arity {
        ty = Expr::forall_e(Name::anonymous(), Expr::type_(), ty, BinderInfo::Default);
    }
    Environment::new()
        .add_constant(ConstantInfo::Axiom {
            name: Name::from_str_parts(name),
            level_params: vec![],
            type_: ty,
            is_unsafe: false,
        })
        .unwrap()
}

fn eval_builtin(name: &str, arity: u32, args: &[Expr]) -> Value {
    let mut interp = Interpreter::new(env_with_builtin(name, arity));
    let app = Expr::mk_app(Expr::const_(Name::from_str_parts(name), vec![]), args);
    interp.eval(&app, &LocalEnv::new()).unwrap()
}

#[test]
fn test_eval_nat_lit() {
    let mut interp = make_interp();
    let val = interp.eval(&nat_lit(42), &LocalEnv::new()).unwrap();
    assert_eq!(nat_of(&val), Some(42));
}

#[test]
fn test_eval_string_lit() {
    let mut interp = make_interp();
    let val = interp.eval(&str_lit("hello"), &LocalEnv::new()).unwrap();
    assert_eq!(val.as_str().unwrap(), "hello");
}

#[test]
fn test_eval_bvar() {
    let mut interp = make_interp();
    let env = LocalEnv::new().push(Value::nat_small(7));
    let val = interp.eval(&Expr::bvar(0), &env).unwrap();
    assert_eq!(nat_of(&val), Some(7));
}

#[test]
fn test_eval_bvar_unbound() {
    let mut interp = make_interp();
    assert!(interp.eval(&Expr::bvar(0), &LocalEnv::new()).is_err());
}

#[test]
fn test_eval_identity() {
    let mut interp = make_interp();
    let lam = Expr::lam(Name::mk_simple("x"), Expr::type_(), Expr::bvar(0), BinderInfo::Default);
    let app = Expr::app(lam, nat_lit(42));
    let val = interp.eval(&app, &LocalEnv::new()).unwrap();
    assert_eq!(nat_of(&val), Some(42));
}

#[test]
fn test_eval_const_fn() {
    let mut interp = make_interp();
    let inner_lam = Expr::lam(Name::mk_simple("y"), Expr::type_(), Expr::bvar(1), BinderInfo::Default);
    let outer_lam = Expr::lam(Name::mk_simple("x"), Expr::type_(), inner_lam, BinderInfo::Default);
    let app1 = Expr::app(outer_lam, nat_lit(1));
    let app2 = Expr::app(app1, nat_lit(2));
    let val = interp.eval(&app2, &LocalEnv::new()).unwrap();
    assert_eq!(nat_of(&val), Some(1));
}

#[test]
fn test_eval_let() {
    let mut interp = make_interp();
    let expr = Expr::let_e(Name::mk_simple("x"), Expr::type_(), nat_lit(5), Expr::bvar(0), false);
    let val = interp.eval(&expr, &LocalEnv::new()).unwrap();
    assert_eq!(nat_of(&val), Some(5));
}

#[test]
fn test_eval_nested_let() {
    let mut interp = make_interp();
    let inner_let = Expr::let_e(Name::mk_simple("y"), Expr::type_(), nat_lit(7), Expr::bvar(1), false);
    let outer_let = Expr::let_e(Name::mk_simple("x"), Expr::type_(), nat_lit(3), inner_let, false);
    let val = interp.eval(&outer_let, &LocalEnv::new()).unwrap();
    assert_eq!(nat_of(&val), Some(3));
}

#[test]
fn test_eval_sort_erased() {
    let mut interp = make_interp();
    let val = interp.eval(&Expr::sort(Level::zero()), &LocalEnv::new()).unwrap();
    assert!(matches!(val, Value::Erased));
}

#[test]
fn test_eval_forall_erased() {
    let mut interp = make_interp();
    let expr = Expr::forall_e(Name::mk_simple("x"), Expr::type_(), Expr::type_(), BinderInfo::Default);
    let val = interp.eval(&expr, &LocalEnv::new()).unwrap();
    assert!(matches!(val, Value::Erased));
}

#[test]
fn test_eval_mdata() {
    let mut interp = make_interp();
    let expr = Expr::mdata(vec![], nat_lit(99));
    let val = interp.eval(&expr, &LocalEnv::new()).unwrap();
    assert_eq!(nat_of(&val), Some(99));
}

fn env_with_id() -> Environment {
    let id_body = Expr::lam(
        Name::mk_simple("α"),
        Expr::type_(),
        Expr::lam(Name::mk_simple("x"), Expr::bvar(0), Expr::bvar(0), BinderInfo::Default),
        BinderInfo::Implicit,
    );
    let id_type = Expr::forall_e(
        Name::mk_simple("α"),
        Expr::type_(),
        Expr::forall_e(Name::mk_simple("x"), Expr::bvar(0), Expr::bvar(1), BinderInfo::Default),
        BinderInfo::Implicit,
    );
    Environment::new()
        .add_constant(ConstantInfo::Definition {
            name: Name::mk_simple("id"),
            level_params: vec![],
            type_: id_type,
            value: id_body,
            hints: ReducibilityHints::Abbreviation,
            safety: DefinitionSafety::Safe,
        })
        .unwrap()
}

#[test]
fn test_eval_definition_id() {
    let mut interp = Interpreter::new(env_with_id());
    let id_const = Expr::const_(Name::mk_simple("id"), vec![]);
    let app = Expr::mk_app(id_const, &[Expr::type_(), nat_lit(42)]);
    let val = interp.eval(&app, &LocalEnv::new()).unwrap();
    assert_eq!(nat_of(&val), Some(42));
}

fn env_with_pair() -> Environment {
    let env = Environment::new()
        .add_constant(ConstantInfo::Inductive {
            name: Name::from_str_parts("Prod"),
            level_params: vec![],
            type_: Expr::type_(),
            num_params: 2,
            num_indices: 0,
            all: vec![Name::from_str_parts("Prod")],
            ctors: vec![Name::from_str_parts("Prod.mk")],
            num_nested: 0,
            is_rec: false,
            is_unsafe: false,
            is_reflexive: false,
        })
        .unwrap();
    env.add_constant(ConstantInfo::Constructor {
        name: Name::from_str_parts("Prod.mk"),
        level_params: vec![],
        type_: Expr::type_(),
        induct_name: Name::from_str_parts("Prod"),
        ctor_idx: 0,
        num_params: 2,
        num_fields: 2,
        is_unsafe: false,
    })
    .unwrap()
}

fn pair_3_7() -> Expr {
    let mk = Expr::const_(Name::from_str_parts("Prod.mk"), vec![]);
    Expr::mk_app(mk, &[Expr::type_(), Expr::type_(), nat_lit(3), nat_lit(7)])
}

#[test]
fn test_eval_constructor() {
    let mut interp = Interpreter::new(env_with_pair());
    let val = interp.eval(&pair_3_7(), &LocalEnv::new()).unwrap();
    match &val {
        Value::Ctor { tag, fields, .. } => {
            assert_eq!(*tag, 0);
            assert_eq!(fields.len(), 2);
            assert_eq!(nat_of(&fields[0]), Some(3));
            assert_eq!(nat_of(&fields[1]), Some(7));
        }
        _ => panic!("expected Ctor, got {:?}", val),
    }
}

#[test]
fn test_eval_projection() {
    let mut interp = Interpreter::new(env_with_pair());
    let proj0 = Expr::proj(Name::from_str_parts("Prod"), 0, pair_3_7());
    let proj1 = Expr::proj(Name::from_str_parts("Prod"), 1, pair_3_7());
    let v0 = interp.eval(&proj0, &LocalEnv::new()).unwrap();
    assert_eq!(nat_of(&v0), Some(3));
    let v1 = interp.eval(&proj1, &LocalEnv::new()).unwrap();
    assert_eq!(nat_of(&v1), Some(7));
}

fn ctor(name: &str, induct: &str, idx: u32, fields: u32, ty: Expr) -> ConstantInfo {
    ConstantInfo::Constructor {
        name: Name::from_str_parts(name),
        level_params: vec![],
        type_: ty,
        induct_name: Name::from_str_parts(induct),
        ctor_idx: idx,
        num_params: 0,
        num_fields: fields,
        is_unsafe: false,
    }
}

fn inductive(name: &str, ctors: &[&str], is_rec: bool) -> ConstantInfo {
    ConstantInfo::Inductive {
        name: Name::from_str_parts(name),
        level_params: vec![],
        type_: Expr::type_(),
        num_params: 0,
        num_indices: 0,
        all: vec![Name::from_str_parts(name)],
        ctors: ctors.iter().map(|c| Name::from_str_parts(c)).collect(),
        num_nested: 0,
        is_rec,
        is_unsafe: false,
        is_reflexive: false,
    }
}

fn env_with_bool_rec() -> Environment {
    let bool_ty = Expr::const_(Name::from_str_parts("Bool"), vec![]);
    let env = Environment::new()
        .add_constant(inductive("Bool", &["Bool.false", "Bool.true"], false))
        .unwrap();
    let env = env.add_constant(ctor("Bool.false", "Bool", 0, 0, bool_ty.clone())).unwrap();
    let env = env.add_constant(ctor("Bool.true", "Bool", 1, 0, bool_ty)).unwrap();
    env.add_constant(ConstantInfo::Recursor {
        name: Name::from_str_parts("Bool.rec"),
        level_params: vec![Name::mk_simple("u")],
        type_: Expr::type_(),
        all: vec![Name::from_str_parts("Bool")],
        num_params: 0,
        num_indices: 0,
        num_motives: 1,
        num_minors: 2,
        rules: vec![
            RecursorRule {
                ctor_name: Name::from_str_parts("Bool.false"),
                num_fields: 0,
                rhs: Expr::bvar(1),
            },
            RecursorRule {
                ctor_name: Name::from_str_parts("Bool.true"),
                num_fields: 0,
                rhs: Expr::bvar(0),
            },
        ],
        is_k: true,
        is_unsafe: false,
    })
    .unwrap()
}

fn bool_rec_on(major: &str) -> u64 {
    let mut interp = Interpreter::new(env_with_bool_rec());
    let rec = Expr::const_(Name::from_str_parts("Bool.rec"), vec![Level::one()]);
    let app = Expr::mk_app(
        rec,
        &[
            Expr::type_(),
            nat_lit(10),
            nat_lit(20),
            Expr::const_(Name::from_str_parts(major), vec![]),
        ],
    );
    let val = interp.eval(&app, &LocalEnv::new()).unwrap();
    nat_of(&val).unwrap()
}

#[test]
fn test_eval_bool_rec_true() {
    assert_eq!(bool_rec_on("Bool.true"), 20);
}

#[test]
fn test_eval_bool_rec_false() {
    assert_eq!(bool_rec_on("Bool.false"), 10);
}

#[test]
fn test_builtin_nat_add() {
    let val = eval_builtin("Nat.add", 2, &[nat_lit(2), nat_lit(3)]);
    assert_eq!(nat_of(&val), Some(5));
}

#[test]
fn test_builtin_nat_mul() {
    let val = eval_builtin("Nat.mul", 2, &[nat_lit(3), nat_lit(4)]);
    assert_eq!(nat_of(&val), Some(12));
}

#[test]
fn test_builtin_nat_sub_underflow() {
    let val = eval_builtin("Nat.sub", 2, &[nat_lit(2), nat_lit(5)]);
    assert_eq!(nat_of(&val), Some(0));
}

#[test]
fn test_builtin_nat_div_by_zero() {
    let val = eval_builtin("Nat.div", 2, &[nat_lit(5), nat_lit(0)]);
    assert_eq!(nat_of(&val), Some(0));
}

#[test]
fn test_builtin_nat_beq() {
    let mut interp = Interpreter::new(env_with_builtin("Nat.beq", 2));
    let beq = || Expr::const_(Name::from_str_parts("Nat.beq"), vec![]);
    let app = Expr::mk_app(beq(), &[nat_lit(3), nat_lit(3)]);
    let val = interp.eval(&app, &LocalEnv::new()).unwrap();
    assert_eq!(val.as_bool(), Some(true));
    let app2 = Expr::mk_app(beq(), &[nat_lit(3), nat_lit(4)]);
    let val2 = interp.eval(&app2, &LocalEnv::new()).unwrap();
    assert_eq!(val2.as_bool(), Some(false));
}

#[test]
fn test_builtin_nat_mod() {
    let val = eval_builtin("Nat.mod", 2, &[nat_lit(10), nat_lit(3)]);
    assert_eq!(nat_of(&val), Some(1));
}

#[test]
fn test_builtin_nat_pow() {
    let val = eval_builtin("Nat.pow", 2, &[nat_lit(2), nat_lit(10)]);
    assert_eq!(nat_of(&val), Some(1024));
}

#[test]
fn test_builtin_nat_dec_eq() {
    let val = eval_builtin("Nat.decEq", 2, &[nat_lit(5), nat_lit(5)]);
    match &val {
        Value::Ctor { tag: 1, .. } => {}
        _ => panic!("expected Decidable.isTrue, got {:?}", val),
    }
}

#[test]
fn test_builtin_string_append() {
    let val = eval_builtin("String.append", 2, &[str_lit("hello"), str_lit(" world")]);
    assert_eq!(val.as_str().unwrap(), "hello world");
}

#[test]
fn test_builtin_string_length() {
    let val = eval_builtin("String.length", 1, &[str_lit("hello")]);
    assert_eq!(nat_of(&val), Some(5));
}

#[test]
fn test_eval_fvar_passthrough() {
    let mut interp = make_interp();
    let val = interp.eval(&Expr::fvar(Name::mk_simple("x")), &LocalEnv::new()).unwrap();
    assert!(matches!(val, Value::KernelExpr(_)));
}

#[test]
fn test_eval_zero_arity_ctor() {
    let mut interp = Interpreter::new(env_with_bool_rec());
    let expr = Expr::const_(Name::from_str_parts("Bool.true"), vec![]);
    let val = interp.eval(&expr, &LocalEnv::new()).unwrap();
    match &val {
        Value::Ctor { tag: 1, name, fields } => {
            assert_eq!(name, &Name::from_str_parts("Bool.true"));
            assert!(fields.is_empty());
        }
        _ => panic!("expected Bool.true Ctor, got {:?}", val),
    }
}

#[test]
fn test_stack_overflow_protection() {
    let env = Environment::new()
        .add_constant(ConstantInfo::Definition {
            name: Name::mk_simple("loop"),
            level_params: vec![],
            type_: Expr::type_(),
            value: Expr::const_(Name::mk_simple("loop"), vec![]),
            hints: ReducibilityHints::Regular(0),
            safety: DefinitionSafety::Safe,
        })
        .unwrap();
    let mut interp = Interpreter::new(env);
    let result = interp.eval(&Expr::const_(Name::mk_simple("loop"), vec![]), &LocalEnv::new());
    assert!(result.is_err());
    match result.unwrap_err() {
        InterpError::StackOverflow(_) => {}
        e => panic!("expected StackOverflow, got {:?}", e),
    }
}

#[test]
fn test_partial_application() {
    let mut interp = Interpreter::new(env_with_builtin("Nat.add", 2));
    let add = || Expr::const_(Name::from_str_parts("Nat.add"), vec![]);
    let partial = Expr::app(add(), nat_lit(3));
    let partial_val = interp.eval(&partial, &LocalEnv::new()).unwrap();
    match &partial_val {
        Value::Closure { remaining_arity, .. } => assert_eq!(*remaining_arity, 1),
        _ => panic!("expected Closure, got {:?}", partial_val),
    }
    let full = Expr::app(Expr::app(add(), nat_lit(3)), nat_lit(4));
    let val = interp.eval(&full, &LocalEnv::new()).unwrap();
    assert_eq!(nat_of(&val), Some(7));
}

#[test]
fn test_builtin_nat_pred() {
    let val = eval_builtin("Nat.pred", 1, &[nat_lit(5)]);
    assert_eq!(nat_of(&val), Some(4));
    let val2 = eval_builtin("Nat.pred", 1, &[nat_lit(0)]);
    assert_eq!(nat_of(&val2), Some(0));
}

#[test]
fn test_lambda_captures_env() {
    let mut interp = make_interp();
    let expr = Expr::let_e(
        Name::mk_simple("a"),
        Expr::type_(),
        nat_lit(10),
        Expr::app(
            Expr::lam(Name::mk_simple("x"), Expr::type_(), Expr::bvar(1), BinderInfo::Default),
            nat_lit(99),
        ),
        false,
    );
    let val = interp.eval(&expr, &LocalEnv::new()).unwrap();
    assert_eq!(nat_of(&val), Some(10));
}

fn env_with_nat_rec() -> Environment {
    let env = Environment::new()
        .add_constant(inductive("Nat", &["Nat.zero", "Nat.succ"], true))
        .unwrap();
    let env = env
        .add_constant(ctor("Nat.zero", "Nat", 0, 0, Expr::const_(Name::from_str_parts("Nat"), vec![])))
        .unwrap();
    let env = env.add_constant(ctor("Nat.succ", "Nat", 1, 1, Expr::type_())).unwrap();
    env.add_constant(ConstantInfo::Recursor {
        name: Name::from_str_parts("Nat.rec"),
        level_params: vec![Name::mk_simple("u")],
        type_: Expr::type_(),
        all: vec![Name::from_str_parts("Nat")],
        num_params: 0,
        num_indices: 0,
        num_motives: 1,
        num_minors: 2,
        rules: vec![
            RecursorRule {
                ctor_name: Name::from_str_parts("Nat.zero"),
                num_fields: 0,
                rhs: Expr::bvar(1),
            },
            RecursorRule {
                ctor_name: Name::from_str_parts("Nat.succ"),
                num_fields: 1,
                rhs: Expr::app(Expr::bvar(1), Expr::bvar(0)),
            },
        ],
        is_k: false,
        is_unsafe: false,
    })
    .unwrap()
}

#[test]
fn test_eval_nat_rec_zero() {
    let mut interp = Interpreter::new(env_with_nat_rec());
    let rec = Expr::const_(Name::from_str_parts("Nat.rec"), vec![Level::one()]);
    let app = Expr::mk_app(
        rec,
        &[
            Expr::type_(),
            nat_lit(42),
            Expr::type_(),
            Expr::const_(Name::from_str_parts("Nat.zero"), vec![]),
        ],
    );
    let val = interp.eval(&app, &LocalEnv::new()).unwrap();
    assert_eq!(nat_of(&val), Some(42));
}

#[test]
fn test_builtin_array_mk_empty_and_push() {
    let implicit_type = |body: Expr| Expr::forall_e(Name::anonymous(), Expr::type_(), body, BinderInfo::Implicit);
    let explicit = |body: Expr| Expr::forall_e(Name::anonymous(), Expr::type_(), body, BinderInfo::Default);
    let env = Environment::new()
        .add_constant(ConstantInfo::Axiom {
            name: Name::from_str_parts("Array.mkEmpty"),
            level_params: vec![],
            type_: implicit_type(explicit(Expr::type_())),
            is_unsafe: false,
        })
        .unwrap();
    let env = env
        .add_constant(ConstantInfo::Axiom {
            name: Name::from_str_parts("Array.push"),
            level_params: vec![],
            type_: implicit_type(explicit(explicit(Expr::type_()))),
            is_unsafe: false,
        })
        .unwrap();
    let env = env
        .add_constant(ConstantInfo::Axiom {
            name: Name::from_str_parts("Array.size"),
            level_params: vec![],
            type_: implicit_type(explicit(Expr::type_())),
            is_unsafe: false,
        })
        .unwrap();
    let mut interp = Interpreter::new(env);
    let mk_empty = Expr::const_(Name::from_str_parts("Array.mkEmpty"), vec![]);
    let empty = Expr::mk_app(mk_empty, &[Expr::type_(), nat_lit(0)]);
    let arr_val = interp.eval(&empty, &LocalEnv::new()).unwrap();
    match &arr_val {
        Value::Array(a) => assert!(a.is_empty()),
        _ => panic!("expected Array"),
    }
}

#[test]
fn eval_counts_steps_and_stops_at_the_limit() {
    let mut interp = make_interp();
    interp.max_steps = 2;
    let app = Expr::app(
        Expr::lam(Name::mk_simple("x"), Expr::type_(), Expr::bvar(0), BinderInfo::Default),
        nat_lit(1),
    );
    match interp.eval(&app, &LocalEnv::new()) {
        Err(InterpError::StepLimitExceeded(n)) => assert_eq!(n, 3),
        other => panic!("expected StepLimitExceeded, got {:?}", other),
    }
}

#[test]
fn eval_of_a_lambda_is_a_closure_of_arity_one() {
    let mut interp = make_interp();
    let lam = Expr::lam(Name::mk_simple("x"), Expr::type_(), Expr::bvar(0), BinderInfo::Default);
    match interp.eval(&lam, &LocalEnv::new()).unwrap() {
        Value::Closure { captured, remaining_arity, .. } => {
            assert!(captured.is_empty());
            assert_eq!(remaining_arity, 1);
        }
        other => panic!("expected Closure, got {:?}", other),
    }
}

#[test]
fn unknown_constant_is_a_kernel_error() {
    let mut interp = make_interp();
    let r = interp.eval(&Expr::const_(Name::mk_simple("nope"), vec![]), &LocalEnv::new());
    assert!(matches!(r, Err(InterpError::KernelError(_))));
}

#[test]
fn builtin_failure_on_erased_argument_is_erased() {
    let mut interp = Interpreter::new(env_with_builtin("Nat.add", 2));
    let app = Expr::mk_app(
        Expr::const_(Name::from_str_parts("Nat.add"), vec![]),
        &[Expr::type_(), nat_lit(1)],
    );
    let val = interp.eval(&app, &LocalEnv::new()).unwrap();
    assert!(matches!(val, Value::Erased));
}

#[test]
fn ite_evaluates_only_the_branch_taken() {
    let mut interp = Interpreter::new(env_with_bool_rec());
    let is_true = Expr::const_(Name::from_str_parts("Bool.true"), vec![]);
    let app = Expr::mk_app(
        Expr::const_(Name::from_str_parts("ite"), vec![]),
        &[Expr::type_(), Expr::type_(), is_true, nat_lit(1), Expr::bvar(7)],
    );
    let val = interp.eval(&app, &LocalEnv::new()).unwrap();
    assert_eq!(nat_of(&val), Some(1));
}

#[test]
fn nat_pow_of_large_numbers() {
    let val = eval_builtin("Nat.pow", 2, &[nat_lit(2), nat_lit(70)]);
    assert_eq!(val.as_nat().unwrap().to_decimal(), "1180591620717411303424");
}

fn builtin(name: &str, args: Vec<Value>) -> Value {
    rslean::interp::call_builtin(&Name::from_str_parts(name), &args)
        .expect("a builtin")
        .expect("a value")
}

#[test]
fn fixed_width_conversions() {
    assert_eq!(nat_of(&builtin("UInt8.ofNat", vec![Value::nat_small(300)])), Some(44));
    assert_eq!(nat_of(&builtin("UInt16.ofNat", vec![Value::nat_small(70000)])), Some(4464));
    assert_eq!(
        nat_of(&builtin("UInt32.ofNat", vec![Value::nat_small(0x1_0000_0005)])),
        Some(5)
    );
    assert_eq!(nat_of(&builtin("UInt64.toNat", vec![Value::Erased, Value::nat_small(9)])), Some(9));
    assert_eq!(nat_of(&builtin("Char.ofNat", vec![Value::nat_small(0xD800)])), Some(0xFFFD));
    assert_eq!(nat_of(&builtin("Char.ofNat", vec![Value::nat_small(65)])), Some(65));
}

#[test]
fn fixed_width_arithmetic_wraps() {
    let two = |a: u64, b: u64| vec![Value::nat_small(a), Value::nat_small(b)];
    assert_eq!(nat_of(&builtin("UInt32.add", two(0xFFFF_FFFF, 2))), Some(1));
    assert_eq!(nat_of(&builtin("UInt32.sub", two(1, 2))), Some(0xFFFF_FFFF));
    assert_eq!(nat_of(&builtin("UInt64.sub", two(1, 2))), Some(u64::MAX));
    assert_eq!(nat_of(&builtin("UInt64.mul", two(1 << 63, 2))), Some(0));
    assert_eq!(nat_of(&builtin("UInt64.div", two(7, 0))), Some(0));
    assert_eq!(nat_of(&builtin("UInt32.mod", two(7, 3))), Some(1));
    assert!(matches!(builtin("UInt32.decLt", two(1, 2)), Value::Ctor { tag: 1, .. }));
    assert!(matches!(builtin("UInt64.decEq", two(1, 2)), Value::Ctor { tag: 0, .. }));
}

#[test]
fn shifts_strings_and_byte_arrays() {
    let two = |a: u64, b: u64| vec![Value::nat_small(a), Value::nat_small(b)];
    assert_eq!(nat_of(&builtin("Nat.shiftLeft", two(3, 4))), Some(48));
    assert_eq!(nat_of(&builtin("Nat.shiftRight", two(48, 3))), Some(6));
    assert_eq!(nat_of(&builtin("String.utf8ByteSize", vec![Value::string("αb")])), Some(3));
    assert_eq!(builtin("String.isEmpty", vec![Value::string("")]).as_bool(), Some(true));
    assert_eq!(builtin("String.isEmpty", vec![Value::string("x")]).as_bool(), Some(false));
    let bytes = Value::ByteArray(vec![1, 2, 3]);
    assert_eq!(nat_of(&builtin("ByteArray.size", vec![Value::Erased, bytes])), Some(3));
    assert!(matches!(builtin("ByteArray.mkEmpty", vec![]), Value::ByteArray(b) if b.is_empty()));
    let arr = builtin("Array.push", vec![Value::Erased, Value::Array(vec![]), Value::nat_small(1)]);
    assert_eq!(nat_of(&builtin("Array.size", vec![Value::Erased, arr])), Some(1));
}

#[test]
fn unknown_builtin_is_none() {
    assert!(rslean::interp::call_builtin(&Name::from_str_parts("Nat.frobnicate"), &[]).is_none());
}

#[test]
fn string_get_take_drop_push() {
    let s = || Value::string("héllo");
    assert_eq!(nat_of(&builtin("String.get", vec![s(), Value::nat_small(1)])), Some(0xE9));
    assert_eq!(nat_of(&builtin("String.get", vec![s(), Value::nat_small(9)])), Some(0));
    assert_eq!(builtin("String.take", vec![s(), Value::nat_small(2)]).as_str(), Some("hé"));
    assert_eq!(builtin("String.drop", vec![s(), Value::nat_small(2)]).as_str(), Some("llo"));
    assert_eq!(builtin("String.take", vec![s(), Value::nat_small(99)]).as_str(), Some("héllo"));
    assert_eq!(builtin("String.push", vec![s(), Value::nat_small(33)]).as_str(), Some("héllo!"));
    assert_eq!(
        builtin("String.push", vec![s(), Value::Erased]).as_str(),
        Some("héllo\u{FFFD}")
    );
    assert!(rslean::interp::call_builtin(&Name::from_str_parts("String.push"), &[s()])
        .unwrap()
        .is_err());
}

#[test]
fn number_fragment_counts_its_steps() {
    let mut interp = make_interp();
    let app = Expr::app(
        Expr::lam(Name::mk_simple("x"), Expr::type_(), Expr::bvar(0), BinderInfo::Default),
        nat_lit(42),
    );
    let val = interp.eval(&app, &LocalEnv::new()).unwrap();
    assert_eq!(nat_of(&val), Some(42));
    assert_eq!(interp.total_steps, 5);
    let let_expr = Expr::let_e(Name::mk_simple("x"), Expr::type_(), nat_lit(5), Expr::mdata(vec![], Expr::bvar(0)), false);
    let val = interp.eval(&let_expr, &LocalEnv::new()).unwrap();
    assert_eq!(nat_of(&val), Some(5));
    assert_eq!(interp.total_steps, 9);
}
