use rslean::constant_info::{ConstantInfo, RecursorRule};
use rslean::environment::Environment;
use rslean::expr::Expr;
use rslean::interp::{
    apply_step, build_ctor, iota_step, iota_step_in, recursor_total_arity, ApplyStep, FuncRef,
    InterpError, IotaStep, LocalEnv, Value,
};
use rslean::kernel_error::KernelError;
use rslean::level::Level;
use rslean::literal::Natural;
use rslean::name::Name;

fn nat_rec() -> ConstantInfo {
    ConstantInfo::Recursor {
        name: Name::from_str_parts("Nat.rec"),
        level_params: vec![],
        type_: Expr::sort(Level::zero()),
        all: vec![Name::from_str_parts("Nat")],
        num_params: 0,
        num_indices: 0,
        num_motives: 1,
        num_minors: 2,
        rules: vec![
            RecursorRule {
                ctor_name: Name::from_str_parts("Nat.zero"),
                num_fields: 0,
                rhs: Expr::bvar(0),
            },
            RecursorRule {
                ctor_name: Name::from_str_parts("Nat.succ"),
                num_fields: 1,
                rhs: Expr::bvar(1),
            },
        ],
        is_k: false,
        is_unsafe: false,
    }
}

fn nat_of(v: &Value) -> Option<u64> {
    v.as_nat().and_then(|n| n.to_u64())
}

#[test]
fn local_env_push_and_lookup() {
    let env = LocalEnv::new();
    assert!(env.is_empty());
    let env = env.push(Value::nat_small(1));
    let env = env.push(Value::nat_small(2));
    assert_eq!(env.len(), 2);
    assert_eq!(nat_of(env.lookup(0).unwrap()), Some(2));
    assert_eq!(nat_of(env.lookup(1).unwrap()), Some(1));
    assert!(matches!(env.lookup(2), Err(InterpError::UnboundVar(2))));
}

#[test]
fn value_bool_and_option() {
    assert_eq!(Value::bool_(true).as_bool(), Some(true));
    assert_eq!(Value::bool_(false).as_bool(), Some(false));
    assert!(Value::bool_(true).is_ctor_named("Bool.true"));
    assert!(!Value::bool_(true).is_ctor_named("Bool.false"));
    assert!(Value::none().is_ctor_named("Option.none"));
    let s = Value::some(Value::string("x"));
    assert!(s.is_ctor_named("Option.some"));
    assert_eq!(s.as_bool(), Some(true));
    assert_eq!(Value::string("hi").as_str(), Some("hi"));
    assert_eq!(Value::unit().as_str(), None);
    assert_eq!(Value::natural(Natural::from_u64(7)).as_bool(), None);
}

#[test]
fn recursor_arity_counts_all_arguments() {
    assert_eq!(recursor_total_arity(&nat_rec()), 4);
}

#[test]
fn iota_on_zero_picks_the_zero_rule() {
    let args = vec![Value::Erased, Value::nat_small(10), Value::nat_small(20), Value::nat_small(0)];
    match iota_step(&nat_rec(), args) {
        Ok(IotaStep::Reduce { rule, args }) => {
            assert_eq!(rule, 0);
            assert_eq!(args.len(), 3);
            assert_eq!(nat_of(&args[1]), Some(10));
            assert_eq!(nat_of(&args[2]), Some(20));
        }
        _ => panic!("expected a reduction"),
    }
}

#[test]
fn iota_on_successor_passes_the_predecessor() {
    let args = vec![Value::Erased, Value::nat_small(10), Value::nat_small(20), Value::nat_small(5)];
    match iota_step(&nat_rec(), args) {
        Ok(IotaStep::Reduce { rule, args }) => {
            assert_eq!(rule, 1);
            assert_eq!(args.len(), 4);
            assert_eq!(nat_of(&args[3]), Some(4));
        }
        _ => panic!("expected a reduction"),
    }
}

#[test]
fn iota_on_constructor_value_passes_its_fields() {
    let major = Value::Ctor {
        tag: 1,
        name: Name::from_str_parts("Nat.succ"),
        fields: vec![Value::nat_small(41)],
    };
    let args = vec![Value::Erased, Value::nat_small(1), Value::nat_small(2), major];
    match iota_step(&nat_rec(), args) {
        Ok(IotaStep::Reduce { rule, args }) => {
            assert_eq!(rule, 1);
            assert_eq!(nat_of(&args[3]), Some(41));
        }
        _ => panic!("expected a reduction"),
    }
}

#[test]
fn iota_on_erased_major_is_erased() {
    let args = vec![Value::Erased, Value::Erased, Value::Erased, Value::Erased];
    assert!(matches!(iota_step(&nat_rec(), args), Ok(IotaStep::Erased)));
}

#[test]
fn iota_errors() {
    // Too few arguments.
    let args = vec![Value::Erased, Value::Erased, Value::Erased];
    assert!(matches!(iota_step(&nat_rec(), args), Err(InterpError::RecursorError(_))));
    // A major premise that is no constructor.
    let args = vec![Value::Erased, Value::Erased, Value::Erased, Value::string("s")];
    assert!(matches!(iota_step(&nat_rec(), args), Err(InterpError::RecursorError(_))));
    // A constructor without a rule.
    let args = vec![Value::Erased, Value::Erased, Value::Erased, Value::unit()];
    assert!(matches!(iota_step(&nat_rec(), args), Err(InterpError::RecursorError(_))));
}

#[test]
fn iota_needs_a_declared_recursor() {
    let env = Environment::new();
    let args = vec![Value::nat_small(0)];
    assert!(matches!(
        iota_step_in(&env, &Name::from_str_parts("Nat.rec"), args),
        Err(InterpError::KernelError(KernelError::UnknownConstant(_)))
    ));
}

#[test]
fn constructor_constants() {
    let z = rslean::interp::ctor_const_value(&Name::from_str_parts("Nat.zero"), 0, 0, 0).unwrap();
    assert_eq!(nat_of(&z), Some(0));
    let u = rslean::interp::ctor_const_value(&Name::from_str_parts("Unit.unit"), 0, 0, 0).unwrap();
    assert!(u.is_ctor_named("Unit.unit"));
    match rslean::interp::ctor_const_value(&Name::from_str_parts("Prod.mk"), 0, 2, 2).unwrap() {
        Value::Closure { remaining_arity, captured, .. } => {
            assert_eq!(remaining_arity, 4);
            assert!(captured.is_empty());
        }
        _ => panic!("expected a closure"),
    }
}

#[test]
fn recursor_constant_is_a_closure() {
    match rslean::interp::recursor_const_value(&nat_rec(), &[]) {
        Value::Closure { remaining_arity, .. } => assert_eq!(remaining_arity, 4),
        _ => panic!("expected a closure"),
    }
}

#[test]
fn building_constructors() {
    let succ = build_ctor(Name::from_str_parts("Nat.succ"), 1, 0, 1, vec![Value::nat_small(41)]);
    assert_eq!(nat_of(&succ), Some(42));
    let zero = build_ctor(Name::from_str_parts("Nat.zero"), 0, 0, 0, vec![]);
    assert_eq!(nat_of(&zero), Some(0));
    let pair = build_ctor(
        Name::from_str_parts("Prod.mk"),
        0,
        2,
        2,
        vec![Value::Erased, Value::Erased, Value::nat_small(1), Value::nat_small(2)],
    );
    match pair {
        Value::Ctor { tag, fields, .. } => {
            assert_eq!(tag, 0);
            assert_eq!(fields.len(), 2);
            assert_eq!(nat_of(&fields[0]), Some(1));
            assert_eq!(nat_of(&fields[1]), Some(2));
        }
        _ => panic!("expected a constructor"),
    }
    let nil = Value::Ctor { tag: 0, name: Name::from_str_parts("List.nil"), fields: vec![] };
    let list = Value::Ctor {
        tag: 1,
        name: Name::from_str_parts("List.cons"),
        fields: vec![Value::nat_small(7), nil],
    };
    match build_ctor(Name::from_str_parts("Array.mk"), 0, 1, 1, vec![Value::Erased, list]) {
        Value::Array(es) => {
            assert_eq!(es.len(), 1);
            assert_eq!(nat_of(&es[0]), Some(7));
        }
        _ => panic!("expected an array"),
    }
}

#[test]
fn applying_values() {
    let f = Value::Closure {
        func: FuncRef::Builtin(Name::from_str_parts("Nat.add")),
        captured: vec![],
        remaining_arity: 2,
    };
    let g = match apply_step(f, Value::nat_small(1)) {
        Ok(ApplyStep::Done(v)) => v,
        _ => panic!("expected a partial application"),
    };
    match apply_step(g, Value::nat_small(2)) {
        Ok(ApplyStep::Call { args, .. }) => {
            assert_eq!(args.len(), 2);
            assert_eq!(nat_of(&args[1]), Some(2));
        }
        _ => panic!("expected a call"),
    }
    assert!(matches!(apply_step(Value::Erased, Value::Erased), Ok(ApplyStep::Done(Value::Erased))));
    assert!(matches!(
        apply_step(Value::nat_small(3), Value::Erased),
        Err(InterpError::TypeError(_))
    ));
    let res = Value::Ctor {
        tag: 0,
        name: Name::from_str_parts("EStateM.Result.ok"),
        fields: vec![],
    };
    assert!(matches!(apply_step(res, Value::Erased), Ok(ApplyStep::Done(Value::Ctor { .. }))));
}

fn call(name: &str, args: Vec<Value>) -> Option<Result<Value, InterpError>> {
    rslean::interp::call_builtin(&Name::from_str_parts(name), &args)
}

fn nat_result(name: &str, a: u64, b: u64) -> Option<u64> {
    match call(name, vec![Value::nat_small(a), Value::nat_small(b)]) {
        Some(Ok(v)) => nat_of(&v),
        _ => None,
    }
}

#[test]
fn nat_builtin_arithmetic() {
    assert_eq!(nat_result("Nat.add", 2, 3), Some(5));
    assert_eq!(nat_result("Nat.sub", 5, 3), Some(2));
    assert_eq!(nat_result("Nat.sub", 3, 5), Some(0));
    assert_eq!(nat_result("Nat.mul", 4, 5), Some(20));
    assert_eq!(nat_result("Nat.div", 17, 5), Some(3));
    assert_eq!(nat_result("Nat.div", 17, 0), Some(0));
    assert_eq!(nat_result("Nat.mod", 17, 5), Some(2));
    assert_eq!(nat_result("Nat.mod", 17, 0), Some(0));
    assert_eq!(nat_result("Nat.add", u64::MAX, 1), None);
    match call("Nat.add", vec![Value::nat_small(u64::MAX), Value::nat_small(1)]) {
        Some(Ok(Value::Nat(n))) => assert_eq!(n.to_decimal(), "18446744073709551616"),
        _ => panic!("expected a number"),
    }
    match call("Nat.pred", vec![Value::nat_small(0)]) {
        Some(Ok(v)) => assert_eq!(nat_of(&v), Some(0)),
        _ => panic!("expected a number"),
    }
}

#[test]
fn nat_builtin_comparisons() {
    match call("Nat.beq", vec![Value::nat_small(2), Value::nat_small(2)]) {
        Some(Ok(v)) => assert_eq!(v.as_bool(), Some(true)),
        _ => panic!("expected a boolean"),
    }
    match call("Nat.ble", vec![Value::nat_small(3), Value::nat_small(2)]) {
        Some(Ok(v)) => assert_eq!(v.as_bool(), Some(false)),
        _ => panic!("expected a boolean"),
    }
    // The decisions look for the first two numbers among the arguments.
    match call("Nat.decLt", vec![Value::Erased, Value::nat_small(1), Value::nat_small(2)]) {
        Some(Ok(v)) => assert!(v.is_ctor_named("Decidable.isTrue")),
        _ => panic!("expected a decision"),
    }
    match call("Nat.decEq", vec![Value::nat_small(1), Value::Erased, Value::nat_small(2)]) {
        Some(Ok(v)) => assert!(v.is_ctor_named("Decidable.isFalse")),
        _ => panic!("expected a decision"),
    }
}

#[test]
fn nat_builtin_errors_and_unknown_names() {
    assert!(matches!(
        call("Nat.add", vec![Value::nat_small(1)]),
        Some(Err(InterpError::BuiltinError(_)))
    ));
    assert!(matches!(
        call("Nat.decLe", vec![Value::nat_small(1)]),
        Some(Err(InterpError::BuiltinError(_)))
    ));
    assert!(call("Nat.frobnicate", vec![]).is_none());
}

#[test]
fn string_and_bool_builtins() {
    let s = |t: &str| Value::string(t);
    match call("String.append", vec![s("ab"), s("cd")]) {
        Some(Ok(v)) => assert_eq!(v.as_str(), Some("abcd")),
        _ => panic!("expected a string"),
    }
    match call("String.length", vec![s("αβc")]) {
        Some(Ok(v)) => assert_eq!(nat_of(&v), Some(3)),
        _ => panic!("expected a number"),
    }
    match call("String.decEq", vec![Value::Erased, s("x"), s("x")]) {
        Some(Ok(v)) => assert!(v.is_ctor_named("Decidable.isTrue")),
        _ => panic!("expected a decision"),
    }
    match call("Bool.decEq", vec![Value::bool_(true), Value::bool_(false)]) {
        Some(Ok(v)) => assert!(v.is_ctor_named("Decidable.isFalse")),
        _ => panic!("expected a decision"),
    }
    assert!(matches!(
        call("String.append", vec![s("a")]),
        Some(Err(InterpError::BuiltinError(_)))
    ));
}

#[test]
fn test_local_env_empty() {
    let env = LocalEnv::new();
    assert!(env.is_empty());
    assert_eq!(env.len(), 0);
    assert!(env.lookup(0).is_err());
}

#[test]
fn test_local_env_push_lookup() {
    let env = LocalEnv::new();
    let env = env.push(Value::nat_small(42));
    assert_eq!(env.len(), 1);
    assert!(env.lookup(0).unwrap().as_nat().is_some());

    let env = env.push(Value::nat_small(99));
    assert_eq!(env.len(), 2);
    // Index 0 is the most recently pushed
    assert_eq!(env.lookup(0).unwrap().as_nat().unwrap().to_u64(), Some(99));
    assert_eq!(env.lookup(1).unwrap().as_nat().unwrap().to_u64(), Some(42));
}

#[test]
fn test_local_env_out_of_bounds() {
    let env = LocalEnv::new().push(Value::nat_small(1));
    assert!(env.lookup(0).is_ok());
    assert!(env.lookup(1).is_err());
}

#[test]
fn test_value_nat() {
    let v = Value::nat_small(42);
    assert_eq!(v.as_nat().unwrap().to_u64(), Some(42));
}

#[test]
fn test_value_string() {
    let v = Value::string("hello");
    assert_eq!(v.as_str().unwrap(), "hello");
}

#[test]
fn test_value_bool() {
    let t = Value::bool_(true);
    assert_eq!(t.as_bool(), Some(true));

    let f = Value::bool_(false);
    assert_eq!(f.as_bool(), Some(false));
}

#[test]
fn test_value_unit() {
    let u = Value::unit();
    assert!(matches!(u, Value::Ctor { tag: 0, .. }));
}

#[test]
fn compiler_auxiliary_names() {
    assert!(rslean::interp::is_compiler_aux(&Name::from_str_parts("Foo._cstage2")));
    assert!(rslean::interp::is_compiler_aux(&Name::from_str_parts("Foo._rarg")));
    assert!(rslean::interp::is_compiler_aux(&Name::mk_num(Name::from_str_parts("Foo._closed"), 3)));
    assert!(!rslean::interp::is_compiler_aux(&Name::mk_num(Name::from_str_parts("Foo.bar"), 3)));
    assert!(!rslean::interp::is_compiler_aux(&Name::from_str_parts("Foo.bar")));
    assert!(!rslean::interp::is_compiler_aux(&Name::anonymous()));
}
