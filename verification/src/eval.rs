//! The tree-walking interpreter for Lean 4 kernel expressions: evaluation
//! under a step limit and a depth limit, application of closures, the values
//! of constants, projections and the short-circuit of `ite`/`dite`.
use vstd::prelude::*;

use crate::constant_info::ConstantInfo;
use crate::environment::Environment;
use crate::expr::{Expr, ExprKind, ExprV};
use crate::literal::LitV;
use crate::interp::{
    apply_step, as_number, build_ctor, builtin_result, call_builtin, clone_value, ctor_built, numbers, ctor_const_value, iota_step_in, is_compiler_aux,
    recursor_const_value, ApplyStep, FuncRef, InterpError, IotaStep, LocalEnv, Value,
};
use crate::level::Level;
use crate::name::{names_equal, Name};
use crate::text::{chars_of, string_from_chars};

verus! {

/// The depth of nested evaluation allowed by default.
pub const DEFAULT_MAX_EVAL_DEPTH: u32 = 512;

/// The number of evaluation steps allowed by default.
pub const DEFAULT_MAX_STEPS: u64 = 100_000_000;

/// The interpreter: an environment of constants, with the step and depth
/// counters that bound evaluation.
pub struct Interpreter {
    /// The constants.
    pub env: Environment,
    /// The current depth of nested evaluation.
    pub eval_depth: u32,
    /// Maximum depth of nested evaluation.
    pub max_eval_depth: u32,
    /// Number of evaluation and application steps taken so far.
    pub total_steps: u64,
    /// Maximum number of steps (0: no limit but the width of the counter).
    pub max_steps: u64,
}

/// What evaluating `e` with the values `vals` bound gives where no subterm
/// is evaluated: literals, bound variables, sorts, function types,
/// metavariables, lambdas and free variables.
pub open spec fn direct_eval(e: ExprV, vals: Seq<Value>, r: Result<Value, InterpError>) -> bool {
    match e {
        ExprV::Sort(_) | ExprV::ForallE(..) | ExprV::MVar(_) => r matches Ok(Value::Erased),
        ExprV::BVar(i) => if i < vals.len() {
            r is Ok
        } else {
            r == Err::<Value, InterpError>(InterpError::UnboundVar(i))
        },
        ExprV::Lam(..) => r matches Ok(Value::Closure { func, captured, remaining_arity })
            && func is Lambda && captured@.len() == 0 && remaining_arity == 1,
        ExprV::FVar(_) => r matches Ok(Value::KernelExpr(x)) && x@ == e,
        ExprV::Lit(LitV::Nat(n)) => r matches Ok(Value::Nat(m)) && m@ == n,
        ExprV::Lit(LitV::Str(t)) => r matches Ok(Value::String(u)) && u@ == t,
        _ => true,
    }
}

/// The number that evaluating `e` gives, with the numbers `vals` bound
/// (`None` for a binding that is no number), where `e` is made of number
/// literals, bound variables, `let` and metadata alone; `None` outside that
/// fragment or where a variable is unbound or no number.
pub open spec fn number_eval(e: ExprV, vals: Seq<Option<nat>>) -> Option<nat>
    decreases e,
{
    match e {
        ExprV::Lit(LitV::Nat(n)) => Some(n),
        ExprV::BVar(i) => if i < vals.len() {
            vals[i as int]
        } else {
            None
        },
        ExprV::LetE(_, _, v, b, _) => match number_eval(*v, vals) {
            Some(m) => number_eval(*b, seq![Some(m)] + vals),
            None => None,
        },
        ExprV::MData(_, x) => number_eval(*x, vals),
        ExprV::App(f, a) => match *f {
            ExprV::Lam(_, _, b, _) => match number_eval(*a, vals) {
                Some(m) => number_eval(*b, seq![Some(m)] + vals),
                None => None,
            },
            _ => None,
        },
        _ => None,
    }
}

/// `r` is the closure of the lambda `e` over bindings holding the numbers
/// `vals`: its body, nothing captured yet, one argument awaited.
pub open spec fn lambda_closure(e: ExprV, vals: Seq<Option<nat>>, r: Result<Value, InterpError>) -> bool {
    e matches ExprV::Lam(_, _, b, _) && r matches Ok(
        Value::Closure { func: FuncRef::Lambda(body, env), captured, remaining_arity },
    ) && body@ == *b && numbers(env.values()) == vals && captured@.len() == 0 && remaining_arity
        == 1
}

/// The lambda and the argument of a beta redex `(fun x => b) a`.
pub open spec fn redex_parts(e: ExprV) -> Option<(ExprV, ExprV)> {
    match e {
        ExprV::App(f, a) => match *f {
            ExprV::Lam(..) => Some((*f, *a)),
            _ => None,
        },
        _ => None,
    }
}

/// The body of a lambda.
pub open spec fn lam_body(e: ExprV) -> ExprV {
    match e {
        ExprV::Lam(_, _, b, _) => *b,
        _ => e,
    }
}

/// The body under the first `n` lambdas of `e`, if `e` has that many.
pub open spec fn lam_telescope(e: ExprV, n: nat) -> Option<ExprV>
    decreases n,
{
    if n == 0 {
        Some(e)
    } else {
        match e {
            ExprV::Lam(_, _, b, _) => lam_telescope(*b, (n - 1) as nat),
            _ => None,
        }
    }
}

/// Under `i + 1` lambdas lies the body of the lambda under `i` of them.
proof fn lemma_telescope_step(e: ExprV, i: nat)
    requires
        lam_telescope(e, i) matches Some(x) && x is Lam,
    ensures
        lam_telescope(e, i + 1) == Some(lam_body(lam_telescope(e, i)->0)),
    decreases i,
{
    if let ExprV::Lam(_, _, b, _) = e {
        if i > 0 {
            lemma_telescope_step(*b, (i - 1) as nat);
            assert(lam_telescope(e, i + 1) == lam_telescope(*b, i));
        } else {
            assert(lam_telescope(*b, 0) == Some(*b));
            assert(lam_telescope(e, 1) == lam_telescope(*b, 0));
        }
    }
}

/// Where `n` lambdas can be stripped, fewer can, and each leaves a lambda.
proof fn lemma_telescope_prefix(e: ExprV, i: nat, n: nat)
    requires
        i < n,
        lam_telescope(e, n) is Some,
    ensures
        lam_telescope(e, i) matches Some(x) && x is Lam,
    decreases i,
{
    if let ExprV::Lam(_, _, b, _) = e {
        if i > 0 {
            lemma_telescope_prefix(*b, (i - 1) as nat, (n - 1) as nat);
        }
    }
}

/// Binding one more value puts its number in front.
proof fn lemma_bound_numbers_step(vs: Seq<Value>, i: int)
    requires
        0 <= i < vs.len(),
    ensures
        numbers(vs.take(i + 1)).reverse() == seq![as_number(vs[i])] + numbers(vs.take(i)).reverse(),
{
    let l = numbers(vs.take(i + 1)).reverse();
    let r = seq![as_number(vs[i])] + numbers(vs.take(i)).reverse();
    assert forall|j: int| 0 <= j < l.len() implies l[j] == r[j] by {
        if j > 0 {
            assert(l[j] == numbers(vs.take(i + 1))[i - j]);
            assert(r[j] == numbers(vs.take(i)).reverse()[j - 1]);
        }
    }
    assert(l =~= r);
}

/// The evaluation steps that evaluating `e` of that fragment takes.
pub open spec fn number_steps(e: ExprV) -> nat
    decreases e,
{
    match e {
        ExprV::LetE(_, _, v, b, _) => 1 + number_steps(*v) + number_steps(*b),
        ExprV::MData(_, x) => 1 + number_steps(*x),
        ExprV::App(f, a) => match *f {
            ExprV::Lam(_, _, b, _) => 3 + number_steps(*a) + number_steps(*b),
            _ => 1,
        },
        _ => 1,
    }
}

/// The depth of nested evaluation that evaluating `e` of that fragment
/// reaches.
pub open spec fn number_depth(e: ExprV) -> nat
    decreases e,
{
    match e {
        ExprV::LetE(_, _, v, b, _) => 1 + if number_depth(*v) >= number_depth(*b) {
            number_depth(*v)
        } else {
            number_depth(*b)
        },
        ExprV::MData(_, x) => 1 + number_depth(*x),
        ExprV::App(f, a) => match *f {
            ExprV::Lam(_, _, b, _) => 1 + if number_depth(*a) >= number_depth(*b) {
                number_depth(*a)
            } else {
                number_depth(*b)
            },
            _ => 1,
        },
        _ => 1,
    }
}

/// What calling builtin `name` on `args` gives, from the builtin's own
/// outcome `o`: no such builtin is an unknown constant; a builtin's failure
/// on arguments of which one is erased gives an erased value.
pub open spec fn builtin_call_result(
    name: Name,
    args: Seq<Value>,
    o: Option<Result<Value, InterpError>>,
    r: Result<Value, InterpError>,
) -> bool {
    match o {
        None => r matches Err(InterpError::UnknownConstant(n)) && n == name,
        Some(Err(InterpError::BuiltinError(msg))) => if exists|j: int|
            0 <= j < args.len() && (#[trigger] args[j]) is Erased {
            r matches Ok(Value::Erased)
        } else {
            r == Err::<Value, InterpError>(InterpError::BuiltinError(msg))
        },
        Some(res) => r == res,
    }
}

/// An error with a fixed message.
fn type_error(msg: &str) -> (r: InterpError)
    ensures
        r is TypeError,
{
    InterpError::TypeError(string_from_chars(chars_of(msg).as_slice()))
}

impl Interpreter {
    /// The step limit in force: `max_steps`, or the largest count when it is 0.
    pub open spec fn limit(self) -> u64 {
        if self.max_steps == 0 {
            u64::MAX
        } else {
            self.max_steps
        }
    }

    /// The steps still allowed.
    pub open spec fn fuel(self) -> int {
        self.limit() - self.total_steps
    }

    /// The step count is within the limit.
    pub open spec fn inv(self) -> bool {
        self.total_steps <= self.limit()
    }

    /// The current depth of nested evaluation.
    pub open spec fn depth(self) -> u32 {
        self.eval_depth
    }

    /// The environment the interpreter reads constants from.
    pub open spec fn environment(self) -> Environment {
        self.env
    }

    /// `q` is a later state of `p`: same environment and limits, no fewer
    /// steps taken, the same depth.
    pub open spec fn later(p: Self, q: Self) -> bool {
        &&& q.inv()
        &&& q.environment() == p.environment()
        &&& q.max_steps == p.max_steps
        &&& q.max_eval_depth == p.max_eval_depth
        &&& q.total_steps >= p.total_steps
        &&& q.eval_depth == p.eval_depth
    }

    /// An interpreter over `env` with the default limits.
    pub fn new(env: Environment) -> (r: Self)
        ensures
            r.inv(),
            r.environment() == env,
            r.total_steps == 0,
            r.max_steps == DEFAULT_MAX_STEPS,
            r.max_eval_depth == DEFAULT_MAX_EVAL_DEPTH,
    {
        Interpreter {
            env,
            eval_depth: 0,
            max_eval_depth: DEFAULT_MAX_EVAL_DEPTH,
            total_steps: 0,
            max_steps: DEFAULT_MAX_STEPS,
        }
    }

    /// An interpreter with no step limit and the largest depth limit.
    pub fn new_unlimited(env: Environment) -> (r: Self)
        ensures
            r.inv(),
            r.environment() == env,
            r.total_steps == 0,
            r.max_steps == 0,
            r.max_eval_depth == u32::MAX,
    {
        let mut interp = Self::new(env);
        interp.max_steps = 0;
        interp.max_eval_depth = u32::MAX;
        interp
    }

    /// The environment.
    pub fn env(&self) -> (r: &Environment)
        ensures
            *r == self.environment(),
    {
        &self.env
    }

    /// Count one step; fails with `StepLimitExceeded` when the limit is spent.
    fn tick(&mut self) -> (r: Result<(), InterpError>)
        requires
            old(self).inv(),
        ensures
            final(self).inv(),
            final(self).environment() == old(self).environment(),
            final(self).max_steps == old(self).max_steps,
            final(self).max_eval_depth == old(self).max_eval_depth,
            final(self).eval_depth == old(self).eval_depth,
            r is Ok <==> old(self).total_steps < old(self).limit(),
            r is Ok ==> final(self).total_steps == old(self).total_steps + 1,
            r is Err ==> final(self).total_steps == old(self).total_steps,
            r is Err ==> (r matches Err(InterpError::StepLimitExceeded(n)) && n == (if old(self).total_steps < u64::MAX {
                old(self).total_steps + 1
            } else {
                old(self).total_steps as int
            })),
    {
        let limit = if self.max_steps == 0 {
            u64::MAX
        } else {
            self.max_steps
        };
        if self.total_steps >= limit {
            let n = if self.total_steps < u64::MAX {
                self.total_steps + 1
            } else {
                self.total_steps
            };
            return Err(InterpError::StepLimitExceeded(n));
        }
        self.total_steps = self.total_steps + 1;
        Ok(())
    }

    /// Evaluate `expr` in `local_env`: one step, one level deeper. On the
    /// fragment of numbers, bound variables, `let`, metadata and applied
    /// lambdas the result is `number_eval`, within the limits, in exactly
    /// `number_steps` steps.
    pub fn eval(&mut self, expr: &Expr, local_env: &LocalEnv) -> (r: Result<Value, InterpError>)
        requires
            old(self).inv(),
        ensures
            Self::later(*old(self), *final(self)),
            old(self).total_steps >= old(self).limit() ==> r matches Err(
                InterpError::StepLimitExceeded(_),
            ),
            old(self).total_steps < old(self).limit() && old(self).eval_depth >= old(
                self,
            ).max_eval_depth ==> r == Err::<Value, InterpError>(
                InterpError::StackOverflow(old(self).max_eval_depth),
            ),
            old(self).total_steps < old(self).limit() && old(self).eval_depth < old(
                self,
            ).max_eval_depth ==> direct_eval(expr@, local_env.values(), r),
            old(self).total_steps < old(self).limit() && old(self).eval_depth < old(
                self,
            ).max_eval_depth && expr@ is Lam ==> lambda_closure(
                expr@,
                numbers(local_env.values()),
                r,
            ) && final(self).total_steps == old(self).total_steps + 1,
            number_eval(expr@, numbers(local_env.values())) is Some && old(self).total_steps
                + number_steps(expr@) <= old(self).limit() && old(self).eval_depth + number_depth(
                expr@,
            ) <= old(self).max_eval_depth ==> (r matches Ok(Value::Nat(n)) && Some(n@)
                == number_eval(expr@, numbers(local_env.values())) && final(self).total_steps
                == old(self).total_steps + number_steps(expr@)),
        decreases old(self).fuel(), 0int,
    {
        self.tick()?;
        if self.eval_depth >= self.max_eval_depth {
            return Err(InterpError::StackOverflow(self.max_eval_depth));
        }
        self.eval_depth = self.eval_depth + 1;
        let result = self.eval_inner(expr, local_env);
        self.eval_depth = self.eval_depth - 1;
        result
    }

    /// Evaluate by the shape of the expression.
    fn eval_inner(&mut self, expr: &Expr, local_env: &LocalEnv) -> (r: Result<Value, InterpError>)
        requires
            old(self).inv(),
        ensures
            Self::later(*old(self), *final(self)),
            direct_eval(expr@, local_env.values(), r),
            expr@ is Lam ==> lambda_closure(expr@, numbers(local_env.values()), r) && *final(self)
                == *old(self),
            number_eval(expr@, numbers(local_env.values())) is Some && old(self).total_steps
                + number_steps(expr@) <= old(self).limit() + 1 && old(self).eval_depth
                + number_depth(expr@) <= old(self).max_eval_depth + 1 ==> (r matches Ok(
                Value::Nat(n),
            ) && Some(n@) == number_eval(expr@, numbers(local_env.values()))
                && final(self).total_steps + 1 == old(self).total_steps + number_steps(expr@)),
        decreases old(self).fuel(), 9int,
    {
        match expr.kind() {
            ExprKind::Lit(lit) => {
                if lit.is_nat() {
                    Ok(Value::Nat(lit.get_nat().clone()))
                } else {
                    Ok(Value::string(lit.get_string()))
                }
            },
            ExprKind::BVar(idx) => match local_env.lookup(*idx) {
                Ok(v) => Ok(clone_value(v)),
                Err(e) => Err(e),
            },
            ExprKind::Lam(_, _, body, _) => Ok(
                Value::Closure {
                    func: FuncRef::Lambda(body.clone(), local_env.copied()),
                    captured: Vec::new(),
                    remaining_arity: 1,
                },
            ),
            ExprKind::LetE(_, _, val, body, _) => {
                let v = self.eval(val, local_env)?;
                let env2 = local_env.push(v);
                self.eval(body, &env2)
            },
            ExprKind::App(_, _) => self.eval_app(expr, local_env),
            ExprKind::Const(name, levels) => self.eval_const(name, levels.as_slice()),
            ExprKind::ForallE(..) | ExprKind::Sort(_) | ExprKind::MVar(_) => Ok(Value::Erased),
            ExprKind::MData(_, e) => self.eval(e, local_env),
            ExprKind::Proj(struct_name, idx, e) => {
                let v = self.eval(e, local_env)?;
                Self::eval_proj(struct_name, *idx, v)
            },
            ExprKind::FVar(_) => Ok(Value::KernelExpr(expr.clone())),
        }
    }

    /// An application: the head and the arguments of the spine are evaluated
    /// left to right and applied one by one; `ite` and `dite` with all five
    /// arguments evaluate only the branch taken.
    fn eval_app(&mut self, expr: &Expr, local_env: &LocalEnv) -> (r: Result<Value, InterpError>)
        requires
            old(self).inv(),
        ensures
            Self::later(*old(self), *final(self)),
            redex_parts(expr@) is Some && number_eval(expr@, numbers(local_env.values())) is Some
                && old(self).total_steps + number_steps(expr@) <= old(self).limit() + 1 && old(
                self,
            ).eval_depth + number_depth(expr@) <= old(self).max_eval_depth + 1 ==> (r matches Ok(
                Value::Nat(n),
            ) && Some(n@) == number_eval(expr@, numbers(local_env.values()))
                && final(self).total_steps + 1 == old(self).total_steps + number_steps(expr@)),
        decreases old(self).fuel(), 8int,
    {
        let ghost frag = redex_parts(expr@) is Some;
        let ghost parts = redex_parts(expr@)->0;
        let ghost lam = parts.0;
        let ghost arg = parts.1;
        let ghost nv = numbers(local_env.values());
        let ghost fuel_ok = number_eval(expr@, nv) is Some && old(self).total_steps + number_steps(
            expr@,
        ) <= old(self).limit() + 1 && old(self).eval_depth + number_depth(expr@) <= old(
            self,
        ).max_eval_depth + 1;
        let mut args_exprs: Vec<Expr> = Vec::new();
        let mut head = expr.clone();
        loop
            invariant_except_break
                frag ==> (args_exprs@.len() == 0 && head@ == expr@) || (args_exprs@.len() == 1
                    && args_exprs@[0]@ == arg && head@ == lam),
                frag == (redex_parts(expr@) is Some),
                frag ==> redex_parts(expr@) == Some((lam, arg)),
            ensures
                !(head@ is App),
                frag ==> args_exprs@.len() == 1 && args_exprs@[0]@ == arg && head@ == lam,
            decreases crate::expr::esize(head@),
        {
            match head.kind() {
                ExprKind::App(f, a) => {
                    args_exprs.push(a.clone());
                    head = f.clone();
                },
                _ => {
                    break;
                },
            }
        }
        let mut args: Vec<Expr> = Vec::new();
        let mut k = args_exprs.len();
        while k > 0
            invariant
                k <= args_exprs@.len(),
                args@.len() + k == args_exprs@.len(),
                frag ==> args_exprs@.len() == 1 && args_exprs@[0]@ == arg,
                frag && args@.len() == 1 ==> args@[0]@ == arg,
                frag == (redex_parts(expr@) is Some),
                frag ==> redex_parts(expr@) == Some((lam, arg)),
                frag ==> head@ == lam,
            decreases k,
        {
            k = k - 1;
            args.push(args_exprs[k].clone());
        }
        if args.len() == 5 {
            if let ExprKind::Const(name, _) = head.kind() {
                if names_equal(name, &Name::from_str_parts("ite")) {
                    return self.eval_ite_short_circuit(false, &args[2], &args[3], &args[4], local_env);
                }
                if names_equal(name, &Name::from_str_parts("dite")) {
                    return self.eval_ite_short_circuit(true, &args[2], &args[3], &args[4], local_env);
                }
            }
        }
        proof {
            if frag && fuel_ok {
                assert(number_depth(arg) >= 1);
                assert(head@ is Lam);
            }
        }
        let mut result = self.eval(&head, local_env)?;
        let mut i: usize = 0;
        while i < args.len()
            invariant
                Self::later(*old(self), *self),
                i <= args@.len(),
                frag ==> args@.len() == 1 && args@[0]@ == arg && head@ == lam,
                nv == numbers(local_env.values()),
                frag && fuel_ok && i == 0 ==> lambda_closure(lam, nv, Ok(result))
                    && self.total_steps == old(self).total_steps + 1,
                frag && fuel_ok && i == 1 ==> (result matches Value::Nat(n) && Some(n@)
                    == number_eval(expr@, nv) && self.total_steps + 1 == old(self).total_steps
                    + number_steps(expr@)),
                fuel_ok ==> number_eval(expr@, nv) is Some && old(self).total_steps + number_steps(
                    expr@,
                ) <= old(self).limit() + 1 && old(self).eval_depth + number_depth(expr@) <= old(
                    self,
                ).max_eval_depth + 1,
                frag ==> redex_parts(expr@) == Some((lam, arg)),
                frag == (redex_parts(expr@) is Some),
                fuel_ok == (number_eval(expr@, nv) is Some && old(self).total_steps + number_steps(
                    expr@,
                ) <= old(self).limit() + 1 && old(self).eval_depth + number_depth(expr@) <= old(
                    self,
                ).max_eval_depth + 1),
            decreases args@.len() - i,
        {
            let av = self.eval(&args[i], local_env)?;
            result = self.apply(result, av)?;
            i = i + 1;
        }
        Ok(result)
    }

    /// `ite`/`dite`: evaluate the decision, then only the branch it selects;
    /// `dite` passes the decision's proof field to the branch.
    fn eval_ite_short_circuit(
        &mut self,
        is_dite: bool,
        inst_expr: &Expr,
        then_expr: &Expr,
        else_expr: &Expr,
        env: &LocalEnv,
    ) -> (r: Result<Value, InterpError>)
        requires
            old(self).inv(),
        ensures
            Self::later(*old(self), *final(self)),
        decreases old(self).fuel(), 6int,
    {
        let inst_val = self.eval(inst_expr, env)?;
        let (tag, h) = match &inst_val {
            Value::Ctor { tag, fields, .. } => (
                *tag,
                if fields.len() > 0 {
                    fields[0].clone()
                } else {
                    Value::Erased
                },
            ),
            _ => {
                return Ok(Value::Erased);
            },
        };
        if tag == 1 {
            if is_dite {
                let t = self.eval(then_expr, env)?;
                self.apply(t, h)
            } else {
                self.eval(then_expr, env)
            }
        } else if tag == 0 {
            if is_dite {
                let e = self.eval(else_expr, env)?;
                self.apply(e, h)
            } else {
                self.eval(else_expr, env)
            }
        } else {
            Ok(Value::Erased)
        }
    }

    /// Field `idx` of a structure value: of a constructor (erased when out of
    /// range), of an erased value, of a number (itself, then an erased proof)
    /// and of an array (its list, for field 0).
    pub fn eval_proj(struct_name: &Name, idx: u64, val: Value) -> (r: Result<Value, InterpError>)
        ensures
            val is Erased ==> r matches Ok(Value::Erased),
            val is Nat && idx == 0 ==> r == Ok::<Value, InterpError>(val),
            val is Nat && idx == 1 ==> r matches Ok(Value::Erased),
            val matches Value::Ctor { fields, .. } && idx >= fields@.len() ==> r matches Ok(
                Value::Erased,
            ),
            val is Closure || val is ByteArray || val is KernelExpr ==> r matches Err(
                InterpError::TypeError(_),
            ),
    {
        match val {
            Value::Ctor { fields, .. } => {
                if idx < fields.len() as u64 {
                    Ok(fields[idx as usize].clone())
                } else {
                    Ok(Value::Erased)
                }
            },
            Value::Erased => Ok(Value::Erased),
            Value::Nat(n) => {
                if idx == 0 {
                    Ok(Value::Nat(n))
                } else if idx == 1 {
                    Ok(Value::Erased)
                } else {
                    Err(type_error("projection on a number"))
                }
            },
            Value::Array(items) => {
                if idx == 0 {
                    let mut list = Value::Ctor {
                        tag: 0,
                        name: Name::from_str_parts("List.nil"),
                        fields: Vec::new(),
                    };
                    let mut k = items.len();
                    while k > 0
                        invariant
                            k <= items@.len(),
                        decreases k,
                    {
                        k = k - 1;
                        let mut fs: Vec<Value> = Vec::new();
                        fs.push(items[k].clone());
                        fs.push(list);
                        list = Value::Ctor { tag: 1, name: Name::from_str_parts("List.cons"), fields: fs };
                    }
                    Ok(list)
                } else {
                    Ok(Value::Erased)
                }
            },
            Value::String(_) => {
                if idx == 0 {
                    Ok(Value::Erased)
                } else {
                    Ok(Value::Erased)
                }
            },
            _ => Err(type_error("projection on a non-constructor value")),
        }
    }

    /// Apply `func` to `arg`: one step; a closure that now has all its
    /// arguments is called.
    pub fn apply(&mut self, func: Value, arg: Value) -> (r: Result<Value, InterpError>)
        requires
            old(self).inv(),
        ensures
            Self::later(*old(self), *final(self)),
            old(self).total_steps >= old(self).limit() ==> r matches Err(
                InterpError::StepLimitExceeded(_),
            ),
            old(self).total_steps < old(self).limit() ==> match func {
                Value::Closure { func: f, captured, remaining_arity } => remaining_arity > 1 ==> (
                r matches Ok(Value::Closure { func: g, captured: c, remaining_arity: k }) && g == f
                    && c@ == captured@.push(arg) && k == remaining_arity - 1),
                Value::Erased => r matches Ok(Value::Erased),
                Value::KernelExpr(e) => r == Ok::<Value, InterpError>(Value::KernelExpr(e)),
                Value::Ctor { .. } => r is Ok ==> r == Ok::<Value, InterpError>(func),
                _ => r matches Err(InterpError::TypeError(_)),
            },
            (func matches Value::Closure { func: FuncRef::Lambda(body, env), captured, remaining_arity }
                && captured@.len() == 0 && remaining_arity == 1 && number_eval(
                body@,
                seq![as_number(arg)] + numbers(env.values()),
            ) is Some && old(self).total_steps + 1 + number_steps(body@) <= old(self).limit() && old(
                self,
            ).eval_depth + number_depth(body@) <= old(self).max_eval_depth) ==> (r matches Ok(
                Value::Nat(n),
            ) && Some(n@) == number_eval(
                func->Closure_func->Lambda_0@,
                seq![as_number(arg)] + numbers(func->Closure_func->Lambda_1.values()),
            ) && final(self).total_steps == old(self).total_steps + 1 + number_steps(
                func->Closure_func->Lambda_0@,
            )),
            (func matches Value::Closure { func: FuncRef::Lambda(body, env), captured, remaining_arity }
                && captured@.len() == 0 && remaining_arity == 1 && body@ is Lam && old(
                self,
            ).total_steps + 2 <= old(self).limit() && old(self).eval_depth < old(
                self,
            ).max_eval_depth) ==> (lambda_closure(
                func->Closure_func->Lambda_0@,
                seq![as_number(arg)] + numbers(func->Closure_func->Lambda_1.values()),
                r,
            ) && final(self).total_steps == old(self).total_steps + 2),
        decreases old(self).fuel(), 1int,
    {
        self.tick()?;
        match apply_step(func, arg)? {
            ApplyStep::Done(v) => Ok(v),
            ApplyStep::Call { func, args } => self.apply_fully(func, args),
        }
    }

    /// Call a function that has all its arguments: a lambda evaluates its
    /// body with the last argument bound; a definition is evaluated and
    /// applied to the arguments; a builtin computes (a failure on erased
    /// arguments gives an erased value); a constructor builds its value; a
    /// recursor performs iota reduction.
    pub fn apply_fully(&mut self, func: FuncRef, args: Vec<Value>) -> (r: Result<Value, InterpError>)
        requires
            old(self).inv(),
        ensures
            Self::later(*old(self), *final(self)),
            func is Lambda && args@.len() == 0 ==> r matches Err(InterpError::TypeError(_)),
            (func matches FuncRef::Lambda(body, env) && args@.len() == 1 && number_eval(
                body@,
                seq![as_number(args@[0])] + numbers(env.values()),
            ) is Some && old(self).total_steps + number_steps(body@) <= old(self).limit() && old(
                self,
            ).eval_depth + number_depth(body@) <= old(self).max_eval_depth) ==> (r matches Ok(
                Value::Nat(n),
            ) && Some(n@) == number_eval(
                func->Lambda_0@,
                seq![as_number(args@[0])] + numbers(func->Lambda_1.values()),
            ) && final(self).total_steps == old(self).total_steps + number_steps(func->Lambda_0@)),
            (func matches FuncRef::Lambda(body, env) && args@.len() == 1 && body@ is Lam && old(
                self,
            ).total_steps < old(self).limit() && old(self).eval_depth < old(self).max_eval_depth)
                ==> (lambda_closure(
                func->Lambda_0@,
                seq![as_number(args@[0])] + numbers(func->Lambda_1.values()),
                r,
            ) && final(self).total_steps == old(self).total_steps + 1),
            func matches FuncRef::Builtin(name) ==> exists|o: Option<Result<Value, InterpError>>|
                builtin_result(name@, args@, o) && builtin_call_result(name, args@, o, r),
            func matches FuncRef::CtorFn { name, tag, num_params, num_fields } ==> (r matches Ok(v)
                && ctor_built(name, tag, num_params, num_fields, args@, v)),
        decreases old(self).fuel(), 5int,
    {
        let ghost f0 = func;
        match func {
            FuncRef::Lambda(body, env) => {
                let mut args = args;
                match args.pop() {
                    Some(arg) => {
                        let new_env = env.push(arg);
                        self.eval(&body, &new_env)
                    },
                    None => Err(type_error("lambda applied to no argument")),
                }
            },
            FuncRef::Definition(defname, levels) => {
                let mut result = self.eval_const(&defname, levels.as_slice())?;
                let mut i: usize = 0;
                while i < args.len()
                    invariant
                        Self::later(*old(self), *self),
                        f0 == func,
                        f0 is Definition,
                        i <= args@.len(),
                    decreases args@.len() - i,
                {
                    result = self.apply(result, args[i].clone())?;
                    i = i + 1;
                }
                Ok(result)
            },
            FuncRef::Builtin(name) => match call_builtin(&name, args.as_slice()) {
                None => Err(InterpError::UnknownConstant(name)),
                Some(Ok(v)) => Ok(v),
                Some(Err(InterpError::BuiltinError(msg))) => {
                    let mut erased = false;
                    let mut i: usize = 0;
                    while i < args.len()
                        invariant
                            i <= args@.len(),
                            erased <==> exists|j: int| 0 <= j < i && (#[trigger] args@[j]) is Erased,
                        decreases args@.len() - i,
                    {
                        if let Value::Erased = args[i] {
                            erased = true;
                        }
                        i = i + 1;
                    }
                    if erased {
                        Ok(Value::Erased)
                    } else {
                        Err(InterpError::BuiltinError(msg))
                    }
                },
                Some(Err(e)) => Err(e),
            },
            FuncRef::CtorFn { name, tag, num_params, num_fields } => Ok(
                build_ctor(name, tag, num_params, num_fields, args),
            ),
            FuncRef::RecursorFn(name, levels) => self.apply_recursor(&name, levels.as_slice(), args),
        }
    }

    /// Iota reduction for the fully applied recursor `rec_name`: the
    /// right-hand side of the rule of the major premise's constructor (at the
    /// recursor's universe levels) is evaluated and applied to the
    /// parameters, motives and minor premises, then the constructor's fields.
    /// A right-hand side with loose bound variables is evaluated with those
    /// values bound instead, the last one at index 0.
    pub fn apply_recursor(&mut self, rec_name: &Name, levels: &[Level], args: Vec<Value>) -> (r:
        Result<Value, InterpError>)
        requires
            old(self).inv(),
        ensures
            Self::later(*old(self), *final(self)),
            !old(self).environment()@.constants.contains_key(rec_name@) ==> r matches Err(
                InterpError::KernelError(_),
            ),
        decreases old(self).fuel(), 3int,
    {
        let step = match iota_step_in(&self.env, rec_name, args) {
            Ok(step) => step,
            Err(e) => {
                return Err(e);
            },
        };
        match step {
            IotaStep::Erased => Ok(Value::Erased),
            IotaStep::Reduce { rule, args: subst } => {
                let info = match self.env.get(rec_name) {
                    Ok(info) => info,
                    Err(e) => {
                        return Err(InterpError::KernelError(e));
                    },
                };
                let rhs = match info {
                    ConstantInfo::Recursor { rules, .. } => {
                        if rule < rules.len() {
                            rules[rule].rhs.clone()
                        } else {
                            return Err(type_error("recursor rule out of range"));
                        }
                    },
                    _ => {
                        return Err(type_error("not a recursor"));
                    },
                };
                let level_params = info.level_params();
                let rhs = if level_params.len() > 0 && levels.len() > 0 {
                    if !rhs.inst_lparams_fits(level_params, levels) {
                        return Err(type_error("universe level too deep"));
                    }
                    rhs.instantiate_level_params(level_params, levels)
                } else {
                    rhs
                };
                self.apply_rule(&rhs, &subst)
            },
        }
    }

    /// Apply the right-hand side `rhs` of a recursor rule to `subst`: the
    /// parameters, motives and minor premises, then the constructor's
    /// fields. A closed `rhs` is evaluated and applied to them in that order,
    /// `subst[0]` first, so that `fun x1 ... xn => b` binds `xi` to
    /// `subst[i - 1]`; an `rhs` with loose bound variables is evaluated with
    /// them bound, the last one at index 0.
    pub fn apply_rule(&mut self, rhs: &Expr, subst: &Vec<Value>) -> (r: Result<Value, InterpError>)
        requires
            old(self).inv(),
        ensures
            Self::later(*old(self), *final(self)),
            lam_telescope(rhs@, subst@.len()) is Some && crate::expr::erange(rhs@) == 0
                && subst@.len() >= 1 && number_eval(
                lam_telescope(rhs@, subst@.len())->0,
                numbers(subst@).reverse(),
            ) is Some && old(self).total_steps + 2 * subst@.len() + number_steps(
                lam_telescope(rhs@, subst@.len())->0,
            ) <= old(self).limit() && old(self).eval_depth + number_depth(
                lam_telescope(rhs@, subst@.len())->0,
            ) <= old(self).max_eval_depth ==> (r matches Ok(Value::Nat(n)) && Some(n@)
                == number_eval(lam_telescope(rhs@, subst@.len())->0, numbers(subst@).reverse())),
        decreases old(self).fuel(), 2int,
    {
        match rhs.has_loose_bvars() {
            true => {
                let mut bound = LocalEnv::new();
                let mut k: usize = 0;
                while k < subst.len()
                    invariant
                        k <= subst@.len(),
                    decreases subst@.len() - k,
                {
                    bound = bound.push(subst[k].clone());
                    k = k + 1;
                }
                self.eval(rhs, &bound)
            },
            false => {
                let ghost n = subst@.len();
                let ghost body = lam_telescope(rhs@, n)->0;
                let ghost law = n >= 1 && lam_telescope(rhs@, n) is Some && number_eval(
                    body,
                    numbers(subst@).reverse(),
                ) is Some && old(self).total_steps + 2 * n + number_steps(body) <= old(
                    self,
                ).limit() && old(self).eval_depth + number_depth(body) <= old(
                    self,
                ).max_eval_depth;
                let empty = LocalEnv::new();
                proof {
                    if law {
                        lemma_telescope_prefix(rhs@, 0, n);
                        assert(numbers(empty.values()) =~= Seq::<Option<nat>>::empty());
                        assert(numbers(subst@.take(0)).reverse() =~= Seq::<Option<nat>>::empty());
                        assert(number_depth(body) >= 1);
                    }
                }
                let mut result = self.eval(rhs, &empty)?;
                let mut i: usize = 0;
                while i < subst.len()
                    invariant
                        Self::later(*old(self), *self),
                        i <= subst@.len(),
                        n == subst@.len(),
                        body == lam_telescope(rhs@, n)->0,
                        law == (n >= 1 && lam_telescope(rhs@, n) is Some && number_eval(
                            body,
                            numbers(subst@).reverse(),
                        ) is Some && old(self).total_steps + 2 * n + number_steps(body) <= old(
                            self,
                        ).limit() && old(self).eval_depth + number_depth(body) <= old(
                            self,
                        ).max_eval_depth),
                        law && i < n ==> lambda_closure(
                            lam_telescope(rhs@, i as nat)->0,
                            numbers(subst@.take(i as int)).reverse(),
                            Ok(result),
                        ) && lam_telescope(rhs@, i as nat) is Some && self.total_steps == old(
                            self,
                        ).total_steps + 1 + 2 * i,
                        law && i == n ==> (result matches Value::Nat(k) && Some(k@) == number_eval(
                            body,
                            numbers(subst@).reverse(),
                        )),
                    decreases subst@.len() - i,
                {
                    proof {
                        if law {
                            lemma_telescope_prefix(rhs@, i as nat, n);
                            lemma_telescope_step(rhs@, i as nat);
                            lemma_bound_numbers_step(subst@, i as int);
                            if i + 1 < n {
                                lemma_telescope_prefix(rhs@, (i + 1) as nat, n);
                            } else {
                                assert(subst@.take(i + 1) =~= subst@);
                            }
                        }
                    }
                    result = self.apply(result, subst[i].clone())?;
                    i = i + 1;
                }
                Ok(result)
            },
        }
    }

    /// The number of leading function binders of the type of `name`.
    fn arity_from_type(&self, name: &Name) -> (r: u32) {
        match self.env.find(name) {
            Some(info) => {
                let mut ty = info.type_().clone();
                let mut arity: u32 = 0;
                loop
                    decreases crate::expr::esize(ty@),
                {
                    match ty.kind() {
                        ExprKind::ForallE(_, _, body, _) => {
                            if arity == u32::MAX {
                                break;
                            }
                            arity = arity + 1;
                            ty = body.clone();
                        },
                        _ => {
                            break;
                        },
                    }
                }
                arity
            },
            None => 0,
        }
    }

    /// The value of constant `name` at `levels`: a builtin gives a closure
    /// awaiting as many arguments as its type has binders; a compiler
    /// auxiliary is erased; any other constant is looked up and evaluated.
    pub fn eval_const(&mut self, name: &Name, levels: &[Level]) -> (r: Result<Value, InterpError>)
        requires
            old(self).inv(),
        ensures
            Self::later(*old(self), *final(self)),
            crate::interp::builtin_result(name@, Seq::empty(), None) && !crate::interp::spec_compiler_aux(name@)
                && !old(self).environment()@.constants.contains_key(name@) ==> r matches Err(
                InterpError::KernelError(_),
            ),
        decreases old(self).fuel(), 4int,
    {
        if call_builtin(name, &[]).is_some() {
            return Ok(self.make_builtin_closure(name));
        }
        if is_compiler_aux(name) {
            return Ok(Value::Erased);
        }
        let info = match self.env.get(name) {
            Ok(info) => info.clone(),
            Err(e) => {
                return Err(InterpError::KernelError(e));
            },
        };
        self.eval_const_info(&info, levels)
    }

    /// A closure for builtin `name`.
    fn make_builtin_closure(&self, name: &Name) -> (r: Value)
        ensures
            r matches Value::Closure { func, captured, .. } && func is Builtin && captured@.len()
                == 0,
    {
        let arity = self.arity_from_type(name);
        Value::Closure { func: FuncRef::Builtin(name.clone()), captured: Vec::new(), remaining_arity: arity }
    }

    /// The value of a declaration at `levels`.
    pub fn eval_const_info(&mut self, info: &ConstantInfo, levels: &[Level]) -> (r: Result<Value, InterpError>)
        requires
            old(self).inv(),
        ensures
            Self::later(*old(self), *final(self)),
            info is Inductive || info is Quot ==> r matches Ok(Value::Erased),
        decreases old(self).fuel(), 3int,
    {
        match info {
            ConstantInfo::Definition { .. } | ConstantInfo::Theorem { .. } => self.eval_body(info, levels),
            ConstantInfo::Constructor { name, ctor_idx, num_params, num_fields, .. } => ctor_const_value(
                name,
                *ctor_idx,
                *num_params,
                *num_fields,
            ),
            ConstantInfo::Recursor { num_params, num_motives, num_minors, num_indices, .. } => {
                if (*num_params as u64) + (*num_motives as u64) + (*num_minors as u64) + (
                *num_indices as u64) + 1 > u32::MAX as u64 {
                    return Err(type_error("recursor arity too large"));
                }
                Ok(recursor_const_value(info, levels))
            },
            ConstantInfo::Inductive { .. } => Ok(Value::Erased),
            ConstantInfo::Opaque { name, .. } => {
                if call_builtin(name, &[]).is_some() {
                    return Ok(self.make_builtin_closure(name));
                }
                match self.unsafe_rec_of(name) {
                    Some(ci) => self.eval_body(&ci, levels),
                    None => self.eval_body(info, levels),
                }
            },
            ConstantInfo::Axiom { name, .. } => {
                if call_builtin(name, &[]).is_some() {
                    return Ok(self.make_builtin_closure(name));
                }
                match self.unsafe_rec_of(name) {
                    Some(ci) => self.eval_body(&ci, levels),
                    None => Ok(Value::Erased),
                }
            },
            ConstantInfo::Quot { .. } => Ok(Value::Erased),
        }
    }

    /// The definition `name._unsafe_rec`, the implementation of a partial
    /// function, if the environment has one.
    fn unsafe_rec_of(&self, name: &Name) -> (r: Option<ConstantInfo>) {
        let n = Name::mk_str(name.clone(), "_unsafe_rec");
        match self.env.find(&n) {
            Some(ci) => {
                if ci.is_definition() {
                    Some(ci.clone())
                } else {
                    None
                }
            },
            None => None,
        }
    }

    /// Evaluate the value of a definition, theorem or opaque constant at
    /// `levels` (its level parameters replaced when both are given).
    fn eval_body(&mut self, info: &ConstantInfo, levels: &[Level]) -> (r: Result<Value, InterpError>)
        requires
            old(self).inv(),
        ensures
            Self::later(*old(self), *final(self)),
        decreases old(self).fuel(), 2int,
    {
        let value = match info.value() {
            Some(v) => v,
            None => {
                return Ok(Value::Erased);
            },
        };
        let level_params = info.level_params();
        let body = if level_params.len() > 0 && levels.len() > 0 {
            if !value.inst_lparams_fits(level_params, levels) {
                return Err(type_error("universe level too deep"));
            }
            value.instantiate_level_params(level_params, levels)
        } else {
            value.clone()
        };
        self.eval(&body, &LocalEnv::new())
    }
}

} // verus!
