//! Runtime values of the interpreter, its local environments and errors, and
//! iota reduction: how a fully applied recursor picks the rule of the
//! constructor of its major premise and the arguments that rule is applied to.
use vstd::prelude::*;

use crate::constant_info::{ConstantInfo, ConstantV, RecursorRuleV};
use crate::environment::Environment;
use crate::expr::Expr;
use crate::kernel_error::KernelError;
use crate::level::Level;
use crate::literal::Natural;
use crate::name::{dotted_limbs, names_equal, Limb, Name};
use crate::text::{chars_of, push_all, string_from_chars, u64_to_decimal};

verus! {

/// An error met while evaluating.
#[derive(Debug)]
pub enum InterpError {
    UnboundVar(u64),
    UnknownConstant(Name),
    StackOverflow(u32),
    TypeError(String),
    ArityMismatch { expected: u32, got: u32 },
    ProjOutOfRange { struct_name: Name, idx: u64, num_fields: usize },
    RecursorError(String),
    BuiltinError(String),
    KernelError(KernelError),
    /// The step limit was passed; holds the step count reached.
    StepLimitExceeded(u64),
}

/// A runtime value produced by the interpreter.
#[derive(Debug)]
pub enum Value {
    /// A natural number.
    Nat(Natural),
    /// A string.
    String(String),
    /// A constructor application; `tag` is the constructor's index.
    Ctor { tag: u32, name: Name, fields: Vec<Value> },
    /// A function waiting for `remaining_arity` more arguments.
    Closure { func: FuncRef, captured: Vec<Value>, remaining_arity: u32 },
    /// An array of values.
    Array(Vec<Value>),
    /// A byte array.
    ByteArray(Vec<u8>),
    /// An erased term (a type or a proof).
    Erased,
    /// A kernel expression passed through.
    KernelExpr(Expr),
}

/// What a closure calls once it has all its arguments.
#[derive(Debug)]
pub enum FuncRef {
    /// A global definition, with its universe levels.
    Definition(Name, Vec<Level>),
    /// A lambda body with the environment it was made in.
    Lambda(Expr, LocalEnv),
    /// A builtin function.
    Builtin(Name),
    /// A constructor: when fully applied, builds the constructor value.
    CtorFn { name: Name, tag: u32, num_params: u32, num_fields: u32 },
    /// A recursor: when fully applied, performs iota reduction.
    RecursorFn(Name, Vec<Level>),
}

/// A local variable environment indexed by de Bruijn indices; index 0 is the
/// variable bound last.
#[derive(Debug)]
pub struct LocalEnv {
    bindings: Vec<Value>,
}

/// The number a value holds, if it is one.
pub open spec fn as_number(v: Value) -> Option<nat> {
    match v {
        Value::Nat(n) => Some(n@),
        _ => None,
    }
}

/// The numbers the values hold, position by position.
pub open spec fn numbers(vs: Seq<Value>) -> Seq<Option<nat>> {
    vs.map_values(|v: Value| as_number(v))
}

/// A copy of a value.
pub(crate) fn clone_value(v: &Value) -> (r: Value)
    ensures
        as_number(r) == as_number(*v),
    decreases v,
{
    match v {
        Value::Nat(n) => Value::Nat(n.clone()),
        Value::String(s) => Value::String(s.clone()),
        Value::Ctor { tag, name, fields } => Value::Ctor {
            tag: *tag,
            name: name.clone(),
            fields: clone_values(fields),
        },
        Value::Closure { func, captured, remaining_arity } => Value::Closure {
            func: clone_func(func),
            captured: clone_values(captured),
            remaining_arity: *remaining_arity,
        },
        Value::Array(vs) => Value::Array(clone_values(vs)),
        Value::ByteArray(bs) => Value::ByteArray(bs.clone()),
        Value::Erased => Value::Erased,
        Value::KernelExpr(e) => Value::KernelExpr(e.clone()),
    }
}

/// Copies of the values of `vs`, in order.
fn clone_values(vs: &Vec<Value>) -> (r: Vec<Value>)
    ensures
        r@.len() == vs@.len(),
        numbers(r@) == numbers(vs@),
    decreases vs,
{
    let mut out: Vec<Value> = Vec::new();
    let mut i: usize = 0;
    while i < vs.len()
        invariant
            i <= vs@.len(),
            out@.len() == i,
            forall|j: int| 0 <= j < i ==> as_number(#[trigger] out@[j]) == as_number(vs@[j]),
        decreases vs@.len() - i,
    {
        proof {
            assert(decreases_to!(vs => vs@));
            assert(decreases_to!(vs@ => vs@[i as int]));
        }
        out.push(clone_value(&vs[i]));
        i = i + 1;
    }
    proof {
        assert(numbers(out@) =~= numbers(vs@));
    }
    out
}

/// A copy of a function reference.
fn clone_func(f: &FuncRef) -> (r: FuncRef)
    decreases f,
{
    match f {
        FuncRef::Definition(n, ls) => FuncRef::Definition(n.clone(), ls.clone()),
        FuncRef::Lambda(e, env) => {
            proof {
                assert(decreases_to!(env => env.bindings));
            }
            FuncRef::Lambda(e.clone(), LocalEnv { bindings: clone_values(&env.bindings) })
        },
        FuncRef::Builtin(n) => FuncRef::Builtin(n.clone()),
        FuncRef::CtorFn { name, tag, num_params, num_fields } => FuncRef::CtorFn {
            name: name.clone(),
            tag: *tag,
            num_params: *num_params,
            num_fields: *num_fields,
        },
        FuncRef::RecursorFn(n, ls) => FuncRef::RecursorFn(n.clone(), ls.clone()),
    }
}

impl Clone for Value {
    fn clone(&self) -> (r: Self)
        ensures
            as_number(r) == as_number(*self),
    {
        clone_value(self)
    }
}

impl Clone for FuncRef {
    fn clone(&self) -> (r: Self) {
        clone_func(self)
    }
}

impl Clone for LocalEnv {
    fn clone(&self) -> (r: Self) {
        LocalEnv { bindings: clone_values(&self.bindings) }
    }
}

impl LocalEnv {
    /// The bound values, the one bound last first.
    pub closed spec fn values(&self) -> Seq<Value> {
        self.bindings@
    }

    /// An empty environment.
    pub fn new() -> (r: Self)
        ensures
            r.values().len() == 0,
    {
        LocalEnv { bindings: Vec::new() }
    }

    /// A copy of this environment.
    pub(crate) fn copied(&self) -> (r: Self)
        ensures
            numbers(r.values()) == numbers(self.values()),
    {
        LocalEnv { bindings: clone_values(&self.bindings) }
    }

    /// The environment with `val` bound in front (it becomes index 0); the
    /// other bindings are copies of this environment's, one place further.
    pub fn push(&self, val: Value) -> (r: Self)
        ensures
            r.values().len() == self.values().len() + 1,
            r.values()[0] == val,
            numbers(r.values()) == seq![as_number(val)] + numbers(self.values()),
    {
        let mut bindings: Vec<Value> = Vec::new();
        bindings.push(val);
        let mut i: usize = 0;
        while i < self.bindings.len()
            invariant
                i <= self.bindings@.len(),
                bindings@.len() == i + 1,
                bindings@[0] == val,
                forall|j: int| 0 <= j < i ==> as_number(#[trigger] bindings@[j + 1]) == as_number(
                    self.bindings@[j],
                ),
            decreases self.bindings@.len() - i,
        {
            bindings.push(clone_value(&self.bindings[i]));
            i = i + 1;
        }
        proof {
            assert(numbers(bindings@) =~= seq![as_number(val)] + numbers(self.bindings@)) by {
                assert forall|j: int| 0 <= j < bindings@.len() implies numbers(bindings@)[j] == (
                seq![as_number(val)] + numbers(self.bindings@))[j] by {
                    if j > 0 {
                        assert(as_number(bindings@[(j - 1) + 1]) == as_number(self.bindings@[j - 1]));
                    }
                }
            }
        }
        LocalEnv { bindings }
    }

    /// The value at de Bruijn index `idx`.
    pub fn lookup(&self, idx: u64) -> (r: Result<&Value, InterpError>)
        ensures
            r is Ok <==> idx < self.values().len(),
            r matches Ok(v) ==> *v == self.values()[idx as int],
            r matches Err(e) ==> e == InterpError::UnboundVar(idx),
    {
        if idx < self.bindings.len() as u64 {
            Ok(&self.bindings[idx as usize])
        } else {
            Err(InterpError::UnboundVar(idx))
        }
    }

    /// The number of bindings.
    pub fn len(&self) -> (r: usize)
        ensures
            r == self.values().len(),
    {
        self.bindings.len()
    }

    /// Whether nothing is bound.
    pub fn is_empty(&self) -> (b: bool)
        ensures
            b == (self.values().len() == 0),
    {
        self.bindings.len() == 0
    }
}

impl Default for LocalEnv {
    fn default() -> (r: Self)
        ensures
            r.values().len() == 0,
    {
        LocalEnv::new()
    }
}

/// The constructor value `name` with index `tag` and no fields.
pub open spec fn is_plain_ctor(v: Value, tag: u32, name: Seq<char>) -> bool {
    v matches Value::Ctor { tag: t, name: n, fields } && t == tag && n@ == dotted_limbs(name)
        && fields@.len() == 0
}

impl Value {
    /// The natural number `n`.
    pub fn nat_small(n: u64) -> (r: Self)
        ensures
            r matches Value::Nat(x) && x@ == n,
    {
        Value::Nat(Natural::from_u64(n))
    }

    /// The natural number `n`.
    pub fn natural(n: Natural) -> (r: Self)
        ensures
            r == Value::Nat(n),
    {
        Value::Nat(n)
    }

    /// The string `s`.
    pub fn string(s: &str) -> (r: Self)
        ensures
            r matches Value::String(t) && t@ == s@,
    {
        Value::String(string_from_chars(chars_of(s).as_slice()))
    }

    /// `Bool.true` (tag 1) or `Bool.false` (tag 0).
    pub fn bool_(b: bool) -> (r: Self)
        ensures
            if b {
                is_plain_ctor(r, 1, "Bool.true"@)
            } else {
                is_plain_ctor(r, 0, "Bool.false"@)
            },
    {
        if b {
            Value::Ctor { tag: 1, name: Name::from_str_parts("Bool.true"), fields: Vec::new() }
        } else {
            Value::Ctor { tag: 0, name: Name::from_str_parts("Bool.false"), fields: Vec::new() }
        }
    }

    /// `Unit.unit`.
    pub fn unit() -> (r: Self)
        ensures
            is_plain_ctor(r, 0, "Unit.unit"@),
    {
        Value::Ctor { tag: 0, name: Name::from_str_parts("Unit.unit"), fields: Vec::new() }
    }

    /// A constructor with tag 0 reads as `false`, one with tag 1 as `true`.
    pub fn as_bool(&self) -> (r: Option<bool>)
        ensures
            r == (match *self {
                Value::Ctor { tag, .. } => if tag == 0 {
                    Some(false)
                } else if tag == 1 {
                    Some(true)
                } else {
                    None
                },
                _ => None,
            }),
    {
        match self {
            Value::Ctor { tag, .. } => if *tag == 0 {
                Some(false)
            } else if *tag == 1 {
                Some(true)
            } else {
                None
            },
            _ => None,
        }
    }

    /// The number, for a natural number value.
    pub fn as_nat(&self) -> (r: Option<&Natural>)
        ensures
            r is Some <==> *self is Nat,
            r matches Some(n) ==> *self == Value::Nat(*n),
    {
        match self {
            Value::Nat(n) => Some(n),
            _ => None,
        }
    }

    /// The text, for a string value.
    pub fn as_str(&self) -> (r: Option<&str>)
        ensures
            r is Some <==> *self is String,
            r matches Some(s) ==> (*self matches Value::String(t) && s@ == t@),
    {
        match self {
            Value::String(s) => Some(s.as_str()),
            _ => None,
        }
    }

    /// Whether this is a constructor named by the dotted text `name`.
    pub fn is_ctor_named(&self, name: &str) -> (b: bool)
        ensures
            b == (*self matches Value::Ctor { name: n, .. } && n@ == dotted_limbs(name@)),
    {
        match self {
            Value::Ctor { name: n, .. } => {
                let m = Name::from_str_parts(name);
                names_equal(n, &m)
            },
            _ => false,
        }
    }

    /// `Option.some val`.
    pub fn some(val: Value) -> (r: Self)
        ensures
            r matches Value::Ctor { tag, name, fields } && tag == 1 && name@ == dotted_limbs(
                "Option.some"@,
            ) && fields@ == seq![val],
    {
        let mut fields: Vec<Value> = Vec::new();
        fields.push(val);
        Value::Ctor { tag: 1, name: Name::from_str_parts("Option.some"), fields }
    }

    /// `Option.none`.
    pub fn none() -> (r: Self)
        ensures
            is_plain_ctor(r, 0, "Option.none"@),
    {
        Value::Ctor { tag: 0, name: Name::from_str_parts("Option.none"), fields: Vec::new() }
    }
}

/// The number of arguments a recursor takes: its parameters, motives, minor
/// premises and indices, then the major premise.
pub open spec fn spec_recursor_arity(info: ConstantV) -> int {
    match info {
        ConstantV::Recursor { num_params, num_motives, num_minors, num_indices, .. } => num_params
            + num_motives + num_minors + num_indices + 1,
        _ => 1,
    }
}

/// Total arity of a recursor: parameters, motives, minor premises, indices
/// and the major premise; 1 for any other declaration.
pub fn recursor_total_arity(info: &ConstantInfo) -> (r: u32)
    requires
        spec_recursor_arity(info@) <= u32::MAX,
    ensures
        r == spec_recursor_arity(info@),
{
    match info {
        ConstantInfo::Recursor { num_params, num_motives, num_minors, num_indices, .. } => {
            *num_params + *num_motives + *num_minors + *num_indices + 1
        },
        _ => 1,
    }
}

/// The constructor a major premise stands for: its own for a constructor
/// value, `Nat.zero` or `Nat.succ` for a number.
pub open spec fn major_ctor(v: Value) -> Option<Seq<Limb>> {
    match v {
        Value::Ctor { name, .. } => Some(name@),
        Value::Nat(n) => Some(
            dotted_limbs(
                if n@ == 0 {
                    "Nat.zero"@
                } else {
                    "Nat.succ"@
                },
            ),
        ),
        _ => None,
    }
}

/// `fields` are the fields of the constructor that major premise `v` stands
/// for: a constructor value's own, none for zero, the predecessor for a
/// positive number.
pub open spec fn major_fields(v: Value, fields: Seq<Value>) -> bool {
    match v {
        Value::Ctor { fields: f, .. } => fields == f@,
        Value::Nat(n) => if n@ == 0 {
            fields.len() == 0
        } else {
            fields.len() == 1 && (fields[0] matches Value::Nat(m) && m@ == n@ - 1)
        },
        _ => false,
    }
}

/// Rule `i` is the first of `rules` for constructor `c`.
pub open spec fn first_rule(rules: Seq<RecursorRuleV>, c: Seq<Limb>, i: int) -> bool {
    &&& 0 <= i < rules.len()
    &&& rules[i].ctor_name == c
    &&& forall|j: int| 0 <= j < i ==> #[trigger] rules[j].ctor_name != c
}

/// What iota reduction does once the recursor is found.
pub enum IotaStep {
    /// The major premise is erased, and so is the result.
    Erased,
    /// The right-hand side of rule `rule` is applied to `args`: the
    /// parameters, motives and minor premises, then the constructor's fields.
    Reduce { rule: usize, args: Vec<Value> },
}

/// The outcome of iota reduction for declaration `info` on `args`: an error
/// for a declaration that is no recursor, too few arguments, a major premise
/// that is no constructor, or a constructor without a rule; otherwise the
/// first rule of the constructor, with its arguments.
pub open spec fn iota_outcome(info: ConstantV, args: Seq<Value>, r: Result<IotaStep, InterpError>) -> bool {
    match info {
        ConstantV::Recursor { num_params, num_motives, num_minors, num_indices, rules, .. } => {
            let pmm = num_params + num_motives + num_minors;
            let k = pmm + num_indices;
            if args.len() <= k {
                r matches Err(InterpError::RecursorError(_))
            } else if args[k] is Erased {
                r matches Ok(IotaStep::Erased)
            } else {
                match major_ctor(args[k]) {
                    None => r matches Err(InterpError::RecursorError(_)),
                    Some(c) => if exists|i: int| first_rule(rules, c, i) {
                        r matches Ok(IotaStep::Reduce { rule, args: a }) && first_rule(
                            rules,
                            c,
                            rule as int,
                        ) && a@.take(pmm) == args.take(pmm) && major_fields(args[k], a@.skip(pmm))
                            && a@.len() >= pmm
                    } else {
                        r matches Err(InterpError::RecursorError(_))
                    },
                }
            }
        },
        _ => r matches Err(InterpError::RecursorError(_)),
    }
}

/// An error message: `text` followed by the name.
fn message_with_name(text: &str, name: &Name) -> (r: String) {
    let mut out: Vec<char> = Vec::new();
    push_all(&mut out, chars_of(text).as_slice());
    push_all(&mut out, chars_of(name.to_string().as_str()).as_slice());
    string_from_chars(out.as_slice())
}

/// The constructor and fields that a number stands for: `Nat.zero`, or
/// `Nat.succ` of the predecessor.
fn nat_to_ctor(n: &Natural) -> (r: (Name, Vec<Value>))
    ensures
        r.0@ == major_ctor(Value::Nat(*n))->0,
        major_fields(Value::Nat(*n), r.1@),
{
    if n.is_zero() {
        (Name::from_str_parts("Nat.zero"), Vec::new())
    } else {
        let mut fields: Vec<Value> = Vec::new();
        fields.push(Value::Nat(n.pred()));
        (Name::from_str_parts("Nat.succ"), fields)
    }
}

/// Iota reduction for recursor declaration `info` applied to `args`
/// (parameters, motives, minor premises, indices, then the major premise):
/// the rule of the major premise's constructor and the arguments its
/// right-hand side takes.
pub fn iota_step(info: &ConstantInfo, args: Vec<Value>) -> (r: Result<IotaStep, InterpError>)
    ensures
        iota_outcome(info@, args@, r),
{
    let (num_params, num_motives, num_minors, num_indices, rules) = match info {
        ConstantInfo::Recursor { num_params, num_motives, num_minors, num_indices, rules, .. } => (
            *num_params as u64,
            *num_motives as u64,
            *num_minors as u64,
            *num_indices as u64,
            rules,
        ),
        _ => {
            return Err(
                InterpError::RecursorError(message_with_name("not a recursor: ", info.name())),
            );
        },
    };
    let pmm = num_params + num_motives + num_minors;
    let k = pmm + num_indices;
    if args.len() as u64 <= k {
        let mut out: Vec<char> = Vec::new();
        push_all(&mut out, chars_of("recursor expected more arguments than ").as_slice());
        push_all(&mut out, chars_of(u64_to_decimal(args.len() as u64).as_str()).as_slice());
        return Err(InterpError::RecursorError(string_from_chars(out.as_slice())));
    }
    let ghost orig = args@;
    let mut rest = args;
    let major = rest.remove(k as usize);
    proof {
        assert(rest@ == orig.remove(k as int));
        assert(rest@.take(pmm as int) == orig.take(pmm as int));
    }
    let (ctor_name, fields) = match major {
        Value::Ctor { name, fields, .. } => (name, fields),
        Value::Nat(n) => nat_to_ctor(&n),
        Value::Erased => {
            return Ok(IotaStep::Erased);
        },
        _ => {
            return Err(
                InterpError::RecursorError(
                    message_with_name("major premise is not a constructor: ", info.name()),
                ),
            );
        },
    };
    let ghost rv = crate::constant_info::rules_view(rules@);
    let mut i: usize = 0;
    while i < rules.len()
        invariant
            i <= rules@.len(),
            rv == crate::constant_info::rules_view(rules@),
            forall|j: int| 0 <= j < i ==> #[trigger] rv[j].ctor_name != ctor_name@,
            rest@ == orig.remove(k as int),
            orig == args@,
            pmm <= k < orig.len(),
            major_fields(orig[k as int], fields@),
            major_ctor(orig[k as int]) == Some(ctor_name@),
            !(orig[k as int] is Erased),
            info@ is Recursor,
            info@->Recursor_num_params + info@->Recursor_num_motives + info@->Recursor_num_minors
                == pmm,
            pmm + info@->Recursor_num_indices == k,
            info@->Recursor_rules == rv,
        decreases rules@.len() - i,
    {
        if names_equal(&rules[i].ctor_name, &ctor_name) {
            let ghost removed = rest@;
            rest.truncate(pmm as usize);
            let ghost kept = rest@;
            let mut fields = fields;
            let ghost fs = fields@;
            rest.append(&mut fields);
            proof {
                assert(rv[i as int].ctor_name == rules@[i as int].ctor_name@);
                assert(first_rule(rv, ctor_name@, i as int));
                assert(kept == removed.subrange(0, pmm as int));
                assert(rest@ == kept + fs);
                assert(rest@.take(pmm as int) =~= orig.take(pmm as int));
                assert(rest@.skip(pmm as int) =~= fs);
                assert(major_fields(orig[k as int], rest@.skip(pmm as int)));
                assert(exists|j: int| first_rule(rv, ctor_name@, j));
            }
            return Ok(IotaStep::Reduce { rule: i, args: rest });
        }
        i = i + 1;
    }
    proof {
        assert(forall|j: int| #[trigger] first_rule(rv, ctor_name@, j) ==> false);
    }
    Err(
        InterpError::RecursorError(
            message_with_name("no recursor rule for the constructor of the major premise in ", info.name()),
        ),
    )
}

/// The value of a constructor constant: a constant without parameters or
/// fields is its constructor value (`Nat.zero` is the number 0), any other a
/// closure waiting for its parameters and fields.
pub fn ctor_const_value(name: &Name, ctor_idx: u32, num_params: u32, num_fields: u32) -> (r:
    Result<Value, InterpError>)
    ensures
        num_params + num_fields > u32::MAX ==> r is Err,
        num_params + num_fields <= u32::MAX ==> r is Ok,
        r matches Ok(v) ==> if num_params + num_fields == 0 {
            if name@ == dotted_limbs("Nat.zero"@) {
                v matches Value::Nat(n) && n@ == 0
            } else {
                v matches Value::Ctor { tag, name: n, fields } && tag == ctor_idx && n@ == name@
                    && fields@.len() == 0
            }
        } else {
            v matches Value::Closure { func, captured, remaining_arity } && captured@.len() == 0
                && remaining_arity == num_params + num_fields && (func matches FuncRef::CtorFn {
                name: n,
                tag,
                num_params: p,
                num_fields: f,
            } && n@ == name@ && tag == ctor_idx && p == num_params && f == num_fields)
        },
{
    if num_params > u32::MAX - num_fields {
        return Err(InterpError::ArityMismatch { expected: num_params, got: num_fields });
    }
    let total_arity = num_params + num_fields;
    if total_arity == 0 {
        if names_equal(name, &Name::from_str_parts("Nat.zero")) {
            return Ok(Value::nat_small(0));
        }
        Ok(Value::Ctor { tag: ctor_idx, name: name.clone(), fields: Vec::new() })
    } else {
        Ok(
            Value::Closure {
                func: FuncRef::CtorFn {
                    name: name.clone(),
                    tag: ctor_idx,
                    num_params,
                    num_fields,
                },
                captured: Vec::new(),
                remaining_arity: total_arity,
            },
        )
    }
}

/// The value of a recursor constant: a closure waiting for all its arguments.
pub fn recursor_const_value(info: &ConstantInfo, levels: &[Level]) -> (r: Value)
    requires
        info@ is Recursor,
        spec_recursor_arity(info@) <= u32::MAX,
    ensures
        r matches Value::Closure { func, captured, remaining_arity } && captured@.len() == 0
            && remaining_arity == spec_recursor_arity(info@) && (func matches FuncRef::RecursorFn(
            n,
            ls,
        ) && n@ == info@->Recursor_name && ls@ == levels@),
{
    let total_arity = recursor_total_arity(info);
    let mut ls: Vec<Level> = Vec::new();
    let mut i: usize = 0;
    while i < levels.len()
        invariant
            i <= levels@.len(),
            ls@ == levels@.take(i as int),
        decreases levels@.len() - i,
    {
        ls.push(levels[i].clone());
        proof {
            assert(levels@.take(i + 1) == levels@.take(i as int).push(levels@[i as int]));
        }
        i = i + 1;
    }
    proof {
        assert(levels@.take(levels@.len() as int) == levels@);
    }
    Value::Closure {
        func: FuncRef::RecursorFn(info.name().clone(), ls),
        captured: Vec::new(),
        remaining_arity: total_arity,
    }
}

/// The elements of a list value: `cons` cells (tag 1, head and tail first)
/// down to the first value that is not one.
pub open spec fn list_elems(v: Value) -> Seq<Value>
    decreases v,
{
    match v {
        Value::Ctor { tag, fields, .. } => if tag == 1 && fields@.len() >= 2 {
            proof {
                assert(decreases_to!(v => fields));
                assert(decreases_to!(fields => fields@));
                assert(decreases_to!(fields@ => fields@[1]));
            }
            seq![fields@[0]] + list_elems(fields@[1])
        } else {
            Seq::empty()
        },
        _ => Seq::empty(),
    }
}

/// The elements of list value `v`, moved into an array.
fn list_to_vec(v: Value) -> (r: Vec<Value>)
    ensures
        r@ == list_elems(v),
    decreases v,
{
    match v {
        Value::Ctor { tag, fields, name } => {
            if tag == 1 && fields.len() >= 2 {
                let ghost fs = fields@;
                let mut fields = fields;
                let tail = fields.remove(1);
                let head = fields.remove(0);
                proof {
                    assert(tail == fs[1]);
                    assert(head == fs[0]);
                    assert(decreases_to!(v => v->Ctor_fields));
                }
                let rest = list_to_vec(tail);
                let mut out: Vec<Value> = Vec::new();
                out.push(head);
                let mut rest = rest;
                out.append(&mut rest);
                proof {
                    assert(out@ == seq![fs[0]] + list_elems(fs[1]));
                }
                out
            } else {
                Vec::new()
            }
        },
        _ => Vec::new(),
    }
}

/// The `num_fields` arguments after the first `num_params` (as many as there are).
pub open spec fn ctor_fields(args: Seq<Value>, num_params: int, num_fields: int) -> Seq<Value> {
    if num_params >= args.len() {
        Seq::empty()
    } else if num_params + num_fields >= args.len() {
        args.skip(num_params)
    } else {
        args.subrange(num_params, num_params + num_fields)
    }
}

/// `r` is the value of constructor `name` (index `tag`, with `num_params`
/// parameters and `num_fields` fields) applied to `args`.
pub open spec fn ctor_built(name: Name, tag: u32, num_params: u32, num_fields: u32, args: Seq<Value>, r: Value) -> bool {
    let fields = ctor_fields(args, num_params as int, num_fields as int);
    if name@ == dotted_limbs("Nat.zero"@) {
        r matches Value::Nat(n) && n@ == 0
    } else if name@ == dotted_limbs("Nat.succ"@) && fields.len() > 0 && fields[0] is Nat {
        r matches Value::Nat(n) && (fields[0] matches Value::Nat(m) && n@ == m@ + 1)
    } else if name@ == dotted_limbs("Array.mk"@) && fields.len() > 0 {
        r matches Value::Array(es) && es@ == list_elems(fields[0])
    } else {
        r == Value::Ctor { tag, name, fields: r->Ctor_fields } && r->Ctor_fields@ == fields
    }
}

/// A fully applied constructor: its fields are the arguments after the
/// parameters. `Nat.zero` gives 0 and `Nat.succ n` gives `n + 1`, keeping
/// numbers as numbers; `Array.mk` of a list gives the array of its elements.
pub fn build_ctor(name: Name, tag: u32, num_params: u32, num_fields: u32, args: Vec<Value>) -> (r:
    Value)
    ensures
        ctor_built(name, tag, num_params, num_fields, args@, r),
{
    let ghost orig = args@;
    let mut fields = args;
    let p = num_params as usize;
    if p >= fields.len() {
        fields = Vec::new();
    } else {
        let rest = fields.split_off(p);
        fields = rest;
        if (num_fields as usize) < fields.len() {
            fields.truncate(num_fields as usize);
        }
    }
    proof {
        let fs = ctor_fields(orig, num_params as int, num_fields as int);
        assert(fields@ =~= fs);
    }
    if names_equal(&name, &Name::from_str_parts("Nat.zero")) {
        return Value::nat_small(0);
    }
    if names_equal(&name, &Name::from_str_parts("Nat.succ")) && fields.len() > 0 {
        if let Value::Nat(n) = &fields[0] {
            return Value::Nat(n.succ());
        }
    }
    if names_equal(&name, &Name::from_str_parts("Array.mk")) && fields.len() > 0 {
        let first = fields.remove(0);
        return Value::Array(list_to_vec(first));
    }
    Value::Ctor { tag, name, fields }
}

/// What applying a value to one more argument comes to.
pub enum ApplyStep {
    /// The closure now has all its arguments: call `func` with `args`.
    Call { func: FuncRef, args: Vec<Value> },
    /// The value that results without a call.
    Done(Value),
}

/// Apply `func` to `arg`: a closure collects the argument, and is called once
/// it has all of them; erased values, kernel expressions and `EStateM.Result`
/// constructors stay as they are; anything else is no function.
pub fn apply_step(func: Value, arg: Value) -> (r: Result<ApplyStep, InterpError>)
    ensures
        match func {
            Value::Closure { func: f, captured, remaining_arity } => if remaining_arity <= 1 {
                r matches Ok(ApplyStep::Call { func: g, args }) && g == f && args@ == captured@.push(
                    arg,
                )
            } else {
                r matches Ok(ApplyStep::Done(v)) && v == Value::Closure {
                    func: f,
                    captured: v->Closure_captured,
                    remaining_arity: (remaining_arity - 1) as u32,
                } && v->Closure_captured@ == captured@.push(arg)
            },
            Value::Erased => r matches Ok(ApplyStep::Done(v)) && v is Erased,
            Value::KernelExpr(e) => r matches Ok(ApplyStep::Done(v)) && v == Value::KernelExpr(e),
            Value::Ctor { name, .. } => if crate::text::occurs_in(
                crate::name::name_text(name@),
                "EStateM.Result"@,
            ) {
                r matches Ok(ApplyStep::Done(v)) && v == func
            } else {
                r matches Err(InterpError::TypeError(_))
            },
            _ => r matches Err(InterpError::TypeError(_)),
        },
{
    match func {
        Value::Closure { func: f, captured, remaining_arity } => {
            let mut captured = captured;
            captured.push(arg);
            if remaining_arity <= 1 {
                Ok(ApplyStep::Call { func: f, args: captured })
            } else {
                Ok(
                    ApplyStep::Done(
                        Value::Closure { func: f, captured, remaining_arity: remaining_arity - 1 },
                    ),
                )
            }
        },
        Value::Erased => Ok(ApplyStep::Done(Value::Erased)),
        Value::KernelExpr(e) => Ok(ApplyStep::Done(Value::KernelExpr(e))),
        Value::Ctor { tag, name, fields } => {
            if crate::text::str_contains(name.to_string().as_str(), "EStateM.Result") {
                Ok(ApplyStep::Done(Value::Ctor { tag, name, fields }))
            } else {
                Err(InterpError::TypeError(string_from_chars(chars_of("cannot apply a non-function value").as_slice())))
            }
        },
        _ => Err(InterpError::TypeError(string_from_chars(chars_of("cannot apply a non-function value").as_slice()))),
    }
}

/// The number held by argument `i`, if it is a natural number.
pub open spec fn nat_arg(args: Seq<Value>, i: int) -> Option<nat> {
    if 0 <= i < args.len() && args[i] is Nat {
        Some(args[i]->Nat_0@)
    } else {
        None
    }
}

/// The numbers among `args`, in order.
pub open spec fn nats_in(args: Seq<Value>) -> Seq<nat>
    decreases args.len(),
{
    if args.len() == 0 {
        Seq::empty()
    } else {
        let rest = nats_in(args.drop_last());
        match args.last() {
            Value::Nat(n) => rest.push(n@),
            _ => rest,
        }
    }
}

/// `r` is the natural number `k`.
pub open spec fn gives_nat(r: Result<Value, InterpError>, k: nat) -> bool {
    r matches Ok(Value::Nat(n)) && n@ == k
}

/// `r` is the boolean `b`.
pub open spec fn gives_bool(r: Result<Value, InterpError>, b: bool) -> bool {
    r matches Ok(v) && if b {
        is_plain_ctor(v, 1, "Bool.true"@)
    } else {
        is_plain_ctor(v, 0, "Bool.false"@)
    }
}

/// `r` is the decision `b`: `Decidable.isTrue` (tag 1) or `Decidable.isFalse`
/// (tag 0) with an erased proof.
pub open spec fn gives_decision(r: Result<Value, InterpError>, b: bool) -> bool {
    r matches Ok(Value::Ctor { tag, name, fields }) && tag == (if b {
        1u32
    } else {
        0u32
    }) && name@ == dotted_limbs(
        if b {
            "Decidable.isTrue"@
        } else {
            "Decidable.isFalse"@
        },
    ) && fields@ == seq![Value::Erased]
}

/// What the builtin arithmetic of natural numbers gives for builtin `name` on
/// `args`: `None` for a name that is none of them. Two-argument operations
/// read arguments 0 and 1; the decisions read the first two numbers among the
/// arguments. Subtraction stops at zero; division and remainder by zero give
/// zero.
pub open spec fn nat_builtin(name: Seq<Limb>, args: Seq<Value>, r: Option<Result<Value, InterpError>>) -> bool {
    let a = nat_arg(args, 0);
    let b = nat_arg(args, 1);
    let ns = nats_in(args);
    let binary = |res: Result<Value, InterpError>, f: spec_fn(nat, nat) -> nat|
        if a is Some && b is Some {
            gives_nat(res, f(a->0, b->0))
        } else {
            res matches Err(InterpError::BuiltinError(_))
        };
    let compare = |res: Result<Value, InterpError>, f: spec_fn(nat, nat) -> bool|
        if a is Some && b is Some {
            gives_bool(res, f(a->0, b->0))
        } else {
            res matches Err(InterpError::BuiltinError(_))
        };
    let decide = |res: Result<Value, InterpError>, f: spec_fn(nat, nat) -> bool|
        if ns.len() >= 2 {
            gives_decision(res, f(ns[0], ns[1]))
        } else {
            res matches Err(InterpError::BuiltinError(_))
        };
    if name == dotted_limbs("Nat.add"@) {
        r matches Some(res) && binary(res, |x: nat, y: nat| x + y)
    } else if name == dotted_limbs("Nat.sub"@) {
        r matches Some(res) && binary(res, |x: nat, y: nat| if x >= y { (x - y) as nat } else { 0 })
    } else if name == dotted_limbs("Nat.mul"@) {
        r matches Some(res) && binary(res, |x: nat, y: nat| x * y)
    } else if name == dotted_limbs("Nat.pow"@) {
        r matches Some(res) && if a is Some && b is Some && b->0 <= u32::MAX {
            gives_nat(res, vstd::arithmetic::power::pow(a->0 as int, b->0) as nat)
        } else {
            res matches Err(InterpError::BuiltinError(_))
        }
    } else if name == dotted_limbs("Nat.div"@) {
        r matches Some(res) && binary(res, |x: nat, y: nat| if y == 0 { 0 } else { x / y })
    } else if name == dotted_limbs("Nat.mod"@) {
        r matches Some(res) && binary(res, |x: nat, y: nat| if y == 0 { 0 } else { x % y })
    } else if name == dotted_limbs("Nat.beq"@) {
        r matches Some(res) && compare(res, |x: nat, y: nat| x == y)
    } else if name == dotted_limbs("Nat.ble"@) {
        r matches Some(res) && compare(res, |x: nat, y: nat| x <= y)
    } else if name == dotted_limbs("Nat.decEq"@) {
        r matches Some(res) && decide(res, |x: nat, y: nat| x == y)
    } else if name == dotted_limbs("Nat.decLe"@) {
        r matches Some(res) && decide(res, |x: nat, y: nat| x <= y)
    } else if name == dotted_limbs("Nat.decLt"@) {
        r matches Some(res) && decide(res, |x: nat, y: nat| x < y)
    } else if name == dotted_limbs("Nat.pred"@) {
        r matches Some(res) && if a is Some {
            gives_nat(res, if a->0 == 0 { 0 } else { (a->0 - 1) as nat })
        } else {
            res matches Err(InterpError::BuiltinError(_))
        }
    } else {
        other_builtin(name, args, r)
    }
}

/// The texts of the strings among `args`, in order.
pub open spec fn strs_in(args: Seq<Value>) -> Seq<Seq<char>>
    decreases args.len(),
{
    if args.len() == 0 {
        Seq::empty()
    } else {
        let rest = strs_in(args.drop_last());
        match args.last() {
            Value::String(t) => rest.push(t@),
            _ => rest,
        }
    }
}

/// The text held by argument `i`, if it is a string.
pub open spec fn str_arg(args: Seq<Value>, i: int) -> Option<Seq<char>> {
    if 0 <= i < args.len() && args[i] is String {
        Some(args[i]->String_0@)
    } else {
        None
    }
}

/// The boolean argument `i` reads as, if any.
pub open spec fn bool_arg(args: Seq<Value>, i: int) -> Option<bool> {
    if 0 <= i < args.len() {
        match args[i] {
            Value::Ctor { tag, .. } => if tag == 0 {
                Some(false)
            } else if tag == 1 {
                Some(true)
            } else {
                None
            },
            _ => None,
        }
    } else {
        None
    }
}

/// What the string and boolean builtins give for `name` on `args`: `None`
/// for a name that is none of them (nor an arithmetic builtin).
pub open spec fn other_builtin(name: Seq<Limb>, args: Seq<Value>, r: Option<Result<Value, InterpError>>) -> bool {
    let a = str_arg(args, 0);
    let b = str_arg(args, 1);
    let ss = strs_in(args);
    if name == dotted_limbs("String.decEq"@) {
        r matches Some(res) && if ss.len() >= 2 {
            gives_decision(res, ss[0] == ss[1])
        } else {
            res matches Err(InterpError::BuiltinError(_))
        }
    } else if name == dotted_limbs("String.append"@) {
        r matches Some(res) && if a is Some && b is Some {
            res matches Ok(Value::String(t)) && t@ == a->0 + b->0
        } else {
            res matches Err(InterpError::BuiltinError(_))
        }
    } else if name == dotted_limbs("String.length"@) {
        r matches Some(res) && if a is Some {
            gives_nat(res, a->0.len())
        } else {
            res matches Err(InterpError::BuiltinError(_))
        }
    } else if name == dotted_limbs("Array.mkEmpty"@) {
        r matches Some(Ok(Value::Array(es))) && es@.len() == 0
    } else if name == dotted_limbs("Array.size"@) {
        r matches Some(res) && match first_array(args) {
            Some(es) => gives_nat(res, es.len()),
            None => res matches Err(InterpError::BuiltinError(_)),
        }
    } else if name == dotted_limbs("Array.push"@) {
        r matches Some(res) && match first_array(args) {
            Some(es) => if exists|j: int| 0 <= j < args.len() && pushable(#[trigger] args[j]) {
                res matches Ok(Value::Array(fs)) && fs@.len() == es.len() + 1
            } else {
                res matches Err(InterpError::BuiltinError(_))
            },
            None => res matches Err(InterpError::BuiltinError(_)),
        }
    } else if name == dotted_limbs("Bool.decEq"@) {
        r matches Some(res) && if bool_arg(args, 0) is Some && bool_arg(args, 1) is Some {
            gives_decision(res, bool_arg(args, 0)->0 == bool_arg(args, 1)->0)
        } else {
            res matches Err(InterpError::BuiltinError(_))
        }
    } else {
        crate::word_builtins::word_builtin(name, args, r)
    }
}

/// The elements of the first array among `args`.
pub open spec fn first_array(args: Seq<Value>) -> Option<Seq<Value>>
    decreases args.len(),
{
    if args.len() == 0 {
        None
    } else {
        match args[0] {
            Value::Array(es) => Some(es@),
            _ => first_array(args.drop_first()),
        }
    }
}

/// A value that `Array.push` can push: neither an array nor erased.
pub open spec fn pushable(v: Value) -> bool {
    !(v is Array) && !(v is Erased)
}

/// The first array among the arguments.
fn find_array(args: &[Value]) -> (r: Result<&Vec<Value>, InterpError>)
    ensures
        r is Ok <==> first_array(args@) is Some,
        r matches Ok(es) ==> es@ == first_array(args@)->0,
        r is Err ==> r matches Err(InterpError::BuiltinError(_)),
{
    let mut i: usize = 0;
    proof {
        assert(args@.skip(0) =~= args@);
    }
    while i < args.len()
        invariant
            i <= args@.len(),
            first_array(args@) == first_array(args@.skip(i as int)),
        decreases args@.len() - i,
    {
        proof {
            assert(args@.skip(i as int).drop_first() =~= args@.skip(i + 1));
        }
        if let Value::Array(es) = &args[i] {
            return Ok(es);
        }
        i = i + 1;
    }
    Err(builtin_error("expected Array arg"))
}

/// The last argument that `Array.push` can push.
fn find_push_value(args: &[Value]) -> (r: Option<&Value>)
    ensures
        r is Some <==> exists|j: int| 0 <= j < args@.len() && pushable(#[trigger] args@[j]),
{
    let mut k = args.len();
    while k > 0
        invariant
            k <= args@.len(),
            forall|j: int| k <= j < args@.len() ==> !pushable(#[trigger] args@[j]),
        decreases k,
    {
        k = k - 1;
        match &args[k] {
            Value::Array(_) | Value::Erased => {},
            v => {
                return Some(v);
            },
        }
    }
    None
}

/// What the builtin named `name` gives on `args`.
pub open spec fn builtin_result(name: Seq<Limb>, args: Seq<Value>, r: Option<Result<Value, InterpError>>) -> bool {
    nat_builtin(name, args, r)
}

/// A builtin's failure with a fixed message.
pub(crate) fn builtin_error(msg: &str) -> (r: InterpError)
    ensures
        r is BuiltinError,
{
    InterpError::BuiltinError(string_from_chars(chars_of(msg).as_slice()))
}

/// The text held by argument `i`.
pub(crate) fn extract_str(args: &[Value], i: usize) -> (r: Result<&str, InterpError>)
    ensures
        r is Ok <==> str_arg(args@, i as int) is Some,
        r matches Ok(t) ==> t@ == str_arg(args@, i as int)->0,
        r is Err ==> r matches Err(InterpError::BuiltinError(_)),
{
    if i < args.len() {
        if let Value::String(t) = &args[i] {
            return Ok(t.as_str());
        }
    }
    let mut out: Vec<char> = Vec::new();
    push_all(&mut out, chars_of("expected String at arg ").as_slice());
    push_all(&mut out, chars_of(u64_to_decimal(i as u64).as_str()).as_slice());
    Err(InterpError::BuiltinError(string_from_chars(out.as_slice())))
}

/// The boolean argument `i` reads as.
fn extract_bool(args: &[Value], i: usize) -> (r: Result<bool, InterpError>)
    ensures
        r is Ok <==> bool_arg(args@, i as int) is Some,
        r matches Ok(b) ==> b == bool_arg(args@, i as int)->0,
        r is Err ==> r matches Err(InterpError::BuiltinError(_)),
{
    if i < args.len() {
        if let Some(b) = args[i].as_bool() {
            return Ok(b);
        }
    }
    let mut out: Vec<char> = Vec::new();
    push_all(&mut out, chars_of("expected Bool at arg ").as_slice());
    push_all(&mut out, chars_of(u64_to_decimal(i as u64).as_str()).as_slice());
    Err(InterpError::BuiltinError(string_from_chars(out.as_slice())))
}

/// The texts of the first two strings among the arguments.
fn find_two_strs(args: &[Value]) -> (r: Result<(&str, &str), InterpError>)
    ensures
        r is Ok <==> strs_in(args@).len() >= 2,
        r matches Ok((x, y)) ==> x@ == strs_in(args@)[0] && y@ == strs_in(args@)[1],
        r is Err ==> r matches Err(InterpError::BuiltinError(_)),
{
    let mut first: Option<&str> = None;
    let mut i: usize = 0;
    while i < args.len()
        invariant
            i <= args@.len(),
            strs_in(args@.take(i as int)).len() <= 1,
            first is None <==> strs_in(args@.take(i as int)).len() == 0,
            first matches Some(x) ==> x@ == strs_in(args@.take(i as int))[0],
        decreases args@.len() - i,
    {
        proof {
            assert(args@.take(i + 1).drop_last() == args@.take(i as int));
            assert(args@.take(i + 1).last() == args@[i as int]);
        }
        if let Value::String(t) = &args[i] {
            match first {
                Some(x) => {
                    proof {
                        lemma_strs_prefix(args@, i + 1);
                        let q = strs_in(args@.take(i + 1));
                        assert(q == strs_in(args@.take(i as int)).push(t@));
                        assert(q.len() == 2);
                        assert(strs_in(args@)[0] == q[0]);
                        assert(strs_in(args@)[1] == q[1]);
                    }
                    return Ok((x, t.as_str()));
                },
                None => {
                    first = Some(t.as_str());
                },
            }
        }
        i = i + 1;
    }
    proof {
        assert(args@.take(args@.len() as int) == args@);
    }
    let mut out: Vec<char> = Vec::new();
    push_all(&mut out, chars_of("expected 2 String args").as_slice());
    Err(InterpError::BuiltinError(string_from_chars(out.as_slice())))
}

/// The strings among a prefix of `args` begin the strings among `args`.
proof fn lemma_strs_prefix(args: Seq<Value>, k: int)
    requires
        0 <= k <= args.len(),
    ensures
        strs_in(args.take(k)).is_prefix_of(strs_in(args)),
    decreases args.len() - k,
{
    if k < args.len() {
        lemma_strs_prefix(args, k + 1);
        assert(args.take(k + 1).drop_last() == args.take(k));
    } else {
        assert(args.take(k) == args);
    }
}

/// Call the string and boolean builtins.
fn call_other_builtin(name: &Name, args: &[Value]) -> (r: Option<Result<Value, InterpError>>)
    ensures
        other_builtin(name@, args@, r),
{
    if names_equal(name, &Name::from_str_parts("String.decEq")) {
        return Some(match find_two_strs(args) {
            Ok((a, b)) => Ok(make_decision(crate::text::str_eq(a, b))),
            Err(e) => Err(e),
        });
    }
    if names_equal(name, &Name::from_str_parts("String.append")) {
        return Some(match (extract_str(args, 0), extract_str(args, 1)) {
            (Ok(a), Ok(b)) => {
                let mut out: Vec<char> = Vec::new();
                push_all(&mut out, chars_of(a).as_slice());
                push_all(&mut out, chars_of(b).as_slice());
                Ok(Value::String(string_from_chars(out.as_slice())))
            },
            (Err(e), _) => Err(e),
            (_, Err(e)) => Err(e),
        });
    }
    if names_equal(name, &Name::from_str_parts("String.length")) {
        return Some(match extract_str(args, 0) {
            Ok(a) => {
                let cs = chars_of(a);
                Ok(Value::nat_small(cs.len() as u64))
            },
            Err(e) => Err(e),
        });
    }
    if names_equal(name, &Name::from_str_parts("Array.mkEmpty")) {
        return Some(Ok(Value::Array(Vec::new())));
    }
    if names_equal(name, &Name::from_str_parts("Array.size")) {
        return Some(match find_array(args) {
            Ok(es) => Ok(Value::nat_small(es.len() as u64)),
            Err(e) => Err(e),
        });
    }
    if names_equal(name, &Name::from_str_parts("Array.push")) {
        return Some(match find_array(args) {
            Ok(es) => match find_push_value(args) {
                Some(v) => {
                    let mut fs = clone_values(es);
                    fs.push(v.clone());
                    Ok(Value::Array(fs))
                },
                None => Err(builtin_error("expected value arg for Array.push")),
            },
            Err(e) => Err(e),
        });
    }
    if names_equal(name, &Name::from_str_parts("Bool.decEq")) {
        return Some(match (extract_bool(args, 0), extract_bool(args, 1)) {
            (Ok(a), Ok(b)) => Ok(make_decision(a == b)),
            (Err(e), _) => Err(e),
            (_, Err(e)) => Err(e),
        });
    }
    crate::word_builtins::call_word_builtin(name, args)
}

/// The number held by argument `i`.
pub(crate) fn extract_nat(args: &[Value], i: usize) -> (r: Result<&Natural, InterpError>)
    ensures
        r is Ok <==> nat_arg(args@, i as int) is Some,
        r matches Ok(n) ==> n@ == nat_arg(args@, i as int)->0,
        r is Err ==> r matches Err(InterpError::BuiltinError(_)),
{
    if i < args.len() {
        if let Value::Nat(n) = &args[i] {
            return Ok(n);
        }
    }
    let mut out: Vec<char> = Vec::new();
    push_all(&mut out, chars_of("expected Nat at arg ").as_slice());
    push_all(&mut out, chars_of(u64_to_decimal(i as u64).as_str()).as_slice());
    Err(InterpError::BuiltinError(string_from_chars(out.as_slice())))
}

/// The first two numbers among the arguments.
pub(crate) fn find_two_nats(args: &[Value]) -> (r: Result<(&Natural, &Natural), InterpError>)
    ensures
        r is Ok <==> nats_in(args@).len() >= 2,
        r matches Ok((x, y)) ==> x@ == nats_in(args@)[0] && y@ == nats_in(args@)[1],
        r is Err ==> r matches Err(InterpError::BuiltinError(_)),
{
    let mut first: Option<&Natural> = None;
    let mut i: usize = 0;
    while i < args.len()
        invariant
            i <= args@.len(),
            nats_in(args@.take(i as int)).len() <= 1,
            first is None <==> nats_in(args@.take(i as int)).len() == 0,
            first matches Some(x) ==> x@ == nats_in(args@.take(i as int))[0],
        decreases args@.len() - i,
    {
        proof {
            assert(args@.take(i + 1).drop_last() == args@.take(i as int));
            assert(args@.take(i + 1).last() == args@[i as int]);
        }
        if let Value::Nat(n) = &args[i] {
            match first {
                Some(x) => {
                    proof {
                        lemma_nats_prefix(args@, i + 1);
                        let t = nats_in(args@.take(i + 1));
                        assert(t == nats_in(args@.take(i as int)).push(n@));
                        assert(t.len() == 2);
                        assert(nats_in(args@)[0] == t[0]);
                        assert(nats_in(args@)[1] == t[1]);
                    }
                    return Ok((x, n));
                },
                None => {
                    first = Some(n);
                },
            }
        }
        i = i + 1;
    }
    proof {
        assert(args@.take(args@.len() as int) == args@);
    }
    let mut out: Vec<char> = Vec::new();
    push_all(&mut out, chars_of("expected 2 Nat args").as_slice());
    Err(InterpError::BuiltinError(string_from_chars(out.as_slice())))
}

/// The numbers among a prefix of `args` begin the numbers among `args`.
proof fn lemma_nats_prefix(args: Seq<Value>, k: int)
    requires
        0 <= k <= args.len(),
    ensures
        nats_in(args.take(k)).is_prefix_of(nats_in(args)),
    decreases args.len() - k,
{
    if k < args.len() {
        lemma_nats_prefix(args, k + 1);
        assert(args.take(k + 1).drop_last() == args.take(k));
    } else {
        assert(args.take(k) == args);
    }
}

/// `Decidable.isTrue` or `Decidable.isFalse`, with an erased proof.
pub(crate) fn make_decision(b: bool) -> (r: Value)
    ensures
        gives_decision(Ok(r), b),
{
    let mut fields: Vec<Value> = Vec::new();
    fields.push(Value::Erased);
    if b {
        Value::Ctor { tag: 1, name: Name::from_str_parts("Decidable.isTrue"), fields }
    } else {
        Value::Ctor { tag: 0, name: Name::from_str_parts("Decidable.isFalse"), fields }
    }
}

/// Call the builtin named `name` on `args`: the arithmetic and comparisons of
/// natural numbers, and those on strings and booleans; `None` when `name` is
/// none of these builtins.
pub fn call_builtin(name: &Name, args: &[Value]) -> (r: Option<Result<Value, InterpError>>)
    ensures
        builtin_result(name@, args@, r),
{
    if names_equal(name, &Name::from_str_parts("Nat.add")) {
        return Some(match (extract_nat(args, 0), extract_nat(args, 1)) {
            (Ok(a), Ok(b)) => Ok(Value::Nat(a.plus(b))),
            (Err(e), _) => Err(e),
            (_, Err(e)) => Err(e),
        });
    }
    if names_equal(name, &Name::from_str_parts("Nat.sub")) {
        return Some(match (extract_nat(args, 0), extract_nat(args, 1)) {
            (Ok(a), Ok(b)) => if b.le(a) {
                Ok(Value::Nat(a.minus(b)))
            } else {
                Ok(Value::nat_small(0))
            },
            (Err(e), _) => Err(e),
            (_, Err(e)) => Err(e),
        });
    }
    if names_equal(name, &Name::from_str_parts("Nat.mul")) {
        return Some(match (extract_nat(args, 0), extract_nat(args, 1)) {
            (Ok(a), Ok(b)) => Ok(Value::Nat(a.times(b))),
            (Err(e), _) => Err(e),
            (_, Err(e)) => Err(e),
        });
    }
    if names_equal(name, &Name::from_str_parts("Nat.pow")) {
        return Some(match (extract_nat(args, 0), extract_nat(args, 1)) {
            (Ok(a), Ok(b)) => match b.to_u64() {
                Some(e) => if e <= 0xFFFF_FFFF {
                    Ok(Value::Nat(a.power(e as u32)))
                } else {
                    Err(builtin_error("Nat.pow: exponent too large"))
                },
                None => Err(builtin_error("Nat.pow: exponent too large")),
            },
            (Err(e), _) => Err(e),
            (_, Err(e)) => Err(e),
        });
    }
    if names_equal(name, &Name::from_str_parts("Nat.div")) {
        return Some(match (extract_nat(args, 0), extract_nat(args, 1)) {
            (Ok(a), Ok(b)) => if b.is_zero() {
                Ok(Value::nat_small(0))
            } else {
                Ok(Value::Nat(a.quotient(b)))
            },
            (Err(e), _) => Err(e),
            (_, Err(e)) => Err(e),
        });
    }
    if names_equal(name, &Name::from_str_parts("Nat.mod")) {
        return Some(match (extract_nat(args, 0), extract_nat(args, 1)) {
            (Ok(a), Ok(b)) => if b.is_zero() {
                Ok(Value::nat_small(0))
            } else {
                Ok(Value::Nat(a.remainder(b)))
            },
            (Err(e), _) => Err(e),
            (_, Err(e)) => Err(e),
        });
    }
    if names_equal(name, &Name::from_str_parts("Nat.beq")) {
        return Some(match (extract_nat(args, 0), extract_nat(args, 1)) {
            (Ok(a), Ok(b)) => Ok(Value::bool_(crate::literal::naturals_equal(a, b))),
            (Err(e), _) => Err(e),
            (_, Err(e)) => Err(e),
        });
    }
    if names_equal(name, &Name::from_str_parts("Nat.ble")) {
        return Some(match (extract_nat(args, 0), extract_nat(args, 1)) {
            (Ok(a), Ok(b)) => Ok(Value::bool_(a.le(b))),
            (Err(e), _) => Err(e),
            (_, Err(e)) => Err(e),
        });
    }
    if names_equal(name, &Name::from_str_parts("Nat.decEq")) {
        return Some(match find_two_nats(args) {
            Ok((a, b)) => Ok(make_decision(crate::literal::naturals_equal(a, b))),
            Err(e) => Err(e),
        });
    }
    if names_equal(name, &Name::from_str_parts("Nat.decLe")) {
        return Some(match find_two_nats(args) {
            Ok((a, b)) => Ok(make_decision(a.le(b))),
            Err(e) => Err(e),
        });
    }
    if names_equal(name, &Name::from_str_parts("Nat.decLt")) {
        return Some(match find_two_nats(args) {
            Ok((a, b)) => Ok(make_decision(!b.le(a))),
            Err(e) => Err(e),
        });
    }
    if names_equal(name, &Name::from_str_parts("Nat.pred")) {
        return Some(match extract_nat(args, 0) {
            Ok(a) => if a.is_zero() {
                Ok(Value::nat_small(0))
            } else {
                Ok(Value::Nat(a.pred()))
            },
            Err(e) => Err(e),
        });
    }
    call_other_builtin(name, args)
}

/// Whether `name` is a compiler-generated auxiliary constant, whose value is
/// erased: its last component is `_cstage1`, `_cstage2`, `_neutral` or
/// `_rarg`, or it is a number after `_closed` or `_lambda`.
pub open spec fn spec_compiler_aux(v: Seq<Limb>) -> bool {
    if v.len() > 0 && v.last() is Str {
        let s = v.last()->Str_0;
        s == "_cstage1"@ || s == "_cstage2"@ || s == "_neutral"@ || s == "_rarg"@
    } else if v.len() > 0 && v.last() is Num {
        let p = v.drop_last();
        p.len() > 0 && p.last() is Str && (p.last()->Str_0 == "_closed"@ || p.last()->Str_0
            == "_lambda"@)
    } else {
        false
    }
}

/// Whether `name` is a compiler-generated auxiliary constant, whose value is
/// erased.
pub fn is_compiler_aux(name: &Name) -> (b: bool)
    ensures
        b == spec_compiler_aux(name@),
{
    if name.is_str() {
        let s = name.get_string();
        return crate::text::str_eq(s, "_cstage1") || crate::text::str_eq(s, "_cstage2")
            || crate::text::str_eq(s, "_neutral") || crate::text::str_eq(s, "_rarg");
    }
    if name.is_num() {
        let prefix = name.get_prefix();
        if prefix.is_str() {
            let s = prefix.get_string();
            return crate::text::str_eq(s, "_closed") || crate::text::str_eq(s, "_lambda");
        }
    }
    false
}

/// Iota reduction for recursor `rec_name` of `env` applied to `args`: the
/// recursor must be declared.
pub fn iota_step_in(env: &Environment, rec_name: &Name, args: Vec<Value>) -> (r: Result<
    IotaStep,
    InterpError,
>)
    ensures
        !env@.constants.contains_key(rec_name@) ==> (r matches Err(
            InterpError::KernelError(KernelError::UnknownConstant(n)),
        ) && n@ == rec_name@),
        env@.constants.contains_key(rec_name@) ==> iota_outcome(
            env@.constants[rec_name@]@,
            args@,
            r,
        ),
{
    match env.get(rec_name) {
        Ok(info) => iota_step(info, args),
        Err(e) => Err(InterpError::KernelError(e)),
    }
}

} // verus!
