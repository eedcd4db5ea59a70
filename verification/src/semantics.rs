//! What a program means: evaluation as a function on the models of the
//! syntax tree and of the evaluator's state. The executable evaluator is
//! proved to compute exactly this.

use vstd::prelude::*;
use crate::ast::{BinaryOperator, Expr, Field, MethodDef, Param, Stmt, Ty};
use crate::error::RuntimeError;
use crate::value::{render, ClassDef, InterfaceDef, Val};

verus! {

/// Model of the four name tables.
pub struct Env {
    pub variables: Map<Seq<char>, Val>,
    pub functions: Map<Seq<char>, Val>,
    pub classes: Map<Seq<char>, ClassDef>,
    pub interfaces: Map<Seq<char>, InterfaceDef>,
}

/// Model of the evaluator: the tables and the lines printed so far.
pub struct State {
    pub env: Env,
    pub output: Seq<Seq<char>>,
}

/// The state that a step leaves and what the step produced.
pub struct Outcome<T> {
    pub state: State,
    pub result: Result<T, RuntimeError>,
}

/// The built-in `print` as it is registered: one string parameter named
/// `value`, a string result, no body.
pub open spec fn print_function() -> Val {
    Val::Function {
        params: seq![Param { name: "value"@, ty: Ty::Text }],
        ret: Ty::Text,
        body: Seq::empty(),
    }
}

impl Env {
    /// The tables of a fresh evaluator: only `print` is registered.
    pub open spec fn initial() -> Env {
        Env {
            variables: Map::empty(),
            functions: Map::empty().insert("print"@, print_function()),
            classes: Map::empty(),
            interfaces: Map::empty(),
        }
    }
}

impl State {
    /// A fresh evaluator: the initial tables, nothing printed.
    pub open spec fn initial() -> State {
        State { env: Env::initial(), output: Seq::empty() }
    }

    /// The state with `name` bound to `value` among the variables.
    pub open spec fn bind(self, name: Seq<char>, value: Val) -> State {
        State {
            env: Env { variables: self.env.variables.insert(name, value), ..self.env },
            ..self
        }
    }

    /// The state with the variable table replaced.
    pub open spec fn with_variables(self, variables: Map<Seq<char>, Val>) -> State {
        State { env: Env { variables, ..self.env }, ..self }
    }

    /// The state with `name` registered as a function.
    pub open spec fn with_function(self, name: Seq<char>, function: Val) -> State {
        State {
            env: Env { functions: self.env.functions.insert(name, function), ..self.env },
            ..self
        }
    }

    /// The state with `name` registered as a class.
    pub open spec fn with_class(self, name: Seq<char>, class: ClassDef) -> State {
        State { env: Env { classes: self.env.classes.insert(name, class), ..self.env }, ..self }
    }

    /// The state with `name` registered as an interface.
    pub open spec fn with_interface(self, name: Seq<char>, interface: InterfaceDef) -> State {
        State {
            env: Env { interfaces: self.env.interfaces.insert(name, interface), ..self.env },
            ..self
        }
    }

    /// The state with one more line printed.
    pub open spec fn emit(self, line: Seq<char>) -> State {
        State { output: self.output.push(line), ..self }
    }
}

/// A step that produced `value` and left `state`.
pub open spec fn done<T>(state: State, value: T) -> Outcome<T> {
    Outcome { state, result: Ok(value) }
}

/// A step that failed with `error` and left `state`.
pub open spec fn fail<T>(state: State, error: RuntimeError) -> Outcome<T> {
    Outcome { state, result: Err(error) }
}

/// The outcome of a call once its frame is left: the caller's variables
/// are back, whatever the call produced.
pub open spec fn leave_frame<T>(caller: Map<Seq<char>, Val>, o: Outcome<T>) -> Outcome<T> {
    Outcome { state: o.state.with_variables(caller), result: o.result }
}

/// Whether a value may be bound under a declared type: the kinds agree,
/// and for a class the object is of exactly that class.
pub open spec fn compatible(ty: Ty, v: Val) -> bool {
    match (ty, v) {
        (Ty::Int, Val::Integer(_)) => true,
        (Ty::Text, Val::Text(_)) => true,
        (Ty::Void, Val::Void) => true,
        (Ty::Custom(class), Val::Object { class_name, .. }) => class == class_name,
        _ => false,
    }
}

/// The value that stands in where a declared type has none yet: 0, the
/// empty string, or void (also for a class).
pub open spec fn zero_value(ty: Ty) -> Val {
    match ty {
        Ty::Int => Val::Integer(0),
        Ty::Text => Val::Text(Seq::empty()),
        Ty::Void => Val::Void,
        Ty::Custom(_) => Val::Void,
    }
}

/// Whether a condition of this value takes the `then` branch.
pub open spec fn truthy(v: Val) -> bool {
    match v {
        Val::Integer(n) => n != 0,
        Val::Text(s) => s.len() != 0,
        Val::Function { .. } => true,
        Val::Object { .. } => true,
        Val::Void => false,
    }
}

/// The absolute value of an integer.
pub open spec fn magnitude(x: int) -> int {
    if x < 0 {
        -x
    } else {
        x
    }
}

/// 64-bit signed division that rounds toward zero; a quotient that does not
/// fit (there is one: `i64::MIN / -1`) wraps to `i64::MIN`.
pub open spec fn quotient(a: i64, b: i64) -> i64
    recommends
        b != 0,
{
    let size = magnitude(a as int) / magnitude(b as int);
    let q = if (a < 0) == (b < 0) {
        size
    } else {
        -size
    };
    if q < i64::MIN || q > i64::MAX {
        i64::MIN
    } else {
        q as i64
    }
}

/// `left + right`: the wrapping sum of two integers, or two strings joined.
pub open spec fn add_values(left: Val, right: Val) -> Result<Val, RuntimeError> {
    match (left, right) {
        (Val::Integer(a), Val::Integer(b)) => Ok(
            Val::Integer(vstd::wrapping::i64_specs::wrapping_add(a, b)),
        ),
        (Val::Text(a), Val::Text(b)) => Ok(Val::Text(a + b)),
        _ => Err(RuntimeError::TypeError),
    }
}

/// `left - right`, wrapping, on integers only.
pub open spec fn subtract_values(left: Val, right: Val) -> Result<Val, RuntimeError> {
    match (left, right) {
        (Val::Integer(a), Val::Integer(b)) => Ok(
            Val::Integer(vstd::wrapping::i64_specs::wrapping_sub(a, b)),
        ),
        _ => Err(RuntimeError::TypeError),
    }
}

/// `left * right`, wrapping, on integers only.
pub open spec fn multiply_values(left: Val, right: Val) -> Result<Val, RuntimeError> {
    match (left, right) {
        (Val::Integer(a), Val::Integer(b)) => Ok(
            Val::Integer(vstd::wrapping::i64_specs::wrapping_mul(a, b)),
        ),
        _ => Err(RuntimeError::TypeError),
    }
}

/// `left / right` on integers only; a zero divisor is an error.
pub open spec fn divide_values(left: Val, right: Val) -> Result<Val, RuntimeError> {
    match (left, right) {
        (Val::Integer(a), Val::Integer(b)) => if b == 0 {
            Err(RuntimeError::DivisionByZero)
        } else {
            Ok(Val::Integer(quotient(a, b)))
        },
        _ => Err(RuntimeError::TypeError),
    }
}

/// `left == right`: 1 for two equal integers or two equal strings, 0 for
/// every other pair.
pub open spec fn equal_values(left: Val, right: Val) -> Result<Val, RuntimeError> {
    match (left, right) {
        (Val::Integer(a), Val::Integer(b)) => Ok(Val::Integer(if a == b { 1i64 } else { 0i64 })),
        (Val::Text(a), Val::Text(b)) => Ok(Val::Integer(if a == b { 1i64 } else { 0i64 })),
        _ => Ok(Val::Integer(0)),
    }
}

/// A binary operator applied to two values.
pub open spec fn apply_binary(operator: BinaryOperator, left: Val, right: Val) -> Result<
    Val,
    RuntimeError,
> {
    match operator {
        BinaryOperator::Add => add_values(left, right),
        BinaryOperator::Subtract => subtract_values(left, right),
        BinaryOperator::Multiply => multiply_values(left, right),
        BinaryOperator::Divide => divide_values(left, right),
        BinaryOperator::Equal => equal_values(left, right),
    }
}

/// The first place at or after `from` where `#{` starts, or the length of
/// `s` when there is none.
pub open spec fn find_marker(s: Seq<char>, from: int) -> int
    decreases s.len() - from,
{
    if from < 0 || from + 1 >= s.len() {
        s.len() as int
    } else if s[from] == '#' && s[from + 1] == '{' {
        from
    } else {
        find_marker(s, from + 1)
    }
}

/// The first place at or after `from` that holds `}`, or the length of `s`
/// when there is none.
pub open spec fn find_close(s: Seq<char>, from: int) -> int
    decreases s.len() - from,
{
    if from < 0 || from >= s.len() {
        s.len() as int
    } else if s[from] == '}' {
        from
    } else {
        find_close(s, from + 1)
    }
}

/// Whether `#{` starts at `i`.
pub open spec fn marker_at(s: Seq<char>, i: int) -> bool {
    0 <= i && i + 1 < s.len() && s[i] == '#' && s[i + 1] == '{'
}

/// `find_marker` gives the first place at or after `from` where a marker
/// starts, if there is one.
pub proof fn law_find_marker_is_first(s: Seq<char>, from: int)
    requires
        0 <= from,
    ensures
        find_marker(s, from) < s.len() ==> from <= find_marker(s, from) && marker_at(
            s,
            find_marker(s, from),
        ),
        forall|i: int| from <= i < find_marker(s, from) ==> !marker_at(s, i),
        find_marker(s, from) <= s.len(),
    decreases s.len() - from,
{
    if from + 1 < s.len() && !(s[from] == '#' && s[from + 1] == '{') {
        law_find_marker_is_first(s, from + 1);
    }
}

/// `find_close` gives the first place at or after `from` that holds `}`,
/// if there is one.
pub proof fn law_find_close_is_first(s: Seq<char>, from: int)
    requires
        0 <= from,
    ensures
        find_close(s, from) < s.len() ==> from <= find_close(s, from) && s[find_close(s, from)]
            == '}',
        forall|i: int| from <= i < find_close(s, from) && i < s.len() ==> s[i] != '}',
        find_close(s, from) <= s.len(),
    decreases s.len() - from,
{
    if from < s.len() && s[from] != '}' {
        law_find_close_is_first(s, from + 1);
    }
}

/// A string literal as it evaluates: its first marker `#{name}` replaced by
/// the text of the variable `name`. Without a complete marker, or where
/// `name` is not a variable, the literal is left as it is.
pub open spec fn interpolate(s: Seq<char>, variables: Map<Seq<char>, Val>) -> Seq<char> {
    let start = find_marker(s, 0);
    let end = find_close(s, start + 2);
    if start < s.len() && end < s.len() {
        let name = s.subrange(start + 2, end);
        if variables.contains_key(name) {
            s.subrange(0, start) + render(variables[name]) + s.subrange(end + 1, s.len() as int)
        } else {
            s
        }
    } else {
        s
    }
}

/// The place of the first method named `name`, or the number of methods
/// when there is none.
pub open spec fn find_method(methods: Seq<MethodDef>, name: Seq<char>, from: int) -> int
    decreases methods.len() - from,
{
    if from < 0 || from >= methods.len() {
        methods.len() as int
    } else if methods[from].name == name {
        from
    } else {
        find_method(methods, name, from + 1)
    }
}

/// The fields of a fresh object: the first `n` declared fields, each at
/// the zero value of its type; of two fields of one name the later counts.
pub open spec fn fresh_fields(fields: Seq<Field>, n: int) -> Map<Seq<char>, Val>
    decreases n,
{
    if n <= 0 || n > fields.len() {
        Map::empty()
    } else {
        fresh_fields(fields, n - 1).insert(fields[n - 1].name, zero_value(fields[n - 1].ty))
    }
}

/// `ClassName.new()`: an object of a registered class with fresh fields.
pub open spec fn create_object(env: Env, class_name: Seq<char>) -> Result<Val, RuntimeError> {
    if env.classes.contains_key(class_name) {
        let class = env.classes[class_name];
        Ok(Val::Object { class_name, fields: fresh_fields(class.fields, class.fields.len() as int) })
    } else {
        Err(RuntimeError::ClassNotFound)
    }
}

/// `receiver.field`.
pub open spec fn field_of(receiver: Val, field: Seq<char>) -> Result<Val, RuntimeError> {
    match receiver {
        Val::Object { fields, .. } => if fields.contains_key(field) {
            Ok(fields[field])
        } else {
            Err(RuntimeError::FieldNotFound)
        },
        _ => Err(RuntimeError::NotAnObject),
    }
}

/// The value of an expression and the state its evaluation leaves, with
/// `depth` nested calls still allowed.
pub open spec fn eval(s: State, e: Expr, depth: nat) -> Outcome<Val>
    decreases depth, 0nat, e, 0nat,
{
    match e {
        Expr::Integer(n) => done(s, Val::Integer(n)),
        Expr::Text(t) => done(s, Val::Text(interpolate(t, s.env.variables))),
        Expr::Identifier(name) => if s.env.variables.contains_key(name) {
            done(s, s.env.variables[name])
        } else {
            fail(s, RuntimeError::UndefinedVariable)
        },
        Expr::Binary { left, operator, right } => {
            let l = eval(s, *left, depth);
            match l.result {
                Err(error) => fail(l.state, error),
                Ok(left_value) => {
                    let r = eval(l.state, *right, depth);
                    match r.result {
                        Err(error) => fail(r.state, error),
                        Ok(right_value) => Outcome {
                            state: r.state,
                            result: apply_binary(operator, left_value, right_value),
                        },
                    }
                },
            }
        },
        Expr::FunctionCall { name, arguments } => if name == "print"@ {
            if arguments.len() != 1 {
                fail(s, RuntimeError::ArityError)
            } else {
                let a = eval(s, arguments[0], depth);
                match a.result {
                    Err(error) => fail(a.state, error),
                    Ok(value) => done(a.state.emit(render(value)), Val::Text(Seq::empty())),
                }
            }
        } else {
            call_function(s, name, arguments, depth)
        },
        Expr::MethodCall { object, method, arguments } => {
            let o = eval(s, *object, depth);
            match o.result {
                Err(error) => fail(o.state, error),
                Ok(receiver) => call_method(o.state, receiver, method, arguments, depth),
            }
        },
        Expr::FieldAccess { object, field } => {
            let o = eval(s, *object, depth);
            match o.result {
                Err(error) => fail(o.state, error),
                Ok(receiver) => Outcome { state: o.state, result: field_of(receiver, field) },
            }
        },
        Expr::ObjectCreation { class_name } => Outcome {
            state: s,
            result: create_object(s.env, class_name),
        },
        Expr::StringInterpolation { .. } => done(s, Val::Text(Seq::empty())),
    }
}

/// A call of the user-defined function `name`. The arguments are bound one
/// by one in the caller's table, each checked against its parameter's
/// type; the body runs one level deeper; then the caller's variables come
/// back, whether the call failed or not.
pub open spec fn call_function(
    s: State,
    name: Seq<char>,
    arguments: Seq<Expr>,
    depth: nat,
) -> Outcome<Val>
    decreases depth, 0nat, arguments, arguments.len() + 1,
{
    if !s.env.functions.contains_key(name) {
        fail(s, RuntimeError::UndefinedFunction)
    } else {
        match s.env.functions[name] {
            Val::Function { params, ret, body } => if arguments.len() != params.len() {
                fail(s, RuntimeError::ArityError)
            } else if depth == 0 {
                fail(s, RuntimeError::CallDepthExceeded)
            } else {
                let bound = bind_arguments(s, params, arguments, 0, depth, true);
                leave_frame(
                    s.env.variables,
                    match bound.result {
                        Err(error) => fail(bound.state, error),
                        Ok(_) => run_body(bound.state, body, ret, (depth - 1) as nat),
                    },
                )
            },
            _ => fail(s, RuntimeError::UndefinedFunction),
        }
    }
}

/// A call of `method` on `receiver`. The method is the first of that name
/// in the receiver's class; `this` is bound to the receiver's value, the
/// arguments are bound unchecked, and the frame is left as for a function.
pub open spec fn call_method(
    s: State,
    receiver: Val,
    method: Seq<char>,
    arguments: Seq<Expr>,
    depth: nat,
) -> Outcome<Val>
    decreases depth, 0nat, arguments, arguments.len() + 1,
{
    match receiver {
        Val::Object { class_name, .. } => if !s.env.classes.contains_key(class_name) {
            fail(s, RuntimeError::ClassNotFound)
        } else {
            let methods = s.env.classes[class_name].methods;
            let place = find_method(methods, method, 0);
            if !(0 <= place < methods.len()) {
                fail(s, RuntimeError::MethodNotFound)
            } else if arguments.len() != methods[place].params.len() {
                fail(s, RuntimeError::ArityError)
            } else if depth == 0 {
                fail(s, RuntimeError::CallDepthExceeded)
            } else {
                let bound = bind_arguments(
                    s.bind("this"@, receiver),
                    methods[place].params,
                    arguments,
                    0,
                    depth,
                    false,
                );
                leave_frame(
                    s.env.variables,
                    match bound.result {
                        Err(error) => fail(bound.state, error),
                        Ok(_) => run_body(
                            bound.state,
                            methods[place].body,
                            methods[place].ret,
                            (depth - 1) as nat,
                        ),
                    },
                )
            }
        },
        _ => fail(s, RuntimeError::NotAnObject),
    }
}

/// Binds the arguments from the `i`-th on to their parameters, in order:
/// each is evaluated in the table as the earlier ones left it, checked
/// against the parameter's type where `typed` says so, and bound.
pub open spec fn bind_arguments(
    s: State,
    params: Seq<Param>,
    arguments: Seq<Expr>,
    i: int,
    depth: nat,
    typed: bool,
) -> Outcome<()>
    decreases depth, 0nat, arguments, arguments.len() - i,
{
    if i < 0 || i >= arguments.len() || i >= params.len() {
        done(s, ())
    } else {
        let a = eval(s, arguments[i], depth);
        match a.result {
            Err(error) => fail(a.state, error),
            Ok(value) => if typed && !compatible(params[i].ty, value) {
                fail(a.state, RuntimeError::TypeMismatch)
            } else {
                bind_arguments(
                    a.state.bind(params[i].name, value),
                    params,
                    arguments,
                    i + 1,
                    depth,
                    typed,
                )
            },
        }
    }
}

/// The body of a call: its block is run, and where no statement carries a
/// value out, the zero value of the declared result type stands in.
pub open spec fn run_body(s: State, body: Seq<Stmt>, ret: Ty, depth: nat) -> Outcome<Val>
    decreases depth, 1nat, body, body.len() + 1,
{
    let b = exec_block(s, body, 0, depth);
    Outcome {
        state: b.state,
        result: match b.result {
            Err(error) => Err(error),
            Ok(Some(value)) => Ok(value),
            Ok(None) => Ok(zero_value(ret)),
        },
    }
}

/// The statements of a block from the `i`-th on, in order, up to the first
/// that fails or carries a value out.
pub open spec fn exec_block(s: State, block: Seq<Stmt>, i: int, depth: nat) -> Outcome<
    Option<Val>,
>
    decreases depth, 1nat, block, block.len() - i,
{
    if i < 0 || i >= block.len() {
        done(s, None)
    } else {
        let step = exec(s, block[i], depth);
        match step.result {
            Err(error) => fail(step.state, error),
            Ok(Some(value)) => done(step.state, Some(value)),
            Ok(None) => exec_block(step.state, block, i + 1, depth),
        }
    }
}

/// One statement: the state it leaves and the value it carries out, if
/// any. Only an expression statement carries its own value; an `if`
/// passes on what its branch carries.
pub open spec fn exec(s: State, statement: Stmt, depth: nat) -> Outcome<Option<Val>>
    decreases depth, 1nat, statement, 0nat,
{
    match statement {
        Stmt::VariableDeclaration { name, ty, value } => {
            let v = eval(s, value, depth);
            match v.result {
                Err(error) => fail(v.state, error),
                Ok(value) => if compatible(ty, value) {
                    done(v.state.bind(name, value), None)
                } else {
                    fail(v.state, RuntimeError::TypeMismatch)
                },
            }
        },
        Stmt::FunctionDefinition { name, params, ret, body } => done(
            s.with_function(name, Val::Function { params, ret, body }),
            None,
        ),
        Stmt::If { condition, then_branch, else_branch } => {
            let c = eval(s, condition, depth);
            match c.result {
                Err(error) => fail(c.state, error),
                Ok(value) => if truthy(value) {
                    exec_block(c.state, then_branch, 0, depth)
                } else {
                    match else_branch {
                        Some(block) => exec_block(c.state, block, 0, depth),
                        None => done(c.state, None),
                    }
                },
            }
        },
        Stmt::ClassDefinition { name, implements, fields, methods } => done(
            s.with_class(name, ClassDef { name, fields, methods, implements }),
            None,
        ),
        Stmt::InterfaceDefinition { name, methods } => done(
            s.with_interface(name, InterfaceDef { name, methods }),
            None,
        ),
        Stmt::Assignment { target, value } => {
            let v = eval(s, value, depth);
            match v.result {
                Err(error) => fail(v.state, error),
                Ok(value) => match target {
                    Expr::Identifier(name) => done(v.state.bind(name, value), None),
                    _ => fail(v.state, RuntimeError::UnsupportedAssignmentTarget),
                },
            }
        },
        Stmt::Expression(e) => {
            let v = eval(s, e, depth);
            match v.result {
                Err(error) => fail(v.state, error),
                Ok(value) => done(v.state, Some(value)),
            }
        },
    }
}

/// A program from its `i`-th statement on: each top-level statement in
/// order, what it carries dropped, up to the first that fails.
pub open spec fn run_program(s: State, program: Seq<Stmt>, i: int, depth: nat) -> Outcome<()>
    decreases program.len() - i,
{
    if i < 0 || i >= program.len() {
        done(s, ())
    } else {
        let step = exec(s, program[i], depth);
        match step.result {
            Err(error) => fail(step.state, error),
            Ok(_) => run_program(step.state, program, i + 1, depth),
        }
    }
}

} // verus!
