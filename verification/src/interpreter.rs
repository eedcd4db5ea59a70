//! The tree-walking evaluator.

use vstd::prelude::*;
use crate::ast::{
    clone_parameters, clone_statements, expressions_view, methods_view, parameters_view,
    statements_view, BinaryOperator, ClassField, Expr, Expression, Method, Parameter, Program,
    Statement, Type,
};
pub use crate::environment::Environment;
use crate::error::RuntimeError;
use crate::laws::law_evaluation_keeps_variables;
use crate::semantics::{
    add_values, bind_arguments, call_function, call_method, compatible, create_object,
    divide_values, equal_values, eval, exec, exec_block, find_close, find_marker, find_method,
    fresh_fields, interpolate, multiply_values, run_body, run_program, subtract_values, truthy,
    zero_value, State,
};
use crate::table::{lemma_first_index, lemma_inserted_map, Table};
use crate::text::{from_chars, same_text, to_chars};
use crate::value::{clone_value, lemma_values_map, values_map, Val};
pub use crate::value::{ClassDefinition, InterfaceDefinition, Value};

verus! {

/// How many calls may be nested in an evaluator made by `Interpreter::new`.
pub const DEFAULT_CALL_DEPTH: usize = 1000;

/// An evaluator: the name tables, the lines printed and not yet taken, and
/// the limit on nested calls. Two evaluators share nothing.
pub struct Interpreter {
    environment: Environment,
    output: Vec<String>,
    call_depth: usize,
}

/// The texts of a list of lines.
pub open spec fn lines_view(lines: Seq<String>) -> Seq<Seq<char>> {
    lines.map_values(|line: String| line@)
}

/// The model of what evaluating an expression returns.
pub open spec fn value_result(r: Result<Value, RuntimeError>) -> Result<Val, RuntimeError> {
    match r {
        Ok(value) => Ok(value@),
        Err(error) => Err(error),
    }
}

/// The model of what executing a statement returns.
pub open spec fn carried_result(r: Result<Option<Value>, RuntimeError>) -> Result<
    Option<Val>,
    RuntimeError,
> {
    match r {
        Ok(Some(value)) => Ok(Some(value@)),
        Ok(None) => Ok(None),
        Err(error) => Err(error),
    }
}

impl View for Interpreter {
    type V = State;

    closed spec fn view(&self) -> State {
        State { env: self.environment@, output: lines_view(self.output@) }
    }
}

/// Whether a value may be bound under a declared type.
pub fn is_compatible(ty: &Type, value: &Value) -> (ok: bool)
    ensures
        ok == compatible(ty@, value@),
{
    match ty {
        Type::Int => match value {
            Value::Integer(_) => true,
            _ => false,
        },
        Type::String => match value {
            Value::String(_) => true,
            _ => false,
        },
        Type::Void => match value {
            Value::Void => true,
            _ => false,
        },
        Type::Custom(class) => match value {
            Value::Object { class_name, .. } => same_text(class.as_str(), class_name.as_str()),
            _ => false,
        },
    }
}

/// The value that stands in where a declared type has none yet.
pub fn default_value(ty: &Type) -> (value: Value)
    ensures
        value@ == zero_value(ty@),
{
    match ty {
        Type::Int => Value::Integer(0),
        Type::String => Value::String(String::new()),
        Type::Void => Value::Void,
        Type::Custom(_) => Value::Void,
    }
}

/// Whether a condition of this value takes the `then` branch.
pub fn is_truthy(value: &Value) -> (yes: bool)
    ensures
        yes == truthy(value@),
{
    match value {
        Value::Integer(n) => *n != 0,
        Value::String(s) => !s.as_str().is_empty(),
        Value::Function { .. } => true,
        Value::Object { .. } => true,
        Value::Void => false,
    }
}

fn marker_position(chars: &Vec<char>) -> (place: usize)
    ensures
        place == find_marker(chars@, 0),
        place <= chars.len(),
        place < chars.len() ==> place + 1 < chars.len(),
{
    let mut i: usize = 0;
    while i < chars.len() && i + 1 < chars.len()
        invariant
            i <= chars.len(),
            find_marker(chars@, 0) == find_marker(chars@, i as int),
        decreases chars.len() - i,
    {
        if chars[i] == '#' && chars[i + 1] == '{' {
            return i;
        }
        i += 1;
    }
    chars.len()
}

fn close_position(chars: &Vec<char>, from: usize) -> (place: usize)
    ensures
        place == find_close(chars@, from as int),
        place <= chars.len(),
        place < chars.len() ==> from <= place,
{
    let mut i: usize = from;
    while i < chars.len()
        invariant
            from <= i,
            find_close(chars@, from as int) == find_close(chars@, i as int),
        decreases chars.len() - i,
    {
        if chars[i] == '}' {
            return i;
        }
        i += 1;
    }
    chars.len()
}

fn method_position(methods: &Vec<Method>, name: &str) -> (place: usize)
    ensures
        place == find_method(methods_view(methods@), name@, 0),
        place <= methods.len(),
{
    let mut i: usize = 0;
    while i < methods.len()
        invariant
            i <= methods.len(),
            find_method(methods_view(methods@), name@, 0) == find_method(
                methods_view(methods@),
                name@,
                i as int,
            ),
        decreases methods.len() - i,
    {
        assert(methods_view(methods@)[i as int].name == methods@[i as int].name@);
        if same_text(methods[i].name.as_str(), name) {
            return i;
        }
        i += 1;
    }
    methods.len()
}

fn fresh_object_fields(fields: &Vec<ClassField>) -> (table: Table<Value>)
    ensures
        values_map(table.entries@) == fresh_fields(
            crate::ast::fields_view(fields@),
            fields.len() as int,
        ),
{
    let mut table: Table<Value> = Table::new();
    let mut i: usize = 0;
    assert(values_map(table.entries@) =~= Map::empty());
    while i < fields.len()
        invariant
            i <= fields.len(),
            values_map(table.entries@) == fresh_fields(crate::ast::fields_view(fields@), i as int),
        decreases fields.len() - i,
    {
        let name = fields[i].name.clone();
        let value = default_value(&fields[i].field_type);
        proof {
            lemma_values_map(table.entries@);
            lemma_values_map(table.inserted(name, value));
            lemma_inserted_map(table, name, value, |v: Value| v@);
            assert(crate::ast::fields_view(fields@)[i as int] == fields@[i as int]@);
        }
        table.insert(name, value);
        i += 1;
    }
    table
}

impl Interpreter {
    /// How many calls may be nested.
    pub closed spec fn depth_limit(&self) -> nat {
        self.call_depth as nat
    }

    /// A fresh evaluator with the default limit on nested calls.
    pub fn new() -> (interpreter: Self)
        ensures
            interpreter@ == State::initial(),
            interpreter.depth_limit() == DEFAULT_CALL_DEPTH,
    {
        let interpreter = Interpreter {
            environment: Environment::new(),
            output: Vec::new(),
            call_depth: DEFAULT_CALL_DEPTH,
        };
        assert(lines_view(interpreter.output@) =~= Seq::empty());
        interpreter
    }

    /// A fresh evaluator that allows `limit` nested calls.
    pub fn with_call_depth(limit: usize) -> (interpreter: Self)
        ensures
            interpreter@ == State::initial(),
            interpreter.depth_limit() == limit,
    {
        let interpreter = Interpreter {
            environment: Environment::new(),
            output: Vec::new(),
            call_depth: limit,
        };
        assert(lines_view(interpreter.output@) =~= Seq::empty());
        interpreter
    }

    /// The name tables.
    pub fn environment(&self) -> (env: &Environment)
        ensures
            env@ == self@.env,
    {
        &self.environment
    }

    /// The lines printed so far and not yet taken, oldest first.
    pub fn output(&self) -> (lines: &Vec<String>)
        ensures
            lines_view(lines@) == self@.output,
    {
        &self.output
    }

    /// Hands out the lines printed so far and forgets them.
    pub fn take_output(&mut self) -> (lines: Vec<String>)
        ensures
            lines_view(lines@) == old(self)@.output,
            final(self)@ == (State { output: Seq::empty(), ..old(self)@ }),
            final(self).depth_limit() == old(self).depth_limit(),
    {
        let mut lines: Vec<String> = Vec::new();
        std::mem::swap(&mut lines, &mut self.output);
        assert(lines_view(self.output@) =~= Seq::empty());
        lines
    }

    /// `left + right`.
    pub fn add_values(&self, left: Value, right: Value) -> (r: Result<Value, RuntimeError>)
        ensures
            value_result(r) == add_values(left@, right@),
    {
        match (left, right) {
            (Value::Integer(a), Value::Integer(b)) => Ok(Value::Integer(a.wrapping_add(b))),
            (Value::String(a), Value::String(b)) => Ok(Value::String(a.concat(b.as_str()))),
            _ => Err(RuntimeError::TypeError),
        }
    }

    /// `left - right`.
    pub fn subtract_values(&self, left: Value, right: Value) -> (r: Result<Value, RuntimeError>)
        ensures
            value_result(r) == subtract_values(left@, right@),
    {
        match (left, right) {
            (Value::Integer(a), Value::Integer(b)) => Ok(Value::Integer(a.wrapping_sub(b))),
            _ => Err(RuntimeError::TypeError),
        }
    }

    /// `left * right`.
    pub fn multiply_values(&self, left: Value, right: Value) -> (r: Result<Value, RuntimeError>)
        ensures
            value_result(r) == multiply_values(left@, right@),
    {
        match (left, right) {
            (Value::Integer(a), Value::Integer(b)) => Ok(Value::Integer(a.wrapping_mul(b))),
            _ => Err(RuntimeError::TypeError),
        }
    }

    /// `left / right`. Dividing an integer by zero is an error, never a
    /// crash.
    pub fn divide_values(&self, left: Value, right: Value) -> (r: Result<Value, RuntimeError>)
        ensures
            value_result(r) == divide_values(left@, right@),
            left@ is Integer && right@ == Val::Integer(0) ==> r == Err::<Value, RuntimeError>(
                RuntimeError::DivisionByZero,
            ),
    {
        match (left, right) {
            (Value::Integer(a), Value::Integer(b)) => {
                if b == 0 {
                    Err(RuntimeError::DivisionByZero)
                } else {
                    match a.checked_div(b) {
                        Some(q) => Ok(Value::Integer(q)),
                        None => Ok(Value::Integer(i64::MIN)),
                    }
                }
            },
            _ => Err(RuntimeError::TypeError),
        }
    }

    /// `left == right`: the integer 1 or 0.
    pub fn equal_values(&self, left: Value, right: Value) -> (r: Result<Value, RuntimeError>)
        ensures
            value_result(r) == equal_values(left@, right@),
    {
        let same = match (left, right) {
            (Value::Integer(a), Value::Integer(b)) => a == b,
            (Value::String(a), Value::String(b)) => same_text(a.as_str(), b.as_str()),
            _ => false,
        };
        Ok(Value::Integer(if same { 1 } else { 0 }))
    }

    fn interpolated(&self, literal: &String) -> (text: String)
        ensures
            text@ == interpolate(literal@, self@.env.variables),
    {
        let chars = to_chars(literal.as_str());
        let start = marker_position(&chars);
        if start >= chars.len() {
            return literal.clone();
        }
        let end = close_position(&chars, start + 2);
        if end >= chars.len() {
            return literal.clone();
        }
        let name = from_chars(&chars, start + 2, end);
        match self.environment.get_variable(name.as_str()) {
            Some(value) => {
                let mut text = from_chars(&chars, 0, start);
                text.append(value.to_string().as_str());
                text.append(from_chars(&chars, end + 1, chars.len()).as_str());
                text
            },
            None => literal.clone(),
        }
    }

    fn new_object(&self, class_name: &String) -> (r: Result<Value, RuntimeError>)
        ensures
            value_result(r) == create_object(self@.env, class_name@),
    {
        match self.environment.get_class(class_name.as_str()) {
            Some(class) => {
                let fields = fresh_object_fields(&class.fields);
                Ok(Value::Object { class_name: class_name.clone(), fields })
            },
            None => Err(RuntimeError::ClassNotFound),
        }
    }
}

impl Interpreter {
    /// Runs a program: its statements in order, up to the first that fails.
    /// What a top-level statement carries out is dropped.
    pub fn interpret(&mut self, program: Program) -> (r: Result<(), RuntimeError>)
        ensures
            final(self)@ == run_program(old(self)@, program@, 0, old(self).depth_limit()).state,
            r == run_program(old(self)@, program@, 0, old(self).depth_limit()).result,
            final(self).depth_limit() == old(self).depth_limit(),
    {
        let ghost start = self@;
        let ghost block = program@;
        let depth = self.call_depth;
        let mut i: usize = 0;
        while i < program.statements.len()
            invariant
                i <= program.statements.len(),
                start == old(self)@,
                block == statements_view(program.statements@),
                depth == self.call_depth,
                self.depth_limit() == old(self).depth_limit(),
                run_program(start, block, 0, depth as nat) == run_program(self@, block, i as int, depth as nat),
            decreases program.statements.len() - i,
        {
            match self.exec_at(&program.statements[i], depth) {
                Err(error) => {
                    return Err(error);
                },
                Ok(_) => {},
            }
            i += 1;
        }
        Ok(())
    }

    /// Executes one statement with the evaluator's full call depth.
    pub fn execute_statement(&mut self, statement: &Statement) -> (r: Result<
        Option<Value>,
        RuntimeError,
    >)
        ensures
            final(self)@ == exec(old(self)@, statement@, old(self).depth_limit()).state,
            carried_result(r) == exec(old(self)@, statement@, old(self).depth_limit()).result,
            final(self).depth_limit() == old(self).depth_limit(),
    {
        let depth = self.call_depth;
        self.exec_at(statement, depth)
    }

    /// Evaluates one expression with the evaluator's full call depth. The
    /// variable table is afterwards as it was before.
    pub fn evaluate_expression(&mut self, expression: &Expression) -> (r: Result<
        Value,
        RuntimeError,
    >)
        ensures
            final(self)@ == eval(old(self)@, expression@, old(self).depth_limit()).state,
            value_result(r) == eval(old(self)@, expression@, old(self).depth_limit()).result,
            final(self)@.env.variables == old(self)@.env.variables,
            final(self).depth_limit() == old(self).depth_limit(),
    {
        proof {
            law_evaluation_keeps_variables(self@, expression@, self.depth_limit());
        }
        let depth = self.call_depth;
        self.eval_at(expression, depth)
    }

    fn exec_at(&mut self, statement: &Statement, depth: usize) -> (r: Result<
        Option<Value>,
        RuntimeError,
    >)
        ensures
            final(self)@ == exec(old(self)@, statement@, depth as nat).state,
            carried_result(r) == exec(old(self)@, statement@, depth as nat).result,
            final(self).depth_limit() == old(self).depth_limit(),
        decreases depth, 1nat, statement, 0nat,
    {
        match statement {
            Statement::VariableDeclaration { name, var_type, value } => {
                match self.eval_at(value, depth) {
                    Err(error) => Err(error),
                    Ok(v) => {
                        if is_compatible(var_type, &v) {
                            self.environment.define_variable(name.clone(), v);
                            Ok(None)
                        } else {
                            Err(RuntimeError::TypeMismatch)
                        }
                    },
                }
            },
            Statement::FunctionDefinition { name, parameters, return_type, body } => {
                let function = Value::Function {
                    parameters: clone_parameters(parameters),
                    return_type: return_type.clone(),
                    body: clone_statements(body),
                };
                self.environment.define_function(name.clone(), function);
                Ok(None)
            },
            Statement::If { condition, then_branch, else_branch } => {
                match self.eval_at(condition, depth) {
                    Err(error) => Err(error),
                    Ok(v) => {
                        if is_truthy(&v) {
                            self.block_at(then_branch, depth)
                        } else {
                            match else_branch {
                                Some(block) => self.block_at(block, depth),
                                None => Ok(None),
                            }
                        }
                    },
                }
            },
            Statement::ClassDefinition { name, implements, fields, methods } => {
                let class = ClassDefinition {
                    name: name.clone(),
                    fields: crate::ast::clone_fields(fields),
                    methods: crate::ast::clone_methods(methods),
                    implements: match implements {
                        Some(interface) => Some(interface.clone()),
                        None => None,
                    },
                };
                self.environment.define_class(name.clone(), class);
                Ok(None)
            },
            Statement::InterfaceDefinition { name, methods } => {
                let interface = InterfaceDefinition {
                    name: name.clone(),
                    methods: crate::ast::clone_signatures(methods),
                };
                self.environment.define_interface(name.clone(), interface);
                Ok(None)
            },
            Statement::Assignment { target, value } => {
                match self.eval_at(value, depth) {
                    Err(error) => Err(error),
                    Ok(v) => match target {
                        Expression::Identifier(name) => {
                            self.environment.define_variable(name.clone(), v);
                            Ok(None)
                        },
                        _ => Err(RuntimeError::UnsupportedAssignmentTarget),
                    },
                }
            },
            Statement::Expression(e) => {
                match self.eval_at(e, depth) {
                    Err(error) => Err(error),
                    Ok(v) => Ok(Some(v)),
                }
            },
        }
    }

    fn block_at(&mut self, block: &Vec<Statement>, depth: usize) -> (r: Result<
        Option<Value>,
        RuntimeError,
    >)
        ensures
            final(self)@ == exec_block(old(self)@, statements_view(block@), 0, depth as nat).state,
            carried_result(r) == exec_block(
                old(self)@,
                statements_view(block@),
                0,
                depth as nat,
            ).result,
            final(self).depth_limit() == old(self).depth_limit(),
        decreases depth, 1nat, block, block.len(),
    {
        let ghost start = self@;
        let ghost stmts = statements_view(block@);
        let mut i: usize = 0;
        while i < block.len()
            invariant
                i <= block.len(),
                start == old(self)@,
                stmts == statements_view(block@),
                self.depth_limit() == old(self).depth_limit(),
                exec_block(start, stmts, 0, depth as nat) == exec_block(
                    self@,
                    stmts,
                    i as int,
                    depth as nat,
                ),
            decreases block.len() - i,
        {
            match self.exec_at(&block[i], depth) {
                Err(error) => {
                    return Err(error);
                },
                Ok(Some(value)) => {
                    return Ok(Some(value));
                },
                Ok(None) => {},
            }
            i += 1;
        }
        Ok(None)
    }

    fn eval_at(&mut self, expression: &Expression, depth: usize) -> (r: Result<
        Value,
        RuntimeError,
    >)
        ensures
            final(self)@ == eval(old(self)@, expression@, depth as nat).state,
            value_result(r) == eval(old(self)@, expression@, depth as nat).result,
            final(self).depth_limit() == old(self).depth_limit(),
        decreases depth, 0nat, expression, 0nat,
    {
        match expression {
            Expression::Integer(n) => Ok(Value::Integer(*n)),
            Expression::String(literal) => Ok(Value::String(self.interpolated(literal))),
            Expression::Identifier(name) => {
                match self.environment.get_variable(name.as_str()) {
                    Some(value) => Ok(clone_value(value)),
                    None => Err(RuntimeError::UndefinedVariable),
                }
            },
            Expression::Binary { left, operator, right } => {
                match self.eval_at(left, depth) {
                    Err(error) => Err(error),
                    Ok(left_value) => match self.eval_at(right, depth) {
                        Err(error) => Err(error),
                        Ok(right_value) => match operator {
                            BinaryOperator::Add => self.add_values(left_value, right_value),
                            BinaryOperator::Subtract => self.subtract_values(
                                left_value,
                                right_value,
                            ),
                            BinaryOperator::Multiply => self.multiply_values(
                                left_value,
                                right_value,
                            ),
                            BinaryOperator::Divide => self.divide_values(left_value, right_value),
                            BinaryOperator::Equal => self.equal_values(left_value, right_value),
                        },
                    },
                }
            },
            Expression::FunctionCall { name, arguments } => {
                if same_text(name.as_str(), "print") {
                    assert(expression@ == Expr::FunctionCall {
                        name: name@,
                        arguments: expressions_view(arguments@),
                    });
                    if arguments.len() != 1 {
                        return Err(RuntimeError::ArityError);
                    }
                    match self.eval_at(&arguments[0], depth) {
                        Err(error) => Err(error),
                        Ok(value) => {
                            let ghost before = self.output@;
                            let line = value.to_string();
                            self.output.push(line);
                            assert(lines_view(self.output@) =~= lines_view(before).push(line@));
                            Ok(Value::String(String::new()))
                        },
                    }
                } else {
                    self.function_call(name, arguments, depth)
                }
            },
            Expression::MethodCall { object, method, arguments } => {
                match self.eval_at(object, depth) {
                    Err(error) => Err(error),
                    Ok(receiver) => self.method_call(receiver, method, arguments, depth),
                }
            },
            Expression::FieldAccess { object, field } => {
                match self.eval_at(object, depth) {
                    Err(error) => Err(error),
                    Ok(receiver) => match &receiver {
                        Value::Object { fields, .. } => {
                            proof {
                                lemma_first_index(fields.entries@, field@);
                            }
                            match fields.get(field.as_str()) {
                                Some(value) => Ok(clone_value(value)),
                                None => Err(RuntimeError::FieldNotFound),
                            }
                        },
                        _ => Err(RuntimeError::NotAnObject),
                    },
                }
            },
            Expression::ObjectCreation { class_name } => self.new_object(class_name),
            Expression::StringInterpolation { .. } => Ok(Value::String(String::new())),
        }
    }

    fn function_call(&mut self, name: &String, arguments: &Vec<Expression>, depth: usize) -> (r:
        Result<Value, RuntimeError>)
        ensures
            final(self)@ == call_function(
                old(self)@,
                name@,
                expressions_view(arguments@),
                depth as nat,
            ).state,
            value_result(r) == call_function(
                old(self)@,
                name@,
                expressions_view(arguments@),
                depth as nat,
            ).result,
            final(self).depth_limit() == old(self).depth_limit(),
        decreases depth, 0nat, arguments, arguments.len() + 1,
    {
        let function = match self.environment.get_function(name.as_str()) {
            Some(function) => clone_value(function),
            None => {
                return Err(RuntimeError::UndefinedFunction);
            },
        };
        match function {
            Value::Function { parameters, return_type, body } => {
                if arguments.len() != parameters.len() {
                    return Err(RuntimeError::ArityError);
                }
                if depth == 0 {
                    return Err(RuntimeError::CallDepthExceeded);
                }
                let saved = self.environment.snapshot();
                let r = match self.bind(&parameters, arguments, depth, true) {
                    Err(error) => Err(error),
                    Ok(_) => self.body_at(&body, &return_type, depth - 1),
                };
                self.environment.restore(saved);
                r
            },
            _ => Err(RuntimeError::UndefinedFunction),
        }
    }

    fn method_call(
        &mut self,
        receiver: Value,
        method: &String,
        arguments: &Vec<Expression>,
        depth: usize,
    ) -> (r: Result<Value, RuntimeError>)
        ensures
            final(self)@ == call_method(
                old(self)@,
                receiver@,
                method@,
                expressions_view(arguments@),
                depth as nat,
            ).state,
            value_result(r) == call_method(
                old(self)@,
                receiver@,
                method@,
                expressions_view(arguments@),
                depth as nat,
            ).result,
            final(self).depth_limit() == old(self).depth_limit(),
        decreases depth, 0nat, arguments, arguments.len() + 1,
    {
        let found = match &receiver {
            Value::Object { class_name, .. } => {
                match self.environment.get_class(class_name.as_str()) {
                    None => {
                        return Err(RuntimeError::ClassNotFound);
                    },
                    Some(class) => {
                        let place = method_position(&class.methods, method.as_str());
                        if place >= class.methods.len() {
                            return Err(RuntimeError::MethodNotFound);
                        }
                        assert(methods_view(class.methods@)[place as int]
                            == class.methods@[place as int]@);
                        class.methods[place].clone()
                    },
                }
            },
            _ => {
                return Err(RuntimeError::NotAnObject);
            },
        };
        if arguments.len() != found.parameters.len() {
            return Err(RuntimeError::ArityError);
        }
        if depth == 0 {
            return Err(RuntimeError::CallDepthExceeded);
        }
        let saved = self.environment.snapshot();
        self.environment.define_variable(String::from_str("this"), receiver);
        let r = match self.bind(&found.parameters, arguments, depth, false) {
            Err(error) => Err(error),
            Ok(_) => self.body_at(&found.body, &found.return_type, depth - 1),
        };
        self.environment.restore(saved);
        r
    }

    fn bind(
        &mut self,
        parameters: &Vec<Parameter>,
        arguments: &Vec<Expression>,
        depth: usize,
        typed: bool,
    ) -> (r: Result<(), RuntimeError>)
        requires
            parameters.len() == arguments.len(),
        ensures
            final(self)@ == bind_arguments(
                old(self)@,
                parameters_view(parameters@),
                expressions_view(arguments@),
                0,
                depth as nat,
                typed,
            ).state,
            r == bind_arguments(
                old(self)@,
                parameters_view(parameters@),
                expressions_view(arguments@),
                0,
                depth as nat,
                typed,
            ).result,
            final(self).depth_limit() == old(self).depth_limit(),
        decreases depth, 0nat, arguments, arguments.len(),
    {
        let ghost start = self@;
        let ghost params = parameters_view(parameters@);
        let ghost args = expressions_view(arguments@);
        let mut i: usize = 0;
        while i < arguments.len()
            invariant
                i <= arguments.len(),
                parameters.len() == arguments.len(),
                start == old(self)@,
                params == parameters_view(parameters@),
                args == expressions_view(arguments@),
                self.depth_limit() == old(self).depth_limit(),
                bind_arguments(start, params, args, 0, depth as nat, typed) == bind_arguments(
                    self@,
                    params,
                    args,
                    i as int,
                    depth as nat,
                    typed,
                ),
            decreases arguments.len() - i,
        {
            match self.eval_at(&arguments[i], depth) {
                Err(error) => {
                    return Err(error);
                },
                Ok(value) => {
                    assert(params[i as int] == parameters@[i as int]@);
                    if typed && !is_compatible(&parameters[i].param_type, &value) {
                        return Err(RuntimeError::TypeMismatch);
                    }
                    self.environment.define_variable(parameters[i].name.clone(), value);
                },
            }
            i += 1;
        }
        Ok(())
    }

    fn body_at(&mut self, body: &Vec<Statement>, return_type: &Type, depth: usize) -> (r: Result<
        Value,
        RuntimeError,
    >)
        ensures
            final(self)@ == run_body(
                old(self)@,
                statements_view(body@),
                return_type@,
                depth as nat,
            ).state,
            value_result(r) == run_body(
                old(self)@,
                statements_view(body@),
                return_type@,
                depth as nat,
            ).result,
            final(self).depth_limit() == old(self).depth_limit(),
        decreases depth, 1nat, body, body.len() + 1,
    {
        match self.block_at(body, depth) {
            Err(error) => Err(error),
            Ok(Some(value)) => Ok(value),
            Ok(None) => Ok(default_value(return_type)),
        }
    }
}

} // verus!
