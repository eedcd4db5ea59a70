//! Laws of evaluation, proved of the semantics that the evaluator computes.

use vstd::prelude::*;
use crate::ast::{BinaryOperator, Expr, Stmt, Ty};
use crate::error::RuntimeError;
use crate::semantics::{
    call_function, call_method, compatible, divide_values, equal_values, eval, exec, State,
};
use crate::value::Val;

verus! {

/// Whether two values are of the same kind.
pub open spec fn same_kind(a: Val, b: Val) -> bool {
    match (a, b) {
        (Val::Integer(_), Val::Integer(_)) => true,
        (Val::Text(_), Val::Text(_)) => true,
        (Val::Function { .. }, Val::Function { .. }) => true,
        (Val::Object { .. }, Val::Object { .. }) => true,
        (Val::Void, Val::Void) => true,
        _ => false,
    }
}

/// A typed declaration succeeds exactly when its expression has a value of
/// the declared type, and then the name is bound to that value.
pub proof fn law_declaration_binds_value(
    s: State,
    name: Seq<char>,
    ty: Ty,
    value: Expr,
    depth: nat,
)
    ensures
        ({
            let declared = exec(s, Stmt::VariableDeclaration { name, ty, value }, depth);
            let evaluated = eval(s, value, depth);
            &&& declared.result is Ok <==> (evaluated.result matches Ok(v) && compatible(ty, v))
            &&& declared.result is Ok ==> {
                &&& declared.state.env.variables.contains_key(name)
                &&& declared.state.env.variables[name] == evaluated.result->Ok_0
                &&& compatible(ty, declared.state.env.variables[name])
            }
        }),
{
}

/// A declaration that fails binds nothing: the variables are as the
/// evaluation of its expression left them, which is as they were.
pub proof fn law_failed_declaration_binds_nothing(
    s: State,
    name: Seq<char>,
    ty: Ty,
    value: Expr,
    depth: nat,
)
    requires
        exec(s, Stmt::VariableDeclaration { name, ty, value }, depth).result is Err,
    ensures
        exec(s, Stmt::VariableDeclaration { name, ty, value }, depth).state.env.variables
            == s.env.variables,
{
    law_evaluation_keeps_variables(s, value, depth);
}

/// Dividing any integer by zero is the error `DivisionByZero`.
pub proof fn law_division_by_zero(a: i64)
    ensures
        divide_values(Val::Integer(a), Val::Integer(0)) == Err::<Val, RuntimeError>(
            RuntimeError::DivisionByZero,
        ),
{
}

/// A division whose operands evaluate to an integer and to zero evaluates
/// to the error `DivisionByZero`.
pub proof fn law_division_expression_by_zero(s: State, left: Expr, right: Expr, depth: nat)
    requires
        eval(s, left, depth).result matches Ok(l) && l is Integer,
        eval(eval(s, left, depth).state, right, depth).result == Ok::<Val, RuntimeError>(
            Val::Integer(0),
        ),
    ensures
        eval(
            s,
            Expr::Binary {
                left: Box::new(left),
                operator: BinaryOperator::Divide,
                right: Box::new(right),
            },
            depth,
        ).result == Err::<Val, RuntimeError>(RuntimeError::DivisionByZero),
{
}

/// Comparing two values of different kinds gives the integer 0.
pub proof fn law_equal_across_kinds(left: Val, right: Val)
    requires
        !same_kind(left, right),
    ensures
        equal_values(left, right) == Ok::<Val, RuntimeError>(Val::Integer(0)),
{
}

/// Comparing an integer or a string with itself gives the integer 1.
pub proof fn law_equal_same_value(value: Val)
    requires
        value is Integer || value is Text,
    ensures
        equal_values(value, value) == Ok::<Val, RuntimeError>(Val::Integer(1)),
{
}

/// Comparison never fails and gives 0 or 1.
pub proof fn law_equal_is_zero_or_one(left: Val, right: Val)
    ensures
        equal_values(left, right) == Ok::<Val, RuntimeError>(Val::Integer(0)) || equal_values(
            left,
            right,
        ) == Ok::<Val, RuntimeError>(Val::Integer(1)),
{
}

/// Evaluating an expression leaves the variable table exactly as it was,
/// whether the evaluation succeeds or fails: every call made on the way
/// has put the caller's bindings back.
pub proof fn law_evaluation_keeps_variables(s: State, e: Expr, depth: nat)
    ensures
        eval(s, e, depth).state.env.variables == s.env.variables,
    decreases e,
{
    match e {
        Expr::Binary { left, operator, right } => {
            law_evaluation_keeps_variables(s, *left, depth);
            law_evaluation_keeps_variables(eval(s, *left, depth).state, *right, depth);
        },
        Expr::FunctionCall { name, arguments } => {
            if name == "print"@ {
                if arguments.len() == 1 {
                    law_evaluation_keeps_variables(s, arguments[0], depth);
                }
            } else {
                law_function_call_restores_variables(s, name, arguments, depth);
            }
        },
        Expr::MethodCall { object, method, arguments } => {
            law_evaluation_keeps_variables(s, *object, depth);
            let o = eval(s, *object, depth);
            if o.result is Ok {
                law_method_call_restores_variables(
                    o.state,
                    o.result->Ok_0,
                    method,
                    arguments,
                    depth,
                );
            }
        },
        Expr::FieldAccess { object, field } => {
            law_evaluation_keeps_variables(s, *object, depth);
        },
        _ => {},
    }
}

/// When a function call returns, with a value or with an error, the
/// caller's variables are exactly those from before the call.
pub proof fn law_function_call_restores_variables(
    s: State,
    name: Seq<char>,
    arguments: Seq<Expr>,
    depth: nat,
)
    ensures
        call_function(s, name, arguments, depth).state.env.variables == s.env.variables,
{
}

/// When a method call returns, with a value or with an error, the caller's
/// variables are exactly those from before the call; `this` and the
/// parameters lived in the call's frame only.
pub proof fn law_method_call_restores_variables(
    s: State,
    receiver: Val,
    method: Seq<char>,
    arguments: Seq<Expr>,
    depth: nat,
)
    ensures
        call_method(s, receiver, method, arguments, depth).state.env.variables
            == s.env.variables,
{
}

/// Whatever a method does with `this`, the variable that the method was
/// called on holds afterwards the object it held before.
pub proof fn law_method_cannot_change_receiver(
    s: State,
    receiver: Seq<char>,
    method: Seq<char>,
    arguments: Seq<Expr>,
    depth: nat,
)
    requires
        s.env.variables.contains_key(receiver),
    ensures
        ({
            let call = Expr::MethodCall {
                object: Box::new(Expr::Identifier(receiver)),
                method,
                arguments,
            };
            let after = eval(s, call, depth).state;
            &&& after.env.variables.contains_key(receiver)
            &&& after.env.variables[receiver] == s.env.variables[receiver]
        }),
{
    law_evaluation_keeps_variables(
        s,
        Expr::MethodCall { object: Box::new(Expr::Identifier(receiver)), method, arguments },
        depth,
    );
}

} // verus!
