//! The grammar: what the parser makes of a token sequence, as functions on
//! the models of tokens and of the syntax tree. The executable parser is
//! proved to compute exactly this.
//!
//! Precedence, lowest first: `==`; `+` and `-`; `*` and `/`; then a primary
//! expression with its `.name` and `.name(args)` suffixes. All binary
//! operators associate to the left. Argument lists have no separator: one
//! argument ends where no longer expression can be read.

use vstd::prelude::*;
use crate::ast::{BinaryOperator, Expr, Field, MethodDef, MethodSig, Param, Stmt, Ty};
use crate::error::SyntaxError;
use crate::lexer::TokenKind;
use crate::text::is_upper;

verus! {

/// A construct that was read, and the place of the first token after it.
pub struct Parsed<T> {
    pub value: T,
    pub next: int,
}

/// What a step of the parser gives.
pub type Parse<T> = Result<Parsed<T>, SyntaxError>;

/// `value` read, with `next` the place after it.
pub open spec fn parsed<T>(value: T, next: int) -> Parse<T> {
    Ok(Parsed { value, next })
}

/// Whether nothing is left to read at `p`: the tokens are used up or the
/// token there is `Eof`.
pub open spec fn at_end(ts: Seq<TokenKind>, p: int) -> bool {
    p < 0 || p >= ts.len() || ts[p] is Eof
}

/// Whether a token of the same variant as `kind` lies at `p`, before the
/// end.
pub open spec fn is_at(ts: Seq<TokenKind>, p: int, kind: TokenKind) -> bool {
    !at_end(ts, p) && ts[p].tag() == kind.tag()
}

/// The token that reading at `p` yields: the token there, or at the end
/// the last token that was read.
pub open spec fn read(ts: Seq<TokenKind>, p: int) -> TokenKind {
    if !at_end(ts, p) {
        ts[p]
    } else if 0 < p <= ts.len() {
        ts[p - 1]
    } else {
        TokenKind::Eof
    }
}

/// The place after reading at `p`: one further, or `p` at the end.
pub open spec fn after(ts: Seq<TokenKind>, p: int) -> int {
    if at_end(ts, p) {
        p
    } else {
        p + 1
    }
}

/// The name that reading at `p` yields, if it yields an identifier.
pub open spec fn read_identifier(ts: Seq<TokenKind>, p: int) -> Option<Seq<char>> {
    match read(ts, p) {
        TokenKind::Identifier(name) => Some(name),
        _ => None,
    }
}

/// The place after the end of a statement that stops at `p`: a newline
/// there is taken, and its absence is not an error.
pub open spec fn terminator(ts: Seq<TokenKind>, p: int) -> int {
    if is_at(ts, p, TokenKind::Newline) {
        p + 1
    } else {
        p
    }
}

/// Whether a name starts with one of `A` to `Z`.
pub open spec fn is_capitalized(name: Seq<char>) -> bool {
    name.len() > 0 && is_upper(name[0])
}

/// A sub-result as the grammar uses it: it counts only where it ends
/// beyond `p` and within the tokens. Every construct that the parser reads
/// does; the test is what makes the grammar's recursion well-founded.
pub open spec fn within<T>(r: Parse<T>, p: int, ts: Seq<TokenKind>) -> Parse<T> {
    match r {
        Ok(found) => if p < found.next <= ts.len() {
            r
        } else {
            Err(SyntaxError::ExpectedExpression)
        },
        Err(_) => r,
    }
}

/// `expression := equality`
pub open spec fn expression(ts: Seq<TokenKind>, p: int) -> Parse<Expr>
    decreases ts.len() - p, 5nat,
{
    equality(ts, p)
}

/// `equality := addition ('==' addition)*`
pub open spec fn equality(ts: Seq<TokenKind>, p: int) -> Parse<Expr>
    decreases ts.len() - p, 4nat,
{
    match within(addition(ts, p), p, ts) {
        Err(error) => Err(error),
        Ok(left) => equality_tail(ts, left.next, left.value),
    }
}

/// The `('==' addition)*` that follows `left`.
pub open spec fn equality_tail(ts: Seq<TokenKind>, p: int, left: Expr) -> Parse<Expr>
    decreases ts.len() - p, 0nat,
{
    if is_at(ts, p, TokenKind::Equal) {
        match within(addition(ts, p + 1), p + 1, ts) {
            Err(error) => Err(error),
            Ok(right) => equality_tail(
                ts,
                right.next,
                Expr::Binary {
                    left: Box::new(left),
                    operator: BinaryOperator::Equal,
                    right: Box::new(right.value),
                },
            ),
        }
    } else {
        parsed(left, p)
    }
}

/// `addition := multiplication (('+' | '-') multiplication)*`
pub open spec fn addition(ts: Seq<TokenKind>, p: int) -> Parse<Expr>
    decreases ts.len() - p, 3nat,
{
    match within(multiplication(ts, p), p, ts) {
        Err(error) => Err(error),
        Ok(left) => addition_tail(ts, left.next, left.value),
    }
}

/// The `(('+' | '-') multiplication)*` that follows `left`.
pub open spec fn addition_tail(ts: Seq<TokenKind>, p: int, left: Expr) -> Parse<Expr>
    decreases ts.len() - p, 0nat,
{
    if is_at(ts, p, TokenKind::Plus) || is_at(ts, p, TokenKind::Minus) {
        let operator = if is_at(ts, p, TokenKind::Plus) {
            BinaryOperator::Add
        } else {
            BinaryOperator::Subtract
        };
        match within(multiplication(ts, p + 1), p + 1, ts) {
            Err(error) => Err(error),
            Ok(right) => addition_tail(
                ts,
                right.next,
                Expr::Binary { left: Box::new(left), operator, right: Box::new(right.value) },
            ),
        }
    } else {
        parsed(left, p)
    }
}

/// `multiplication := primary (('*' | '/') primary)*`
pub open spec fn multiplication(ts: Seq<TokenKind>, p: int) -> Parse<Expr>
    decreases ts.len() - p, 2nat,
{
    match within(primary(ts, p), p, ts) {
        Err(error) => Err(error),
        Ok(left) => multiplication_tail(ts, left.next, left.value),
    }
}

/// The `(('*' | '/') primary)*` that follows `left`.
pub open spec fn multiplication_tail(ts: Seq<TokenKind>, p: int, left: Expr) -> Parse<Expr>
    decreases ts.len() - p, 0nat,
{
    if is_at(ts, p, TokenKind::Multiply) || is_at(ts, p, TokenKind::Divide) {
        let operator = if is_at(ts, p, TokenKind::Multiply) {
            BinaryOperator::Multiply
        } else {
            BinaryOperator::Divide
        };
        match within(primary(ts, p + 1), p + 1, ts) {
            Err(error) => Err(error),
            Ok(right) => multiplication_tail(
                ts,
                right.next,
                Expr::Binary { left: Box::new(left), operator, right: Box::new(right.value) },
            ),
        }
    } else {
        parsed(left, p)
    }
}

/// The arguments of a call from `p` up to the closing parenthesis, which
/// is left unread; `acc` holds those already read.
pub open spec fn arguments(ts: Seq<TokenKind>, p: int, acc: Seq<Expr>) -> Parse<Seq<Expr>>
    decreases ts.len() - p, 6nat,
{
    if is_at(ts, p, TokenKind::RightParen) {
        parsed(acc, p)
    } else {
        match within(expression(ts, p), p, ts) {
            Err(error) => Err(error),
            Ok(argument) => arguments(ts, argument.next, acc.push(argument.value)),
        }
    }
}

/// A parenthesised argument list whose opening parenthesis lies at `p`.
pub open spec fn call_arguments(ts: Seq<TokenKind>, p: int) -> Parse<Seq<Expr>>
    decreases ts.len() - p, 7nat,
{
    if !is_at(ts, p, TokenKind::LeftParen) {
        Err(SyntaxError::ExpectedLeftParen)
    } else {
        match within(arguments(ts, p + 1, Seq::empty()), p, ts) {
            Err(error) => Err(error),
            Ok(list) => if is_at(ts, list.next, TokenKind::RightParen) {
                parsed(list.value, list.next + 1)
            } else {
                Err(SyntaxError::ExpectedRightParen)
            },
        }
    }
}

/// `primary := integer | string | identifier ['(' args ')'] | '(' expression ')'`,
/// followed by its suffixes. At the end of the input there is no
/// expression.
pub open spec fn primary(ts: Seq<TokenKind>, p: int) -> Parse<Expr>
    decreases ts.len() - p, 1nat,
{
    if at_end(ts, p) {
        Err(SyntaxError::ExpectedExpression)
    } else {
        match ts[p] {
            TokenKind::Integer(n) => suffixes(ts, p + 1, Expr::Integer(n)),
            TokenKind::Text(s) => suffixes(ts, p + 1, Expr::Text(s)),
            TokenKind::Identifier(name) => if is_at(ts, p + 1, TokenKind::LeftParen) {
                match within(call_arguments(ts, p + 1), p + 1, ts) {
                    Err(error) => Err(error),
                    Ok(list) => suffixes(
                        ts,
                        list.next,
                        Expr::FunctionCall { name, arguments: list.value },
                    ),
                }
            } else {
                suffixes(ts, p + 1, Expr::Identifier(name))
            },
            TokenKind::LeftParen => match within(expression(ts, p + 1), p + 1, ts) {
                Err(error) => Err(error),
                Ok(inner) => if is_at(ts, inner.next, TokenKind::RightParen) {
                    suffixes(ts, inner.next + 1, inner.value)
                } else {
                    Err(SyntaxError::ExpectedRightParen)
                },
            },
            _ => Err(SyntaxError::ExpectedExpression),
        }
    }
}

/// The suffixes `.name` and `.name(args)` that follow `object`: a field
/// access, a method call, or, for `.new(args)` on a plain name, the
/// creation of an object of that class, its arguments dropped.
pub open spec fn suffixes(ts: Seq<TokenKind>, p: int, object: Expr) -> Parse<Expr>
    decreases ts.len() - p, 0nat,
{
    if !is_at(ts, p, TokenKind::Dot) {
        parsed(object, p)
    } else if at_end(ts, p + 1) {
        Err(SyntaxError::ExpectedIdentifierAfterDot)
    } else {
        match ts[p + 1] {
            TokenKind::Identifier(name) => if is_at(ts, p + 2, TokenKind::LeftParen) {
                match within(call_arguments(ts, p + 2), p + 2, ts) {
                    Err(error) => Err(error),
                    Ok(list) => if name == "new"@ {
                        match object {
                            Expr::Identifier(class_name) => suffixes(
                                ts,
                                list.next,
                                Expr::ObjectCreation { class_name },
                            ),
                            _ => Err(SyntaxError::NewOnNonClass),
                        }
                    } else {
                        suffixes(
                            ts,
                            list.next,
                            Expr::MethodCall {
                                object: Box::new(object),
                                method: name,
                                arguments: list.value,
                            },
                        )
                    },
                }
            } else {
                suffixes(ts, p + 2, Expr::FieldAccess { object: Box::new(object), field: name })
            },
            _ => Err(SyntaxError::ExpectedIdentifierAfterDot),
        }
    }
}

/// `Int` or `String`, or else the error given.
pub open spec fn simple_type(ts: Seq<TokenKind>, p: int, error: SyntaxError) -> Parse<Ty> {
    if is_at(ts, p, TokenKind::Int) {
        parsed(Ty::Int, p + 1)
    } else if is_at(ts, p, TokenKind::StringKeyword) {
        parsed(Ty::Text, p + 1)
    } else {
        Err(error)
    }
}

/// `Int`, `String`, `void`, or the name of a class.
pub open spec fn any_type(ts: Seq<TokenKind>, p: int) -> Parse<Ty> {
    if is_at(ts, p, TokenKind::Int) {
        parsed(Ty::Int, p + 1)
    } else if is_at(ts, p, TokenKind::StringKeyword) {
        parsed(Ty::Text, p + 1)
    } else if is_at(ts, p, TokenKind::Void) {
        parsed(Ty::Void, p + 1)
    } else {
        match read_identifier(ts, p) {
            Some(name) => parsed(Ty::Custom(name), after(ts, p)),
            None => Err(SyntaxError::ExpectedType),
        }
    }
}

/// The place of the next identifier or closing parenthesis at or after
/// `p`, or the end: whatever separates two parameters is skipped.
pub open spec fn skip_separators(ts: Seq<TokenKind>, p: int) -> int
    decreases ts.len() - p,
{
    if at_end(ts, p) || ts[p] is Identifier || ts[p] is RightParen {
        p
    } else {
        skip_separators(ts, p + 1)
    }
}

/// Skipping separators never moves back nor beyond the tokens.
pub proof fn lemma_skip_separators(ts: Seq<TokenKind>, p: int)
    requires
        0 <= p <= ts.len(),
    ensures
        p <= skip_separators(ts, p) <= ts.len(),
    decreases ts.len() - p,
{
    if !(at_end(ts, p) || ts[p] is Identifier || ts[p] is RightParen) {
        lemma_skip_separators(ts, p + 1);
    }
}

/// The parameters `name ':' type` from `p` up to the closing parenthesis,
/// which is left unread. A function takes `Int` and `String` parameters
/// only (`classes` is false); a method takes any type.
pub open spec fn parameters(ts: Seq<TokenKind>, p: int, acc: Seq<Param>, classes: bool) -> Parse<
    Seq<Param>,
>
    decreases ts.len() - p,
{
    match read_identifier(ts, p) {
        None => Err(SyntaxError::ExpectedParameterName),
        Some(name) => if !is_at(ts, after(ts, p), TokenKind::Colon) {
            Err(SyntaxError::ExpectedColonAfterParameter)
        } else {
            let ty = if classes {
                any_type(ts, after(ts, p) + 1)
            } else {
                simple_type(ts, after(ts, p) + 1, SyntaxError::ExpectedParameterType)
            };
            match ty {
                Err(error) => Err(error),
                Ok(ty) => if is_at(ts, ty.next, TokenKind::RightParen) {
                    parsed(acc.push(Param { name, ty: ty.value }), ty.next)
                } else {
                    proof {
                        if 0 <= ty.next <= ts.len() {
                            lemma_skip_separators(ts, ty.next);
                        }
                    }
                    if p < ty.next <= ts.len() {
                        parameters(
                            ts,
                            skip_separators(ts, ty.next),
                            acc.push(Param { name, ty: ty.value }),
                            classes,
                        )
                    } else {
                        Err(SyntaxError::ExpectedParameterName)
                    }
                },
            }
        },
    }
}

/// A parenthesised parameter list whose opening parenthesis lies at `p`.
#[verifier::opaque]
pub open spec fn parameter_list(ts: Seq<TokenKind>, p: int, classes: bool) -> Parse<Seq<Param>> {
    if !is_at(ts, p, TokenKind::LeftParen) {
        Err(SyntaxError::ExpectedLeftParen)
    } else {
        let list = if is_at(ts, p + 1, TokenKind::RightParen) {
            parsed(Seq::empty(), p + 1)
        } else {
            parameters(ts, p + 1, Seq::empty(), classes)
        };
        match list {
            Err(error) => Err(error),
            Ok(list) => if is_at(ts, list.next, TokenKind::RightParen) {
                parsed(list.value, list.next + 1)
            } else {
                Err(SyntaxError::ExpectedRightParen)
            },
        }
    }
}

/// `Type name '=' expression`, where the type is `Int`, `String` or the
/// name of a class.
#[verifier::opaque]
pub open spec fn variable_declaration(ts: Seq<TokenKind>, p: int) -> Parse<Stmt> {
    let ty = if is_at(ts, p, TokenKind::Int) {
        parsed(Ty::Int, p + 1)
    } else if is_at(ts, p, TokenKind::StringKeyword) {
        parsed(Ty::Text, p + 1)
    } else if !at_end(ts, p) && ts[p] is Identifier {
        parsed(Ty::Custom(ts[p]->Identifier_0), p + 1)
    } else {
        Err(SyntaxError::ExpectedType)
    };
    match ty {
        Err(error) => Err(error),
        Ok(ty) => match read_identifier(ts, ty.next) {
            None => Err(SyntaxError::ExpectedIdentifier),
            Some(name) => if !is_at(ts, after(ts, ty.next), TokenKind::Assign) {
                Err(SyntaxError::ExpectedAssign)
            } else {
                match expression(ts, after(ts, ty.next) + 1) {
                    Err(error) => Err(error),
                    Ok(value) => parsed(
                        Stmt::VariableDeclaration { name, ty: ty.value, value: value.value },
                        terminator(ts, value.next),
                    ),
                }
            },
        },
    }
}

/// An expression on its own, or `target '=' expression`.
#[verifier::opaque]
pub open spec fn expression_statement(ts: Seq<TokenKind>, p: int) -> Parse<Stmt> {
    match expression(ts, p) {
        Err(error) => Err(error),
        Ok(first) => if is_at(ts, first.next, TokenKind::Assign) {
            match expression(ts, first.next + 1) {
                Err(error) => Err(error),
                Ok(value) => parsed(
                    Stmt::Assignment { target: first.value, value: value.value },
                    terminator(ts, value.next),
                ),
            }
        } else {
            parsed(Stmt::Expression(first.value), terminator(ts, first.next))
        },
    }
}

/// Whether the token at `p` starts a typed declaration: `Int`, `String`,
/// or a capitalized identifier.
pub open spec fn starts_declaration(ts: Seq<TokenKind>, p: int) -> bool {
    ||| is_at(ts, p, TokenKind::Int)
    ||| is_at(ts, p, TokenKind::StringKeyword)
    ||| (!at_end(ts, p) && ts[p] is Identifier && is_capitalized(ts[p]->Identifier_0))
}

/// One statement, chosen by its first token.
pub open spec fn statement(ts: Seq<TokenKind>, p: int) -> Parse<Stmt>
    decreases ts.len() - p, 2nat,
{
    if starts_declaration(ts, p) {
        variable_declaration(ts, p)
    } else if is_at(ts, p, TokenKind::Def) {
        function_definition(ts, p)
    } else if is_at(ts, p, TokenKind::If) {
        if_statement(ts, p)
    } else if is_at(ts, p, TokenKind::Class) {
        class_definition(ts, p)
    } else if is_at(ts, p, TokenKind::Interface) {
        interface_definition(ts, p)
    } else {
        expression_statement(ts, p)
    }
}

/// The statements of a block from `p` up to `end` (or, where `or_else`
/// says so, `else`), which is left unread; empty lines are skipped.
pub open spec fn block(ts: Seq<TokenKind>, p: int, acc: Seq<Stmt>, or_else: bool) -> Parse<
    Seq<Stmt>,
>
    decreases ts.len() - p, 3nat,
{
    if at_end(ts, p) || is_at(ts, p, TokenKind::End) || (or_else && is_at(ts, p, TokenKind::Else)) {
        parsed(acc, p)
    } else if is_at(ts, p, TokenKind::Newline) {
        block(ts, p + 1, acc, or_else)
    } else {
        match within(statement(ts, p), p, ts) {
            Err(error) => Err(error),
            Ok(s) => block(ts, s.next, acc.push(s.value), or_else),
        }
    }
}

/// `'def' name '(' parameters ')' '->' type` on one line, a block, `'end'`.
pub open spec fn function_definition(ts: Seq<TokenKind>, p: int) -> Parse<Stmt>
    decreases ts.len() - p, 1nat,
{
    if !is_at(ts, p, TokenKind::Def) {
        Err(SyntaxError::ExpectedDef)
    } else {
        match read_identifier(ts, p + 1) {
            None => Err(SyntaxError::ExpectedFunctionName),
            Some(name) => match within(parameter_list(ts, after(ts, p + 1), false), p, ts) {
                Err(error) => Err(error),
                Ok(params) => if !is_at(ts, params.next, TokenKind::Arrow) {
                    Err(SyntaxError::ExpectedArrow)
                } else {
                    match simple_type(ts, params.next + 1, SyntaxError::ExpectedReturnType) {
                        Err(error) => Err(error),
                        Ok(ret) => match within(
                            block(ts, terminator(ts, ret.next), Seq::empty(), false),
                            p,
                            ts,
                        ) {
                            Err(error) => Err(error),
                            Ok(body) => if !is_at(ts, body.next, TokenKind::End) {
                                Err(SyntaxError::ExpectedEnd)
                            } else {
                                parsed(
                                    Stmt::FunctionDefinition {
                                        name,
                                        params: params.value,
                                        ret: ret.value,
                                        body: body.value,
                                    },
                                    terminator(ts, body.next + 1),
                                )
                            },
                        },
                    }
                },
            },
        }
    }
}

/// `'if' expression`, a block, optionally `'else'` and a block, `'end'`.
pub open spec fn if_statement(ts: Seq<TokenKind>, p: int) -> Parse<Stmt>
    decreases ts.len() - p, 1nat,
{
    if !is_at(ts, p, TokenKind::If) {
        Err(SyntaxError::ExpectedIf)
    } else {
        match within(expression(ts, p + 1), p, ts) {
            Err(error) => Err(error),
            Ok(condition) => match within(
                block(ts, terminator(ts, condition.next), Seq::empty(), true),
                p,
                ts,
            ) {
                Err(error) => Err(error),
                Ok(then_branch) => {
                    let rest: Parse<Option<Seq<Stmt>>> = if is_at(
                        ts,
                        then_branch.next,
                        TokenKind::Else,
                    ) {
                        match within(
                            block(
                                ts,
                                terminator(ts, then_branch.next + 1),
                                Seq::empty(),
                                false,
                            ),
                            p,
                            ts,
                        ) {
                            Err(error) => Err(error),
                            Ok(else_branch) => parsed(Some(else_branch.value), else_branch.next),
                        }
                    } else {
                        parsed(None, then_branch.next)
                    };
                    match rest {
                        Err(error) => Err(error),
                        Ok(rest) => if !is_at(ts, rest.next, TokenKind::End) {
                            Err(SyntaxError::ExpectedEnd)
                        } else {
                            parsed(
                                Stmt::If {
                                    condition: condition.value,
                                    then_branch: then_branch.value,
                                    else_branch: rest.value,
                                },
                                terminator(ts, rest.next + 1),
                            )
                        },
                    }
                },
            },
        }
    }
}

/// A field of a class: `type name`.
#[verifier::opaque]
pub open spec fn field(ts: Seq<TokenKind>, p: int) -> Parse<Field> {
    match any_type(ts, p) {
        Err(error) => Err(error),
        Ok(ty) => match read_identifier(ts, ty.next) {
            None => Err(SyntaxError::ExpectedFieldName),
            Some(name) => parsed(
                Field { name, ty: ty.value },
                terminator(ts, after(ts, ty.next)),
            ),
        },
    }
}

/// The heading of a method: `'def' name '(' parameters ')' ':' type`.
#[verifier::opaque]
pub open spec fn method_signature(ts: Seq<TokenKind>, p: int) -> Parse<MethodSig> {
    if !is_at(ts, p, TokenKind::Def) {
        Err(SyntaxError::ExpectedDef)
    } else {
        match read_identifier(ts, p + 1) {
            None => Err(SyntaxError::ExpectedMethodName),
            Some(name) => match parameter_list(ts, after(ts, p + 1), true) {
                Err(error) => Err(error),
                Ok(params) => if !is_at(ts, params.next, TokenKind::Colon) {
                    Err(SyntaxError::ExpectedColonBeforeReturnType)
                } else {
                    match any_type(ts, params.next + 1) {
                        Err(error) => Err(error),
                        Ok(ret) => parsed(
                            MethodSig { name, params: params.value, ret: ret.value },
                            terminator(ts, ret.next),
                        ),
                    }
                },
            },
        }
    }
}

/// A method of a class: its heading, a block, `'end'`.
pub open spec fn method(ts: Seq<TokenKind>, p: int) -> Parse<MethodDef>
    decreases ts.len() - p, 1nat,
{
    match within(method_signature(ts, p), p, ts) {
        Err(error) => Err(error),
        Ok(heading) => match within(block(ts, heading.next, Seq::empty(), false), p, ts) {
            Err(error) => Err(error),
            Ok(body) => if !is_at(ts, body.next, TokenKind::End) {
                Err(SyntaxError::ExpectedEnd)
            } else {
                parsed(
                    MethodDef {
                        name: heading.value.name,
                        params: heading.value.params,
                        ret: heading.value.ret,
                        body: body.value,
                    },
                    terminator(ts, body.next + 1),
                )
            },
        },
    }
}

/// The members of a class from `p` up to `end`, which is left unread: a
/// member that starts with `def` is a method, any other a field.
pub open spec fn class_body(
    ts: Seq<TokenKind>,
    p: int,
    fields: Seq<Field>,
    methods: Seq<MethodDef>,
) -> Parse<(Seq<Field>, Seq<MethodDef>)>
    decreases ts.len() - p, 3nat,
{
    if at_end(ts, p) || is_at(ts, p, TokenKind::End) {
        parsed((fields, methods), p)
    } else if is_at(ts, p, TokenKind::Newline) {
        class_body(ts, p + 1, fields, methods)
    } else if is_at(ts, p, TokenKind::Def) {
        match within(method(ts, p), p, ts) {
            Err(error) => Err(error),
            Ok(m) => class_body(ts, m.next, fields, methods.push(m.value)),
        }
    } else {
        match within(field(ts, p), p, ts) {
            Err(error) => Err(error),
            Ok(f) => class_body(ts, f.next, fields.push(f.value), methods),
        }
    }
}

/// `'class' name ['implements' name]`, the members, `'end'`.
pub open spec fn class_definition(ts: Seq<TokenKind>, p: int) -> Parse<Stmt>
    decreases ts.len() - p, 1nat,
{
    if !is_at(ts, p, TokenKind::Class) {
        Err(SyntaxError::ExpectedClass)
    } else {
        match read_identifier(ts, p + 1) {
            None => Err(SyntaxError::ExpectedClassName),
            Some(name) => {
                let heading: Parse<Option<Seq<char>>> = if is_at(
                    ts,
                    after(ts, p + 1),
                    TokenKind::Implements,
                ) {
                    match read_identifier(ts, after(ts, p + 1) + 1) {
                        None => Err(SyntaxError::ExpectedInterfaceNameAfterImplements),
                        Some(interface) => parsed(
                            Some(interface),
                            after(ts, after(ts, p + 1) + 1),
                        ),
                    }
                } else {
                    parsed(None, after(ts, p + 1))
                };
                match heading {
                    Err(error) => Err(error),
                    Ok(heading) => match within(
                        class_body(
                            ts,
                            terminator(ts, heading.next),
                            Seq::empty(),
                            Seq::empty(),
                        ),
                        p,
                        ts,
                    ) {
                        Err(error) => Err(error),
                        Ok(members) => if !is_at(ts, members.next, TokenKind::End) {
                            Err(SyntaxError::ExpectedEnd)
                        } else {
                            parsed(
                                Stmt::ClassDefinition {
                                    name,
                                    implements: heading.value,
                                    fields: members.value.0,
                                    methods: members.value.1,
                                },
                                terminator(ts, members.next + 1),
                            )
                        },
                    },
                }
            },
        }
    }
}

/// The method headings of an interface from `p` up to `end`, which is left
/// unread.
pub open spec fn interface_body(ts: Seq<TokenKind>, p: int, acc: Seq<MethodSig>) -> Parse<
    Seq<MethodSig>,
>
    decreases ts.len() - p,
{
    if at_end(ts, p) || is_at(ts, p, TokenKind::End) {
        parsed(acc, p)
    } else if is_at(ts, p, TokenKind::Newline) {
        interface_body(ts, p + 1, acc)
    } else {
        match within(method_signature(ts, p), p, ts) {
            Err(error) => Err(error),
            Ok(m) => interface_body(ts, m.next, acc.push(m.value)),
        }
    }
}

/// `'interface' name`, method headings, `'end'`.
#[verifier::opaque]
pub open spec fn interface_definition(ts: Seq<TokenKind>, p: int) -> Parse<Stmt> {
    if !is_at(ts, p, TokenKind::Interface) {
        Err(SyntaxError::ExpectedInterface)
    } else {
        match read_identifier(ts, p + 1) {
            None => Err(SyntaxError::ExpectedInterfaceName),
            Some(name) => match interface_body(
                ts,
                terminator(ts, after(ts, p + 1)),
                Seq::empty(),
            ) {
                Err(error) => Err(error),
                Ok(methods) => if !is_at(ts, methods.next, TokenKind::End) {
                    Err(SyntaxError::ExpectedEnd)
                } else {
                    parsed(
                        Stmt::InterfaceDefinition { name, methods: methods.value },
                        terminator(ts, methods.next + 1),
                    )
                },
            },
        }
    }
}

/// The statements of a program from `p` to the end of the tokens; empty
/// lines are skipped. The first statement that cannot be read fails the
/// whole program.
pub open spec fn program(ts: Seq<TokenKind>, p: int, acc: Seq<Stmt>) -> Parse<Seq<Stmt>>
    decreases ts.len() - p,
{
    if at_end(ts, p) {
        parsed(acc, p)
    } else if is_at(ts, p, TokenKind::Newline) {
        program(ts, p + 1, acc)
    } else {
        match within(statement(ts, p), p, ts) {
            Err(error) => Err(error),
            Ok(s) => program(ts, s.next, acc.push(s.value)),
        }
    }
}

} // verus!
