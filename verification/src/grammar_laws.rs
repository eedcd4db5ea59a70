//! Laws of the grammar: every construct that is read ends beyond the place
//! where it started, and a program is read to the end of its tokens.

use vstd::prelude::*;
use crate::ast::{BinaryOperator, Expr, Field, MethodDef, MethodSig, Param, Stmt};
use crate::error::SyntaxError;
use crate::grammar::{
    addition, addition_tail, after, any_type, arguments, at_end, block, call_arguments,
    class_body, equality, field, method,
    equality_tail, expression, expression_statement, interface_body, interface_definition,
    is_at, lemma_skip_separators, method_signature, multiplication, multiplication_tail,
    parameter_list, parameters, primary, program, read_identifier, simple_type,
    skip_separators, starts_declaration, statement, suffixes, terminator,
    variable_declaration, within, Parse,
};
use crate::lexer::TokenKind;

verus! {

/// A result, if it is one, ends beyond `p` and within the tokens.
pub open spec fn advances<T>(r: Parse<T>, p: int, ts: Seq<TokenKind>) -> bool {
    r matches Ok(found) ==> p < found.next <= ts.len()
}

/// A result, if it is one, ends at or beyond `p` and within the tokens.
pub open spec fn holds_place<T>(r: Parse<T>, p: int, ts: Seq<TokenKind>) -> bool {
    r matches Ok(found) ==> p <= found.next <= ts.len()
}

/// The suffixes of an expression never end before they start.
pub proof fn law_suffixes_hold_place(ts: Seq<TokenKind>, p: int, object: Expr)
    requires
        0 <= p <= ts.len(),
    ensures
        holds_place(suffixes(ts, p, object), p, ts),
    decreases ts.len() - p,
{
    if is_at(ts, p, TokenKind::Dot) && !at_end(ts, p + 1) {
        match ts[p + 1] {
            TokenKind::Identifier(name) => {
                if is_at(ts, p + 2, TokenKind::LeftParen) {
                    match within(call_arguments(ts, p + 2), p + 2, ts) {
                        Err(_) => {},
                        Ok(list) => {
                            if name == "new"@ {
                                match object {
                                    Expr::Identifier(class_name) => {
                                        law_suffixes_hold_place(
                                            ts,
                                            list.next,
                                            Expr::ObjectCreation { class_name },
                                        );
                                    },
                                    _ => {},
                                }
                            } else {
                                law_suffixes_hold_place(
                                    ts,
                                    list.next,
                                    Expr::MethodCall {
                                        object: Box::new(object),
                                        method: name,
                                        arguments: list.value,
                                    },
                                );
                            }
                        },
                    }
                } else {
                    law_suffixes_hold_place(
                        ts,
                        p + 2,
                        Expr::FieldAccess { object: Box::new(object), field: name },
                    );
                }
            },
            _ => {},
        }
    }
}

/// The operator chains that follow a left operand never end before they
/// start.
pub proof fn law_tails_hold_place(ts: Seq<TokenKind>, p: int, left: Expr)
    requires
        0 <= p <= ts.len(),
    ensures
        holds_place(equality_tail(ts, p, left), p, ts),
        holds_place(addition_tail(ts, p, left), p, ts),
        holds_place(multiplication_tail(ts, p, left), p, ts),
    decreases ts.len() - p,
{
    match within(addition(ts, p + 1), p + 1, ts) {
        Ok(right) => {
            if 0 <= right.next <= ts.len() {
                law_tails_hold_place(
                    ts,
                    right.next,
                    Expr::Binary {
                        left: Box::new(left),
                        operator: BinaryOperator::Equal,
                        right: Box::new(right.value),
                    },
                );
            }
        },
        Err(_) => {},
    }
    match within(multiplication(ts, p + 1), p + 1, ts) {
        Ok(right) => {
            if 0 <= right.next <= ts.len() {
                law_tails_hold_place(
                    ts,
                    right.next,
                    Expr::Binary {
                        left: Box::new(left),
                        operator: BinaryOperator::Add,
                        right: Box::new(right.value),
                    },
                );
                law_tails_hold_place(
                    ts,
                    right.next,
                    Expr::Binary {
                        left: Box::new(left),
                        operator: BinaryOperator::Subtract,
                        right: Box::new(right.value),
                    },
                );
            }
        },
        Err(_) => {},
    }
    match within(primary(ts, p + 1), p + 1, ts) {
        Ok(right) => {
            if 0 <= right.next <= ts.len() {
                law_tails_hold_place(
                    ts,
                    right.next,
                    Expr::Binary {
                        left: Box::new(left),
                        operator: BinaryOperator::Multiply,
                        right: Box::new(right.value),
                    },
                );
                law_tails_hold_place(
                    ts,
                    right.next,
                    Expr::Binary {
                        left: Box::new(left),
                        operator: BinaryOperator::Divide,
                        right: Box::new(right.value),
                    },
                );
            }
        },
        Err(_) => {},
    }
}

/// An expression that is read takes at least one token, at every level of
/// precedence.
pub proof fn law_expression_advances(ts: Seq<TokenKind>, p: int)
    requires
        0 <= p <= ts.len(),
    ensures
        advances(primary(ts, p), p, ts),
        advances(multiplication(ts, p), p, ts),
        advances(addition(ts, p), p, ts),
        advances(equality(ts, p), p, ts),
        advances(expression(ts, p), p, ts),
{
    if !at_end(ts, p) {
        match ts[p] {
            TokenKind::Integer(n) => {
                law_suffixes_hold_place(ts, p + 1, Expr::Integer(n));
            },
            TokenKind::Text(s) => {
                law_suffixes_hold_place(ts, p + 1, Expr::Text(s));
            },
            TokenKind::Identifier(name) => {
                if is_at(ts, p + 1, TokenKind::LeftParen) {
                    match within(call_arguments(ts, p + 1), p + 1, ts) {
                        Ok(list) => {
                            law_suffixes_hold_place(
                                ts,
                                list.next,
                                Expr::FunctionCall { name, arguments: list.value },
                            );
                        },
                        Err(_) => {},
                    }
                } else {
                    law_suffixes_hold_place(ts, p + 1, Expr::Identifier(name));
                }
            },
            TokenKind::LeftParen => {
                match within(expression(ts, p + 1), p + 1, ts) {
                    Ok(inner) => {
                        if is_at(ts, inner.next, TokenKind::RightParen) {
                            law_suffixes_hold_place(ts, inner.next + 1, inner.value);
                        }
                    },
                    Err(_) => {},
                }
            },
            _ => {},
        }
    }
    match within(primary(ts, p), p, ts) {
        Ok(left) => {
            law_tails_hold_place(ts, left.next, left.value);
        },
        Err(_) => {},
    }
    match within(multiplication(ts, p), p, ts) {
        Ok(left) => {
            law_tails_hold_place(ts, left.next, left.value);
        },
        Err(_) => {},
    }
    match within(addition(ts, p), p, ts) {
        Ok(left) => {
            law_tails_hold_place(ts, left.next, left.value);
        },
        Err(_) => {},
    }
}

/// An argument list never ends before it starts, and with its parentheses
/// takes at least two tokens.
pub proof fn law_arguments_hold_place(ts: Seq<TokenKind>, p: int, acc: Seq<Expr>)
    requires
        0 <= p <= ts.len(),
    ensures
        holds_place(arguments(ts, p, acc), p, ts),
        advances(call_arguments(ts, p), p + 1, ts),
    decreases ts.len() - p,
{
    if !is_at(ts, p, TokenKind::RightParen) {
        match within(expression(ts, p), p, ts) {
            Ok(argument) => {
                law_arguments_hold_place(ts, argument.next, acc.push(argument.value));
            },
            Err(_) => {},
        }
    }
}

/// A parameter list that is read takes at least one token.
pub proof fn law_parameters_advance(ts: Seq<TokenKind>, p: int, acc: Seq<Param>, classes: bool)
    requires
        0 <= p <= ts.len(),
    ensures
        advances(parameters(ts, p, acc, classes), p, ts),
        advances(parameter_list(ts, p, classes), p + 1, ts),
    decreases ts.len() - p,
{
    reveal(parameter_list);
    match read_identifier(ts, p) {
        None => {},
        Some(name) => {
            let q = after(ts, p);
            if is_at(ts, q, TokenKind::Colon) {
                let ty = if classes {
                    any_type(ts, q + 1)
                } else {
                    simple_type(
                        ts,
                        q + 1,
                        SyntaxError::ExpectedParameterType,
                    )
                };
                match ty {
                    Ok(ty) => {
                        if !is_at(ts, ty.next, TokenKind::RightParen) && p
                            < ty.next <= ts.len() {
                            lemma_skip_separators(ts, ty.next);
                            law_parameters_advance(
                                ts,
                                skip_separators(ts, ty.next),
                                acc.push(Param { name, ty: ty.value }),
                                classes,
                            );
                        }
                    },
                    Err(_) => {},
                }
            }
        },
    }
    if is_at(ts, p, TokenKind::LeftParen) && !is_at(
        ts,
        p + 1,
        TokenKind::RightParen,
    ) {
        law_parameters_advance(ts, p + 1, Seq::empty(), classes);
    }
}

/// A statement that is read takes at least one token.
pub proof fn law_statement_advances(ts: Seq<TokenKind>, p: int)
    requires
        0 <= p <= ts.len(),
    ensures
        advances(statement(ts, p), p, ts),
        within(statement(ts, p), p, ts) == statement(ts, p),
{
    reveal(variable_declaration);
    reveal(expression_statement);
    reveal(interface_definition);
    if starts_declaration(ts, p) {
        let q = after(ts, p + 1);
        if 0 <= q + 1 <= ts.len() {
            law_expression_advances(ts, q + 1);
        }
    } else if is_at(ts, p, TokenKind::Def) {
    } else if is_at(ts, p, TokenKind::If) {
    } else if is_at(ts, p, TokenKind::Class) {
    } else if is_at(ts, p, TokenKind::Interface) {
        let q = terminator(ts, after(ts, p + 1));
        law_interface_body_holds_place(ts, q, Seq::empty());
    } else {
        law_expression_advances(ts, p);
        match expression(ts, p) {
            Ok(first) => {
                if is_at(ts, first.next, TokenKind::Assign) {
                    law_expression_advances(ts, first.next + 1);
                }
            },
            Err(_) => {},
        }
    }
}

/// The headings of an interface never end before they start.
pub proof fn law_interface_body_holds_place(ts: Seq<TokenKind>, p: int, acc: Seq<MethodSig>)
    requires
        0 <= p <= ts.len(),
    ensures
        holds_place(interface_body(ts, p, acc), p, ts),
    decreases ts.len() - p,
{
    if at_end(ts, p) || is_at(ts, p, TokenKind::End) {
    } else if is_at(ts, p, TokenKind::Newline) {
        law_interface_body_holds_place(ts, p + 1, acc);
    } else {
        match within(method_signature(ts, p), p, ts) {
            Ok(m) => {
                law_interface_body_holds_place(ts, m.next, acc.push(m.value));
            },
            Err(_) => {},
        }
    }
}

/// A program that is read is read to the end: no token is left over.
pub proof fn law_program_reads_everything(ts: Seq<TokenKind>, p: int, acc: Seq<Stmt>)
    requires
        0 <= p <= ts.len(),
    ensures
        program(ts, p, acc) matches Ok(tree) ==> p <= tree.next <= ts.len() && at_end(
            ts,
            tree.next,
        ),
    decreases ts.len() - p,
{
    if at_end(ts, p) {
    } else if is_at(ts, p, TokenKind::Newline) {
        law_program_reads_everything(ts, p + 1, acc);
    } else {
        match within(statement(ts, p), p, ts) {
            Ok(s) => {
                law_program_reads_everything(ts, s.next, acc.push(s.value));
            },
            Err(_) => {},
        }
    }
}

/// A block never ends before it starts.
pub proof fn law_block_holds_place(ts: Seq<TokenKind>, p: int, acc: Seq<Stmt>, or_else: bool)
    requires
        0 <= p <= ts.len(),
    ensures
        holds_place(block(ts, p, acc, or_else), p, ts),
    decreases ts.len() - p,
{
    if at_end(ts, p) || is_at(ts, p, TokenKind::End) || (or_else && is_at(
        ts,
        p,
        TokenKind::Else,
    )) {
    } else if is_at(ts, p, TokenKind::Newline) {
        law_block_holds_place(ts, p + 1, acc, or_else);
    } else {
        match within(statement(ts, p), p, ts) {
            Ok(s) => {
                law_block_holds_place(ts, s.next, acc.push(s.value), or_else);
            },
            Err(_) => {},
        }
    }
}

/// A method heading, a method and, before the end of the tokens, a field
/// each take at least one token.
pub proof fn law_members_advance(ts: Seq<TokenKind>, p: int)
    requires
        0 <= p <= ts.len(),
    ensures
        advances(method_signature(ts, p), p, ts),
        advances(method(ts, p), p, ts),
        !at_end(ts, p) ==> advances(field(ts, p), p, ts),
{
    reveal(method_signature);
    reveal(field);
    if is_at(ts, p, TokenKind::Def) {
        law_parameters_advance(ts, after(ts, p + 1), Seq::empty(), true);
    }
}

/// The members of a class never end before they start.
pub proof fn law_class_body_holds_place(
    ts: Seq<TokenKind>,
    p: int,
    fields: Seq<Field>,
    methods: Seq<MethodDef>,
)
    requires
        0 <= p <= ts.len(),
    ensures
        holds_place(class_body(ts, p, fields, methods), p, ts),
    decreases ts.len() - p,
{
    if at_end(ts, p) || is_at(ts, p, TokenKind::End) {
    } else if is_at(ts, p, TokenKind::Newline) {
        law_class_body_holds_place(ts, p + 1, fields, methods);
    } else if is_at(ts, p, TokenKind::Def) {
        match within(method(ts, p), p, ts) {
            Ok(m) => {
                law_class_body_holds_place(ts, m.next, fields, methods.push(m.value));
            },
            Err(_) => {},
        }
    } else {
        match within(field(ts, p), p, ts) {
            Ok(f) => {
                law_class_body_holds_place(ts, f.next, fields.push(f.value), methods);
            },
            Err(_) => {},
        }
    }
}

/// The grammar's test on a sub-result, which makes its recursion
/// well-founded, never rejects anything: wherever the grammar applies it,
/// what it tests holds.
pub proof fn law_within_rejects_nothing(ts: Seq<TokenKind>, p: int, or_else: bool, classes: bool)
    requires
        0 <= p < ts.len(),
    ensures
        within(primary(ts, p), p, ts) == primary(ts, p),
        within(multiplication(ts, p), p, ts) == multiplication(ts, p),
        within(addition(ts, p), p, ts) == addition(ts, p),
        within(expression(ts, p), p, ts) == expression(ts, p),
        within(expression(ts, p + 1), p, ts) == expression(ts, p + 1),
        within(arguments(ts, p + 1, Seq::empty()), p, ts) == arguments(ts, p + 1, Seq::empty()),
        within(call_arguments(ts, p), p, ts) == call_arguments(ts, p),
        within(statement(ts, p), p, ts) == statement(ts, p),
        within(method_signature(ts, p), p, ts) == method_signature(ts, p),
        within(method(ts, p), p, ts) == method(ts, p),
        !at_end(ts, p) ==> within(field(ts, p), p, ts) == field(ts, p),
        forall|q: int|
            p < q <= ts.len() ==> within(#[trigger] block(ts, q, Seq::empty(), or_else), p, ts)
                == block(ts, q, Seq::empty(), or_else),
        forall|q: int|
            p < q <= ts.len() ==> within(
                #[trigger] class_body(ts, q, Seq::empty(), Seq::empty()),
                p,
                ts,
            ) == class_body(ts, q, Seq::empty(), Seq::empty()),
        forall|q: int|
            p < q <= ts.len() ==> within(#[trigger] parameter_list(ts, q, classes), p, ts)
                == parameter_list(ts, q, classes),
{
    law_expression_advances(ts, p);
    law_expression_advances(ts, p + 1);
    law_arguments_hold_place(ts, p + 1, Seq::empty());
    law_arguments_hold_place(ts, p, Seq::empty());
    law_statement_advances(ts, p);
    law_members_advance(ts, p);
    assert forall|q: int| p < q <= ts.len() implies within(
        #[trigger] block(ts, q, Seq::empty(), or_else),
        p,
        ts,
    ) == block(ts, q, Seq::empty(), or_else) by {
        law_block_holds_place(ts, q, Seq::empty(), or_else);
    }
    assert forall|q: int| p < q <= ts.len() implies within(
        #[trigger] class_body(ts, q, Seq::empty(), Seq::empty()),
        p,
        ts,
    ) == class_body(ts, q, Seq::empty(), Seq::empty()) by {
        law_class_body_holds_place(ts, q, Seq::empty(), Seq::empty());
    }
    assert forall|q: int| p < q <= ts.len() implies within(
        #[trigger] parameter_list(ts, q, classes),
        p,
        ts,
    ) == parameter_list(ts, q, classes) by {
        law_parameters_advance(ts, q, Seq::empty(), classes);
    }
}

} // verus!
