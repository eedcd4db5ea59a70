//! The recursive-descent parser: from tokens to a program, or to the first
//! syntax error. Nothing is recovered from: an error ends the parse.

use vstd::prelude::*;
use crate::error::SyntaxError;
use crate::grammar::{
    addition, addition_tail, after, any_type, arguments, at_end, block, call_arguments,
    class_body, class_definition, equality, equality_tail, expression, expression_statement,
    field, function_definition, if_statement, interface_body, interface_definition, is_at,
    is_capitalized, method, method_signature, multiplication, multiplication_tail,
    parameter_list, parameters, parsed, primary, program, read_identifier, simple_type,
    skip_separators, statement, suffixes, terminator, variable_declaration, Parse, Parsed,
};
use crate::lexer::{token_kinds, Token, TokenKind, TokenType};
use crate::text::{char_is_upper, same_text};

pub use crate::ast::{
    BinaryOperator, ClassField, Expression, InterfaceMethod, Method, Parameter, Program,
    Statement, StringPart, Type,
};
use crate::ast::{
    expressions_view, fields_view, methods_view, parameters_view, signatures_view,
    statements_view, Expr, Field, MethodDef, MethodSig, Param, Stmt, Ty,
};

verus! {

/// The model of what a step that reads an expression returns.
pub open spec fn expression_read(r: Result<Expression, SyntaxError>, next: int) -> Parse<Expr> {
    match r {
        Ok(e) => parsed(e@, next),
        Err(error) => Err(error),
    }
}

/// The model of what a step that reads a list of expressions returns.
pub open spec fn expressions_read(r: Result<Vec<Expression>, SyntaxError>, next: int) -> Parse<
    Seq<Expr>,
> {
    match r {
        Ok(es) => parsed(expressions_view(es@), next),
        Err(error) => Err(error),
    }
}

/// The model of what a step that reads a statement returns.
pub open spec fn statement_read(r: Result<Statement, SyntaxError>, next: int) -> Parse<Stmt> {
    match r {
        Ok(s) => parsed(s@, next),
        Err(error) => Err(error),
    }
}

/// The model of what a step that reads a list of statements returns.
pub open spec fn statements_read(r: Result<Vec<Statement>, SyntaxError>, next: int) -> Parse<
    Seq<Stmt>,
> {
    match r {
        Ok(ss) => parsed(statements_view(ss@), next),
        Err(error) => Err(error),
    }
}

/// The model of what a step that reads a type returns.
pub open spec fn type_read(r: Result<Type, SyntaxError>, next: int) -> Parse<Ty> {
    match r {
        Ok(ty) => parsed(ty@, next),
        Err(error) => Err(error),
    }
}

/// The model of what a step that reads parameters returns.
pub open spec fn parameters_read(r: Result<Vec<Parameter>, SyntaxError>, next: int) -> Parse<
    Seq<Param>,
> {
    match r {
        Ok(ps) => parsed(parameters_view(ps@), next),
        Err(error) => Err(error),
    }
}

/// The model of what a step that reads a field returns.
pub open spec fn field_read(r: Result<ClassField, SyntaxError>, next: int) -> Parse<Field> {
    match r {
        Ok(f) => parsed(f@, next),
        Err(error) => Err(error),
    }
}

/// The model of what a step that reads a method returns.
pub open spec fn method_read(r: Result<Method, SyntaxError>, next: int) -> Parse<MethodDef> {
    match r {
        Ok(m) => parsed(m@, next),
        Err(error) => Err(error),
    }
}

/// The model of what a step that reads a method heading returns.
pub open spec fn signature_read(r: Result<InterfaceMethod, SyntaxError>, next: int) -> Parse<
    MethodSig,
> {
    match r {
        Ok(m) => parsed(m@, next),
        Err(error) => Err(error),
    }
}

/// The model of what parsing a program returns.
pub open spec fn program_read(r: Result<Program, SyntaxError>, next: int) -> Parse<Seq<Stmt>> {
    match r {
        Ok(p) => parsed(p@, next),
        Err(error) => Err(error),
    }
}

/// A parser over one token sequence.
pub struct Parser {
    tokens: Vec<Token>,
    current: usize,
}

impl Parser {
    #[verifier::type_invariant]
    spec fn in_bounds(self) -> bool {
        self.current <= self.tokens.len()
    }

    /// What each token is.
    pub closed spec fn kinds(&self) -> Seq<TokenKind> {
        token_kinds(self.tokens@)
    }

    /// The place of the next token to read.
    pub closed spec fn position(&self) -> int {
        self.current as int
    }

    /// A parser at the start of `tokens`.
    pub fn new(tokens: Vec<Token>) -> (parser: Self)
        ensures
            parser.kinds() == token_kinds(tokens@),
            parser.position() == 0,
    {
        Parser { tokens, current: 0 }
    }

    fn is_at_end(&self) -> (r: bool)
        ensures
            r == at_end(self.kinds(), self.position()),
            0 <= self.position() <= self.kinds().len(),
    {
        proof {
            use_type_invariant(self);
        }
        self.current >= self.tokens.len() || self.tokens[self.current].token_type.tag() == 27
    }

    fn peek(&self) -> (token: &Token)
        requires
            !at_end(self.kinds(), self.position()),
        ensures
            token.token_type@ == self.kinds()[self.position()],
    {
        &self.tokens[self.current]
    }

    fn check(&self, token_type: &TokenType) -> (r: bool)
        ensures
            r == is_at(self.kinds(), self.position(), token_type@),
            0 <= self.position() <= self.kinds().len(),
    {
        if self.is_at_end() {
            false
        } else {
            self.peek().token_type.tag() == token_type.tag()
        }
    }

    fn advance(&mut self)
        ensures
            final(self).kinds() == old(self).kinds(),
            final(self).position() == after(old(self).kinds(), old(self).position()),
            0 <= final(self).position() <= final(self).kinds().len(),
    {
        if !self.is_at_end() {
            assert(self.current < self.tokens.len());
            self.current = self.current + 1;
        }
    }

    /// The name of the identifier at the current place, which is not read.
    fn peek_identifier(&self) -> (name: Option<String>)
        ensures
            match name {
                Some(n) => !at_end(self.kinds(), self.position()) && self.kinds()[self.position()]
                    == TokenKind::Identifier(n@),
                None => at_end(self.kinds(), self.position())
                    || !(self.kinds()[self.position()] is Identifier),
            },
            0 <= self.position() <= self.kinds().len(),
    {
        if self.is_at_end() {
            None
        } else {
            match &self.peek().token_type {
                TokenType::Identifier(name) => Some(name.clone()),
                _ => None,
            }
        }
    }

    /// Reads one token and hands out its name if it is an identifier. At
    /// the end nothing is read and the last token read is looked at again.
    fn take_identifier(&mut self) -> (name: Option<String>)
        ensures
            final(self).kinds() == old(self).kinds(),
            final(self).position() == after(old(self).kinds(), old(self).position()),
            0 <= final(self).position() <= final(self).kinds().len(),
            match name {
                Some(n) => read_identifier(old(self).kinds(), old(self).position()) == Some(n@),
                None => read_identifier(old(self).kinds(), old(self).position()) is None,
            },
    {
        self.advance();
        proof {
            use_type_invariant(&*self);
        }
        if self.current == 0 {
            return None;
        }
        match &self.tokens[self.current - 1].token_type {
            TokenType::Identifier(name) => Some(name.clone()),
            _ => None,
        }
    }

    fn consume(&mut self, token_type: &TokenType, error: SyntaxError) -> (r: Result<
        (),
        SyntaxError,
    >)
        ensures
            final(self).kinds() == old(self).kinds(),
            0 <= final(self).position() <= final(self).kinds().len(),
            match r {
                Ok(_) => is_at(old(self).kinds(), old(self).position(), token_type@)
                    && final(self).position() == old(self).position() + 1,
                Err(e) => !is_at(old(self).kinds(), old(self).position(), token_type@) && e
                    == error && final(self).position() == old(self).position(),
            },
    {
        if self.check(token_type) {
            self.advance();
            Ok(())
        } else {
            Err(error)
        }
    }

    /// Takes the newline that ends a statement, if there is one; a
    /// statement that ends otherwise is accepted as it is.
    fn consume_newline_or_eof(&mut self)
        ensures
            final(self).kinds() == old(self).kinds(),
            final(self).position() == terminator(old(self).kinds(), old(self).position()),
            0 <= final(self).position() <= final(self).kinds().len(),
    {
        if self.check(&TokenType::Newline) {
            self.advance();
        }
    }
}

impl Parser {
    fn expression(&mut self) -> (r: Result<Expression, SyntaxError>)
        ensures
            final(self).kinds() == old(self).kinds(),
            expression_read(r, final(self).position()) == expression(
                old(self).kinds(),
                old(self).position(),
            ),
            r is Ok ==> old(self).position() < final(self).position() <= old(self).kinds().len(),
        decreases old(self).kinds().len() - old(self).position(), 5nat,
    {
        self.equality()
    }

    fn equality(&mut self) -> (r: Result<Expression, SyntaxError>)
        ensures
            final(self).kinds() == old(self).kinds(),
            expression_read(r, final(self).position()) == equality(
                old(self).kinds(),
                old(self).position(),
            ),
            r is Ok ==> old(self).position() < final(self).position() <= old(self).kinds().len(),
        decreases old(self).kinds().len() - old(self).position(), 4nat,
    {
        let ghost ts = self.kinds();
        let ghost start = self.position();
        let mut expr = match self.addition() {
            Err(error) => {
                return Err(error);
            },
            Ok(e) => e,
        };
        while self.check(&TokenType::Equal)
            invariant
                ts == old(self).kinds(),
                start == old(self).position(),
                self.kinds() == ts,
                start < self.position() <= ts.len(),
                equality(ts, start) == equality_tail(ts, self.position(), expr@),
            decreases ts.len() - self.position(),
        {
            self.advance();
            let right = match self.addition() {
                Err(error) => {
                    return Err(error);
                },
                Ok(e) => e,
            };
            expr = Expression::Binary {
                left: Box::new(expr),
                operator: BinaryOperator::Equal,
                right: Box::new(right),
            };
        }
        Ok(expr)
    }

    fn addition(&mut self) -> (r: Result<Expression, SyntaxError>)
        ensures
            final(self).kinds() == old(self).kinds(),
            expression_read(r, final(self).position()) == addition(
                old(self).kinds(),
                old(self).position(),
            ),
            r is Ok ==> old(self).position() < final(self).position() <= old(self).kinds().len(),
        decreases old(self).kinds().len() - old(self).position(), 3nat,
    {
        let ghost ts = self.kinds();
        let ghost start = self.position();
        let mut expr = match self.multiplication() {
            Err(error) => {
                return Err(error);
            },
            Ok(e) => e,
        };
        while self.check(&TokenType::Plus) || self.check(&TokenType::Minus)
            invariant
                ts == old(self).kinds(),
                start == old(self).position(),
                self.kinds() == ts,
                start < self.position() <= ts.len(),
                addition(ts, start) == addition_tail(ts, self.position(), expr@),
            decreases ts.len() - self.position(),
        {
            let operator = if self.check(&TokenType::Plus) {
                BinaryOperator::Add
            } else {
                BinaryOperator::Subtract
            };
            self.advance();
            let right = match self.multiplication() {
                Err(error) => {
                    return Err(error);
                },
                Ok(e) => e,
            };
            expr = Expression::Binary { left: Box::new(expr), operator, right: Box::new(right) };
        }
        Ok(expr)
    }

    fn multiplication(&mut self) -> (r: Result<Expression, SyntaxError>)
        ensures
            final(self).kinds() == old(self).kinds(),
            expression_read(r, final(self).position()) == multiplication(
                old(self).kinds(),
                old(self).position(),
            ),
            r is Ok ==> old(self).position() < final(self).position() <= old(self).kinds().len(),
        decreases old(self).kinds().len() - old(self).position(), 2nat,
    {
        let ghost ts = self.kinds();
        let ghost start = self.position();
        let mut expr = match self.primary() {
            Err(error) => {
                return Err(error);
            },
            Ok(e) => e,
        };
        while self.check(&TokenType::Multiply) || self.check(&TokenType::Divide)
            invariant
                ts == old(self).kinds(),
                start == old(self).position(),
                self.kinds() == ts,
                start < self.position() <= ts.len(),
                multiplication(ts, start) == multiplication_tail(ts, self.position(), expr@),
            decreases ts.len() - self.position(),
        {
            let operator = if self.check(&TokenType::Multiply) {
                BinaryOperator::Multiply
            } else {
                BinaryOperator::Divide
            };
            self.advance();
            let right = match self.primary() {
                Err(error) => {
                    return Err(error);
                },
                Ok(e) => e,
            };
            expr = Expression::Binary { left: Box::new(expr), operator, right: Box::new(right) };
        }
        Ok(expr)
    }

    fn primary(&mut self) -> (r: Result<Expression, SyntaxError>)
        ensures
            final(self).kinds() == old(self).kinds(),
            expression_read(r, final(self).position()) == primary(
                old(self).kinds(),
                old(self).position(),
            ),
            r is Ok ==> old(self).position() < final(self).position() <= old(self).kinds().len(),
        decreases old(self).kinds().len() - old(self).position(), 1nat,
    {
        if self.is_at_end() {
            return Err(SyntaxError::ExpectedExpression);
        }
        let token_type = self.peek().token_type.clone();
        self.advance();
        match token_type {
            TokenType::Integer(n) => self.suffixes(Expression::Integer(n)),
            TokenType::String(s) => {
                let literal = self.parse_string_with_interpolation(s);
                self.suffixes(literal)
            },
            TokenType::Identifier(name) => {
                if self.check(&TokenType::LeftParen) {
                    match self.call_arguments() {
                        Err(error) => Err(error),
                        Ok(arguments) => self.suffixes(
                            Expression::FunctionCall { name, arguments },
                        ),
                    }
                } else {
                    self.suffixes(Expression::Identifier(name))
                }
            },
            TokenType::LeftParen => {
                match self.expression() {
                    Err(error) => Err(error),
                    Ok(inner) => match self.consume(
                        &TokenType::RightParen,
                        SyntaxError::ExpectedRightParen,
                    ) {
                        Err(error) => Err(error),
                        Ok(_) => self.suffixes(inner),
                    },
                }
            },
            _ => Err(SyntaxError::ExpectedExpression),
        }
    }

    /// A string literal as an expression. Markers in it are left for the
    /// evaluator.
    fn parse_string_with_interpolation(&self, value: String) -> (e: Expression)
        ensures
            e@ == Expr::Text(value@),
    {
        Expression::String(value)
    }

    fn suffixes(&mut self, object: Expression) -> (r: Result<Expression, SyntaxError>)
        ensures
            final(self).kinds() == old(self).kinds(),
            expression_read(r, final(self).position()) == suffixes(
                old(self).kinds(),
                old(self).position(),
                object@,
            ),
            r is Ok ==> old(self).position() <= final(self).position() <= old(self).kinds().len(),
        decreases old(self).kinds().len() - old(self).position(), 0nat,
    {
        let ghost ts = self.kinds();
        let ghost start = self.position();
        proof {
            use_type_invariant(&*self);
        }
        let mut expr = object;
        while self.check(&TokenType::Dot)
            invariant
                ts == old(self).kinds(),
                start == old(self).position(),
                self.kinds() == ts,
                start <= self.position() <= ts.len(),
                suffixes(ts, start, object@) == suffixes(ts, self.position(), expr@),
            decreases ts.len() - self.position(),
        {
            self.advance();
            let name = match self.peek_identifier() {
                None => {
                    return Err(SyntaxError::ExpectedIdentifierAfterDot);
                },
                Some(name) => name,
            };
            self.advance();
            if self.check(&TokenType::LeftParen) {
                let arguments = match self.call_arguments() {
                    Err(error) => {
                        return Err(error);
                    },
                    Ok(arguments) => arguments,
                };
                if same_text(name.as_str(), "new") {
                    match expr {
                        Expression::Identifier(class_name) => {
                            expr = Expression::ObjectCreation { class_name };
                        },
                        _ => {
                            return Err(SyntaxError::NewOnNonClass);
                        },
                    }
                } else {
                    expr = Expression::MethodCall {
                        object: Box::new(expr),
                        method: name,
                        arguments,
                    };
                }
            } else {
                expr = Expression::FieldAccess { object: Box::new(expr), field: name };
            }
        }
        Ok(expr)
    }

    fn call_arguments(&mut self) -> (r: Result<Vec<Expression>, SyntaxError>)
        ensures
            final(self).kinds() == old(self).kinds(),
            expressions_read(r, final(self).position()) == call_arguments(
                old(self).kinds(),
                old(self).position(),
            ),
            r is Ok ==> old(self).position() < final(self).position() <= old(self).kinds().len(),
        decreases old(self).kinds().len() - old(self).position(), 7nat,
    {
        match self.consume(&TokenType::LeftParen, SyntaxError::ExpectedLeftParen) {
            Err(error) => {
                return Err(error);
            },
            Ok(_) => {},
        }
        let arguments = match self.arguments() {
            Err(error) => {
                return Err(error);
            },
            Ok(arguments) => arguments,
        };
        match self.consume(&TokenType::RightParen, SyntaxError::ExpectedRightParen) {
            Err(error) => Err(error),
            Ok(_) => Ok(arguments),
        }
    }

    fn arguments(&mut self) -> (r: Result<Vec<Expression>, SyntaxError>)
        ensures
            final(self).kinds() == old(self).kinds(),
            expressions_read(r, final(self).position()) == arguments(
                old(self).kinds(),
                old(self).position(),
                Seq::empty(),
            ),
            r is Ok ==> old(self).position() <= final(self).position() <= old(self).kinds().len(),
        decreases old(self).kinds().len() - old(self).position(), 6nat,
    {
        let ghost ts = self.kinds();
        let ghost start = self.position();
        proof {
            use_type_invariant(&*self);
        }
        let mut list: Vec<Expression> = Vec::new();
        assert(expressions_view(list@) =~= Seq::empty());
        while !self.check(&TokenType::RightParen)
            invariant
                ts == old(self).kinds(),
                start == old(self).position(),
                self.kinds() == ts,
                start <= self.position() <= ts.len(),
                arguments(ts, start, Seq::empty()) == arguments(
                    ts,
                    self.position(),
                    expressions_view(list@),
                ),
            decreases ts.len() - self.position(),
        {
            let ghost before = expressions_view(list@);
            let argument = match self.expression() {
                Err(error) => {
                    return Err(error);
                },
                Ok(e) => e,
            };
            list.push(argument);
            assert(expressions_view(list@) =~= before.push(argument@));
        }
        Ok(list)
    }
}

impl Parser {
    fn simple_type(&mut self, error: SyntaxError) -> (r: Result<Type, SyntaxError>)
        ensures
            final(self).kinds() == old(self).kinds(),
            type_read(r, final(self).position()) == simple_type(
                old(self).kinds(),
                old(self).position(),
                error,
            ),
            0 <= final(self).position() <= old(self).kinds().len(),
            r is Ok ==> final(self).position() == old(self).position() + 1,
    {
        if self.check(&TokenType::Int) {
            self.advance();
            Ok(Type::Int)
        } else if self.check(&TokenType::String_) {
            self.advance();
            Ok(Type::String)
        } else {
            Err(error)
        }
    }

    fn parse_type(&mut self) -> (r: Result<Type, SyntaxError>)
        ensures
            final(self).kinds() == old(self).kinds(),
            type_read(r, final(self).position()) == any_type(
                old(self).kinds(),
                old(self).position(),
            ),
            old(self).position() <= final(self).position() <= old(self).kinds().len(),
            r is Ok && !at_end(old(self).kinds(), old(self).position()) ==> final(self).position()
                == old(self).position() + 1,
    {
        if self.check(&TokenType::Int) {
            self.advance();
            Ok(Type::Int)
        } else if self.check(&TokenType::String_) {
            self.advance();
            Ok(Type::String)
        } else if self.check(&TokenType::Void) {
            self.advance();
            Ok(Type::Void)
        } else {
            match self.take_identifier() {
                Some(name) => Ok(Type::Custom(name)),
                None => Err(SyntaxError::ExpectedType),
            }
        }
    }

    fn skip_separators(&mut self)
        ensures
            final(self).kinds() == old(self).kinds(),
            final(self).position() == skip_separators(old(self).kinds(), old(self).position()),
            old(self).position() <= final(self).position() <= old(self).kinds().len(),
    {
        let ghost ts = self.kinds();
        let ghost start = self.position();
        proof {
            use_type_invariant(&*self);
        }
        let identifier = TokenType::Identifier(String::new());
        while !self.check(&identifier) && !self.check(&TokenType::RightParen) && !self.is_at_end()
            invariant
                self.kinds() == ts,
                identifier@ is Identifier,
                start <= self.position() <= ts.len(),
                skip_separators(ts, start) == skip_separators(ts, self.position()),
            decreases ts.len() - self.position(),
        {
            self.advance();
        }
    }

    fn parameters(&mut self, classes: bool) -> (r: Result<Vec<Parameter>, SyntaxError>)
        ensures
            final(self).kinds() == old(self).kinds(),
            parameters_read(r, final(self).position()) == parameters(
                old(self).kinds(),
                old(self).position(),
                Seq::empty(),
                classes,
            ),
            r is Ok ==> old(self).position() < final(self).position() <= old(self).kinds().len(),
    {
        let ghost ts = self.kinds();
        let ghost start = self.position();
        proof {
            use_type_invariant(&*self);
        }
        let mut list: Vec<Parameter> = Vec::new();
        assert(parameters_view(list@) =~= Seq::empty());
        loop
            invariant
                ts == old(self).kinds(),
                start == old(self).position(),
                self.kinds() == ts,
                start <= self.position() <= ts.len(),
                parameters(ts, start, Seq::empty(), classes) == parameters(
                    ts,
                    self.position(),
                    parameters_view(list@),
                    classes,
                ),
            decreases ts.len() - self.position(),
        {
            let ghost before = parameters_view(list@);
            let name = match self.take_identifier() {
                None => {
                    return Err(SyntaxError::ExpectedParameterName);
                },
                Some(name) => name,
            };
            match self.consume(&TokenType::Colon, SyntaxError::ExpectedColonAfterParameter) {
                Err(error) => {
                    return Err(error);
                },
                Ok(_) => {},
            }
            let parsed_type = if classes {
                self.parse_type()
            } else {
                self.simple_type(SyntaxError::ExpectedParameterType)
            };
            let param_type = match parsed_type {
                Err(error) => {
                    return Err(error);
                },
                Ok(ty) => ty,
            };
            let parameter = Parameter { name, param_type };
            list.push(parameter);
            assert(parameters_view(list@) =~= before.push(parameter@));
            if self.check(&TokenType::RightParen) {
                return Ok(list);
            }
            self.skip_separators();
        }
    }

    fn parameter_list(&mut self, classes: bool) -> (r: Result<Vec<Parameter>, SyntaxError>)
        ensures
            final(self).kinds() == old(self).kinds(),
            parameters_read(r, final(self).position()) == parameter_list(
                old(self).kinds(),
                old(self).position(),
                classes,
            ),
            r is Ok ==> old(self).position() < final(self).position() <= old(self).kinds().len(),
    {
        reveal(parameter_list);
        match self.consume(&TokenType::LeftParen, SyntaxError::ExpectedLeftParen) {
            Err(error) => {
                return Err(error);
            },
            Ok(_) => {},
        }
        let list = if self.check(&TokenType::RightParen) {
            let list: Vec<Parameter> = Vec::new();
            assert(parameters_view(list@) =~= Seq::empty());
            list
        } else {
            match self.parameters(classes) {
                Err(error) => {
                    return Err(error);
                },
                Ok(list) => list,
            }
        };
        match self.consume(&TokenType::RightParen, SyntaxError::ExpectedRightParen) {
            Err(error) => Err(error),
            Ok(_) => Ok(list),
        }
    }

    fn at_capitalized_identifier(&self) -> (r: bool)
        ensures
            r == (!at_end(self.kinds(), self.position()) && self.kinds()[self.position()]
                is Identifier && is_capitalized(self.kinds()[self.position()]->Identifier_0)),
    {
        if self.is_at_end() {
            false
        } else {
            match &self.peek().token_type {
                TokenType::Identifier(name) => {
                    let text = name.as_str();
                    !text.is_empty() && char_is_upper(text.get_char(0))
                },
                _ => false,
            }
        }
    }

    fn variable_or_custom_declaration(&mut self) -> (r: Result<Statement, SyntaxError>)
        ensures
            final(self).kinds() == old(self).kinds(),
            statement_read(r, final(self).position()) == variable_declaration(
                old(self).kinds(),
                old(self).position(),
            ),
            r is Ok ==> old(self).position() < final(self).position() <= old(self).kinds().len(),
    {
        reveal(variable_declaration);
        let var_type = if self.check(&TokenType::Int) {
            self.advance();
            Type::Int
        } else if self.check(&TokenType::String_) {
            self.advance();
            Type::String
        } else {
            match self.peek_identifier() {
                Some(class) => {
                    self.advance();
                    Type::Custom(class)
                },
                None => {
                    return Err(SyntaxError::ExpectedType);
                },
            }
        };
        let name = match self.take_identifier() {
            Some(name) => name,
            None => {
                return Err(SyntaxError::ExpectedIdentifier);
            },
        };
        match self.consume(&TokenType::Assign, SyntaxError::ExpectedAssign) {
            Err(error) => {
                return Err(error);
            },
            Ok(_) => {},
        }
        let value = match self.expression() {
            Err(error) => {
                return Err(error);
            },
            Ok(value) => value,
        };
        self.consume_newline_or_eof();
        Ok(Statement::VariableDeclaration { name, var_type, value })
    }

    fn expression_statement(&mut self) -> (r: Result<Statement, SyntaxError>)
        ensures
            final(self).kinds() == old(self).kinds(),
            statement_read(r, final(self).position()) == expression_statement(
                old(self).kinds(),
                old(self).position(),
            ),
            r is Ok ==> old(self).position() < final(self).position() <= old(self).kinds().len(),
    {
        reveal(expression_statement);
        let first = match self.expression() {
            Err(error) => {
                return Err(error);
            },
            Ok(e) => e,
        };
        if self.check(&TokenType::Assign) {
            self.advance();
            let value = match self.expression() {
                Err(error) => {
                    return Err(error);
                },
                Ok(e) => e,
            };
            self.consume_newline_or_eof();
            Ok(Statement::Assignment { target: first, value })
        } else {
            self.consume_newline_or_eof();
            Ok(Statement::Expression(first))
        }
    }

    fn parse_field(&mut self) -> (r: Result<ClassField, SyntaxError>)
        ensures
            final(self).kinds() == old(self).kinds(),
            field_read(r, final(self).position()) == field(old(self).kinds(), old(self).position()),
            old(self).position() <= final(self).position() <= old(self).kinds().len(),
            r is Ok && !at_end(old(self).kinds(), old(self).position()) ==> old(self).position()
                < final(self).position(),
    {
        reveal(field);
        let field_type = match self.parse_type() {
            Err(error) => {
                return Err(error);
            },
            Ok(ty) => ty,
        };
        let name = match self.take_identifier() {
            Some(name) => name,
            None => {
                return Err(SyntaxError::ExpectedFieldName);
            },
        };
        self.consume_newline_or_eof();
        Ok(ClassField { name, field_type })
    }

    fn parse_interface_method(&mut self) -> (r: Result<InterfaceMethod, SyntaxError>)
        ensures
            final(self).kinds() == old(self).kinds(),
            signature_read(r, final(self).position()) == method_signature(
                old(self).kinds(),
                old(self).position(),
            ),
            r is Ok ==> old(self).position() < final(self).position() <= old(self).kinds().len(),
    {
        reveal(method_signature);
        match self.consume(&TokenType::Def, SyntaxError::ExpectedDef) {
            Err(error) => {
                return Err(error);
            },
            Ok(_) => {},
        }
        let name = match self.take_identifier() {
            Some(name) => name,
            None => {
                return Err(SyntaxError::ExpectedMethodName);
            },
        };
        let parameters = match self.parameter_list(true) {
            Err(error) => {
                return Err(error);
            },
            Ok(list) => list,
        };
        match self.consume(&TokenType::Colon, SyntaxError::ExpectedColonBeforeReturnType) {
            Err(error) => {
                return Err(error);
            },
            Ok(_) => {},
        }
        let return_type = match self.parse_type() {
            Err(error) => {
                return Err(error);
            },
            Ok(ty) => ty,
        };
        self.consume_newline_or_eof();
        Ok(InterfaceMethod { name, parameters, return_type })
    }

    fn interface_definition(&mut self) -> (r: Result<Statement, SyntaxError>)
        ensures
            final(self).kinds() == old(self).kinds(),
            statement_read(r, final(self).position()) == interface_definition(
                old(self).kinds(),
                old(self).position(),
            ),
            r is Ok ==> old(self).position() < final(self).position() <= old(self).kinds().len(),
    {
        reveal(interface_definition);
        match self.consume(&TokenType::Interface, SyntaxError::ExpectedInterface) {
            Err(error) => {
                return Err(error);
            },
            Ok(_) => {},
        }
        let name = match self.take_identifier() {
            Some(name) => name,
            None => {
                return Err(SyntaxError::ExpectedInterfaceName);
            },
        };
        self.consume_newline_or_eof();
        let methods = match self.interface_methods() {
            Err(error) => {
                return Err(error);
            },
            Ok(methods) => methods,
        };
        match self.consume(&TokenType::End, SyntaxError::ExpectedEnd) {
            Err(error) => {
                return Err(error);
            },
            Ok(_) => {},
        }
        self.consume_newline_or_eof();
        Ok(Statement::InterfaceDefinition { name, methods })
    }

    fn interface_methods(&mut self) -> (r: Result<Vec<InterfaceMethod>, SyntaxError>)
        ensures
            final(self).kinds() == old(self).kinds(),
            match r {
                Ok(methods) => interface_body(old(self).kinds(), old(self).position(), Seq::empty())
                    == parsed(signatures_view(methods@), final(self).position()),
                Err(error) => interface_body(old(self).kinds(), old(self).position(), Seq::empty())
                    == Err::<Parsed<Seq<MethodSig>>, SyntaxError>(error),
            },
            r is Ok ==> old(self).position() <= final(self).position() <= old(self).kinds().len(),
    {
        let ghost ts = self.kinds();
        let ghost start = self.position();
        proof {
            use_type_invariant(&*self);
        }
        let mut methods: Vec<InterfaceMethod> = Vec::new();
        assert(signatures_view(methods@) =~= Seq::empty());
        while !self.check(&TokenType::End) && !self.is_at_end()
            invariant
                ts == old(self).kinds(),
                start == old(self).position(),
                self.kinds() == ts,
                start <= self.position() <= ts.len(),
                interface_body(ts, start, Seq::empty()) == interface_body(
                    ts,
                    self.position(),
                    signatures_view(methods@),
                ),
            decreases ts.len() - self.position(),
        {
            if self.check(&TokenType::Newline) {
                self.advance();
            } else {
                let ghost before = signatures_view(methods@);
                let m = match self.parse_interface_method() {
                    Err(error) => {
                        return Err(error);
                    },
                    Ok(m) => m,
                };
                methods.push(m);
                assert(signatures_view(methods@) =~= before.push(m@));
            }
        }
        Ok(methods)
    }
}

impl Parser {
    /// Reads a whole program from the current place to the end of the
    /// tokens. The first statement that cannot be read fails the parse.
    pub fn parse(&mut self) -> (r: Result<Program, SyntaxError>)
        ensures
            final(self).kinds() == old(self).kinds(),
            program_read(r, final(self).position()) == program(
                old(self).kinds(),
                old(self).position(),
                Seq::empty(),
            ),
    {
        let ghost ts = self.kinds();
        let ghost start = self.position();
        proof {
            use_type_invariant(&*self);
        }
        let mut statements: Vec<Statement> = Vec::new();
        assert(statements_view(statements@) =~= Seq::empty());
        while !self.is_at_end()
            invariant
                ts == old(self).kinds(),
                start == old(self).position(),
                self.kinds() == ts,
                start <= self.position() <= ts.len(),
                program(ts, start, Seq::empty()) == program(
                    ts,
                    self.position(),
                    statements_view(statements@),
                ),
            decreases ts.len() - self.position(),
        {
            if self.check(&TokenType::Newline) {
                self.advance();
            } else {
                let ghost before = statements_view(statements@);
                let statement = match self.statement() {
                    Err(error) => {
                        return Err(error);
                    },
                    Ok(statement) => statement,
                };
                statements.push(statement);
                assert(statements_view(statements@) =~= before.push(statement@));
            }
        }
        Ok(Program { statements })
    }

    fn statement(&mut self) -> (r: Result<Statement, SyntaxError>)
        ensures
            final(self).kinds() == old(self).kinds(),
            statement_read(r, final(self).position()) == statement(
                old(self).kinds(),
                old(self).position(),
            ),
            r is Ok ==> old(self).position() < final(self).position() <= old(self).kinds().len(),
        decreases old(self).kinds().len() - old(self).position(), 2nat,
    {
        if self.check(&TokenType::Int) || self.check(&TokenType::String_)
            || self.at_capitalized_identifier() {
            self.variable_or_custom_declaration()
        } else if self.check(&TokenType::Def) {
            self.function_definition()
        } else if self.check(&TokenType::If) {
            self.if_statement()
        } else if self.check(&TokenType::Class) {
            self.class_definition()
        } else if self.check(&TokenType::Interface) {
            self.interface_definition()
        } else {
            self.expression_statement()
        }
    }

    fn block(&mut self, or_else: bool) -> (r: Result<Vec<Statement>, SyntaxError>)
        ensures
            final(self).kinds() == old(self).kinds(),
            statements_read(r, final(self).position()) == block(
                old(self).kinds(),
                old(self).position(),
                Seq::empty(),
                or_else,
            ),
            r is Ok ==> old(self).position() <= final(self).position() <= old(self).kinds().len(),
        decreases old(self).kinds().len() - old(self).position(), 3nat,
    {
        let ghost ts = self.kinds();
        let ghost start = self.position();
        proof {
            use_type_invariant(&*self);
        }
        let mut statements: Vec<Statement> = Vec::new();
        assert(statements_view(statements@) =~= Seq::empty());
        while !self.is_at_end() && !self.check(&TokenType::End) && !(or_else && self.check(
            &TokenType::Else,
        ))
            invariant
                ts == old(self).kinds(),
                start == old(self).position(),
                self.kinds() == ts,
                start <= self.position() <= ts.len(),
                block(ts, start, Seq::empty(), or_else) == block(
                    ts,
                    self.position(),
                    statements_view(statements@),
                    or_else,
                ),
            decreases ts.len() - self.position(),
        {
            if self.check(&TokenType::Newline) {
                self.advance();
            } else {
                let ghost before = statements_view(statements@);
                let statement = match self.statement() {
                    Err(error) => {
                        return Err(error);
                    },
                    Ok(statement) => statement,
                };
                statements.push(statement);
                assert(statements_view(statements@) =~= before.push(statement@));
            }
        }
        Ok(statements)
    }

    fn function_definition(&mut self) -> (r: Result<Statement, SyntaxError>)
        ensures
            final(self).kinds() == old(self).kinds(),
            statement_read(r, final(self).position()) == function_definition(
                old(self).kinds(),
                old(self).position(),
            ),
            r is Ok ==> old(self).position() < final(self).position() <= old(self).kinds().len(),
        decreases old(self).kinds().len() - old(self).position(), 1nat,
    {
        match self.consume(&TokenType::Def, SyntaxError::ExpectedDef) {
            Err(error) => {
                return Err(error);
            },
            Ok(_) => {},
        }
        let name = match self.take_identifier() {
            Some(name) => name,
            None => {
                return Err(SyntaxError::ExpectedFunctionName);
            },
        };
        let parameters = match self.parameter_list(false) {
            Err(error) => {
                return Err(error);
            },
            Ok(list) => list,
        };
        match self.consume(&TokenType::Arrow, SyntaxError::ExpectedArrow) {
            Err(error) => {
                return Err(error);
            },
            Ok(_) => {},
        }
        let return_type = match self.simple_type(SyntaxError::ExpectedReturnType) {
            Err(error) => {
                return Err(error);
            },
            Ok(ty) => ty,
        };
        self.consume_newline_or_eof();
        let body = match self.block(false) {
            Err(error) => {
                return Err(error);
            },
            Ok(body) => body,
        };
        match self.consume(&TokenType::End, SyntaxError::ExpectedEnd) {
            Err(error) => {
                return Err(error);
            },
            Ok(_) => {},
        }
        self.consume_newline_or_eof();
        Ok(Statement::FunctionDefinition { name, parameters, return_type, body })
    }

    fn if_statement(&mut self) -> (r: Result<Statement, SyntaxError>)
        ensures
            final(self).kinds() == old(self).kinds(),
            statement_read(r, final(self).position()) == if_statement(
                old(self).kinds(),
                old(self).position(),
            ),
            r is Ok ==> old(self).position() < final(self).position() <= old(self).kinds().len(),
        decreases old(self).kinds().len() - old(self).position(), 1nat,
    {
        match self.consume(&TokenType::If, SyntaxError::ExpectedIf) {
            Err(error) => {
                return Err(error);
            },
            Ok(_) => {},
        }
        let condition = match self.expression() {
            Err(error) => {
                return Err(error);
            },
            Ok(e) => e,
        };
        self.consume_newline_or_eof();
        let then_branch = match self.block(true) {
            Err(error) => {
                return Err(error);
            },
            Ok(block) => block,
        };
        let else_branch = if self.check(&TokenType::Else) {
            self.advance();
            self.consume_newline_or_eof();
            match self.block(false) {
                Err(error) => {
                    return Err(error);
                },
                Ok(block) => Some(block),
            }
        } else {
            None
        };
        match self.consume(&TokenType::End, SyntaxError::ExpectedEnd) {
            Err(error) => {
                return Err(error);
            },
            Ok(_) => {},
        }
        self.consume_newline_or_eof();
        Ok(Statement::If { condition, then_branch, else_branch })
    }

    fn parse_method(&mut self) -> (r: Result<Method, SyntaxError>)
        ensures
            final(self).kinds() == old(self).kinds(),
            method_read(r, final(self).position()) == method(
                old(self).kinds(),
                old(self).position(),
            ),
            r is Ok ==> old(self).position() < final(self).position() <= old(self).kinds().len(),
        decreases old(self).kinds().len() - old(self).position(), 1nat,
    {
        let heading = match self.parse_interface_method() {
            Err(error) => {
                return Err(error);
            },
            Ok(heading) => heading,
        };
        let body = match self.block(false) {
            Err(error) => {
                return Err(error);
            },
            Ok(body) => body,
        };
        match self.consume(&TokenType::End, SyntaxError::ExpectedEnd) {
            Err(error) => {
                return Err(error);
            },
            Ok(_) => {},
        }
        self.consume_newline_or_eof();
        Ok(
            Method {
                name: heading.name,
                parameters: heading.parameters,
                return_type: heading.return_type,
                body,
            },
        )
    }

    fn class_members(&mut self) -> (r: Result<(Vec<ClassField>, Vec<Method>), SyntaxError>)
        ensures
            final(self).kinds() == old(self).kinds(),
            match r {
                Ok(members) => class_body(
                    old(self).kinds(),
                    old(self).position(),
                    Seq::empty(),
                    Seq::empty(),
                ) == parsed(
                    (fields_view(members.0@), methods_view(members.1@)),
                    final(self).position(),
                ),
                Err(error) => class_body(
                    old(self).kinds(),
                    old(self).position(),
                    Seq::empty(),
                    Seq::empty(),
                ) == Err::<Parsed<(Seq<Field>, Seq<MethodDef>)>, SyntaxError>(
                    error,
                ),
            },
            r is Ok ==> old(self).position() <= final(self).position() <= old(self).kinds().len(),
        decreases old(self).kinds().len() - old(self).position(), 3nat,
    {
        let ghost ts = self.kinds();
        let ghost start = self.position();
        proof {
            use_type_invariant(&*self);
        }
        let mut fields: Vec<ClassField> = Vec::new();
        let mut methods: Vec<Method> = Vec::new();
        assert(fields_view(fields@) =~= Seq::empty());
        assert(methods_view(methods@) =~= Seq::empty());
        while !self.check(&TokenType::End) && !self.is_at_end()
            invariant
                ts == old(self).kinds(),
                start == old(self).position(),
                self.kinds() == ts,
                start <= self.position() <= ts.len(),
                class_body(ts, start, Seq::empty(), Seq::empty()) == class_body(
                    ts,
                    self.position(),
                    fields_view(fields@),
                    methods_view(methods@),
                ),
            decreases ts.len() - self.position(),
        {
            if self.check(&TokenType::Newline) {
                self.advance();
            } else if self.check(&TokenType::Def) {
                let ghost before = methods_view(methods@);
                let m = match self.parse_method() {
                    Err(error) => {
                        return Err(error);
                    },
                    Ok(m) => m,
                };
                methods.push(m);
                assert(methods_view(methods@) =~= before.push(m@));
            } else {
                let ghost before = fields_view(fields@);
                let f = match self.parse_field() {
                    Err(error) => {
                        return Err(error);
                    },
                    Ok(f) => f,
                };
                fields.push(f);
                assert(fields_view(fields@) =~= before.push(f@));
            }
        }
        Ok((fields, methods))
    }

    fn class_definition(&mut self) -> (r: Result<Statement, SyntaxError>)
        ensures
            final(self).kinds() == old(self).kinds(),
            statement_read(r, final(self).position()) == class_definition(
                old(self).kinds(),
                old(self).position(),
            ),
            r is Ok ==> old(self).position() < final(self).position() <= old(self).kinds().len(),
        decreases old(self).kinds().len() - old(self).position(), 1nat,
    {
        match self.consume(&TokenType::Class, SyntaxError::ExpectedClass) {
            Err(error) => {
                return Err(error);
            },
            Ok(_) => {},
        }
        let name = match self.take_identifier() {
            Some(name) => name,
            None => {
                return Err(SyntaxError::ExpectedClassName);
            },
        };
        let implements = if self.check(&TokenType::Implements) {
            self.advance();
            match self.take_identifier() {
                Some(interface) => Some(interface),
                None => {
                    return Err(SyntaxError::ExpectedInterfaceNameAfterImplements);
                },
            }
        } else {
            None
        };
        self.consume_newline_or_eof();
        let members = match self.class_members() {
            Err(error) => {
                return Err(error);
            },
            Ok(members) => members,
        };
        match self.consume(&TokenType::End, SyntaxError::ExpectedEnd) {
            Err(error) => {
                return Err(error);
            },
            Ok(_) => {},
        }
        self.consume_newline_or_eof();
        Ok(Statement::ClassDefinition { name, implements, fields: members.0, methods: members.1 })
    }
}

} // verus!
