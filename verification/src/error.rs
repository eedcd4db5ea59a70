//! The errors of the three stages: tokenizing, parsing and evaluating.

use vstd::prelude::*;
use crate::text::{decimal_digits, push_decimal_digits};

verus! {

/// Why a source text could not be tokenized, with the place (line and
/// column, both counted from 1) of the token that failed.
#[derive(Debug, Clone, Copy, PartialEq, Eq, Structural)]
pub enum LexError {
    /// A character that starts no token.
    UnexpectedCharacter { character: char, line: usize, column: usize },
    /// A string literal that the input ends in.
    UnterminatedString { line: usize, column: usize },
    /// A number too large for a 64-bit signed integer.
    InvalidNumber { line: usize, column: usize },
}

/// Why a token sequence is no program: the construct that was missing.
#[derive(Debug, Clone, Copy, PartialEq, Eq, Structural)]
pub enum SyntaxError {
    ExpectedType,
    ExpectedIdentifier,
    ExpectedAssign,
    ExpectedDef,
    ExpectedFunctionName,
    ExpectedLeftParen,
    ExpectedRightParen,
    ExpectedParameterName,
    ExpectedColonAfterParameter,
    ExpectedParameterType,
    ExpectedArrow,
    ExpectedReturnType,
    ExpectedEnd,
    ExpectedIf,
    ExpectedClass,
    ExpectedClassName,
    ExpectedInterface,
    ExpectedInterfaceName,
    ExpectedInterfaceNameAfterImplements,
    ExpectedFieldName,
    ExpectedMethodName,
    ExpectedColonBeforeReturnType,
    ExpectedExpression,
    ExpectedIdentifierAfterDot,
    NewOnNonClass,
}

/// Why evaluation stopped.
#[derive(Debug, Clone, Copy, PartialEq, Eq, Structural)]
pub enum RuntimeError {
    /// A value bound to a declared type of another kind or class.
    TypeMismatch,
    /// An operator applied to operands it is not defined on.
    TypeError,
    /// A call with the wrong number of arguments.
    ArityError,
    UndefinedVariable,
    UndefinedFunction,
    ClassNotFound,
    MethodNotFound,
    FieldNotFound,
    /// An assignment to anything but a plain name.
    UnsupportedAssignmentTarget,
    DivisionByZero,
    /// A method call or field access on a value that is no object.
    NotAnObject,
    /// Calls nested deeper than the evaluator's limit.
    CallDepthExceeded,
}

impl SyntaxError {
    /// The text of the message.
    pub open spec fn message_text(self) -> Seq<char> {
        match self {
            SyntaxError::ExpectedType => "Expected type"@,
            SyntaxError::ExpectedIdentifier => "Expected identifier"@,
            SyntaxError::ExpectedAssign => "Expected '='"@,
            SyntaxError::ExpectedDef => "Expected 'def'"@,
            SyntaxError::ExpectedFunctionName => "Expected function name"@,
            SyntaxError::ExpectedLeftParen => "Expected '('"@,
            SyntaxError::ExpectedRightParen => "Expected ')'"@,
            SyntaxError::ExpectedParameterName => "Expected parameter name"@,
            SyntaxError::ExpectedColonAfterParameter => "Expected ':' after parameter name"@,
            SyntaxError::ExpectedParameterType => "Expected parameter type"@,
            SyntaxError::ExpectedArrow => "Expected '->'"@,
            SyntaxError::ExpectedReturnType => "Expected return type"@,
            SyntaxError::ExpectedEnd => "Expected 'end'"@,
            SyntaxError::ExpectedIf => "Expected 'if'"@,
            SyntaxError::ExpectedClass => "Expected 'class'"@,
            SyntaxError::ExpectedClassName => "Expected class name"@,
            SyntaxError::ExpectedInterface => "Expected 'interface'"@,
            SyntaxError::ExpectedInterfaceName => "Expected interface name"@,
            SyntaxError::ExpectedInterfaceNameAfterImplements =>
                "Expected interface name after 'implements'"@,
            SyntaxError::ExpectedFieldName => "Expected field name"@,
            SyntaxError::ExpectedMethodName => "Expected method name"@,
            SyntaxError::ExpectedColonBeforeReturnType => "Expected ':' before return type"@,
            SyntaxError::ExpectedExpression => "Expected expression"@,
            SyntaxError::ExpectedIdentifierAfterDot => "Expected identifier after '.'"@,
            SyntaxError::NewOnNonClass => "'new' can only be called on class names"@,
        }
    }

    /// The message that names the missing construct.
    pub fn message(&self) -> (text: &'static str)
        ensures
            text@ == self.message_text(),
    {
        match self {
            SyntaxError::ExpectedType => "Expected type",
            SyntaxError::ExpectedIdentifier => "Expected identifier",
            SyntaxError::ExpectedAssign => "Expected '='",
            SyntaxError::ExpectedDef => "Expected 'def'",
            SyntaxError::ExpectedFunctionName => "Expected function name",
            SyntaxError::ExpectedLeftParen => "Expected '('",
            SyntaxError::ExpectedRightParen => "Expected ')'",
            SyntaxError::ExpectedParameterName => "Expected parameter name",
            SyntaxError::ExpectedColonAfterParameter => "Expected ':' after parameter name",
            SyntaxError::ExpectedParameterType => "Expected parameter type",
            SyntaxError::ExpectedArrow => "Expected '->'",
            SyntaxError::ExpectedReturnType => "Expected return type",
            SyntaxError::ExpectedEnd => "Expected 'end'",
            SyntaxError::ExpectedIf => "Expected 'if'",
            SyntaxError::ExpectedClass => "Expected 'class'",
            SyntaxError::ExpectedClassName => "Expected class name",
            SyntaxError::ExpectedInterface => "Expected 'interface'",
            SyntaxError::ExpectedInterfaceName => "Expected interface name",
            SyntaxError::ExpectedInterfaceNameAfterImplements =>
                "Expected interface name after 'implements'",
            SyntaxError::ExpectedFieldName => "Expected field name",
            SyntaxError::ExpectedMethodName => "Expected method name",
            SyntaxError::ExpectedColonBeforeReturnType => "Expected ':' before return type",
            SyntaxError::ExpectedExpression => "Expected expression",
            SyntaxError::ExpectedIdentifierAfterDot => "Expected identifier after '.'",
            SyntaxError::NewOnNonClass => "'new' can only be called on class names",
        }
    }

    /// The message as an owned string.
    pub fn to_string(&self) -> (text: String)
        ensures
            text@ == self.message_text(),
    {
        String::from_str(self.message())
    }
}

impl RuntimeError {
    /// The text of the message.
    pub open spec fn message_text(self) -> Seq<char> {
        match self {
            RuntimeError::TypeMismatch => "Type mismatch"@,
            RuntimeError::TypeError => "Operator applied to values of the wrong type"@,
            RuntimeError::ArityError => "Wrong number of arguments"@,
            RuntimeError::UndefinedVariable => "Undefined variable"@,
            RuntimeError::UndefinedFunction => "Undefined function"@,
            RuntimeError::ClassNotFound => "Class not found"@,
            RuntimeError::MethodNotFound => "Method not found"@,
            RuntimeError::FieldNotFound => "Field not found"@,
            RuntimeError::UnsupportedAssignmentTarget =>
                "Only simple variable assignments are supported currently"@,
            RuntimeError::DivisionByZero => "Division by zero"@,
            RuntimeError::NotAnObject => "Cannot use a non-object value as an object"@,
            RuntimeError::CallDepthExceeded => "Call depth exceeded"@,
        }
    }

    /// The message that names the error.
    pub fn message(&self) -> (text: &'static str)
        ensures
            text@ == self.message_text(),
    {
        match self {
            RuntimeError::TypeMismatch => "Type mismatch",
            RuntimeError::TypeError => "Operator applied to values of the wrong type",
            RuntimeError::ArityError => "Wrong number of arguments",
            RuntimeError::UndefinedVariable => "Undefined variable",
            RuntimeError::UndefinedFunction => "Undefined function",
            RuntimeError::ClassNotFound => "Class not found",
            RuntimeError::MethodNotFound => "Method not found",
            RuntimeError::FieldNotFound => "Field not found",
            RuntimeError::UnsupportedAssignmentTarget =>
                "Only simple variable assignments are supported currently",
            RuntimeError::DivisionByZero => "Division by zero",
            RuntimeError::NotAnObject => "Cannot use a non-object value as an object",
            RuntimeError::CallDepthExceeded => "Call depth exceeded",
        }
    }

    /// The message as an owned string.
    pub fn to_string(&self) -> (text: String)
        ensures
            text@ == self.message_text(),
    {
        String::from_str(self.message())
    }
}

impl LexError {
    /// The line of the token that failed.
    pub open spec fn spec_line(&self) -> usize {
        match *self {
            LexError::UnexpectedCharacter { line, .. } => line,
            LexError::UnterminatedString { line, .. } => line,
            LexError::InvalidNumber { line, .. } => line,
        }
    }

    /// The column of the token that failed.
    pub open spec fn spec_column(&self) -> usize {
        match *self {
            LexError::UnexpectedCharacter { column, .. } => column,
            LexError::UnterminatedString { column, .. } => column,
            LexError::InvalidNumber { column, .. } => column,
        }
    }

    /// What went wrong, without the place.
    pub open spec fn summary(self) -> Seq<char> {
        match self {
            LexError::UnexpectedCharacter { character, .. } => "Unexpected character: "@.push(
                character,
            ),
            LexError::UnterminatedString { .. } => "Unterminated string"@,
            LexError::InvalidNumber { .. } => "Invalid number"@,
        }
    }

    /// The text of the message: the summary, then ` at `, the line, `:` and
    /// the column.
    pub open spec fn message_text(self) -> Seq<char> {
        self.summary() + " at "@ + decimal_digits(self.spec_line() as nat) + ":"@ + decimal_digits(
            self.spec_column() as nat,
        )
    }

    #[verifier::when_used_as_spec(spec_line)]
    pub fn line(&self) -> (line: usize)
        ensures
            line == self.spec_line(),
    {
        match self {
            LexError::UnexpectedCharacter { line, .. } => *line,
            LexError::UnterminatedString { line, .. } => *line,
            LexError::InvalidNumber { line, .. } => *line,
        }
    }

    #[verifier::when_used_as_spec(spec_column)]
    pub fn column(&self) -> (column: usize)
        ensures
            column == self.spec_column(),
    {
        match self {
            LexError::UnexpectedCharacter { column, .. } => *column,
            LexError::UnterminatedString { column, .. } => *column,
            LexError::InvalidNumber { column, .. } => *column,
        }
    }

    /// The message: the offending character, where there is one, and the
    /// place.
    pub fn to_string(&self) -> (text: String)
        ensures
            text@ == self.message_text(),
    {
        let mut text = match self {
            LexError::UnexpectedCharacter { character, .. } => {
                let mut t = String::from_str("Unexpected character: ");
                t.push(*character);
                t
            },
            LexError::UnterminatedString { .. } => String::from_str("Unterminated string"),
            LexError::InvalidNumber { .. } => String::from_str("Invalid number"),
        };
        text.append(" at ");
        push_decimal_digits(&mut text, self.line() as u64);
        text.append(":");
        push_decimal_digits(&mut text, self.column() as u64);
        text
    }
}

} // verus!
