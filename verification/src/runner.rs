//! The whole pipeline: source text in, printed lines and success or the
//! first error out.

use vstd::prelude::*;
use crate::error::{LexError, RuntimeError, SyntaxError};
use crate::grammar::program;
use crate::interpreter::{lines_view, Interpreter, DEFAULT_CALL_DEPTH};
use crate::lexer::{
    lex, token_kinds, tokens_view, Lexer, Tok, TokenKind,
};
use crate::parser::Parser;
use crate::semantics::{run_program, State};

verus! {

/// An error of any of the three stages.
#[derive(Debug, Clone, Copy, PartialEq, Eq, Structural)]
pub enum Error {
    Lex(LexError),
    Syntax(SyntaxError),
    Runtime(RuntimeError),
}

/// What running a source text gave: the lines it printed, in order, and
/// whether it ran to its end.
#[derive(Debug)]
pub struct Run {
    pub output: Vec<String>,
    pub result: Result<(), Error>,
}

/// What each token of a list is, places dropped.
pub open spec fn kinds_of(tokens: Seq<Tok>) -> Seq<TokenKind> {
    tokens.map_values(|t: Tok| t.kind)
}

/// What running a source text prints and how it ends: the text is
/// tokenized, the tokens are parsed, and the program is run by a fresh
/// evaluator. An error of the first two stages lets nothing run.
pub open spec fn run_text(source: Seq<char>) -> (Seq<Seq<char>>, Result<(), Error>) {
    match lex(source) {
        Err(error) => (Seq::empty(), Err(Error::Lex(error))),
        Ok(tokens) => match program(kinds_of(tokens), 0, Seq::empty()) {
            Err(error) => (Seq::empty(), Err(Error::Syntax(error))),
            Ok(tree) => {
                let end = run_program(State::initial(), tree.value, 0, DEFAULT_CALL_DEPTH as nat);
                (
                    end.state.output,
                    match end.result {
                        Ok(_) => Ok(()),
                        Err(error) => Err(Error::Runtime(error)),
                    },
                )
            },
        },
    }
}

impl Error {
    /// The text of the message: the stage, then the stage's own message.
    pub open spec fn message_text(self) -> Seq<char> {
        match self {
            Error::Lex(error) => "Lexer error: "@ + error.message_text(),
            Error::Syntax(error) => "Parser error: "@ + error.message_text(),
            Error::Runtime(error) => "Runtime error: "@ + error.message_text(),
        }
    }

    /// The message for the user.
    pub fn to_string(&self) -> (text: String)
        ensures
            text@ == self.message_text(),
    {
        match self {
            Error::Lex(error) => String::from_str("Lexer error: ").concat(
                error.to_string().as_str(),
            ),
            Error::Syntax(error) => String::from_str("Parser error: ").concat(error.message()),
            Error::Runtime(error) => String::from_str("Runtime error: ").concat(error.message()),
        }
    }
}

/// Runs a source text from tokenizing to evaluation.
pub fn run(source: &str) -> (outcome: Run)
    ensures
        (lines_view(outcome.output@), outcome.result) == run_text(source@),
{
    let mut lexer = Lexer::new(source);
    let tokens = match lexer.tokenize() {
        Err(error) => {
            let outcome = Run { output: Vec::new(), result: Err(Error::Lex(error)) };
            assert(lines_view(outcome.output@) =~= Seq::empty());
            return outcome;
        },
        Ok(tokens) => tokens,
    };
    assert(token_kinds(tokens@) =~= kinds_of(tokens_view(tokens@)));
    let mut parser = Parser::new(tokens);
    let tree = match parser.parse() {
        Err(error) => {
            let outcome = Run { output: Vec::new(), result: Err(Error::Syntax(error)) };
            assert(lines_view(outcome.output@) =~= Seq::empty());
            return outcome;
        },
        Ok(tree) => tree,
    };
    let mut interpreter = Interpreter::new();
    let result = match interpreter.interpret(tree) {
        Ok(_) => Ok(()),
        Err(error) => Err(Error::Runtime(error)),
    };
    let output = interpreter.take_output();
    Run { output, result }
}

} // verus!
