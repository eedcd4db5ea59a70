//! A small statically-declared, dynamically-evaluated scripting language:
//! a tokenizer, a recursive-descent parser and a tree-walking evaluator,
//! each proved against a mathematical description of what it computes.

pub mod ast;
pub mod environment;
pub mod error;
pub mod grammar;
pub mod grammar_laws;
pub mod interpreter;
pub mod laws;
pub mod lexer;
pub mod lexer_laws;
pub mod parser;
pub mod runner;
pub mod semantics;
pub mod table;
pub mod text;
pub mod value;

pub use crate::runner::{run, Error, Run};
