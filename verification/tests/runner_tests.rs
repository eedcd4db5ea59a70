use exline::error::{LexError, RuntimeError, SyntaxError};
use exline::{run, Error};

#[test]
fn test_basic_program() {
    let source = r#"
Int n1 = 1
Int n2 = 1
print(n1 + n2)
"#;

    let result = run(source).result;
    assert!(result.is_ok());
}

#[test]
fn test_string_variables() {
    let source = r#"
String name = "Exline"
print(name)
"#;

    let result = run(source).result;
    assert!(result.is_ok());
}

#[test]
fn run_gives_the_printed_lines() {
    let outcome = run("Int n1 = 1\nInt n2 = 1\nprint(n1 + n2)\nprint(\"done\")");
    assert_eq!(outcome.result, Ok(()));
    assert_eq!(outcome.output, vec!["2", "done"]);
}

#[test]
fn run_reports_the_stage_that_failed() {
    let lexical = run("print(1)\n@");
    assert_eq!(
        lexical.result,
        Err(Error::Lex(LexError::UnexpectedCharacter { character: '@', line: 2, column: 1 }))
    );
    assert!(lexical.output.is_empty());
    assert_eq!(
        lexical.result.unwrap_err().to_string(),
        "Lexer error: Unexpected character: @ at 2:1"
    );

    let syntactic = run("print(1)\nInt x");
    assert_eq!(syntactic.result, Err(Error::Syntax(SyntaxError::ExpectedAssign)));
    assert!(syntactic.output.is_empty());
    assert_eq!(syntactic.result.unwrap_err().to_string(), "Parser error: Expected '='");

    let runtime = run("print(1)\nInt r = 10 / 0\nprint(2)");
    assert_eq!(runtime.result, Err(Error::Runtime(RuntimeError::DivisionByZero)));
    assert_eq!(runtime.output, vec!["1"]);
    assert_eq!(runtime.result.unwrap_err().to_string(), "Runtime error: Division by zero");
}

#[test]
fn comments_and_blank_lines_run_to_nothing() {
    let outcome = run("# only a comment\n\n   \n");
    assert_eq!(outcome.result, Ok(()));
    assert!(outcome.output.is_empty());
}
