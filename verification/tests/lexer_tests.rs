use exline::error::LexError;
use exline::lexer::{Lexer, Token, TokenType};

fn kinds(source: &str) -> Vec<TokenType> {
    let mut lexer = Lexer::new(source);
    let tokens = lexer.tokenize().unwrap();
    tokens.into_iter().map(|t| t.token_type).collect()
}

#[test]
fn test_basic_tokens() {
    let mut lexer = Lexer::new("Int n1 = 1");
    let tokens = lexer.tokenize().unwrap();

    assert_eq!(tokens[0].token_type, TokenType::Int);
    assert_eq!(tokens[1].token_type, TokenType::Identifier("n1".to_string()));
    assert_eq!(tokens[2].token_type, TokenType::Assign);
    assert_eq!(tokens[3].token_type, TokenType::Integer(1));
}

#[test]
fn test_arithmetic() {
    let mut lexer = Lexer::new("n1 + n2");
    let tokens = lexer.tokenize().unwrap();

    assert_eq!(tokens[0].token_type, TokenType::Identifier("n1".to_string()));
    assert_eq!(tokens[1].token_type, TokenType::Plus);
    assert_eq!(tokens[2].token_type, TokenType::Identifier("n2".to_string()));
}

#[test]
fn token_new_keeps_its_arguments() {
    let token = Token::new(TokenType::Arrow, 3, 7);
    assert_eq!(token.token_type, TokenType::Arrow);
    assert_eq!(token.line, 3);
    assert_eq!(token.column, 7);
}

#[test]
fn empty_input_is_one_eof() {
    let mut lexer = Lexer::new("");
    let tokens = lexer.tokenize().unwrap();
    assert_eq!(tokens.len(), 1);
    assert_eq!(tokens[0].token_type, TokenType::Eof);
    assert_eq!((tokens[0].line, tokens[0].column), (1, 1));
}

#[test]
fn positions_count_lines_and_columns_from_one() {
    let mut lexer = Lexer::new("a = 1\n  bb");
    let tokens = lexer.tokenize().unwrap();
    let places: Vec<(usize, usize)> = tokens.iter().map(|t| (t.line, t.column)).collect();
    assert_eq!(places, vec![(1, 1), (1, 3), (1, 5), (1, 6), (2, 3), (2, 5)]);
    assert_eq!(tokens[3].token_type, TokenType::Newline);
    assert_eq!(tokens[4].token_type, TokenType::Identifier("bb".to_string()));
    assert_eq!(tokens[5].token_type, TokenType::Eof);
}

#[test]
fn operators_and_delimiters() {
    assert_eq!(
        kinds("+ - * / = == ( ) -> : . }"),
        vec![
            TokenType::Plus,
            TokenType::Minus,
            TokenType::Multiply,
            TokenType::Divide,
            TokenType::Assign,
            TokenType::Equal,
            TokenType::LeftParen,
            TokenType::RightParen,
            TokenType::Arrow,
            TokenType::Colon,
            TokenType::Dot,
            TokenType::InterpolationEnd,
            TokenType::Eof,
        ]
    );
}

#[test]
fn keywords_are_told_from_identifiers() {
    assert_eq!(
        kinds("Int String def end if else class interface implements void print new _x1"),
        vec![
            TokenType::Int,
            TokenType::String_,
            TokenType::Def,
            TokenType::End,
            TokenType::If,
            TokenType::Else,
            TokenType::Class,
            TokenType::Interface,
            TokenType::Implements,
            TokenType::Void,
            TokenType::Identifier("print".to_string()),
            TokenType::Identifier("new".to_string()),
            TokenType::Identifier("_x1".to_string()),
            TokenType::Eof,
        ]
    );
}

#[test]
fn string_literal_keeps_its_text() {
    assert_eq!(
        kinds("\"Hello #{name}\""),
        vec![TokenType::String("Hello #{name}".to_string()), TokenType::Eof]
    );
}

#[test]
fn newline_inside_a_string_starts_a_line() {
    let mut lexer = Lexer::new("\"a\nb\" x");
    let tokens = lexer.tokenize().unwrap();
    assert_eq!(tokens[0].token_type, TokenType::String("a\nb".to_string()));
    assert_eq!((tokens[0].line, tokens[0].column), (1, 1));
    assert_eq!(tokens[1].token_type, TokenType::Identifier("x".to_string()));
    assert_eq!((tokens[1].line, tokens[1].column), (2, 5));
}

#[test]
fn comment_runs_to_the_end_of_the_line() {
    assert_eq!(
        kinds("a # rest of line\nb"),
        vec![
            TokenType::Identifier("a".to_string()),
            TokenType::Newline,
            TokenType::Identifier("b".to_string()),
            TokenType::Eof,
        ]
    );
}

#[test]
fn interpolation_start_outside_a_string() {
    assert_eq!(kinds("#{"), vec![TokenType::InterpolationStart, TokenType::Eof]);
}

#[test]
fn trailing_blanks_give_a_second_eof() {
    assert_eq!(
        kinds("a "),
        vec![TokenType::Identifier("a".to_string()), TokenType::Eof, TokenType::Eof]
    );
}

#[test]
fn largest_integer_is_read() {
    assert_eq!(
        kinds("9223372036854775807"),
        vec![TokenType::Integer(i64::MAX), TokenType::Eof]
    );
    assert_eq!(kinds("007"), vec![TokenType::Integer(7), TokenType::Eof]);
}

#[test]
fn integer_out_of_range_is_an_error() {
    let mut lexer = Lexer::new("x = 9223372036854775808");
    assert_eq!(
        lexer.tokenize().unwrap_err(),
        LexError::InvalidNumber { line: 1, column: 5 }
    );
}

#[test]
fn unterminated_string_is_an_error() {
    let mut lexer = Lexer::new("\n \"abc");
    let error = lexer.tokenize().unwrap_err();
    assert_eq!(error, LexError::UnterminatedString { line: 2, column: 2 });
    assert_eq!(error.to_string(), "Unterminated string at 2:2");
}

#[test]
fn unexpected_character_names_character_and_place() {
    let mut lexer = Lexer::new("a\nb @");
    let error = lexer.tokenize().unwrap_err();
    assert_eq!(error, LexError::UnexpectedCharacter { character: '@', line: 2, column: 3 });
    assert_eq!(error.to_string(), "Unexpected character: @ at 2:3");
    assert_eq!(error.line(), 2);
    assert_eq!(error.column(), 3);
}

#[test]
fn unicode_letters_make_identifiers() {
    assert_eq!(
        kinds("été"),
        vec![TokenType::Identifier("été".to_string()), TokenType::Eof]
    );
}
