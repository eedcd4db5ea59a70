use exline::error::SyntaxError;
use exline::lexer::{Lexer, Token, TokenType};
use exline::parser::{
    BinaryOperator, ClassField, Expression, InterfaceMethod, Method, Parameter, Parser, Program,
    Statement, Type,
};

fn parse(source: &str) -> Result<Program, SyntaxError> {
    let mut lexer = Lexer::new(source);
    let tokens = lexer.tokenize().unwrap();
    let mut parser = Parser::new(tokens);
    parser.parse()
}

fn statements(source: &str) -> Vec<Statement> {
    parse(source).unwrap().statements
}

fn ident(name: &str) -> Expression {
    Expression::Identifier(name.to_string())
}

fn binary(left: Expression, operator: BinaryOperator, right: Expression) -> Expression {
    Expression::Binary { left: Box::new(left), operator, right: Box::new(right) }
}

#[test]
fn test_variable_declaration() {
    let mut lexer = Lexer::new("Int n1 = 1");
    let tokens = lexer.tokenize().unwrap();
    let mut parser = Parser::new(tokens);
    let program = parser.parse().unwrap();

    assert_eq!(program.statements.len(), 1);
    if let Statement::VariableDeclaration { name, var_type, .. } = &program.statements[0] {
        assert_eq!(name, "n1");
        assert_eq!(*var_type, Type::Int);
    } else {
        panic!("Expected variable declaration");
    }
}

#[test]
fn test_arithmetic_expression() {
    let mut lexer = Lexer::new("n1 + n2");
    let tokens = lexer.tokenize().unwrap();
    let mut parser = Parser::new(tokens);
    let program = parser.parse().unwrap();

    assert_eq!(program.statements.len(), 1);
    if let Statement::Expression(Expression::Binary { operator, .. }) = &program.statements[0] {
        assert_eq!(*operator, BinaryOperator::Add);
    } else {
        panic!("Expected binary expression");
    }
}

#[test]
fn empty_token_list_is_the_empty_program() {
    let mut parser = Parser::new(Vec::new());
    assert_eq!(parser.parse().unwrap().statements, vec![]);
    let mut parser = Parser::new(vec![Token::new(TokenType::Eof, 1, 1)]);
    assert_eq!(parser.parse().unwrap().statements, vec![]);
}

#[test]
fn blank_lines_are_skipped() {
    assert_eq!(
        statements("\n\nx\n\n\ny\n"),
        vec![Statement::Expression(ident("x")), Statement::Expression(ident("y"))]
    );
}

#[test]
fn multiplication_binds_tighter_than_addition() {
    assert_eq!(
        statements("1 + 2 * 3"),
        vec![Statement::Expression(binary(
            Expression::Integer(1),
            BinaryOperator::Add,
            binary(Expression::Integer(2), BinaryOperator::Multiply, Expression::Integer(3)),
        ))]
    );
}

#[test]
fn equality_binds_loosest() {
    assert_eq!(
        statements("1 + 2 == 3"),
        vec![Statement::Expression(binary(
            binary(Expression::Integer(1), BinaryOperator::Add, Expression::Integer(2)),
            BinaryOperator::Equal,
            Expression::Integer(3),
        ))]
    );
}

#[test]
fn binary_operators_associate_to_the_left() {
    assert_eq!(
        statements("8 - 2 - 1"),
        vec![Statement::Expression(binary(
            binary(Expression::Integer(8), BinaryOperator::Subtract, Expression::Integer(2)),
            BinaryOperator::Subtract,
            Expression::Integer(1),
        ))]
    );
    assert_eq!(
        statements("8 / 2 / 2"),
        vec![Statement::Expression(binary(
            binary(Expression::Integer(8), BinaryOperator::Divide, Expression::Integer(2)),
            BinaryOperator::Divide,
            Expression::Integer(2),
        ))]
    );
}

#[test]
fn parentheses_group() {
    assert_eq!(
        statements("(1 + 2) * 3"),
        vec![Statement::Expression(binary(
            binary(Expression::Integer(1), BinaryOperator::Add, Expression::Integer(2)),
            BinaryOperator::Multiply,
            Expression::Integer(3),
        ))]
    );
}

#[test]
fn call_arguments_have_no_separator() {
    assert_eq!(
        statements("f(1 x \"s\")"),
        vec![Statement::Expression(Expression::FunctionCall {
            name: "f".to_string(),
            arguments: vec![
                Expression::Integer(1),
                ident("x"),
                Expression::String("s".to_string()),
            ],
        })]
    );
    assert_eq!(
        statements("f()"),
        vec![Statement::Expression(Expression::FunctionCall {
            name: "f".to_string(),
            arguments: vec![],
        })]
    );
}

#[test]
fn field_access_and_method_call_chain() {
    assert_eq!(
        statements("a.b.c(1).d"),
        vec![Statement::Expression(Expression::FieldAccess {
            object: Box::new(Expression::MethodCall {
                object: Box::new(Expression::FieldAccess {
                    object: Box::new(ident("a")),
                    field: "b".to_string(),
                }),
                method: "c".to_string(),
                arguments: vec![Expression::Integer(1)],
            }),
            field: "d".to_string(),
        })]
    );
}

#[test]
fn new_on_a_plain_name_creates_an_object() {
    assert_eq!(
        statements("p = Person.new()"),
        vec![Statement::Assignment {
            target: ident("p"),
            value: Expression::ObjectCreation { class_name: "Person".to_string() },
        }]
    );
    assert_eq!(
        statements("p = person.new(1 2)"),
        vec![Statement::Assignment {
            target: ident("p"),
            value: Expression::ObjectCreation { class_name: "person".to_string() },
        }]
    );
}

#[test]
fn new_on_anything_else_is_an_error() {
    assert_eq!(parse("x = a.b.new()").unwrap_err(), SyntaxError::NewOnNonClass);
    assert_eq!(
        SyntaxError::NewOnNonClass.to_string(),
        "'new' can only be called on class names"
    );
}

#[test]
fn assignment_takes_any_target() {
    assert_eq!(
        statements("a.b = 1"),
        vec![Statement::Assignment {
            target: Expression::FieldAccess {
                object: Box::new(ident("a")),
                field: "b".to_string(),
            },
            value: Expression::Integer(1),
        }]
    );
}

#[test]
fn typed_declarations() {
    assert_eq!(
        statements("String s = \"a\"\nPerson p = Person.new()"),
        vec![
            Statement::VariableDeclaration {
                name: "s".to_string(),
                var_type: Type::String,
                value: Expression::String("a".to_string()),
            },
            Statement::VariableDeclaration {
                name: "p".to_string(),
                var_type: Type::Custom("Person".to_string()),
                value: Expression::ObjectCreation { class_name: "Person".to_string() },
            },
        ]
    );
}

#[test]
fn a_capitalized_identifier_starts_a_declaration() {
    assert_eq!(parse("Person.new()").unwrap_err(), SyntaxError::ExpectedIdentifier);
    assert_eq!(parse("Person p 1").unwrap_err(), SyntaxError::ExpectedAssign);
}

#[test]
fn declaration_errors() {
    assert_eq!(parse("Int = 1").unwrap_err(), SyntaxError::ExpectedIdentifier);
    assert_eq!(parse("Int").unwrap_err(), SyntaxError::ExpectedIdentifier);
    assert_eq!(parse("Int x 1").unwrap_err(), SyntaxError::ExpectedAssign);
    assert_eq!(parse("Int x =").unwrap_err(), SyntaxError::ExpectedExpression);
    assert_eq!(SyntaxError::ExpectedAssign.to_string(), "Expected '='");
    assert_eq!(SyntaxError::ExpectedAssign.message(), "Expected '='");
}

#[test]
fn missing_terminator_is_tolerated() {
    assert_eq!(
        statements("x y"),
        vec![Statement::Expression(ident("x")), Statement::Expression(ident("y"))]
    );
}

#[test]
fn function_definition() {
    assert_eq!(
        statements("def add(a:Int b:String) -> Int\n  a\nend\n"),
        vec![Statement::FunctionDefinition {
            name: "add".to_string(),
            parameters: vec![
                Parameter { name: "a".to_string(), param_type: Type::Int },
                Parameter { name: "b".to_string(), param_type: Type::String },
            ],
            return_type: Type::Int,
            body: vec![Statement::Expression(ident("a"))],
        }]
    );
}

#[test]
fn separators_between_parameters_are_skipped() {
    assert_eq!(
        statements("def f(a:Int + * b:Int) -> String\nend"),
        vec![Statement::FunctionDefinition {
            name: "f".to_string(),
            parameters: vec![
                Parameter { name: "a".to_string(), param_type: Type::Int },
                Parameter { name: "b".to_string(), param_type: Type::Int },
            ],
            return_type: Type::String,
            body: vec![],
        }]
    );
}

#[test]
fn function_definition_errors() {
    assert_eq!(parse("def").unwrap_err(), SyntaxError::ExpectedFunctionName);
    assert_eq!(parse("def 1").unwrap_err(), SyntaxError::ExpectedFunctionName);
    assert_eq!(parse("def f").unwrap_err(), SyntaxError::ExpectedLeftParen);
    assert_eq!(parse("def f(1").unwrap_err(), SyntaxError::ExpectedParameterName);
    assert_eq!(parse("def f(a").unwrap_err(), SyntaxError::ExpectedColonAfterParameter);
    assert_eq!(parse("def f(a:").unwrap_err(), SyntaxError::ExpectedParameterType);
    assert_eq!(parse("def f(a:Foo)").unwrap_err(), SyntaxError::ExpectedParameterType);
    assert_eq!(parse("def f(a:Int").unwrap_err(), SyntaxError::ExpectedParameterName);
    assert_eq!(parse("def f()").unwrap_err(), SyntaxError::ExpectedArrow);
    assert_eq!(parse("def f() ->").unwrap_err(), SyntaxError::ExpectedReturnType);
    assert_eq!(parse("def f() -> void").unwrap_err(), SyntaxError::ExpectedReturnType);
    assert_eq!(parse("def f() -> Int\n 1\n").unwrap_err(), SyntaxError::ExpectedEnd);
}

#[test]
fn if_with_and_without_else() {
    assert_eq!(
        statements("if n\n a\nelse\n b\nend"),
        vec![Statement::If {
            condition: ident("n"),
            then_branch: vec![Statement::Expression(ident("a"))],
            else_branch: Some(vec![Statement::Expression(ident("b"))]),
        }]
    );
    assert_eq!(
        statements("if n\nend"),
        vec![Statement::If { condition: ident("n"), then_branch: vec![], else_branch: None }]
    );
}

#[test]
fn if_errors() {
    assert_eq!(parse("if").unwrap_err(), SyntaxError::ExpectedExpression);
    assert_eq!(parse("if n\n a\n").unwrap_err(), SyntaxError::ExpectedEnd);
    assert_eq!(parse("if n\n a\nelse\n b").unwrap_err(), SyntaxError::ExpectedEnd);
}

#[test]
fn class_definition() {
    assert_eq!(
        statements(
            "class Person implements Named\n  String name\n  Pet pet\n  def greet(o:Person) : void\n    o\n  end\nend"
        ),
        vec![Statement::ClassDefinition {
            name: "Person".to_string(),
            implements: Some("Named".to_string()),
            fields: vec![
                ClassField { name: "name".to_string(), field_type: Type::String },
                ClassField {
                    name: "pet".to_string(),
                    field_type: Type::Custom("Pet".to_string()),
                },
            ],
            methods: vec![Method {
                name: "greet".to_string(),
                parameters: vec![Parameter {
                    name: "o".to_string(),
                    param_type: Type::Custom("Person".to_string()),
                }],
                return_type: Type::Void,
                body: vec![Statement::Expression(ident("o"))],
            }],
        }]
    );
}

#[test]
fn class_definition_errors() {
    assert_eq!(parse("class").unwrap_err(), SyntaxError::ExpectedClassName);
    assert_eq!(
        parse("class A implements").unwrap_err(),
        SyntaxError::ExpectedInterfaceNameAfterImplements
    );
    assert_eq!(parse("class A\n Int\nend").unwrap_err(), SyntaxError::ExpectedFieldName);
    assert_eq!(parse("class A\n + x\nend").unwrap_err(), SyntaxError::ExpectedType);
    assert_eq!(parse("class A\n Int x\n").unwrap_err(), SyntaxError::ExpectedEnd);
    assert_eq!(parse("class A\n def\nend").unwrap_err(), SyntaxError::ExpectedMethodName);
    assert_eq!(
        parse("class A\n def m() Int\nend").unwrap_err(),
        SyntaxError::ExpectedColonBeforeReturnType
    );
}

#[test]
fn a_class_that_ends_after_a_type_name_misses_its_end() {
    assert_eq!(parse("class A\n Foo").unwrap_err(), SyntaxError::ExpectedEnd);
}

#[test]
fn interface_definition() {
    assert_eq!(
        statements("interface Named\n  def name() : String\n  def rename(to:String) : void\nend"),
        vec![Statement::InterfaceDefinition {
            name: "Named".to_string(),
            methods: vec![
                InterfaceMethod {
                    name: "name".to_string(),
                    parameters: vec![],
                    return_type: Type::String,
                },
                InterfaceMethod {
                    name: "rename".to_string(),
                    parameters: vec![Parameter {
                        name: "to".to_string(),
                        param_type: Type::String,
                    }],
                    return_type: Type::Void,
                },
            ],
        }]
    );
}

#[test]
fn interface_definition_errors() {
    assert_eq!(parse("interface").unwrap_err(), SyntaxError::ExpectedInterfaceName);
    assert_eq!(parse("interface A\n x\nend").unwrap_err(), SyntaxError::ExpectedDef);
    assert_eq!(parse("interface A\n").unwrap_err(), SyntaxError::ExpectedEnd);
}

#[test]
fn expression_errors() {
    assert_eq!(parse("1 +").unwrap_err(), SyntaxError::ExpectedExpression);
    assert_eq!(parse("+").unwrap_err(), SyntaxError::ExpectedExpression);
    assert_eq!(parse("(1").unwrap_err(), SyntaxError::ExpectedRightParen);
    assert_eq!(parse("a.").unwrap_err(), SyntaxError::ExpectedIdentifierAfterDot);
    assert_eq!(parse("a.1").unwrap_err(), SyntaxError::ExpectedIdentifierAfterDot);
    assert_eq!(parse("f((1)").unwrap_err(), SyntaxError::ExpectedExpression);
}

#[test]
fn an_unclosed_argument_list_is_an_error() {
    assert_eq!(parse("print(1").unwrap_err(), SyntaxError::ExpectedExpression);
    assert_eq!(parse("x = (").unwrap_err(), SyntaxError::ExpectedExpression);
    assert_eq!(parse("f(").unwrap_err(), SyntaxError::ExpectedExpression);
}

#[test]
fn a_second_parse_finds_nothing_left() {
    let mut lexer = Lexer::new("x");
    let mut parser = Parser::new(lexer.tokenize().unwrap());
    assert_eq!(parser.parse().unwrap().statements.len(), 1);
    assert_eq!(parser.parse().unwrap().statements.len(), 0);
}

#[test]
fn tokens_without_an_end_marker_are_read_to_the_last() {
    let tokens = vec![
        Token::new(TokenType::Identifier("a".to_string()), 1, 1),
        Token::new(TokenType::Dot, 1, 2),
    ];
    let mut parser = Parser::new(tokens);
    assert_eq!(parser.parse().unwrap_err(), SyntaxError::ExpectedIdentifierAfterDot);
}

#[test]
fn cloned_trees_are_equal() {
    let tree = statements("def f(a:Int) -> Int\n if a\n  a + 1\n else\n  f(a.b.c(\"x\"))\n end\nend");
    let copy: Vec<Statement> = tree.iter().map(|s| s.clone()).collect();
    assert_eq!(copy, tree);
}
