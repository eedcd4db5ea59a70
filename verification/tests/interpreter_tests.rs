use exline::environment::Environment;
use exline::error::RuntimeError;
use exline::interpreter::{Interpreter, DEFAULT_CALL_DEPTH};
use exline::lexer::Lexer;
use exline::parser::{Expression, Parameter, Parser, Program, Statement, Type};
use exline::table::Table;
use exline::value::{ClassDefinition, InterfaceDefinition, Value};

fn program(source: &str) -> Program {
    let mut lexer = Lexer::new(source);
    let tokens = lexer.tokenize().unwrap();
    let mut parser = Parser::new(tokens);
    parser.parse().unwrap()
}

fn run_in(interpreter: &mut Interpreter, source: &str) -> Result<(), RuntimeError> {
    interpreter.interpret(program(source))
}

fn output_of(source: &str) -> Vec<String> {
    let mut interpreter = Interpreter::new();
    run_in(&mut interpreter, source).unwrap();
    interpreter.take_output()
}

fn error_of(source: &str) -> RuntimeError {
    let mut interpreter = Interpreter::new();
    run_in(&mut interpreter, source).unwrap_err()
}

fn variable(interpreter: &Interpreter, name: &str) -> Option<Value> {
    interpreter.environment().get_variable(name).cloned()
}

#[test]
fn test_variable_declaration_and_arithmetic() {
    let source = r#"
Int n1 = 1
Int n2 = 2
print(n1 + n2)
"#;

    let mut lexer = Lexer::new(source);
    let tokens = lexer.tokenize().unwrap();
    let mut parser = Parser::new(tokens);
    let program = parser.parse().unwrap();
    let mut interpreter = Interpreter::new();

    let result = interpreter.interpret(program);
    assert!(result.is_ok());
}

#[test]
fn sum_of_two_variables_prints_three() {
    assert_eq!(output_of("Int n1 = 1\nInt n2 = 2\nprint(n1 + n2)"), vec!["3"]);
}

#[test]
fn string_variable_prints_its_text() {
    assert_eq!(output_of("String name = \"Exline\"\nprint(name)"), vec!["Exline"]);
}

#[test]
fn zero_is_falsy() {
    assert_eq!(
        output_of("Int n = 0\nif n\nprint(\"yes\")\nelse\nprint(\"no\")\nend"),
        vec!["no"]
    );
}

#[test]
fn division_by_zero_binds_nothing() {
    let mut interpreter = Interpreter::new();
    assert_eq!(run_in(&mut interpreter, "Int r = 10 / 0"), Err(RuntimeError::DivisionByZero));
    assert_eq!(variable(&interpreter, "r"), None);
    assert_eq!(RuntimeError::DivisionByZero.to_string(), "Division by zero");
    assert_eq!(RuntimeError::DivisionByZero.message(), "Division by zero");
}

#[test]
fn undeclared_field_of_a_fresh_object() {
    assert_eq!(
        error_of("class P\n Int x\nend\np = P.new()\np.y"),
        RuntimeError::FieldNotFound
    );
}

#[test]
fn fresh_object_fields_hold_zero_values() {
    assert_eq!(
        output_of(
            "class P\n Int x\n String s\n Q q\n void v\nend\nP p = P.new()\nprint(p.x)\nprint(p.s)\nprint(p.q)\nprint(p.v)\nprint(p)"
        ),
        vec!["0", "", "void", "void", "<P object>"]
    );
}

#[test]
fn truthiness() {
    let then_taken = |prelude: &str, condition: &str| {
        let source =
            format!("{}\nif {}\nprint(\"then\")\nelse\nprint(\"else\")\nend", prelude, condition);
        output_of(&source) == vec!["then"]
    };
    assert!(then_taken("", "1"));
    assert!(then_taken("", "0 - 5"));
    assert!(!then_taken("", "0"));
    assert!(then_taken("", "\"a\""));
    assert!(!then_taken("", "\"\""));
    assert!(then_taken("class C\nend", "C.new()"));
    assert!(!then_taken("def f() -> Int\nend\nclass C\n void v\nend\nc = C.new()", "c.v"));
}

#[test]
fn if_without_else_on_a_falsy_condition_does_nothing() {
    assert_eq!(output_of("if 0\nprint(1)\nend\nprint(2)"), vec!["2"]);
}

#[test]
fn arithmetic() {
    assert_eq!(output_of("print(7 - 10)"), vec!["-3"]);
    assert_eq!(output_of("print(6 * 7)"), vec!["42"]);
    assert_eq!(output_of("print(7 / 2)"), vec!["3"]);
    assert_eq!(output_of("print((0 - 7) / 2)"), vec!["-3"]);
    assert_eq!(output_of("print(7 / (0 - 2))"), vec!["-3"]);
    assert_eq!(output_of("print((0 - 7) / (0 - 2))"), vec!["3"]);
    assert_eq!(output_of("print(1 + 2 * 3)"), vec!["7"]);
    assert_eq!(output_of("print(\"ab\" + \"cd\")"), vec!["abcd"]);
}

#[test]
fn arithmetic_wraps() {
    assert_eq!(
        output_of("print(9223372036854775807 + 1)"),
        vec!["-9223372036854775808"]
    );
    assert_eq!(
        output_of("print(0 - 9223372036854775807 - 2)"),
        vec!["9223372036854775807"]
    );
    assert_eq!(output_of("print(4611686018427387904 * 4)"), vec!["0"]);
    assert_eq!(
        output_of("print((0 - 9223372036854775807 - 1) / (0 - 1))"),
        vec!["-9223372036854775808"]
    );
}

#[test]
fn operators_on_the_wrong_kinds() {
    assert_eq!(error_of("1 + \"a\""), RuntimeError::TypeError);
    assert_eq!(error_of("\"a\" - \"b\""), RuntimeError::TypeError);
    assert_eq!(error_of("\"a\" * 2"), RuntimeError::TypeError);
    assert_eq!(error_of("\"a\" / 2"), RuntimeError::TypeError);
    assert_eq!(error_of("\"a\" / 0"), RuntimeError::TypeError);
}

#[test]
fn equality_gives_one_or_zero() {
    assert_eq!(output_of("print(2 == 2)"), vec!["1"]);
    assert_eq!(output_of("print(2 == 3)"), vec!["0"]);
    assert_eq!(output_of("print(\"a\" == \"a\")"), vec!["1"]);
    assert_eq!(output_of("print(\"a\" == \"b\")"), vec!["0"]);
    assert_eq!(output_of("print(1 == \"1\")"), vec!["0"]);
    assert_eq!(output_of("class C\nend\nc = C.new()\nprint(c == c)"), vec!["0"]);
}

#[test]
fn dividing_by_zero_is_an_error_for_every_dividend() {
    for dividend in ["0", "1", "(0 - 1)", "9223372036854775807", "(0 - 9223372036854775807 - 1)"] {
        assert_eq!(error_of(&format!("{} / 0", dividend)), RuntimeError::DivisionByZero);
    }
}

#[test]
fn declared_type_must_match() {
    assert_eq!(error_of("Int x = \"a\""), RuntimeError::TypeMismatch);
    assert_eq!(error_of("String x = 1"), RuntimeError::TypeMismatch);
    assert_eq!(
        error_of("class A\nend\nclass B\nend\nA a = B.new()"),
        RuntimeError::TypeMismatch
    );
    assert_eq!(error_of("class A\nend\nInt a = A.new()"), RuntimeError::TypeMismatch);
}

#[test]
fn declaration_binds_the_value_of_its_expression() {
    let mut interpreter = Interpreter::new();
    run_in(&mut interpreter, "Int x = 2 * 21\nString s = \"a\" + \"b\"\nInt x = 5").unwrap();
    assert_eq!(variable(&interpreter, "x"), Some(Value::Integer(5)));
    assert_eq!(variable(&interpreter, "s"), Some(Value::String("ab".to_string())));
}

#[test]
fn assignment_is_not_checked_against_a_declaration() {
    let mut interpreter = Interpreter::new();
    run_in(&mut interpreter, "Int x = 1\nx = \"now a string\"").unwrap();
    assert_eq!(variable(&interpreter, "x"), Some(Value::String("now a string".to_string())));
}

#[test]
fn assignment_to_a_field_is_not_supported() {
    assert_eq!(
        error_of("class P\n Int x\nend\np = P.new()\np.x = 1"),
        RuntimeError::UnsupportedAssignmentTarget
    );
}

#[test]
fn undefined_names() {
    assert_eq!(error_of("x"), RuntimeError::UndefinedVariable);
    assert_eq!(error_of("f()"), RuntimeError::UndefinedFunction);
    assert_eq!(error_of("x = Nope.new()"), RuntimeError::ClassNotFound);
}

#[test]
fn interpolation_replaces_the_first_marker() {
    assert_eq!(output_of("Int n = 42\nprint(\"n is #{n}!\")"), vec!["n is 42!"]);
    assert_eq!(
        output_of("String a = \"x\"\nString b = \"y\"\nprint(\"#{a} and #{b}\")"),
        vec!["x and #{b}"]
    );
}

#[test]
fn unresolved_marker_is_left_as_it_is() {
    assert_eq!(output_of("print(\"hello #{nobody}\")"), vec!["hello #{nobody}"]);
    assert_eq!(output_of("Int b = 1\nprint(\"#{a} #{b}\")"), vec!["#{a} #{b}"]);
    assert_eq!(output_of("print(\"#{open\")"), vec!["#{open"]);
    assert_eq!(output_of("print(\"no marker }\")"), vec!["no marker }"]);
}

#[test]
fn marker_after_a_stray_brace() {
    assert_eq!(output_of("Int x = 7\nprint(\"}#{x}\")"), vec!["}7"]);
}

#[test]
fn print_takes_exactly_one_argument() {
    assert_eq!(error_of("print()"), RuntimeError::ArityError);
    assert_eq!(error_of("print(1 2)"), RuntimeError::ArityError);
}

#[test]
fn print_returns_the_empty_string() {
    assert_eq!(output_of("String s = print(1)\nprint(s)"), vec!["1", ""]);
}

#[test]
fn rendering_of_each_kind() {
    assert_eq!(Value::Integer(-12).to_string(), "-12");
    assert_eq!(Value::Integer(0).to_string(), "0");
    assert_eq!(Value::Integer(i64::MIN).to_string(), "-9223372036854775808");
    assert_eq!(Value::Integer(i64::MAX).to_string(), "9223372036854775807");
    assert_eq!(Value::String("plain".to_string()).to_string(), "plain");
    assert_eq!(Value::Void.to_string(), "void");
    let function =
        Value::Function { parameters: vec![], return_type: Type::Int, body: vec![] };
    assert_eq!(function.to_string(), "<function>");
    let object = Value::Object { class_name: "Car".to_string(), fields: Table::new() };
    assert_eq!(object.to_string(), "<Car object>");
}

#[test]
fn kind_names() {
    assert_eq!(Value::Integer(1).kind_name(), "Int");
    assert_eq!(Value::String(String::new()).kind_name(), "String");
    assert_eq!(Value::Void.kind_name(), "Void");
    let function =
        Value::Function { parameters: vec![], return_type: Type::Int, body: vec![] };
    assert_eq!(function.kind_name(), "Function");
    let object = Value::Object { class_name: "Car".to_string(), fields: Table::new() };
    assert_eq!(object.kind_name(), "Object");
}

#[test]
fn function_call_returns_the_first_carried_value() {
    assert_eq!(
        output_of("def add(a:Int b:Int) -> Int\n a + b\n print(\"unreached\")\nend\nprint(add(2 3))"),
        vec!["5"]
    );
}

#[test]
fn function_without_carried_value_returns_the_zero_of_its_type() {
    assert_eq!(
        output_of("def i() -> Int\n Int x = 5\nend\ndef s() -> String\nend\nprint(i())\nprint(s() == \"\")"),
        vec!["0", "1"]
    );
}

#[test]
fn carried_value_bubbles_out_of_an_if() {
    assert_eq!(
        output_of("def f(n:Int) -> Int\n if n\n  1\n else\n  Int x = 0\n end\n 2\nend\nprint(f(1))\nprint(f(0))"),
        vec!["1", "2"]
    );
}

#[test]
fn function_call_errors() {
    assert_eq!(
        error_of("def f(a:Int) -> Int\n a\nend\nf()"),
        RuntimeError::ArityError
    );
    assert_eq!(
        error_of("def f(a:Int) -> Int\n a\nend\nf(1 2)"),
        RuntimeError::ArityError
    );
    assert_eq!(
        error_of("def f(a:Int) -> Int\n a\nend\nf(\"s\")"),
        RuntimeError::TypeMismatch
    );
}

#[test]
fn declared_return_type_is_not_checked() {
    assert_eq!(output_of("def f() -> Int\n \"text\"\nend\nprint(f())"), vec!["text"]);
}

#[test]
fn call_restores_the_callers_variables() {
    let mut interpreter = Interpreter::new();
    run_in(
        &mut interpreter,
        "Int a = 1\nInt keep = 7\ndef f(a:Int) -> Int\n Int local = 9\n keep = 8\n a\nend\nInt r = f(5)",
    )
    .unwrap();
    assert_eq!(variable(&interpreter, "a"), Some(Value::Integer(1)));
    assert_eq!(variable(&interpreter, "keep"), Some(Value::Integer(7)));
    assert_eq!(variable(&interpreter, "local"), None);
    assert_eq!(variable(&interpreter, "r"), Some(Value::Integer(5)));
}

#[test]
fn failed_call_restores_the_callers_variables() {
    let mut interpreter = Interpreter::new();
    let result = run_in(
        &mut interpreter,
        "Int a = 1\ndef f(a:Int) -> Int\n Int local = 9\n a / 0\nend\nf(5)",
    );
    assert_eq!(result, Err(RuntimeError::DivisionByZero));
    assert_eq!(variable(&interpreter, "a"), Some(Value::Integer(1)));
    assert_eq!(variable(&interpreter, "local"), None);
}

#[test]
fn failed_argument_restores_the_callers_variables() {
    let mut interpreter = Interpreter::new();
    let result = run_in(
        &mut interpreter,
        "def f(a:Int b:Int) -> Int\n a\nend\nf(5 \"no\")",
    );
    assert_eq!(result, Err(RuntimeError::TypeMismatch));
    assert_eq!(variable(&interpreter, "a"), None);
}

#[test]
fn callee_sees_the_callers_variables() {
    assert_eq!(
        output_of("def show() -> Int\n print(outer)\nend\nInt outer = 3\nshow()"),
        vec!["3"]
    );
}

#[test]
fn later_arguments_see_earlier_parameters() {
    assert_eq!(
        output_of("def f(a:Int b:Int) -> Int\n a + b\nend\nprint(f(4 a))"),
        vec!["8"]
    );
}

#[test]
fn definitions_made_in_a_call_stay() {
    assert_eq!(
        output_of("def outer() -> Int\n def inner() -> Int\n  11\n end\nend\nouter()\nprint(inner())"),
        vec!["11"]
    );
}

#[test]
fn recursion() {
    assert_eq!(
        output_of(
            "def fact(n:Int) -> Int\n if n\n  n * fact(n - 1)\n else\n  1\n end\nend\nprint(fact(10))"
        ),
        vec!["3628800"]
    );
}

#[test]
fn nesting_deeper_than_the_limit_is_an_error() {
    let source = "def down(n:Int) -> Int\n if n\n  down(n - 1)\n else\n  0\n end\nend\n";
    let mut interpreter = Interpreter::with_call_depth(3);
    run_in(&mut interpreter, &format!("{}print(down(2))", source)).unwrap();
    assert_eq!(interpreter.take_output(), vec!["0"]);
    assert_eq!(
        run_in(&mut interpreter, "Int kept = 1\ndown(3)"),
        Err(RuntimeError::CallDepthExceeded)
    );
    assert_eq!(variable(&interpreter, "kept"), Some(Value::Integer(1)));
    assert_eq!(variable(&interpreter, "n"), None);

    let mut none = Interpreter::with_call_depth(0);
    assert_eq!(
        run_in(&mut none, &format!("{}down(0)", source)),
        Err(RuntimeError::CallDepthExceeded)
    );
}

#[test]
fn endless_recursion_ends_in_an_error() {
    assert_eq!(DEFAULT_CALL_DEPTH, 1000);
    assert_eq!(
        error_of("def loop() -> Int\n loop()\nend\nloop()"),
        RuntimeError::CallDepthExceeded
    );
}

#[test]
fn method_call() {
    assert_eq!(
        output_of(
            "class Greeter\n String word\n def greet(name:String) : String\n  \"hi \" + name\n end\nend\ng = Greeter.new()\nprint(g.greet(\"you\"))"
        ),
        vec!["hi you"]
    );
}

#[test]
fn method_sees_this() {
    assert_eq!(
        output_of(
            "class C\n Int n\n def count() : Int\n  this.n\n end\n def show() : String\n  print(this)\n end\nend\nc = C.new()\nprint(c.count())\nc.show()"
        ),
        vec!["0", "<C object>"]
    );
}

#[test]
fn method_arguments_are_not_type_checked() {
    assert_eq!(
        output_of(
            "class C\n def echo(n:Int) : Int\n  n\n end\nend\nc = C.new()\nprint(c.echo(\"text\"))"
        ),
        vec!["text"]
    );
}

#[test]
fn first_method_of_a_name_is_the_one_called() {
    assert_eq!(
        output_of(
            "class C\n def m() : Int\n  1\n end\n def m() : Int\n  2\n end\nend\nc = C.new()\nprint(c.m())"
        ),
        vec!["1"]
    );
}

#[test]
fn method_call_errors() {
    assert_eq!(error_of("Int x = 1\nx.m()"), RuntimeError::NotAnObject);
    assert_eq!(error_of("Int x = 1\nx.f"), RuntimeError::NotAnObject);
    assert_eq!(
        error_of("class C\nend\nc = C.new()\nc.m()"),
        RuntimeError::MethodNotFound
    );
    assert_eq!(
        error_of("class C\n def m(a:Int) : Int\n  a\n end\nend\nc = C.new()\nc.m()"),
        RuntimeError::ArityError
    );
}

#[test]
fn rebinding_this_in_a_method_leaves_the_receiver() {
    let mut interpreter = Interpreter::new();
    run_in(
        &mut interpreter,
        "class C\n Int n\n def wreck() : Int\n  this = 5\n  print(this)\n end\nend\nc = C.new()\nc.wreck()\nprint(c)",
    )
    .unwrap();
    assert_eq!(interpreter.take_output(), vec!["5", "<C object>"]);
    assert_eq!(variable(&interpreter, "this"), None);
    match variable(&interpreter, "c") {
        Some(Value::Object { class_name, fields }) => {
            assert_eq!(class_name, "C");
            assert_eq!(fields.get("n"), Some(&Value::Integer(0)));
        }
        other => panic!("expected an object, got {:?}", other),
    }
}

#[test]
fn string_interpolation_expression_is_the_empty_string() {
    let mut interpreter = Interpreter::new();
    let value = interpreter
        .evaluate_expression(&Expression::StringInterpolation { parts: vec![] })
        .unwrap();
    assert_eq!(value, Value::String(String::new()));
}

#[test]
fn expression_statement_carries_its_value() {
    let mut interpreter = Interpreter::new();
    let statement = Statement::Expression(Expression::Integer(3));
    assert_eq!(interpreter.execute_statement(&statement), Ok(Some(Value::Integer(3))));
}

#[test]
fn value_operations() {
    let interpreter = Interpreter::new();
    assert_eq!(
        interpreter.add_values(Value::Integer(2), Value::Integer(3)),
        Ok(Value::Integer(5))
    );
    assert_eq!(
        interpreter.subtract_values(Value::Integer(2), Value::Integer(3)),
        Ok(Value::Integer(-1))
    );
    assert_eq!(
        interpreter.multiply_values(Value::Integer(2), Value::Integer(3)),
        Ok(Value::Integer(6))
    );
    assert_eq!(
        interpreter.divide_values(Value::Integer(7), Value::Integer(0)),
        Err(RuntimeError::DivisionByZero)
    );
    assert_eq!(
        interpreter.equal_values(Value::Void, Value::Void),
        Ok(Value::Integer(0))
    );
    assert_eq!(
        interpreter.add_values(Value::Void, Value::Integer(3)),
        Err(RuntimeError::TypeError)
    );
}

#[test]
fn fresh_environment_knows_print_only() {
    let environment = Environment::new();
    assert_eq!(
        environment.get_function("print"),
        Some(&Value::Function {
            parameters: vec![Parameter { name: "value".to_string(), param_type: Type::String }],
            return_type: Type::String,
            body: vec![],
        })
    );
    assert_eq!(environment.get_function("other"), None);
    assert_eq!(environment.get_variable("print"), None);
    assert!(environment.get_class("print").is_none());
    assert!(environment.get_interface("print").is_none());
}

#[test]
fn environment_tables_are_independent_and_last_write_wins() {
    let mut environment = Environment::new();
    environment.define_variable("x".to_string(), Value::Integer(1));
    environment.define_variable("y".to_string(), Value::Integer(2));
    environment.define_variable("x".to_string(), Value::Integer(3));
    environment.define_function("x".to_string(), Value::Void);
    assert_eq!(environment.get_variable("x"), Some(&Value::Integer(3)));
    assert_eq!(environment.get_variable("y"), Some(&Value::Integer(2)));
    assert_eq!(environment.get_function("x"), Some(&Value::Void));

    environment.define_class(
        "C".to_string(),
        ClassDefinition {
            name: "C".to_string(),
            fields: vec![],
            methods: vec![],
            implements: Some("I".to_string()),
        },
    );
    environment.define_interface(
        "I".to_string(),
        InterfaceDefinition { name: "I".to_string(), methods: vec![] },
    );
    assert_eq!(environment.get_class("C").unwrap().implements, Some("I".to_string()));
    assert_eq!(environment.get_interface("I").unwrap().name, "I");
    assert!(environment.get_class("I").is_none());
    assert!(environment.get_interface("C").is_none());
}

#[test]
fn snapshot_and_restore_bring_the_variables_back() {
    let mut environment = Environment::new();
    environment.define_variable("x".to_string(), Value::Integer(1));
    let saved = environment.snapshot();
    environment.define_variable("x".to_string(), Value::Integer(2));
    environment.define_variable("y".to_string(), Value::Integer(3));
    environment.define_function("f".to_string(), Value::Void);
    environment.restore(saved);
    assert_eq!(environment.get_variable("x"), Some(&Value::Integer(1)));
    assert_eq!(environment.get_variable("y"), None);
    assert_eq!(environment.get_function("f"), Some(&Value::Void));
}

#[test]
fn function_definitions_are_registered() {
    let mut interpreter = Interpreter::new();
    run_in(&mut interpreter, "def f() -> Int\n 1\nend").unwrap();
    assert!(interpreter.environment().get_function("f").is_some());
    assert!(interpreter.environment().get_function("g").is_none());
}

#[test]
fn a_later_definition_replaces_an_earlier_one() {
    assert_eq!(
        output_of("def f() -> Int\n 1\nend\ndef f() -> Int\n 2\nend\nprint(f())"),
        vec!["2"]
    );
}

#[test]
fn interface_conformance_is_not_checked() {
    assert_eq!(
        output_of(
            "interface Shape\n def area() : Int\nend\nclass Dot implements Shape\nend\nd = Dot.new()\nprint(d)"
        ),
        vec!["<Dot object>"]
    );
}

#[test]
fn two_interpreters_share_nothing() {
    let mut first = Interpreter::new();
    let mut second = Interpreter::new();
    run_in(&mut first, "Int x = 1\nprint(x)").unwrap();
    assert_eq!(run_in(&mut second, "print(x)"), Err(RuntimeError::UndefinedVariable));
    assert_eq!(first.output(), &vec!["1".to_string()]);
    assert!(second.output().is_empty());
}

#[test]
fn output_before_an_error_is_kept() {
    let mut interpreter = Interpreter::new();
    assert_eq!(
        run_in(&mut interpreter, "print(1)\nprint(2)\nnope"),
        Err(RuntimeError::UndefinedVariable)
    );
    assert_eq!(interpreter.take_output(), vec!["1", "2"]);
    assert!(interpreter.take_output().is_empty());
}

#[test]
fn table_lookup_and_overwrite() {
    let mut table: Table<i64> = Table::new();
    assert_eq!(table.get("a"), None);
    table.insert("a".to_string(), 1);
    table.insert("b".to_string(), 2);
    table.insert("a".to_string(), 3);
    assert_eq!(table.get("a"), Some(&3));
    assert_eq!(table.get("b"), Some(&2));
    assert_eq!(table.position("b"), Some(1));
    assert_eq!(table.position("c"), None);
    assert_eq!(table.entries.len(), 2);
}
