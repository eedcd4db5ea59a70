//! The syntax tree: the executable types the parser builds and the evaluator
//! walks, and beside each its mathematical model, which the contracts of the
//! crate speak of.

use vstd::prelude::*;

verus! {

/// Model of a [`Type`].
pub enum Ty {
    Int,
    Text,
    Void,
    Custom(Seq<char>),
}

/// Model of a [`Parameter`].
pub struct Param {
    pub name: Seq<char>,
    pub ty: Ty,
}

/// Model of a [`ClassField`].
pub struct Field {
    pub name: Seq<char>,
    pub ty: Ty,
}

/// Model of a [`Method`].
pub struct MethodDef {
    pub name: Seq<char>,
    pub params: Seq<Param>,
    pub ret: Ty,
    pub body: Seq<Stmt>,
}

/// Model of an [`InterfaceMethod`].
pub struct MethodSig {
    pub name: Seq<char>,
    pub params: Seq<Param>,
    pub ret: Ty,
}

/// Model of an [`Expression`].
pub enum Expr {
    Integer(i64),
    Text(Seq<char>),
    Identifier(Seq<char>),
    Binary { left: Box<Expr>, operator: BinaryOperator, right: Box<Expr> },
    FunctionCall { name: Seq<char>, arguments: Seq<Expr> },
    MethodCall { object: Box<Expr>, method: Seq<char>, arguments: Seq<Expr> },
    FieldAccess { object: Box<Expr>, field: Seq<char> },
    ObjectCreation { class_name: Seq<char> },
    StringInterpolation { parts: Seq<Part> },
}

/// Model of a [`StringPart`].
pub enum Part {
    Literal(Seq<char>),
    Expression(Expr),
}

/// Model of a [`Statement`].
#[allow(inconsistent_fields)]
pub enum Stmt {
    VariableDeclaration { name: Seq<char>, ty: Ty, value: Expr },
    FunctionDefinition { name: Seq<char>, params: Seq<Param>, ret: Ty, body: Seq<Stmt> },
    If { condition: Expr, then_branch: Seq<Stmt>, else_branch: Option<Seq<Stmt>> },
    ClassDefinition {
        name: Seq<char>,
        implements: Option<Seq<char>>,
        fields: Seq<Field>,
        methods: Seq<MethodDef>,
    },
    InterfaceDefinition { name: Seq<char>, methods: Seq<MethodSig> },
    Assignment { target: Expr, value: Expr },
    Expression(Expr),
}

/// A declared type: one of the built-in kinds, or a class by name.
#[derive(Debug, PartialEq)]
pub enum Type {
    Int,
    String,
    Void,
    Custom(String),
}

#[derive(Debug, PartialEq)]
pub struct Parameter {
    pub name: String,
    pub param_type: Type,
}

#[derive(Debug, PartialEq)]
pub struct ClassField {
    pub name: String,
    pub field_type: Type,
}

#[derive(Debug, PartialEq)]
pub struct Method {
    pub name: String,
    pub parameters: Vec<Parameter>,
    pub return_type: Type,
    pub body: Vec<Statement>,
}

#[derive(Debug, PartialEq)]
pub struct InterfaceMethod {
    pub name: String,
    pub parameters: Vec<Parameter>,
    pub return_type: Type,
}

#[derive(Debug, PartialEq)]
pub enum Expression {
    Integer(i64),
    String(String),
    Identifier(String),
    Binary { left: Box<Expression>, operator: BinaryOperator, right: Box<Expression> },
    FunctionCall { name: String, arguments: Vec<Expression> },
    MethodCall { object: Box<Expression>, method: String, arguments: Vec<Expression> },
    FieldAccess { object: Box<Expression>, field: String },
    ObjectCreation { class_name: String },
    StringInterpolation { parts: Vec<StringPart> },
}

#[derive(Debug, PartialEq)]
pub enum StringPart {
    Literal(String),
    Expression(Expression),
}

#[derive(Debug, Clone, Copy, PartialEq, Eq, Structural)]
pub enum BinaryOperator {
    Add,
    Subtract,
    Multiply,
    Divide,
    Equal,
}

#[derive(Debug, PartialEq)]
#[allow(inconsistent_fields)]
pub enum Statement {
    VariableDeclaration { name: String, var_type: Type, value: Expression },
    FunctionDefinition {
        name: String,
        parameters: Vec<Parameter>,
        return_type: Type,
        body: Vec<Statement>,
    },
    If { condition: Expression, then_branch: Vec<Statement>, else_branch: Option<Vec<Statement>> },
    ClassDefinition {
        name: String,
        implements: Option<String>,
        fields: Vec<ClassField>,
        methods: Vec<Method>,
    },
    InterfaceDefinition { name: String, methods: Vec<InterfaceMethod> },
    Assignment { target: Expression, value: Expression },
    Expression(Expression),
}

/// A whole program: its statements in source order.
#[derive(Debug)]
pub struct Program {
    pub statements: Vec<Statement>,
}

impl View for Type {
    type V = Ty;

    open spec fn view(&self) -> Ty {
        match self {
            Type::Int => Ty::Int,
            Type::String => Ty::Text,
            Type::Void => Ty::Void,
            Type::Custom(name) => Ty::Custom(name@),
        }
    }
}

impl View for Parameter {
    type V = Param;

    open spec fn view(&self) -> Param {
        Param { name: self.name@, ty: self.param_type@ }
    }
}

impl View for ClassField {
    type V = Field;

    open spec fn view(&self) -> Field {
        Field { name: self.name@, ty: self.field_type@ }
    }
}

/// The models of a parameter list, in order.
pub open spec fn parameters_view(parameters: Seq<Parameter>) -> Seq<Param> {
    parameters.map_values(|p: Parameter| p@)
}

/// The models of a field list, in order.
pub open spec fn fields_view(fields: Seq<ClassField>) -> Seq<Field> {
    fields.map_values(|f: ClassField| f@)
}

impl View for InterfaceMethod {
    type V = MethodSig;

    open spec fn view(&self) -> MethodSig {
        MethodSig {
            name: self.name@,
            params: parameters_view(self.parameters@),
            ret: self.return_type@,
        }
    }
}

/// The models of a list of method signatures, in order.
pub open spec fn signatures_view(methods: Seq<InterfaceMethod>) -> Seq<MethodSig> {
    methods.map_values(|m: InterfaceMethod| m@)
}

/// The model of an expression.
pub open spec fn expression_view(e: Expression) -> Expr
    decreases e,
{
    match e {
        Expression::Integer(n) => Expr::Integer(n),
        Expression::String(s) => Expr::Text(s@),
        Expression::Identifier(name) => Expr::Identifier(name@),
        Expression::Binary { left, operator, right } => Expr::Binary {
            left: Box::new(expression_view(*left)),
            operator,
            right: Box::new(expression_view(*right)),
        },
        Expression::FunctionCall { name, arguments } => Expr::FunctionCall {
            name: name@,
            arguments: expressions_view(arguments@),
        },
        Expression::MethodCall { object, method, arguments } => Expr::MethodCall {
            object: Box::new(expression_view(*object)),
            method: method@,
            arguments: expressions_view(arguments@),
        },
        Expression::FieldAccess { object, field } => Expr::FieldAccess {
            object: Box::new(expression_view(*object)),
            field: field@,
        },
        Expression::ObjectCreation { class_name } => Expr::ObjectCreation {
            class_name: class_name@,
        },
        Expression::StringInterpolation { parts } => Expr::StringInterpolation {
            parts: parts_view(parts@),
        },
    }
}

/// The models of a list of expressions, in order.
pub open spec fn expressions_view(es: Seq<Expression>) -> Seq<Expr>
    decreases es,
{
    Seq::new(
        es.len(),
        |i: int|
            if 0 <= i < es.len() {
                expression_view(es[i])
            } else {
                Expr::Integer(0)
            },
    )
}

/// The model of one part of an interpolated string.
pub open spec fn part_view(p: StringPart) -> Part
    decreases p,
{
    match p {
        StringPart::Literal(s) => Part::Literal(s@),
        StringPart::Expression(e) => Part::Expression(expression_view(e)),
    }
}

/// The models of the parts of an interpolated string, in order.
pub open spec fn parts_view(ps: Seq<StringPart>) -> Seq<Part>
    decreases ps,
{
    Seq::new(
        ps.len(),
        |i: int|
            if 0 <= i < ps.len() {
                part_view(ps[i])
            } else {
                Part::Literal(Seq::empty())
            },
    )
}

/// The model of a statement.
pub open spec fn statement_view(s: Statement) -> Stmt
    decreases s,
{
    match s {
        Statement::VariableDeclaration { name, var_type, value } => Stmt::VariableDeclaration {
            name: name@,
            ty: var_type@,
            value: value@,
        },
        Statement::FunctionDefinition { name, parameters, return_type, body } => {
            Stmt::FunctionDefinition {
                name: name@,
                params: parameters_view(parameters@),
                ret: return_type@,
                body: statements_view(body@),
            }
        },
        Statement::If { condition, then_branch, else_branch } => Stmt::If {
            condition: condition@,
            then_branch: statements_view(then_branch@),
            else_branch: match else_branch {
                Some(block) => Some(statements_view(block@)),
                None => None,
            },
        },
        Statement::ClassDefinition { name, implements, fields, methods } => Stmt::ClassDefinition {
            name: name@,
            implements: match implements {
                Some(interface) => Some(interface@),
                None => None,
            },
            fields: fields_view(fields@),
            methods: methods_view(methods@),
        },
        Statement::InterfaceDefinition { name, methods } => Stmt::InterfaceDefinition {
            name: name@,
            methods: signatures_view(methods@),
        },
        Statement::Assignment { target, value } => Stmt::Assignment {
            target: target@,
            value: value@,
        },
        Statement::Expression(e) => Stmt::Expression(e@),
    }
}

/// The models of a list of statements, in order.
pub open spec fn statements_view(ss: Seq<Statement>) -> Seq<Stmt>
    decreases ss,
{
    Seq::new(
        ss.len(),
        |i: int|
            if 0 <= i < ss.len() {
                statement_view(ss[i])
            } else {
                Stmt::Expression(Expr::Integer(0))
            },
    )
}

/// The model of a method.
pub open spec fn method_view(m: Method) -> MethodDef
    decreases m,
{
    MethodDef {
        name: m.name@,
        params: parameters_view(m.parameters@),
        ret: m.return_type@,
        body: statements_view(m.body@),
    }
}

/// The models of a list of methods, in order.
pub open spec fn methods_view(ms: Seq<Method>) -> Seq<MethodDef>
    decreases ms,
{
    Seq::new(
        ms.len(),
        |i: int|
            if 0 <= i < ms.len() {
                method_view(ms[i])
            } else {
                MethodDef { name: Seq::empty(), params: Seq::empty(), ret: Ty::Void, body: Seq::empty() }
            },
    )
}

impl View for Expression {
    type V = Expr;

    open spec fn view(&self) -> Expr {
        expression_view(*self)
    }
}

impl View for StringPart {
    type V = Part;

    open spec fn view(&self) -> Part {
        part_view(*self)
    }
}

impl View for Statement {
    type V = Stmt;

    open spec fn view(&self) -> Stmt {
        statement_view(*self)
    }
}

impl View for Method {
    type V = MethodDef;

    open spec fn view(&self) -> MethodDef {
        method_view(*self)
    }
}

impl View for Program {
    type V = Seq<Stmt>;

    open spec fn view(&self) -> Seq<Stmt> {
        statements_view(self.statements@)
    }
}

impl Clone for Type {
    fn clone(&self) -> (out: Self)
        ensures
            out@ == self@,
    {
        match self {
            Type::Int => Type::Int,
            Type::String => Type::String,
            Type::Void => Type::Void,
            Type::Custom(name) => Type::Custom(name.clone()),
        }
    }
}

impl Clone for Parameter {
    fn clone(&self) -> (out: Self)
        ensures
            out@ == self@,
    {
        Parameter { name: self.name.clone(), param_type: self.param_type.clone() }
    }
}

impl Clone for ClassField {
    fn clone(&self) -> (out: Self)
        ensures
            out@ == self@,
    {
        ClassField { name: self.name.clone(), field_type: self.field_type.clone() }
    }
}

/// A copy of a parameter list.
pub fn clone_parameters(parameters: &Vec<Parameter>) -> (out: Vec<Parameter>)
    ensures
        parameters_view(out@) == parameters_view(parameters@),
{
    let mut out: Vec<Parameter> = Vec::new();
    let mut i: usize = 0;
    while i < parameters.len()
        invariant
            i <= parameters.len(),
            out.len() == i,
            forall|j: int| 0 <= j < i ==> out@[j]@ == parameters@[j]@,
        decreases parameters.len() - i,
    {
        out.push(parameters[i].clone());
        i += 1;
    }
    assert(parameters_view(out@) =~= parameters_view(parameters@));
    out
}

/// A copy of a field list.
pub fn clone_fields(fields: &Vec<ClassField>) -> (out: Vec<ClassField>)
    ensures
        fields_view(out@) == fields_view(fields@),
{
    let mut out: Vec<ClassField> = Vec::new();
    let mut i: usize = 0;
    while i < fields.len()
        invariant
            i <= fields.len(),
            out.len() == i,
            forall|j: int| 0 <= j < i ==> out@[j]@ == fields@[j]@,
        decreases fields.len() - i,
    {
        out.push(fields[i].clone());
        i += 1;
    }
    assert(fields_view(out@) =~= fields_view(fields@));
    out
}

impl Clone for InterfaceMethod {
    fn clone(&self) -> (out: Self)
        ensures
            out@ == self@,
    {
        InterfaceMethod {
            name: self.name.clone(),
            parameters: clone_parameters(&self.parameters),
            return_type: self.return_type.clone(),
        }
    }
}

/// A copy of a list of method signatures.
pub fn clone_signatures(methods: &Vec<InterfaceMethod>) -> (out: Vec<InterfaceMethod>)
    ensures
        signatures_view(out@) == signatures_view(methods@),
{
    let mut out: Vec<InterfaceMethod> = Vec::new();
    let mut i: usize = 0;
    while i < methods.len()
        invariant
            i <= methods.len(),
            out.len() == i,
            forall|j: int| 0 <= j < i ==> out@[j]@ == methods@[j]@,
        decreases methods.len() - i,
    {
        out.push(methods[i].clone());
        i += 1;
    }
    assert(signatures_view(out@) =~= signatures_view(methods@));
    out
}

/// A copy of an expression.
pub fn clone_expression(e: &Expression) -> (out: Expression)
    ensures
        out@ == e@,
    decreases e,
{
    match e {
        Expression::Integer(n) => Expression::Integer(*n),
        Expression::String(s) => Expression::String(s.clone()),
        Expression::Identifier(name) => Expression::Identifier(name.clone()),
        Expression::Binary { left, operator, right } => Expression::Binary {
            left: Box::new(clone_expression(left)),
            operator: *operator,
            right: Box::new(clone_expression(right)),
        },
        Expression::FunctionCall { name, arguments } => Expression::FunctionCall {
            name: name.clone(),
            arguments: clone_expressions(arguments),
        },
        Expression::MethodCall { object, method, arguments } => Expression::MethodCall {
            object: Box::new(clone_expression(object)),
            method: method.clone(),
            arguments: clone_expressions(arguments),
        },
        Expression::FieldAccess { object, field } => Expression::FieldAccess {
            object: Box::new(clone_expression(object)),
            field: field.clone(),
        },
        Expression::ObjectCreation { class_name } => Expression::ObjectCreation {
            class_name: class_name.clone(),
        },
        Expression::StringInterpolation { parts } => Expression::StringInterpolation {
            parts: clone_parts(parts),
        },
    }
}

/// A copy of a list of expressions.
pub fn clone_expressions(es: &Vec<Expression>) -> (out: Vec<Expression>)
    ensures
        expressions_view(out@) == expressions_view(es@),
    decreases es,
{
    let mut out: Vec<Expression> = Vec::new();
    let mut i: usize = 0;
    while i < es.len()
        invariant
            i <= es.len(),
            out.len() == i,
            forall|j: int| 0 <= j < i ==> out@[j]@ == es@[j]@,
        decreases es.len() - i,
    {
        out.push(clone_expression(&es[i]));
        i += 1;
    }
    assert(expressions_view(out@) =~= expressions_view(es@));
    out
}

/// A copy of the parts of an interpolated string.
pub fn clone_parts(ps: &Vec<StringPart>) -> (out: Vec<StringPart>)
    ensures
        parts_view(out@) == parts_view(ps@),
    decreases ps,
{
    let mut out: Vec<StringPart> = Vec::new();
    let mut i: usize = 0;
    while i < ps.len()
        invariant
            i <= ps.len(),
            out.len() == i,
            forall|j: int| 0 <= j < i ==> out@[j]@ == ps@[j]@,
        decreases ps.len() - i,
    {
        let part = match &ps[i] {
            StringPart::Literal(s) => StringPart::Literal(s.clone()),
            StringPart::Expression(e) => StringPart::Expression(clone_expression(e)),
        };
        out.push(part);
        i += 1;
    }
    assert(parts_view(out@) =~= parts_view(ps@));
    out
}

/// A copy of a statement.
pub fn clone_statement(s: &Statement) -> (out: Statement)
    ensures
        out@ == s@,
    decreases s,
{
    match s {
        Statement::VariableDeclaration { name, var_type, value } => {
            Statement::VariableDeclaration {
                name: name.clone(),
                var_type: var_type.clone(),
                value: clone_expression(value),
            }
        },
        Statement::FunctionDefinition { name, parameters, return_type, body } => {
            Statement::FunctionDefinition {
                name: name.clone(),
                parameters: clone_parameters(parameters),
                return_type: return_type.clone(),
                body: clone_statements(body),
            }
        },
        Statement::If { condition, then_branch, else_branch } => Statement::If {
            condition: clone_expression(condition),
            then_branch: clone_statements(then_branch),
            else_branch: match else_branch {
                Some(block) => Some(clone_statements(block)),
                None => None,
            },
        },
        Statement::ClassDefinition { name, implements, fields, methods } => {
            Statement::ClassDefinition {
                name: name.clone(),
                implements: match implements {
                    Some(interface) => Some(interface.clone()),
                    None => None,
                },
                fields: clone_fields(fields),
                methods: clone_methods(methods),
            }
        },
        Statement::InterfaceDefinition { name, methods } => Statement::InterfaceDefinition {
            name: name.clone(),
            methods: clone_signatures(methods),
        },
        Statement::Assignment { target, value } => Statement::Assignment {
            target: clone_expression(target),
            value: clone_expression(value),
        },
        Statement::Expression(e) => Statement::Expression(clone_expression(e)),
    }
}

/// A copy of a list of statements.
pub fn clone_statements(ss: &Vec<Statement>) -> (out: Vec<Statement>)
    ensures
        statements_view(out@) == statements_view(ss@),
    decreases ss,
{
    let mut out: Vec<Statement> = Vec::new();
    let mut i: usize = 0;
    while i < ss.len()
        invariant
            i <= ss.len(),
            out.len() == i,
            forall|j: int| 0 <= j < i ==> out@[j]@ == ss@[j]@,
        decreases ss.len() - i,
    {
        out.push(clone_statement(&ss[i]));
        i += 1;
    }
    assert(statements_view(out@) =~= statements_view(ss@));
    out
}

/// A copy of a list of methods.
pub fn clone_methods(ms: &Vec<Method>) -> (out: Vec<Method>)
    ensures
        methods_view(out@) == methods_view(ms@),
    decreases ms,
{
    let mut out: Vec<Method> = Vec::new();
    let mut i: usize = 0;
    while i < ms.len()
        invariant
            i <= ms.len(),
            out.len() == i,
            forall|j: int| 0 <= j < i ==> out@[j]@ == ms@[j]@,
        decreases ms.len() - i,
    {
        let m = &ms[i];
        out.push(
            Method {
                name: m.name.clone(),
                parameters: clone_parameters(&m.parameters),
                return_type: m.return_type.clone(),
                body: clone_statements(&m.body),
            },
        );
        i += 1;
    }
    assert(methods_view(out@) =~= methods_view(ms@));
    out
}

impl Clone for Expression {
    fn clone(&self) -> (out: Self)
        ensures
            out@ == self@,
    {
        clone_expression(self)
    }
}

impl Clone for StringPart {
    fn clone(&self) -> (out: Self)
        ensures
            out@ == self@,
    {
        match self {
            StringPart::Literal(s) => StringPart::Literal(s.clone()),
            StringPart::Expression(e) => StringPart::Expression(clone_expression(e)),
        }
    }
}

impl Clone for Statement {
    fn clone(&self) -> (out: Self)
        ensures
            out@ == self@,
    {
        clone_statement(self)
    }
}

impl Clone for Method {
    fn clone(&self) -> (out: Self)
        ensures
            out@ == self@,
    {
        Method {
            name: self.name.clone(),
            parameters: clone_parameters(&self.parameters),
            return_type: self.return_type.clone(),
            body: clone_statements(&self.body),
        }
    }
}

} // verus!
