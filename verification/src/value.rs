//! Runtime values and class and interface definitions, with their models.

use vstd::prelude::*;
use crate::ast::{
    clone_fields, clone_methods, clone_parameters, clone_signatures, clone_statements,
    fields_view, methods_view, parameters_view, signatures_view, statements_view, ClassField,
    Field, InterfaceMethod, Method, MethodDef, MethodSig, Param, Parameter, Statement, Stmt, Ty,
    Type,
};
use crate::table::{entries_map, first_index, lemma_first_index, Table};
use crate::text::{decimal, decimal_string};

verus! {

/// Model of a [`Value`].
pub enum Val {
    Integer(i64),
    Text(Seq<char>),
    Function { params: Seq<Param>, ret: Ty, body: Seq<Stmt> },
    Object { class_name: Seq<char>, fields: Map<Seq<char>, Val> },
    Void,
}

/// Model of a [`ClassDefinition`].
pub struct ClassDef {
    pub name: Seq<char>,
    pub fields: Seq<Field>,
    pub methods: Seq<MethodDef>,
    pub implements: Option<Seq<char>>,
}

/// Model of an [`InterfaceDefinition`].
pub struct InterfaceDef {
    pub name: Seq<char>,
    pub methods: Seq<MethodSig>,
}

/// A runtime value. A function carries its definition and no environment;
/// an object carries the name of its class and its fields by name.
#[derive(Debug, PartialEq)]
pub enum Value {
    Integer(i64),
    String(String),
    Function { parameters: Vec<Parameter>, return_type: Type, body: Vec<Statement> },
    Object { class_name: String, fields: Table<Value> },
    Void,
}

/// A class as it was declared. The interface it names is recorded and
/// never held against the class.
#[derive(Debug)]
pub struct ClassDefinition {
    pub name: String,
    pub fields: Vec<ClassField>,
    pub methods: Vec<Method>,
    pub implements: Option<String>,
}

/// An interface as it was declared.
#[derive(Debug)]
pub struct InterfaceDefinition {
    pub name: String,
    pub methods: Vec<InterfaceMethod>,
}

/// The model of a value.
pub open spec fn value_view(v: Value) -> Val
    decreases v,
{
    match v {
        Value::Integer(n) => Val::Integer(n),
        Value::String(s) => Val::Text(s@),
        Value::Function { parameters, return_type, body } => Val::Function {
            params: parameters_view(parameters@),
            ret: return_type@,
            body: statements_view(body@),
        },
        Value::Object { class_name, fields } => Val::Object {
            class_name: class_name@,
            fields: values_map(fields.entries@),
        },
        Value::Void => Val::Void,
    }
}

/// The map from names to the models of values that a list of entries
/// stands for.
pub open spec fn values_map(entries: Seq<(String, Value)>) -> Map<Seq<char>, Val>
    decreases entries,
{
    Map::new(
        |key: Seq<char>| first_index(entries, key) < entries.len(),
        |key: Seq<char>|
            {
                let i = first_index(entries, key);
                if 0 <= i < entries.len() {
                    value_view(entries[i].1)
                } else {
                    Val::Void
                }
            },
    )
}

impl View for Value {
    type V = Val;

    open spec fn view(&self) -> Val {
        value_view(*self)
    }
}

impl View for ClassDefinition {
    type V = ClassDef;

    open spec fn view(&self) -> ClassDef {
        ClassDef {
            name: self.name@,
            fields: fields_view(self.fields@),
            methods: methods_view(self.methods@),
            implements: match self.implements {
                Some(interface) => Some(interface@),
                None => None,
            },
        }
    }
}

impl View for InterfaceDefinition {
    type V = InterfaceDef;

    open spec fn view(&self) -> InterfaceDef {
        InterfaceDef { name: self.name@, methods: signatures_view(self.methods@) }
    }
}

/// The map of a list of value entries is the generic map of the entries,
/// each value seen through its model.
pub proof fn lemma_values_map(entries: Seq<(String, Value)>)
    ensures
        values_map(entries) == entries_map(entries, |v: Value| v@),
{
    assert forall|key: Seq<char>|
        #![trigger first_index(entries, key)]
        0 <= first_index(entries, key) by {
        lemma_first_index(entries, key);
    }
    assert(values_map(entries) =~= entries_map(entries, |v: Value| v@));
}

/// Entry lists that agree on the text of each name look every name up at
/// the same place.
pub proof fn lemma_first_index_by_names<V>(
    a: Seq<(String, V)>,
    b: Seq<(String, V)>,
    key: Seq<char>,
)
    requires
        a.len() == b.len(),
        forall|j: int| 0 <= j < a.len() ==> (#[trigger] a[j]).0@ == b[j].0@,
    ensures
        first_index(a, key) == first_index(b, key),
    decreases a.len(),
{
    if a.len() > 0 {
        assert(a[0].0@ == b[0].0@);
        if a[0].0@ != key {
            let ra = a.drop_first();
            let rb = b.drop_first();
            assert forall|j: int| 0 <= j < ra.len() implies (#[trigger] ra[j]).0@ == rb[j].0@ by {
                assert(a[j + 1].0@ == b[j + 1].0@);
            }
            lemma_first_index_by_names(ra, rb, key);
        }
    }
}

/// The kind of a value, as a word.
pub open spec fn kind_text(v: Val) -> Seq<char> {
    match v {
        Val::Integer(_) => "Int"@,
        Val::Text(_) => "String"@,
        Val::Function { .. } => "Function"@,
        Val::Object { .. } => "Object"@,
        Val::Void => "Void"@,
    }
}

/// The text that stands for a value where it is printed or spliced into a
/// string: an integer in decimal, a string as it is.
pub open spec fn render(v: Val) -> Seq<char> {
    match v {
        Val::Integer(n) => decimal(n as int),
        Val::Text(s) => s,
        Val::Function { .. } => "<function>"@,
        Val::Object { class_name, .. } => "<"@ + class_name + " object>"@,
        Val::Void => "void"@,
    }
}

/// A copy of a table of values.
pub fn clone_values(table: &Table<Value>) -> (out: Table<Value>)
    ensures
        values_map(out.entries@) == values_map(table.entries@),
    decreases table,
{
    let mut entries: Vec<(String, Value)> = Vec::new();
    let mut i: usize = 0;
    while i < table.entries.len()
        invariant
            i <= table.entries.len(),
            entries.len() == i,
            forall|j: int|
                0 <= j < i ==> (#[trigger] entries@[j]).0@ == table.entries@[j].0@ && entries@[j].1@
                    == table.entries@[j].1@,
        decreases table.entries.len() - i,
    {
        let name = table.entries[i].0.clone();
        let value = clone_value(&table.entries[i].1);
        entries.push((name, value));
        i += 1;
    }
    proof {
        let a = entries@;
        let b = table.entries@;
        assert forall|key: Seq<char>|
            #![trigger first_index(a, key)]
            first_index(a, key) == first_index(b, key) && 0 <= first_index(a, key) by {
            lemma_first_index_by_names(a, b, key);
            lemma_first_index(a, key);
        }
        assert(values_map(a) =~= values_map(b));
    }
    Table { entries }
}

/// A copy of a value.
pub fn clone_value(v: &Value) -> (out: Value)
    ensures
        out@ == v@,
    decreases v,
{
    match v {
        Value::Integer(n) => Value::Integer(*n),
        Value::String(s) => Value::String(s.clone()),
        Value::Function { parameters, return_type, body } => Value::Function {
            parameters: clone_parameters(parameters),
            return_type: return_type.clone(),
            body: clone_statements(body),
        },
        Value::Object { class_name, fields } => Value::Object {
            class_name: class_name.clone(),
            fields: clone_values(fields),
        },
        Value::Void => Value::Void,
    }
}

impl Clone for Value {
    fn clone(&self) -> (out: Self)
        ensures
            out@ == self@,
    {
        clone_value(self)
    }
}

impl Clone for ClassDefinition {
    fn clone(&self) -> (out: Self)
        ensures
            out@ == self@,
    {
        ClassDefinition {
            name: self.name.clone(),
            fields: clone_fields(&self.fields),
            methods: clone_methods(&self.methods),
            implements: match &self.implements {
                Some(interface) => Some(interface.clone()),
                None => None,
            },
        }
    }
}

impl Clone for InterfaceDefinition {
    fn clone(&self) -> (out: Self)
        ensures
            out@ == self@,
    {
        InterfaceDefinition { name: self.name.clone(), methods: clone_signatures(&self.methods) }
    }
}

impl Value {
    /// The kind of the value, as a word.
    pub fn kind_name(&self) -> (name: &'static str)
        ensures
            name@ == kind_text(self@),
    {
        match self {
            Value::Integer(_) => "Int",
            Value::String(_) => "String",
            Value::Function { .. } => "Function",
            Value::Object { .. } => "Object",
            Value::Void => "Void",
        }
    }

    /// The text that stands for the value where it is printed.
    pub fn to_string(&self) -> (text: String)
        ensures
            text@ == render(self@),
    {
        match self {
            Value::Integer(n) => decimal_string(*n),
            Value::String(s) => s.clone(),
            Value::Function { .. } => String::from_str("<function>"),
            Value::Object { class_name, .. } => {
                let mut text = String::from_str("<");
                text.append(class_name.as_str());
                text.append(" object>");
                text
            },
            Value::Void => String::from_str("void"),
        }
    }
}

} // verus!
