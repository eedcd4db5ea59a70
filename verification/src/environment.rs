//! The evaluator's four name tables.

use vstd::prelude::*;
use crate::ast::{Parameter, Type};
use crate::semantics::Env;
use crate::table::{entries_map, lemma_first_index, lemma_inserted_map, Table};
use crate::value::{lemma_values_map, values_map, ClassDefinition, InterfaceDefinition, Value};

verus! {

/// Variables, functions, classes and interfaces, each a flat table in
/// which the last definition of a name is the one that counts.
pub struct Environment {
    variables: Table<Value>,
    functions: Table<Value>,
    classes: Table<ClassDefinition>,
    interfaces: Table<InterfaceDefinition>,
}

impl View for Environment {
    type V = Env;

    closed spec fn view(&self) -> Env {
        Env {
            variables: values_map(self.variables.entries@),
            functions: values_map(self.functions.entries@),
            classes: entries_map(self.classes.entries@, |c: ClassDefinition| c@),
            interfaces: entries_map(self.interfaces.entries@, |i: InterfaceDefinition| i@),
        }
    }
}

impl Environment {
    /// The tables of a fresh evaluator: the built-in `print` is registered
    /// and nothing else.
    pub fn new() -> (env: Self)
        ensures
            env@ == Env::initial(),
    {
        let mut env = Environment {
            variables: Table::new(),
            functions: Table::new(),
            classes: Table::new(),
            interfaces: Table::new(),
        };
        let mut parameters: Vec<Parameter> = Vec::new();
        parameters.push(Parameter { name: String::from_str("value"), param_type: Type::String });
        let print = Value::Function { parameters, return_type: Type::String, body: Vec::new() };
        assert(print@ =~= crate::semantics::print_function()) by {
            assert(crate::ast::parameters_view(print->parameters@) =~= seq![
                crate::ast::Param { name: "value"@, ty: crate::ast::Ty::Text },
            ]);
            assert(crate::ast::statements_view(print->body@) =~= Seq::empty());
        }
        assert(values_map(env.variables.entries@) =~= Map::empty());
        assert(values_map(env.functions.entries@) =~= Map::empty());
        assert(env@.classes =~= Map::empty());
        assert(env@.interfaces =~= Map::empty());
        env.define_function(String::from_str("print"), print);
        env
    }

    /// Binds a variable, overwriting an earlier binding of the name.
    pub fn define_variable(&mut self, name: String, value: Value)
        ensures
            final(self)@ == (Env {
                variables: old(self)@.variables.insert(name@, value@),
                ..old(self)@
            }),
    {
        proof {
            lemma_values_map(self.variables.entries@);
            lemma_values_map(self.variables.inserted(name, value));
            lemma_inserted_map(self.variables, name, value, |v: Value| v@);
        }
        self.variables.insert(name, value);
    }

    /// The value a variable is bound to, if it is bound.
    pub fn get_variable(&self, name: &str) -> (found: Option<&Value>)
        ensures
            match found {
                Some(value) => self@.variables.contains_key(name@) && value@
                    == self@.variables[name@],
                None => !self@.variables.contains_key(name@),
            },
    {
        proof {
            lemma_first_index(self.variables.entries@, name@);
        }
        self.variables.get(name)
    }

    /// Registers a function, overwriting an earlier one of the name.
    pub fn define_function(&mut self, name: String, value: Value)
        ensures
            final(self)@ == (Env {
                functions: old(self)@.functions.insert(name@, value@),
                ..old(self)@
            }),
    {
        proof {
            lemma_values_map(self.functions.entries@);
            lemma_values_map(self.functions.inserted(name, value));
            lemma_inserted_map(self.functions, name, value, |v: Value| v@);
        }
        self.functions.insert(name, value);
    }

    /// What a function name is registered as, if it is registered.
    pub fn get_function(&self, name: &str) -> (found: Option<&Value>)
        ensures
            match found {
                Some(value) => self@.functions.contains_key(name@) && value@
                    == self@.functions[name@],
                None => !self@.functions.contains_key(name@),
            },
    {
        proof {
            lemma_first_index(self.functions.entries@, name@);
        }
        self.functions.get(name)
    }

    /// Registers a class, overwriting an earlier one of the name.
    pub fn define_class(&mut self, name: String, class_def: ClassDefinition)
        ensures
            final(self)@ == (Env {
                classes: old(self)@.classes.insert(name@, class_def@),
                ..old(self)@
            }),
    {
        proof {
            lemma_inserted_map(self.classes, name, class_def, |c: ClassDefinition| c@);
        }
        self.classes.insert(name, class_def);
    }

    /// The class registered under a name, if there is one.
    pub fn get_class(&self, name: &str) -> (found: Option<&ClassDefinition>)
        ensures
            match found {
                Some(class) => self@.classes.contains_key(name@) && class@
                    == self@.classes[name@],
                None => !self@.classes.contains_key(name@),
            },
    {
        self.classes.get(name)
    }

    /// Registers an interface, overwriting an earlier one of the name.
    pub fn define_interface(&mut self, name: String, interface_def: InterfaceDefinition)
        ensures
            final(self)@ == (Env {
                interfaces: old(self)@.interfaces.insert(name@, interface_def@),
                ..old(self)@
            }),
    {
        proof {
            lemma_inserted_map(
                self.interfaces,
                name,
                interface_def,
                |i: InterfaceDefinition| i@,
            );
        }
        self.interfaces.insert(name, interface_def);
    }

    /// The interface registered under a name, if there is one.
    pub fn get_interface(&self, name: &str) -> (found: Option<&InterfaceDefinition>)
        ensures
            match found {
                Some(interface) => self@.interfaces.contains_key(name@) && interface@
                    == self@.interfaces[name@],
                None => !self@.interfaces.contains_key(name@),
            },
    {
        self.interfaces.get(name)
    }

    /// A copy of the variable table as it is now: the frame of the caller,
    /// to be handed back to `restore` when a call is left.
    pub fn snapshot(&self) -> (saved: Table<Value>)
        ensures
            values_map(saved.entries@) == self@.variables,
    {
        crate::value::clone_values(&self.variables)
    }

    /// Puts a saved variable table back, whatever the variables are now.
    /// The other three tables stay as they are.
    pub fn restore(&mut self, saved: Table<Value>)
        ensures
            final(self)@ == (Env { variables: values_map(saved.entries@), ..old(self)@ }),
    {
        self.variables = saved;
    }
}

} // verus!
