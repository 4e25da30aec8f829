//! Environment variables for services

use vstd::prelude::*;

verus! {

/// Environment variable for a service
///
/// The server and its optional services might require additional configuration to start
/// successfully. For example, the official Docker image for Postgres requires the
/// `POSTGRES_PASSWORD` environment variable to be set. A variable never changes after it has
/// been created. Several variables of one container may share a name: all of them are handed
/// to the container, in the order in which they were declared.
#[derive(Debug)]
pub struct Variable {
    name: String,
    value: String,
}

/// What a [`Variable`] stands for: a name and a value, as sequences of characters.
pub ghost struct VariableView {
    pub name: Seq<char>,
    pub value: Seq<char>,
}

impl View for Variable {
    type V = VariableView;

    closed spec fn view(&self) -> VariableView {
        VariableView { name: self.name@, value: self.value@ }
    }
}

impl DeepView for Variable {
    type V = VariableView;

    open spec fn deep_view(&self) -> VariableView {
        self@
    }
}

impl Clone for Variable {
    fn clone(&self) -> (copy: Variable)
        ensures
            copy@ == self@,
    {
        Variable { name: self.name.clone(), value: self.value.clone() }
    }
}

impl PartialEq for Variable {
    fn eq(&self, other: &Variable) -> (equal: bool) {
        self.name == other.name && self.value == other.value
    }
}

impl vstd::std_specs::cmp::PartialEqSpecImpl for Variable {
    open spec fn obeys_eq_spec() -> bool {
        true
    }

    /// Two variables are equal if they have the same name and the same value.
    open spec fn eq_spec(&self, other: &Variable) -> bool {
        self@ == other@
    }
}

impl Eq for Variable {

}

impl Variable {
    /// Create a new environment variable with the given name and value.
    pub fn new(name: &str, value: &str) -> (variable: Variable)
        ensures
            variable@ == (VariableView { name: name@, value: value@ }),
    {
        Variable { name: name.to_owned(), value: value.to_owned() }
    }

    /// The name of the environment variable
    pub fn name(&self) -> (name: &String)
        ensures
            name@ == self@.name,
    {
        &self.name
    }

    /// The value of the environment variable
    pub fn value(&self) -> (value: &String)
        ensures
            value@ == self@.value,
    {
        &self.value
    }
}

/// Copies a list of variables, keeping their order.
pub fn clone_variables(variables: &Vec<Variable>) -> (copy: Vec<Variable>)
    ensures
        copy.deep_view() == variables.deep_view(),
{
    let mut copy: Vec<Variable> = Vec::new();
    let mut i: usize = 0;
    while i < variables.len()
        invariant
            i <= variables.len(),
            copy.len() == i,
            forall|j: int| 0 <= j < i ==> copy[j]@ == variables[j]@,
        decreases variables.len() - i,
    {
        copy.push(variables[i].clone());
        i += 1;
    }
    assert(copy.deep_view() =~= variables.deep_view());
    copy
}

} // verus!
