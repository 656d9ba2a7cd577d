//! Host-addressed and aspect-local variables.
use vstd::prelude::*;

verus! {

/// What identifies a variable: two variables with the same key denote the
/// same storage cell.
pub enum VariableKey {
    Aircraft(Seq<char>, Seq<char>, usize),
    Aspect(Seq<char>),
}

/// A reference to a host variable (name, unit, occurrence index) or to a
/// variable local to the aspects.
#[derive(Clone, Debug)]
pub enum Variable {
    Aircraft { name: String, unit: String, index: usize },
    Aspect { name: String },
}

impl View for Variable {
    type V = VariableKey;

    open spec fn view(&self) -> VariableKey {
        match self {
            Variable::Aircraft { name, unit, index } => VariableKey::Aircraft(name@, unit@, *index),
            Variable::Aspect { name } => VariableKey::Aspect(name@),
        }
    }
}

impl Variable {
    /// A host variable addressed by name, unit and occurrence index.
    pub fn aircraft(name: &str, unit: &str, index: usize) -> (r: Variable)
        ensures
            r@ == VariableKey::Aircraft(name@, unit@, index),
    {
        Variable::Aircraft { name: name.to_owned(), unit: unit.to_owned(), index }
    }

    /// A variable local to the aspects, addressed by name.
    pub fn aspect(name: &str) -> (r: Variable)
        ensures
            r@ == VariableKey::Aspect(name@),
    {
        Variable::Aspect { name: name.to_owned() }
    }

    /// A second handle to the same cell.
    pub fn duplicate(&self) -> (r: Variable)
        ensures
            r@ == self@,
    {
        match self {
            Variable::Aircraft { name, unit, index } => Variable::Aircraft {
                name: name.clone(),
                unit: unit.clone(),
                index: *index,
            },
            Variable::Aspect { name } => Variable::Aspect { name: name.clone() },
        }
    }

    /// Whether both handles denote the same cell.
    pub fn same_as(&self, other: &Variable) -> (r: bool)
        ensures
            r == (self@ == other@),
    {
        match (self, other) {
            (
                Variable::Aircraft { name: n1, unit: u1, index: i1 },
                Variable::Aircraft { name: n2, unit: u2, index: i2 },
            ) => *n1 == *n2 && *u1 == *u2 && *i1 == *i2,
            (Variable::Aspect { name: n1 }, Variable::Aspect { name: n2 }) => *n1 == *n2,
            _ => false,
        }
    }
}

/// Position of the variable denoted by `v` in `vars`, if any.
pub fn position_of(vars: &Vec<Variable>, v: &Variable) -> (r: Option<usize>)
    ensures
        match r {
            Some(i) => i < vars@.len() && vars@[i as int]@ == v@,
            None => forall|j: int| 0 <= j < vars@.len() ==> vars@[j]@ != v@,
        },
{
    let mut i: usize = 0;
    while i < vars.len()
        invariant
            i <= vars@.len(),
            forall|j: int| 0 <= j < i ==> vars@[j]@ != v@,
        decreases vars@.len() - i,
    {
        if vars[i].same_as(v) {
            return Some(i);
        }
        i = i + 1;
    }
    None
}

} // verus!
