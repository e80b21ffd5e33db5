//! Column references.

use vstd::prelude::*;
use vstd::string::StringExecFns;

verus! {

/// The operand of an aggregate: a reference, by name, to one column of each input block.
#[derive(Debug, PartialEq, Eq)]
pub struct Function {
    column: String,
}

impl View for Function {
    type V = Seq<char>;

    closed spec fn view(&self) -> Seq<char> {
        self.column@
    }
}

impl Function {
    /// Builds the reference to the column called `name`.
    pub fn column(name: &str) -> (f: Function)
        ensures
            f@ == name@,
    {
        Function { column: String::from_str(name) }
    }

    /// Returns the name of the column referred to.
    pub fn name(&self) -> (s: &str)
        ensures
            s@ == self@,
    {
        self.column.as_str()
    }
}

} // verus!
