//! Planned expressions.

use vstd::prelude::*;
use vstd::string::StringExecFns;

verus! {

/// A planned expression, known to this layer by the label it shows under:
/// a transform names its output column by it.
#[derive(Debug, PartialEq, Eq)]
pub struct ExpressionPlan {
    label: String,
}

impl View for ExpressionPlan {
    type V = Seq<char>;

    closed spec fn view(&self) -> Seq<char> {
        self.label@
    }
}

impl ExpressionPlan {
    /// Builds the plan that shows under `label`.
    pub fn new(label: &str) -> (p: ExpressionPlan)
        ensures
            p@ == label@,
    {
        ExpressionPlan { label: String::from_str(label) }
    }

    /// Returns the label the plan shows under.
    pub fn label(&self) -> (s: &str)
        ensures
            s@ == self@,
    {
        self.label.as_str()
    }
}

} // verus!
