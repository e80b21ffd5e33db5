//! What every stage of a pipeline offers to the stage after it.

use crate::datastreams::stream::{DataBlockStream, StreamView};
use crate::error::{Error, ErrorView};
use std::sync::Arc;
use vstd::prelude::*;

verus! {

/// What a run hands back, as contracts see it: the items of its stream, or
/// the failure it ended in before there was a stream.
pub type Outcome = Result<StreamView, ErrorView>;

/// What a run handed back, as contracts see it.
pub open spec fn outcome_view(r: Result<DataBlockStream, Error>) -> Outcome {
    match r {
        Ok(stream) => Ok(stream@),
        Err(error) => Err(error@),
    }
}

/// A stage of a pipeline: the stage after it pulls a stream of blocks from it.
pub trait IProcessor: Send + Sync {
    /// Whether a run of this processor may hand back `outcome`.
    ///
    /// Each processor says here what it knows of its own runs; one that
    /// says nothing admits every outcome.
    open spec fn yields(&self, outcome: Outcome) -> bool {
        true
    }

    /// Returns the name the processor goes by in diagnostics.
    fn name(&self) -> &'static str;

    /// Runs the processor. A failure comes back as the result and leaves
    /// the processor as it was.
    fn execute(&self) -> (r: Result<DataBlockStream, Error>)
        ensures
            self.yields(outcome_view(r)),
    ;
}

/// A shared handle on a processor, as a stage holds it on the stage before it.
pub type ProcessorRef = Arc<Box<dyn IProcessor>>;

} // verus!
