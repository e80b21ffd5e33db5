//! The processor that yields nothing.

use crate::datastreams::stream::{DataBlockStream, StreamView};
use crate::error::{Error, ErrorView};
use crate::processors::processor::{IProcessor, Outcome};
use vstd::prelude::*;

verus! {

/// The stage before the first: its stream has ended before it began.
///
/// A stage that was never connected pulls from this one, and so sees no rows.
pub struct EmptyProcessor {}

impl EmptyProcessor {
    /// Builds the processor.
    pub fn create() -> (p: EmptyProcessor)
        ensures
            forall|outcome: Outcome| #[trigger]
                p.yields(outcome) <==> outcome == Ok::<StreamView, ErrorView>(Seq::empty()),
    {
        EmptyProcessor {  }
    }
}

impl IProcessor for EmptyProcessor {
    open spec fn yields(&self, outcome: Outcome) -> bool {
        outcome == Ok::<StreamView, ErrorView>(Seq::empty())
    }

    fn name(&self) -> (s: &'static str)
        ensures
            s@ == "EmptyProcessor"@,
    {
        "EmptyProcessor"
    }

    fn execute(&self) -> (r: Result<DataBlockStream, Error>) {
        Ok(DataBlockStream::empty())
    }
}

} // verus!
