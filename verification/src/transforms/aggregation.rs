//! What an aggregator transform computes, stated over whole streams.

use crate::datablocks::data_block::BlockView;
use crate::datastreams::stream::StreamView;
use crate::datavalues::data_array::ArrayView;
use crate::datavalues::data_schema::FieldView;
use crate::datavalues::data_type::DataType;
use crate::error::ErrorView;
use crate::functions::aggregate_function::FunctionView;
use crate::functions::aggregate_kind::AggregateKind;
use crate::processors::processor::{Outcome, ProcessorRef};
use vstd::prelude::*;

verus! {

/// An aggregator transform as contracts see it.
pub struct TransformView {
    /// Which aggregate the transform computes.
    pub kind: AggregateKind,
    /// The label of the expression that the transform evaluates.
    pub expr: Seq<char>,
    /// The name of the column that the aggregate works on.
    pub column: Seq<char>,
    /// The type of the result.
    pub data_type: DataType,
    /// The stage that the transform pulls from.
    pub input: ProcessorRef,
}

impl TransformView {
    /// The transform with `input` in place of the stage it pulled from.
    pub open spec fn connect(self, input: ProcessorRef) -> TransformView {
        TransformView { input, ..self }
    }

    /// The function that a run starts with.
    pub open spec fn function(self) -> FunctionView {
        FunctionView::fresh(self.kind, self.column, self.data_type)
    }

    /// Whether a run of the transform may hand back `outcome`: it hands back
    /// what it makes of what the stage before it hands back.
    pub open spec fn yields(self, outcome: Outcome) -> bool {
        exists|upstream: Outcome| #[trigger]
            self.input.yields(upstream) && outcome == run(self, upstream)
    }
}

/// Whether `input` stands for no stage at all: each of its runs hands back a
/// stream that has ended.
pub open spec fn is_unconnected(input: ProcessorRef) -> bool {
    forall|outcome: Outcome| #[trigger]
        input.yields(outcome) <==> outcome == Ok::<StreamView, ErrorView>(Seq::empty())
}

/// The function after the items of a stream went in, in their order, or
/// the first failure on the way: that of an item, or that of a block that
/// the function refused. Nothing behind a failure is looked at.
pub open spec fn drain(function: FunctionView, items: StreamView) -> Result<FunctionView, ErrorView>
    decreases items.len(),
{
    if items.len() == 0 {
        Ok(function)
    } else {
        match items[0] {
            Err(e) => Err(e),
            Ok(block) => match function.accumulate(block) {
                Err(e) => Err(e),
                Ok(next) => drain(next, items.drop_first()),
            },
        }
    }
}

/// The block that shows the result of `function`: one column of one row,
/// under a field that is named `label`, has the result's type and is not nullable.
pub open spec fn output_block(label: Seq<char>, function: FunctionView) -> Result<
    BlockView,
    ErrorView,
> {
    match function.aggregate() {
        Err(e) => Err(e),
        Ok(value) => Ok(
            BlockView {
                schema: seq![
                    FieldView { name: label, data_type: function.return_type(), nullable: false },
                ],
                columns: seq![ArrayView { data_type: value.ty(), values: seq![value.as_int()] }],
            },
        ),
    }
}

/// What a run of the transform hands back when the stage before it hands back `upstream`.
///
/// A failure of the stage before, of an item of its stream or of the
/// function is the failure of the run, and the first one on the way wins.
/// Where there is none, the run hands back a stream of one block.
pub open spec fn run(transform: TransformView, upstream: Outcome) -> Outcome {
    match upstream {
        Err(e) => Err(e),
        Ok(items) => match drain(transform.function(), items) {
            Err(e) => Err(e),
            Ok(function) => match output_block(transform.expr, function) {
                Err(e) => Err(e),
                Ok(block) => Ok(seq![Ok(block)]),
            },
        },
    }
}

} // verus!
