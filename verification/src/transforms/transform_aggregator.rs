//! The aggregator transforms: COUNT, MIN, MAX and SUM of one column over a whole stream.

use crate::datablocks::data_block::{BlockView, DataBlock};
use crate::datastreams::memory_stream::MemoryStream;
use crate::datastreams::stream::{DataBlockStream, StreamView};
use crate::datavalues::data_array::DataArray;
use crate::datavalues::data_schema::{DataField, DataSchema};
use crate::datavalues::data_type::DataType;
use crate::error::{Error, ErrorView};
use crate::functions::aggregate_function::{AggregateFunction, AggregateFunctionFactory};
use crate::functions::aggregate_kind::{kind_of, AggregateKind};
use crate::functions::function::Function;
use crate::planners::expression_plan::ExpressionPlan;
use crate::processors::empty_processor::EmptyProcessor;
use crate::processors::processor::{outcome_view, IProcessor, Outcome, ProcessorRef};
use crate::transforms::aggregation::{
    drain, is_unconnected, output_block, run, TransformView,
};
use std::sync::Arc;
use vstd::prelude::*;
use vstd::string::StringExecFns;

verus! {

/// The name a transform of the given kind goes by.
pub open spec fn display_name(kind: AggregateKind) -> Seq<char> {
    match kind {
        AggregateKind::Count => "CountTransform"@,
        AggregateKind::Min => "MinTransform"@,
        AggregateKind::Max => "MaxTransform"@,
        AggregateKind::Sum => "SumTransform"@,
    }
}

/// The counting of a column's rows.
pub struct CountTransform {
    name: &'static str,
    expr: Arc<ExpressionPlan>,
    column: Arc<Function>,
    data_type: DataType,
    input: ProcessorRef,
}

/// The least value of a column.
pub struct MinTransform {
    name: &'static str,
    expr: Arc<ExpressionPlan>,
    column: Arc<Function>,
    data_type: DataType,
    input: ProcessorRef,
}

/// The greatest value of a column.
pub struct MaxTransform {
    name: &'static str,
    expr: Arc<ExpressionPlan>,
    column: Arc<Function>,
    data_type: DataType,
    input: ProcessorRef,
}

/// The sum of a column's values.
pub struct SumTransform {
    name: &'static str,
    expr: Arc<ExpressionPlan>,
    column: Arc<Function>,
    data_type: DataType,
    input: ProcessorRef,
}

/// What a run does after it was handed one more item of the stream it pulls from.
pub enum Progress {
    /// The item went in: the run pulls the next one.
    More,
    /// The run is over, with the stream of its result or with its failure.
    Finished(Result<DataBlockStream, Error>),
}

/// The last stage of a pipeline: it pulls the stage before it dry and
/// yields one row that holds the aggregate of one column.
pub enum AggregatorTransform {
    Count(CountTransform),
    Min(MinTransform),
    Max(MaxTransform),
    Sum(SumTransform),
}

impl View for CountTransform {
    type V = TransformView;

    closed spec fn view(&self) -> TransformView {
        TransformView {
            kind: AggregateKind::Count,
            expr: self.expr@,
            column: self.column@,
            data_type: self.data_type,
            input: self.input,
        }
    }
}

impl CountTransform {
    #[verifier::type_invariant]
    spec fn named_and_typed(self) -> bool {
        self.name@ == display_name(AggregateKind::Count) && self.data_type == DataType::UInt64
    }
}

impl View for MinTransform {
    type V = TransformView;

    closed spec fn view(&self) -> TransformView {
        TransformView {
            kind: AggregateKind::Min,
            expr: self.expr@,
            column: self.column@,
            data_type: self.data_type,
            input: self.input,
        }
    }
}

impl MinTransform {
    #[verifier::type_invariant]
    spec fn named(self) -> bool {
        self.name@ == display_name(AggregateKind::Min)
    }
}

impl View for MaxTransform {
    type V = TransformView;

    closed spec fn view(&self) -> TransformView {
        TransformView {
            kind: AggregateKind::Max,
            expr: self.expr@,
            column: self.column@,
            data_type: self.data_type,
            input: self.input,
        }
    }
}

impl MaxTransform {
    #[verifier::type_invariant]
    spec fn named(self) -> bool {
        self.name@ == display_name(AggregateKind::Max)
    }
}

impl View for SumTransform {
    type V = TransformView;

    closed spec fn view(&self) -> TransformView {
        TransformView {
            kind: AggregateKind::Sum,
            expr: self.expr@,
            column: self.column@,
            data_type: self.data_type,
            input: self.input,
        }
    }
}

impl SumTransform {
    #[verifier::type_invariant]
    spec fn named(self) -> bool {
        self.name@ == display_name(AggregateKind::Sum)
    }
}

impl View for AggregatorTransform {
    type V = TransformView;

    open spec fn view(&self) -> TransformView {
        match self {
            AggregatorTransform::Count(v) => v@,
            AggregatorTransform::Min(v) => v@,
            AggregatorTransform::Max(v) => v@,
            AggregatorTransform::Sum(v) => v@,
        }
    }
}

impl AggregatorTransform {
    /// Builds the transform that `name` stands for, whatever the case of its
    /// letters, over `column`, not yet connected to a stage before it.
    ///
    /// A count yields unsigned 64-bit numbers whatever `data_type` says; the
    /// others yield values of `data_type`. A name that stands for no
    /// transform is refused, and the failure carries it.
    pub fn create(
        name: &str,
        expr: Arc<ExpressionPlan>,
        column: Arc<Function>,
        data_type: &DataType,
    ) -> (r: Result<AggregatorTransform, Error>)
        ensures
            match r {
                Ok(t) => {
                    &&& kind_of(name@) == Some(t@.kind)
                    &&& t@.expr == expr@
                    &&& t@.column == column@
                    &&& t@.data_type == if t@.kind == AggregateKind::Count {
                        DataType::UInt64
                    } else {
                        *data_type
                    }
                    &&& is_unconnected(t@.input)
                    &&& match t@.kind {
                        AggregateKind::Count => t is Count,
                        AggregateKind::Min => t is Min,
                        AggregateKind::Max => t is Max,
                        AggregateKind::Sum => t is Sum,
                    }
                },
                Err(e) => kind_of(name@) is None && e@ == ErrorView::Unsupported(name@),
            },
    {
        Ok(
            match AggregateKind::parse(name) {
                Some(AggregateKind::Count) => AggregatorTransform::Count(
                    CountTransform {
                        name: "CountTransform",
                        expr,
                        column,
                        data_type: DataType::UInt64,
                        input: Arc::new(Box::new(EmptyProcessor::create())),
                    },
                ),
                Some(AggregateKind::Min) => AggregatorTransform::Min(
                    MinTransform {
                        name: "MinTransform",
                        expr,
                        column,
                        data_type: *data_type,
                        input: Arc::new(Box::new(EmptyProcessor::create())),
                    },
                ),
                Some(AggregateKind::Max) => AggregatorTransform::Max(
                    MaxTransform {
                        name: "MaxTransform",
                        expr,
                        column,
                        data_type: *data_type,
                        input: Arc::new(Box::new(EmptyProcessor::create())),
                    },
                ),
                Some(AggregateKind::Sum) => AggregatorTransform::Sum(
                    SumTransform {
                        name: "SumTransform",
                        expr,
                        column,
                        data_type: *data_type,
                        input: Arc::new(Box::new(EmptyProcessor::create())),
                    },
                ),
                None => {
                    return Err(Error::Unsupported(String::from_str(name)));
                },
            },
        )
    }

    /// The variant of a transform is that of its kind.
    pub proof fn lemma_variant_is_kind(&self)
        ensures
            self is Count <==> self@.kind == AggregateKind::Count,
            self is Min <==> self@.kind == AggregateKind::Min,
            self is Max <==> self@.kind == AggregateKind::Max,
            self is Sum <==> self@.kind == AggregateKind::Sum,
    {
    }

    /// Puts `input` in the place of the stage that the transform pulls
    /// from. Whatever stood there before is gone; nothing else changes:
    /// the transform is of the variant it was of, under the same name, over
    /// the same expression and column, with the same type.
    pub fn connect_to(&mut self, input: ProcessorRef)
        ensures
            final(self)@ == old(self)@.connect(input),
            *old(self) is Count ==> *final(self) is Count,
            *old(self) is Min ==> *final(self) is Min,
            *old(self) is Max ==> *final(self) is Max,
            *old(self) is Sum ==> *final(self) is Sum,
    {
        match self {
            AggregatorTransform::Count(v) => {
                proof {
                    use_type_invariant(&*v);
                }
                v.input = input
            },
            AggregatorTransform::Min(v) => {
                proof {
                    use_type_invariant(&*v);
                }
                v.input = input
            },
            AggregatorTransform::Max(v) => {
                proof {
                    use_type_invariant(&*v);
                }
                v.input = input
            },
            AggregatorTransform::Sum(v) => {
                proof {
                    use_type_invariant(&*v);
                }
                v.input = input
            },
        }
    }

    /// Builds the function that a run of the transform starts with.
    pub fn function(&self) -> (r: Result<AggregateFunction, Error>)
        ensures
            r matches Ok(f) && f@ == self@.function(),
    {
        proof {
            AggregateKind::Count.lemma_own_name();
            AggregateKind::Min.lemma_own_name();
            AggregateKind::Max.lemma_own_name();
            AggregateKind::Sum.lemma_own_name();
        }
        match self {
            AggregatorTransform::Count(v) => AggregateFunctionFactory::get(
                AggregateKind::Count.as_str(),
                v.column.clone(),
                &v.data_type,
            ),
            AggregatorTransform::Min(v) => AggregateFunctionFactory::get(
                AggregateKind::Min.as_str(),
                v.column.clone(),
                &v.data_type,
            ),
            AggregatorTransform::Max(v) => AggregateFunctionFactory::get(
                AggregateKind::Max.as_str(),
                v.column.clone(),
                &v.data_type,
            ),
            AggregatorTransform::Sum(v) => AggregateFunctionFactory::get(
                AggregateKind::Sum.as_str(),
                v.column.clone(),
                &v.data_type,
            ),
        }
    }

    /// Builds the stream that shows the result of `function` under the
    /// label of the transform's expression: one block of one row, or the
    /// failure that the function ends in.
    pub fn finish(&self, function: &AggregateFunction) -> (r: Result<DataBlockStream, Error>)
        ensures
            outcome_view(r) == match output_block(self@.expr, function@) {
                Ok(block) => Ok::<StreamView, ErrorView>(seq![Ok(block)]),
                Err(e) => Err(e),
            },
    {
        let expr = match self {
            AggregatorTransform::Count(v) => &v.expr,
            AggregatorTransform::Min(v) => &v.expr,
            AggregatorTransform::Max(v) => &v.expr,
            AggregatorTransform::Sum(v) => &v.expr,
        };
        let data_type = match function.return_type(&DataSchema::empty()) {
            Ok(t) => t,
            Err(e) => {
                return Err(e);
            },
        };
        let value = match function.aggregate() {
            Ok(v) => v,
            Err(e) => {
                return Err(e);
            },
        };
        let field = DataField::new(expr.label(), data_type, false);
        let block = DataBlock::create(
            DataSchema::new(vec![field]),
            vec![DataArray::from_value(value)],
        );
        let ghost shown = output_block(self@.expr, function@)->Ok_0;
        assert(block@.schema =~= shown.schema);
        assert(block@.columns =~= shown.columns);
        let stream = MemoryStream::create(DataSchema::empty(), None, vec![block]).into_stream();
        assert(stream@ =~= seq![Ok::<BlockView, ErrorView>(shown)]);
        Ok(stream)
    }

    /// Decides how a run goes on when the stream that it pulls from hands
    /// `item` to it, `None` standing for the end of that stream.
    ///
    /// A block goes into `function`, and the run pulls on. A failure, be it
    /// the item or the block that the function refuses, ends the run as it
    /// is. The end of the stream ends the run with the result shown.
    pub fn feed(&self, function: &mut AggregateFunction, item: Option<Result<DataBlock, Error>>) -> (r:
        Progress)
        ensures
            match item {
                Some(Ok(block)) => match old(function)@.accumulate(block@) {
                    Ok(next) => r is More && final(function)@ == next,
                    Err(e) => {
                        &&& r matches Progress::Finished(out)
                        &&& outcome_view(out) == Err::<StreamView, ErrorView>(e)
                        &&& final(function)@ == old(function)@
                    },
                },
                Some(Err(e)) => {
                    &&& r matches Progress::Finished(out)
                    &&& outcome_view(out) == Err::<StreamView, ErrorView>(e@)
                    &&& final(function)@ == old(function)@
                },
                None => {
                    &&& r matches Progress::Finished(out)
                    &&& outcome_view(out) == match output_block(self@.expr, old(function)@) {
                        Ok(block) => Ok::<StreamView, ErrorView>(seq![Ok(block)]),
                        Err(e) => Err(e),
                    }
                    &&& final(function)@ == old(function)@
                },
            },
    {
        match item {
            Some(Ok(block)) => match function.accumulate(&block) {
                Ok(_) => Progress::More,
                Err(e) => Progress::Finished(Err(e)),
            },
            Some(Err(e)) => Progress::Finished(Err(e)),
            None => Progress::Finished(self.finish(function)),
        }
    }

    /// Takes a whole stream into a fresh function, item by item in the
    /// order of the stream, and shows the result. The first failure on the
    /// way ends the run and is handed back as it is.
    pub fn drain(&self, stream: DataBlockStream) -> (r: Result<DataBlockStream, Error>)
        ensures
            outcome_view(r) == run(self@, Ok(stream@)),
    {
        let ghost items = stream@;
        let mut function = match self.function() {
            Ok(f) => f,
            Err(e) => {
                return Err(e);
            },
        };
        let mut rest = stream;
        loop
            invariant
                items == stream@,
                drain(function@, rest@) == drain(self@.function(), items),
            decreases rest@.len(),
        {
            let item = rest.next();
            match self.feed(&mut function, item) {
                Progress::More => {},
                Progress::Finished(out) => {
                    return out;
                },
            }
        }
    }
}

impl IProcessor for AggregatorTransform {
    /// A run hands back what the transform makes of what the stage before it hands back.
    open spec fn yields(&self, outcome: Outcome) -> bool {
        self@.yields(outcome)
    }

    fn name(&self) -> (s: &'static str)
        ensures
            s@ == display_name(self@.kind),
    {
        match self {
            AggregatorTransform::Count(v) => {
                proof {
                    use_type_invariant(v);
                }
                v.name
            },
            AggregatorTransform::Min(v) => {
                proof {
                    use_type_invariant(v);
                }
                v.name
            },
            AggregatorTransform::Max(v) => {
                proof {
                    use_type_invariant(v);
                }
                v.name
            },
            AggregatorTransform::Sum(v) => {
                proof {
                    use_type_invariant(v);
                }
                v.name
            },
        }
    }

    /// Runs the stage before, takes all of its stream in, and yields the one row of the result.
    fn execute(&self) -> (r: Result<DataBlockStream, Error>) {
        let upstream = match self {
            AggregatorTransform::Count(v) => v.input.execute(),
            AggregatorTransform::Min(v) => v.input.execute(),
            AggregatorTransform::Max(v) => v.input.execute(),
            AggregatorTransform::Sum(v) => v.input.execute(),
        };
        let ghost handed = outcome_view(upstream);
        assert(self@.input.yields(handed));
        match upstream {
            Ok(stream) => self.drain(stream),
            Err(e) => Err(e),
        }
    }
}

} // verus!
