//! What holds of every run of an aggregator transform.

use crate::datablocks::data_block::BlockView;
use crate::datastreams::stream::StreamView;
use crate::datavalues::data_array::ArrayView;
use crate::datavalues::data_schema::{lemma_position, FieldView};
use crate::datavalues::data_type::DataType;
use crate::datavalues::data_value::DataValue;
use crate::error::ErrorView;
use crate::functions::aggregate_function::FunctionView;
use crate::functions::aggregate_kind::AggregateKind;
use crate::functions::fold::total;
use crate::processors::processor::{Outcome, ProcessorRef};
use crate::transforms::aggregation::{drain, is_unconnected, run, TransformView};
use vstd::prelude::*;

verus! {

/// The stream of the one block that shows `value` under a field named `label`.
pub open spec fn one_row(label: Seq<char>, value: DataValue) -> StreamView {
    seq![
        Ok(
            BlockView {
                schema: seq![FieldView { name: label, data_type: value.ty(), nullable: false }],
                columns: seq![ArrayView { data_type: value.ty(), values: seq![value.as_int()] }],
            },
        ),
    ]
}

/// Whether every item of the stream is a block that the function takes
/// in: none is a failure, each holds the function's column, and for all
/// kinds but a count the column is of the function's type.
pub open spec fn feeds(function: FunctionView, items: StreamView) -> bool {
    forall|i: int|
        0 <= i < items.len() ==> {
            &&& #[trigger] items[i] is Ok
            &&& items[i]->Ok_0.column_named(function.column) is Some
            &&& function.kind == AggregateKind::Count || items[i]->Ok_0.column_named(
                function.column,
            )->Some_0.data_type == function.data_type
        }
}

/// The values that the blocks of the stream hold in the column called
/// `column`, block after block, as one sequence.
pub open spec fn column_values(items: StreamView, column: Seq<char>) -> Seq<int>
    decreases items.len(),
{
    if items.len() == 0 {
        Seq::empty()
    } else {
        let here = match items[0] {
            Ok(block) => match block.column_named(column) {
                Some(c) => c.values,
                None => Seq::empty(),
            },
            Err(_) => Seq::empty(),
        };
        here + column_values(items.drop_first(), column)
    }
}

/// The rows of all the blocks of the stream together.
pub open spec fn total_rows(items: StreamView) -> nat
    decreases items.len(),
{
    if items.len() == 0 {
        0
    } else {
        let here = match items[0] {
            Ok(block) => block.rows(),
            Err(_) => 0,
        };
        here + total_rows(items.drop_first())
    }
}

/// Where every block is well formed and holds the column, the column has
/// one value for each row of the stream.
pub proof fn lemma_one_value_a_row(items: StreamView, column: Seq<char>)
    requires
        forall|i: int|
            0 <= i < items.len() ==> {
                &&& #[trigger] items[i] is Ok
                &&& items[i]->Ok_0.well_formed()
                &&& items[i]->Ok_0.column_named(column) is Some
            },
    ensures
        column_values(items, column).len() == total_rows(items),
    decreases items.len(),
{
    if items.len() > 0 {
        let rest = items.drop_first();
        assert forall|i: int| 0 <= i < rest.len() implies {
            &&& #[trigger] rest[i] is Ok
            &&& rest[i]->Ok_0.well_formed()
            &&& rest[i]->Ok_0.column_named(column) is Some
        } by {
            assert(rest[i] == items[i + 1]);
        }
        lemma_one_value_a_row(rest, column);
        assert(items[0] is Ok);
        let block = items[0]->Ok_0;
        lemma_position(block.schema, column);
    }
}

/// Taking in two streams one after the other is taking in the two put end to end.
pub proof fn lemma_drain_concat(function: FunctionView, a: StreamView, b: StreamView)
    ensures
        drain(function, a + b) == match drain(function, a) {
            Ok(next) => drain(next, b),
            Err(e) => Err(e),
        },
    decreases a.len(),
{
    if a.len() == 0 {
        assert(a + b =~= b);
    } else {
        assert((a + b)[0] == a[0]);
        assert((a + b).drop_first() =~= a.drop_first() + b);
        match a[0] {
            Ok(block) => match function.accumulate(block) {
                Ok(next) => {
                    lemma_drain_concat(next, a.drop_first(), b);
                },
                Err(_) => {},
            },
            Err(_) => {},
        }
    }
}

/// A failure among the items of a stream makes the whole run fail,
/// wherever it stands, the last place too; and where everything before it
/// went in, the run fails with that very failure. A failure of the stage
/// before is the failure of the run as well. No result is shown in either case.
pub proof fn lemma_failure_ends_run(transform: TransformView, items: StreamView, i: int)
    requires
        0 <= i < items.len(),
        items[i] is Err,
    ensures
        run(transform, Ok(items)) is Err,
        drain(transform.function(), items.take(i)) is Ok ==> run(transform, Ok(items)) == Err::<
            StreamView,
            ErrorView,
        >(items[i]->Err_0),
        forall|e: ErrorView| run(transform, Err(e)) == Err::<StreamView, ErrorView>(e),
{
    assert(items =~= items.take(i) + items.skip(i));
    lemma_drain_concat(transform.function(), items.take(i), items.skip(i));
    assert(items.skip(i)[0] == items[i]);
}

/// Whether a count or a sum can go on from where it stands.
spec fn seeded(function: FunctionView) -> bool {
    match function.kind {
        AggregateKind::Count => function.rows <= u64::MAX,
        AggregateKind::Sum => function.rows <= u64::MAX && function.state is Some,
        _ => true,
    }
}

/// Over blocks that the function takes in, a run comes to what taking in
/// all their values at once comes to.
pub proof fn lemma_drain_is_fold(function: FunctionView, items: StreamView)
    requires
        function.well_formed(),
        feeds(function, items),
    ensures
        drain(function, items) == function.fold(column_values(items, function.column)),
{
    lemma_drain_folds(function, items);
}

proof fn lemma_drain_folds(function: FunctionView, items: StreamView)
    requires
        seeded(function),
        feeds(function, items),
    ensures
        drain(function, items) == function.fold(column_values(items, function.column)),
    decreases items.len(),
{
    if items.len() == 0 {
        assert(total(Seq::<int>::empty()) == 0);
    } else {
        let rest = items.drop_first();
        assert(items[0] is Ok);
        let block = items[0]->Ok_0;
        let here = block.column_named(function.column)->Some_0.values;
        assert forall|i: int| 0 <= i < rest.len() implies #[trigger] rest[i] == items[i + 1] by {}
        function.lemma_fold_concat(here, column_values(rest, function.column));
        match function.accumulate(block) {
            Ok(next) => {
                assert(feeds(next, rest)) by {
                    assert forall|i: int| 0 <= i < rest.len() implies {
                        &&& #[trigger] rest[i] is Ok
                        &&& rest[i]->Ok_0.column_named(next.column) is Some
                        &&& next.kind == AggregateKind::Count || rest[i]->Ok_0.column_named(
                            next.column,
                        )->Some_0.data_type == next.data_type
                    } by {
                        assert(rest[i] == items[i + 1]);
                    }
                }
                lemma_drain_folds(next, rest);
            },
            Err(_) => {},
        }
    }
}

/// How the rows are cut into blocks does not matter: two streams of blocks
/// that the function takes in, with the same values in its column in the
/// same order, come to the same.
pub proof fn lemma_partition_independent(function: FunctionView, a: StreamView, b: StreamView)
    requires
        function.well_formed(),
        feeds(function, a),
        feeds(function, b),
        column_values(a, function.column) == column_values(b, function.column),
    ensures
        drain(function, a) == drain(function, b),
{
    lemma_drain_is_fold(function, a);
    lemma_drain_is_fold(function, b);
}

/// The order of the rows does not matter either: two streams of blocks
/// that the function takes in, with the same values in its column, each
/// as often in the one as in the other, come to the same.
pub proof fn lemma_order_independent(function: FunctionView, a: StreamView, b: StreamView)
    requires
        function.well_formed(),
        feeds(function, a),
        feeds(function, b),
        column_values(a, function.column).to_multiset() == column_values(
            b,
            function.column,
        ).to_multiset(),
    ensures
        drain(function, a) == drain(function, b),
{
    lemma_drain_is_fold(function, a);
    lemma_drain_is_fold(function, b);
    function.lemma_fold_any_order(
        column_values(a, function.column),
        column_values(b, function.column),
    );
}

/// What a run over blocks that the function takes in shows, by the values
/// `v` that the blocks hold in the transform's column, in whatever order
/// they come and however they are cut into blocks: a count shows how many
/// there are, a sum their sum, a minimum the least and a maximum the
/// greatest of them.
///
/// A sum that is no value of the declared type fails with an overflow, and
/// so does a count or a sum of more values than an unsigned 64-bit number
/// can tell. A minimum or maximum of no values at all fails as an empty
/// aggregate.
pub proof fn lemma_run_over_rows(transform: TransformView, items: StreamView)
    requires
        feeds(transform.function(), items),
    ensures
        ({
            let v = column_values(items, transform.column);
            let shown = run(transform, Ok(items));
            match transform.kind {
                AggregateKind::Count => if v.len() <= u64::MAX {
                    shown == Ok::<StreamView, ErrorView>(
                        one_row(transform.expr, DataValue::UInt64(v.len() as u64)),
                    )
                } else {
                    shown == Err::<StreamView, ErrorView>(ErrorView::Overflow)
                },
                AggregateKind::Sum => if v.len() <= u64::MAX && transform.data_type.holds(
                    total(v),
                ) {
                    shown == Ok::<StreamView, ErrorView>(
                        one_row(transform.expr, DataValue::of(transform.data_type, total(v))),
                    )
                } else {
                    shown == Err::<StreamView, ErrorView>(ErrorView::Overflow)
                },
                AggregateKind::Min => if v.len() > 0 {
                    shown == Ok::<StreamView, ErrorView>(
                        one_row(transform.expr, DataValue::of(transform.data_type, v.min())),
                    )
                } else {
                    shown == Err::<StreamView, ErrorView>(ErrorView::EmptyAggregate)
                },
                AggregateKind::Max => if v.len() > 0 {
                    shown == Ok::<StreamView, ErrorView>(
                        one_row(transform.expr, DataValue::of(transform.data_type, v.max())),
                    )
                } else {
                    shown == Err::<StreamView, ErrorView>(ErrorView::EmptyAggregate)
                },
            }
        }),
{
    lemma_drain_is_fold(transform.function(), items);
}

/// A run over a stream that has ended before it began shows a count of
/// zero and a sum of zero in the declared type; a minimum or maximum of
/// nothing fails as an empty aggregate.
pub proof fn lemma_run_over_nothing(transform: TransformView)
    ensures
        run(transform, Ok(Seq::empty())) == match transform.kind {
            AggregateKind::Count => Ok::<StreamView, ErrorView>(
                one_row(transform.expr, DataValue::UInt64(0)),
            ),
            AggregateKind::Sum => Ok(
                one_row(transform.expr, DataValue::of(transform.data_type, 0)),
            ),
            AggregateKind::Min => Err(ErrorView::EmptyAggregate),
            AggregateKind::Max => Err(ErrorView::EmptyAggregate),
        },
{
}

/// A transform that was never connected sees no rows: each of its runs
/// hands back what a run over nothing shows.
pub proof fn lemma_unconnected_run(transform: TransformView, outcome: Outcome)
    requires
        is_unconnected(transform.input),
    ensures
        transform.yields(outcome) <==> outcome == run(transform, Ok(Seq::empty())),
{
    let nothing = Ok::<StreamView, ErrorView>(Seq::empty());
    assert(transform.input.yields(nothing));
}

/// Taking a stream in changes what a function has counted and kept, and
/// nothing else of it.
pub proof fn lemma_drain_keeps_function(function: FunctionView, items: StreamView)
    requires
        drain(function, items) is Ok,
    ensures
        drain(function, items)->Ok_0 == (FunctionView {
            rows: drain(function, items)->Ok_0.rows,
            state: drain(function, items)->Ok_0.state,
            ..function
        }),
    decreases items.len(),
{
    if items.len() > 0 {
        lemma_drain_keeps_function(function.accumulate(items[0]->Ok_0)->Ok_0, items.drop_first());
    }
}

/// The result of a count is an unsigned 64-bit number whatever type the
/// transform was declared with, and the result of the other kinds is of the
/// declared type: the one field and the one column of the one block that
/// a run shows are of that type, and the field is named by the transform's
/// expression.
pub proof fn lemma_output_type(transform: TransformView, upstream: Outcome)
    requires
        run(transform, upstream) is Ok,
    ensures
        ({
            let shown = run(transform, upstream)->Ok_0;
            let data_type = match transform.kind {
                AggregateKind::Count => DataType::UInt64,
                _ => transform.data_type,
            };
            &&& shown.len() == 1
            &&& shown[0] matches Ok(block)
            &&& block.schema.len() == 1
            &&& block.schema[0] == (FieldView { name: transform.expr, data_type, nullable: false })
            &&& block.columns.len() == 1
            &&& block.columns[0].data_type == data_type
            &&& block.columns[0].values.len() == 1
        }),
{
    lemma_drain_keeps_function(transform.function(), upstream->Ok_0);
}

/// Connecting a second time leaves nothing of the first: the transform
/// is as if only the second stage had ever been connected, and its runs
/// take in what that stage hands back and nothing else.
pub proof fn lemma_connect_replaces(
    transform: TransformView,
    first: ProcessorRef,
    second: ProcessorRef,
    outcome: Outcome,
)
    ensures
        transform.connect(first).connect(second) == transform.connect(second),
        transform.connect(first).connect(second).yields(outcome) <==> exists|upstream: Outcome|
            #[trigger] second.yields(upstream) && outcome == run(transform, upstream),
{
    let twice = transform.connect(first).connect(second);
    assert forall|upstream: Outcome| run(twice, upstream) == run(transform, upstream) by {}
    if twice.yields(outcome) {
        let upstream = choose|upstream: Outcome| #[trigger]
            twice.input.yields(upstream) && outcome == run(twice, upstream);
        assert(second.yields(upstream) && outcome == run(transform, upstream));
    }
    if exists|upstream: Outcome| #[trigger]
        second.yields(upstream) && outcome == run(transform, upstream) {
        let upstream = choose|upstream: Outcome| #[trigger]
            second.yields(upstream) && outcome == run(transform, upstream);
        assert(twice.input.yields(upstream) && outcome == run(twice, upstream));
    }
}

} // verus!
