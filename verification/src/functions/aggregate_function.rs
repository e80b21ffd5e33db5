//! Aggregate functions: running states that take in a stream block by block.

use crate::datablocks::data_block::{BlockView, DataBlock};
use crate::datavalues::data_array::DataArray;
use crate::datavalues::data_schema::DataSchema;
use crate::datavalues::data_type::DataType;
use crate::datavalues::data_value::DataValue;
use crate::error::{Error, ErrorView};
use crate::functions::aggregate_kind::{kind_of, AggregateKind};
use crate::functions::fold::{
    greater, lemma_extremes_any_order, lemma_max_concat, lemma_min_concat, lemma_total_any_order,
    lemma_total_concat, lesser, reached, total,
};
use crate::functions::function::Function;
use std::sync::Arc;
use vstd::prelude::*;
use vstd::string::StringExecFns;

verus! {

/// An aggregate of one column, with what it has taken in so far.
///
/// The state is a few numbers however many blocks went in. A count keeps
/// the number of values. A sum keeps that number too, and what the values
/// above zero and the values below zero have come to, each by itself: so
/// the sum is never out of reach on the way, in whatever order the values
/// come. A minimum or maximum keeps the least or greatest value seen.
#[derive(Debug)]
pub struct AggregateFunction {
    kind: AggregateKind,
    column: Arc<Function>,
    data_type: DataType,
    rows: u64,
    state: Option<i128>,
    gained: u128,
    lost: u128,
}

/// An [`AggregateFunction`] as contracts see it.
pub struct FunctionView {
    /// What the function computes.
    pub kind: AggregateKind,
    /// The name of the column it works on.
    pub column: Seq<char>,
    /// The type it was declared with.
    pub data_type: DataType,
    /// How many values a count or a sum has taken in.
    pub rows: nat,
    /// The sum reached, or the least or greatest value seen: unset for a
    /// count, and for a minimum or maximum before the first value.
    pub state: Option<int>,
}

impl FunctionView {
    /// The function of the given kind over the given column, before it has
    /// taken anything in: no values counted, a sum at zero, a minimum and a
    /// maximum unset.
    pub open spec fn fresh(kind: AggregateKind, column: Seq<char>, data_type: DataType)
        -> FunctionView {
        FunctionView {
            kind,
            column,
            data_type,
            rows: 0,
            state: match kind {
                AggregateKind::Sum => Some(0),
                _ => None,
            },
        }
    }

    /// The type of the result: unsigned 64-bit for a count whatever the
    /// column holds, and the declared type for the others.
    pub open spec fn return_type(self) -> DataType {
        match self.kind {
            AggregateKind::Count => DataType::UInt64,
            _ => self.data_type,
        }
    }

    /// What holds of every function: the number of values is an unsigned
    /// 64-bit number, a sum is set, and a minimum or maximum that is set
    /// is a value of the declared type.
    pub open spec fn well_formed(self) -> bool {
        match self.kind {
            AggregateKind::Count => self.rows <= u64::MAX && self.state is None,
            AggregateKind::Sum => self.rows <= u64::MAX && self.state is Some,
            _ => self.rows == 0 && (self.state matches Some(v) ==> self.data_type.holds(v)),
        }
    }

    /// The function after the values `vals` of one column went in.
    ///
    /// A count and a sum count the values, and fail with an overflow once
    /// there are more than an unsigned 64-bit number can tell; short of that
    /// a sum grows by the sum of the values, whatever their order. A minimum
    /// or maximum is that of the state before and of all the values.
    pub open spec fn fold(self, vals: Seq<int>) -> Result<FunctionView, ErrorView> {
        match self.kind {
            AggregateKind::Count => if self.rows + vals.len() <= u64::MAX {
                Ok(FunctionView { rows: self.rows + vals.len(), ..self })
            } else {
                Err(ErrorView::Overflow)
            },
            AggregateKind::Sum => if self.rows + vals.len() <= u64::MAX {
                Ok(
                    FunctionView {
                        rows: self.rows + vals.len(),
                        state: Some(reached(self.state) + total(vals)),
                        ..self
                    },
                )
            } else {
                Err(ErrorView::Overflow)
            },
            AggregateKind::Min => if vals.len() == 0 {
                Ok(self)
            } else {
                Ok(FunctionView { state: Some(lesser(self.state, vals.min())), ..self })
            },
            AggregateKind::Max => if vals.len() == 0 {
                Ok(self)
            } else {
                Ok(FunctionView { state: Some(greater(self.state, vals.max())), ..self })
            },
        }
    }

    /// The function after `block` went in, or why the block cannot go in.
    ///
    /// The block must hold the column, and for all kinds but a count the
    /// column must be of the declared type.
    pub open spec fn accumulate(self, block: BlockView) -> Result<FunctionView, ErrorView> {
        match block.column_named(self.column) {
            None => Err(ErrorView::UnknownColumn(self.column)),
            Some(column) => if self.kind != AggregateKind::Count && column.data_type
                != self.data_type {
                Err(ErrorView::TypeMismatch { expected: self.data_type, actual: column.data_type })
            } else {
                self.fold(column.values)
            },
        }
    }

    /// The result. A count is the number of values. A sum is the sum of the
    /// values as a value of the declared type, and an overflow exactly
    /// where the type has no such value. A minimum or maximum is the value
    /// kept, and a failure where there was no value at all.
    pub open spec fn aggregate(self) -> Result<DataValue, ErrorView> {
        match self.kind {
            AggregateKind::Count => Ok(DataValue::UInt64(self.rows as u64)),
            AggregateKind::Sum => if self.data_type.holds(reached(self.state)) {
                Ok(DataValue::of(self.data_type, reached(self.state)))
            } else {
                Err(ErrorView::Overflow)
            },
            _ => match self.state {
                Some(v) => Ok(DataValue::of(self.data_type, v)),
                None => Err(ErrorView::EmptyAggregate),
            },
        }
    }

    /// The order in which the values of a column go in does not matter.
    pub proof fn lemma_fold_any_order(self, a: Seq<int>, b: Seq<int>)
        requires
            a.to_multiset() == b.to_multiset(),
        ensures
            self.fold(a) == self.fold(b),
    {
        lemma_total_any_order(a, b);
        lemma_extremes_any_order(a, b);
    }

    /// Taking in two sequences one after the other is taking them in put
    /// end to end: how the values are cut into pieces does not matter.
    pub proof fn lemma_fold_concat(self, a: Seq<int>, b: Seq<int>)
        ensures
            self.fold(a + b) == match self.fold(a) {
                Ok(next) => next.fold(b),
                Err(e) => Err(e),
            },
    {
        match self.kind {
            AggregateKind::Count => {},
            AggregateKind::Sum => {
                lemma_total_concat(a, b);
            },
            AggregateKind::Min => {
                if a.len() == 0 {
                    assert(a + b =~= b);
                } else if b.len() == 0 {
                    assert(a + b =~= a);
                } else {
                    lemma_min_concat(a, b);
                }
            },
            AggregateKind::Max => {
                if a.len() == 0 {
                    assert(a + b =~= b);
                } else if b.len() == 0 {
                    assert(a + b =~= a);
                } else {
                    lemma_max_concat(a, b);
                }
            },
        }
    }
}

/// A running state as contracts see it.
spec fn view_state(state: Option<i128>) -> Option<int> {
    match state {
        Some(v) => Some(v as int),
        None => None,
    }
}

impl View for AggregateFunction {
    type V = FunctionView;

    closed spec fn view(&self) -> FunctionView {
        FunctionView {
            kind: self.kind,
            column: self.column@,
            data_type: self.data_type,
            rows: self.rows as nat,
            state: match self.kind {
                AggregateKind::Sum => Some(self.gained - self.lost),
                _ => view_state(self.state),
            },
        }
    }
}

/// Adds the values of `column` above zero to `gained` and those below zero to `lost`.
fn sum_into(gained: u128, lost: u128, rows: u64, column: &DataArray) -> (r: (u128, u128))
    requires
        gained <= rows * 0xffff_ffff_ffff_ffff,
        lost <= rows * 0x8000_0000_0000_0000,
        rows + column@.values.len() <= u64::MAX,
    ensures
        r.0 <= (rows + column@.values.len()) * 0xffff_ffff_ffff_ffff,
        r.1 <= (rows + column@.values.len()) * 0x8000_0000_0000_0000,
        r.0 - r.1 == gained - lost + total(column@.values),
{
    let ghost vals = column@.values;
    let n = column.len();
    let mut up: u128 = gained;
    let mut down: u128 = lost;
    let mut i: usize = 0;
    assert(vals.take(0) =~= Seq::<int>::empty());
    while i < n
        invariant
            i <= n,
            n == vals.len(),
            vals == column@.values,
            rows + n <= u64::MAX,
            up <= (rows + i) * 0xffff_ffff_ffff_ffff,
            down <= (rows + i) * 0x8000_0000_0000_0000,
            up - down == gained - lost + total(vals.take(i as int)),
        decreases n - i,
    {
        let v = column.get(i).unwrap().widen();
        assert(vals.take(i + 1).drop_last() =~= vals.take(i as int));
        assert(-0x8000_0000_0000_0000 <= v <= 0xffff_ffff_ffff_ffff);
        if v >= 0 {
            up = up + v as u128;
        } else {
            down = down + (-v) as u128;
        }
        i = i + 1;
    }
    assert(vals.take(n as int) =~= vals);
    (up, down)
}

/// The least of `state` and the values of `column`.
fn least_of(state: Option<i128>, column: &DataArray) -> (r: Option<i128>)
    ensures
        view_state(r) == if column@.values.len() == 0 {
            view_state(state)
        } else {
            Some(lesser(view_state(state), column@.values.min()))
        },
        r == state || (r is Some && column@.data_type.holds(r->Some_0 as int)),
{
    let ghost vals = column@.values;
    let n = column.len();
    let mut acc: Option<i128> = state;
    let mut i: usize = 0;
    while i < n
        invariant
            i <= n,
            n == vals.len(),
            vals == column@.values,
            view_state(acc) == if i == 0 {
                view_state(state)
            } else {
                Some(lesser(view_state(state), vals.take(i as int).min()))
            },
            acc == state || (acc is Some && column@.data_type.holds(acc->Some_0 as int)),
        decreases n - i,
    {
        let v = column.get(i).unwrap().widen();
        proof {
            assert(vals.take(i + 1) =~= vals.take(i as int) + seq![v as int]);
            if i > 0 {
                lemma_min_concat(vals.take(i as int), seq![v as int]);
            }
        }
        acc = match acc {
            Some(m) => if m <= v {
                Some(m)
            } else {
                Some(v)
            },
            None => Some(v),
        };
        i = i + 1;
    }
    assert(vals.take(n as int) =~= vals);
    acc
}

/// The greatest of `state` and the values of `column`.
fn greatest_of(state: Option<i128>, column: &DataArray) -> (r: Option<i128>)
    ensures
        view_state(r) == if column@.values.len() == 0 {
            view_state(state)
        } else {
            Some(greater(view_state(state), column@.values.max()))
        },
        r == state || (r is Some && column@.data_type.holds(r->Some_0 as int)),
{
    let ghost vals = column@.values;
    let n = column.len();
    let mut acc: Option<i128> = state;
    let mut i: usize = 0;
    while i < n
        invariant
            i <= n,
            n == vals.len(),
            vals == column@.values,
            view_state(acc) == if i == 0 {
                view_state(state)
            } else {
                Some(greater(view_state(state), vals.take(i as int).max()))
            },
            acc == state || (acc is Some && column@.data_type.holds(acc->Some_0 as int)),
        decreases n - i,
    {
        let v = column.get(i).unwrap().widen();
        proof {
            assert(vals.take(i + 1) =~= vals.take(i as int) + seq![v as int]);
            if i > 0 {
                lemma_max_concat(vals.take(i as int), seq![v as int]);
            }
        }
        acc = match acc {
            Some(m) => if m >= v {
                Some(m)
            } else {
                Some(v)
            },
            None => Some(v),
        };
        i = i + 1;
    }
    assert(vals.take(n as int) =~= vals);
    acc
}

impl AggregateFunction {
    #[verifier::type_invariant]
    spec fn state_in_range(self) -> bool {
        &&& self@.well_formed()
        &&& self.kind != AggregateKind::Sum ==> self.gained == 0 && self.lost == 0
        &&& self.gained <= self.rows * 0xffff_ffff_ffff_ffff
        &&& self.lost <= self.rows * 0x8000_0000_0000_0000
    }

    /// Builds the function of the given kind over `column`, with nothing taken in.
    pub fn new(kind: AggregateKind, column: Arc<Function>, data_type: DataType) -> (f:
        AggregateFunction)
        ensures
            f@ == FunctionView::fresh(kind, column@, data_type),
    {
        AggregateFunction { kind, column, data_type, rows: 0, state: None, gained: 0, lost: 0 }
    }

    /// Takes the values that `block` holds in the function's column into the state.
    ///
    /// A block that cannot go in leaves the state as it was.
    pub fn accumulate(&mut self, block: &DataBlock) -> (r: Result<(), Error>)
        ensures
            match r {
                Ok(_) => old(self)@.accumulate(block@) == Ok::<FunctionView, ErrorView>(
                    final(self)@,
                ) && final(self)@.well_formed(),
                Err(e) => old(self)@.accumulate(block@) == Err::<FunctionView, ErrorView>(e@)
                    && final(self)@ == old(self)@,
            },
    {
        proof {
            use_type_invariant(&*self);
        }
        let column = match block.column_by_name(self.column.name()) {
            Some(c) => c,
            None => {
                return Err(Error::UnknownColumn(String::from_str(self.column.name())));
            },
        };
        if self.kind != AggregateKind::Count && column.data_type() != self.data_type {
            return Err(
                Error::TypeMismatch { expected: self.data_type, actual: column.data_type() },
            );
        }
        match self.kind {
            AggregateKind::Count => {
                let n = column.len() as u64;
                if n > u64::MAX - self.rows {
                    return Err(Error::Overflow);
                }
                self.rows = self.rows + n;
            },
            AggregateKind::Sum => {
                let n = column.len() as u64;
                if n > u64::MAX - self.rows {
                    return Err(Error::Overflow);
                }
                let (gained, lost) = sum_into(self.gained, self.lost, self.rows, column);
                self.rows = self.rows + n;
                self.gained = gained;
                self.lost = lost;
            },
            AggregateKind::Min => {
                self.state = least_of(self.state, column);
            },
            AggregateKind::Max => {
                self.state = greatest_of(self.state, column);
            },
        }
        Ok(())
    }

    /// Returns the type of the result. The schema of the input has no say in it.
    pub fn return_type(&self, input_schema: &DataSchema) -> (r: Result<DataType, Error>)
        ensures
            r matches Ok(t) && t == self@.return_type(),
    {
        match self.kind {
            AggregateKind::Count => Ok(DataType::UInt64),
            _ => Ok(self.data_type),
        }
    }

    /// Returns the result of all that was taken in.
    pub fn aggregate(&self) -> (r: Result<DataValue, Error>)
        ensures
            match r {
                Ok(v) => self@.aggregate() == Ok::<DataValue, ErrorView>(v),
                Err(e) => self@.aggregate() == Err::<DataValue, ErrorView>(e@),
            },
    {
        proof {
            use_type_invariant(self);
        }
        match self.kind {
            AggregateKind::Count => Ok(DataValue::UInt64(self.rows)),
            AggregateKind::Sum => {
                // Beyond the signed 128-bit range the sum is a value of no type.
                let sum: Option<i128> = if self.gained >= self.lost {
                    let above = self.gained - self.lost;
                    if above <= i128::MAX as u128 {
                        Some(above as i128)
                    } else {
                        None
                    }
                } else {
                    let below = self.lost - self.gained;
                    if below <= i128::MAX as u128 {
                        Some(-(below as i128))
                    } else {
                        None
                    }
                };
                match sum {
                    Some(s) => match DataValue::narrow(self.data_type, s) {
                        Some(value) => Ok(value),
                        None => Err(Error::Overflow),
                    },
                    None => Err(Error::Overflow),
                }
            },
            _ => match self.state {
                Some(v) => match DataValue::narrow(self.data_type, v) {
                    Some(value) => Ok(value),
                    None => Err(Error::EmptyAggregate),
                },
                None => Err(Error::EmptyAggregate),
            },
        }
    }
}

/// The registry of aggregate functions by name.
pub struct AggregateFunctionFactory {}

impl AggregateFunctionFactory {
    /// Builds the function that `name` stands for, whatever the case of its
    /// letters, over `column`, with nothing taken in. A name that stands for
    /// no function is refused, and the failure carries it.
    pub fn get(name: &str, column: Arc<Function>, data_type: &DataType) -> (r: Result<
        AggregateFunction,
        Error,
    >)
        ensures
            match r {
                Ok(f) => kind_of(name@) is Some && f@ == FunctionView::fresh(
                    kind_of(name@)->Some_0,
                    column@,
                    *data_type,
                ),
                Err(e) => kind_of(name@) is None && e@ == ErrorView::Unsupported(name@),
            },
    {
        match AggregateKind::parse(name) {
            Some(kind) => Ok(AggregateFunction::new(kind, column, *data_type)),
            None => Err(Error::Unsupported(String::from_str(name))),
        }
    }
}

} // verus!
