//! Column references and the aggregate functions that fold a stream of blocks.

pub mod aggregate_function;
pub mod aggregate_kind;
pub mod fold;
pub mod function;

pub use self::aggregate_function::{AggregateFunction, AggregateFunctionFactory, FunctionView};
pub use self::aggregate_kind::{ascii_lower, kind_of, lowered, AggregateKind};
pub use self::fold::{greater, lesser, reached, total};
pub use self::function::Function;
