//! Transforms: the processors that compute on what they pull.

pub mod aggregation;
pub mod laws;
pub mod transform_aggregator;

pub use self::aggregation::{drain, is_unconnected, output_block, run, TransformView};
pub use self::transform_aggregator::{
    AggregatorTransform, CountTransform, MaxTransform, MinTransform, Progress, SumTransform,
};
