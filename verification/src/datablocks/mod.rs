//! Blocks: the batches of columnar data that flow through a pipeline.

pub mod data_block;

pub use self::data_block::{BlockView, DataBlock};
