//! The execution core of a columnar query engine: a pull-based pipeline of
//! processors over batches of columnar data, ending in the aggregate
//! transforms COUNT, MIN, MAX and SUM that reduce a stream to one row.

pub mod datablocks;
pub mod datastreams;
pub mod datavalues;
pub mod error;
pub mod functions;
pub mod planners;
pub mod processors;
pub mod transforms;
