//! Streams of blocks: what a processor hands to the stage after it.

pub mod memory_stream;
pub mod stream;

pub use self::memory_stream::{limit_view, replay, rows_of, truncate, MemoryStream};
pub use self::stream::{item_view, DataBlockStream, StreamView};
