//! Processors: the stages of a pull-based pipeline.

pub mod empty_processor;
pub mod processor;

pub use self::empty_processor::EmptyProcessor;
pub use self::processor::{outcome_view, IProcessor, Outcome, ProcessorRef};
