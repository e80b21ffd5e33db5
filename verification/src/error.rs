//! The failures that a pipeline run can end in.

use crate::datavalues::DataType;
use vstd::prelude::*;

verus! {

/// Why a pipeline stage failed.
#[derive(Debug, PartialEq, Eq)]
pub enum Error {
    /// The name is not that of a known aggregate.
    Unsupported(String),
    /// A block holds no column of this name.
    UnknownColumn(String),
    /// A column's runtime type is not the type the function works on.
    TypeMismatch { expected: DataType, actual: DataType },
    /// A sum is no value of its type, or more values went into a count or a
    /// sum than an unsigned 64-bit number can tell.
    Overflow,
    /// A minimum or maximum was asked of no rows at all.
    EmptyAggregate,
    /// A failure that a processor or stream reports in its own words.
    Internal(String),
}

/// An [`Error`] as contracts see it: strings by their characters.
pub enum ErrorView {
    Unsupported(Seq<char>),
    UnknownColumn(Seq<char>),
    TypeMismatch { expected: DataType, actual: DataType },
    Overflow,
    EmptyAggregate,
    Internal(Seq<char>),
}

impl View for Error {
    type V = ErrorView;

    open spec fn view(&self) -> ErrorView {
        match self {
            Error::Unsupported(name) => ErrorView::Unsupported(name@),
            Error::UnknownColumn(name) => ErrorView::UnknownColumn(name@),
            Error::TypeMismatch { expected, actual } => ErrorView::TypeMismatch {
                expected: *expected,
                actual: *actual,
            },
            Error::Overflow => ErrorView::Overflow,
            Error::EmptyAggregate => ErrorView::EmptyAggregate,
            Error::Internal(text) => ErrorView::Internal(text@),
        }
    }
}

} // verus!
