//! What can be wrong with the text that the bot is given.

use vstd::prelude::*;

verus! {

/// A text that could not be read as what it was meant to be.
#[derive(Debug, Clone, Copy, PartialEq, Eq, Structural)]
pub enum ParseError {
    /// The record with this index, counted from 0 after the header, is not a
    /// well-formed record of the source.
    MalformedRecord { record: usize },
    /// The record with this index has fewer than four fields.
    MissingField { record: usize },
    /// The record with this index cannot be numbered: the identifiers are
    /// used up.
    TooManyRecords { record: usize },
    /// A response body is no JSON document.
    InvalidJson,
    /// The identifier of an accepted post is no integer.
    InvalidIdentifier,
    /// The text of an accepted post is absent, or no string.
    MissingText,
    /// The reason of a refused post is absent, or no string.
    MissingTitle,
    /// The status of a refused post is absent, or no integer.
    MissingStatus,
}

/// A result as contracts speak of it: its value by its view, its error as
/// it is.
pub open spec fn viewed<T: View>(result: Result<T, ParseError>) -> Result<T::V, ParseError> {
    match result {
        Ok(value) => Ok(value@),
        Err(error) => Err(error),
    }
}

} // verus!
