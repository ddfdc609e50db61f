//! The failures a browsing session can end in.
use vstd::prelude::*;

verus! {

/// What went wrong while reading the store. Every kind is fatal for the
/// action it interrupts: a read-only snapshot that failed once fails the
/// same way on retry.
#[derive(Clone, Copy, Debug, PartialEq, Eq, Structural)]
pub enum BrowseError {
    /// The path does not refer to a valid environment, or it could not be
    /// opened with the requested table-count capacity.
    OpenError,
    /// A catalog key is not valid text.
    DecodingError,
    /// The selected table is missing at open time.
    TableNotFoundError,
    /// The engine failed while advancing a cursor.
    CursorError,
}

} // verus!
