//! The typed failures of extraction.

use vstd::prelude::*;

verus! {

/// Why a content file could not be turned into a record.
#[derive(Debug, Clone, PartialEq, Eq)]
pub enum ExtractError {
    /// The file could not be read. The library never reads files itself:
    /// callers that do, report an unreadable file with this variant.
    IoFailure { message: String },
    /// The text is too short to hold a header at all.
    EmptyOrTruncated,
    /// The opening marker is never followed by a closing one.
    MissingHeaderTerminator,
    /// The file name does not decode into year, month, day and slug.
    MalformedFilename,
    /// The header block could not be read as a header. Reading it is the
    /// caller's part, and so is reporting this.
    InvalidHeader { message: String },
    /// The header names another layout than the record kind asks for.
    UnexpectedLayout { expected: String, actual: String, path: String },
    /// Year, month and day do not name a day of the calendar.
    InvalidCalendarDate { year: i32, month: u32, day: u32 },
}

} // verus!
