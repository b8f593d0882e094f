//! The ways in which the preparation of a text fails.

use vstd::prelude::*;

verus! {

/// A field of a profile that the preparation of a text needs.
#[derive(Clone, Copy, Debug, PartialEq, Eq, Structural)]
pub enum Field {
    Body,
    Subject,
    DateSpec,
    Format,
}

/// Why no text could be prepared. Every failure ends the preparation.
#[derive(Clone, Copy, Debug, PartialEq, Eq, Structural)]
pub enum PrepareError {
    /// The profile lacks a field at the point where it is needed.
    MissingRequiredField(Field),
    /// `date_spec` does not name a weekday.
    UnparsableWeekday,
    /// The date of the next occurrence lies outside the calendar's range.
    DateOutOfRange,
    /// The capture pattern does not compile.
    PatternError,
    /// The data file could not be opened, or a line of it could not be read.
    IoError,
    /// No line of the data file has the expected date.
    NoMatchError,
    /// The substitution itself failed.
    TemplateError,
}

} // verus!
