//! The crate-wide error type: every fallible operation of the library reports
//! one of these typed, recoverable failures.

use vstd::prelude::*;
use vstd::string::StringExecFns;

verus! {

/// What can go wrong while validating units, parsing names, deriving dates or
/// splitting command text.
#[derive(Debug, Clone, Copy, PartialEq, Eq, Structural)]
pub enum AppError {
    /// A year above what the date primitive supports.
    YearOutOfBounds,
    /// A month outside 1..=12.
    MonthOutOfBounds,
    /// A day of month outside 1..=31.
    DayOutOfBounds,
    /// Units in range, but no such calendar date (February 30th and kin).
    InvalidDate,
    /// A name that does not have the expected number of fields.
    InvalidFormat,
    /// A year field that is not a decimal number.
    YearNotNumeric,
    /// A month field that is not a decimal number.
    MonthNotNumeric,
    /// A day-of-year outside 1..=365 (or 366 in leap years).
    InvalidOrdinalDay,
    /// Day arithmetic left the representable date range.
    DateOutOfRange,
    /// A negative year where only non-negative years make sense.
    NegativeYear,
    /// Command text with an unterminated quoted argument.
    MismatchedQuotes,
}

pub type AppResult<T> = Result<T, AppError>;

impl AppError {
    /// A human-readable description, in place of a `Display` rendering.
    pub fn message(&self) -> String {
        match self {
            AppError::YearOutOfBounds => String::from_str("Year must not be higher than 262142"),
            AppError::MonthOutOfBounds => String::from_str("Month must be between 1 and 12."),
            AppError::DayOutOfBounds => String::from_str("Day of month must be between 1 and 31."),
            AppError::InvalidDate => String::from_str(
                "Year, month and given day together do not form a valid date",
            ),
            AppError::InvalidFormat => String::from_str("Invalid format"),
            AppError::YearNotNumeric => String::from_str("Year not parseable"),
            AppError::MonthNotNumeric => String::from_str("Month not parseable"),
            AppError::InvalidOrdinalDay => String::from_str(
                "Year or day of the year is not valid. Usual range for day is between 1 and 365 or 366 depending on the year and year should not be too big.",
            ),
            AppError::DateOutOfRange => String::from_str(
                "No valid date that far in the past or future",
            ),
            AppError::NegativeYear => String::from_str("year must be positive"),
            AppError::MismatchedQuotes => String::from_str(
                "Missing closing quote for an argument of a given command.",
            ),
        }
    }
}

} // verus!
