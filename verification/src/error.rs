//! The failures that the library reports.

use vstd::prelude::*;

verus! {

/// Why an operation failed. Each variant calls for a different remedy.
#[derive(Clone, Copy, Debug, PartialEq, Eq, Structural)]
pub enum HolidayError {
    /// The remote source could not be reached, timed out, or answered with a
    /// status outside 200..=299.
    Network,
    /// A date has none of the supported formats, or the downloaded bytes are
    /// not valid Shift_JIS, or the table is not well-formed CSV.
    Parse,
    /// The cache file is missing, unreadable, undecodable or unwritable.
    CacheIo,
    /// The configuration names an unknown strategy or holds a value out of
    /// range.
    Config,
    /// A query was made before the holiday table was loaded.
    NotInitialized,
    /// A range query was made with a start date after the end date.
    InvalidRange,
}

impl HolidayError {
    /// A sentence for the end user that tells the failures apart.
    pub fn message(&self) -> (text: &'static str)
        ensures
            text@ == self.message_text(),
    {
        match self {
            HolidayError::Network => "Could not reach the holiday data source. Please check your internet connection.",
            HolidayError::Parse => "Invalid date format or holiday data. Please use one of these date formats: YYYYMMDD, YYYY-MM-DD, YYYY/MM/DD, YYYY年MM月DD日, MM/DD/YYYY, DD/MM/YYYY, or YYYY.MM.DD",
            HolidayError::CacheIo => "Could not read or write the cache file. Please check permissions and disk space.",
            HolidayError::Config => "Invalid configuration: unknown cache strategy or value out of range.",
            HolidayError::NotInitialized => "Holiday service not initialized",
            HolidayError::InvalidRange => "Start date must be before or equal to end date",
        }
    }

    /// The text of [`HolidayError::message`].
    pub open spec fn message_text(&self) -> Seq<char> {
        match self {
            HolidayError::Network => "Could not reach the holiday data source. Please check your internet connection."@,
            HolidayError::Parse => "Invalid date format or holiday data. Please use one of these date formats: YYYYMMDD, YYYY-MM-DD, YYYY/MM/DD, YYYY年MM月DD日, MM/DD/YYYY, DD/MM/YYYY, or YYYY.MM.DD"@,
            HolidayError::CacheIo => "Could not read or write the cache file. Please check permissions and disk space."@,
            HolidayError::Config => "Invalid configuration: unknown cache strategy or value out of range."@,
            HolidayError::NotInitialized => "Holiday service not initialized"@,
            HolidayError::InvalidRange => "Start date must be before or equal to end date"@,
        }
    }
}

} // verus!
