//! The clock: the time now, and the date today.

use crate::date::Date;
use crate::timestamp::Timestamp;
use chrono::Datelike;
use vstd::prelude::*;

verus! {

/// Reads the clock with `chrono::Utc::now` and takes the seconds and
/// nanoseconds since the start of 1970 off the result.
///
/// Trusted: nothing is claimed of the time that comes back. chrono expects
/// the system clock not to be set to a time before 1970.
#[verifier::external_body]
pub(crate) fn utc_now() -> Timestamp {
    let now = chrono::Utc::now();
    Timestamp { secs: now.timestamp(), nanos: now.timestamp_subsec_nanos() }
}

/// Reads the clock with `chrono::Local::now` and takes year, month and day
/// off the date in the local time zone.
///
/// Trusted: a date that chrono returns is a day of the proleptic Gregorian
/// calendar in a year from -262143 to 262142. Nothing is claimed of which
/// day it is.
#[verifier::external_body]
pub(crate) fn local_today() -> (today: Date)
    ensures
        today@.is_valid(),
{
    let today = chrono::Local::now().date_naive();
    Date { year: today.year(), month: today.month(), day: today.day() }
}

} // verus!
