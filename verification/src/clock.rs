//! The wall clock. Nothing here is proved.

use chrono::{Datelike, Utc};
use vstd::prelude::*;

verus! {

/// A point in time, in the calendar of the time zone UTC.
#[derive(Clone, Copy, Debug, PartialEq, Eq, Structural)]
pub struct Moment {
    /// Milliseconds since the start of 1970.
    pub millis: i64,
    /// The year of the calendar date.
    pub year: i32,
    /// The month of the calendar date, from 1 for January to 12.
    pub month: u32,
}

/// `Utc::now` of chrono, as `timestamp_millis`, `year` and `month` give it.
/// Nothing is promised of the time; the month is from 1 to 12.
#[verifier::external_body]
pub(crate) fn now() -> (moment: Moment)
    ensures
        1 <= moment.month <= 12,
{
    let now = Utc::now();
    Moment { millis: now.timestamp_millis(), year: now.year(), month: now.month() }
}

} // verus!
