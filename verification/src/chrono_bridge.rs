//! Reading calendar fields out of chrono's `NaiveDateTime`.
//!
//! The serializer itself works on the plain [`Timestamp`] model; chrono is
//! only consulted here, to extract the fields of an already-validated,
//! timezone-normalized point in time.  Each accessor below is trusted with
//! exactly the range that chrono's documentation states for it.

use vstd::prelude::*;
use chrono::Datelike;
use chrono::Timelike;
use crate::time::Timestamp;
use crate::time::Weekday;

verus! {

#[verifier::external_type_specification]
#[verifier::external_body]
pub struct ExNaiveDateTime(chrono::NaiveDateTime);

/// Relies on chrono's `Datelike::year`: the calendar year number.
#[verifier::external_body]
fn dt_year(dt: &chrono::NaiveDateTime) -> i32 {
    dt.year()
}

/// Relies on chrono's `Datelike::month`: documented to range from 1 to 12.
#[verifier::external_body]
fn dt_month(dt: &chrono::NaiveDateTime) -> (m: u32)
    ensures
        1 <= m <= 12,
{
    dt.month()
}

/// Relies on chrono's `Datelike::day`: documented to range from 1 to 31.
#[verifier::external_body]
fn dt_day(dt: &chrono::NaiveDateTime) -> (d: u32)
    ensures
        1 <= d <= 31,
{
    dt.day()
}

/// Relies on chrono's `Datelike::weekday`, with its variants carried over
/// one for one.
#[verifier::external_body]
fn dt_weekday(dt: &chrono::NaiveDateTime) -> Weekday {
    match dt.weekday() {
        chrono::Weekday::Mon => Weekday::Mon,
        chrono::Weekday::Tue => Weekday::Tue,
        chrono::Weekday::Wed => Weekday::Wed,
        chrono::Weekday::Thu => Weekday::Thu,
        chrono::Weekday::Fri => Weekday::Fri,
        chrono::Weekday::Sat => Weekday::Sat,
        chrono::Weekday::Sun => Weekday::Sun,
    }
}

/// Relies on chrono's `Timelike::hour`: documented to range from 0 to 23.
#[verifier::external_body]
fn dt_hour(dt: &chrono::NaiveDateTime) -> (h: u32)
    ensures
        h < 24,
{
    dt.hour()
}

/// Relies on chrono's `Timelike::minute`: documented to range from 0 to 59.
#[verifier::external_body]
fn dt_minute(dt: &chrono::NaiveDateTime) -> (m: u32)
    ensures
        m < 60,
{
    dt.minute()
}

impl Timestamp {
    /// Reduces a chrono `NaiveDateTime` to the calendar fields the
    /// serializer prints.
    pub fn from_datetime(dt: &chrono::NaiveDateTime) -> (t: Timestamp)
        ensures
            t.wf(),
    {
        Timestamp {
            year: dt_year(dt),
            month: dt_month(dt),
            day: dt_day(dt),
            weekday: dt_weekday(dt),
            hour: dt_hour(dt),
            minute: dt_minute(dt),
        }
    }
}

} // verus!
