//! Unix time of a calendar minute.

use vstd::prelude::*;

verus! {

/// The Unix time, in seconds, of second zero of the given minute of the given
/// day of the proleptic Gregorian calendar, read as UTC; `None` where the date
/// or the time of day does not exist.
pub uninterp spec fn utc_timestamp(year: int, month: int, day: int, hour: int, minute: int) -> Option<i64>;

/// Computes the Unix time of a calendar minute with `chrono`:
/// `NaiveDate::from_ymd_opt`, then `NaiveDate::and_hms_opt` with second zero,
/// then `NaiveDateTime::and_utc` and `DateTime::timestamp`.
///
/// The contract names the result, which depends on the five numbers alone, and
/// claims of it only what the two constructors document: a month outside
/// 1..=12, a day outside 1..=31, an hour above 23 or a minute above 59 gives
/// `None`. None of the four calls panics.
#[verifier::external_body]
pub(crate) fn utc_timestamp_of(year: i32, month: u32, day: u32, hour: u32, minute: u32) -> (r: Option<i64>)
    ensures
        r == utc_timestamp(year as int, month as int, day as int, hour as int, minute as int),
        month < 1 || month > 12 || day < 1 || day > 31 || hour > 23 || minute > 59 ==> r is None,
{
    chrono::NaiveDate::from_ymd_opt(year, month, day)
        .and_then(|date| date.and_hms_opt(hour, minute, 0))
        .map(|minute_start| minute_start.and_utc().timestamp())
}

} // verus!
