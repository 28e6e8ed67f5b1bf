//! Instants and calendar days.
//!
//! An instant is a count of milliseconds since the Unix epoch, in UTC. A day is
//! the count of whole UTC days since the epoch.

use vstd::prelude::*;

verus! {

/// Milliseconds in one UTC calendar day.
pub const MILLIS_PER_DAY: i64 = 86_400_000;

/// Milliseconds in one second.
pub const MILLIS_PER_SECOND: i64 = 1_000;

/// The UTC calendar day that holds the instant `at`: the floor of `at / 86_400_000`.
pub open spec fn day_of(at: i64) -> int {
    at as int / MILLIS_PER_DAY as int
}

/// Computes the UTC calendar day of an instant, rounding toward negative
/// infinity so that instants before the epoch fall in negative days.
pub fn day_index(at: i64) -> (day: i64)
    ensures
        day == day_of(at),
{
    if at >= 0 {
        at / MILLIS_PER_DAY
    } else {
        let ahead: i64 = -(at + 1);
        let q: i64 = ahead / MILLIS_PER_DAY;
        -q - 1
    }
}

/// An instant later than any the clock can give: 262143 years of 366 days
/// after the epoch.
pub const CLOCK_END: i64 = 8_289_590_803_200_000;

/// The current instant, read from the system clock through
/// `chrono::Utc::now` and `DateTime::timestamp_millis`. `Utc::now` measures
/// the time elapsed since the Unix epoch, so the instant is never negative,
/// and it holds it in a calendar that ends with the year 262142, so the
/// instant lies before [`CLOCK_END`]. Nothing else is known of it.
#[verifier::external_body]
pub(crate) fn utc_now_millis() -> (now: i64)
    ensures
        0 <= now < CLOCK_END,
{
    chrono::Utc::now().timestamp_millis()
}

} // verus!
