//! Calendar rendering of Unix times.

use crate::codec::{decimal_value, parse_i64};
use vstd::prelude::*;

verus! {

/// The calendar rendering `YYYY-MM-DD HH:MM:SS` (with a fraction of a second
/// only when there is one) of a count of milliseconds since the Unix epoch,
/// in UTC; `None` when the instant lies outside the calendar's range.
pub uninterp spec fn utc_text_of_millis(ms: int) -> Option<Seq<char>>;

/// The last millisecond of the year 9999, plus one.
pub const YEAR_10000_MILLIS: i64 = 253402300800000;

/// Relies on chrono's `DateTime::from_timestamp_millis` and the `Display` of
/// `NaiveDateTime`: the text depends on the millisecond count alone, and every
/// instant from the epoch to the end of the year 9999 is in range.
#[verifier::external_body]
fn utc_text_from_millis(ms: i64) -> (r: Option<String>)
    ensures
        match utc_text_of_millis(ms as int) {
            Some(t) => r is Some && r->Some_0@ == t,
            None => r is None,
        },
        0 <= ms < YEAR_10000_MILLIS ==> r is Some,
{
    match chrono::DateTime::from_timestamp_millis(ms) {
        Some(t) => Some(t.naive_utc().to_string()),
        None => None,
    }
}

/// The derived genesis time: the decimal count of whole seconds `ts` read as
/// a Unix time and rendered in UTC.
pub open spec fn genesis_time_text(ts: Seq<char>) -> Option<Seq<char>> {
    match decimal_value(ts) {
        Some(v) => if i64::MIN <= v * 1000 <= i64::MAX {
            utc_text_of_millis(v * 1000)
        } else {
            None
        },
        None => None,
    }
}

/// Renders the genesis timestamp that the node reports (whole seconds since
/// the epoch, in decimal) as a UTC calendar time.
pub fn genesis_time(ts: &str) -> (r: Option<String>)
    ensures
        match genesis_time_text(ts@) {
            Some(t) => r is Some && r->Some_0@ == t,
            None => r is None,
        },
        decimal_value(ts@) matches Some(v) && 0 <= v < YEAR_10000_MILLIS / 1000 ==> r is Some,
{
    match parse_i64(ts) {
        Some(secs) => {
            if secs > i64::MAX / 1000 || secs < i64::MIN / 1000 {
                None
            } else {
                utc_text_from_millis(secs * 1000)
            }
        },
        None => None,
    }
}

/// Whole milliseconds in a count of nanoseconds, rounded toward zero.
pub open spec fn nanos_to_millis(n: int) -> int {
    if n >= 0 {
        n / 1_000_000
    } else {
        -((-n) / 1_000_000)
    }
}

/// Renders a record's timestamp, stored in nanoseconds since the epoch, as a
/// UTC calendar time to the millisecond.
pub fn timestamp_text(nanos: i64) -> (r: Option<String>)
    ensures
        match utc_text_of_millis(nanos_to_millis(nanos as int)) {
            Some(t) => r is Some && r->Some_0@ == t,
            None => r is None,
        },
{
    let ms: i64 = nanos / 1_000_000;
    utc_text_from_millis(ms)
}

} // verus!
