//! The clock and the calendar, both left to the `chrono` crate. Time is
//! counted in whole seconds since the Unix epoch, in UTC.

use vstd::prelude::*;

verus! {

/// The calendar date of a timestamp as `chrono` writes it with the format
/// `%Y-%m-%d`, or `None` where the timestamp is outside the dates that
/// `chrono` can hold.
pub uninterp spec fn utc_date_text(seconds: i64) -> Option<Seq<char>>;

/// Calls `chrono::Utc::now` and gives the seconds of the result
/// (`DateTime::timestamp`). The value is what the system clock says, so
/// nothing is claimed of it: it may be lower than an earlier reading. The call
/// fails only where the system clock stands before the epoch.
#[verifier::external_body]
pub(crate) fn now_seconds() -> (now: i64) {
    chrono::Utc::now().timestamp()
}

/// Calls `chrono::Utc::now` and formats the result with `%Y%m%d`
/// (`DateTime::format`): the current UTC date in eight digits for the years 0
/// to 9999. Nothing is claimed of the text, as it depends on the clock.
#[verifier::external_body]
pub(crate) fn today_stamp() -> (stamp: String) {
    chrono::Utc::now().format("%Y%m%d").to_string()
}

/// Calls `chrono::DateTime::from_timestamp` with no nanoseconds and formats the
/// date with `%Y-%m-%d` (`DateTime::format`). The contract only names the
/// result, which depends on the timestamp alone: the time zone is UTC.
#[verifier::external_body]
pub(crate) fn format_date(seconds: i64) -> (text: Option<String>)
    ensures
        match text {
            Some(t) => utc_date_text(seconds) == Some(t@),
            None => utc_date_text(seconds) is None,
        },
{
    match chrono::DateTime::from_timestamp(seconds, 0) {
        Some(moment) => Some(moment.format("%Y-%m-%d").to_string()),
        None => None,
    }
}

} // verus!
