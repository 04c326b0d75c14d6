//! The service's clock: instants in whole seconds.
//!
//! An instant is the number of non-leap seconds since midnight of
//! 1 January 1970, read off a calendar date and a time of day.

use vstd::prelude::*;

verus! {

/// Every instant that the calendar can express lies strictly between
/// `-INSTANT_LIMIT` and `INSTANT_LIMIT`: its years stay within 262144 of
/// year 0, which is under 2^27 days and so under 2^44 seconds.
pub const INSTANT_LIMIT: i64 = 0x1000_0000_0000;

/// Whether `instant` is one that the calendar can express.
pub open spec fn is_instant(instant: int) -> bool {
    -(INSTANT_LIMIT as int) < instant < INSTANT_LIMIT as int
}

/// The instant that the text of a date tag stands for, read as
/// `%Y-%m-%d %H:%M:%S`; `None` where the text is not of that form or
/// names no date and time.
pub uninterp spec fn date_tag_instant(text: Seq<char>) -> Option<i64>;

/// The wall-clock time of the machine's time zone, now.
///
/// Calls `chrono::Local::now`, then `naive_local` and
/// `and_utc().timestamp()` to count the seconds of that local date and time.
/// The contract claims only that the result is in the calendar's range.
#[verifier::external_body]
pub(crate) fn local_now() -> (r: i64)
    ensures
        is_instant(r as int),
{
    chrono::Local::now().naive_local().and_utc().timestamp()
}

/// The time in UTC, now.
///
/// Calls `chrono::Utc::now` and `timestamp`. The contract claims only that
/// the result is in the calendar's range.
#[verifier::external_body]
pub(crate) fn utc_now() -> (r: i64)
    ensures
        is_instant(r as int),
{
    chrono::Utc::now().timestamp()
}

/// Reads a date tag.
///
/// Calls `chrono::NaiveDateTime::parse_from_str` with the format
/// `%Y-%m-%d %H:%M:%S` and counts the seconds of what it returns. The
/// contract names the result `date_tag_instant` of the text, and claims that
/// it is in the calendar's range.
#[verifier::external_body]
pub(crate) fn parse_date_tag(text: &str) -> (r: Option<i64>)
    ensures
        r == date_tag_instant(text@),
        r matches Some(instant) ==> is_instant(instant as int),
{
    match chrono::NaiveDateTime::parse_from_str(text, "%Y-%m-%d %H:%M:%S") {
        Ok(moment) => Some(moment.and_utc().timestamp()),
        Err(_) => None,
    }
}

} // verus!
