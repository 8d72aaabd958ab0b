//! Timestamps and the weekly rollover rule.
//!
//! A timestamp is a count of seconds since the Unix epoch, restricted to
//! the range a four-digit-year RFC 3339 text can carry. The tracking week
//! is the ISO calendar week, with an extra boundary at the end of Sunday:
//! activity recorded on a Sunday must not leak into the next week when it
//! is re-examined after midnight, even if the ISO week number alone has
//! not changed yet.

use chrono::Datelike;
use vstd::prelude::*;

verus! {

/// One past the largest second count a timestamp may carry
/// (the first instant of year 10000).
pub const TS_BOUND: i64 = 253402300800;

/// The weekday number of Sunday, counting days from Monday.
pub const SUNDAY: u32 = 6;

/// The ISO week number of the instant `secs` seconds after the Unix epoch.
pub uninterp spec fn iso_week_num(secs: i64) -> u32;

/// The weekday of the instant `secs` seconds after the Unix epoch,
/// counted as days from Monday (so Monday is 0 and Sunday is 6).
pub uninterp spec fn weekday_num(secs: i64) -> u32;

/// The RFC 3339 text for the instant `secs` seconds after the Unix epoch.
pub uninterp spec fn rfc3339_of(secs: i64) -> Seq<char>;

/// The instant an RFC 3339 text denotes, in seconds after the Unix epoch,
/// or `None` where the text is not a valid RFC 3339 timestamp.
pub uninterp spec fn parse_ts(s: Seq<char>) -> Option<i64>;

/// An instant in time (UTC), as whole seconds since the Unix epoch.
#[derive(Clone, Copy, Debug, PartialEq, Eq, Structural)]
pub struct Timestamp {
    pub secs: i64,
}

impl Timestamp {
    /// The timestamp lies in the range the row encoding can carry.
    pub open spec fn wf(self) -> bool {
        0 <= self.secs < TS_BOUND
    }

    /// Builds a timestamp from a second count.
    pub fn new(secs: i64) -> (r: Timestamp)
        requires
            0 <= secs < TS_BOUND,
        ensures
            r.secs == secs,
            r.wf(),
    {
        Timestamp { secs }
    }
}

/// Relies on `chrono::DateTime::from_timestamp` and
/// `chrono::Datelike::iso_week`: the ISO week number of the given instant,
/// which chrono documents to lie in 1..=53.
#[verifier::external_body]
pub fn iso_week_of(secs: i64) -> (r: u32)
    requires
        0 <= secs < TS_BOUND,
    ensures
        r == iso_week_num(secs),
        1 <= r <= 53,
{
    chrono::DateTime::<chrono::Utc>::from_timestamp(secs, 0)
        .unwrap()
        .iso_week()
        .week()
}

/// Relies on `chrono::DateTime::from_timestamp` and
/// `chrono::Datelike::weekday` with `Weekday::num_days_from_monday`,
/// which chrono documents to return a number in 0..=6.
#[verifier::external_body]
pub fn weekday_of(secs: i64) -> (r: u32)
    requires
        0 <= secs < TS_BOUND,
    ensures
        r == weekday_num(secs),
        r <= 6,
{
    chrono::DateTime::<chrono::Utc>::from_timestamp(secs, 0)
        .unwrap()
        .weekday()
        .num_days_from_monday()
}

/// Relies on `chrono::DateTime::to_rfc3339`: the RFC 3339 text of the
/// given instant. The text always spells out a full date and time (at
/// least 20 characters), and `chrono::DateTime::parse_from_rfc3339`
/// parses it back to the same instant.
#[verifier::external_body]
pub fn format_rfc3339(secs: i64) -> (r: String)
    requires
        0 <= secs < TS_BOUND,
    ensures
        r@ == rfc3339_of(secs),
        r@.len() >= 20,
        parse_ts(r@) == Some(secs),
{
    chrono::DateTime::<chrono::Utc>::from_timestamp(secs, 0)
        .unwrap()
        .to_rfc3339()
}

/// Relies on `chrono::DateTime::parse_from_rfc3339`: parses an RFC 3339
/// text and returns the instant it denotes in whole seconds, or `None`
/// where the text does not parse.
#[verifier::external_body]
pub fn parse_rfc3339(s: &str) -> (r: Option<i64>)
    ensures
        r == parse_ts(s@),
{
    match chrono::DateTime::parse_from_rfc3339(s) {
        Ok(d) => Some(d.timestamp()),
        Err(_) => None,
    }
}

/// The weekly rollover rule on the numbers the calendar gives: the week
/// has rolled over when the ISO week numbers differ, or when the earlier
/// instant fell on a Sunday and the later one does not.
pub open spec fn rolled_over_nums(
    prev_week: u32,
    prev_wd: u32,
    now_week: u32,
    now_wd: u32,
) -> bool {
    prev_week != now_week || (prev_wd == SUNDAY && now_wd != SUNDAY)
}

/// The rollover rule on two instants, through the calendar of `chrono`.
pub open spec fn spec_rolled_over(prev: Timestamp, now: Timestamp) -> bool {
    rolled_over_nums(
        iso_week_num(prev.secs),
        weekday_num(prev.secs),
        iso_week_num(now.secs),
        weekday_num(now.secs),
    )
}

/// Decides the rollover rule from week numbers and weekdays alone.
pub fn rolled_over_parts(prev_week: u32, prev_wd: u32, now_week: u32, now_wd: u32) -> (r: bool)
    ensures
        r == rolled_over_nums(prev_week, prev_wd, now_week, now_wd),
{
    if prev_week != now_week {
        return true;
    }
    if prev_wd == SUNDAY && now_wd != SUNDAY {
        return true;
    }
    false
}

/// Whether the tracking week has rolled over between `previous` and `now`:
/// true exactly when the ISO week of `now` differs from the ISO week of
/// `previous`, or `previous` falls on a Sunday and `now` does not.
pub fn has_date_rolled_over(previous: Timestamp, now: Timestamp) -> (r: bool)
    requires
        previous.wf(),
        now.wf(),
    ensures
        r == spec_rolled_over(previous, now),
{
    let prev_week = iso_week_of(previous.secs);
    let prev_wd = weekday_of(previous.secs);
    let now_week = iso_week_of(now.secs);
    let now_wd = weekday_of(now.secs);
    rolled_over_parts(prev_week, prev_wd, now_week, now_wd)
}

} // verus!
