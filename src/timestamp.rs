use chrono::{Datelike, TimeZone};
use vstd::prelude::*;

verus! {

/// Seconds in one day.
pub const SECONDS_PER_DAY: i64 = 86400;

/// An instant with the fixed UTC offset it was written in: seconds since the
/// Unix epoch (UTC) and the offset of local time from UTC, in seconds.
#[derive(Clone, Copy, Debug, PartialEq, Eq, Structural)]
pub struct Timestamp {
    pub utc_secs: i64,
    pub offset_secs: i32,
}

/// What chrono's `DateTime::parse_from_str(s, "%Y-%m-%d %H:%M:%S %z")` yields
/// for `s`, as epoch seconds and offset; `None` where it reports an error.
pub uninterp spec fn timestamp_of(s: Seq<char>) -> Option<Timestamp>;

/// Whole days from `t` to `now`, truncated toward zero (negative when `t`
/// lies in the future).
pub open spec fn elapsed_days(now: int, t: int) -> int {
    if now >= t {
        (now - t) / (SECONDS_PER_DAY as int)
    } else {
        -((t - now) / (SECONDS_PER_DAY as int))
    }
}

impl Timestamp {
    pub fn new(utc_secs: i64, offset_secs: i32) -> (r: Timestamp)
        ensures
            r.utc_secs == utc_secs,
            r.offset_secs == offset_secs,
    {
        Timestamp { utc_secs, offset_secs }
    }

    /// Whole days elapsed from this instant to `now` (epoch seconds),
    /// truncated toward zero.
    pub fn days_until(&self, now: i64) -> (r: i64)
        ensures
            r == elapsed_days(now as int, self.utc_secs as int),
    {
        let now_w = now as i128;
        let t_w = self.utc_secs as i128;
        if now_w >= t_w {
            let d: i128 = (now_w - t_w) / (SECONDS_PER_DAY as i128);
            assert(d <= (now_w - t_w)) by (nonlinear_arith)
                requires now_w - t_w >= 0, d == (now_w - t_w) / 86400;
            d as i64
        } else {
            let d: i128 = (t_w - now_w) / (SECONDS_PER_DAY as i128);
            assert(d <= (t_w - now_w)) by (nonlinear_arith)
                requires t_w - now_w >= 0, d == (t_w - now_w) / 86400;
            (-d) as i64
        }
    }
}

/// Relies on chrono's `DateTime::parse_from_str` with the format
/// `%Y-%m-%d %H:%M:%S %z`, and on `timestamp` and `offset().local_minus_utc()`
/// of its result: the outcome depends on the text alone.
#[verifier::external_body]
pub(crate) fn parse_timestamp(s: &str) -> (r: Option<Timestamp>)
    ensures
        r == timestamp_of(s@),
{
    chrono::DateTime::parse_from_str(s, "%Y-%m-%d %H:%M:%S %z")
        .ok()
        .map(|dt| Timestamp { utc_secs: dt.timestamp(), offset_secs: dt.offset().local_minus_utc() })
}

/// Relies on chrono's `Utc::now` and `timestamp`: the current time in whole
/// seconds since the Unix epoch. Nothing is promised of its value.
#[verifier::external_body]
pub(crate) fn now_utc_secs() -> (r: i64) {
    chrono::Utc::now().timestamp()
}

/// The calendar date (year, month, day) of the instant `utc_secs` in the
/// offset `offset_secs`, as chrono reckons it; `None` where chrono has no
/// such offset or instant.
pub uninterp spec fn local_date_of(utc_secs: int, offset_secs: int) -> Option<(int, int, int)>;

/// Relies on chrono's `FixedOffset::east_opt` and `TimeZone::timestamp_opt`,
/// and on `year`, `month` and `day` of the result: the date depends on the
/// instant and the offset alone.
#[verifier::external_body]
pub(crate) fn local_date(t: Timestamp) -> (r: Option<(i32, u32, u32)>)
    ensures
        r matches Some(d) ==> local_date_of(t.utc_secs as int, t.offset_secs as int) == Some(
            (d.0 as int, d.1 as int, d.2 as int),
        ),
        r is None ==> local_date_of(t.utc_secs as int, t.offset_secs as int) is None,
{
    chrono::FixedOffset::east_opt(t.offset_secs)
        .and_then(|o| o.timestamp_opt(t.utc_secs, 0).single())
        .map(|d| (d.year(), d.month(), d.day()))
}

} // verus!
