//! Instants and spans of time, in milliseconds.
//!
//! An instant is the number of milliseconds since 1970-01-01T00:00:00 UTC,
//! as `chrono::DateTime::<Utc>::timestamp_millis` reports it; a span is a
//! signed number of milliseconds, as `chrono::TimeDelta::num_milliseconds`
//! reports it.  Every instant and span this crate meets (calendar days at
//! midnight, whole days, the earliest representable instant) is a whole number
//! of milliseconds, so nothing is lost.

use vstd::prelude::*;

verus! {

/// `DateTime::<Utc>::MIN_UTC` in milliseconds.
pub const MIN_UTC_MILLIS: i64 = -8_334_601_228_800_000;

/// `DateTime::<Utc>::MAX_UTC` in milliseconds.
pub const MAX_UTC_MILLIS: i64 = 8_210_266_876_799_999;

/// The length of a day in milliseconds.
pub const MILLIS_PER_DAY: i64 = 86_400_000;

/// Whether `t` is an instant that `DateTime<Utc>` can represent.
pub open spec fn in_time_range(t: int) -> bool {
    MIN_UTC_MILLIS <= t <= MAX_UTC_MILLIS
}

/// The instant `t` moved by the span `d`, as `DateTime + TimeDelta` computes
/// it; that operation panics when the result leaves the representable range,
/// which `requires` rules out.
pub fn add_span(t: i64, d: i64) -> (r: i64)
    requires
        in_time_range(t as int),
        in_time_range(t + d),
    ensures
        r == t + d,
{
    t + d
}

/// The span from `earlier` to `later`, as `DateTime - DateTime` computes it.
pub fn span_between(later: i64, earlier: i64) -> (r: i64)
    requires
        in_time_range(later as int),
        in_time_range(earlier as int),
    ensures
        r == later - earlier,
{
    later - earlier
}

/// The instant, at midnight UTC, of the calendar date that
/// `chrono::NaiveDate::parse_from_str(text, format)` reads, or `None` where
/// it reports an error.
pub uninterp spec fn parsed_midnight_millis(text: Seq<char>, format: Seq<char>) -> Option<i64>;

/// Calls `chrono::NaiveDate::parse_from_str(text, format)` and takes the
/// resulting date at midnight UTC, in milliseconds since the epoch.
/// Trusted: the result is `parsed_midnight_millis` of the two strings, and a
/// parsed date lies within chrono's date range (so the instant is
/// representable) and starts at midnight (a whole number of days from the
/// epoch).  Which strings parse, and to which date, is left unsaid.
#[verifier::external_body]
pub(crate) fn parse_date_at_midnight(text: &str, format: &str) -> (r: Option<i64>)
    ensures
        r == parsed_midnight_millis(text@, format@),
        r matches Some(t) ==> in_time_range(t as int) && t % MILLIS_PER_DAY == 0,
{
    chrono::NaiveDate::parse_from_str(text, format).ok().map(
        |d| d.and_time(chrono::NaiveTime::MIN).and_utc().timestamp_millis(),
    )
}

} // verus!
