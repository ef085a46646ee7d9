//! Instants in UTC, as whole seconds since the Unix epoch and the nanoseconds past them.

use vstd::prelude::*;
use chrono::{DateTime, TimeDelta, Utc};
use time::OffsetDateTime;
use time::format_description::well_known::Rfc3339;

verus! {

/// An instant in UTC.
#[derive(Debug, Clone, Copy)]
pub struct UnixTime {
    pub secs: i64,
    pub nanos: u32,
}

/// Whether `chrono` can hold the instant as a `DateTime<Utc>`.
pub uninterp spec fn chrono_representable(secs: i64, nanos: u32) -> bool;

/// Whether `chrono` can hold the instant `delta` seconds after the given one.
pub uninterp spec fn chrono_sum_representable(secs: i64, nanos: u32, delta: i64) -> bool;

/// The RFC 3339 text `chrono` writes for an instant.
pub uninterp spec fn chrono_rfc3339(secs: i64, nanos: u32) -> Seq<char>;

/// The instant an RFC 3339 text names, as `chrono` reads it, if it reads it.
pub uninterp spec fn chrono_parse_rfc3339(text: Seq<char>) -> Option<(i64, u32)>;

/// The instant an RFC 3339 text names, as the `time` crate reads it, if it reads it.
pub uninterp spec fn time_parse_rfc3339(text: Seq<char>) -> Option<(i64, u32)>;

/// Whether an instant lies in the years 0000 to 9999, which RFC 3339 writes with four
/// digits: from 0000-01-01T00:00:00Z up to, not including, 10000-01-01T00:00:00Z.
pub open spec fn four_digit_year(secs: i64) -> bool {
    -62167219200 <= secs < 253402300800
}

/// Whether the instant `a` is strictly earlier than `b`.
pub open spec fn is_before(a: UnixTime, b: UnixTime) -> bool {
    a.secs < b.secs || (a.secs == b.secs && a.nanos < b.nanos)
}

/// `Utc::now()`. The clock gives whole nanoseconds below one second and an instant
/// `chrono` holds.
#[verifier::external_body]
pub(crate) fn now() -> (res: UnixTime)
    ensures
        res.nanos < 1_000_000_000,
        chrono_representable(res.secs, res.nanos),
{
    let t = Utc::now();
    UnixTime { secs: t.timestamp(), nanos: t.timestamp_subsec_nanos() }
}

/// `DateTime::checked_add_signed` with a whole number of seconds, as `TimeDelta::try_seconds`
/// builds it. Adding whole seconds keeps the nanoseconds.
#[verifier::external_body]
fn checked_add_seconds(t: UnixTime, delta: i64) -> (res: Option<UnixTime>)
    requires
        t.nanos < 1_000_000_000,
        chrono_representable(t.secs, t.nanos),
    ensures
        res is Some <==> chrono_sum_representable(t.secs, t.nanos, delta),
        res matches Some(r) ==> r.secs == t.secs + delta && r.nanos == t.nanos
            && chrono_representable(r.secs, r.nanos),
{
    let start = DateTime::<Utc>::from_timestamp(t.secs, t.nanos)?;
    let sum = start.checked_add_signed(TimeDelta::try_seconds(delta)?)?;
    Some(UnixTime { secs: sum.timestamp(), nanos: sum.timestamp_subsec_nanos() })
}

/// `DateTime::to_rfc3339` of an instant `chrono` holds. For an instant of the years 0000
/// to 9999 it writes four year digits, at most nine digits of fraction and the offset
/// `+00:00`, which `DateTime::parse_from_rfc3339` and `OffsetDateTime::parse` with
/// `Rfc3339` both read back as the same instant; other years are written with a sign and
/// more digits, which neither reads.
#[verifier::external_body]
pub(crate) fn to_rfc3339(t: UnixTime) -> (res: String)
    requires
        chrono_representable(t.secs, t.nanos),
    ensures
        res@ == chrono_rfc3339(t.secs, t.nanos),
        t.nanos < 1_000_000_000 && four_digit_year(t.secs) ==> chrono_parse_rfc3339(res@) == Some((t.secs, t.nanos)),
        t.nanos < 1_000_000_000 && four_digit_year(t.secs) ==> time_parse_rfc3339(res@) == Some((t.secs, t.nanos)),
        res@.len() > 0,
{
    DateTime::<Utc>::from_timestamp(t.secs, t.nanos).map(|d| d.to_rfc3339()).unwrap_or_default()
}

/// `DateTime::parse_from_rfc3339`, as the instant it names.
#[verifier::external_body]
pub(crate) fn parse_rfc3339(text: &str) -> (res: Option<UnixTime>)
    ensures
        match chrono_parse_rfc3339(text@) {
            Some((s, n)) => res == Some(UnixTime { secs: s, nanos: n }),
            None => res is None,
        },
{
    DateTime::parse_from_rfc3339(text).ok().map(
        |d| UnixTime { secs: d.timestamp(), nanos: d.timestamp_subsec_nanos() },
    )
}

/// `OffsetDateTime::parse` with the `Rfc3339` description, as the instant it names.
#[verifier::external_body]
pub(crate) fn parse_rfc3339_offset(text: &str) -> (res: Option<UnixTime>)
    ensures
        match time_parse_rfc3339(text@) {
            Some((s, n)) => res == Some(UnixTime { secs: s, nanos: n }),
            None => res is None,
        },
{
    OffsetDateTime::parse(text, &Rfc3339).ok().map(
        |d| UnixTime { secs: d.unix_timestamp(), nanos: d.nanosecond() },
    )
}

/// Whether `t` is a reading of the clock: a value that a call of `Utc::now()` returned.
pub closed spec fn is_clock_reading(t: UnixTime) -> bool {
    call_ensures(now, (), t)
}

/// A reading of the clock has whole nanoseconds below one second and is an instant
/// `chrono` holds.
pub proof fn lemma_clock_reading(t: UnixTime)
    requires
        is_clock_reading(t),
    ensures
        t.nanos < 1_000_000_000,
        chrono_representable(t.secs, t.nanos),
{
}

/// The current instant, as the clock reads it: whole nanoseconds below one second, an
/// instant `chrono` holds.
pub fn current_instant() -> (res: UnixTime)
    ensures
        is_clock_reading(res),
        res.nanos < 1_000_000_000,
        chrono_representable(res.secs, res.nanos),
{
    now()
}

/// Whether `a` is strictly earlier than `b`.
pub fn before(a: UnixTime, b: UnixTime) -> (res: bool)
    ensures
        res == is_before(a, b),
{
    a.secs < b.secs || (a.secs == b.secs && a.nanos < b.nanos)
}

/// The instant `minutes` minutes after `t` (`t + Duration::minutes(minutes)`), or `None`
/// where that addition panics: the minutes overflow a `TimeDelta` or the sum leaves
/// the range `chrono` holds.
pub fn minutes_after(t: UnixTime, minutes: i64) -> (res: Option<UnixTime>)
    requires
        t.nanos < 1_000_000_000,
        chrono_representable(t.secs, t.nanos),
    ensures
        match res {
            Some(r) => minutes * 60 <= i64::MAX && minutes * 60 >= i64::MIN
                && chrono_sum_representable(t.secs, t.nanos, (minutes * 60) as i64)
                && r.secs == t.secs + minutes * 60 && r.nanos == t.nanos
                && chrono_representable(r.secs, r.nanos),
            None => minutes * 60 > i64::MAX || minutes * 60 < i64::MIN
                || !chrono_sum_representable(t.secs, t.nanos, (minutes * 60) as i64),
        },
{
    match minutes.checked_mul(60) {
        Some(delta) => checked_add_seconds(t, delta),
        None => None,
    }
}

} // verus!
