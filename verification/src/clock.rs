//! Timestamps, the wall clock, and the RFC 3339 timestamp strings stored in
//! containers.
//!
//! A [`Timestamp`] counts microseconds since the Unix epoch. The library
//! confines itself to release times whose year has four digits, so that the
//! RFC 3339 string written on encode is read back to the same microsecond on
//! decode.

use vstd::prelude::*;

verus! {

/// Microseconds from the Unix epoch to 0000-01-01T00:00:00Z, the earliest
/// instant the library will serialize.
pub const TS_MIN_MICROS: i64 = -62_167_219_200_000_000;

/// Microseconds from the Unix epoch to 9999-12-31T23:59:59.999999Z, the
/// latest instant the library will serialize.
pub const TS_MAX_MICROS: i64 = 253_402_300_799_999_999;

/// An absolute instant: microseconds since the Unix epoch, in UTC.
#[derive(Clone, Copy, Debug, PartialEq, Eq, Structural)]
pub struct Timestamp {
    /// Microseconds since 1970-01-01T00:00:00Z.
    pub micros: i64,
}

/// Whether the library can serialize this instant as an RFC 3339 string that
/// it will later read back exactly.
pub open spec fn serializable(us: i64) -> bool {
    TS_MIN_MICROS <= us <= TS_MAX_MICROS
}

/// The RFC 3339 rendering, in UTC, of the instant `us` microseconds from the
/// Unix epoch.
pub uninterp spec fn rfc3339_of(us: i64) -> Seq<char>;

/// The instant, in microseconds from the Unix epoch, that an RFC 3339 string
/// denotes, or `None` where the string is not valid RFC 3339.
pub uninterp spec fn rfc3339_micros(s: Seq<char>) -> Option<i64>;

/// Relies on chrono's `DateTime::from_timestamp_micros` and
/// `DateTime::<Utc>::to_rfc3339`: rendering a UTC instant is a function of the
/// microsecond value alone; the result stays within 35 characters; and
/// chrono's `DateTime::parse_from_rfc3339` combined with `timestamp_micros`
/// reads the rendering back to the same microsecond value, the year having
/// four digits throughout the admitted range.
#[verifier::external_body]
pub(crate) fn format_rfc3339(us: i64) -> (r: String)
    requires
        serializable(us),
    ensures
        r@ == rfc3339_of(us),
        r@.len() <= 35,
        rfc3339_micros(r@) == Some(us),
{
    match chrono::DateTime::from_timestamp_micros(us) {
        Some(dt) => dt.to_rfc3339(),
        None => String::new(),
    }
}

/// Relies on chrono's `DateTime::parse_from_rfc3339` and `timestamp_micros`:
/// the parse outcome depends on the characters alone.
#[verifier::external_body]
pub(crate) fn parse_rfc3339(s: &str) -> (r: Option<i64>)
    ensures
        r == rfc3339_micros(s@),
{
    match chrono::DateTime::parse_from_rfc3339(s) {
        Ok(dt) => Some(dt.timestamp_micros()),
        Err(_) => None,
    }
}

/// Relies on chrono's `Local::now` and `timestamp_micros` for the current
/// wall-clock time; nothing is promised of the value.
#[verifier::external_body]
pub(crate) fn now() -> (r: Timestamp) {
    Timestamp { micros: chrono::Local::now().timestamp_micros() }
}

/// The duration that a duration expression denotes, as whole seconds and
/// subsecond nanoseconds, or `None` where the expression does not parse.
pub uninterp spec fn duration_of(s: Seq<char>) -> Option<(u64, u32)>;

/// Relies on `parse_duration::parse`: the outcome depends on the characters
/// alone, and `std::time::Duration` keeps its subsecond part below one
/// second.
#[verifier::external_body]
pub(crate) fn parse_duration_str(s: &str) -> (r: Option<(u64, u32)>)
    ensures
        r == duration_of(s@),
        r matches Some(d) ==> d.1 < 1_000_000_000,
{
    match parse_duration::parse(s) {
        Ok(d) => Some((d.as_secs(), d.subsec_nanos())),
        Err(_) => None,
    }
}

} // verus!
