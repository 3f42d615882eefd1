//! Encoding: wrapping a file's bytes, its filename and a release time into a
//! container image, and resolving a duration expression into the absolute
//! release time that the container will carry.

use vstd::prelude::*;

use crate::clock::{
    duration_of, format_rfc3339, now, parse_duration_str, rfc3339_micros, rfc3339_of, serializable,
    Timestamp, TS_MAX_MICROS, TS_MIN_MICROS,
};
use crate::format::{
    encode_container, has_marker, header_ok, lemma_container_round_trip, marker_ok,
    spec_name_field, spec_payload_field, spec_time_field,
};
use crate::text::{str_to_bytes, utf8_decode};

verus! {

/// Describes an error occurred while encoding a file.
#[derive(Clone, Copy, Debug, PartialEq, Eq, Structural)]
pub enum EncodeError {
    /// The input already begins with the container marker: it is a container,
    /// which cannot be encoded again.
    AlreadyEncoded,
    /// The duration is too large to count in microseconds.
    InvalidDuration,
    /// Adding the duration to the current time left the range of release
    /// times the library can serialize.
    InvalidTime,
    /// An underlying read, write, create or delete failed.
    IO,
    /// The duration expression did not parse.
    ParseDuration,
}

/// The whole microseconds of a duration given as seconds plus subsecond
/// nanoseconds; nanoseconds below a microsecond are dropped.
pub open spec fn spec_duration_micros(secs: u64, nanos: u32) -> int {
    secs as int * 1_000_000 + nanos as int / 1_000
}

/// What resolving a duration against a base instant must return: the sum in
/// microseconds, `InvalidDuration` where the duration alone overflows, and
/// `InvalidTime` where the sum leaves the serializable range.
pub open spec fn resolve_matches(base: i64, secs: u64, nanos: u32, r: Result<
    Timestamp,
    EncodeError,
>) -> bool {
    let m = spec_duration_micros(secs, nanos);
    let rel = base + m;
    if m > i64::MAX {
        r == Err::<Timestamp, EncodeError>(EncodeError::InvalidDuration)
    } else if TS_MIN_MICROS <= rel <= TS_MAX_MICROS {
        r == Ok::<Timestamp, EncodeError>(Timestamp { micros: rel as i64 })
    } else {
        r == Err::<Timestamp, EncodeError>(EncodeError::InvalidTime)
    }
}

/// Adds a duration, given as seconds plus subsecond nanoseconds, to a base
/// instant, refusing sums the library cannot serialize.
pub fn resolve_release(base: Timestamp, secs: u64, nanos: u32) -> (r: Result<
    Timestamp,
    EncodeError,
>)
    ensures
        resolve_matches(base.micros, secs, nanos, r),
{
    let sub_micros: u64 = (nanos / 1_000) as u64;
    match secs.checked_mul(1_000_000) {
        None => Err(EncodeError::InvalidDuration),
        Some(sec_micros) => match sec_micros.checked_add(sub_micros) {
            None => Err(EncodeError::InvalidDuration),
            Some(total) => {
                if total > i64::MAX as u64 {
                    Err(EncodeError::InvalidDuration)
                } else {
                    let m = total as i64;
                    match base.micros.checked_add(m) {
                        None => Err(EncodeError::InvalidTime),
                        Some(rel) => {
                            if rel < TS_MIN_MICROS || rel > TS_MAX_MICROS {
                                Err(EncodeError::InvalidTime)
                            } else {
                                Ok(Timestamp { micros: rel })
                            }
                        },
                    }
                }
            },
        },
    }
}

/// Resolves a duration expression against the current wall-clock time into
/// the absolute release time a container will carry.
///
/// `ParseDuration` and `InvalidDuration` depend on the expression alone; the
/// split between success and `InvalidTime` depends on the clock as well.
pub fn duration_str_to_time(duration: &str) -> (r: Result<Timestamp, EncodeError>)
    ensures
        r == Err::<Timestamp, EncodeError>(EncodeError::ParseDuration) <==> duration_of(duration@)
            is None,
        r == Err::<Timestamp, EncodeError>(EncodeError::InvalidDuration) <==> (duration_of(
            duration@,
        ) matches Some(d) && spec_duration_micros(d.0, d.1) > i64::MAX),
        r matches Ok(t) ==> (duration_of(duration@) matches Some(d) && spec_duration_micros(
            d.0,
            d.1,
        ) <= i64::MAX && serializable(t.micros)),
        r is Ok || r == Err::<Timestamp, EncodeError>(EncodeError::ParseDuration) || r == Err::<
            Timestamp,
            EncodeError,
        >(EncodeError::InvalidDuration) || r == Err::<Timestamp, EncodeError>(
            EncodeError::InvalidTime,
        ),
{
    match parse_duration_str(duration) {
        None => Err(EncodeError::ParseDuration),
        Some(d) => resolve_release(now(), d.0, d.1),
    }
}

/// What encoding must return: `AlreadyEncoded` for input that is itself a
/// container, `InvalidTime` for a release time the library cannot serialize,
/// and otherwise a container whose fields carry exactly the filename, the
/// RFC 3339 rendering of the release time, and the payload.
pub open spec fn encode_matches(name: Seq<char>, payload: Seq<u8>, release: i64, r: Result<
    Vec<u8>,
    EncodeError,
>) -> bool {
    if marker_ok(payload) {
        r == Err::<Vec<u8>, EncodeError>(EncodeError::AlreadyEncoded)
    } else if !serializable(release) {
        r == Err::<Vec<u8>, EncodeError>(EncodeError::InvalidTime)
    } else {
        match r {
            Ok(v) => {
                &&& marker_ok(v@)
                &&& header_ok(v@)
                &&& utf8_decode(spec_name_field(v@)) == Some(name)
                &&& utf8_decode(spec_time_field(v@)) == Some(rfc3339_of(release))
                &&& rfc3339_micros(rfc3339_of(release)) == Some(release)
                &&& spec_payload_field(v@) == payload
            },
            Err(_) => false,
        }
    }
}

/// Builds the container image for one file: the marker, the filename, the
/// release time rendered as RFC 3339, and the payload, all framed as the
/// format prescribes.
pub fn encode(name: &str, payload: &Vec<u8>, release: Timestamp) -> (r: Result<
    Vec<u8>,
    EncodeError,
>)
    requires
        164 + 4 * name@.len() + payload@.len() <= usize::MAX,
    ensures
        encode_matches(name@, payload@, release.micros, r),
{
    if has_marker(payload) {
        return Err(EncodeError::AlreadyEncoded);
    }
    if release.micros < TS_MIN_MICROS || release.micros > TS_MAX_MICROS {
        return Err(EncodeError::InvalidTime);
    }
    let name_bytes = str_to_bytes(name);
    let time_str = format_rfc3339(release.micros);
    let time_bytes = str_to_bytes(time_str.as_str());
    let out = encode_container(&name_bytes, &time_bytes, payload);
    proof {
        lemma_container_round_trip(name_bytes@, time_bytes@, payload@);
    }
    Ok(out)
}

/// Encodes a batch of files against one shared release time. Each input is a
/// filename with its payload; each output is the outcome for that input
/// alone, so one failure neither corrupts nor blocks the others.
pub fn encode_all(inputs: &Vec<(String, Vec<u8>)>, release: Timestamp) -> (r: Vec<
    Result<Vec<u8>, EncodeError>,
>)
    requires
        forall|i: int|
            0 <= i < inputs@.len() ==> 164 + 4 * (#[trigger] inputs@[i]).0@.len()
                + inputs@[i].1@.len() <= usize::MAX,
    ensures
        r@.len() == inputs@.len(),
        forall|i: int|
            0 <= i < inputs@.len() ==> encode_matches(
                inputs@[i].0@,
                inputs@[i].1@,
                release.micros,
                #[trigger] r@[i],
            ),
{
    let mut r: Vec<Result<Vec<u8>, EncodeError>> = Vec::new();
    let mut i: usize = 0;
    while i < inputs.len()
        invariant
            0 <= i <= inputs@.len(),
            r@.len() == i,
            forall|k: int|
                0 <= k < inputs@.len() ==> 164 + 4 * (#[trigger] inputs@[k]).0@.len()
                    + inputs@[k].1@.len() <= usize::MAX,
            forall|k: int|
                0 <= k < i ==> encode_matches(
                    inputs@[k].0@,
                    inputs@[k].1@,
                    release.micros,
                    #[trigger] r@[k],
                ),
        decreases inputs@.len() - i,
    {
        let pair = &inputs[i];
        let one = encode(pair.0.as_str(), &pair.1, release);
        r.push(one);
        i = i + 1;
    }
    r
}

} // verus!
