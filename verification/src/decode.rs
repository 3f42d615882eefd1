//! Decoding: validating a container image, enforcing the time lock, and
//! restoring the original filename and content.

use vstd::prelude::*;

use crate::clock::{parse_rfc3339, rfc3339_micros, Timestamp};
use crate::encode::{encode_matches, EncodeError};
use crate::format::{
    copy_range, has_marker, read_be64, spec_marker, spec_name_field, spec_name_len,
    spec_payload_field, spec_time_field, spec_time_len,
};
use crate::text::{string_from_utf8, utf8_decode};

verus! {

/// Describes an error occurred while decoding a file.
#[derive(Clone, Copy, Debug, PartialEq, Eq, Structural)]
pub enum DecodeError {
    /// The directory to decode from was not found.
    DirectoryNotFound,
    /// The first eight bytes are not the marker: the file is not a container.
    InvalidFileFormat,
    /// An underlying read, write, create or delete failed, or the container
    /// is shorter than its headers announce.
    IO,
    /// A valid container whose release time is still in the future; carries
    /// that release time.
    Locked(Timestamp),
    /// The timestamp string is not valid RFC 3339.
    Parse,
    /// The filename or timestamp bytes are not valid UTF-8.
    Utf8,
}

/// The restored form of one container.
#[derive(Debug)]
pub struct Decoded {
    /// The original filename.
    pub name: String,
    /// The release time the container carried.
    pub release: Timestamp,
    /// The original file content, verbatim.
    pub payload: Vec<u8>,
}

/// Whether a container releasing at `release_us` is still locked at instant
/// `now_us`.
pub open spec fn locked_at(now_us: i64, release_us: i64) -> bool {
    now_us < release_us
}

/// What decoding must return, field by field in the order the stream is
/// read: a truncated stream is `IO`, a wrong marker `InvalidFileFormat`,
/// undecodable text `Utf8`, a malformed timestamp `Parse`, an unexpired
/// release time `Locked` with that time, and only then the restored filename,
/// release time and payload.
pub open spec fn decode_matches(b: Seq<u8>, now_us: i64, r: Result<Decoded, DecodeError>) -> bool {
    if b.len() < 8 {
        r == Err::<Decoded, DecodeError>(DecodeError::IO)
    } else if b.subrange(0, 8) != spec_marker() {
        r == Err::<Decoded, DecodeError>(DecodeError::InvalidFileFormat)
    } else if b.len() < 16 || 16 + spec_name_len(b) > b.len() {
        r == Err::<Decoded, DecodeError>(DecodeError::IO)
    } else if utf8_decode(spec_name_field(b)) is None {
        r == Err::<Decoded, DecodeError>(DecodeError::Utf8)
    } else if 24 + spec_name_len(b) > b.len() || 24 + spec_name_len(b) + spec_time_len(b)
        > b.len() {
        r == Err::<Decoded, DecodeError>(DecodeError::IO)
    } else if utf8_decode(spec_time_field(b)) is None {
        r == Err::<Decoded, DecodeError>(DecodeError::Utf8)
    } else if rfc3339_micros(utf8_decode(spec_time_field(b)).unwrap()) is None {
        r == Err::<Decoded, DecodeError>(DecodeError::Parse)
    } else {
        let release = rfc3339_micros(utf8_decode(spec_time_field(b)).unwrap()).unwrap();
        if locked_at(now_us, release) {
            r == Err::<Decoded, DecodeError>(DecodeError::Locked(Timestamp { micros: release }))
        } else {
            match r {
                Ok(d) => {
                    &&& utf8_decode(spec_name_field(b)) == Some(d.name@)
                    &&& d.release.micros == release
                    &&& d.payload@ == spec_payload_field(b)
                },
                Err(_) => false,
            }
        }
    }
}

/// Validates one container image against the instant `now` and, once the
/// release time has passed, restores the original filename and content.
pub fn decode(bytes: &Vec<u8>, now: Timestamp) -> (r: Result<Decoded, DecodeError>)
    ensures
        decode_matches(bytes@, now.micros, r),
{
    let len = bytes.len();
    if len < 8 {
        return Err(DecodeError::IO);
    }
    if !has_marker(bytes) {
        return Err(DecodeError::InvalidFileFormat);
    }
    if len < 16 {
        return Err(DecodeError::IO);
    }
    let name_len_u64 = read_be64(bytes, 8);
    if name_len_u64 > (len - 16) as u64 {
        return Err(DecodeError::IO);
    }
    let name_len = name_len_u64 as usize;
    let name_end = 16 + name_len;
    let name_vec = copy_range(bytes, 16, name_end);
    let name = match string_from_utf8(name_vec) {
        None => { return Err(DecodeError::Utf8) },
        Some(s) => s,
    };
    if len - name_end < 8 {
        return Err(DecodeError::IO);
    }
    let time_len_u64 = read_be64(bytes, name_end);
    if time_len_u64 > (len - name_end - 8) as u64 {
        return Err(DecodeError::IO);
    }
    let time_len = time_len_u64 as usize;
    let time_start = name_end + 8;
    let time_end = time_start + time_len;
    let time_vec = copy_range(bytes, time_start, time_end);
    let time_str = match string_from_utf8(time_vec) {
        None => { return Err(DecodeError::Utf8) },
        Some(s) => s,
    };
    let release_us = match parse_rfc3339(time_str.as_str()) {
        None => { return Err(DecodeError::Parse) },
        Some(us) => us,
    };
    if now.micros < release_us {
        return Err(DecodeError::Locked(Timestamp { micros: release_us }));
    }
    let payload = copy_range(bytes, time_end, len);
    Ok(Decoded { name, release: Timestamp { micros: release_us }, payload })
}

/// Decodes a batch of container images against one instant. Each output is
/// the outcome for the input at the same position alone, so one corrupt file
/// neither corrupts nor blocks the others.
pub fn decode_all(files: &Vec<Vec<u8>>, now: Timestamp) -> (r: Vec<Result<Decoded, DecodeError>>)
    ensures
        r@.len() == files@.len(),
        forall|i: int|
            0 <= i < files@.len() ==> decode_matches(files@[i]@, now.micros, #[trigger] r@[i]),
{
    let mut r: Vec<Result<Decoded, DecodeError>> = Vec::new();
    let mut i: usize = 0;
    while i < files.len()
        invariant
            0 <= i <= files@.len(),
            r@.len() == i,
            forall|k: int|
                0 <= k < i ==> decode_matches(files@[k]@, now.micros, #[trigger] r@[k]),
        decreases files@.len() - i,
    {
        let one = decode(&files[i], now);
        r.push(one);
        i = i + 1;
    }
    r
}

/// The time lock in both directions: a strictly positive duration leaves a
/// container locked at the instant the duration was resolved; at or past the
/// release time, or with a duration of zero or less, it is unlocked.
pub proof fn lemma_lock_gate(base: i64, m: int, t: i64, release: i64)
    requires
        release == base + m,
    ensures
        m > 0 && t == base ==> locked_at(t, release),
        t >= release ==> !locked_at(t, release),
        m <= 0 && t >= base ==> !locked_at(t, release),
{
}

/// Round trip: a container built for filename `name`, payload `payload` and
/// release instant `release` decodes, at any instant at or past `release`,
/// to exactly that filename, payload and release time.
pub proof fn lemma_round_trip(
    name: Seq<char>,
    payload: Seq<u8>,
    release: i64,
    t: i64,
    enc: Result<Vec<u8>, EncodeError>,
    dec: Result<Decoded, DecodeError>,
)
    requires
        encode_matches(name, payload, release, enc),
        enc matches Ok(v) && decode_matches(v@, t, dec),
        t >= release,
    ensures
        dec matches Ok(d) && d.name@ == name && d.payload@ == payload && d.release.micros
            == release,
{
}

/// Lock enforcement: a container built for release instant `release` decodes
/// to `Locked` carrying exactly `release`, and to nothing else, at every
/// instant strictly before `release`.
pub proof fn lemma_lock_enforcement(
    name: Seq<char>,
    payload: Seq<u8>,
    release: i64,
    t: i64,
    enc: Result<Vec<u8>, EncodeError>,
    dec: Result<Decoded, DecodeError>,
)
    requires
        encode_matches(name, payload, release, enc),
        enc matches Ok(v) && decode_matches(v@, t, dec),
        t < release,
    ensures
        dec == Err::<Decoded, DecodeError>(DecodeError::Locked(Timestamp { micros: release })),
{
}

} // verus!
