use time_capsule::clock::Timestamp;
use time_capsule::decode::{decode, decode_all, DecodeError};
use time_capsule::encode::{encode, encode_all, EncodeError};

const MARKER: [u8; 8] = [134, 225, 114, 190, 242, 218, 25, 79];

fn manual_container(name: &[u8], time: &[u8], payload: &[u8]) -> Vec<u8> {
    let mut v = Vec::new();
    v.extend_from_slice(&MARKER);
    v.extend_from_slice(&(name.len() as u64).to_be_bytes());
    v.extend_from_slice(name);
    v.extend_from_slice(&(time.len() as u64).to_be_bytes());
    v.extend_from_slice(time);
    v.extend_from_slice(payload);
    v
}

#[test]
fn encode_layout_is_bit_exact() {
    let payload = vec![7u8];
    let r = encode("a", &payload, Timestamp { micros: 1_000_000 });
    let v = r.expect("encoding should succeed");
    let expected = manual_container(b"a", b"1970-01-01T00:00:01+00:00", &[7]);
    assert_eq!(v, expected);
}

#[test]
fn encode_epoch_timestamp_string() {
    let payload = vec![1u8, 2, 3];
    let v = encode("x", &payload, Timestamp { micros: 0 }).expect("encoding should succeed");
    let expected = manual_container(b"x", b"1970-01-01T00:00:00+00:00", &[1, 2, 3]);
    assert_eq!(v, expected);
}

#[test]
fn round_trip_restores_name_and_content() {
    let payload = b"hello".to_vec();
    let release = Timestamp { micros: 123_456_789 };
    let v = encode("notes.txt", &payload, release).expect("encoding should succeed");
    let d = decode(&v, release).expect("decoding at the release time should succeed");
    assert_eq!(d.name, "notes.txt");
    assert_eq!(d.payload, b"hello".to_vec());
    assert_eq!(d.release, release);
}

#[test]
fn round_trip_of_empty_payload_and_name() {
    let payload: Vec<u8> = Vec::new();
    let release = Timestamp { micros: -5 };
    let v = encode("", &payload, release).expect("encoding should succeed");
    let d = decode(&v, Timestamp { micros: 0 }).expect("decoding later should succeed");
    assert_eq!(d.name, "");
    assert_eq!(d.payload, Vec::<u8>::new());
    assert_eq!(d.release.micros, -5);
}

#[test]
fn locked_before_release_time() {
    let payload = vec![9u8];
    let release = Timestamp { micros: 2_000_000 };
    let v = encode("f", &payload, release).expect("encoding should succeed");
    let r = decode(&v, Timestamp { micros: 1_999_999 });
    assert_eq!(r.unwrap_err(), DecodeError::Locked(release));
}

#[test]
fn unlocked_at_and_after_release_time() {
    let payload = vec![9u8];
    let release = Timestamp { micros: 2_000_000 };
    let v = encode("f", &payload, release).expect("encoding should succeed");
    assert!(decode(&v, Timestamp { micros: 2_000_000 }).is_ok());
    assert!(decode(&v, Timestamp { micros: 3_000_000 }).is_ok());
}

#[test]
fn rejects_wrong_marker() {
    let mut v = manual_container(b"a", b"1970-01-01T00:00:00+00:00", &[1]);
    v[0] ^= 0xff;
    let r = decode(&v, Timestamp { micros: 0 });
    assert_eq!(r.unwrap_err(), DecodeError::InvalidFileFormat);
}

#[test]
fn rejects_short_file_as_io() {
    let r = decode(&vec![134u8, 225, 114], Timestamp { micros: 0 });
    assert_eq!(r.unwrap_err(), DecodeError::IO);
    let r = decode(&MARKER.to_vec(), Timestamp { micros: 0 });
    assert_eq!(r.unwrap_err(), DecodeError::IO);
}

#[test]
fn rejects_truncated_name_region_as_io() {
    let mut v = Vec::new();
    v.extend_from_slice(&MARKER);
    v.extend_from_slice(&100u64.to_be_bytes());
    v.extend_from_slice(b"short");
    let r = decode(&v, Timestamp { micros: 0 });
    assert_eq!(r.unwrap_err(), DecodeError::IO);
}

#[test]
fn rejects_truncated_time_region_as_io() {
    let mut v = Vec::new();
    v.extend_from_slice(&MARKER);
    v.extend_from_slice(&1u64.to_be_bytes());
    v.extend_from_slice(b"a");
    v.extend_from_slice(&99u64.to_be_bytes());
    v.extend_from_slice(b"1970");
    let r = decode(&v, Timestamp { micros: 0 });
    assert_eq!(r.unwrap_err(), DecodeError::IO);
}

#[test]
fn rejects_non_utf8_name() {
    let v = manual_container(&[0xff, 0xfe], b"1970-01-01T00:00:00+00:00", &[]);
    let r = decode(&v, Timestamp { micros: 0 });
    assert_eq!(r.unwrap_err(), DecodeError::Utf8);
}

#[test]
fn rejects_non_utf8_time() {
    let v = manual_container(b"a", &[0xff, 0xfe], &[]);
    let r = decode(&v, Timestamp { micros: 0 });
    assert_eq!(r.unwrap_err(), DecodeError::Utf8);
}

#[test]
fn rejects_malformed_timestamp_as_parse() {
    let v = manual_container(b"a", b"yesterday at noon", &[]);
    let r = decode(&v, Timestamp { micros: 0 });
    assert_eq!(r.unwrap_err(), DecodeError::Parse);
}

#[test]
fn decodes_hand_written_container() {
    let v = manual_container(b"pic.png", b"2001-02-03T04:05:06.789+00:00", b"payload bytes");
    let d = decode(&v, Timestamp { micros: i64::MAX }).expect("the release time is long past");
    assert_eq!(d.name, "pic.png");
    assert_eq!(d.payload, b"payload bytes".to_vec());
    // 2001-02-03T04:05:06.789 UTC, in microseconds since the epoch.
    assert_eq!(d.release.micros, 981_173_106_789_000);
}

#[test]
fn honours_offset_in_stored_timestamp() {
    // The same instant written with a +02:00 offset.
    let v = manual_container(b"a", b"1970-01-01T02:00:00+02:00", &[]);
    let d = decode(&v, Timestamp { micros: 0 }).expect("the instant is the epoch itself");
    assert_eq!(d.release.micros, 0);
}

#[test]
fn refuses_to_encode_a_container_again() {
    let first = encode("a", &vec![1u8], Timestamp { micros: 0 }).expect("first encoding");
    let r = encode("a.capsule", &first, Timestamp { micros: 0 });
    assert_eq!(r.unwrap_err(), EncodeError::AlreadyEncoded);
}

#[test]
fn refuses_release_time_outside_serializable_range() {
    let payload = vec![1u8];
    let r = encode("a", &payload, Timestamp { micros: time_capsule::clock::TS_MAX_MICROS + 1 });
    assert_eq!(r.unwrap_err(), EncodeError::InvalidTime);
    let r = encode("a", &payload, Timestamp { micros: time_capsule::clock::TS_MIN_MICROS - 1 });
    assert_eq!(r.unwrap_err(), EncodeError::InvalidTime);
}

#[test]
fn batch_decode_isolates_failures() {
    let release = Timestamp { micros: 1 };
    let good = encode("keep.txt", &b"ok".to_vec(), release).expect("encoding should succeed");
    let bad = b"not a container at all".to_vec();
    let results = decode_all(&vec![good, bad], Timestamp { micros: 2 });
    assert_eq!(results.len(), 2);
    let d = results[0].as_ref().expect("the valid container decodes");
    assert_eq!(d.name, "keep.txt");
    assert_eq!(d.payload, b"ok".to_vec());
    assert_eq!(*results[1].as_ref().unwrap_err(), DecodeError::InvalidFileFormat);
}

#[test]
fn batch_encode_isolates_failures() {
    let capsule = encode("x", &vec![4u8], Timestamp { micros: 0 }).expect("encoding");
    let inputs = vec![
        ("fresh.txt".to_string(), vec![1u8, 2]),
        ("old.capsule".to_string(), capsule),
    ];
    let results = encode_all(&inputs, Timestamp { micros: 0 });
    assert_eq!(results.len(), 2);
    assert!(results[0].is_ok());
    assert_eq!(*results[1].as_ref().unwrap_err(), EncodeError::AlreadyEncoded);
}
