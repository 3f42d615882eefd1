//! The container byte format: an eight-byte marker, a length-prefixed
//! filename, a length-prefixed RFC 3339 timestamp string, and the payload.
//!
//! Layout, with all lengths as eight-byte big-endian unsigned integers:
//!
//! | offset       | size | field                        |
//! |--------------|------|------------------------------|
//! | 0            | 8    | marker                       |
//! | 8            | 8    | N, length of the filename    |
//! | 16           | N    | filename bytes               |
//! | 16 + N       | 8    | M, length of the timestamp   |
//! | 24 + N       | M    | timestamp bytes              |
//! | 24 + N + M   | rest | payload, verbatim            |

use vstd::prelude::*;

verus! {

/// The fixed eight bytes that open every container file.
pub open spec fn spec_marker() -> Seq<u8> {
    seq![134u8, 225u8, 114u8, 190u8, 242u8, 218u8, 25u8, 79u8]
}

/// The marker as a vector, for writing and comparing.
pub fn marker_bytes() -> (r: Vec<u8>)
    ensures
        r@ == spec_marker(),
{
    let mut v: Vec<u8> = Vec::new();
    v.push(134);
    v.push(225);
    v.push(114);
    v.push(190);
    v.push(242);
    v.push(218);
    v.push(25);
    v.push(79);
    proof {
        assert(v@ =~= spec_marker());
    }
    v
}

/// The eight-byte big-endian encoding of a 64-bit unsigned integer.
pub open spec fn spec_be64(n: u64) -> Seq<u8> {
    seq![
        (n >> 56) as u8,
        (n >> 48) as u8,
        (n >> 40) as u8,
        (n >> 32) as u8,
        (n >> 24) as u8,
        (n >> 16) as u8,
        (n >> 8) as u8,
        n as u8,
    ]
}

/// The 64-bit unsigned integer read from eight big-endian bytes.
pub open spec fn spec_u64_of_be(b: Seq<u8>) -> u64
    recommends
        b.len() == 8,
{
    ((b[0] as u64) << 56) | ((b[1] as u64) << 48) | ((b[2] as u64) << 40) | ((b[3] as u64) << 32)
        | ((b[4] as u64) << 24) | ((b[5] as u64) << 16) | ((b[6] as u64) << 8) | (b[7] as u64)
}

/// Reading back the eight big-endian bytes of `n` yields `n` again.
pub proof fn lemma_be64_round_trip(n: u64)
    ensures
        spec_u64_of_be(spec_be64(n)) == n,
{
    let b = spec_be64(n);
    assert(b[0] == (n >> 56) as u8);
    assert(b[1] == (n >> 48) as u8);
    assert(b[2] == (n >> 40) as u8);
    assert(b[3] == (n >> 32) as u8);
    assert(b[4] == (n >> 24) as u8);
    assert(b[5] == (n >> 16) as u8);
    assert(b[6] == (n >> 8) as u8);
    assert(b[7] == n as u8);
    assert((((n >> 56) as u8 as u64) << 56) | (((n >> 48) as u8 as u64) << 48) | (((n >> 40)
        as u8 as u64) << 40) | (((n >> 32) as u8 as u64) << 32) | (((n >> 24) as u8 as u64) << 24)
        | (((n >> 16) as u8 as u64) << 16) | (((n >> 8) as u8 as u64) << 8) | (n as u8 as u64)
        == n) by (bit_vector);
}

/// Writes `n` as eight big-endian bytes.
pub fn be64_bytes(n: u64) -> (r: Vec<u8>)
    ensures
        r@ == spec_be64(n),
{
    let mut v: Vec<u8> = Vec::new();
    v.push((n >> 56) as u8);
    v.push((n >> 48) as u8);
    v.push((n >> 40) as u8);
    v.push((n >> 32) as u8);
    v.push((n >> 24) as u8);
    v.push((n >> 16) as u8);
    v.push((n >> 8) as u8);
    v.push(n as u8);
    proof {
        assert(v@ =~= spec_be64(n));
    }
    v
}

/// Reads the eight big-endian bytes of `v` starting at `off`.
pub fn read_be64(v: &Vec<u8>, off: usize) -> (r: u64)
    requires
        off + 8 <= v@.len(),
    ensures
        r == spec_u64_of_be(v@.subrange(off as int, off as int + 8)),
{
    let len: usize = v.len();
    assert(off + 8 <= len);
    let r = ((v[off] as u64) << 56) | ((v[off + 1] as u64) << 48) | ((v[off + 2] as u64) << 40) | (
    (v[off + 3] as u64) << 32) | ((v[off + 4] as u64) << 24) | ((v[off + 5] as u64) << 16) | ((v[off
        + 6] as u64) << 8) | (v[off + 7] as u64);
    proof {
        let b = v@.subrange(off as int, off as int + 8);
        assert(b[0] == v@[off as int]);
        assert(b[1] == v@[off as int + 1]);
        assert(b[2] == v@[off as int + 2]);
        assert(b[3] == v@[off as int + 3]);
        assert(b[4] == v@[off as int + 4]);
        assert(b[5] == v@[off as int + 5]);
        assert(b[6] == v@[off as int + 6]);
        assert(b[7] == v@[off as int + 7]);
    }
    r
}

/// Copies the bytes of `v` in the range `start..end` into a fresh vector.
pub fn copy_range(v: &Vec<u8>, start: usize, end: usize) -> (r: Vec<u8>)
    requires
        start <= end,
        end <= v@.len(),
    ensures
        r@ == v@.subrange(start as int, end as int),
{
    let mut r: Vec<u8> = Vec::new();
    let mut i: usize = start;
    while i < end
        invariant
            start <= i <= end,
            end <= v@.len(),
            r@ == v@.subrange(start as int, i as int),
        decreases end - i,
    {
        r.push(v[i]);
        proof {
            assert(r@ =~= v@.subrange(start as int, i as int + 1));
        }
        i = i + 1;
    }
    r
}

/// The full container image for the given filename bytes, timestamp bytes and
/// payload.
pub open spec fn spec_container(name: Seq<u8>, time: Seq<u8>, payload: Seq<u8>) -> Seq<u8> {
    spec_marker() + spec_be64(name.len() as u64) + name + spec_be64(time.len() as u64) + time
        + payload
}

/// Whether the bytes begin with the container marker.
pub open spec fn marker_ok(b: Seq<u8>) -> bool {
    b.len() >= 8 && b.subrange(0, 8) == spec_marker()
}

/// The filename length announced by the header.
pub open spec fn spec_name_len(b: Seq<u8>) -> int
    recommends
        b.len() >= 16,
{
    spec_u64_of_be(b.subrange(8, 16)) as int
}

/// The timestamp length announced by the header.
pub open spec fn spec_time_len(b: Seq<u8>) -> int
    recommends
        b.len() >= 16 + spec_name_len(b) + 8,
{
    spec_u64_of_be(b.subrange(16 + spec_name_len(b), 24 + spec_name_len(b))) as int
}

/// Whether both announced lengths bound regions that lie inside the bytes.
pub open spec fn header_ok(b: Seq<u8>) -> bool {
    &&& b.len() >= 16
    &&& 16 + spec_name_len(b) + 8 <= b.len()
    &&& 24 + spec_name_len(b) + spec_time_len(b) <= b.len()
}

/// The filename bytes of a container.
pub open spec fn spec_name_field(b: Seq<u8>) -> Seq<u8>
    recommends
        header_ok(b),
{
    b.subrange(16, 16 + spec_name_len(b))
}

/// The timestamp bytes of a container.
pub open spec fn spec_time_field(b: Seq<u8>) -> Seq<u8>
    recommends
        header_ok(b),
{
    b.subrange(24 + spec_name_len(b), 24 + spec_name_len(b) + spec_time_len(b))
}

/// The payload bytes of a container.
pub open spec fn spec_payload_field(b: Seq<u8>) -> Seq<u8>
    recommends
        header_ok(b),
{
    b.subrange(24 + spec_name_len(b) + spec_time_len(b), b.len() as int)
}

/// Reading a freshly built container finds the marker and exactly the three
/// fields it was built from: the byte format loses nothing.
pub proof fn lemma_container_round_trip(name: Seq<u8>, time: Seq<u8>, payload: Seq<u8>)
    requires
        name.len() <= u64::MAX,
        time.len() <= u64::MAX,
    ensures
        marker_ok(spec_container(name, time, payload)),
        header_ok(spec_container(name, time, payload)),
        spec_name_len(spec_container(name, time, payload)) == name.len(),
        spec_time_len(spec_container(name, time, payload)) == time.len(),
        spec_name_field(spec_container(name, time, payload)) == name,
        spec_time_field(spec_container(name, time, payload)) == time,
        spec_payload_field(spec_container(name, time, payload)) == payload,
{
    let c = spec_container(name, time, payload);
    let n = name.len() as int;
    let m = time.len() as int;
    assert(c.len() == 24 + n + m + payload.len());
    assert(c.subrange(0, 8) =~= spec_marker());
    assert(c.subrange(8, 16) =~= spec_be64(name.len() as u64));
    lemma_be64_round_trip(name.len() as u64);
    assert(spec_name_len(c) == n);
    assert(c.subrange(16, 16 + n) =~= name);
    assert(c.subrange(16 + n, 24 + n) =~= spec_be64(time.len() as u64));
    lemma_be64_round_trip(time.len() as u64);
    assert(spec_time_len(c) == m);
    assert(c.subrange(24 + n, 24 + n + m) =~= time);
    assert(c.subrange(24 + n + m, c.len() as int) =~= payload);
}

/// Builds the container image for the given filename bytes, timestamp bytes
/// and payload.
pub fn encode_container(name: &Vec<u8>, time: &Vec<u8>, payload: &Vec<u8>) -> (r: Vec<u8>)
    requires
        24 + name@.len() + time@.len() + payload@.len() <= usize::MAX,
    ensures
        r@ == spec_container(name@, time@, payload@),
{
    let mut out = marker_bytes();
    let name_len = be64_bytes(name.len() as u64);
    out.extend_from_slice(name_len.as_slice());
    out.extend_from_slice(name.as_slice());
    let time_len = be64_bytes(time.len() as u64);
    out.extend_from_slice(time_len.as_slice());
    out.extend_from_slice(time.as_slice());
    out.extend_from_slice(payload.as_slice());
    proof {
        assert(out@ =~= spec_container(name@, time@, payload@));
    }
    out
}

/// Whether the first eight bytes of `b` equal the marker; callers use it both
/// to recognise containers and to refuse re-encoding one.
pub fn has_marker(b: &Vec<u8>) -> (r: bool)
    ensures
        r == marker_ok(b@),
{
    if b.len() < 8 {
        return false;
    }
    let m = marker_bytes();
    let mut i: usize = 0;
    while i < 8
        invariant
            0 <= i <= 8,
            b@.len() >= 8,
            m@ == spec_marker(),
            forall|j: int| 0 <= j < i ==> b@[j] == spec_marker()[j],
        decreases 8 - i,
    {
        if b[i] != m[i] {
            proof {
                assert(b@.subrange(0, 8)[i as int] != spec_marker()[i as int]);
            }
            return false;
        }
        i = i + 1;
    }
    proof {
        assert(b@.subrange(0, 8) =~= spec_marker());
    }
    true
}

} // verus!
