//! Bridging between byte vectors and strings: the container stores the
//! filename and the timestamp as UTF-8 bytes.

use vstd::prelude::*;

verus! {

/// The characters that a byte sequence decodes to under UTF-8, or `None`
/// where the bytes are not valid UTF-8.
pub uninterp spec fn utf8_decode(b: Seq<u8>) -> Option<Seq<char>>;

/// Relies on `String::from_utf8`: whether bytes decode, and to which
/// characters, depends on the bytes alone.
#[verifier::external_body]
pub(crate) fn string_from_utf8(b: Vec<u8>) -> (r: Option<String>)
    ensures
        r is Some <==> utf8_decode(b@) is Some,
        r matches Some(s) ==> utf8_decode(b@) == Some(s@),
{
    String::from_utf8(b).ok()
}

/// Relies on `str::as_bytes`: a string's UTF-8 bytes decode back to its own
/// characters, and UTF-8 spends at most four bytes on a character.
#[verifier::external_body]
pub(crate) fn str_to_bytes(s: &str) -> (r: Vec<u8>)
    ensures
        utf8_decode(r@) == Some(s@),
        r@.len() <= 4 * s@.len(),
{
    s.as_bytes().to_vec()
}

} // verus!
