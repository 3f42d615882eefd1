//! A time-locked file container.
//!
//! A container file wraps an arbitrary file's bytes together with its
//! original filename and an absolute release timestamp. Decoding succeeds
//! only once the current time is at or past the embedded release time.

pub mod cli;
pub mod clock;
pub mod decode;
pub mod encode;
pub mod format;
pub mod text;

pub use crate::decode::decode;
pub use crate::decode::decode_all;
pub use crate::decode::DecodeError;
pub use crate::decode::Decoded;
pub use crate::encode::duration_str_to_time;
pub use crate::encode::encode;
pub use crate::encode::encode_all;
pub use crate::encode::EncodeError;
