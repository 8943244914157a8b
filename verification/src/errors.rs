//! The error surfaced when a byte buffer cannot be decoded into a key or a
//! signature.
//!
//! No other error kind exists. In particular, a value produced by this
//! library can never fail to re-decode: the decoding functions succeed on
//! exactly the well-formed byte strings, and every key and signature holds
//! well-formed bytes by construction, so what would otherwise be an internal
//! invariant violation is ruled out by the contracts.

use vstd::prelude::*;

verus! {

/// Why a byte buffer was rejected by one of the `*_from_bytes` entry points.
///
/// Decoding is all-or-nothing: on any error no value is produced and no state
/// is touched, so the caller can always recover by rejecting the input.
#[derive(Clone, Copy, Debug, PartialEq, Eq, Structural)]
pub enum DecodeError {
    /// The buffer's length differs from the canonical serialized length of
    /// the requested type.
    InvalidLength,
    /// The buffer has the right length but does not encode a valid value:
    /// a non-canonical or zero scalar, or bytes that are not the compressed
    /// encoding of a point of the proper group.
    InvalidEncoding,
}

impl DecodeError {
    /// A human-readable cause for the failure.
    pub fn message(&self) -> (r: &'static str)
        ensures
            (*self is InvalidLength) ==> r@ == "buffer length differs from the canonical encoding length"@,
            (*self is InvalidEncoding) ==> r@ == "buffer is not a canonical encoding of a valid value"@,
    {
        match self {
            DecodeError::InvalidLength => "buffer length differs from the canonical encoding length",
            DecodeError::InvalidEncoding => "buffer is not a canonical encoding of a valid value",
        }
    }
}

} // verus!
