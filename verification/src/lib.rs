//! A small BLS signature library: key generation, key (de)serialization,
//! public-key derivation, and proof-of-knowledge signatures over raw byte
//! buffers. All elliptic-curve and pairing arithmetic is delegated to an
//! external pairing engine; this crate owns the typed value layer, the
//! byte-level validation, and the proof-of-knowledge construction.

use vstd::prelude::*;

pub mod engine;
pub mod errors;
pub mod keys;
pub mod laws;
pub mod signature;

verus! {

/// Length in bytes of a canonically encoded secret key (a scalar of the
/// pairing group's prime-order field).
pub const SECRET_KEY_LENGTH: usize = 32;

/// Length in bytes of a compressed public key (a point of the first group).
pub const PUBLIC_KEY_LENGTH: usize = 48;

/// Length in bytes of a compressed signature (a point of the second group).
pub const SIGNATURE_LENGTH: usize = 96;

/// True when every byte of `b` is zero.
pub open spec fn is_zero_bytes(b: Seq<u8>) -> bool {
    forall|i: int| 0 <= i < b.len() ==> b[i] == 0
}

/// Returns whether every byte of `b` is zero.
pub fn is_all_zero(b: &[u8]) -> (r: bool)
    ensures
        r == is_zero_bytes(b@),
{
    let mut i: usize = 0;
    while i < b.len()
        invariant
            0 <= i <= b@.len(),
            forall|j: int| 0 <= j < i ==> b@[j] == 0,
        decreases b@.len() - i,
    {
        if b[i] != 0 {
            return false;
        }
        i = i + 1;
    }
    true
}

} // verus!
