//! Key material: secret keys and the public keys derived from them.

use vstd::prelude::*;
use vstd::slice::slice_to_vec;

use crate::engine::derive_public_bytes;
use crate::engine::public_bytes_decode_ok;
use crate::engine::public_bytes_valid;
use crate::engine::public_key_of;
use crate::engine::random_scalar_bytes;
use crate::engine::scalar_bytes_decode_ok;
use crate::engine::scalar_bytes_valid;
use crate::errors::DecodeError;
use crate::is_all_zero;
use crate::is_zero_bytes;
use crate::PUBLIC_KEY_LENGTH;
use crate::SECRET_KEY_LENGTH;

verus! {

/// Well-formed secret key bytes: the canonical encoding of a nonzero scalar
/// of the prime-order field, of the fixed serialized length.
pub open spec fn secret_bytes_wf(b: Seq<u8>) -> bool {
    &&& b.len() == SECRET_KEY_LENGTH
    &&& scalar_bytes_valid(b)
    &&& !is_zero_bytes(b)
}

/// Well-formed public key bytes: the compressed encoding of a point of the
/// first group, of the fixed serialized length.
pub open spec fn public_bytes_wf(b: Seq<u8>) -> bool {
    &&& b.len() == PUBLIC_KEY_LENGTH
    &&& public_bytes_valid(b)
}

/// A secret key: a nonzero scalar of the pairing group's prime-order field,
/// held in its canonical serialized form. Immutable once created.
#[derive(Debug)]
pub struct SecretKey {
    bytes: Vec<u8>,
}

impl View for SecretKey {
    type V = Seq<u8>;

    closed spec fn view(&self) -> Seq<u8> {
        self.bytes@
    }
}

impl SecretKey {
    #[verifier::type_invariant]
    spec fn type_inv(&self) -> bool {
        secret_bytes_wf(self@)
    }

    /// The canonical serialized form of the key, as a borrowed slice.
    pub fn as_bytes(&self) -> (r: &[u8])
        ensures
            r@ == self@,
            secret_bytes_wf(self@),
    {
        proof {
            use_type_invariant(self);
        }
        self.bytes.as_slice()
    }
}

/// A public key: a point of the first group, equal to `secret · G1` for
/// exactly one secret key, held in its compressed encoding.
#[derive(Debug)]
pub struct PublicKey {
    bytes: Vec<u8>,
}

impl View for PublicKey {
    type V = Seq<u8>;

    closed spec fn view(&self) -> Seq<u8> {
        self.bytes@
    }
}

impl PublicKey {
    #[verifier::type_invariant]
    spec fn type_inv(&self) -> bool {
        public_bytes_wf(self@)
    }

    /// The compressed encoding of the key, as a borrowed slice.
    pub fn as_bytes(&self) -> (r: &[u8])
        ensures
            r@ == self@,
            public_bytes_wf(self@),
    {
        proof {
            use_type_invariant(self);
        }
        self.bytes.as_slice()
    }

}

/// Draws a fresh secret key from the system's cryptographically secure
/// random source. The result is always a well-formed (in particular,
/// nonzero) scalar; nothing relates the results of two calls.
pub fn generate_secret_key() -> (key: SecretKey)
    ensures
        secret_bytes_wf(key@),
{
    let bytes = random_scalar_bytes();
    SecretKey { bytes }
}

/// Decodes a secret key from its canonical serialized form.
///
/// Succeeds exactly on well-formed secret key bytes, and the decoded key
/// holds exactly the input bytes. A buffer of the wrong length is rejected
/// with `InvalidLength` before any mathematical decoding; a buffer of the
/// right length that encodes no valid nonzero scalar is rejected with
/// `InvalidEncoding`.
pub fn secret_key_from_bytes(bytes: &[u8]) -> (r: Result<SecretKey, DecodeError>)
    ensures
        r is Ok <==> secret_bytes_wf(bytes@),
        r matches Ok(key) ==> key@ == bytes@,
        bytes@.len() != SECRET_KEY_LENGTH ==> r == Err::<SecretKey, DecodeError>(
            DecodeError::InvalidLength,
        ),
        bytes@.len() == SECRET_KEY_LENGTH && !secret_bytes_wf(bytes@) ==> r == Err::<
            SecretKey,
            DecodeError,
        >(DecodeError::InvalidEncoding),
{
    if bytes.len() != SECRET_KEY_LENGTH {
        return Err(DecodeError::InvalidLength);
    }
    if is_all_zero(bytes) {
        return Err(DecodeError::InvalidEncoding);
    }
    if !scalar_bytes_decode_ok(bytes) {
        return Err(DecodeError::InvalidEncoding);
    }
    Ok(SecretKey { bytes: slice_to_vec(bytes) })
}

/// Re-encodes a secret key. Returns exactly the bytes the key was created
/// from: decoding and re-encoding is the identity on well-formed input.
pub fn secret_key_to_bytes(key: &SecretKey) -> (r: Vec<u8>)
    ensures
        r@ == key@,
        secret_bytes_wf(key@),
{
    proof {
        use_type_invariant(key);
    }
    slice_to_vec(key.bytes.as_slice())
}

/// Derives the public key `secret · G1` in its compressed encoding.
///
/// The result is a function of the secret key bytes alone: deriving twice
/// from the same secret yields identical bytes.
pub fn derive_public_key(secret: &SecretKey) -> (public: PublicKey)
    ensures
        public@ == public_key_of(secret@),
        public_bytes_wf(public@),
{
    proof {
        use_type_invariant(secret);
    }
    let bytes = derive_public_bytes(secret.bytes.as_slice());
    PublicKey { bytes }
}

/// Decodes a public key from its compressed encoding.
///
/// Succeeds exactly on well-formed public key bytes (right length, and a
/// point of the first group: curve and subgroup membership are validated),
/// and the decoded key holds exactly the input bytes. A buffer of the wrong
/// length is rejected with `InvalidLength` before any mathematical decoding;
/// one of the right length that encodes no valid point is rejected with
/// `InvalidEncoding`.
pub fn public_key_from_bytes(bytes: &[u8]) -> (r: Result<PublicKey, DecodeError>)
    ensures
        r is Ok <==> public_bytes_wf(bytes@),
        r matches Ok(key) ==> key@ == bytes@,
        bytes@.len() != PUBLIC_KEY_LENGTH ==> r == Err::<PublicKey, DecodeError>(
            DecodeError::InvalidLength,
        ),
        bytes@.len() == PUBLIC_KEY_LENGTH && !public_bytes_wf(bytes@) ==> r == Err::<
            PublicKey,
            DecodeError,
        >(DecodeError::InvalidEncoding),
{
    if bytes.len() != PUBLIC_KEY_LENGTH {
        return Err(DecodeError::InvalidLength);
    }
    if !public_bytes_decode_ok(bytes) {
        return Err(DecodeError::InvalidEncoding);
    }
    Ok(PublicKey { bytes: slice_to_vec(bytes) })
}

/// Re-encodes a public key. Returns exactly the bytes the key was created
/// from: decoding and re-encoding is the identity on well-formed input.
pub fn public_key_to_bytes(key: &PublicKey) -> (r: Vec<u8>)
    ensures
        r@ == key@,
        public_bytes_wf(key@),
{
    proof {
        use_type_invariant(key);
    }
    slice_to_vec(key.bytes.as_slice())
}

} // verus!
