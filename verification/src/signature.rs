//! Signature construction: proof-of-knowledge signatures and their
//! compressed encoding, and pairing-based verification.

use vstd::prelude::*;
use vstd::slice::slice_to_vec;

use crate::engine::sign_bytes;
use crate::engine::signature_bytes_decode_ok;
use crate::engine::signature_bytes_valid;
use crate::engine::signature_of;
use crate::engine::verification_of;
use crate::errors::DecodeError;
use crate::keys::PublicKey;
use crate::keys::SecretKey;
use crate::SIGNATURE_LENGTH;

verus! {

/// Well-formed signature bytes: the compressed encoding of a point of the
/// second group, of the fixed serialized length.
pub open spec fn signature_bytes_wf(b: Seq<u8>) -> bool {
    &&& b.len() == SIGNATURE_LENGTH
    &&& signature_bytes_valid(b)
}

/// A signature: a point of the second group, equal to `secret · H(message)`,
/// held in its compressed encoding.
#[derive(Debug)]
pub struct Signature {
    bytes: Vec<u8>,
}

impl View for Signature {
    type V = Seq<u8>;

    closed spec fn view(&self) -> Seq<u8> {
        self.bytes@
    }
}

impl Signature {
    #[verifier::type_invariant]
    spec fn type_inv(&self) -> bool {
        signature_bytes_wf(self@)
    }

    /// The compressed encoding of the signature, as a borrowed slice.
    pub fn as_bytes(&self) -> (r: &[u8])
        ensures
            r@ == self@,
            signature_bytes_wf(self@),
    {
        proof {
            use_type_invariant(self);
        }
        self.bytes.as_slice()
    }
}

/// Signs a message: hashes it into the second group and multiplies by the
/// secret scalar, returning the compressed encoding of the result.
///
/// The result is a function of the secret key bytes and the message alone:
/// signing the same message twice with the same key yields identical bytes.
pub fn sign(secret: &SecretKey, message: &[u8]) -> (s: Signature)
    ensures
        s@ == signature_of(secret@, message@),
        signature_bytes_wf(s@),
{
    let bytes = sign_bytes(secret.as_bytes(), message);
    Signature { bytes }
}

/// Creates a proof of knowledge: a signature over the compressed encoding of
/// the signer's own public key, proving possession of the corresponding
/// secret key.
///
/// The message signed is exactly `public`'s compressed bytes; the result is
/// a function of the two keys' bytes alone.
pub fn create_proof_of_knowledge(secret: &SecretKey, public: &PublicKey) -> (s: Signature)
    ensures
        s@ == signature_of(secret@, public@),
        signature_bytes_wf(s@),
{
    sign(secret, public.as_bytes())
}

/// Decodes a signature from its compressed encoding.
///
/// Succeeds exactly on well-formed signature bytes (right length, and a
/// point of the second group: curve and subgroup membership are validated),
/// and the decoded signature holds exactly the input bytes. A buffer of the
/// wrong length is rejected with `InvalidLength` before any mathematical
/// decoding; one of the right length that encodes no valid point is rejected
/// with `InvalidEncoding`.
pub fn signature_from_bytes(bytes: &[u8]) -> (r: Result<Signature, DecodeError>)
    ensures
        r is Ok <==> signature_bytes_wf(bytes@),
        r matches Ok(s) ==> s@ == bytes@,
        bytes@.len() != SIGNATURE_LENGTH ==> r == Err::<Signature, DecodeError>(
            DecodeError::InvalidLength,
        ),
        bytes@.len() == SIGNATURE_LENGTH && !signature_bytes_wf(bytes@) ==> r == Err::<
            Signature,
            DecodeError,
        >(DecodeError::InvalidEncoding),
{
    if bytes.len() != SIGNATURE_LENGTH {
        return Err(DecodeError::InvalidLength);
    }
    if !signature_bytes_decode_ok(bytes) {
        return Err(DecodeError::InvalidEncoding);
    }
    Ok(Signature { bytes: slice_to_vec(bytes) })
}

/// Re-encodes a signature. Returns exactly the bytes the signature was
/// created from: decoding and re-encoding is the identity on well-formed
/// input.
pub fn signature_to_bytes(s: &Signature) -> (r: Vec<u8>)
    ensures
        r@ == s@,
        signature_bytes_wf(s@),
{
    proof {
        use_type_invariant(s);
    }
    slice_to_vec(s.bytes.as_slice())
}

/// Verifies a signature against a public key and a message: returns whether
/// the pairing equation `e(public, H(message)) == e(G1, signature)` holds.
///
/// The result is a function of the three arguments alone. A well-formed but
/// mismatched signature makes it return false; it never fails.
pub fn verify(public: &PublicKey, message: &[u8], s: &Signature) -> (r: bool)
    ensures
        r == verification_of(public@, message@, s@),
{
    crate::engine::verify_bytes(public.as_bytes(), message, s.as_bytes())
}

} // verus!
