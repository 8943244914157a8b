//! The trusted boundary to the pairing engine.
//!
//! Everything this library knows of the elliptic-curve arithmetic is stated
//! here: each function wraps one computation of the engine and its contract
//! names or bounds the result. The rest of the crate is verified against
//! these contracts alone.
//!
//! All values crossing this boundary are plain byte buffers:
//! - a secret key is the canonical little-endian encoding of a scalar of the
//!   prime-order field,
//! - a public key is the compressed encoding of a point of the first group,
//! - a signature is the compressed encoding of a point of the second group.
//!
//! Signing hashes the message into the second group with the standard
//! hash-to-curve construction (`ExpandMsgXmd` over SHA-256) under the
//! proof-of-possession domain separation tag, then multiplies by the secret
//! scalar; verification checks the pairing equation
//! `e(public, H(message)) == e(G1, signature)`.

use vstd::prelude::*;

use group::Curve;

use crate::is_zero_bytes;
use crate::PUBLIC_KEY_LENGTH;
use crate::SECRET_KEY_LENGTH;
use crate::SIGNATURE_LENGTH;

verus! {

/// Whether `Scalar::from_bytes` accepts `b`: exactly the canonical
/// little-endian encodings of the scalars of the prime-order field.
pub uninterp spec fn scalar_bytes_valid(b: Seq<u8>) -> bool;

/// Whether `G1Affine::from_compressed` accepts `b`: exactly the compressed
/// encodings of the points of the first group (curve and subgroup membership
/// both checked).
pub uninterp spec fn public_bytes_valid(b: Seq<u8>) -> bool;

/// Whether `G2Affine::from_compressed` accepts `b`: exactly the compressed
/// encodings of the points of the second group.
pub uninterp spec fn signature_bytes_valid(b: Seq<u8>) -> bool;

/// The compressed encoding of `secret · G1`, where `secret` is the scalar
/// encoded by the given bytes and `G1` is the first group's generator.
pub uninterp spec fn public_key_of(secret: Seq<u8>) -> Seq<u8>;

/// The compressed encoding of `secret · H(message)`, where `H` hashes into
/// the second group.
pub uninterp spec fn signature_of(secret: Seq<u8>, message: Seq<u8>) -> Seq<u8>;

/// Whether the pairing equation `e(public, H(message)) == e(G1, signature)`
/// holds of the points encoded by the given bytes.
pub uninterp spec fn verification_of(public: Seq<u8>, message: Seq<u8>, signature: Seq<u8>) -> bool;

/// Relies on `getrandom::getrandom` for entropy and on the engine's
/// `Scalar::from_bytes_wide` (uniform reduction of 64 bytes modulo the group
/// order) and `Scalar::to_bytes` (canonical encoding, all-zero exactly for
/// the zero scalar). Draws again in the astronomically unlikely case that
/// the zero scalar comes up, so the result is always a nonzero canonical
/// scalar encoding. No two calls are related: the result is random.
#[verifier::external_body]
pub(crate) fn random_scalar_bytes() -> (r: Vec<u8>)
    ensures
        r@.len() == SECRET_KEY_LENGTH,
        scalar_bytes_valid(r@),
        !is_zero_bytes(r@),
{
    loop {
        let mut wide = [0u8; 64];
        getrandom::getrandom(&mut wide).expect("entropy source unavailable");
        let bytes = bls12_381::Scalar::from_bytes_wide(&wide).to_bytes();
        if bytes != [0u8; 32] {
            return bytes.to_vec();
        }
    }
}

/// Relies on the engine's `Scalar::from_bytes`: it accepts a 32-byte buffer
/// exactly when it is the canonical little-endian encoding of a scalar.
#[verifier::external_body]
pub(crate) fn scalar_bytes_decode_ok(b: &[u8]) -> (r: bool)
    requires
        b@.len() == SECRET_KEY_LENGTH,
    ensures
        r == scalar_bytes_valid(b@),
{
    let arr: [u8; 32] = b.try_into().expect("length checked by caller");
    bool::from(bls12_381::Scalar::from_bytes(&arr).is_some())
}

/// Relies on the engine's `G1Affine::from_compressed`: it accepts a 48-byte
/// buffer exactly when it is the compressed encoding of a point of the first
/// group, validating curve and subgroup membership.
#[verifier::external_body]
pub(crate) fn public_bytes_decode_ok(b: &[u8]) -> (r: bool)
    requires
        b@.len() == PUBLIC_KEY_LENGTH,
    ensures
        r == public_bytes_valid(b@),
{
    let arr: [u8; 48] = b.try_into().expect("length checked by caller");
    bool::from(bls12_381::G1Affine::from_compressed(&arr).is_some())
}

/// Relies on the engine's `G2Affine::from_compressed`: it accepts a 96-byte
/// buffer exactly when it is the compressed encoding of a point of the
/// second group, validating curve and subgroup membership.
#[verifier::external_body]
pub(crate) fn signature_bytes_decode_ok(b: &[u8]) -> (r: bool)
    requires
        b@.len() == SIGNATURE_LENGTH,
    ensures
        r == signature_bytes_valid(b@),
{
    let arr: [u8; 96] = b.try_into().expect("length checked by caller");
    bool::from(bls12_381::G2Affine::from_compressed(&arr).is_some())
}

/// Relies on the engine's `Scalar::from_bytes`, scalar multiplication of the
/// first group's generator, and `G1Affine::to_compressed`: the result is the
/// compressed encoding of `secret · G1`, a function of the secret bytes
/// alone, and itself a valid compressed point.
#[verifier::external_body]
pub(crate) fn derive_public_bytes(secret: &[u8]) -> (r: Vec<u8>)
    requires
        secret@.len() == SECRET_KEY_LENGTH,
        scalar_bytes_valid(secret@),
    ensures
        r@ == public_key_of(secret@),
        r@.len() == PUBLIC_KEY_LENGTH,
        public_bytes_valid(r@),
{
    let arr: [u8; 32] = secret.try_into().expect("length checked by caller");
    let scalar: bls12_381::Scalar =
        Option::from(bls12_381::Scalar::from_bytes(&arr)).expect("validity checked by caller");
    let point: bls12_381::G1Projective = bls12_381::G1Projective::generator() * scalar;
    point.to_affine().to_compressed().to_vec()
}

/// Relies on the engine's `Scalar::from_bytes`, hash-to-curve into the
/// second group (`ExpandMsgXmd` over SHA-256, proof-of-possession domain
/// separation tag), scalar multiplication, and `G2Affine::to_compressed`:
/// the result is the compressed encoding of `secret · H(message)`, a
/// function of the two arguments alone, and itself a valid compressed point.
#[verifier::external_body]
pub(crate) fn sign_bytes(secret: &[u8], message: &[u8]) -> (r: Vec<u8>)
    requires
        secret@.len() == SECRET_KEY_LENGTH,
        scalar_bytes_valid(secret@),
    ensures
        r@ == signature_of(secret@, message@),
        r@.len() == SIGNATURE_LENGTH,
        signature_bytes_valid(r@),
{
    let arr: [u8; 32] = secret.try_into().expect("length checked by caller");
    let scalar: bls12_381::Scalar =
        Option::from(bls12_381::Scalar::from_bytes(&arr)).expect("validity checked by caller");
    let hashed = <bls12_381::G2Projective as bls12_381::hash_to_curve::HashToCurve<
        bls12_381::hash_to_curve::ExpandMsgXmd<sha2::Sha256>,
    >>::hash_to_curve([message], b"BLS_SIG_BLS12381G2_XMD:SHA-256_SSWU_RO_POP_");
    let point: bls12_381::G2Projective = hashed * scalar;
    point.to_affine().to_compressed().to_vec()
}

/// Relies on the engine's compressed decoding, hash-to-curve (the same
/// parameters as signing), and bilinear pairing: returns whether
/// `e(public, H(message)) == e(G1, signature)`, a function of the three
/// arguments alone.
#[verifier::external_body]
pub(crate) fn verify_bytes(public: &[u8], message: &[u8], signature: &[u8]) -> (r: bool)
    requires
        public@.len() == PUBLIC_KEY_LENGTH,
        public_bytes_valid(public@),
        signature@.len() == SIGNATURE_LENGTH,
        signature_bytes_valid(signature@),
    ensures
        r == verification_of(public@, message@, signature@),
{
    let p: [u8; 48] = public.try_into().expect("length checked by caller");
    let s: [u8; 96] = signature.try_into().expect("length checked by caller");
    let p = Option::from(bls12_381::G1Affine::from_compressed(&p)).expect("validity checked by caller");
    let s = Option::from(bls12_381::G2Affine::from_compressed(&s)).expect("validity checked by caller");
    let hashed = <bls12_381::G2Projective as bls12_381::hash_to_curve::HashToCurve<
        bls12_381::hash_to_curve::ExpandMsgXmd<sha2::Sha256>,
    >>::hash_to_curve([message], b"BLS_SIG_BLS12381G2_XMD:SHA-256_SSWU_RO_POP_");
    bls12_381::pairing(&p, &hashed.to_affine()) == bls12_381::pairing(&bls12_381::G1Affine::generator(), &s)
}

} // verus!
