//! The library's laws, stated over the same spec functions and views that
//! the executable functions' contracts use.

use vstd::prelude::*;

use crate::engine::public_key_of;
use crate::engine::signature_of;
use crate::keys::public_bytes_wf;
use crate::keys::secret_bytes_wf;
use crate::signature::signature_bytes_wf;

verus! {

/// Round trip for secret keys: `secret_key_from_bytes` ensures that the key
/// decoded from well-formed bytes `b` views as exactly `b`, and
/// `secret_key_to_bytes` returns exactly the key's view; so re-encoding a
/// decoded key gives the original bytes back.
pub proof fn lemma_secret_key_round_trip(b: Seq<u8>, key_view: Seq<u8>, reencoded: Seq<u8>)
    requires
        secret_bytes_wf(b),
        key_view == b,
        reencoded == key_view,
    ensures
        reencoded == b,
{
}

/// Round trip for public keys: `public_key_from_bytes` ensures that the key
/// decoded from well-formed bytes `b` views as exactly `b`, and
/// `public_key_to_bytes` returns exactly the key's view; so re-encoding a
/// decoded key gives the original bytes back.
pub proof fn lemma_public_key_round_trip(b: Seq<u8>, key_view: Seq<u8>, reencoded: Seq<u8>)
    requires
        public_bytes_wf(b),
        key_view == b,
        reencoded == key_view,
    ensures
        reencoded == b,
{
}

/// Round trip for signatures: `signature_from_bytes` ensures that the
/// signature decoded from well-formed bytes `b` views as exactly `b`, and
/// `signature_to_bytes` returns exactly the signature's view; so re-encoding
/// a decoded signature gives the original bytes back.
pub proof fn lemma_signature_round_trip(b: Seq<u8>, sig_view: Seq<u8>, reencoded: Seq<u8>)
    requires
        signature_bytes_wf(b),
        sig_view == b,
        reencoded == sig_view,
    ensures
        reencoded == b,
{
}

/// Determinism of public-key derivation: `derive_public_key` ensures that
/// its result views as `public_key_of` of the secret's bytes, a function of
/// those bytes alone; so two derivations from the same secret yield
/// identical bytes.
pub proof fn lemma_derive_public_key_deterministic(
    secret: Seq<u8>,
    first: Seq<u8>,
    second: Seq<u8>,
)
    requires
        first == public_key_of(secret),
        second == public_key_of(secret),
    ensures
        first == second,
{
}

/// Determinism of signing: `sign` ensures that its result views as
/// `signature_of` of the secret's bytes and the message, a function of those
/// two alone; so signing the same message twice with the same key yields
/// identical bytes.
pub proof fn lemma_sign_deterministic(
    secret: Seq<u8>,
    message: Seq<u8>,
    first: Seq<u8>,
    second: Seq<u8>,
)
    requires
        first == signature_of(secret, message),
        second == signature_of(secret, message),
    ensures
        first == second,
{
}

} // verus!
