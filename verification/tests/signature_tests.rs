use bls::errors::DecodeError;
use bls::keys::derive_public_key;
use bls::keys::generate_secret_key;
use bls::keys::public_key_to_bytes;
use bls::signature::create_proof_of_knowledge;
use bls::signature::sign;
use bls::signature::signature_from_bytes;
use bls::signature::signature_to_bytes;
use bls::signature::verify;
use bls::SIGNATURE_LENGTH;

#[test]
fn signature_round_trip() {
    let key = generate_secret_key();
    let sig = sign(&key, b"a message");
    let bytes = signature_to_bytes(&sig);
    assert_eq!(bytes.len(), SIGNATURE_LENGTH);
    let decoded = signature_from_bytes(&bytes).expect("signature bytes must decode");
    assert_eq!(signature_to_bytes(&decoded), bytes);
}

#[test]
fn sign_is_deterministic() {
    let key = generate_secret_key();
    let first = signature_to_bytes(&sign(&key, b"a message"));
    let second = signature_to_bytes(&sign(&key, b"a message"));
    assert_eq!(first, second);
}

#[test]
fn distinct_secrets_sign_to_distinct_signatures() {
    let first = generate_secret_key();
    let second = generate_secret_key();
    let message = b"a fixed message";
    assert_ne!(
        signature_to_bytes(&sign(&first, message)),
        signature_to_bytes(&sign(&second, message))
    );
}

#[test]
fn signature_from_bytes_rejects_wrong_length() {
    let short = vec![0u8; SIGNATURE_LENGTH - 1];
    assert_eq!(signature_from_bytes(&short).unwrap_err(), DecodeError::InvalidLength);
    let long = vec![0u8; SIGNATURE_LENGTH + 1];
    assert_eq!(signature_from_bytes(&long).unwrap_err(), DecodeError::InvalidLength);
}

#[test]
fn signature_from_bytes_rejects_all_zero_buffer() {
    let zero = vec![0u8; SIGNATURE_LENGTH];
    assert_eq!(signature_from_bytes(&zero).unwrap_err(), DecodeError::InvalidEncoding);
}

#[test]
fn verify_accepts_a_genuine_signature() {
    let key = generate_secret_key();
    let public = derive_public_key(&key);
    let sig = sign(&key, b"hello");
    assert!(verify(&public, b"hello", &sig));
}

#[test]
fn verify_rejects_a_different_message() {
    let key = generate_secret_key();
    let public = derive_public_key(&key);
    let sig = sign(&key, b"hello");
    assert!(!verify(&public, b"goodbye", &sig));
}

#[test]
fn verify_rejects_a_different_signer() {
    let key = generate_secret_key();
    let other = generate_secret_key();
    let public = derive_public_key(&key);
    let sig = sign(&other, b"hello");
    assert!(!verify(&public, b"hello", &sig));
}

#[test]
fn verify_rejects_flipped_signature_bytes() {
    let key = generate_secret_key();
    let public = derive_public_key(&key);
    let sig_bytes = signature_to_bytes(&sign(&key, b"hello"));
    for position in [0usize, 1, 17, 48, 95] {
        let mut tampered = sig_bytes.clone();
        tampered[position] ^= 0x01;
        match signature_from_bytes(&tampered) {
            Ok(tampered_sig) => assert!(
                !verify(&public, b"hello", &tampered_sig),
                "a tampered signature verified at byte {position}"
            ),
            Err(e) => assert_eq!(e, DecodeError::InvalidEncoding),
        }
    }
}

#[test]
fn proof_of_knowledge_end_to_end() {
    let secret = generate_secret_key();
    let public = derive_public_key(&secret);
    let proof_sig = create_proof_of_knowledge(&secret, &public);
    let public_bytes = public_key_to_bytes(&public);
    assert!(verify(&public, &public_bytes, &proof_sig));
}

#[test]
fn proof_of_knowledge_signs_the_public_key_bytes() {
    let secret = generate_secret_key();
    let public = derive_public_key(&secret);
    let proof_sig = signature_to_bytes(&create_proof_of_knowledge(&secret, &public));
    let direct = signature_to_bytes(&sign(&secret, &public_key_to_bytes(&public)));
    assert_eq!(proof_sig, direct);
}

#[test]
fn proof_of_knowledge_does_not_verify_for_another_public_key() {
    let secret = generate_secret_key();
    let public = derive_public_key(&secret);
    let other_public = derive_public_key(&generate_secret_key());
    let proof_sig = create_proof_of_knowledge(&secret, &public);
    assert!(!verify(&other_public, &public_key_to_bytes(&public), &proof_sig));
}
