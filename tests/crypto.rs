use base64::Engine;
use ed25519_dalek::{Signer, SigningKey};
use kanjilab_server::crypto::{check_decoded, verify_signature, SignatureError};

fn b64(bytes: &[u8]) -> String {
    base64::engine::general_purpose::STANDARD.encode(bytes)
}

#[test]
fn valid_signature_verifies() {
    let key = SigningKey::from_bytes(&[7u8; 32]);
    let public = b64(key.verifying_key().as_bytes());
    let sig = b64(&key.sign(b"challenge").to_bytes());
    assert_eq!(verify_signature(&public, "challenge", &sig), Ok(true));
    assert_eq!(verify_signature(&public, "other", &sig), Ok(false));
}

#[test]
fn malformed_inputs_are_errors() {
    let key = SigningKey::from_bytes(&[7u8; 32]);
    let public = b64(key.verifying_key().as_bytes());
    let sig = b64(&key.sign(b"m").to_bytes());
    assert_eq!(verify_signature("!!!", "m", &sig), Err(SignatureError::InvalidPublicKey));
    assert_eq!(verify_signature(&b64(&[1, 2, 3]), "m", &sig), Err(SignatureError::InvalidPublicKeyLength));
    assert_eq!(verify_signature(&public, "m", "***"), Err(SignatureError::InvalidSignature));
    assert_eq!(verify_signature(&public, "m", &b64(&[0u8; 10])), Err(SignatureError::InvalidSignatureLength));
}

#[test]
fn decoded_lengths_checked_in_order() {
    assert_eq!(check_decoded(&None, true, &None), Err(SignatureError::InvalidPublicKey));
    assert_eq!(check_decoded(&Some(vec![0u8; 31]), true, &None), Err(SignatureError::InvalidPublicKeyLength));
    assert_eq!(check_decoded(&Some(vec![0u8; 32]), false, &None), Err(SignatureError::InvalidPublicKey));
    assert_eq!(check_decoded(&Some(vec![0u8; 32]), true, &None), Err(SignatureError::InvalidSignature));
    assert_eq!(check_decoded(&Some(vec![0u8; 32]), true, &Some(vec![0u8; 63])), Err(SignatureError::InvalidSignatureLength));
    assert_eq!(check_decoded(&Some(vec![0u8; 32]), true, &Some(vec![0u8; 64])), Ok(()));
}

#[test]
fn invalid_key_point_reported_before_signature() {
    let bad = (2u8..=255)
        .map(|b| {
            let mut k = [0u8; 32];
            k[0] = b;
            k
        })
        .find(|k| ed25519_dalek::VerifyingKey::from_bytes(k).is_err())
        .expect("some 32-byte string is not a curve point");
    let bad_key = b64(&bad);
    assert_eq!(verify_signature(&bad_key, "m", "***"), Err(SignatureError::InvalidPublicKey));
    let good = SigningKey::from_bytes(&[7u8; 32]);
    let good_key = b64(good.verifying_key().as_bytes());
    assert_eq!(verify_signature(&good_key, "m", "***"), Err(SignatureError::InvalidSignature));
}
