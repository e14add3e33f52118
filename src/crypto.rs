use vstd::prelude::*;

verus! {

/// What the standard base64 alphabet, with padding, decodes `text` to;
/// `None` for text that is not valid base64.
pub uninterp spec fn base64_decoding(text: Seq<char>) -> Option<Seq<u8>>;

/// Whether `signature` is a valid ed25519 signature of the UTF-8 bytes of
/// `message` under the public key `key`; `None` when `key` is not a valid
/// public key.
pub uninterp spec fn ed25519_verdict(key: Seq<u8>, message: Seq<char>, signature: Seq<u8>) -> Option<
    bool,
>;

/// Whether the 32 bytes `key` are a valid ed25519 public key (a point on
/// the curve).
pub uninterp spec fn ed25519_valid_key(key: Seq<u8>) -> bool;

/// Relies on ed25519-dalek's `VerifyingKey::from_bytes`: `Ok` exactly for
/// bytes that decompress to a valid curve point.
#[verifier::external_body]
fn ed25519_key_valid(key: &Vec<u8>) -> (r: bool)
    requires
        key@.len() == 32,
    ensures
        r == ed25519_valid_key(key@),
{
    match <[u8; 32]>::try_from(key.as_slice()) {
        Ok(bytes) => ed25519_dalek::VerifyingKey::from_bytes(&bytes).is_ok(),
        Err(_) => false,
    }
}

/// Relies on base64's `Engine::decode` with the `STANDARD` engine: the bytes
/// that the text encodes, or an error for text that is not valid base64.
#[verifier::external_body]
fn decode_base64(text: &str) -> (r: Option<Vec<u8>>)
    ensures
        r is None ==> base64_decoding(text@) is None,
        r matches Some(v) ==> base64_decoding(text@) == Some(v@),
{
    base64::Engine::decode(&base64::engine::general_purpose::STANDARD, text).ok()
}

/// Relies on ed25519-dalek: `VerifyingKey::from_bytes` (an error for bytes
/// that are not a valid point), `Signature::from_bytes` and
/// `Verifier::verify` (`Ok` exactly for a valid signature).
#[verifier::external_body]
fn ed25519_verify(key: &Vec<u8>, message: &str, signature: &Vec<u8>) -> (r: Option<bool>)
    requires
        key@.len() == 32,
        signature@.len() == 64,
    ensures
        r == ed25519_verdict(key@, message@, signature@),
{
    let key_bytes: [u8; 32] = key.as_slice().try_into().ok()?;
    let signature_bytes: [u8; 64] = signature.as_slice().try_into().ok()?;
    let verifying_key = ed25519_dalek::VerifyingKey::from_bytes(&key_bytes).ok()?;
    let signature = ed25519_dalek::Signature::from_bytes(&signature_bytes);
    Some(ed25519_dalek::Verifier::verify(&verifying_key, message.as_bytes(), &signature).is_ok())
}

/// Why a signature could not be checked.
#[derive(Clone, Copy, Debug, PartialEq, Eq, Structural)]
pub enum SignatureError {
    /// The public key is not valid base64, or not a valid ed25519 key.
    InvalidPublicKey,
    /// The public key does not decode to 32 bytes.
    InvalidPublicKeyLength,
    /// The signature is not valid base64.
    InvalidSignature,
    /// The signature does not decode to 64 bytes.
    InvalidSignatureLength,
}

/// The checks on the decoded key and signature, in order: the key decodes,
/// to 32 bytes, which are a valid public key (`key_valid`); the signature
/// decodes, to 64 bytes.
pub open spec fn decoded_checks(key: Option<Seq<u8>>, key_valid: bool, signature: Option<Seq<u8>>) -> Result<
    (),
    SignatureError,
> {
    match key {
        None => Err(SignatureError::InvalidPublicKey),
        Some(k) => if k.len() != 32 {
            Err(SignatureError::InvalidPublicKeyLength)
        } else if !key_valid {
            Err(SignatureError::InvalidPublicKey)
        } else {
            match signature {
                None => Err(SignatureError::InvalidSignature),
                Some(s) => if s.len() != 64 {
                    Err(SignatureError::InvalidSignatureLength)
                } else {
                    Ok(())
                },
            }
        },
    }
}

/// Whether `key` decodes to 32 bytes that are a valid public key.
pub open spec fn key_usable(key: Option<Seq<u8>>) -> bool {
    match key {
        Some(k) => k.len() == 32 && ed25519_valid_key(k),
        None => false,
    }
}

/// The outcome of checking `signature` (base64) on `message` against
/// `public_key` (base64).
pub open spec fn signature_check(public_key: Seq<char>, message: Seq<char>, signature: Seq<char>) -> Result<
    bool,
    SignatureError,
> {
    let key = base64_decoding(public_key);
    match decoded_checks(key, key_usable(key), base64_decoding(signature)) {
        Err(e) => Err(e),
        Ok(_) => match ed25519_verdict(key.unwrap(), message, base64_decoding(signature).unwrap()) {
            None => Err(SignatureError::InvalidPublicKey),
            Some(b) => Ok(b),
        },
    }
}

pub open spec fn opt_view(v: Option<Vec<u8>>) -> Option<Seq<u8>> {
    match v {
        Some(x) => Some(x@),
        None => None,
    }
}

/// Checks the decoded key and signature in order: a key of 32 bytes that
/// is a valid public key (`key_valid`), then a signature of 64 bytes.
pub fn check_decoded(key: &Option<Vec<u8>>, key_valid: bool, signature: &Option<Vec<u8>>) -> (r: Result<
    (),
    SignatureError,
>)
    ensures
        r == decoded_checks(opt_view(*key), key_valid, opt_view(*signature)),
{
    match key {
        None => Err(SignatureError::InvalidPublicKey),
        Some(k) => if k.len() != 32 {
            Err(SignatureError::InvalidPublicKeyLength)
        } else if !key_valid {
            Err(SignatureError::InvalidPublicKey)
        } else {
            match signature {
                None => Err(SignatureError::InvalidSignature),
                Some(s) => if s.len() != 64 {
                    Err(SignatureError::InvalidSignatureLength)
                } else {
                    Ok(())
                },
            }
        },
    }
}

/// Checks a base64 ed25519 signature of `message` against a base64 public
/// key: `Ok(true)` for a valid signature, `Ok(false)` for a well-formed one
/// that does not match, an error for input that cannot be checked.
pub fn verify_signature(public_key: &str, message: &str, signature: &str) -> (r: Result<
    bool,
    SignatureError,
>)
    ensures
        r == signature_check(public_key@, message@, signature@),
{
    let key = decode_base64(public_key);
    let key_valid = match &key {
        Some(k) => if k.len() == 32 {
            ed25519_key_valid(k)
        } else {
            false
        },
        None => false,
    };
    let sig = decode_base64(signature);
    match check_decoded(&key, key_valid, &sig) {
        Err(e) => Err(e),
        Ok(()) => {
            let k = key.unwrap();
            let s = sig.unwrap();
            match ed25519_verify(&k, message, &s) {
                None => Err(SignatureError::InvalidPublicKey),
                Some(b) => Ok(b),
            }
        },
    }
}

} // verus!
