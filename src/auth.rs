use vstd::prelude::*;

use crate::crypto::{signature_check, verify_signature, SignatureError};
use crate::ids::new_uuid;
use crate::text::copy_string;

verus! {

/// Why a handshake step was refused.
#[derive(Clone, Copy, Debug, PartialEq, Eq, Structural)]
pub enum AuthError {
    /// The connection has passed the handshake already.
    AlreadyValidated,
    /// No public key was submitted before the signature.
    NoKey,
    /// The signature does not verify against the submitted key.
    WrongSignature,
}

/// The handshake state of one connection: the challenge it must sign, the
/// public key it submitted, and whether it has proved possession of the key.
pub struct PendingAuth {
    pub challenge: String,
    pub key: Option<String>,
    pub validated: bool,
}

impl PendingAuth {
    /// A fresh handshake with a newly generated random challenge.
    pub fn new() -> (r: PendingAuth)
        ensures
            r.key is None,
            !r.validated,
            r.challenge@.len() == 36,
    {
        PendingAuth::with_challenge(new_uuid())
    }

    /// A fresh handshake with the given challenge.
    pub fn with_challenge(challenge: String) -> (r: PendingAuth)
        ensures
            r == (PendingAuth { challenge, key: None, validated: false }),
    {
        PendingAuth { challenge, key: None, validated: false }
    }

    /// Stores the submitted public key (replacing an earlier one) and returns
    /// the challenge to sign; refused once the connection is validated.
    pub fn submit_public_key(&mut self, key: String) -> (r: Result<String, AuthError>)
        ensures
            old(self).validated ==> r == Err::<String, AuthError>(AuthError::AlreadyValidated)
                && *final(self) == *old(self),
            !old(self).validated ==> r == Ok::<String, AuthError>(old(self).challenge) && *final(self) == (PendingAuth { key: Some(key), ..*old(self) }),
    {
        if self.validated {
            return Err(AuthError::AlreadyValidated);
        }
        self.key = Some(key);
        Ok(copy_string(&self.challenge))
    }

    /// Applies the verdict of a signature check: a valid signature validates
    /// the connection.
    pub fn apply_verdict(&mut self, valid: bool) -> (r: Result<(), AuthError>)
        requires
            !old(self).validated,
            old(self).key is Some,
        ensures
            valid ==> r == Ok::<(), AuthError>(()) && *final(self) == (PendingAuth {
                validated: true,
                ..*old(self)
            }),
            !valid ==> r == Err::<(), AuthError>(AuthError::WrongSignature) && *final(self) == *old(self),
    {
        if valid {
            self.validated = true;
            Ok(())
        } else {
            Err(AuthError::WrongSignature)
        }
    }

    /// Checks `signature` (base64) over the challenge against the submitted
    /// key; a signature that cannot be checked counts as wrong.
    pub fn verify(&mut self, signature: &str) -> (r: Result<(), AuthError>)
        ensures
            old(self).validated ==> r == Err::<(), AuthError>(AuthError::AlreadyValidated)
                && *final(self) == *old(self),
            !old(self).validated && old(self).key is None ==> r == Err::<(), AuthError>(
                AuthError::NoKey,
            ) && *final(self) == *old(self),
            !old(self).validated && old(self).key is Some ==> {
                let valid = signature_check(old(self).key.unwrap()@, old(self).challenge@, signature@)
                    == Ok::<bool, SignatureError>(true);
                &&& valid ==> r == Ok::<(), AuthError>(()) && *final(self) == (PendingAuth {
                    validated: true,
                    ..*old(self)
                })
                &&& !valid ==> r == Err::<(), AuthError>(AuthError::WrongSignature) && *final(self)
                    == *old(self)
            },
    {
        if self.validated {
            return Err(AuthError::AlreadyValidated);
        }
        let valid = match &self.key {
            None => {
                return Err(AuthError::NoKey);
            },
            Some(key) => match verify_signature(key.as_str(), self.challenge.as_str(), signature) {
                Ok(b) => b,
                Err(_) => false,
            },
        };
        self.apply_verdict(valid)
    }
}

} // verus!
