use vstd::prelude::*;

use crate::encoding::{base58_decoded, decode_base58};
use crate::error::AuthError;
use ed25519_dalek::{Signature, Verifier, VerifyingKey};

verus! {

/// Whether `VerifyingKey::from_bytes` accepts these 32 bytes, that is,
/// whether they decompress to a point of the curve.
pub uninterp spec fn ed25519_point_valid(key: Seq<u8>) -> bool;

/// Whether `VerifyingKey::verify` accepts `signature` over the UTF-8 bytes of
/// `message` for the key with these 32 bytes.
pub uninterp spec fn ed25519_accepts(key: Seq<u8>, message: Seq<char>, signature: Seq<u8>) -> bool;

/// The raw public key that a base58 address stands for, or why it stands for none.
pub open spec fn decoded_key(address: Seq<char>) -> Result<Seq<u8>, AuthError> {
    match base58_decoded(address) {
        None => Err(AuthError::InvalidEncoding),
        Some(key) => if key.len() != 32 {
            Err(AuthError::InvalidLength)
        } else if !ed25519_point_valid(key) {
            Err(AuthError::InvalidKey)
        } else {
            Ok(key)
        },
    }
}

/// The key that signed `message`, or the first check that fails: the
/// address, then the signature's encoding and length, then the signature.
pub open spec fn verification(address: Seq<char>, signature: Seq<char>, message: Seq<char>) -> Result<
    Seq<u8>,
    AuthError,
> {
    match decoded_key(address) {
        Err(e) => Err(e),
        Ok(key) => match base58_decoded(signature) {
            None => Err(AuthError::InvalidEncoding),
            Some(sig) => if sig.len() != 64 {
                Err(AuthError::InvalidLength)
            } else if !ed25519_accepts(key, message, sig) {
                Err(AuthError::SignatureMismatch)
            } else {
                Ok(key)
            },
        },
    }
}

/// The bytes of a key result.
pub open spec fn key_result_view(r: Result<Vec<u8>, AuthError>) -> Result<Seq<u8>, AuthError> {
    match r {
        Ok(v) => Ok(v@),
        Err(e) => Err(e),
    }
}

/// Relies on `VerifyingKey::from_bytes`: whether the bytes decompress to a point.
#[verifier::external_body]
fn point_is_valid(key: &[u8]) -> (r: bool)
    requires
        key@.len() == 32,
    ensures
        r == ed25519_point_valid(key@),
{
    let bytes: [u8; 32] = key.try_into().unwrap();
    VerifyingKey::from_bytes(&bytes).is_ok()
}

/// Relies on `VerifyingKey::verify` (with `Signature::from_bytes` and
/// `VerifyingKey::from_bytes` to build its arguments): whether the signature
/// checks over the message's bytes.
#[verifier::external_body]
fn signature_is_valid(key: &[u8], message: &str, signature: &[u8]) -> (r: bool)
    requires
        key@.len() == 32,
        signature@.len() == 64,
    ensures
        r == ed25519_accepts(key@, message@, signature@),
{
    let key: [u8; 32] = key.try_into().unwrap();
    let signature: [u8; 64] = signature.try_into().unwrap();
    match VerifyingKey::from_bytes(&key) {
        Ok(verifying_key) => verifying_key.verify(message.as_bytes(), &Signature::from_bytes(&signature)).is_ok(),
        Err(_) => false,
    }
}

/// Decodes a base58 address into a 32-byte ed25519 public key.
pub fn decode_public_key(address: &str) -> (r: Result<Vec<u8>, AuthError>)
    ensures
        key_result_view(r) == decoded_key(address@),
{
    let key = match decode_base58(address) {
        None => return Err(AuthError::InvalidEncoding),
        Some(key) => key,
    };
    if key.len() != 32 {
        return Err(AuthError::InvalidLength);
    }
    if !point_is_valid(&key) {
        return Err(AuthError::InvalidKey);
    }
    Ok(key)
}

/// Checks that `signature` (base58) signs `message` under the key that
/// `address` (base58) encodes, and returns that key's 32 bytes.
pub fn verify_signature(address: &str, signature: &str, message: &str) -> (r: Result<Vec<u8>, AuthError>)
    ensures
        key_result_view(r) == verification(address@, signature@, message@),
{
    let key = match decode_public_key(address) {
        Err(e) => return Err(e),
        Ok(key) => key,
    };
    let sig = match decode_base58(signature) {
        None => return Err(AuthError::InvalidEncoding),
        Some(sig) => sig,
    };
    if sig.len() != 64 {
        return Err(AuthError::InvalidLength);
    }
    if !signature_is_valid(&key, message, &sig) {
        return Err(AuthError::SignatureMismatch);
    }
    Ok(key)
}

} // verus!
