use vstd::prelude::*;

verus! {

/// Why a challenge or a login was refused.
#[derive(Clone, Copy, Debug, PartialEq, Eq, Structural)]
pub enum AuthError {
    /// A key or a signature is not valid base58.
    InvalidEncoding,
    /// A key does not decode to 32 bytes, or a signature to 64.
    InvalidLength,
    /// The 32 bytes are not an ed25519 public key.
    InvalidKey,
    /// The nonce was never issued, was used already, or was swept out.
    NonceNotFound,
    /// The nonce outlived its time to live.
    NonceExpired,
    /// The signature does not check against the challenge and the key.
    SignatureMismatch,
    /// Wallet authentication is switched off.
    FeatureDisabled,
}

} // verus!
