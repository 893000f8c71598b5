//! Wallet-signature authentication: single-use challenges, the message a
//! wallet signs, ed25519 signature checks and the account identifier that a
//! public key maps to.

pub mod auth;
pub mod encoding;
pub mod error;
pub mod identity;
pub mod login;
pub mod message;
pub mod nonce_store;
pub mod registry;
pub mod signature;

pub use error::AuthError;
pub use identity::{canonical_id, display_label};
pub use message::format_sign_message;
pub use nonce_store::NonceStore;
pub use signature::{decode_public_key, verify_signature};
pub use auth::{
    generate_nonce, generate_random_nonce, issue_challenge, verify_solana_login, NonceRequest,
    NonceResponse, SolanaAuth, SolanaLoginRequest,
};
pub use login::{advertised_login_types, classify_login_type, LoginMethod};
pub use registry::{is_valid_hostname, validate_homeserver, RegistryError};
