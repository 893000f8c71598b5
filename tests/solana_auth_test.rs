use ed25519_dalek::{Signature, Signer, SigningKey, Verifier, VerifyingKey};
use sha2::{Digest, Sha256};
use solana_auth::{canonical_id, decode_public_key, format_sign_message, verify_signature, AuthError};

/// A deterministic signing key derived from one seed byte.
fn test_signing_key(seed: u8) -> SigningKey {
    let mut secret = [0u8; 32];
    secret[0] = seed;
    let hash = Sha256::digest([seed]);
    secret.copy_from_slice(&hash);
    SigningKey::from_bytes(&secret)
}

#[test]
fn pubkey_to_hex_localpart_is_64_lowercase_chars() {
    let signing_key = test_signing_key(1);
    let verifying_key = signing_key.verifying_key();
    let hex_localpart = canonical_id(verifying_key.as_bytes());

    assert_eq!(hex_localpart.len(), 64);
    assert!(hex_localpart.chars().all(|c| c.is_ascii_hexdigit() && !c.is_ascii_uppercase()));
}

#[test]
fn hex_localpart_is_valid_matrix_localpart() {
    let signing_key = test_signing_key(2);
    let verifying_key = signing_key.verifying_key();
    let hex_localpart = canonical_id(verifying_key.as_bytes());

    let valid_matrix_chars = |c: char| c.is_ascii_lowercase() || c.is_ascii_digit() || "._=-/".contains(c);
    assert!(hex_localpart.chars().all(valid_matrix_chars));
}

#[test]
fn hex_localpart_roundtrips_to_base58_address() {
    let signing_key = test_signing_key(3);
    let verifying_key = signing_key.verifying_key();
    let pubkey_bytes = verifying_key.as_bytes();

    let hex_localpart = canonical_id(pubkey_bytes);

    let recovered_bytes = hex::decode(&hex_localpart).expect("hex decode should work");
    assert_eq!(recovered_bytes.as_slice(), pubkey_bytes.as_slice());

    let base58_address = bs58::encode(pubkey_bytes).into_string();
    let decoded_from_base58 = decode_public_key(&base58_address).expect("base58 decode should work");
    assert_eq!(decoded_from_base58.as_slice(), pubkey_bytes.as_slice());

    assert_eq!(recovered_bytes, decoded_from_base58);
}

#[test]
fn solana_address_is_valid_base58_32_bytes() {
    let signing_key = test_signing_key(4);
    let verifying_key = signing_key.verifying_key();
    let base58_address = bs58::encode(verifying_key.as_bytes()).into_string();

    assert!(
        base58_address.len() >= 32 && base58_address.len() <= 44,
        "base58 address length {} is outside expected range 32-44",
        base58_address.len()
    );

    let decoded = decode_public_key(&base58_address).expect("should decode");
    assert_eq!(decoded.len(), 32);
}

#[test]
fn sign_and_verify_challenge_message() {
    let signing_key = test_signing_key(5);
    let verifying_key = signing_key.verifying_key();

    let server_name = "chat.example.com";
    let nonce = "abc123def456";
    let message = format_sign_message(server_name, nonce);
    assert_eq!(
        message,
        format!(
            "Sign in to {server_name}\n\nNonce: {nonce}\n\nThis signature will not trigger a blockchain transaction or cost any fees."
        )
    );

    let signature = signing_key.sign(message.as_bytes());

    assert!(verifying_key.verify(message.as_bytes(), &signature).is_ok());
    let address = bs58::encode(verifying_key.as_bytes()).into_string();
    let sig_base58 = bs58::encode(signature.to_bytes()).into_string();
    assert!(verify_signature(&address, &sig_base58, &message).is_ok());
}

#[test]
fn wrong_key_fails_verification() {
    let signing_key = test_signing_key(6);
    let wrong_key = test_signing_key(7);

    let message = "Sign in to chat.example.com\n\nNonce: test123\n\nThis signature will not trigger a blockchain transaction or cost any fees.";
    let signature = signing_key.sign(message.as_bytes());

    let wrong_verifying_key = wrong_key.verifying_key();
    assert!(wrong_verifying_key.verify(message.as_bytes(), &signature).is_err());
    let wrong_address = bs58::encode(wrong_verifying_key.as_bytes()).into_string();
    let sig_base58 = bs58::encode(signature.to_bytes()).into_string();
    assert_eq!(verify_signature(&wrong_address, &sig_base58, message), Err(AuthError::SignatureMismatch));
}

#[test]
fn tampered_message_fails_verification() {
    let signing_key = test_signing_key(8);
    let verifying_key = signing_key.verifying_key();

    let message = "Sign in to chat.example.com\n\nNonce: test123\n\nThis signature will not trigger a blockchain transaction or cost any fees.";
    let signature = signing_key.sign(message.as_bytes());

    let tampered = "Sign in to evil.example.com\n\nNonce: test123\n\nThis signature will not trigger a blockchain transaction or cost any fees.";
    assert!(verifying_key.verify(tampered.as_bytes(), &signature).is_err());
    let address = bs58::encode(verifying_key.as_bytes()).into_string();
    let sig_base58 = bs58::encode(signature.to_bytes()).into_string();
    assert_eq!(verify_signature(&address, &sig_base58, tampered), Err(AuthError::SignatureMismatch));
}

#[test]
fn different_nonce_fails_verification() {
    let signing_key = test_signing_key(9);
    let verifying_key = signing_key.verifying_key();

    let message = "Sign in to chat.example.com\n\nNonce: original_nonce\n\nThis signature will not trigger a blockchain transaction or cost any fees.";
    let signature = signing_key.sign(message.as_bytes());

    let replayed = "Sign in to chat.example.com\n\nNonce: different_nonce\n\nThis signature will not trigger a blockchain transaction or cost any fees.";
    assert!(verifying_key.verify(replayed.as_bytes(), &signature).is_err());
    let address = bs58::encode(verifying_key.as_bytes()).into_string();
    let sig_base58 = bs58::encode(signature.to_bytes()).into_string();
    assert_eq!(verify_signature(&address, &sig_base58, replayed), Err(AuthError::SignatureMismatch));
}

#[test]
fn base58_signature_roundtrip() {
    let signing_key = test_signing_key(10);
    let message = b"test message";
    let signature = signing_key.sign(message);

    let sig_base58 = bs58::encode(signature.to_bytes()).into_string();

    let sig_bytes = bs58::decode(&sig_base58).into_vec().expect("should decode");
    assert_eq!(sig_bytes.len(), 64);

    let recovered_sig = Signature::from_bytes(&sig_bytes.try_into().expect("should be 64 bytes"));
    assert_eq!(recovered_sig, signature);
}

#[test]
fn invalid_base58_address_rejected() {
    // "0" is not in the base58 alphabet
    let result = decode_public_key("0InvalidAddress");
    assert!(result.is_err());
    assert_eq!(result, Err(AuthError::InvalidEncoding));
}

#[test]
fn wrong_length_pubkey_rejected() {
    let short_bytes = [42u8; 16];
    let short_address = bs58::encode(&short_bytes).into_string();
    let decoded = bs58::decode(&short_address).into_vec().expect("valid base58");
    assert_ne!(decoded.len(), 32, "should not be 32 bytes");

    let result: std::result::Result<[u8; 32], _> = decoded.try_into();
    assert!(result.is_err());
    assert_eq!(decode_public_key(&short_address), Err(AuthError::InvalidLength));
}

#[test]
fn no_two_addresses_produce_same_hex_localpart() {
    let mut seen = std::collections::HashSet::new();
    for i in 0..100u8 {
        let signing_key = test_signing_key(i);
        let hex_localpart = canonical_id(signing_key.verifying_key().as_bytes());
        assert!(seen.insert(hex_localpart), "hex localpart collision detected");
    }
}

#[test]
fn full_auth_flow_simulation() {
    let signing_key = test_signing_key(42);
    let verifying_key = signing_key.verifying_key();
    let base58_address = bs58::encode(verifying_key.as_bytes()).into_string();

    let server_name = "solchat.example.com";
    let nonce = hex::encode([0xab, 0xcd, 0xef, 0x01, 0x23, 0x45, 0x67, 0x89]);
    let challenge = format_sign_message(server_name, &nonce);

    let signature = signing_key.sign(challenge.as_bytes());
    let sig_base58 = bs58::encode(signature.to_bytes()).into_string();

    let pubkey_bytes: [u8; 32] = bs58::decode(&base58_address)
        .into_vec()
        .expect("valid base58")
        .try_into()
        .expect("32 bytes");

    let server_verifying_key = VerifyingKey::from_bytes(&pubkey_bytes).expect("valid ed25519 key");

    let server_sig_bytes: [u8; 64] = bs58::decode(&sig_base58)
        .into_vec()
        .expect("valid base58")
        .try_into()
        .expect("64 bytes");

    let server_signature = Signature::from_bytes(&server_sig_bytes);

    let server_challenge = format_sign_message(server_name, &nonce);

    assert!(server_verifying_key.verify(server_challenge.as_bytes(), &server_signature).is_ok());
    assert_eq!(
        verify_signature(&base58_address, &sig_base58, &server_challenge),
        Ok(pubkey_bytes.to_vec())
    );

    let hex_localpart = canonical_id(&pubkey_bytes);
    let expected_user_id = format!("@{hex_localpart}:{server_name}");

    assert_eq!(hex_localpart.len(), 64);
    assert!(expected_user_id.starts_with('@'));
    assert!(expected_user_id.contains(':'));

    assert_eq!(base58_address, bs58::encode(pubkey_bytes).into_string());
}
