use vstd::prelude::*;

use crate::encoding::{base58_decoded, hex_of, to_hex};
use crate::error::AuthError;
use crate::identity::{canonical_id, display_label};
use crate::message::{format_sign_message, sign_message};
use crate::nonce_store::{after_record, is_expired, NonceStore};
use crate::signature::{decode_public_key, decoded_key, ed25519_accepts, verification, verify_signature};

verus! {

/// A client's request for a challenge.
pub struct NonceRequest {
    /// The base58 public key that asks for a challenge.
    pub address: String,
}

/// The challenge handed to a client.
pub struct NonceResponse {
    pub nonce: String,
    pub message: String,
    pub expires_in_seconds: u64,
}

/// A signed answer to a challenge.
pub struct SolanaLoginRequest {
    /// Base58 ed25519 public key (32 bytes).
    pub address: String,
    /// Base58 ed25519 signature (64 bytes).
    pub signature: String,
    /// The nonce that was signed.
    pub nonce: String,
}

/// Wallet-signature authentication: whether it is on, the server name that
/// challenges carry, and the outstanding nonces.
pub struct SolanaAuth {
    pub enabled: bool,
    pub server_name: String,
    pub store: NonceStore,
}

/// Whether `text` renders 32 bytes in lowercase hexadecimal.
pub open spec fn is_nonce_text(text: Seq<char>) -> bool {
    exists|bytes: Seq<u8>| bytes.len() == 32 && text == hex_of(bytes)
}

/// Whether a challenge is issued for `address`, or why not.
pub open spec fn challenge_outcome(enabled: bool, address: Seq<char>) -> Result<(), AuthError> {
    if !enabled {
        Err(AuthError::FeatureDisabled)
    } else {
        match decoded_key(address) {
            Err(e) => Err(e),
            Ok(_) => Ok(()),
        }
    }
}

/// What a login answers: the account identifier and display label, or the
/// first check that fails.
pub open spec fn login_outcome(
    enabled: bool,
    server_name: Seq<char>,
    ttl: u64,
    nonces: Map<Seq<char>, u64>,
    address: Seq<char>,
    signature: Seq<char>,
    nonce: Seq<char>,
    now: u64,
) -> Result<(Seq<char>, Seq<char>), AuthError> {
    if !enabled {
        Err(AuthError::FeatureDisabled)
    } else if !nonces.contains_key(nonce) {
        Err(AuthError::NonceNotFound)
    } else if is_expired(now, nonces[nonce], ttl) {
        Err(AuthError::NonceExpired)
    } else {
        match verification(address, signature, sign_message(server_name, nonce)) {
            Err(e) => Err(e),
            Ok(key) => Ok((hex_of(key), address)),
        }
    }
}

/// The nonces left after a login attempt: the claimed one is gone, whatever
/// the outcome, unless authentication is off.
pub open spec fn nonces_after_login(enabled: bool, nonces: Map<Seq<char>, u64>, nonce: Seq<char>) -> Map<
    Seq<char>,
    u64,
> {
    if enabled {
        nonces.remove(nonce)
    } else {
        nonces
    }
}

/// The text of a login result.
pub open spec fn login_view(r: Result<(String, String), AuthError>) -> Result<(Seq<char>, Seq<char>), AuthError> {
    match r {
        Ok((id, label)) => Ok((id@, label@)),
        Err(e) => Err(e),
    }
}

/// Relies on `rand::random`: 32 bytes from the thread-local generator,
/// which the operating system seeds (it panics only where the system has no
/// randomness to give).
#[verifier::external_body]
fn random_nonce_bytes() -> (r: Vec<u8>)
    ensures
        r@.len() == 32,
{
    rand::random::<[u8; 32]>().to_vec()
}

/// A fresh nonce: 32 random bytes in lowercase hexadecimal.
pub fn generate_random_nonce() -> (r: String)
    ensures
        is_nonce_text(r@),
{
    let bytes = random_nonce_bytes();
    let r = to_hex(&bytes);
    assert(bytes@.len() == 32 && r@ == hex_of(bytes@));
    r
}

impl SolanaAuth {
    /// The nonce store is well formed.
    pub open spec fn wf(&self) -> bool {
        self.store.wf()
    }

    /// Authentication with no outstanding nonces; `ttl` is in milliseconds.
    pub fn new(enabled: bool, server_name: String, ttl: u64, capacity: usize) -> (r: SolanaAuth)
        ensures
            r.wf(),
            r.enabled == enabled,
            r.server_name == server_name,
            r.store@ == Map::<Seq<char>, u64>::empty(),
            r.store.ttl_spec() == ttl,
            r.store.capacity_spec() == capacity,
    {
        SolanaAuth { enabled, server_name, store: NonceStore::new(ttl, capacity) }
    }
}

/// Issues the challenge with the nonce `nonce` for `address`, recorded as
/// created at `now`.
pub fn issue_challenge(auth: &mut SolanaAuth, address: &str, nonce: String, now: u64) -> (r: Result<
    NonceResponse,
    AuthError,
>)
    requires
        old(auth).wf(),
    ensures
        final(auth).wf(),
        final(auth).enabled == old(auth).enabled,
        final(auth).server_name == old(auth).server_name,
        final(auth).store.ttl_spec() == old(auth).store.ttl_spec(),
        final(auth).store.capacity_spec() == old(auth).store.capacity_spec(),
        match r {
            Ok(resp) => {
                &&& challenge_outcome(old(auth).enabled, address@) == Ok::<(), AuthError>(())
                &&& resp.nonce@ == nonce@
                &&& resp.message@ == sign_message(old(auth).server_name@, nonce@)
                &&& resp.expires_in_seconds == old(auth).store.ttl_spec() / 1000
                &&& final(auth).store@ == after_record(
                    old(auth).store@,
                    old(auth).store.capacity_spec(),
                    old(auth).store.ttl_spec(),
                    nonce@,
                    now,
                )
            },
            Err(e) => {
                &&& challenge_outcome(old(auth).enabled, address@) == Err::<(), AuthError>(e)
                &&& final(auth).store@ == old(auth).store@
            },
        },
{
    if !auth.enabled {
        return Err(AuthError::FeatureDisabled);
    }
    match decode_public_key(address) {
        Err(e) => { return Err(e); },
        Ok(_) => {},
    }
    let message = format_sign_message(auth.server_name.as_str(), nonce.as_str());
    let expires_in_seconds = auth.store.ttl() / 1000;
    let stored = nonce.clone();
    auth.store.record(stored, now);
    Ok(NonceResponse { nonce, message, expires_in_seconds })
}

/// Issues a challenge for `address` with a fresh random nonce, recorded as
/// created at `now` (milliseconds of a monotonic clock).
pub fn generate_nonce(auth: &mut SolanaAuth, address: &str, now: u64) -> (r: Result<NonceResponse, AuthError>)
    requires
        old(auth).wf(),
    ensures
        final(auth).wf(),
        final(auth).enabled == old(auth).enabled,
        final(auth).server_name == old(auth).server_name,
        final(auth).store.ttl_spec() == old(auth).store.ttl_spec(),
        final(auth).store.capacity_spec() == old(auth).store.capacity_spec(),
        match r {
            Ok(resp) => {
                &&& challenge_outcome(old(auth).enabled, address@) == Ok::<(), AuthError>(())
                &&& is_nonce_text(resp.nonce@)
                &&& resp.message@ == sign_message(old(auth).server_name@, resp.nonce@)
                &&& resp.expires_in_seconds == old(auth).store.ttl_spec() / 1000
                &&& final(auth).store@ == after_record(
                    old(auth).store@,
                    old(auth).store.capacity_spec(),
                    old(auth).store.ttl_spec(),
                    resp.nonce@,
                    now,
                )
            },
            Err(e) => {
                &&& challenge_outcome(old(auth).enabled, address@) == Err::<(), AuthError>(e)
                &&& final(auth).store@ == old(auth).store@
            },
        },
{
    let nonce = generate_random_nonce();
    issue_challenge(auth, address, nonce, now)
}

/// Completes a login: consumes the nonce (whatever follows), rejects it if
/// expired at `now`, then checks the signature over the rebuilt challenge.
/// Answers the account identifier and the display label.
pub fn verify_solana_login(auth: &mut SolanaAuth, request: &SolanaLoginRequest, now: u64) -> (r: Result<
    (String, String),
    AuthError,
>)
    requires
        old(auth).wf(),
    ensures
        final(auth).wf(),
        final(auth).enabled == old(auth).enabled,
        final(auth).server_name == old(auth).server_name,
        final(auth).store.ttl_spec() == old(auth).store.ttl_spec(),
        final(auth).store.capacity_spec() == old(auth).store.capacity_spec(),
        final(auth).store@ == nonces_after_login(old(auth).enabled, old(auth).store@, request.nonce@),
        login_view(r) == login_outcome(
            old(auth).enabled,
            old(auth).server_name@,
            old(auth).store.ttl_spec(),
            old(auth).store@,
            request.address@,
            request.signature@,
            request.nonce@,
            now,
        ),
{
    if !auth.enabled {
        return Err(AuthError::FeatureDisabled);
    }
    let created = match auth.store.consume(request.nonce.as_str()) {
        None => {
            proof {
                assert(auth.store@ =~= old(auth).store@.remove(request.nonce@));
            }
            return Err(AuthError::NonceNotFound);
        },
        Some(created) => created,
    };
    let elapsed: u64 = if now >= created { now - created } else { 0 };
    if elapsed > auth.store.ttl() {
        return Err(AuthError::NonceExpired);
    }
    let message = format_sign_message(auth.server_name.as_str(), request.nonce.as_str());
    let key = match verify_signature(request.address.as_str(), request.signature.as_str(), message.as_str()) {
        Err(e) => { return Err(e); },
        Ok(key) => key,
    };
    let id = canonical_id(&key);
    let label = display_label(request.address.as_str());
    Ok((id, label))
}

/// A nonce that a challenge recorded is found by the first login that
/// claims it, and by no later one: the second fails `NonceNotFound`.
pub proof fn lemma_issued_nonce_single_use(
    server_name: Seq<char>,
    ttl: u64,
    capacity: usize,
    nonces: Map<Seq<char>, u64>,
    nonce: Seq<char>,
    issued_at: u64,
    address: Seq<char>,
    signature: Seq<char>,
    now: u64,
    next_address: Seq<char>,
    next_signature: Seq<char>,
    later: u64,
)
    ensures
        ({
            let issued = after_record(nonces, capacity, ttl, nonce, issued_at);
            let after = nonces_after_login(true, issued, nonce);
            &&& login_outcome(true, server_name, ttl, issued, address, signature, nonce, now)
                != Err::<(Seq<char>, Seq<char>), AuthError>(AuthError::NonceNotFound)
            &&& login_outcome(true, server_name, ttl, after, next_address, next_signature, nonce, later)
                == Err::<(Seq<char>, Seq<char>), AuthError>(AuthError::NonceNotFound)
        }),
{
    let issued = after_record(nonces, capacity, ttl, nonce, issued_at);
    assert(issued.contains_key(nonce));
    match verification(address, signature, sign_message(server_name, nonce)) {
        Err(e) => assert(e != AuthError::NonceNotFound),
        Ok(_) => {},
    }
}

/// Whatever its outcome, a login attempt uses up the nonce it claims: a
/// second attempt with that nonce fails `NonceNotFound`.
pub proof fn lemma_login_consumes_nonce(
    server_name: Seq<char>,
    ttl: u64,
    nonces: Map<Seq<char>, u64>,
    nonce: Seq<char>,
    address: Seq<char>,
    signature: Seq<char>,
    later: u64,
)
    ensures
        login_outcome(true, server_name, ttl, nonces_after_login(true, nonces, nonce), address, signature, nonce, later)
            == Err::<(Seq<char>, Seq<char>), AuthError>(AuthError::NonceNotFound),
{
}

/// A nonce older than the time to live fails `NonceExpired`, whatever the
/// signature, and cannot be used afterwards.
pub proof fn lemma_expired_nonce_rejected(
    server_name: Seq<char>,
    ttl: u64,
    nonces: Map<Seq<char>, u64>,
    nonce: Seq<char>,
    address: Seq<char>,
    signature: Seq<char>,
    now: u64,
    next_address: Seq<char>,
    next_signature: Seq<char>,
    later: u64,
)
    requires
        nonces.contains_key(nonce),
        is_expired(now, nonces[nonce], ttl),
    ensures
        login_outcome(true, server_name, ttl, nonces, address, signature, nonce, now)
            == Err::<(Seq<char>, Seq<char>), AuthError>(AuthError::NonceExpired),
        login_outcome(true, server_name, ttl, nonces_after_login(true, nonces, nonce), next_address, next_signature, nonce, later)
            == Err::<(Seq<char>, Seq<char>), AuthError>(AuthError::NonceNotFound),
{
}

/// A login succeeds only with a signature that checks, under the key the
/// address encodes, over the challenge rebuilt from this server name and the
/// claimed nonce; the identifier is that key in hexadecimal.
pub proof fn lemma_login_binds_challenge(
    server_name: Seq<char>,
    ttl: u64,
    nonces: Map<Seq<char>, u64>,
    address: Seq<char>,
    signature: Seq<char>,
    nonce: Seq<char>,
    now: u64,
)
    ensures
        login_outcome(true, server_name, ttl, nonces, address, signature, nonce, now) is Ok ==> exists|
            key: Seq<u8>,
            sig: Seq<u8>,
        | {
            &&& decoded_key(address) == Ok::<Seq<u8>, AuthError>(key)
            &&& base58_decoded(signature) == Some(sig)
            &&& ed25519_accepts(key, sign_message(server_name, nonce), sig)
            &&& login_outcome(true, server_name, ttl, nonces, address, signature, nonce, now)
                == Ok::<(Seq<char>, Seq<char>), AuthError>((hex_of(key), address))
        },
{
    if login_outcome(true, server_name, ttl, nonces, address, signature, nonce, now) is Ok {
        let key = decoded_key(address)->Ok_0;
        let sig = base58_decoded(signature)->Some_0;
        assert(ed25519_accepts(key, sign_message(server_name, nonce), sig));
    }
}

} // verus!
