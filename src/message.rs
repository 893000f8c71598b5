use vstd::prelude::*;
use vstd::string::*;

verus! {

/// The text that opens every challenge.
pub open spec fn greeting() -> Seq<char> {
    "Sign in to "@
}

/// The text between the server name and the nonce.
pub open spec fn nonce_label() -> Seq<char> {
    "\n\nNonce: "@
}

/// The closing statement that signing costs nothing.
pub open spec fn fee_notice() -> Seq<char> {
    "\n\nThis signature will not trigger a blockchain transaction or cost any fees."@
}

/// The challenge that a wallet signs for `server_name` and `nonce`.
pub open spec fn sign_message(server_name: Seq<char>, nonce: Seq<char>) -> Seq<char> {
    greeting() + server_name + nonce_label() + nonce + fee_notice()
}

/// Renders the human-readable challenge that binds a server name and a nonce.
pub fn format_sign_message(server_name: &str, nonce: &str) -> (r: String)
    ensures
        r@ == sign_message(server_name@, nonce@),
{
    let mut r = String::from_str("Sign in to ");
    r.append(server_name);
    r.append("\n\nNonce: ");
    r.append(nonce);
    r.append("\n\nThis signature will not trigger a blockchain transaction or cost any fees.");
    r
}

/// For one server name, two different nonces give two different challenges;
/// for one nonce, two different server names do.
pub proof fn lemma_message_binds_each_input(
    server_a: Seq<char>,
    nonce_a: Seq<char>,
    server_b: Seq<char>,
    nonce_b: Seq<char>,
)
    requires
        (server_a == server_b && nonce_a != nonce_b) || (nonce_a == nonce_b && server_a != server_b),
    ensures
        sign_message(server_a, nonce_a) != sign_message(server_b, nonce_b),
{
    let ma = sign_message(server_a, nonce_a);
    let mb = sign_message(server_b, nonce_b);
    if ma == mb {
        if server_a == server_b {
            let head = greeting() + server_a + nonce_label();
            assert(ma == head + nonce_a + fee_notice());
            assert(mb == head + nonce_b + fee_notice());
            assert(nonce_a.len() == nonce_b.len());
            assert(nonce_a =~= ma.subrange(head.len() as int, (head.len() + nonce_a.len()) as int));
            assert(nonce_b =~= mb.subrange(head.len() as int, (head.len() + nonce_b.len()) as int));
        } else {
            let tail = nonce_label() + nonce_a + fee_notice();
            assert(ma =~= greeting() + server_a + tail);
            assert(mb =~= greeting() + server_b + tail);
            assert(server_a.len() == server_b.len());
            assert(server_a =~= ma.subrange(greeting().len() as int, (greeting().len() + server_a.len()) as int));
            assert(server_b =~= mb.subrange(greeting().len() as int, (greeting().len() + server_b.len()) as int));
        }
    }
}

} // verus!
