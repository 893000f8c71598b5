use vstd::prelude::*;
use vstd::string::*;

verus! {

/// The ways a client may log in, resolved once from the request's `type`.
#[derive(Clone, Copy, Debug, PartialEq, Eq, Structural)]
pub enum LoginMethod {
    Password,
    Token,
    ApplicationService,
    WalletSignature,
    Unsupported,
}

/// The method that a login `type` string names.
pub open spec fn method_named(name: Seq<char>) -> LoginMethod {
    if name == "m.login.solana.signature"@ {
        LoginMethod::WalletSignature
    } else if name == "m.login.password"@ {
        LoginMethod::Password
    } else if name == "m.login.token"@ {
        LoginMethod::Token
    } else if name == "m.login.application_service"@ {
        LoginMethod::ApplicationService
    } else {
        LoginMethod::Unsupported
    }
}

/// The methods a server advertises: password and application service, and
/// wallet signatures where they are switched on.
pub open spec fn advertised(wallet_enabled: bool) -> Seq<LoginMethod> {
    if wallet_enabled {
        seq![LoginMethod::Password, LoginMethod::ApplicationService, LoginMethod::WalletSignature]
    } else {
        seq![LoginMethod::Password, LoginMethod::ApplicationService]
    }
}

/// Resolves a login `type` string; the wallet type is recognised first.
pub fn classify_login_type(name: &str) -> (r: LoginMethod)
    ensures
        r == method_named(name@),
{
    let name = name.to_owned();
    if name == String::from_str("m.login.solana.signature") {
        LoginMethod::WalletSignature
    } else if name == String::from_str("m.login.password") {
        LoginMethod::Password
    } else if name == String::from_str("m.login.token") {
        LoginMethod::Token
    } else if name == String::from_str("m.login.application_service") {
        LoginMethod::ApplicationService
    } else {
        LoginMethod::Unsupported
    }
}

/// The login methods to advertise, in order.
pub fn advertised_login_types(wallet_enabled: bool) -> (r: Vec<LoginMethod>)
    ensures
        r@ == advertised(wallet_enabled),
{
    let mut r: Vec<LoginMethod> = Vec::new();
    r.push(LoginMethod::Password);
    r.push(LoginMethod::ApplicationService);
    if wallet_enabled {
        r.push(LoginMethod::WalletSignature);
    }
    assert(r@ =~= advertised(wallet_enabled));
    r
}

} // verus!
