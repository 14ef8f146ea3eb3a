//! Data carried by the OAuth login flow.  The flow itself — token exchange
//! and the identity provider's API — is network work done by the surrounding
//! process; these are the values it passes around.

use vstd::prelude::*;

verus! {

/// The redirect target handed back when a login is initiated.
#[derive(Clone, Debug)]
pub struct AuthorizationInit {
    pub url: String,
}

/// The provider's callback query: a code and the state echo on success, an
/// error string otherwise.
#[derive(Clone, Debug)]
pub struct Authorization {
    pub code: Option<String>,
    pub state: Option<String>,
    pub error: Option<String>,
}

/// The token the provider returns for a code.
#[derive(Clone, Debug)]
pub struct AccessToken {
    pub access_token: String,
    pub scope: String,
    pub token_type: String,
}

/// The identity the provider reports for an access token.
#[derive(Clone, Debug)]
pub struct DiscordUser {
    pub id: String,
    pub username: String,
    pub avatar: String,
    pub discriminator: String,
    pub locale: String,
    pub email: Option<String>,
    pub verified: bool,
}

} // verus!
