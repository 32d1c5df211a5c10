//! The values that the login flows exchange with the user store, the identity provider and
//! the session.

use vstd::prelude::*;

verus! {

/// Which version of the terms of service an account accepted.
#[derive(Clone, Debug)]
pub struct AuthTosAcceptance {
    pub latest_version: String,
    pub accepted: bool,
}

/// An account of the application.
#[derive(Clone, Debug)]
pub struct AuthUser {
    pub id: String,
    pub sub: String,
    pub email: String,
    pub display_name: Option<String>,
    pub tos_acceptance: Option<AuthTosAcceptance>,
}

/// An account to be created.
#[derive(Clone, Debug)]
pub struct NewAuthUser {
    pub sub: String,
    pub email: String,
}

/// Who an identity provider, or a verified code, says the user is.
#[derive(Debug)]
pub struct AuthUserInfo {
    pub sub: String,
    pub nickname: Option<String>,
    pub name: Option<String>,
    pub email: String,
    pub email_verified: bool,
    pub picture: Option<String>,
    pub preferred_username: Option<String>,
}

/// What the session holds of a logged-in user.
#[derive(Debug)]
pub struct LoggedInData {
    pub id: String,
    pub sub: String,
    pub email: String,
    pub username: String,
    pub avatar_url: Option<String>,
    pub id_token: String,
}

/// A user of the identity provider.
#[derive(Debug)]
pub struct FerrisKeyUser {
    pub id: String,
    pub enabled: bool,
    pub email_verified: bool,
    pub firstname: String,
}

/// What kind of credential an account has at the identity provider.
#[derive(Clone, Copy, Debug, PartialEq, Eq, Structural)]
pub enum CredentialKind {
    Passkey,
    Password,
    /// A credential that the login screen does not support.
    Other,
}

/// A login attempt at the identity provider.
#[derive(Debug)]
pub struct FerrisKeyFlow {
    /// Ties the provider's redirect to this attempt.
    pub state: String,
    /// Ties the id_token to this attempt.
    pub nonce: Option<String>,
    /// The PKCE secret that redeems the authorization code.
    pub code_verifier: Option<String>,
    /// The provider's own session of this attempt, handed back to it as it came.
    pub provider_session: String,
}

impl Clone for FerrisKeyFlow {
    fn clone(&self) -> (r: Self)
        ensures
            r == *self,
    {
        FerrisKeyFlow {
            state: self.state.clone(),
            nonce: copy_option(&self.nonce),
            code_verifier: copy_option(&self.code_verifier),
            provider_session: self.provider_session.clone(),
        }
    }
}

/// How an authentication step at the identity provider ended.
#[derive(Clone, Copy, Debug, PartialEq, Eq, Structural)]
pub enum AuthenticationStatus {
    Success,
    RequiresOtpChallenge,
    RequiresActions,
    Failed,
}

/// The identity provider's answer to an authentication step.
#[derive(Debug)]
pub struct AuthenticateResponse {
    pub status: AuthenticationStatus,
    pub url: Option<String>,
    pub message: Option<String>,
}

/// The identity provider's answer to a token request.
#[derive(Debug)]
pub struct OidcTokenResponse {
    pub access_token: String,
    pub id_token: Option<String>,
}

/// The claims of a validated id_token.
#[derive(Debug)]
pub struct IdTokenClaims {
    pub sub: String,
    pub email: Option<String>,
    pub email_verified: Option<bool>,
    pub nonce: Option<String>,
}

/// A passkey as the application's store holds it.
#[derive(Debug)]
pub struct StoredPasskey {
    pub credential_id: String,
    pub user_id: String,
    pub transports: Vec<String>,
    pub public_key_cose: Vec<u8>,
    pub sign_count: i64,
}

/// What a verified passkey assertion reports.
#[derive(Clone, Copy, Debug)]
pub struct AssertionOutcome {
    pub sign_count: i64,
    pub backed_up: bool,
}

/// A copy of an optional text.
fn copy_option(o: &Option<String>) -> (r: Option<String>)
    ensures
        r == *o,
{
    match o {
        Some(s) => Some(s.clone()),
        None => None,
    }
}

} // verus!
