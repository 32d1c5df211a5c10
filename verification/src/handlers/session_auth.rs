//! The login flow backed by the identity provider FerrisKey.
//!
//! Three ways lead in:
//!
//! * **Passkey**: [`start_session`] opens a flow at the provider and hands its request options
//!   to the browser; [`verify_passkey_handler`] proxies the assertion.
//! * **Password**: [`verify_password_handler`] proxies the password.
//! * **Email code**: entirely on this side. The code is minted, mailed and kept in the session;
//!   a verified code creates the provider's user or marks its address as verified.
//!
//! The first two end with a redirect that carries an authorization code, which is redeemed for
//! an id_token; all three end in [`LookupUser`], where the application's own session begins.

use vstd::prelude::*;

use crate::config::AuthConfig;
use crate::error::{bad_request, server_state, unauthorized, AuthError, AuthResult};
use crate::handlers::opening::{open_session, session_data_of, CycleId, RecordLogin};
use crate::handlers::otp::{
    captcha_cfg, captcha_configured, captcha_passed, captcha_request, captcha_verify_url,
    clear_otp_state, cooldown_computable, otp_checked_at, otp_cleared, resend_throttle_at, throttle,
    verify_captcha_token, verify_otp_from_session, verify_otp_guarded, CaptchaAnswer, CaptchaEnv,
    CaptchaRequest, OtpChecked, OtpIssue, ResendThrottle, LOGIN_PURPOSE, RESEND_COOLDOWN_SECONDS,
};
use crate::handlers::registration::{
    depends_on_users, open_to, registration_allowed, registration_allowed_given, RegistrationGate,
};
use crate::interop::{clock_reading, pair_texts, query_pairs, same_secret, url_query, utc_now};
use crate::session::{removal, LoginSession, SessionKey, Stored};
use crate::text::{decimal, decimal_text, join, join3, lowercased, same_text, trimmed};
use crate::types::{
    AuthTosAcceptance, AuthUser, AuthUserInfo, AuthenticateResponse, AuthenticationStatus,
    CredentialKind, FerrisKeyFlow, FerrisKeyUser, IdTokenClaims, LoggedInData, OidcTokenResponse,
};

verus! {

/// The terms of service that a user has to have accepted.
pub const TOS_VERSION: &'static str = "1.0";

/// How often a password may be tried.
pub const MAX_PASSWORD_ATTEMPTS: u32 = 5;

// ── Requests and responses ──────────────────────────────────────────
#[derive(Debug)]
pub struct StartSessionRequest {
    pub email: String,
    pub redirect_url: Option<String>,
}

#[derive(Debug)]
pub struct StartSessionResponse {
    pub session_id: String,
    pub public_key_options: Option<serde_json::Value>,
    pub otp_sent: bool,
    pub is_new_user: bool,
    pub has_passkeys: bool,
    pub has_password: bool,
    pub needs_tos_acceptance: Option<bool>,
    pub redirect_url: Option<String>,
    pub captcha_required: Option<bool>,
    /// Set, with the site key, where a registration is gated by a captcha. Both are public.
    pub captcha_server_url: Option<String>,
    pub captcha_site_key: Option<String>,
}

#[derive(Debug)]
pub struct VerifyPasskeyRequest {
    pub credential_assertion_data: serde_json::Value,
}

#[derive(Debug)]
pub struct VerifyOtpRequest {
    pub code: String,
}

#[derive(Debug)]
pub struct VerifyCaptchaRequest {
    /// The captcha widget's opaque token.
    pub captcha_token: Option<String>,
}

#[derive(Debug)]
pub struct CaptchaVerifyResponse {
    pub success: bool,
    pub otp_sent: bool,
    pub error: Option<String>,
}

#[derive(Debug)]
pub struct VerifyResponse {
    pub success: bool,
    pub redirect_url: Option<String>,
    pub needs_tos_acceptance: Option<bool>,
    pub error: Option<String>,
    pub retry_after_seconds: Option<i64>,
}

#[derive(Debug)]
pub struct VerifyPasswordRequest {
    pub password: String,
}

impl StartSessionResponse {
    /// The answer that carries nothing but `options`, the captcha and the flags.
    pub open spec fn says(
        self,
        options: Option<serde_json::Value>,
        otp_sent: bool,
        is_new_user: bool,
        has_passkeys: bool,
        has_password: bool,
        captcha: Option<(String, String)>,
    ) -> bool {
        &&& self.session_id@.len() == 0
        &&& self.public_key_options == options
        &&& self.otp_sent == otp_sent
        &&& self.is_new_user == is_new_user
        &&& self.has_passkeys == has_passkeys
        &&& self.has_password == has_password
        &&& self.needs_tos_acceptance is None
        &&& self.redirect_url is None
        &&& match captcha {
            Some((server_url, site_key)) => {
                &&& self.captcha_required == Some(true)
                &&& self.captcha_server_url == Some(server_url)
                &&& self.captcha_site_key == Some(site_key)
            },
            None => {
                &&& self.captcha_required is None
                &&& self.captcha_server_url is None
                &&& self.captcha_site_key is None
            },
        }
    }

    /// Answer a passkey challenge with these options.
    pub open spec fn offers_passkey(self, options: serde_json::Value) -> bool {
        self.says(Some(options), false, false, true, false, None)
    }

    /// Enter the password.
    pub open spec fn asks_password(self) -> bool {
        self.says(None, false, false, false, true, None)
    }

    /// A code is in the mail.
    pub open spec fn says_otp_sent(self, is_new_user: bool) -> bool {
        self.says(None, true, is_new_user, false, false, None)
    }

    /// Solve the captcha first.
    pub open spec fn asks_captcha(self, server_url: String, site_key: String) -> bool {
        self.says(None, false, true, false, false, Some((server_url, site_key)))
    }

    fn new(otp_sent: bool, is_new_user: bool, has_password: bool) -> (r: Self)
        ensures
            r.says(None, otp_sent, is_new_user, false, has_password, None),
    {
        StartSessionResponse {
            session_id: String::new(),
            public_key_options: None,
            otp_sent,
            is_new_user,
            has_passkeys: false,
            has_password,
            needs_tos_acceptance: None,
            redirect_url: None,
            captcha_required: None,
            captcha_server_url: None,
            captcha_site_key: None,
        }
    }
}

impl VerifyResponse {
    /// A refusal with this message, and nothing else.
    pub open spec fn refuses(self, message: Seq<char>) -> bool {
        &&& !self.success
        &&& self.redirect_url is None
        &&& self.needs_tos_acceptance is None
        &&& self.error matches Some(m) && m@ == message
        &&& self.retry_after_seconds is None
    }

    /// A successful login: where the terms of service are still to be accepted it says so, else
    /// it says where to go.
    pub open spec fn logs_in(self, needs_tos: bool, redirect_url: String) -> bool {
        &&& self.success
        &&& self.redirect_url == (if needs_tos {
            None
        } else {
            Some(redirect_url)
        })
        &&& self.needs_tos_acceptance == (if needs_tos {
            Some(true)
        } else {
            None
        })
        &&& self.error is None
        &&& self.retry_after_seconds is None
    }

    fn failed(message: &str) -> (r: Self)
        ensures
            r.refuses(message@),
    {
        VerifyResponse {
            success: false,
            redirect_url: None,
            needs_tos_acceptance: None,
            error: Some(message.to_owned()),
            retry_after_seconds: None,
        }
    }
}

impl CaptchaVerifyResponse {
    /// A refusal with this message.
    pub open spec fn refuses(self, message: Seq<char>) -> bool {
        &&& !self.success
        &&& !self.otp_sent
        &&& self.error matches Some(m) && m@ == message
    }

    /// The captcha was passed and a code is in the mail.
    pub open spec fn passes(self) -> bool {
        self.success && self.otp_sent && self.error is None
    }

    pub(crate) fn rejected(message: &str) -> (r: Self)
        ensures
            r.refuses(message@),
    {
        CaptchaVerifyResponse { success: false, otp_sent: false, error: Some(message.to_owned()) }
    }
}

// ── Provider configuration ──────────────────────────────────────────
/// What every call to the identity provider needs.
#[derive(Clone, Copy, Debug)]
pub struct FkConfig<'a> {
    pub base: &'a str,
    pub realm: &'a str,
    pub client_id: &'a str,
    pub client_secret: &'a str,
    pub base_url: &'a str,
}

impl<'a> FkConfig<'a> {
    /// These are the settings of `config`.
    pub open spec fn describes(self, config: AuthConfig) -> bool {
        &&& self.base@ == config.ferriskey_url@
        &&& self.realm@ == config.ferriskey_realm@
        &&& self.client_id@ == config.ferriskey_client_id@
        &&& config.ferriskey_client_secret matches Some(secret) && self.client_secret@ == secret@
        &&& self.base_url@ == config.base_url@
    }

    /// The settings of `auth_config`, which must hold a client secret.
    pub fn from(auth_config: &'a AuthConfig) -> (r: AuthResult<Self>)
        ensures
            match r {
                Ok(fk) => fk.describes(*auth_config),
                Err(e) => no_client_secret(*auth_config, e),
            },
    {
        match &auth_config.ferriskey_client_secret {
            Some(secret) => Ok(
                FkConfig {
                    base: auth_config.ferriskey_url.as_str(),
                    realm: auth_config.ferriskey_realm.as_str(),
                    client_id: auth_config.ferriskey_client_id.as_str(),
                    client_secret: secret.as_str(),
                    base_url: auth_config.base_url.as_str(),
                },
            ),
            None => Err(server_state("FERRISKEY_CLIENT_SECRET not configured")),
        }
    }
}

/// `config` has no client secret, and `e` says so.
pub open spec fn no_client_secret(config: AuthConfig, e: AuthError) -> bool {
    config.ferriskey_client_secret is None && e.server_state(
        "FERRISKEY_CLIENT_SECRET not configured"@,
    )
}

/// The access token of a service-account token answer.
pub fn service_token(answer: AuthResult<OidcTokenResponse>) -> (r: AuthResult<String>)
    ensures
        match answer {
            Ok(tokens) => r == Ok::<String, AuthError>(tokens.access_token),
            Err(e) => r == Err::<String, AuthError>(e),
        },
{
    match answer {
        Ok(tokens) => Ok(tokens.access_token),
        Err(e) => Err(e),
    }
}

// ── Pending login state ─────────────────────────────────────────────
/// `s` without the credentials of an earlier attempt.
pub open spec fn pending_reset(s: LoginSession) -> LoginSession {
    LoginSession { deferred_new_user: Stored::Missing, ..otp_cleared(s) }
}

/// Drop the credentials left over from an earlier attempt. The resend throttle and the count
/// of password attempts stay: restarting the flow must not reset them.
pub fn reset_pending_login_state(session: &mut LoginSession)
    ensures
        *final(session) == pending_reset(*old(session)),
{
    clear_otp_state(session);
    session.deferred_new_user = Stored::Missing;
}

/// Keep the flow in the session.
pub fn store_flow(session: &mut LoginSession, flow: &FerrisKeyFlow)
    ensures
        *final(session) == (LoginSession { flow: Stored::Value(*flow), ..*old(session) }),
{
    session.flow = Stored::Value(flow.clone());
}

/// The flow in the session is `r`, or there is none and `r` says so.
pub open spec fn flow_loaded(s: LoginSession, r: AuthResult<FerrisKeyFlow>) -> bool {
    match s.flow {
        Stored::Value(flow) => r == Ok::<FerrisKeyFlow, AuthError>(flow),
        Stored::Missing => r matches Err(e) && e.bad_request("No login flow in progress"@),
        Stored::Unreadable => r == Err::<FerrisKeyFlow, AuthError>(AuthError::SessionError),
    }
}

/// The flow in the session.
pub fn load_flow(session: &LoginSession) -> (r: AuthResult<FerrisKeyFlow>)
    ensures
        flow_loaded(*session, r),
{
    match session.flow.read() {
        Ok(Some(flow)) => Ok(flow.clone()),
        Ok(None) => Err(bad_request("No login flow in progress")),
        Err(e) => Err(e),
    }
}

// ── Redirect and id_token ───────────────────────────────────────────
/// The last value of `key` among `pairs`.
pub open spec fn last_value(pairs: Seq<(Seq<char>, Seq<char>)>, key: Seq<char>) -> Option<Seq<char>>
    decreases pairs.len(),
{
    if pairs.len() == 0 {
        None
    } else if pairs.last().0 == key {
        Some(pairs.last().1)
    } else {
        last_value(pairs.drop_last(), key)
    }
}

/// `r` is the code of a redirect with these query pairs, for a flow with the state
/// `expected_state`.
pub open spec fn code_of_pairs(
    pairs: Seq<(Seq<char>, Seq<char>)>,
    expected_state: Seq<char>,
    r: AuthResult<String>,
) -> bool {
    match last_value(pairs, "state"@) {
        None => r matches Err(e) && e.server_state("Missing state in redirect URL"@),
        Some(state) => if state != expected_state {
            r matches Err(e) && e.unauthorized("Login flow state mismatch — please retry"@)
        } else {
            match last_value(pairs, "code"@) {
                None => r matches Err(e) && e.server_state("Missing code in redirect URL"@),
                Some(code) => r matches Ok(c) && c@ == code,
            }
        },
    }
}

/// `r` is the code of the redirect to `url`.
pub open spec fn code_of_redirect(
    url: Seq<char>,
    expected_state: Seq<char>,
    r: AuthResult<String>,
) -> bool {
    match url_query(url) {
        Ok(pairs) => code_of_pairs(pairs, expected_state, r),
        Err(message) => r matches Err(e) && e.server_state(
            "FerrisKey returned invalid redirect URL: "@ + message,
        ),
    }
}

/// The code among the query pairs of a redirect. The last pair of a key counts; the state must
/// be the one of the flow.
pub fn code_from_pairs(pairs: &Vec<(String, String)>, expected_state: &str) -> (r: AuthResult<
    String,
>)
    ensures
        code_of_pairs(pair_texts(pairs@), expected_state@, r),
{
    let ghost texts = pair_texts(pairs@);
    let mut code: Option<String> = None;
    let mut state: Option<String> = None;
    let mut i: usize = 0;
    proof {
        reveal_strlit("code");
        reveal_strlit("state");
        assert("code"@.len() == 4 && "state"@.len() == 5);
    }
    while i < pairs.len()
        invariant
            i <= pairs@.len(),
            texts == pair_texts(pairs@),
            "code"@ != "state"@,
            match code {
                Some(c) => last_value(texts.take(i as int), "code"@) == Some(c@),
                None => last_value(texts.take(i as int), "code"@) is None,
            },
            match state {
                Some(s) => last_value(texts.take(i as int), "state"@) == Some(s@),
                None => last_value(texts.take(i as int), "state"@) is None,
            },
        decreases pairs@.len() - i,
    {
        proof {
            assert(texts.take(i + 1).drop_last() =~= texts.take(i as int));
            assert(texts.take(i + 1).last() == texts[i as int]);
        }
        let key: &str = pairs[i].0.as_str();
        if same_text(key, "code") {
            code = Some(pairs[i].1.clone());
        } else if same_text(key, "state") {
            state = Some(pairs[i].1.clone());
        }
        i = i + 1;
    }
    assert(texts.take(i as int) =~= texts);
    match state {
        None => Err(server_state("Missing state in redirect URL")),
        Some(s) => {
            if !same_text(s.as_str(), expected_state) {
                return Err(unauthorized("Login flow state mismatch — please retry"));
            }
            match code {
                Some(c) => Ok(c),
                None => Err(server_state("Missing code in redirect URL")),
            }
        },
    }
}

/// The code of the redirect that a successful authentication ends with.
pub fn parse_oidc_redirect(url: &str, expected_state: &str) -> (r: AuthResult<String>)
    ensures
        code_of_redirect(url@, expected_state@, r),
{
    match query_pairs(url) {
        Ok(pairs) => code_from_pairs(&pairs, expected_state),
        Err(e) => Err(
            server_state(join("FerrisKey returned invalid redirect URL: ", e.as_str()).as_str()),
        ),
    }
}

/// Whether the claims belong to the flow: where the flow has a nonce, the claims have the same.
pub open spec fn nonce_matches(flow: FerrisKeyFlow, claims: IdTokenClaims) -> bool {
    flow.nonce matches Some(expected) ==> claims.nonce matches Some(returned) && returned@
        == expected@
}

/// `r` is who the validated id_token of `flow` says the user is.
pub open spec fn id_token_resolved(
    flow: FerrisKeyFlow,
    validated: Result<IdTokenClaims, String>,
    r: AuthResult<AuthUserInfo>,
) -> bool {
    match validated {
        Err(message) => r matches Err(e) && e.server_state(
            "Failed to validate FerrisKey id_token: "@ + message@,
        ),
        Ok(claims) => if !nonce_matches(flow, claims) {
            r matches Err(e) && e.unauthorized("Login flow nonce mismatch — please retry"@)
        } else {
            match claims.email {
                Some(email) if email@.len() > 0 => r == Ok::<AuthUserInfo, AuthError>(
                    AuthUserInfo {
                        sub: claims.sub,
                        nickname: None,
                        name: None,
                        email,
                        email_verified: claims.email_verified == Some(true),
                        picture: None,
                        preferred_username: None,
                    },
                ),
                _ => r matches Err(e) && e.server_state("FerrisKey id_token has no email claim"@),
            }
        },
    }
}

/// Take the user from an id_token that was validated, or not, against the provider's keys. The
/// nonce ties it to `flow`; an id_token without an address is refused.
pub fn resolve_id_token(flow: &FerrisKeyFlow, validated: Result<IdTokenClaims, String>) -> (r:
    AuthResult<AuthUserInfo>)
    ensures
        id_token_resolved(*flow, validated, r),
{
    let claims = match validated {
        Ok(claims) => claims,
        Err(e) => {
            return Err(
                server_state(join("Failed to validate FerrisKey id_token: ", e.as_str()).as_str()),
            );
        },
    };
    if let Some(expected) = &flow.nonce {
        let matches = match &claims.nonce {
            Some(returned) => same_secret(returned.as_str(), expected.as_str()),
            None => false,
        };
        if !matches {
            return Err(unauthorized("Login flow nonce mismatch — please retry"));
        }
    }
    match claims.email {
        Some(email) => {
            if email.as_str().is_empty() {
                return Err(server_state("FerrisKey id_token has no email claim"));
            }
            Ok(
                AuthUserInfo {
                    sub: claims.sub,
                    nickname: None,
                    name: None,
                    email,
                    email_verified: match claims.email_verified {
                        Some(b) => b,
                        None => false,
                    },
                    picture: None,
                    preferred_username: None,
                },
            )
        },
        None => Err(server_state("FerrisKey id_token has no email claim")),
    }
}

// ── POST /auth/session/start ────────────────────────────────────────
/// How an existing account logs in.
#[derive(Clone, Copy, Debug, PartialEq, Eq, Structural)]
pub enum LoginMethod {
    Passkey,
    Password,
    /// A code by mail, for accounts without any credential at the provider.
    EmailCode,
    /// The account has credentials, but none that the login screen supports.
    Unsupported,
}

/// How an account with these credentials logs in.
pub open spec fn method_for(credentials: Seq<CredentialKind>) -> LoginMethod {
    if credentials.contains(CredentialKind::Passkey) {
        LoginMethod::Passkey
    } else if credentials.contains(CredentialKind::Password) {
        LoginMethod::Password
    } else if credentials.len() == 0 {
        LoginMethod::EmailCode
    } else {
        LoginMethod::Unsupported
    }
}

fn has_credential(credentials: &Vec<CredentialKind>, kind: CredentialKind) -> (r: bool)
    ensures
        r == credentials@.contains(kind),
{
    let mut i: usize = 0;
    while i < credentials.len()
        invariant
            i <= credentials@.len(),
            forall|j: int| 0 <= j < i ==> credentials@[j] != kind,
        decreases credentials@.len() - i,
    {
        if credentials[i] == kind {
            assert(credentials@[i as int] == kind);
            return true;
        }
        i = i + 1;
    }
    false
}

/// How an account with these credentials logs in.
pub fn login_method(credentials: &Vec<CredentialKind>) -> (r: LoginMethod)
    ensures
        r == method_for(credentials@),
        r == LoginMethod::Passkey <==> credentials@.contains(CredentialKind::Passkey),
        r == LoginMethod::Password <==> credentials@.contains(CredentialKind::Password)
            && !credentials@.contains(CredentialKind::Passkey),
        r == LoginMethod::EmailCode <==> credentials@.len() == 0,
{
    assert(credentials@.len() == 0 ==> !credentials@.contains(CredentialKind::Passkey)
        && !credentials@.contains(CredentialKind::Password));
    if has_credential(credentials, CredentialKind::Passkey) {
        LoginMethod::Passkey
    } else if has_credential(credentials, CredentialKind::Password) {
        LoginMethod::Password
    } else if credentials.len() == 0 {
        LoginMethod::EmailCode
    } else {
        LoginMethod::Unsupported
    }
}

/// Say whether `email` is a valid address, and whether `redirect_url` stays on this site.
#[derive(Debug)]
pub struct CheckAddress<'a> {
    pub fk: FkConfig<'a>,
    pub email: String,
    pub redirect_url: Option<String>,
}

/// Get a service-account token.
#[derive(Debug)]
pub struct StartToken<'a> {
    pub fk: FkConfig<'a>,
    pub email: String,
}

/// Look the address up at the provider.
#[derive(Debug)]
pub struct StartFindUser<'a> {
    pub fk: FkConfig<'a>,
    pub token: String,
    pub email: String,
}

/// List the credentials of the provider's user.
#[derive(Debug)]
pub struct StartCredentials<'a> {
    pub fk: FkConfig<'a>,
    pub token: String,
    pub user_id: String,
    pub email: String,
}

/// Open a flow at the provider.
#[derive(Debug)]
pub struct StartFlow<'a> {
    pub fk: FkConfig<'a>,
    pub email: String,
    pub method: LoginMethod,
}

/// Fetch the passkey request options of the flow.
#[derive(Debug)]
pub struct StartPasskey<'a> {
    pub fk: FkConfig<'a>,
    pub flow: FerrisKeyFlow,
    pub email: String,
}

/// Ask the user store whether any user exists.
#[derive(Debug)]
pub struct StartRegistration {
    pub email: String,
}

/// Read the captcha settings from the environment.
#[derive(Debug)]
pub struct StartCaptcha {
    pub email: String,
}

/// What follows the lookup of an address.
#[derive(Debug)]
pub enum AfterLookup<'a> {
    ListCredentials(StartCredentials<'a>),
    AskForUsers(StartRegistration),
    ReadCaptcha(StartCaptcha),
}

/// What follows the opening of a flow.
#[derive(Debug)]
pub enum AfterFlow<'a> {
    PasskeyOptions(StartPasskey<'a>),
    MintOtp(OtpIssue<StartSessionResponse>),
    Reply(StartSessionResponse),
}

/// What a new user is answered.
#[derive(Debug)]
pub enum StartNewUser {
    MintOtp(OtpIssue<StartSessionResponse>),
    Reply(StartSessionResponse),
}

/// `s` once a login for `email` has started, with `redirect` to go to afterwards.
pub open spec fn login_started(
    s: LoginSession,
    email: String,
    redirect: Option<String>,
) -> LoginSession {
    LoginSession {
        login_email: Stored::Value(email),
        login_redirect_url: match redirect {
            Some(url) => Stored::Value(url),
            None => s.login_redirect_url,
        },
        ..pending_reset(s)
    }
}

/// `issue` mails a login code to `email`, to be answered with "a code is in the mail".
pub open spec fn issues_login_otp(
    issue: OtpIssue<StartSessionResponse>,
    email: String,
    is_new_user: bool,
) -> bool {
    &&& issue.email == email
    &&& issue.purpose@ == LOGIN_PURPOSE@
    &&& issue.reply.says_otp_sent(is_new_user)
}

/// Mail a login code, for a new user or for an account without credentials at the provider.
pub fn send_otp_session(email: String, is_new_user: bool) -> (r: OtpIssue<StartSessionResponse>)
    ensures
        issues_login_otp(r, email, is_new_user),
{
    OtpIssue {
        email,
        purpose: LOGIN_PURPOSE.to_owned(),
        reply: StartSessionResponse::new(true, is_new_user, false),
    }
}

/// Start a login for an address.
pub fn start_session<'a>(auth_config: &'a AuthConfig, req: StartSessionRequest) -> (r: AuthResult<
    CheckAddress<'a>,
>)
    ensures
        match r {
            Ok(step) => {
                &&& step.fk.describes(*auth_config)
                &&& step.email@ == lowercased(trimmed(req.email@))
                &&& step.redirect_url == req.redirect_url
            },
            Err(e) => no_client_secret(*auth_config, e),
        },
{
    let fk = match FkConfig::from(auth_config) {
        Ok(fk) => fk,
        Err(e) => {
            return Err(e);
        },
    };
    let email = req.email.as_str().trim().to_lowercase();
    Ok(CheckAddress { fk, email, redirect_url: req.redirect_url })
}

impl<'a> CheckAddress<'a> {
    /// Take over a valid address. A new attempt inherits nothing of an earlier one.
    pub fn resume(
        self,
        session: &mut LoginSession,
        email_is_valid: bool,
        redirect_is_safe: bool,
    ) -> (r: AuthResult<StartToken<'a>>)
        ensures
            if email_is_valid {
                &&& *final(session) == login_started(
                    *old(session),
                    self.email,
                    if redirect_is_safe {
                        self.redirect_url
                    } else {
                        None
                    },
                )
                &&& r == Ok::<StartToken, AuthError>(StartToken { fk: self.fk, email: self.email })
            } else {
                &&& *final(session) == *old(session)
                &&& r matches Err(e) && e.bad_request("Invalid email address"@)
            },
    {
        if !email_is_valid {
            return Err(bad_request("Invalid email address"));
        }
        if let Some(url) = self.redirect_url {
            if redirect_is_safe {
                session.login_redirect_url = Stored::Value(url);
            }
        }
        reset_pending_login_state(session);
        session.login_email = Stored::Value(self.email.clone());
        Ok(StartToken { fk: self.fk, email: self.email })
    }
}

impl<'a> StartToken<'a> {
    /// Go on with the service-account token.
    pub fn resume(self, answer: AuthResult<OidcTokenResponse>) -> (r: AuthResult<StartFindUser<'a>>)
        ensures
            match answer {
                Ok(tokens) => r == Ok::<StartFindUser, AuthError>(
                    StartFindUser { fk: self.fk, token: tokens.access_token, email: self.email },
                ),
                Err(e) => r == Err::<StartFindUser, AuthError>(e),
            },
    {
        match service_token(answer) {
            Ok(token) => Ok(StartFindUser { fk: self.fk, token, email: self.email }),
            Err(e) => Err(e),
        }
    }
}

/// `e` says that registration is not open for the address.
pub open spec fn registration_refused(e: AuthError) -> bool {
    e.unauthorized("Registration is not open for this address"@)
}

/// `s` with a registration pending.
pub open spec fn registration_pending(s: LoginSession) -> LoginSession {
    LoginSession { deferred_new_user: Stored::Value(true), ..s }
}

/// `r` is what follows the lookup of the address of `step`.
pub open spec fn lookup_answered(
    step: StartFindUser,
    config: AuthConfig,
    before: LoginSession,
    after: LoginSession,
    found: AuthResult<Option<FerrisKeyUser>>,
    r: AuthResult<AfterLookup>,
) -> bool {
    match found {
        Err(e) => r == Err::<AfterLookup, AuthError>(e) && after == before,
        Ok(Some(user)) => {
            &&& after == before
            &&& if user.enabled {
                r == Ok::<AfterLookup, AuthError>(
                    AfterLookup::ListCredentials(
                        StartCredentials {
                            fk: step.fk,
                            token: step.token,
                            user_id: user.id,
                            email: step.email,
                        },
                    ),
                )
            } else {
                r matches Err(e) && e.unauthorized("This account is disabled"@)
            }
        },
        Ok(None) => if depends_on_users(config) {
            &&& after == before
            &&& r == Ok::<AfterLookup, AuthError>(
                AfterLookup::AskForUsers(StartRegistration { email: step.email }),
            )
        } else if open_to(config, step.email@, false) {
            &&& after == registration_pending(before)
            &&& r == Ok::<AfterLookup, AuthError>(
                AfterLookup::ReadCaptcha(StartCaptcha { email: step.email }),
            )
        } else {
            &&& after == before
            &&& r matches Err(e) && registration_refused(e)
        },
    }
}

impl<'a> StartFindUser<'a> {
    /// A disabled account is turned away, an enabled one has its credentials looked at. An
    /// unknown address is a registration, where the allowlist is open to it.
    pub fn resume(
        self,
        auth_config: &AuthConfig,
        session: &mut LoginSession,
        found: AuthResult<Option<FerrisKeyUser>>,
    ) -> (r: AuthResult<AfterLookup<'a>>)
        ensures
            lookup_answered(self, *auth_config, *old(session), *final(session), found, r),
    {
        match found {
            Err(e) => Err(e),
            Ok(Some(user)) => {
                if !user.enabled {
                    return Err(unauthorized("This account is disabled"));
                }
                Ok(
                    AfterLookup::ListCredentials(
                        StartCredentials {
                            fk: self.fk,
                            token: self.token,
                            user_id: user.id,
                            email: self.email,
                        },
                    ),
                )
            },
            Ok(None) => match registration_allowed(auth_config, self.email.as_str()) {
                RegistrationGate::AskForUsers => Ok(
                    AfterLookup::AskForUsers(StartRegistration { email: self.email }),
                ),
                RegistrationGate::Decided(allowed) => {
                    assert(allowed == open_to(*auth_config, self.email@, false));
                    if !allowed {
                        return Err(unauthorized("Registration is not open for this address"));
                    }
                    session.deferred_new_user = Stored::Value(true);
                    Ok(AfterLookup::ReadCaptcha(StartCaptcha { email: self.email }))
                },
            },
        }
    }
}

/// `r` is what follows once the store has said whether any user exists.
pub open spec fn registration_answered(
    step: StartRegistration,
    config: AuthConfig,
    before: LoginSession,
    after: LoginSession,
    has_users: AuthResult<bool>,
    r: AuthResult<StartCaptcha>,
) -> bool {
    match has_users {
        Err(e) => r == Err::<StartCaptcha, AuthError>(e) && after == before,
        Ok(any) => if open_to(config, step.email@, any) {
            &&& after == registration_pending(before)
            &&& r == Ok::<StartCaptcha, AuthError>(StartCaptcha { email: step.email })
        } else {
            &&& after == before
            &&& r matches Err(e) && registration_refused(e)
        },
    }
}

impl StartRegistration {
    /// Without an allowlist the first account is let in, and nobody after it.
    pub fn resume(
        self,
        auth_config: &AuthConfig,
        session: &mut LoginSession,
        has_users: AuthResult<bool>,
    ) -> (r: AuthResult<StartCaptcha>)
        ensures
            registration_answered(self, *auth_config, *old(session), *final(session), has_users, r),
    {
        match has_users {
            Err(e) => Err(e),
            Ok(any) => {
                if !registration_allowed_given(auth_config, self.email.as_str(), any) {
                    return Err(unauthorized("Registration is not open for this address"));
                }
                session.deferred_new_user = Stored::Value(true);
                Ok(StartCaptcha { email: self.email })
            },
        }
    }
}

/// `r` is what a new user is answered.
pub open spec fn new_user_answered(
    step: StartCaptcha,
    env: CaptchaEnv,
    r: StartNewUser,
) -> bool {
    if captcha_configured(env) {
        r matches StartNewUser::Reply(reply) && reply.asks_captcha(
            env.server_url->Some_0,
            env.site_key->Some_0,
        )
    } else {
        r matches StartNewUser::MintOtp(issue) && issues_login_otp(issue, step.email, true)
    }
}

impl StartCaptcha {
    /// With a captcha configured the code is withheld until it is solved; else the allowlist
    /// was the whole gate.
    pub fn resume(self, env: CaptchaEnv) -> (r: StartNewUser)
        ensures
            new_user_answered(self, env, r),
    {
        match captcha_cfg(env) {
            Some(cfg) => {
                let mut reply = StartSessionResponse::new(false, true, false);
                reply.captcha_required = Some(true);
                reply.captcha_server_url = Some(cfg.server_url);
                reply.captcha_site_key = Some(cfg.site_key);
                StartNewUser::Reply(reply)
            },
            None => StartNewUser::MintOtp(send_otp_session(self.email, true)),
        }
    }
}

/// `r` is what follows once the credentials of the account are listed.
pub open spec fn credentials_listed(
    step: StartCredentials,
    before: LoginSession,
    after: LoginSession,
    credentials: AuthResult<Vec<CredentialKind>>,
    r: AuthResult<StartFlow>,
) -> bool {
    match credentials {
        Ok(kinds) => {
            &&& after == (LoginSession {
                ferriskey_user_id: Stored::Value(step.user_id),
                ..before
            })
            &&& r == Ok::<StartFlow, AuthError>(
                StartFlow {
                    fk: step.fk,
                    email: step.email,
                    method: method_for(kinds@),
                },
            )
        },
        Err(_) => {
            &&& after == before
            &&& r matches Err(e) && e.server_state("Unable to inspect user credentials"@)
        },
    }
}

impl<'a> StartCredentials<'a> {
    /// Decide from the credentials how the account logs in.
    pub fn resume(
        self,
        session: &mut LoginSession,
        credentials: AuthResult<Vec<CredentialKind>>,
    ) -> (r: AuthResult<StartFlow<'a>>)
        ensures
            credentials_listed(self, *old(session), *final(session), credentials, r),
    {
        match credentials {
            Ok(kinds) => {
                session.ferriskey_user_id = Stored::Value(self.user_id);
                Ok(StartFlow { fk: self.fk, email: self.email, method: login_method(&kinds) })
            },
            Err(_) => Err(server_state("Unable to inspect user credentials")),
        }
    }
}

/// `r` is what follows once a flow is opened for `step`.
pub open spec fn flow_opened(
    step: StartFlow,
    before: LoginSession,
    after: LoginSession,
    opened: AuthResult<FerrisKeyFlow>,
    r: AuthResult<AfterFlow>,
) -> bool {
    match opened {
        Err(e) => r == Err::<AfterFlow, AuthError>(e) && after == before,
        Ok(flow) => {
            let kept = LoginSession { flow: Stored::Value(flow), ..before };
            match step.method {
                LoginMethod::Passkey => {
                    &&& after == kept
                    &&& r == Ok::<AfterFlow, AuthError>(
                        AfterFlow::PasskeyOptions(
                            StartPasskey { fk: step.fk, flow, email: step.email },
                        ),
                    )
                },
                LoginMethod::Password => {
                    &&& after == kept
                    &&& r matches Ok(AfterFlow::Reply(reply)) && reply.asks_password()
                },
                LoginMethod::EmailCode => {
                    &&& after == before.without(SessionKey::Flow)
                    &&& r matches Ok(AfterFlow::MintOtp(issue)) && issues_login_otp(
                        issue,
                        step.email,
                        false,
                    )
                },
                LoginMethod::Unsupported => {
                    &&& after == kept
                    &&& r matches Err(e) && e.unauthorized(
                        "This account has no supported login method"@,
                    )
                },
            }
        },
    }
}

impl<'a> StartFlow<'a> {
    /// Keep the flow where the provider authenticates. An account without any credential gets
    /// a code by mail instead, and no flow; one with credentials never does.
    pub fn resume(self, session: &mut LoginSession, opened: AuthResult<FerrisKeyFlow>) -> (r:
        AuthResult<AfterFlow<'a>>)
        ensures
            flow_opened(self, *old(session), *final(session), opened, r),
    {
        let flow = match opened {
            Ok(flow) => flow,
            Err(e) => {
                return Err(e);
            },
        };
        store_flow(session, &flow);
        match self.method {
            LoginMethod::Passkey => Ok(
                AfterFlow::PasskeyOptions(StartPasskey { fk: self.fk, flow, email: self.email }),
            ),
            LoginMethod::Password => Ok(
                AfterFlow::Reply(StartSessionResponse::new(false, false, true)),
            ),
            LoginMethod::EmailCode => match session.remove(SessionKey::Flow) {
                Ok(_) => Ok(AfterFlow::MintOtp(send_otp_session(self.email, false))),
                Err(e) => Err(e),
            },
            LoginMethod::Unsupported => Err(
                unauthorized("This account has no supported login method"),
            ),
        }
    }
}

impl<'a> StartPasskey<'a> {
    /// Hand the request options to the browser.
    pub fn resume(self, options: AuthResult<serde_json::Value>) -> (r: AuthResult<
        StartSessionResponse,
    >)
        ensures
            match options {
                Ok(value) => r matches Ok(reply) && reply.offers_passkey(value),
                Err(_) => r matches Err(e) && e.server_state(
                    "Unable to start passkey authentication"@,
                ),
            },
    {
        match options {
            Ok(value) => {
                let mut reply = StartSessionResponse::new(false, false, false);
                reply.public_key_options = Some(value);
                reply.has_passkeys = true;
                Ok(reply)
            },
            Err(_) => Err(server_state("Unable to start passkey authentication")),
        }
    }
}

// ── Outcome of a provider step ──────────────────────────────────────
/// Redeem the code for tokens.
#[derive(Debug)]
pub struct ExchangeCode<'a> {
    pub fk: FkConfig<'a>,
    pub flow: FerrisKeyFlow,
    pub code: String,
    pub code_verifier: String,
}

/// Validate the id_token against the provider's keys and the audience.
#[derive(Debug)]
pub struct ValidateIdToken {
    pub flow: FerrisKeyFlow,
    pub id_token: String,
}

/// What follows a password or passkey step at the provider.
#[derive(Debug)]
pub enum OidcNext<'a> {
    ExchangeCode(ExchangeCode<'a>),
    Reply(VerifyResponse),
}

/// Whether the redirect to `url` carries a code for a flow with the state `expected_state`.
pub open spec fn redirect_accepted(url: Seq<char>, expected_state: Seq<char>) -> bool {
    url_query(url) matches Ok(pairs) && last_value(pairs, "state"@) == Some(expected_state)
        && last_value(pairs, "code"@) is Some
}

/// `r` is what follows the redirect to `url` of `flow`.
pub open spec fn redirect_followed(
    fk: FkConfig,
    flow: FerrisKeyFlow,
    url: Seq<char>,
    r: AuthResult<ExchangeCode>,
) -> bool {
    if !redirect_accepted(url, flow.state@) {
        r matches Err(e) && code_of_redirect(url, flow.state@, Err::<String, AuthError>(e))
    } else {
        match flow.code_verifier {
            None => r matches Err(e) && e.server_state(
                "Login flow missing PKCE verifier — please retry"@,
            ),
            Some(verifier) => {
                &&& r matches Ok(step)
                &&& step.fk == fk
                &&& step.flow == flow
                &&& step.code_verifier == verifier
                &&& code_of_redirect(url, flow.state@, Ok::<String, AuthError>(step.code))
            },
        }
    }
}

/// Take the code out of the redirect, to be redeemed with the flow's PKCE secret.
pub fn exchange_and_resolve<'a>(
    fk: FkConfig<'a>,
    flow: FerrisKeyFlow,
    redirect_url: &str,
) -> (r: AuthResult<ExchangeCode<'a>>)
    ensures
        redirect_followed(fk, flow, redirect_url@, r),
        r matches Ok(step) ==> step.flow == flow && flow.code_verifier == Some(step.code_verifier),
{
    match parse_oidc_redirect(redirect_url, flow.state.as_str()) {
        Ok(code) => match &flow.code_verifier {
            Some(verifier) => {
                let code_verifier = verifier.clone();
                Ok(ExchangeCode { fk, flow, code, code_verifier })
            },
            None => Err(server_state("Login flow missing PKCE verifier — please retry")),
        },
        Err(e) => Err(e),
    }
}

/// What a user is told whose account needs a step that the login screen does not have.
pub open spec fn step_up_refusal(label: Seq<char>) -> Seq<char> {
    "Your account requires "@ + label + ", which isn't supported by this login screen yet."@
}

/// `r` is what follows the provider's answer `resp` in `flow`.
pub open spec fn oidc_outcome(
    config: AuthConfig,
    flow: FerrisKeyFlow,
    resp: AuthenticateResponse,
    r: AuthResult<OidcNext>,
) -> bool {
    match resp.status {
        AuthenticationStatus::Success => match resp.url {
            None => r matches Err(e) && e.server_state(
                "FerrisKey returned Success without a redirect URL"@,
            ),
            Some(url) => if config.ferriskey_client_secret is None {
                r matches Err(e) && no_client_secret(config, e)
            } else {
                match r {
                    Ok(OidcNext::ExchangeCode(step)) => step.fk.describes(config)
                        && redirect_followed(step.fk, flow, url@, Ok::<ExchangeCode, AuthError>(step)),
                    Ok(OidcNext::Reply(_)) => false,
                    Err(e) => forall|fk: FkConfig| #[trigger]
                        redirect_followed(fk, flow, url@, Err::<ExchangeCode, AuthError>(e)),
                }
            },
        },
        AuthenticationStatus::RequiresOtpChallenge => r matches Ok(OidcNext::Reply(reply))
            && reply.refuses(step_up_refusal("TOTP"@)),
        AuthenticationStatus::RequiresActions => r matches Ok(OidcNext::Reply(reply))
            && reply.refuses(step_up_refusal("additional setup"@)),
        AuthenticationStatus::Failed => r matches Ok(OidcNext::Reply(reply)) && reply.refuses(
            match resp.message {
                Some(message) => message@,
                None => "Authentication failed"@,
            },
        ),
    }
}

/// Branch on the status that a password or passkey step ended with.
pub fn handle_oidc_outcome<'a>(
    auth_config: &'a AuthConfig,
    flow: FerrisKeyFlow,
    resp: AuthenticateResponse,
) -> (r: AuthResult<OidcNext<'a>>)
    ensures
        oidc_outcome(*auth_config, flow, resp, r),
        r matches Ok(OidcNext::ExchangeCode(step)) ==> step.flow == flow && resp.status
            == AuthenticationStatus::Success,
{
    match resp.status {
        AuthenticationStatus::Success => {
            let url = match resp.url {
                Some(url) => url,
                None => {
                    return Err(server_state("FerrisKey returned Success without a redirect URL"));
                },
            };
            let fk = match FkConfig::from(auth_config) {
                Ok(fk) => fk,
                Err(e) => {
                    return Err(e);
                },
            };
            match exchange_and_resolve(fk, flow, url.as_str()) {
                Ok(step) => Ok(OidcNext::ExchangeCode(step)),
                Err(e) => Err(e),
            }
        },
        AuthenticationStatus::RequiresOtpChallenge => {
            let message = join3(
                "Your account requires ",
                "TOTP",
                ", which isn't supported by this login screen yet.",
            );
            Ok(OidcNext::Reply(VerifyResponse::failed(message.as_str())))
        },
        AuthenticationStatus::RequiresActions => {
            let message = join3(
                "Your account requires ",
                "additional setup",
                ", which isn't supported by this login screen yet.",
            );
            Ok(OidcNext::Reply(VerifyResponse::failed(message.as_str())))
        },
        AuthenticationStatus::Failed => match resp.message {
            Some(message) => Ok(OidcNext::Reply(VerifyResponse::failed(message.as_str()))),
            None => Ok(OidcNext::Reply(VerifyResponse::failed("Authentication failed"))),
        },
    }
}

/// `r` is what follows once the code of `step` is redeemed.
pub open spec fn tokens_received(
    step: ExchangeCode,
    answer: AuthResult<OidcTokenResponse>,
    r: AuthResult<ValidateIdToken>,
) -> bool {
    match answer {
        Err(e) => r == Err::<ValidateIdToken, AuthError>(e),
        Ok(tokens) => match tokens.id_token {
            Some(id_token) => r == Ok::<ValidateIdToken, AuthError>(
                ValidateIdToken { flow: step.flow, id_token },
            ),
            None => r matches Err(e) && e.server_state("FerrisKey returned no id_token"@),
        },
    }
}

impl<'a> ExchangeCode<'a> {
    /// Go on with the id_token.
    pub fn resume(self, answer: AuthResult<OidcTokenResponse>) -> (r: AuthResult<ValidateIdToken>)
        ensures
            tokens_received(self, answer, r),
    {
        match answer {
            Err(e) => Err(e),
            Ok(tokens) => match tokens.id_token {
                Some(id_token) => Ok(ValidateIdToken { flow: self.flow, id_token }),
                None => Err(server_state("FerrisKey returned no id_token")),
            },
        }
    }
}

impl ValidateIdToken {
    /// Log in who the id_token names.
    pub fn resume(self, validated: Result<IdTokenClaims, String>) -> (r: AuthResult<LookupUser>)
        ensures
            match r {
                Ok(step) => id_token_resolved(
                    self.flow,
                    validated,
                    Ok::<AuthUserInfo, AuthError>(step.info),
                ),
                Err(e) => id_token_resolved(
                    self.flow,
                    validated,
                    Err::<AuthUserInfo, AuthError>(e),
                ),
            },
            r matches Ok(step) ==> (validated matches Ok(claims) && step.info.sub == claims.sub
                && claims.email == Some(step.info.email) && (self.flow.nonce is Some
                ==> claims.nonce is Some && claims.nonce->Some_0@ == self.flow.nonce->Some_0@)),
    {
        match resolve_id_token(&self.flow, validated) {
            Ok(info) => Ok(finalize_login(info)),
            Err(e) => Err(e),
        }
    }
}

// ── POST /auth/session/passkey/verify ───────────────────────────────
/// Have the provider check the assertion in the flow.
#[derive(Debug)]
pub struct PasskeyAuthenticate<'a> {
    pub fk: FkConfig<'a>,
    pub flow: FerrisKeyFlow,
    pub assertion: serde_json::Value,
}

/// Answer a passkey challenge.
pub fn verify_passkey_handler<'a>(
    auth_config: &'a AuthConfig,
    session: &LoginSession,
    req: VerifyPasskeyRequest,
) -> (r: AuthResult<PasskeyAuthenticate<'a>>)
    ensures
        if auth_config.ferriskey_client_secret is None {
            r matches Err(e) && no_client_secret(*auth_config, e)
        } else {
            match r {
                Ok(step) => {
                    &&& step.fk.describes(*auth_config)
                    &&& flow_loaded(*session, Ok::<FerrisKeyFlow, AuthError>(step.flow))
                    &&& step.assertion == req.credential_assertion_data
                },
                Err(e) => flow_loaded(*session, Err::<FerrisKeyFlow, AuthError>(e)),
            }
        },
        r matches Ok(step) ==> session.flow == Stored::Value(step.flow),
{
    let fk = match FkConfig::from(auth_config) {
        Ok(fk) => fk,
        Err(e) => {
            return Err(e);
        },
    };
    match load_flow(session) {
        Ok(flow) => Ok(
            PasskeyAuthenticate { fk, flow, assertion: req.credential_assertion_data },
        ),
        Err(e) => Err(e),
    }
}

impl<'a> PasskeyAuthenticate<'a> {
    /// Branch on the provider's answer; a call that failed is a failed verification.
    pub fn resume(self, auth_config: &'a AuthConfig, answer: AuthResult<AuthenticateResponse>) -> (r:
        AuthResult<OidcNext<'a>>)
        ensures
            match answer {
                Ok(resp) => oidc_outcome(*auth_config, self.flow, resp, r),
                Err(_) => r matches Ok(OidcNext::Reply(reply)) && reply.refuses(
                    "Passkey verification failed. Please try again."@,
                ),
            },
            r matches Ok(OidcNext::ExchangeCode(step)) ==> step.flow == self.flow,
    {
        match answer {
            Ok(resp) => handle_oidc_outcome(auth_config, self.flow, resp),
            Err(_) => Ok(
                OidcNext::Reply(
                    VerifyResponse::failed("Passkey verification failed. Please try again."),
                ),
            ),
        }
    }
}

// ── POST /auth/session/password/verify ──────────────────────────────
/// Take the session's lock, read the session, and count the attempt.
#[derive(Debug)]
pub struct CountAttempt<'a> {
    pub fk: FkConfig<'a>,
    pub password: String,
}

/// Write the session back, then release the lock.
#[derive(Debug)]
pub struct PersistAttempt<'a> {
    pub fk: FkConfig<'a>,
    pub password: String,
}

/// Have the provider check the password in the flow.
#[derive(Debug)]
pub struct AuthenticatePassword<'a> {
    pub fk: FkConfig<'a>,
    pub flow: FerrisKeyFlow,
    pub email: String,
    pub password: String,
}

/// What follows the counting of an attempt.
#[derive(Debug)]
pub enum AfterCount<'a> {
    Persist(PersistAttempt<'a>),
    Reply(VerifyResponse),
}

/// How many password attempts are open or failed.
pub open spec fn password_attempts(s: LoginSession) -> u32 {
    match s.password_attempts {
        Stored::Value(n) => n,
        _ => 0,
    }
}

/// Whether the session may try another password.
pub open spec fn password_slot_left(s: LoginSession) -> bool {
    password_attempts(s) < MAX_PASSWORD_ATTEMPTS
}

/// `s` with one more password attempt counted.
pub open spec fn attempt_counted(s: LoginSession) -> LoginSession {
    LoginSession { password_attempts: Stored::Value((password_attempts(s) + 1) as u32), ..s }
}

/// Try a password.
pub fn verify_password_handler<'a>(auth_config: &'a AuthConfig, req: VerifyPasswordRequest) -> (r:
    AuthResult<CountAttempt<'a>>)
    ensures
        if auth_config.ferriskey_client_secret is None {
            r matches Err(e) && no_client_secret(*auth_config, e)
        } else if trimmed(req.password@).len() == 0 {
            r matches Err(e) && e.bad_request("Password is required"@)
        } else {
            &&& r matches Ok(step)
            &&& step.fk.describes(*auth_config)
            &&& step.password@ == trimmed(req.password@)
        },
{
    let fk = match FkConfig::from(auth_config) {
        Ok(fk) => fk,
        Err(e) => {
            return Err(e);
        },
    };
    let password = req.password.as_str().trim().to_owned();
    if password.as_str().is_empty() {
        return Err(bad_request("Password is required"));
    }
    Ok(CountAttempt { fk, password })
}

/// `r` is what a password attempt is answered before it is made.
pub open spec fn attempt_answered(
    step: CountAttempt,
    before: LoginSession,
    after: LoginSession,
    r: AuthResult<AfterCount>,
) -> bool {
    if before.password_attempts is Unreadable {
        &&& after == before
        &&& r == Err::<AfterCount, AuthError>(AuthError::SessionError)
    } else if password_slot_left(before) {
        &&& after == attempt_counted(before)
        &&& r == Ok::<AfterCount, AuthError>(
            AfterCount::Persist(PersistAttempt { fk: step.fk, password: step.password }),
        )
    } else {
        &&& after == before
        &&& r matches Ok(AfterCount::Reply(reply)) && reply.refuses(
            "Too many failed password attempts. Please start a new login."@,
        )
    }
}

impl<'a> CountAttempt<'a> {
    /// The attempt is counted before it is made, so that parallel attempts each take a slot.
    pub fn resume(self, session: &mut LoginSession) -> (r: AuthResult<AfterCount<'a>>)
        ensures
            attempt_answered(self, *old(session), *final(session), r),
    {
        let attempts: u32 = match session.password_attempts.read() {
            Ok(Some(n)) => *n,
            Ok(None) => 0,
            Err(e) => {
                return Err(e);
            },
        };
        if attempts >= MAX_PASSWORD_ATTEMPTS {
            return Ok(
                AfterCount::Reply(
                    VerifyResponse::failed(
                        "Too many failed password attempts. Please start a new login.",
                    ),
                ),
            );
        }
        session.password_attempts = Stored::Value(attempts + 1);
        Ok(AfterCount::Persist(PersistAttempt { fk: self.fk, password: self.password }))
    }
}

/// `r` is the address that the login was started for, or there is none and `r` says so.
pub open spec fn login_email_loaded(s: LoginSession, r: AuthResult<String>) -> bool {
    match s.login_email {
        Stored::Value(email) => r == Ok::<String, AuthError>(email),
        Stored::Missing => r matches Err(e) && e.bad_request("No login session in progress"@),
        Stored::Unreadable => r == Err::<String, AuthError>(AuthError::SessionError),
    }
}

/// The address that the login was started for.
pub(crate) fn load_login_email(session: &LoginSession) -> (r: AuthResult<String>)
    ensures
        login_email_loaded(*session, r),
{
    match session.login_email.read() {
        Ok(Some(email)) => Ok(email.clone()),
        Ok(None) => Err(bad_request("No login session in progress")),
        Err(e) => Err(e),
    }
}

/// `r` makes the attempt of `step`, once it is counted for good.
pub open spec fn attempt_made(
    step: PersistAttempt,
    s: LoginSession,
    saved: AuthResult<()>,
    r: AuthResult<AuthenticatePassword>,
) -> bool {
    match saved {
        Err(e) => r == Err::<AuthenticatePassword, AuthError>(e),
        Ok(_) => match s.flow {
            Stored::Value(flow) => match r {
                Ok(next) => {
                    &&& next.fk == step.fk
                    &&& next.flow == flow
                    &&& login_email_loaded(s, Ok::<String, AuthError>(next.email))
                    &&& next.password == step.password
                },
                Err(e) => login_email_loaded(s, Err::<String, AuthError>(e)),
            },
            _ => r matches Err(e) && flow_loaded(
                s,
                Err::<FerrisKeyFlow, AuthError>(e),
            ),
        },
    }
}

impl<'a> PersistAttempt<'a> {
    /// Make the attempt once it is counted for good.
    pub fn resume(self, session: &LoginSession, saved: AuthResult<()>) -> (r: AuthResult<
        AuthenticatePassword<'a>,
    >)
        ensures
            attempt_made(self, *session, saved, r),
            r matches Ok(step) ==> session.flow == Stored::Value(step.flow) && session.login_email
                == Stored::Value(step.email),
    {
        match saved {
            Err(e) => Err(e),
            Ok(_) => match load_flow(session) {
                Err(e) => Err(e),
                Ok(flow) => match load_login_email(session) {
                    Err(e) => Err(e),
                    Ok(email) => Ok(
                        AuthenticatePassword { fk: self.fk, flow, email, password: self.password },
                    ),
                },
            },
        }
    }
}

/// `r` is what follows the provider's answer to a password.
pub open spec fn password_answered(
    step: AuthenticatePassword,
    config: AuthConfig,
    before: LoginSession,
    after: LoginSession,
    answer: AuthResult<AuthenticateResponse>,
    r: AuthResult<OidcNext>,
) -> bool {
    match answer {
        Err(_) => {
            &&& after == before
            &&& r matches Ok(OidcNext::Reply(reply)) && reply.refuses(
                "Invalid password. Please try again."@,
            )
        },
        Ok(resp) => if resp.status == AuthenticationStatus::Failed {
            &&& after == before
            &&& oidc_outcome(config, step.flow, resp, r)
        } else {
            &&& after == before.without(SessionKey::PasswordAttempts)
            &&& if before.password_attempts is Unreadable {
                r == Err::<OidcNext, AuthError>(AuthError::SessionError)
            } else {
                oidc_outcome(config, step.flow, resp, r)
            }
        },
    }
}

impl<'a> AuthenticatePassword<'a> {
    /// An answer other than a failure hands the attempt back.
    pub fn resume(
        self,
        auth_config: &'a AuthConfig,
        session: &mut LoginSession,
        answer: AuthResult<AuthenticateResponse>,
    ) -> (r: AuthResult<OidcNext<'a>>)
        ensures
            password_answered(self, *auth_config, *old(session), *final(session), answer, r),
            r matches Ok(OidcNext::ExchangeCode(step)) ==> step.flow == self.flow,
    {
        match answer {
            Err(_) => Ok(
                OidcNext::Reply(VerifyResponse::failed("Invalid password. Please try again.")),
            ),
            Ok(resp) => {
                if resp.status != AuthenticationStatus::Failed {
                    if let Err(e) = session.remove(SessionKey::PasswordAttempts) {
                        return Err(e);
                    }
                }
                handle_oidc_outcome(auth_config, self.flow, resp)
            },
        }
    }
}

// ── POST /auth/session/otp/verify ───────────────────────────────────
/// Take the session's lock, read the session, check the code, and write the session back.
#[derive(Debug)]
pub struct CheckOtp {
    pub code: String,
}

/// Get a service-account token.
#[derive(Debug)]
pub struct OtpToken<'a> {
    pub fk: FkConfig<'a>,
    pub email: String,
}

/// Ask the user store whether any user exists.
#[derive(Debug)]
pub struct OtpRegistration<'a> {
    pub fk: FkConfig<'a>,
    pub token: String,
    pub email: String,
}

/// Create the provider's user. The provider answers with the existing one where there is one.
#[derive(Debug)]
pub struct OtpCreateUser<'a> {
    pub fk: FkConfig<'a>,
    pub token: String,
    pub email: String,
}

/// Look the address up at the provider.
#[derive(Debug)]
pub struct OtpFindUser<'a> {
    pub fk: FkConfig<'a>,
    pub token: String,
    pub email: String,
}

/// List the credentials of the provider's user.
#[derive(Debug)]
pub struct OtpCredentials<'a> {
    pub fk: FkConfig<'a>,
    pub token: String,
    pub user: FerrisKeyUser,
    pub email: String,
    /// Whether the user was created by this login.
    pub deferred: bool,
}

/// Mark the address of the provider's user as verified.
#[derive(Debug)]
pub struct SetEmailVerified<'a> {
    pub fk: FkConfig<'a>,
    pub token: String,
    pub user: FerrisKeyUser,
    pub email: String,
}

/// What follows a checked code.
#[derive(Debug)]
pub enum AfterOtp<'a> {
    ServiceToken(OtpToken<'a>),
    Reply(VerifyResponse),
}

/// Where the account of a verified address comes from.
#[derive(Debug)]
pub enum OtpAccount<'a> {
    AskForUsers(OtpRegistration<'a>),
    CreateUser(OtpCreateUser<'a>),
    FindUser(OtpFindUser<'a>),
}

/// What follows the look at an account's credentials.
#[derive(Debug)]
pub enum AfterOtpCredentials<'a> {
    SetEmailVerified(SetEmailVerified<'a>),
    LookupUser(LookupUser),
}

/// Submit a code.
pub fn verify_otp_handler(req: VerifyOtpRequest) -> (r: AuthResult<CheckOtp>)
    ensures
        if trimmed(req.code@).len() == 0 {
            r matches Err(e) && e.bad_request("Verification code is required"@)
        } else {
            r matches Ok(step) && step.code@ == trimmed(req.code@)
        },
{
    let code = req.code.as_str().trim().to_owned();
    if code.as_str().is_empty() {
        return Err(bad_request("Verification code is required"));
    }
    Ok(CheckOtp { code })
}

impl CheckOtp {
    /// Check the code against the one in flight.
    pub fn resume(self, session: &mut LoginSession) -> (r: OtpChecked)
        ensures
            exists|now: i64| #[trigger]
                clock_reading(now) && otp_checked_at(
                    *old(session),
                    *final(session),
                    self.code@,
                    now,
                    r.outcome,
                ),
    {
        OtpChecked { outcome: verify_otp_from_session(session, self.code.as_str()) }
    }
}

/// `r` goes on with the address of a code that was accepted, or refuses.
pub open spec fn code_taken(
    config: AuthConfig,
    checked: OtpChecked,
    saved: AuthResult<()>,
    r: AuthResult<AfterOtp>,
) -> bool {
    match saved {
        Err(e) => r == Err::<AfterOtp, AuthError>(e),
        Ok(_) => match checked.outcome {
            Err(message) => r matches Ok(AfterOtp::Reply(reply)) && reply.refuses(message@),
            Ok(email) => match r {
                Ok(AfterOtp::ServiceToken(step)) => step.fk.describes(config)
                    && step.email == email,
                Ok(AfterOtp::Reply(_)) => false,
                Err(e) => no_client_secret(config, e),
            },
        },
    }
}

/// Go on with the address that a verified code was mailed to, or say why it was not accepted.
pub fn otp_checked<'a>(
    auth_config: &'a AuthConfig,
    checked: OtpChecked,
    saved: AuthResult<()>,
) -> (r: AuthResult<AfterOtp<'a>>)
    ensures
        code_taken(*auth_config, checked, saved, r),
{
    match verify_otp_guarded(checked, saved) {
        Err(e) => Err(e),
        Ok(Err(message)) => Ok(AfterOtp::Reply(VerifyResponse::failed(message.as_str()))),
        Ok(Ok(email)) => match FkConfig::from(auth_config) {
            Ok(fk) => Ok(AfterOtp::ServiceToken(OtpToken { fk, email })),
            Err(e) => Err(e),
        },
    }
}

/// Whether a registration is pending at the provider.
pub open spec fn is_deferred(s: LoginSession) -> bool {
    s.deferred_new_user == Stored::Value(true)
}

fn load_deferred(session: &LoginSession) -> (r: AuthResult<bool>)
    ensures
        if session.deferred_new_user is Unreadable {
            r == Err::<bool, AuthError>(AuthError::SessionError)
        } else {
            r == Ok::<bool, AuthError>(is_deferred(*session))
        },
{
    match session.deferred_new_user.read() {
        Ok(Some(b)) => Ok(*b),
        Ok(None) => Ok(false),
        Err(e) => Err(e),
    }
}

/// `r` is where the account of the address that `step` carries comes from.
pub open spec fn account_sourced(
    step: OtpToken,
    config: AuthConfig,
    s: LoginSession,
    answer: AuthResult<OidcTokenResponse>,
    r: AuthResult<OtpAccount>,
) -> bool {
    match answer {
        Err(e) => r == Err::<OtpAccount, AuthError>(e),
        Ok(tokens) => if s.deferred_new_user is Unreadable {
            r == Err::<OtpAccount, AuthError>(AuthError::SessionError)
        } else if !is_deferred(s) {
            r == Ok::<OtpAccount, AuthError>(
                OtpAccount::FindUser(
                    OtpFindUser {
                        fk: step.fk,
                        token: tokens.access_token,
                        email: step.email,
                    },
                ),
            )
        } else if depends_on_users(config) {
            r == Ok::<OtpAccount, AuthError>(
                OtpAccount::AskForUsers(
                    OtpRegistration {
                        fk: step.fk,
                        token: tokens.access_token,
                        email: step.email,
                    },
                ),
            )
        } else if open_to(config, step.email@, false) {
            r == Ok::<OtpAccount, AuthError>(
                OtpAccount::CreateUser(
                    OtpCreateUser {
                        fk: step.fk,
                        token: tokens.access_token,
                        email: step.email,
                    },
                ),
            )
        } else {
            r matches Err(e) && registration_refused(e)
        },
    }
}

impl<'a> OtpToken<'a> {
    /// A pending registration creates the account, after the allowlist is asked once more: this
    /// is the step that provisions it. Else the account must exist.
    pub fn resume(
        self,
        auth_config: &AuthConfig,
        session: &LoginSession,
        answer: AuthResult<OidcTokenResponse>,
    ) -> (r: AuthResult<OtpAccount<'a>>)
        ensures
            account_sourced(self, *auth_config, *session, answer, r),
    {
        let token = match service_token(answer) {
            Ok(token) => token,
            Err(e) => {
                return Err(e);
            },
        };
        let deferred = match load_deferred(session) {
            Ok(b) => b,
            Err(e) => {
                return Err(e);
            },
        };
        if !deferred {
            return Ok(OtpAccount::FindUser(OtpFindUser { fk: self.fk, token, email: self.email }));
        }
        match registration_allowed(auth_config, self.email.as_str()) {
            RegistrationGate::AskForUsers => Ok(
                OtpAccount::AskForUsers(
                    OtpRegistration { fk: self.fk, token, email: self.email },
                ),
            ),
            RegistrationGate::Decided(allowed) => {
                assert(allowed == open_to(*auth_config, self.email@, false));
                if !allowed {
                    return Err(unauthorized("Registration is not open for this address"));
                }
                Ok(
                    OtpAccount::CreateUser(
                        OtpCreateUser { fk: self.fk, token, email: self.email },
                    ),
                )
            },
        }
    }
}

/// `r` creates the account of `step`, where the allowlist is open to its address.
pub open spec fn first_account_decided(
    step: OtpRegistration,
    config: AuthConfig,
    has_users: AuthResult<bool>,
    r: AuthResult<OtpCreateUser>,
) -> bool {
    match has_users {
        Err(e) => r == Err::<OtpCreateUser, AuthError>(e),
        Ok(any) => if open_to(config, step.email@, any) {
            r == Ok::<OtpCreateUser, AuthError>(
                OtpCreateUser { fk: step.fk, token: step.token, email: step.email },
            )
        } else {
            r matches Err(e) && registration_refused(e)
        },
    }
}

impl<'a> OtpRegistration<'a> {
    /// Without an allowlist the first account is created, and none after it.
    pub fn resume(self, auth_config: &AuthConfig, has_users: AuthResult<bool>) -> (r: AuthResult<
        OtpCreateUser<'a>,
    >)
        ensures
            first_account_decided(self, *auth_config, has_users, r),
    {
        match has_users {
            Err(e) => Err(e),
            Ok(any) => {
                if !registration_allowed_given(auth_config, self.email.as_str(), any) {
                    return Err(unauthorized("Registration is not open for this address"));
                }
                Ok(OtpCreateUser { fk: self.fk, token: self.token, email: self.email })
            },
        }
    }
}

impl<'a> OtpCreateUser<'a> {
    /// Look at the credentials of the user that came back.
    pub fn resume(self, created: AuthResult<FerrisKeyUser>) -> (r: AuthResult<OtpCredentials<'a>>)
        ensures
            match created {
                Err(e) => r == Err::<OtpCredentials, AuthError>(e),
                Ok(user) => r == Ok::<OtpCredentials, AuthError>(
                    OtpCredentials {
                        fk: self.fk,
                        token: self.token,
                        user,
                        email: self.email,
                        deferred: true,
                    },
                ),
            },
    {
        match created {
            Err(e) => Err(e),
            Ok(user) => Ok(
                OtpCredentials {
                    fk: self.fk,
                    token: self.token,
                    user,
                    email: self.email,
                    deferred: true,
                },
            ),
        }
    }
}

impl<'a> OtpFindUser<'a> {
    /// Look at the credentials of the user that was found.
    pub fn resume(self, found: AuthResult<Option<FerrisKeyUser>>) -> (r: AuthResult<
        OtpCredentials<'a>,
    >)
        ensures
            match found {
                Err(e) => r == Err::<OtpCredentials, AuthError>(e),
                Ok(Some(user)) => r == Ok::<OtpCredentials, AuthError>(
                    OtpCredentials {
                        fk: self.fk,
                        token: self.token,
                        user,
                        email: self.email,
                        deferred: false,
                    },
                ),
                Ok(None) => r matches Err(e) && e.server_state(
                    "OTP-verified user '"@ + self.email@ + "' not found in FerrisKey"@,
                ),
            },
    {
        match found {
            Err(e) => Err(e),
            Ok(Some(user)) => Ok(
                OtpCredentials {
                    fk: self.fk,
                    token: self.token,
                    user,
                    email: self.email,
                    deferred: false,
                },
            ),
            Ok(None) => Err(
                server_state(
                    join3(
                        "OTP-verified user '",
                        self.email.as_str(),
                        "' not found in FerrisKey",
                    ).as_str(),
                ),
            ),
        }
    }
}

/// `r` logs in the provider's user `user` whose address `email` a code has proven.
pub open spec fn otp_login_of(user: FerrisKeyUser, email: String, r: AuthResult<LookupUser>) -> bool {
    if user.enabled {
        r == Ok::<LookupUser, AuthError>(
            LookupUser {
                info: AuthUserInfo {
                    sub: user.id,
                    nickname: None,
                    name: if user.firstname@.len() == 0 {
                        None
                    } else {
                        Some(user.firstname)
                    },
                    email,
                    email_verified: true,
                    picture: None,
                    preferred_username: Some(email),
                },
            },
        )
    } else {
        r matches Err(e) && e.unauthorized("This account is disabled"@)
    }
}

fn otp_login(user: FerrisKeyUser, email: String) -> (r: AuthResult<LookupUser>)
    ensures
        otp_login_of(user, email, r),
{
    if !user.enabled {
        return Err(unauthorized("This account is disabled"));
    }
    let name = if user.firstname.as_str().is_empty() {
        None
    } else {
        Some(user.firstname)
    };
    Ok(
        finalize_login(
            AuthUserInfo {
                sub: user.id,
                nickname: None,
                name,
                email: email.clone(),
                email_verified: true,
                picture: None,
                preferred_username: Some(email),
            },
        ),
    )
}

/// `r` is what follows the look at the credentials of `step`, and `after` the session that it
/// leaves.
pub open spec fn credentials_answered(
    step: OtpCredentials,
    before: LoginSession,
    after: LoginSession,
    credentials: AuthResult<Vec<CredentialKind>>,
    r: AuthResult<AfterOtpCredentials>,
) -> bool {
    match credentials {
        Err(_) => {
            &&& after == before
            &&& r matches Err(e) && e.server_state("Unable to inspect user credentials"@)
        },
        Ok(kinds) => if kinds@.len() > 0 {
            &&& after == before
            &&& r matches Err(e) && e.unauthorized(
                "Email code login is not available for this account"@,
            )
        } else if step.deferred && before.deferred_new_user is Unreadable {
            &&& after == before.without(SessionKey::DeferredNewUser)
            &&& r == Err::<AfterOtpCredentials, AuthError>(AuthError::SessionError)
        } else {
            &&& after == (if step.deferred {
                before.without(SessionKey::DeferredNewUser)
            } else {
                before
            })
            &&& if !step.deferred && !step.user.email_verified {
                r == Ok::<AfterOtpCredentials, AuthError>(
                    AfterOtpCredentials::SetEmailVerified(
                        SetEmailVerified {
                            fk: step.fk,
                            token: step.token,
                            user: step.user,
                            email: step.email,
                        },
                    ),
                )
            } else {
                match r {
                    Ok(AfterOtpCredentials::LookupUser(next)) => otp_login_of(
                        step.user,
                        step.email,
                        Ok::<LookupUser, AuthError>(next),
                    ),
                    Ok(_) => false,
                    Err(e) => otp_login_of(
                        step.user,
                        step.email,
                        Err::<LookupUser, AuthError>(e),
                    ),
                }
            }
        },
    }
}

impl<'a> OtpCredentials<'a> {
    /// A code logs in accounts without any credential at the provider, and no others.
    pub fn resume(
        self,
        session: &mut LoginSession,
        credentials: AuthResult<Vec<CredentialKind>>,
    ) -> (r: AuthResult<AfterOtpCredentials<'a>>)
        ensures
            credentials_answered(self, *old(session), *final(session), credentials, r),
            r matches Ok(AfterOtpCredentials::LookupUser(step)) ==> self.user.enabled
                && step.info.sub == self.user.id && step.info.email == self.email
                && step.info.email_verified,
            credentials is Ok && credentials->Ok_0@.len() == 0 && !(self.deferred && old(
                session,
            ).deferred_new_user is Unreadable) ==> (r matches Err(e) ==> !self.user.enabled
                && e.unauthorized("This account is disabled"@)),
    {
        let kinds = match credentials {
            Ok(kinds) => kinds,
            Err(_) => {
                return Err(server_state("Unable to inspect user credentials"));
            },
        };
        if kinds.len() > 0 {
            return Err(unauthorized("Email code login is not available for this account"));
        }
        if self.deferred {
            if let Err(e) = session.remove(SessionKey::DeferredNewUser) {
                return Err(e);
            }
        } else if !self.user.email_verified {
            return Ok(
                AfterOtpCredentials::SetEmailVerified(
                    SetEmailVerified {
                        fk: self.fk,
                        token: self.token,
                        user: self.user,
                        email: self.email,
                    },
                ),
            );
        }
        match otp_login(self.user, self.email) {
            Ok(step) => Ok(AfterOtpCredentials::LookupUser(step)),
            Err(e) => Err(e),
        }
    }
}

/// `r` is what follows once the address of `step` was marked as verified, or could not be.
pub open spec fn address_marked(
    step: SetEmailVerified,
    outcome: AuthResult<()>,
    r: AuthResult<LookupUser>,
) -> bool {
    match outcome {
        Err(e) => r == Err::<LookupUser, AuthError>(e),
        Ok(_) => otp_login_of(step.user, step.email, r),
    }
}

impl<'a> SetEmailVerified<'a> {
    /// Log the user in once the provider knows that the address is verified.
    pub fn resume(self, outcome: AuthResult<()>) -> (r: AuthResult<LookupUser>)
        ensures
            address_marked(self, outcome, r),
            outcome is Ok ==> (r is Ok <==> self.user.enabled),
            r matches Ok(step) ==> step.info.sub == self.user.id && step.info.email == self.email
                && step.info.email_verified,
    {
        match outcome {
            Err(e) => Err(e),
            Ok(_) => otp_login(self.user, self.email),
        }
    }
}

// ── Finalize login ──────────────────────────────────────────────────
/// Find the application's account of this user, or create it.
#[derive(Debug)]
pub struct LookupUser {
    pub info: AuthUserInfo,
}

/// Decide where the user goes after login.
#[derive(Debug)]
pub struct PostLoginRedirect {
    pub user: AuthUser,
}

/// Whether the user has still to accept the current terms of service.
pub open spec fn needs_tos(user: AuthUser) -> bool {
    match user.tos_acceptance {
        Some(acceptance) => acceptance.latest_version@ != TOS_VERSION@ || !acceptance.accepted,
        None => true,
    }
}

/// Whether the user has still to accept the current terms of service.
pub fn needs_tos_acceptance(user: &AuthUser) -> (r: bool)
    ensures
        r == needs_tos(*user),
{
    match &user.tos_acceptance {
        Some(acceptance) => !same_text(acceptance.latest_version.as_str(), TOS_VERSION)
            || !acceptance.accepted,
        None => true,
    }
}

/// The keys that a finished login leaves nothing under, in the order of their removal.
pub open spec fn login_keys() -> Seq<SessionKey> {
    seq![
        SessionKey::Flow,
        SessionKey::LoginEmail,
        SessionKey::FerrisKeyUserId,
        SessionKey::OtpCode,
        SessionKey::OtpEmail,
        SessionKey::OtpExpiresAt,
        SessionKey::OtpPurpose,
        SessionKey::OtpAttempts,
        SessionKey::OtpLastSentAt,
        SessionKey::OtpResendCount,
        SessionKey::DeferredNewUser,
        SessionKey::PasswordAttempts,
    ]
}

/// Log in the user that an authentication has named.
pub fn finalize_login(info: AuthUserInfo) -> (r: LookupUser)
    ensures
        r.info == info,
{
    LookupUser { info }
}

/// `r` opens the session of the account that was found for `step`.
pub open spec fn account_resolved(
    step: LookupUser,
    found: AuthResult<AuthUser>,
    r: AuthResult<CycleId>,
) -> bool {
    match found {
        Err(e) => r == Err::<CycleId, AuthError>(e),
        Ok(user) => {
            &&& r matches Ok(next)
            &&& next.user == user
            &&& session_data_of(next.data, user, step.info.email@, "ferriskey_login"@)
            &&& next.data.id@ == user.id@
            &&& next.data.sub@ == user.sub@
            &&& next.data.email@ == user.email@
        },
    }
}

impl LookupUser {
    /// The session gets a new id before it becomes an authenticated one.
    pub fn resume(self, found: AuthResult<AuthUser>) -> (r: AuthResult<CycleId>)
        ensures
            account_resolved(self, found, r),
            r matches Ok(step) ==> (found matches Ok(user) && step.data.id@ == user.id@
                && step.data.sub@ == user.sub@ && step.data.email@ == user.email@),
    {
        match found {
            Err(e) => Err(e),
            Ok(user) => Ok(open_session(user, self.info.email.as_str(), "ferriskey_login")),
        }
    }
}

/// Remove the temporary login state, whether or not the login could be recorded.
pub fn login_recorded(
    record: RecordLogin,
    session: &mut LoginSession,
    recorded: AuthResult<()>,
) -> (r: AuthResult<PostLoginRedirect>)
    ensures
        *final(session) == removal(*old(session), login_keys()).0,
        r == (if removal(*old(session), login_keys()).1 {
            Ok::<PostLoginRedirect, AuthError>(PostLoginRedirect { user: record.user })
        } else {
            Err(AuthError::SessionError)
        }),
{
    let keys = [
        SessionKey::Flow,
        SessionKey::LoginEmail,
        SessionKey::FerrisKeyUserId,
        SessionKey::OtpCode,
        SessionKey::OtpEmail,
        SessionKey::OtpExpiresAt,
        SessionKey::OtpPurpose,
        SessionKey::OtpAttempts,
        SessionKey::OtpLastSentAt,
        SessionKey::OtpResendCount,
        SessionKey::DeferredNewUser,
        SessionKey::PasswordAttempts,
    ];
    assert(keys@ =~= login_keys());
    match session.remove_each(keys.as_slice()) {
        Ok(_) => Ok(PostLoginRedirect { user: record.user }),
        Err(e) => Err(e),
    }
}

/// `r` sends the user of `step` on, or asks for the terms of service first.
pub open spec fn destination_decided(
    step: PostLoginRedirect,
    before: LoginSession,
    after: LoginSession,
    decided: AuthResult<String>,
    r: AuthResult<VerifyResponse>,
) -> bool {
    match decided {
        Err(e) => r == Err::<VerifyResponse, AuthError>(e) && after == before,
        Ok(url) => {
            &&& r matches Ok(reply) && reply.logs_in(needs_tos(step.user), url)
            &&& after == (if needs_tos(step.user) {
                LoginSession { tos_pending_redirect: Stored::Value(url), ..before }
            } else {
                before
            })
        },
    }
}

impl PostLoginRedirect {
    /// Send the user on, or keep the destination until the terms of service are accepted.
    pub fn resume(self, session: &mut LoginSession, decided: AuthResult<String>) -> (r: AuthResult<
        VerifyResponse,
    >)
        ensures
            destination_decided(self, *old(session), *final(session), decided, r),
    {
        match decided {
            Err(e) => Err(e),
            Ok(url) => {
                let needs = needs_tos_acceptance(&self.user);
                if needs {
                    session.tos_pending_redirect = Stored::Value(url);
                    Ok(
                        VerifyResponse {
                            success: true,
                            redirect_url: None,
                            needs_tos_acceptance: Some(true),
                            error: None,
                            retry_after_seconds: None,
                        },
                    )
                } else {
                    Ok(
                        VerifyResponse {
                            success: true,
                            redirect_url: Some(url),
                            needs_tos_acceptance: None,
                            error: None,
                            retry_after_seconds: None,
                        },
                    )
                }
            },
        }
    }
}

// ── POST /auth/session/otp/resend ───────────────────────────────────
/// What a request for another code is answered.
#[derive(Debug)]
pub enum ResendNext {
    MintOtp(OtpIssue<VerifyResponse>),
    Reply(VerifyResponse),
}

/// What a user is told who has to wait.
pub open spec fn wait_message(left: i64) -> Seq<char> {
    "Please wait "@ + decimal(left as nat) + " seconds before requesting a new code."@
}

impl VerifyResponse {
    /// A refusal until `left` seconds have passed.
    pub open spec fn cools_down(self, left: i64) -> bool {
        &&& !self.success
        &&& self.redirect_url is None
        &&& self.needs_tos_acceptance is None
        &&& self.error matches Some(m) && m@ == wait_message(left)
        &&& self.retry_after_seconds == Some(left)
    }

    /// Another code is in the mail, and the next one can be had after the cooldown.
    pub open spec fn says_resent(self) -> bool {
        &&& self.success
        &&& self.redirect_url is None
        &&& self.needs_tos_acceptance is None
        &&& self.error is None
        &&& self.retry_after_seconds == Some(RESEND_COOLDOWN_SECONDS)
    }
}

/// The text for a user who has to wait.
pub(crate) fn wait_text(left: i64) -> (r: String)
    requires
        left > 0,
    ensures
        r@ == wait_message(left),
{
    join3(
        "Please wait ",
        decimal_text(left as u64).as_str(),
        " seconds before requesting a new code.",
    )
}

/// The purpose of the code in flight, which another code keeps.
pub open spec fn purpose_of(s: LoginSession) -> Seq<char> {
    match s.otp_purpose {
        Stored::Value(purpose) => purpose@,
        _ => LOGIN_PURPOSE@,
    }
}

/// The purpose of the code in flight.
pub(crate) fn load_purpose(session: &LoginSession) -> (r: AuthResult<String>)
    ensures
        match r {
            Ok(purpose) => !(session.otp_purpose is Unreadable) && purpose@ == purpose_of(
                *session,
            ),
            Err(e) => session.otp_purpose is Unreadable && e == AuthError::SessionError,
        },
{
    match session.otp_purpose.read() {
        Ok(Some(purpose)) => Ok(purpose.clone()),
        Ok(None) => Ok(LOGIN_PURPOSE.to_owned()),
        Err(e) => Err(e),
    }
}

/// Whether a login was started and a code was sent for it, so that the throttle is asked about
/// another one.
pub open spec fn code_in_flight(s: LoginSession) -> bool {
    s.login_email is Value && s.otp_code is Value
}

/// `r` is what a request for another code at `now` is answered.
pub open spec fn resend_answered(s: LoginSession, now: i64, r: AuthResult<ResendNext>) -> bool {
    match s.login_email {
        Stored::Unreadable => r == Err::<ResendNext, AuthError>(AuthError::SessionError),
        Stored::Missing => r matches Err(e) && e.bad_request("No login session in progress"@),
        Stored::Value(email) => match s.otp_code {
            Stored::Unreadable => r == Err::<ResendNext, AuthError>(AuthError::SessionError),
            Stored::Missing => r matches Err(e) && e.bad_request(
                "No verification code in progress"@,
            ),
            Stored::Value(_) => match throttle(s, now) {
                Err(e) => r == Err::<ResendNext, AuthError>(e),
                Ok(ResendThrottle::CapReached) => r matches Ok(ResendNext::Reply(reply))
                    && reply.refuses(
                    "Maximum resend attempts reached. Please start a new login."@,
                ),
                Ok(ResendThrottle::CoolingDown(left)) => r matches Ok(ResendNext::Reply(reply))
                    && reply.cools_down(left),
                Ok(ResendThrottle::Open) => if s.otp_purpose is Unreadable {
                    r == Err::<ResendNext, AuthError>(AuthError::SessionError)
                } else {
                    &&& r matches Ok(ResendNext::MintOtp(issue))
                    &&& issue.email == email
                    &&& issue.purpose@ == purpose_of(s)
                    &&& issue.reply.says_resent()
                },
            },
        },
    }
}

/// Ask for another code at `now`. It needs one that was sent already: where the first code is
/// withheld until a captcha is solved, this is no way around it.
pub fn resend_otp_at(session: &LoginSession, now: i64) -> (r: AuthResult<ResendNext>)
    requires
        clock_reading(now),
        code_in_flight(*session) ==> cooldown_computable(*session),
    ensures
        resend_answered(*session, now, r),
{
    let email = match load_login_email(session) {
        Ok(email) => email,
        Err(e) => {
            return Err(e);
        },
    };
    match session.otp_code.read() {
        Ok(Some(_)) => {},
        Ok(None) => {
            return Err(bad_request("No verification code in progress"));
        },
        Err(e) => {
            return Err(e);
        },
    }
    match resend_throttle_at(session, now) {
        Err(e) => Err(e),
        Ok(ResendThrottle::CapReached) => Ok(
            ResendNext::Reply(
                VerifyResponse::failed(
                    "Maximum resend attempts reached. Please start a new login.",
                ),
            ),
        ),
        Ok(ResendThrottle::CoolingDown(left)) => {
            let message = wait_text(left);
            let mut reply = VerifyResponse::failed(message.as_str());
            reply.retry_after_seconds = Some(left);
            Ok(ResendNext::Reply(reply))
        },
        Ok(ResendThrottle::Open) => match load_purpose(session) {
            Err(e) => Err(e),
            Ok(purpose) => Ok(
                ResendNext::MintOtp(
                    OtpIssue {
                        email,
                        purpose,
                        reply: VerifyResponse {
                            success: true,
                            redirect_url: None,
                            needs_tos_acceptance: None,
                            error: None,
                            retry_after_seconds: Some(RESEND_COOLDOWN_SECONDS),
                        },
                    },
                ),
            ),
        },
    }
}

/// [`resend_otp_at`] by the system clock.
pub fn resend_otp_handler(session: &LoginSession) -> (r: AuthResult<ResendNext>)
    requires
        code_in_flight(*session) ==> cooldown_computable(*session),
    ensures
        exists|now: i64| #[trigger] clock_reading(now) && resend_answered(*session, now, r),
{
    let now: i64 = utc_now();
    resend_otp_at(session, now)
}

// ── POST /auth/session/captcha/verify ───────────────────────────────
/// Read the captcha settings from the environment.
#[derive(Debug)]
pub struct CaptchaCheck {
    pub captcha_token: Option<String>,
}

/// What a submitted captcha token leads to.
#[derive(Debug)]
pub enum CaptchaNext {
    Verify(CaptchaRequest),
    Reply(CaptchaVerifyResponse),
}

/// What follows the captcha server's answer.
#[derive(Debug)]
pub enum AfterCaptcha {
    MintOtp(OtpIssue<CaptchaVerifyResponse>),
    Reply(CaptchaVerifyResponse),
}

/// Submit a captcha token for a pending registration.
pub fn verify_captcha_handler(session: &LoginSession, req: VerifyCaptchaRequest) -> (r: AuthResult<
    CaptchaCheck,
>)
    ensures
        if session.deferred_new_user is Unreadable {
            r == Err::<CaptchaCheck, AuthError>(AuthError::SessionError)
        } else if is_deferred(*session) {
            r == Ok::<CaptchaCheck, AuthError>(CaptchaCheck { captcha_token: req.captcha_token })
        } else {
            r matches Err(e) && e.bad_request("No pending registration session"@)
        },
{
    match load_deferred(session) {
        Err(e) => Err(e),
        Ok(true) => Ok(CaptchaCheck { captcha_token: req.captcha_token }),
        Ok(false) => Err(bad_request("No pending registration session")),
    }
}

/// `r` asks the captcha server of `env` about `token`, where both are there.
pub open spec fn captcha_asked(
    env: CaptchaEnv,
    token: Option<String>,
    r: AuthResult<CaptchaNext>,
) -> bool {
    if !captcha_configured(env) {
        r matches Err(e) && e.bad_request("No captcha is configured for this deployment"@)
    } else {
        match token {
            Some(t) if t@.len() > 0 => {
                &&& r matches Ok(CaptchaNext::Verify(request))
                &&& request.url@ == captcha_verify_url(env.server_url->Some_0@)
                &&& request.bearer == env.secret_key->Some_0
                &&& request.token == t
            },
            _ => r matches Ok(CaptchaNext::Reply(reply)) && reply.refuses(
                "Verification token missing. Please try again."@,
            ),
        }
    }
}

impl CaptchaCheck {
    /// Have the token verified, where there is one and a server to ask.
    pub fn resume(self, env: CaptchaEnv) -> (r: AuthResult<CaptchaNext>)
        ensures
            captcha_asked(env, self.captcha_token, r),
    {
        let cfg = match captcha_cfg(env) {
            Some(cfg) => cfg,
            None => {
                return Err(bad_request("No captcha is configured for this deployment"));
            },
        };
        match self.captcha_token {
            Some(token) => {
                if token.as_str().is_empty() {
                    return Ok(
                        CaptchaNext::Reply(
                            CaptchaVerifyResponse::rejected(
                                "Verification token missing. Please try again.",
                            ),
                        ),
                    );
                }
                Ok(CaptchaNext::Verify(captcha_request(cfg, token)))
            },
            None => Ok(
                CaptchaNext::Reply(
                    CaptchaVerifyResponse::rejected(
                        "Verification token missing. Please try again.",
                    ),
                ),
            ),
        }
    }
}

/// `r` mails the withheld code to the address of the pending registration.
pub open spec fn withheld_code_sent(s: LoginSession, r: AuthResult<AfterCaptcha>) -> bool {
    match s.login_email {
        Stored::Unreadable => r == Err::<AfterCaptcha, AuthError>(AuthError::SessionError),
        Stored::Missing => r matches Err(e) && e.server_state("Missing login email"@),
        Stored::Value(email) => {
            &&& r matches Ok(AfterCaptcha::MintOtp(issue))
            &&& issue.email == email
            &&& issue.purpose@ == LOGIN_PURPOSE@
            &&& issue.reply.passes()
        },
    }
}

/// `r` is what the captcha server's answer leads to, where it gave one.
pub open spec fn captcha_concluded(
    s: LoginSession,
    answer: Option<CaptchaAnswer>,
    r: AuthResult<AfterCaptcha>,
) -> bool {
    match answer {
        None => r matches Err(e) && e.server_state("captcha verify request failed"@),
        Some(a) => if captcha_passed(a) {
            withheld_code_sent(s, r)
        } else {
            r matches Ok(AfterCaptcha::Reply(reply)) && reply.refuses(
                "Verification failed. Please try again."@,
            )
        },
    }
}

/// Send the withheld code once the captcha server has let the token pass: a rejection and a
/// server that does not answer both block the registration.
pub fn captcha_answered(session: &LoginSession, answer: Option<CaptchaAnswer>) -> (r: AuthResult<
    AfterCaptcha,
>)
    ensures
        captcha_concluded(*session, answer, r),
{
    match verify_captcha_token(answer) {
        Err(e) => Err(e),
        Ok(false) => Ok(
            AfterCaptcha::Reply(
                CaptchaVerifyResponse::rejected("Verification failed. Please try again."),
            ),
        ),
        Ok(true) => match session.login_email.read() {
            Err(e) => Err(e),
            Ok(None) => Err(server_state("Missing login email")),
            Ok(Some(email)) => Ok(
                AfterCaptcha::MintOtp(
                    OtpIssue {
                        email: email.clone(),
                        purpose: LOGIN_PURPOSE.to_owned(),
                        reply: CaptchaVerifyResponse { success: true, otp_sent: true, error: None },
                    },
                ),
            ),
        },
    }
}

// ── POST /auth/session/accept-tos ───────────────────────────────────
/// Record that the account has accepted the terms of service.
#[derive(Debug)]
pub struct UpdateTos {
    pub user_id: String,
    pub acceptance: AuthTosAcceptance,
}

/// Accept the terms of service.
pub fn accept_tos_handler(user: Option<LoggedInData>) -> (r: AuthResult<UpdateTos>)
    ensures
        match user {
            None => r == Err::<UpdateTos, AuthError>(AuthError::UserNotLoggedIn),
            Some(data) => {
                &&& r matches Ok(step)
                &&& step.user_id == data.id
                &&& step.acceptance.latest_version@ == TOS_VERSION@
                &&& step.acceptance.accepted
            },
        },
{
    match user {
        None => Err(AuthError::UserNotLoggedIn),
        Some(data) => Ok(
            UpdateTos {
                user_id: data.id,
                acceptance: AuthTosAcceptance {
                    latest_version: TOS_VERSION.to_owned(),
                    accepted: true,
                },
            },
        ),
    }
}

/// Where a user goes whose login waited for the terms of service.
pub open spec fn pending_redirect(s: LoginSession) -> Seq<char> {
    match s.tos_pending_redirect {
        Stored::Value(url) => url@,
        _ => "/dashboard"@,
    }
}

/// `r` is what follows once the acceptance of the terms is saved.
pub open spec fn terms_saved(
    before: LoginSession,
    after: LoginSession,
    outcome: AuthResult<()>,
    r: AuthResult<VerifyResponse>,
) -> bool {
    match outcome {
        Err(_) => {
            &&& after == before
            &&& r matches Err(e) && e.server_state("Failed to save TOS acceptance"@)
        },
        Ok(_) => {
            &&& after == before.without(SessionKey::TosPendingRedirect)
            &&& if before.tos_pending_redirect is Unreadable {
                r == Err::<VerifyResponse, AuthError>(AuthError::SessionError)
            } else {
                &&& r matches Ok(reply)
                &&& reply.redirect_url matches Some(url) && url@ == pending_redirect(
                    before,
                ) && reply.logs_in(false, url)
            }
        },
    }
}

impl UpdateTos {
    /// Send the user on to where the login was going.
    pub fn resume(self, session: &mut LoginSession, outcome: AuthResult<()>) -> (r: AuthResult<
        VerifyResponse,
    >)
        ensures
            terms_saved(*old(session), *final(session), outcome, r),
    {
        if let Err(_) = outcome {
            return Err(server_state("Failed to save TOS acceptance"));
        }
        let redirect_url = match session.tos_pending_redirect.read() {
            Ok(Some(url)) => url.clone(),
            _ => "/dashboard".to_owned(),
        };
        match session.remove(SessionKey::TosPendingRedirect) {
            Err(e) => Err(e),
            Ok(_) => Ok(
                VerifyResponse {
                    success: true,
                    redirect_url: Some(redirect_url),
                    needs_tos_acceptance: None,
                    error: None,
                    retry_after_seconds: None,
                },
            ),
        }
    }
}

} // verus!
