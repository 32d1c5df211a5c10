//! The self-owned login flow. There is no identity provider and no password.
//!
//! * **Email code**: for sign-in and sign-up. A verified code for an unknown address creates
//!   the account, behind the registration allowlist and, where one is configured, a captcha.
//! * **Passkey**: the application is its own WebAuthn Relying Party. [`start_session`] hands
//!   request options to a browser whose account has passkeys; [`verify_passkey_handler`] checks
//!   the assertion.
//!
//! The code stays reachable where a passkey ceremony is cancelled or fails.

use vstd::prelude::*;
use vstd::utf8::encode_utf8;

use crate::config::AuthConfig;
use crate::error::{bad_request, server_state, unauthorized, AuthError, AuthResult};
use crate::handlers::opening::{open_session, session_data_of, CycleId, RecordLogin};
use crate::handlers::otp::{
    captcha_cfg, captcha_configured, captcha_passed, clear_otp_state, cooldown_computable,
    otp_cleared, resend_throttle_at, throttle, verify_captcha_token, verify_otp_guarded,
    CaptchaAnswer, CaptchaEnv, OtpChecked, OtpIssue, ResendThrottle, LOGIN_PURPOSE,
    RESEND_COOLDOWN_SECONDS,
};
use crate::handlers::registration::{
    depends_on_users, open_to, registration_allowed, registration_allowed_given, RegistrationGate,
};
use crate::handlers::session_auth::{
    code_in_flight, load_login_email, load_purpose, purpose_of, registration_refused, wait_message,
    wait_text, withheld_code_sent,
};
use crate::interop::{
    base64url, clock_reading, encode_base64url, fits_base64url, json_string_at,
    nested_string_member, string_member, utc_now,
};
use crate::session::{removal, LoginSession, SessionKey, Stored};
use crate::text::{join, lowercased, same_text, trimmed};
use crate::types::{AssertionOutcome, AuthUser, NewAuthUser, StoredPasskey};

pub use crate::handlers::session_auth::{
    AfterCaptcha, CaptchaCheck, CaptchaNext, CaptchaVerifyResponse, CheckOtp, StartSessionRequest,
    VerifyCaptchaRequest, VerifyOtpRequest, VerifyPasskeyRequest,
};

verus! {

/// Whether passkeys log in. Switched off, a login degrades to the email code.
pub const PASSKEY_LOGIN_ENABLED: bool = true;

/// Of how many random bytes the subject of a new account is made.
pub const SUBJECT_TOKEN_BYTES: usize = 16;

// ── Responses ───────────────────────────────────────────────────────
#[derive(Debug)]
pub struct StartSessionResponse {
    pub public_key_options: Option<serde_json::Value>,
    pub otp_sent: bool,
    pub is_new_user: bool,
    pub has_passkeys: bool,
    pub captcha_required: Option<bool>,
    /// Set, with the site key, where a registration is gated by a captcha. Both are public.
    pub captcha_server_url: Option<String>,
    pub captcha_site_key: Option<String>,
}

#[derive(Debug)]
pub struct VerifyResponse {
    pub success: bool,
    pub redirect_url: Option<String>,
    pub error: Option<String>,
    pub retry_after_seconds: Option<i64>,
    /// `Some(true)` after a login to an account without passkeys: the page may offer to enroll
    /// one.
    pub offer_passkey: Option<bool>,
}

/// How a login ends.
#[derive(Debug)]
pub struct FinalizeResult {
    pub redirect_url: String,
    /// The account has no passkey yet.
    pub offer_passkey: bool,
}

impl StartSessionResponse {
    /// A code is in the mail.
    pub open spec fn says_otp_sent(is_new_user: bool, has_passkeys: bool) -> Self {
        StartSessionResponse {
            public_key_options: None,
            otp_sent: true,
            is_new_user,
            has_passkeys,
            captcha_required: None,
            captcha_server_url: None,
            captcha_site_key: None,
        }
    }

    /// Answer a passkey challenge with these options.
    pub open spec fn offers_passkey(options: serde_json::Value) -> Self {
        StartSessionResponse {
            public_key_options: Some(options),
            otp_sent: false,
            is_new_user: false,
            has_passkeys: true,
            captcha_required: None,
            captcha_server_url: None,
            captcha_site_key: None,
        }
    }

    /// Solve the captcha first.
    pub open spec fn asks_captcha(server_url: String, site_key: String) -> Self {
        StartSessionResponse {
            public_key_options: None,
            otp_sent: false,
            is_new_user: true,
            has_passkeys: false,
            captcha_required: Some(true),
            captcha_server_url: Some(server_url),
            captcha_site_key: Some(site_key),
        }
    }

    /// Say that a code is in the mail.
    pub fn otp_sent(is_new_user: bool, has_passkeys: bool) -> (r: Self)
        ensures
            r == StartSessionResponse::says_otp_sent(is_new_user, has_passkeys),
    {
        StartSessionResponse {
            public_key_options: None,
            otp_sent: true,
            is_new_user,
            has_passkeys,
            captcha_required: None,
            captcha_server_url: None,
            captcha_site_key: None,
        }
    }
}

impl VerifyResponse {
    /// A refusal with this message, to be tried again after `retry_after` where that is known.
    pub open spec fn refuses(self, message: Seq<char>, retry_after: Option<i64>) -> bool {
        &&& !self.success
        &&& self.redirect_url is None
        &&& self.error matches Some(m) && m@ == message
        &&& self.retry_after_seconds == retry_after
        &&& self.offer_passkey is None
    }

    /// A successful login.
    pub open spec fn logs_in(result: FinalizeResult) -> Self {
        VerifyResponse {
            success: true,
            redirect_url: Some(result.redirect_url),
            error: None,
            retry_after_seconds: None,
            offer_passkey: if result.offer_passkey {
                Some(true)
            } else {
                None
            },
        }
    }

    /// Another code is in the mail, and the next one can be had after the cooldown.
    pub open spec fn says_resent() -> Self {
        VerifyResponse {
            success: true,
            redirect_url: None,
            error: None,
            retry_after_seconds: Some(RESEND_COOLDOWN_SECONDS),
            offer_passkey: None,
        }
    }

    /// Refuse with this message.
    pub fn failed(msg: &str) -> (r: Self)
        ensures
            r.refuses(msg@, None),
    {
        VerifyResponse {
            success: false,
            redirect_url: None,
            error: Some(msg.to_owned()),
            retry_after_seconds: None,
            offer_passkey: None,
        }
    }

    /// Say that the login succeeded.
    pub fn logged_in(result: FinalizeResult) -> (r: Self)
        ensures
            r == VerifyResponse::logs_in(result),
    {
        VerifyResponse {
            success: true,
            redirect_url: Some(result.redirect_url),
            error: None,
            retry_after_seconds: None,
            offer_passkey: if result.offer_passkey {
                Some(true)
            } else {
                None
            },
        }
    }
}

// ── Helpers ─────────────────────────────────────────────────────────
/// The Relying Party that was derived from the application's base URL.
pub fn relying_party<P>(derived: Result<P, String>) -> (r: AuthResult<P>)
    ensures
        match derived {
            Ok(rp) => r == Ok::<P, AuthError>(rp),
            Err(message) => r matches Err(e) && e.server_state(
                "BASE_URL invalid for WebAuthn: "@ + message@,
            ),
        },
{
    match derived {
        Ok(rp) => Ok(rp),
        Err(e) => Err(server_state(join("BASE_URL invalid for WebAuthn: ", e.as_str()).as_str())),
    }
}

/// The WebAuthn user handle of an account, as the browser returns it.
pub open spec fn handle_of(user_id: Seq<char>) -> Seq<char> {
    base64url(encode_utf8(user_id))
}

/// The WebAuthn user handle of an account: the base64 of the bytes that enrollment registers,
/// which are the text of the user id. No two accounts share one.
pub fn user_handle(user_id: &str) -> (r: String)
    requires
        fits_base64url(encode_utf8(user_id@)),
    ensures
        r@ == handle_of(user_id@),
        forall|other: Seq<char>| #[trigger] handle_of(other) == r@ ==> other == user_id@,
{
    let bytes = user_id.as_bytes();
    let r = encode_base64url(bytes);
    proof {
        assert forall|other: Seq<char>| #[trigger] handle_of(other) == r@ implies other
            == user_id@ by {
            crate::text::lemma_utf8_is_injective(other, user_id@);
        }
    }
    r
}

/// What an attempt leaves beside the code, in the order of its removal.
pub open spec fn pending_keys() -> Seq<SessionKey> {
    seq![
        SessionKey::LocalDeferredNewUser,
        SessionKey::PasskeyChallenge,
        SessionKey::PasskeyUserId,
    ]
}

/// `s` without the credentials of an earlier attempt, and whether all of them could be removed.
pub open spec fn pending_reset(s: LoginSession) -> (LoginSession, bool) {
    removal(otp_cleared(s), pending_keys())
}

/// Drop the credentials left over from an earlier attempt. The resend throttle stays:
/// restarting the flow must not reset it.
pub fn reset_pending_login_state(session: &mut LoginSession) -> (r: AuthResult<()>)
    ensures
        *final(session) == pending_reset(*old(session)).0,
        match r {
            Ok(_) => pending_reset(*old(session)).1,
            Err(e) => !pending_reset(*old(session)).1 && e == AuthError::SessionError,
        },
{
    clear_otp_state(session);
    let keys = [
        SessionKey::LocalDeferredNewUser,
        SessionKey::PasskeyChallenge,
        SessionKey::PasskeyUserId,
    ];
    assert(keys@ =~= pending_keys());
    session.remove_each(keys.as_slice())
}

/// `r` is what a session is told at `now` that wants another mail: nothing where it may have it.
pub open spec fn throttle_answered(
    s: LoginSession,
    now: i64,
    r: AuthResult<Option<VerifyResponse>>,
) -> bool {
    match throttle(s, now) {
        Err(e) => r == Err::<Option<VerifyResponse>, AuthError>(e),
        Ok(ResendThrottle::Open) => r == Ok::<Option<VerifyResponse>, AuthError>(None),
        Ok(ResendThrottle::CapReached) => r matches Ok(Some(reply)) && reply.refuses(
            "Maximum resend attempts reached. Please start a new login."@,
            None,
        ),
        Ok(ResendThrottle::CoolingDown(left)) => r matches Ok(Some(reply)) && reply.refuses(
            wait_message(left),
            Some(left),
        ),
    }
}

/// The guard of every endpoint that can cause a mail, at `now`: a hard cap and a cooldown.
pub fn resend_throttle_error_at(session: &LoginSession, now: i64) -> (r: AuthResult<
    Option<VerifyResponse>,
>)
    requires
        clock_reading(now),
        cooldown_computable(*session),
    ensures
        throttle_answered(*session, now, r),
{
    match resend_throttle_at(session, now) {
        Err(e) => Err(e),
        Ok(ResendThrottle::Open) => Ok(None),
        Ok(ResendThrottle::CapReached) => Ok(
            Some(
                VerifyResponse::failed(
                    "Maximum resend attempts reached. Please start a new login.",
                ),
            ),
        ),
        Ok(ResendThrottle::CoolingDown(left)) => {
            let message = wait_text(left);
            let mut reply = VerifyResponse::failed(message.as_str());
            reply.retry_after_seconds = Some(left);
            Ok(Some(reply))
        },
    }
}

/// [`resend_throttle_error_at`] by the system clock.
pub fn resend_throttle_error(session: &LoginSession) -> (r: AuthResult<Option<VerifyResponse>>)
    requires
        cooldown_computable(*session),
    ensures
        exists|now: i64| #[trigger] clock_reading(now) && throttle_answered(*session, now, r),
{
    let now: i64 = utc_now();
    resend_throttle_error_at(session, now)
}

/// What a session is told that may not cause another mail at `now`.
pub open spec fn throttle_message(s: LoginSession, now: i64) -> Seq<char> {
    match throttle(s, now) {
        Ok(ResendThrottle::CoolingDown(left)) => wait_message(left),
        _ => "Maximum resend attempts reached. Please start a new login."@,
    }
}

/// Let a session that may cause another mail at `now` pass, and refuse any other one.
fn pass_throttle_at(session: &LoginSession, now: i64) -> (r: AuthResult<()>)
    requires
        clock_reading(now),
        cooldown_computable(*session),
    ensures
        match throttle(*session, now) {
            Err(e) => r == Err::<(), AuthError>(e),
            Ok(ResendThrottle::Open) => r is Ok,
            Ok(_) => r matches Err(e) && e.bad_request(throttle_message(*session, now)),
        },
{
    match resend_throttle_error_at(session, now) {
        Ok(None) => Ok(()),
        Ok(Some(reply)) => {
            let message = match reply.error {
                Some(message) => message,
                None => "Please wait before requesting a code.".to_owned(),
            };
            Err(bad_request(message.as_str()))
        },
        Err(e) => Err(e),
    }
}

/// Whether a registration is pending.
pub open spec fn is_deferred(s: LoginSession) -> bool {
    s.local_deferred_new_user == Stored::Value(true)
}

fn load_deferred(session: &LoginSession) -> (r: AuthResult<bool>)
    ensures
        if session.local_deferred_new_user is Unreadable {
            r == Err::<bool, AuthError>(AuthError::SessionError)
        } else {
            r == Ok::<bool, AuthError>(is_deferred(*session))
        },
{
    match session.local_deferred_new_user.read() {
        Ok(Some(b)) => Ok(*b),
        Ok(None) => Ok(false),
        Err(e) => Err(e),
    }
}

// ── Accounts ────────────────────────────────────────────────────────
/// Look the proven address up in the user store.
#[derive(Debug)]
pub struct FindAccount {
    pub email: String,
}

/// Ask the user store whether any user exists.
#[derive(Debug)]
pub struct AccountRegistration {
    pub email: String,
}

/// Mint a subject from [`SUBJECT_TOKEN_BYTES`] random bytes.
#[derive(Debug)]
pub struct MintSubject {
    pub email: String,
}

/// Create the account.
#[derive(Debug)]
pub struct CreateAccount {
    pub new_user: NewAuthUser,
}

/// Create the personal organization of the new account.
#[derive(Debug)]
pub struct CreateOrganization {
    pub user: AuthUser,
    pub email: String,
}

/// Where the account of a proven address comes from.
#[derive(Debug)]
pub enum AccountNext {
    Found(AuthUser),
    AskForUsers(AccountRegistration),
    MintSubject(MintSubject),
}

/// Find the account of an address whose ownership was just proven, or create it. The address
/// is the identity: an existing account is taken as it is, its subject included.
pub fn resolve_or_create_account(email: String) -> (r: FindAccount)
    ensures
        r.email == email,
{
    FindAccount { email }
}

/// `r` is where the account of the address of `step` comes from.
pub open spec fn account_looked_up(
    step: FindAccount,
    config: AuthConfig,
    found: AuthResult<Option<AuthUser>>,
    r: AuthResult<AccountNext>,
) -> bool {
    match found {
        Err(e) => r == Err::<AccountNext, AuthError>(e),
        Ok(Some(user)) => r == Ok::<AccountNext, AuthError>(AccountNext::Found(user)),
        Ok(None) => if depends_on_users(config) {
            r == Ok::<AccountNext, AuthError>(
                AccountNext::AskForUsers(AccountRegistration { email: step.email }),
            )
        } else if open_to(config, step.email@, false) {
            r == Ok::<AccountNext, AuthError>(
                AccountNext::MintSubject(MintSubject { email: step.email }),
            )
        } else {
            r matches Err(e) && registration_refused(e)
        },
    }
}

impl FindAccount {
    /// An unknown address registers, where the allowlist is open to it. This is the step that
    /// provisions accounts, so it does not rely on an earlier look at the allowlist.
    pub fn resume(self, auth_config: &AuthConfig, found: AuthResult<Option<AuthUser>>) -> (r:
        AuthResult<AccountNext>)
        ensures
            account_looked_up(self, *auth_config, found, r),
    {
        match found {
            Err(e) => Err(e),
            Ok(Some(user)) => Ok(AccountNext::Found(user)),
            Ok(None) => match registration_allowed(auth_config, self.email.as_str()) {
                RegistrationGate::AskForUsers => Ok(
                    AccountNext::AskForUsers(AccountRegistration { email: self.email }),
                ),
                RegistrationGate::Decided(allowed) => {
                    assert(allowed == open_to(*auth_config, self.email@, false));
                    if !allowed {
                        return Err(unauthorized("Registration is not open for this address"));
                    }
                    Ok(AccountNext::MintSubject(MintSubject { email: self.email }))
                },
            },
        }
    }
}

/// `r` goes on to create the account of `step`, where the allowlist is open to its address.
pub open spec fn first_account_decided(
    step: AccountRegistration,
    config: AuthConfig,
    has_users: AuthResult<bool>,
    r: AuthResult<MintSubject>,
) -> bool {
    match has_users {
        Err(e) => r == Err::<MintSubject, AuthError>(e),
        Ok(any) => if open_to(config, step.email@, any) {
            r == Ok::<MintSubject, AuthError>(MintSubject { email: step.email })
        } else {
            r matches Err(e) && registration_refused(e)
        },
    }
}

impl AccountRegistration {
    /// Without an allowlist the first account is created, and none after it.
    pub fn resume(self, auth_config: &AuthConfig, has_users: AuthResult<bool>) -> (r: AuthResult<
        MintSubject,
    >)
        ensures
            first_account_decided(self, *auth_config, has_users, r),
    {
        match has_users {
            Err(e) => Err(e),
            Ok(any) => {
                if !registration_allowed_given(auth_config, self.email.as_str(), any) {
                    return Err(unauthorized("Registration is not open for this address"));
                }
                Ok(MintSubject { email: self.email })
            },
        }
    }
}

impl MintSubject {
    /// Create the account under the minted subject.
    pub fn resume(self, minted: Result<String, String>) -> (r: AuthResult<CreateAccount>)
        ensures
            match minted {
                Ok(sub) => r == Ok::<CreateAccount, AuthError>(
                    CreateAccount { new_user: NewAuthUser { sub, email: self.email } },
                ),
                Err(message) => r matches Err(e) && e.server_state(
                    "Failed to generate subject: "@ + message@,
                ),
            },
    {
        match minted {
            Ok(sub) => Ok(CreateAccount { new_user: NewAuthUser { sub, email: self.email } }),
            Err(e) => Err(server_state(join("Failed to generate subject: ", e.as_str()).as_str())),
        }
    }
}

impl CreateAccount {
    /// Go on with the account as the store has it.
    pub fn resume(self, created: AuthResult<AuthUser>) -> (r: AuthResult<CreateOrganization>)
        ensures
            match created {
                Ok(user) => r == Ok::<CreateOrganization, AuthError>(
                    CreateOrganization { user, email: self.new_user.email },
                ),
                Err(_) => r matches Err(e) && e.server_state("Failed to create user"@),
            },
    {
        match created {
            Ok(user) => Ok(CreateOrganization { user, email: self.new_user.email }),
            Err(_) => Err(server_state("Failed to create user")),
        }
    }
}

impl CreateOrganization {
    /// The account, whether or not its organization could be created.
    pub fn resume(self, outcome: AuthResult<()>) -> (r: AuthUser)
        ensures
            r == self.user,
    {
        self.user
    }
}

// ── POST /auth/session/start ────────────────────────────────────────
/// Say whether `email` is a valid address, and whether `redirect_url` stays on this site.
#[derive(Debug)]
pub struct CheckAddress {
    pub email: String,
    pub redirect_url: Option<String>,
}

/// Look the address up in the user store.
#[derive(Debug)]
pub struct StartLookup {
    pub email: String,
}

/// Ask the user store whether any user exists.
#[derive(Debug)]
pub struct StartRegistration {
    pub email: String,
}

/// Read the captcha settings from the environment.
#[derive(Debug)]
pub struct StartCaptcha {
    pub email: String,
}

/// List the passkeys of the account.
#[derive(Debug)]
pub struct StartPasskeys {
    pub user_id: String,
    pub email: String,
}

/// What follows the lookup of an address.
#[derive(Debug)]
pub enum AfterLookup {
    ListPasskeys(StartPasskeys),
    AskForUsers(StartRegistration),
    ReadCaptcha(StartCaptcha),
}

/// What a new user is answered.
#[derive(Debug)]
pub enum StartNewUser {
    MintOtp(OtpIssue<StartSessionResponse>),
    Reply(StartSessionResponse),
}

/// What an existing user is answered.
#[derive(Debug)]
pub enum AfterPasskeys {
    DeriveRelyingParty(DeriveRelyingParty<BoundLogin>),
    MintOtp(OtpIssue<StartSessionResponse>),
}

/// A ceremony for one account: its passkeys, each with its transports.
#[derive(Debug)]
pub struct BoundLogin {
    pub user_id: String,
    pub allow: Vec<(String, Vec<String>)>,
}

/// A ceremony for whatever passkey the browser holds: no account is known, none is named.
#[derive(Debug)]
pub struct Discoverable {
    /// Always empty.
    pub allow: Vec<(String, Vec<String>)>,
}

/// Derive the Relying Party from `base_url`.
#[derive(Debug)]
pub struct DeriveRelyingParty<C> {
    pub base_url: String,
    pub ceremony: C,
}

/// Mint a challenge.
#[derive(Debug)]
pub struct MintChallenge<P, C> {
    pub rp: P,
    pub ceremony: C,
}

/// Build the request options from the Relying Party, the challenge and the passkeys that are
/// allowed.
#[derive(Debug)]
pub struct BuildOptions<P, C> {
    pub rp: P,
    pub challenge: String,
    pub ceremony: C,
}

/// `s` after the redirect of a new login was taken over.
pub open spec fn redirect_kept(s: LoginSession, redirect: Option<String>) -> LoginSession {
    match redirect {
        Some(url) => LoginSession { login_redirect_url: Stored::Value(url), ..s },
        None => s,
    }
}

/// `s` once a login for `email` has started, with `redirect` to go to afterwards, and whether
/// it could.
pub open spec fn login_started(
    s: LoginSession,
    email: String,
    redirect: Option<String>,
) -> (LoginSession, bool) {
    let (reset, ok) = pending_reset(redirect_kept(s, redirect));
    if ok {
        (LoginSession { login_email: Stored::Value(email), ..reset }, true)
    } else {
        (reset, false)
    }
}

/// `issue` mails a login code to `email`, to be answered with `reply`.
pub open spec fn issues_login_otp<R>(issue: OtpIssue<R>, email: String, reply: R) -> bool {
    &&& issue.email == email
    &&& issue.purpose@ == LOGIN_PURPOSE@
    &&& issue.reply == reply
}

/// Mail a login code.
pub fn send_otp_session(email: String, is_new_user: bool) -> (r: OtpIssue<StartSessionResponse>)
    ensures
        issues_login_otp(r, email, StartSessionResponse::says_otp_sent(is_new_user, false)),
{
    OtpIssue {
        email,
        purpose: LOGIN_PURPOSE.to_owned(),
        reply: StartSessionResponse::otp_sent(is_new_user, false),
    }
}

/// Start a login for an address.
pub fn start_session(req: StartSessionRequest) -> (r: CheckAddress)
    ensures
        r.email@ == lowercased(trimmed(req.email@)),
        r.redirect_url == req.redirect_url,
{
    let email = req.email.as_str().trim().to_lowercase();
    CheckAddress { email, redirect_url: req.redirect_url }
}

impl CheckAddress {
    /// Take over a valid address. A new attempt inherits nothing of an earlier one.
    pub fn resume(
        self,
        session: &mut LoginSession,
        email_is_valid: bool,
        redirect_is_safe: bool,
    ) -> (r: AuthResult<StartLookup>)
        ensures
            if email_is_valid {
                let started = login_started(
                    *old(session),
                    self.email,
                    if redirect_is_safe {
                        self.redirect_url
                    } else {
                        None
                    },
                );
                &&& *final(session) == started.0
                &&& r == (if started.1 {
                    Ok::<StartLookup, AuthError>(StartLookup { email: self.email })
                } else {
                    Err(AuthError::SessionError)
                })
            } else {
                &&& *final(session) == *old(session)
                &&& r matches Err(e) && e.bad_request("Invalid email address"@)
            },
    {
        if !email_is_valid {
            return Err(bad_request("Invalid email address"));
        }
        if let Some(url) = self.redirect_url {
            if redirect_is_safe {
                session.login_redirect_url = Stored::Value(url);
            }
        }
        match reset_pending_login_state(session) {
            Err(e) => Err(e),
            Ok(_) => {
                session.login_email = Stored::Value(self.email.clone());
                Ok(StartLookup { email: self.email })
            },
        }
    }
}

/// `s` with a registration pending.
pub open spec fn registration_pending(s: LoginSession) -> LoginSession {
    LoginSession { local_deferred_new_user: Stored::Value(true), ..s }
}

/// `r` is what follows the lookup of the address of `step`.
pub open spec fn lookup_answered(
    step: StartLookup,
    config: AuthConfig,
    before: LoginSession,
    after: LoginSession,
    found: AuthResult<Option<AuthUser>>,
    r: AuthResult<AfterLookup>,
) -> bool {
    match found {
        Err(e) => r == Err::<AfterLookup, AuthError>(e) && after == before,
        Ok(Some(user)) => {
            &&& after == before
            &&& r == Ok::<AfterLookup, AuthError>(
                AfterLookup::ListPasskeys(
                    StartPasskeys { user_id: user.id, email: step.email },
                ),
            )
        },
        Ok(None) => if depends_on_users(config) {
            &&& after == before
            &&& r == Ok::<AfterLookup, AuthError>(
                AfterLookup::AskForUsers(StartRegistration { email: step.email }),
            )
        } else if open_to(config, step.email@, false) {
            &&& after == registration_pending(before)
            &&& r == Ok::<AfterLookup, AuthError>(
                AfterLookup::ReadCaptcha(StartCaptcha { email: step.email }),
            )
        } else {
            &&& after == before
            &&& r matches Err(e) && registration_refused(e)
        },
    }
}

impl StartLookup {
    /// A known address has its passkeys looked at. An unknown one is a registration, where the
    /// allowlist is open to it.
    pub fn resume(
        self,
        auth_config: &AuthConfig,
        session: &mut LoginSession,
        found: AuthResult<Option<AuthUser>>,
    ) -> (r: AuthResult<AfterLookup>)
        ensures
            lookup_answered(self, *auth_config, *old(session), *final(session), found, r),
    {
        match found {
            Err(e) => Err(e),
            Ok(Some(user)) => Ok(
                AfterLookup::ListPasskeys(StartPasskeys { user_id: user.id, email: self.email }),
            ),
            Ok(None) => match registration_allowed(auth_config, self.email.as_str()) {
                RegistrationGate::AskForUsers => Ok(
                    AfterLookup::AskForUsers(StartRegistration { email: self.email }),
                ),
                RegistrationGate::Decided(allowed) => {
                    assert(allowed == open_to(*auth_config, self.email@, false));
                    if !allowed {
                        return Err(unauthorized("Registration is not open for this address"));
                    }
                    session.local_deferred_new_user = Stored::Value(true);
                    Ok(AfterLookup::ReadCaptcha(StartCaptcha { email: self.email }))
                },
            },
        }
    }
}

/// `r` is what follows once the store has said whether any user exists.
pub open spec fn registration_answered(
    step: StartRegistration,
    config: AuthConfig,
    before: LoginSession,
    after: LoginSession,
    has_users: AuthResult<bool>,
    r: AuthResult<StartCaptcha>,
) -> bool {
    match has_users {
        Err(e) => r == Err::<StartCaptcha, AuthError>(e) && after == before,
        Ok(any) => if open_to(config, step.email@, any) {
            &&& after == registration_pending(before)
            &&& r == Ok::<StartCaptcha, AuthError>(StartCaptcha { email: step.email })
        } else {
            &&& after == before
            &&& r matches Err(e) && registration_refused(e)
        },
    }
}

impl StartRegistration {
    /// Without an allowlist the first account is let in, and nobody after it.
    pub fn resume(
        self,
        auth_config: &AuthConfig,
        session: &mut LoginSession,
        has_users: AuthResult<bool>,
    ) -> (r: AuthResult<StartCaptcha>)
        ensures
            registration_answered(self, *auth_config, *old(session), *final(session), has_users, r),
    {
        match has_users {
            Err(e) => Err(e),
            Ok(any) => {
                if !registration_allowed_given(auth_config, self.email.as_str(), any) {
                    return Err(unauthorized("Registration is not open for this address"));
                }
                session.local_deferred_new_user = Stored::Value(true);
                Ok(StartCaptcha { email: self.email })
            },
        }
    }
}

/// `r` is what a new user is answered at `now`.
pub open spec fn new_user_answered(
    step: StartCaptcha,
    s: LoginSession,
    now: i64,
    env: CaptchaEnv,
    r: AuthResult<StartNewUser>,
) -> bool {
    if captcha_configured(env) {
        r == Ok::<StartNewUser, AuthError>(
            StartNewUser::Reply(
                StartSessionResponse::asks_captcha(env.server_url->Some_0, env.site_key->Some_0),
            ),
        )
    } else {
        match throttle(s, now) {
            Err(e) => r == Err::<StartNewUser, AuthError>(e),
            Ok(ResendThrottle::Open) => r matches Ok(StartNewUser::MintOtp(issue))
                && issues_login_otp(
                issue,
                step.email,
                StartSessionResponse::says_otp_sent(true, false),
            ),
            Ok(_) => r matches Err(e) && e.bad_request(throttle_message(s, now)),
        }
    }
}

impl StartCaptcha {
    /// With a captcha configured the code is withheld until it is solved. Else the allowlist
    /// was the whole gate, and the code is sent where the throttle lets it out at `now`.
    pub fn resume_at(self, session: &LoginSession, now: i64, env: CaptchaEnv) -> (r: AuthResult<
        StartNewUser,
    >)
        requires
            clock_reading(now),
            !captcha_configured(env) ==> cooldown_computable(*session),
        ensures
            new_user_answered(self, *session, now, env, r),
    {
        match captcha_cfg(env) {
            Some(cfg) => Ok(
                StartNewUser::Reply(
                    StartSessionResponse {
                        public_key_options: None,
                        otp_sent: false,
                        is_new_user: true,
                        has_passkeys: false,
                        captcha_required: Some(true),
                        captcha_server_url: Some(cfg.server_url),
                        captcha_site_key: Some(cfg.site_key),
                    },
                ),
            ),
            None => match pass_throttle_at(session, now) {
                Err(e) => Err(e),
                Ok(_) => Ok(StartNewUser::MintOtp(send_otp_session(self.email, true))),
            },
        }
    }

    /// [`StartCaptcha::resume_at`] by the system clock.
    pub fn resume(self, session: &LoginSession, env: CaptchaEnv) -> (r: AuthResult<StartNewUser>)
        requires
            !captcha_configured(env) ==> cooldown_computable(*session),
        ensures
            exists|now: i64| #[trigger]
                clock_reading(now) && new_user_answered(self, *session, now, env, r),
    {
        let now: i64 = utc_now();
        self.resume_at(session, now, env)
    }
}

/// `allow` names these passkeys, in their order, each with its transports.
pub open spec fn allows(
    allow: Seq<(String, Vec<String>)>,
    passkeys: Seq<StoredPasskey>,
) -> bool {
    &&& allow.len() == passkeys.len()
    &&& forall|i: int|
        0 <= i < allow.len() ==> (#[trigger] allow[i]).0 == passkeys[i].credential_id
            && allow[i].1@ == passkeys[i].transports@
}

fn copy_texts(texts: &Vec<String>) -> (r: Vec<String>)
    ensures
        r@ == texts@,
{
    let mut r: Vec<String> = Vec::new();
    let mut i: usize = 0;
    while i < texts.len()
        invariant
            i <= texts@.len(),
            r@ == texts@.take(i as int),
        decreases texts@.len() - i,
    {
        r.push(texts[i].clone());
        assert(texts@.take(i + 1) =~= texts@.take(i as int).push(texts@[i as int]));
        i = i + 1;
    }
    assert(texts@.take(i as int) =~= texts@);
    r
}

fn allow_list(passkeys: &Vec<StoredPasskey>) -> (r: Vec<(String, Vec<String>)>)
    ensures
        allows(r@, passkeys@),
{
    let mut r: Vec<(String, Vec<String>)> = Vec::new();
    let mut i: usize = 0;
    while i < passkeys.len()
        invariant
            i <= passkeys@.len(),
            allows(r@, passkeys@.take(i as int)),
        decreases passkeys@.len() - i,
    {
        let entry = (passkeys[i].credential_id.clone(), copy_texts(&passkeys[i].transports));
        let ghost before = r@;
        r.push(entry);
        assert forall|j: int| 0 <= j < r@.len() implies (#[trigger] r@[j]).0 == passkeys@.take(
            i + 1,
        )[j].credential_id && r@[j].1@ == passkeys@.take(i + 1)[j].transports@ by {
            if j < before.len() {
                assert(before[j].0 == passkeys@.take(i as int)[j].credential_id);
            }
        }
        i = i + 1;
    }
    assert(passkeys@.take(i as int) =~= passkeys@);
    r
}

/// Whether an account with this list of passkeys is challenged. Passkeys that cannot be listed
/// count as none.
pub open spec fn is_challenged(listed: AuthResult<Vec<StoredPasskey>>) -> bool {
    PASSKEY_LOGIN_ENABLED && (listed matches Ok(passkeys) && passkeys@.len() > 0)
}

/// `r` is what an existing user is answered at `now`.
pub open spec fn existing_user_answered(
    step: StartPasskeys,
    config: AuthConfig,
    s: LoginSession,
    now: i64,
    listed: AuthResult<Vec<StoredPasskey>>,
    r: AuthResult<AfterPasskeys>,
) -> bool {
    if is_challenged(listed) {
        &&& r matches Ok(AfterPasskeys::DeriveRelyingParty(next))
        &&& next.base_url == config.base_url
        &&& next.ceremony.user_id == step.user_id
        &&& allows(next.ceremony.allow@, listed->Ok_0@)
    } else {
        match throttle(s, now) {
            Err(e) => r == Err::<AfterPasskeys, AuthError>(e),
            Ok(ResendThrottle::Open) => r matches Ok(AfterPasskeys::MintOtp(issue))
                && issues_login_otp(
                issue,
                step.email,
                StartSessionResponse::says_otp_sent(false, false),
            ),
            Ok(_) => r matches Err(e) && e.bad_request(throttle_message(s, now)),
        }
    }
}

impl StartPasskeys {
    /// An account with passkeys is challenged. One without gets a code, where the throttle lets
    /// it out at `now`. No captcha: the account exists already.
    pub fn resume_at(
        self,
        auth_config: &AuthConfig,
        session: &LoginSession,
        now: i64,
        listed: AuthResult<Vec<StoredPasskey>>,
    ) -> (r: AuthResult<AfterPasskeys>)
        requires
            clock_reading(now),
            !is_challenged(listed) ==> cooldown_computable(*session),
        ensures
            existing_user_answered(self, *auth_config, *session, now, listed, r),
    {
        if let Ok(passkeys) = listed {
            if PASSKEY_LOGIN_ENABLED && passkeys.len() > 0 {
                return Ok(
                    AfterPasskeys::DeriveRelyingParty(
                        DeriveRelyingParty {
                            base_url: auth_config.base_url.clone(),
                            ceremony: BoundLogin {
                                user_id: self.user_id,
                                allow: allow_list(&passkeys),
                            },
                        },
                    ),
                );
            }
        }
        match pass_throttle_at(session, now) {
            Err(e) => Err(e),
            Ok(_) => Ok(AfterPasskeys::MintOtp(send_otp_session(self.email, false))),
        }
    }

    /// [`StartPasskeys::resume_at`] by the system clock.
    pub fn resume(
        self,
        auth_config: &AuthConfig,
        session: &LoginSession,
        listed: AuthResult<Vec<StoredPasskey>>,
    ) -> (r: AuthResult<AfterPasskeys>)
        requires
            !is_challenged(listed) ==> cooldown_computable(*session),
        ensures
            exists|now: i64| #[trigger]
                clock_reading(now) && existing_user_answered(
                    self,
                    *auth_config,
                    *session,
                    now,
                    listed,
                    r,
                ),
    {
        let now: i64 = utc_now();
        self.resume_at(auth_config, session, now, listed)
    }
}

impl<C> DeriveRelyingParty<C> {
    /// Go on with the Relying Party.
    pub fn resume<P>(self, derived: Result<P, String>) -> (r: AuthResult<MintChallenge<P, C>>)
        ensures
            match derived {
                Ok(rp) => r == Ok::<MintChallenge<P, C>, AuthError>(
                    MintChallenge { rp, ceremony: self.ceremony },
                ),
                Err(message) => r matches Err(e) && e.server_state(
                    "BASE_URL invalid for WebAuthn: "@ + message@,
                ),
            },
    {
        match relying_party(derived) {
            Ok(rp) => Ok(MintChallenge { rp, ceremony: self.ceremony }),
            Err(e) => Err(e),
        }
    }
}

impl<P, C> MintChallenge<P, C> {
    /// Go on with the challenge.
    pub fn resume(self, minted: Result<String, String>) -> (r: AuthResult<BuildOptions<P, C>>)
        ensures
            match minted {
                Ok(challenge) => r == Ok::<BuildOptions<P, C>, AuthError>(
                    BuildOptions { rp: self.rp, challenge, ceremony: self.ceremony },
                ),
                Err(message) => r matches Err(e) && e.server_state(message@),
            },
    {
        match minted {
            Ok(challenge) => Ok(BuildOptions { rp: self.rp, challenge, ceremony: self.ceremony }),
            Err(e) => Err(server_state(e.as_str())),
        }
    }
}

impl<P> BuildOptions<P, BoundLogin> {
    /// Park the challenge in the session, bound to the account, and hand out the options.
    pub fn resume(self, session: &mut LoginSession, options: serde_json::Value) -> (r:
        StartSessionResponse)
        ensures
            *final(session) == (LoginSession {
                passkey_challenge: Stored::Value(self.challenge),
                passkey_user_id: Stored::Value(self.ceremony.user_id),
                ..*old(session)
            }),
            r == StartSessionResponse::offers_passkey(options),
    {
        session.passkey_challenge = Stored::Value(self.challenge);
        session.passkey_user_id = Stored::Value(self.ceremony.user_id);
        StartSessionResponse {
            public_key_options: Some(options),
            otp_sent: false,
            is_new_user: false,
            has_passkeys: true,
            captcha_required: None,
            captcha_server_url: None,
            captcha_site_key: None,
        }
    }
}

// ── POST /auth/session/passkey/conditional/options ──────────────────
/// The request options of a ceremony in which the passkey names the account.
#[derive(Debug)]
pub struct ConditionalOptions {
    pub options: serde_json::Value,
}

/// Ask for request options before any address is known.
pub fn passkey_conditional_options(auth_config: &AuthConfig) -> (r: AuthResult<
    DeriveRelyingParty<Discoverable>,
>)
    ensures
        if PASSKEY_LOGIN_ENABLED {
            &&& r matches Ok(step)
            &&& step.base_url == auth_config.base_url
            &&& step.ceremony.allow@.len() == 0
        } else {
            r matches Err(e) && e.bad_request("Passkey login is disabled"@)
        },
{
    if !PASSKEY_LOGIN_ENABLED {
        return Err(bad_request("Passkey login is disabled"));
    }
    Ok(
        DeriveRelyingParty {
            base_url: auth_config.base_url.clone(),
            ceremony: Discoverable { allow: Vec::new() },
        },
    )
}

impl<P> BuildOptions<P, Discoverable> {
    /// Park the challenge in the session, bound to no account, and hand out the options.
    pub fn resume(self, session: &mut LoginSession, options: serde_json::Value) -> (r: AuthResult<
        ConditionalOptions,
    >)
        ensures
            *final(session) == (LoginSession {
                passkey_challenge: Stored::Value(self.challenge),
                passkey_user_id: Stored::Missing,
                ..*old(session)
            }),
            r == (if old(session).passkey_user_id is Unreadable {
                Err::<ConditionalOptions, AuthError>(AuthError::SessionError)
            } else {
                Ok(ConditionalOptions { options })
            }),
    {
        session.passkey_challenge = Stored::Value(self.challenge);
        match session.remove(SessionKey::PasskeyUserId) {
            Ok(_) => Ok(ConditionalOptions { options }),
            Err(e) => Err(e),
        }
    }
}

// ── POST /auth/session/passkey/verify ───────────────────────────────
/// What a user is told whose assertion was not accepted.
pub const PASSKEY_FAILED: &'static str = "Passkey verification failed. Please try again.";

/// Look up the passkey with this credential id.
#[derive(Debug)]
pub struct FindPasskey {
    pub credential_id: String,
    pub challenge: String,
    /// The account that the challenge is bound to; none where the passkey names the account.
    pub expected_user_id: Option<String>,
    pub assertion: serde_json::Value,
}

/// Derive the Relying Party from `base_url`, to verify the assertion with.
#[derive(Debug)]
pub struct AssertionParty {
    pub base_url: String,
    pub challenge: String,
    pub assertion: serde_json::Value,
    pub passkey: StoredPasskey,
}

/// Verify the assertion against the challenge, and the passkey's key and counter.
#[derive(Debug)]
pub struct VerifyAssertion<P> {
    pub rp: P,
    pub challenge: String,
    pub assertion: serde_json::Value,
    pub passkey: StoredPasskey,
}

/// Record the use of the passkey.
#[derive(Debug)]
pub struct TouchPasskey {
    pub credential_id: String,
    pub sign_count: i64,
    pub backed_up: bool,
    pub user_id: String,
}

/// Get the account that the passkey belongs to.
#[derive(Debug)]
pub struct GetOwner {
    pub user_id: String,
}

/// What follows the lookup of a passkey.
#[derive(Debug)]
pub enum AfterFind {
    DeriveRelyingParty(AssertionParty),
    Reply(VerifyResponse),
}

/// What follows the verification of an assertion.
#[derive(Debug)]
pub enum AfterAssertion {
    Touch(TouchPasskey),
    Reply(VerifyResponse),
}

/// The credential id that an assertion names.
pub open spec fn raw_id_of(assertion: serde_json::Value) -> Option<Seq<char>> {
    json_string_at(assertion, seq!["rawId"@])
}

/// The user handle that an assertion carries.
pub open spec fn user_handle_of(assertion: serde_json::Value) -> Option<Seq<char>> {
    json_string_at(assertion, seq!["response"@, "userHandle"@])
}

/// `r` looks up the passkey of an assertion that answers the challenge of the session.
pub open spec fn assertion_taken(
    s: LoginSession,
    assertion: serde_json::Value,
    r: AuthResult<FindPasskey>,
) -> bool {
    if !PASSKEY_LOGIN_ENABLED {
        r matches Err(e) && e.bad_request("Passkey login is disabled"@)
    } else if s.passkey_challenge is Unreadable {
        r == Err::<FindPasskey, AuthError>(AuthError::SessionError)
    } else if s.passkey_challenge is Missing {
        r matches Err(e) && e.bad_request("No passkey challenge in progress"@)
    } else if s.passkey_user_id is Unreadable {
        r == Err::<FindPasskey, AuthError>(AuthError::SessionError)
    } else if raw_id_of(assertion) is None {
        r matches Err(e) && e.bad_request("Malformed passkey assertion"@)
    } else {
        &&& r matches Ok(step)
        &&& raw_id_of(assertion) == Some(step.credential_id@)
        &&& s.passkey_challenge == Stored::Value(step.challenge)
        &&& s.passkey_user_id.reading() == Ok::<Option<String>, AuthError>(step.expected_user_id)
        &&& step.assertion == assertion
    }
}

/// Answer a passkey challenge. The switch counts here too: a session may hold a challenge from
/// before it was turned off.
pub fn verify_passkey_handler(session: &LoginSession, req: VerifyPasskeyRequest) -> (r: AuthResult<
    FindPasskey,
>)
    ensures
        assertion_taken(*session, req.credential_assertion_data, r),
{
    if !PASSKEY_LOGIN_ENABLED {
        return Err(bad_request("Passkey login is disabled"));
    }
    let challenge = match session.passkey_challenge.read() {
        Ok(Some(challenge)) => challenge.clone(),
        Ok(None) => {
            return Err(bad_request("No passkey challenge in progress"));
        },
        Err(e) => {
            return Err(e);
        },
    };
    let expected_user_id = match session.passkey_user_id.read() {
        Ok(Some(id)) => Some(id.clone()),
        Ok(None) => None,
        Err(e) => {
            return Err(e);
        },
    };
    let credential_id = match string_member(&req.credential_assertion_data, "rawId") {
        Some(id) => id.to_owned(),
        None => {
            return Err(bad_request("Malformed passkey assertion"));
        },
    };
    proof {
        assert(raw_id_of(req.credential_assertion_data) == Some(credential_id@));
    }
    Ok(
        FindPasskey {
            credential_id,
            challenge,
            expected_user_id,
            assertion: req.credential_assertion_data,
        },
    )
}

/// Whether a passkey of `owner` may answer: on a challenge that is bound to an account, where
/// that is the owner; else, where the assertion carries a user handle, if it is the owner's.
pub open spec fn owner_accepted(
    owner: String,
    expected: Option<String>,
    assertion: serde_json::Value,
) -> bool {
    match expected {
        Some(id) => owner@ == id@,
        None => match user_handle_of(assertion) {
            Some(handle) => handle == handle_of(owner@),
            None => true,
        },
    }
}

/// `r` is what follows the lookup of the passkey of `step`.
pub open spec fn passkey_found(
    step: FindPasskey,
    config: AuthConfig,
    found: AuthResult<Option<StoredPasskey>>,
    r: AuthResult<AfterFind>,
) -> bool {
    match found {
        Err(e) => r == Err::<AfterFind, AuthError>(e),
        Ok(None) => r matches Ok(AfterFind::Reply(reply)) && reply.refuses(
            PASSKEY_FAILED@,
            None,
        ),
        Ok(Some(passkey)) => if owner_accepted(
            passkey.user_id,
            step.expected_user_id,
            step.assertion,
        ) {
            r == Ok::<AfterFind, AuthError>(
                AfterFind::DeriveRelyingParty(
                    AssertionParty {
                        base_url: config.base_url,
                        challenge: step.challenge,
                        assertion: step.assertion,
                        passkey,
                    },
                ),
            )
        } else {
            r matches Ok(AfterFind::Reply(reply)) && reply.refuses(PASSKEY_FAILED@, None)
        },
    }
}

impl FindPasskey {
    /// Check that the passkey is known and belongs to whom it must.
    pub fn resume(self, auth_config: &AuthConfig, found: AuthResult<Option<StoredPasskey>>) -> (r:
        AuthResult<AfterFind>)
        requires
            self.expected_user_id is None && user_handle_of(self.assertion) is Some ==> (found
                matches Ok(Some(passkey)) ==> fits_base64url(encode_utf8(passkey.user_id@))),
        ensures
            passkey_found(self, *auth_config, found, r),
    {
        let passkey = match found {
            Err(e) => {
                return Err(e);
            },
            Ok(None) => {
                return Ok(AfterFind::Reply(VerifyResponse::failed(PASSKEY_FAILED)));
            },
            Ok(Some(passkey)) => passkey,
        };
        let accepted = match &self.expected_user_id {
            Some(expected) => same_text(passkey.user_id.as_str(), expected.as_str()),
            None => match nested_string_member(&self.assertion, "response", "userHandle") {
                Some(handle) => same_text(
                    handle,
                    user_handle(passkey.user_id.as_str()).as_str(),
                ),
                None => true,
            },
        };
        if !accepted {
            return Ok(AfterFind::Reply(VerifyResponse::failed(PASSKEY_FAILED)));
        }
        Ok(
            AfterFind::DeriveRelyingParty(
                AssertionParty {
                    base_url: auth_config.base_url.clone(),
                    challenge: self.challenge,
                    assertion: self.assertion,
                    passkey,
                },
            ),
        )
    }
}

impl AssertionParty {
    /// Go on with the Relying Party.
    pub fn resume<P>(self, derived: Result<P, String>) -> (r: AuthResult<VerifyAssertion<P>>)
        ensures
            match derived {
                Ok(rp) => r == Ok::<VerifyAssertion<P>, AuthError>(
                    VerifyAssertion {
                        rp,
                        challenge: self.challenge,
                        assertion: self.assertion,
                        passkey: self.passkey,
                    },
                ),
                Err(message) => r matches Err(e) && e.server_state(
                    "BASE_URL invalid for WebAuthn: "@ + message@,
                ),
            },
    {
        match relying_party(derived) {
            Ok(rp) => Ok(
                VerifyAssertion {
                    rp,
                    challenge: self.challenge,
                    assertion: self.assertion,
                    passkey: self.passkey,
                },
            ),
            Err(e) => Err(e),
        }
    }
}

/// The keys of a ceremony, in the order of their removal.
pub open spec fn ceremony_keys() -> Seq<SessionKey> {
    seq![SessionKey::PasskeyChallenge, SessionKey::PasskeyUserId]
}

fn end_ceremony(session: &mut LoginSession) -> (r: AuthResult<()>)
    ensures
        *final(session) == removal(*old(session), ceremony_keys()).0,
        match r {
            Ok(_) => removal(*old(session), ceremony_keys()).1,
            Err(e) => !removal(*old(session), ceremony_keys()).1 && e == AuthError::SessionError,
        },
{
    let keys = [SessionKey::PasskeyChallenge, SessionKey::PasskeyUserId];
    assert(keys@ =~= ceremony_keys());
    session.remove_each(keys.as_slice())
}

/// `r` is what the verification of an assertion leads to, and `after` the session that it
/// leaves.
pub open spec fn assertion_concluded<P, E>(
    step: VerifyAssertion<P>,
    before: LoginSession,
    after: LoginSession,
    verified: Result<AssertionOutcome, E>,
    r: AuthResult<AfterAssertion>,
) -> bool {
    match verified {
        Err(_) => {
            &&& after == before
            &&& r matches Ok(AfterAssertion::Reply(reply)) && reply.refuses(
                PASSKEY_FAILED@,
                None,
            )
        },
        Ok(outcome) => {
            let ended = removal(before, ceremony_keys());
            &&& after == ended.0
            &&& r == (if ended.1 {
                Ok::<AfterAssertion, AuthError>(
                    AfterAssertion::Touch(
                        TouchPasskey {
                            credential_id: step.passkey.credential_id,
                            sign_count: outcome.sign_count,
                            backed_up: outcome.backed_up,
                            user_id: step.passkey.user_id,
                        },
                    ),
                )
            } else {
                Err(AuthError::SessionError)
            })
        },
    }
}

impl<P> VerifyAssertion<P> {
    /// A verified assertion burns the challenge. A failed one keeps it, so that the same
    /// ceremony can be tried again.
    pub fn resume<E>(self, session: &mut LoginSession, verified: Result<AssertionOutcome, E>) -> (r:
        AuthResult<AfterAssertion>)
        ensures
            assertion_concluded(self, *old(session), *final(session), verified, r),
    {
        match verified {
            Err(_) => Ok(AfterAssertion::Reply(VerifyResponse::failed(PASSKEY_FAILED))),
            Ok(outcome) => match end_ceremony(session) {
                Err(e) => Err(e),
                Ok(_) => Ok(
                    AfterAssertion::Touch(
                        TouchPasskey {
                            credential_id: self.passkey.credential_id,
                            sign_count: outcome.sign_count,
                            backed_up: outcome.backed_up,
                            user_id: self.passkey.user_id,
                        },
                    ),
                ),
            },
        }
    }
}

impl TouchPasskey {
    /// Go on, whether or not the use could be recorded.
    pub fn resume(self, outcome: AuthResult<()>) -> (r: GetOwner)
        ensures
            r == (GetOwner { user_id: self.user_id }),
    {
        GetOwner { user_id: self.user_id }
    }
}

impl GetOwner {
    /// Log the owner of the passkey in.
    pub fn resume(self, found: AuthResult<Option<AuthUser>>) -> (r: AuthResult<CycleId>)
        ensures
            match found {
                Err(e) => r == Err::<CycleId, AuthError>(e),
                Ok(None) => r matches Err(e) && e.server_state("Passkey owner no longer exists"@),
                Ok(Some(user)) => {
                    &&& r matches Ok(step)
                    &&& finalizes(step, user)
                    &&& step.user == user
                    &&& step.data.id@ == user.id@
                    &&& step.data.sub@ == user.sub@
                    &&& step.data.email@ == user.email@
                },
            },
    {
        match found {
            Err(e) => Err(e),
            Ok(None) => Err(server_state("Passkey owner no longer exists")),
            Ok(Some(user)) => Ok(finalize_login(user)),
        }
    }
}

// ── POST /auth/session/otp/verify ───────────────────────────────────
/// What follows a checked code.
#[derive(Debug)]
pub enum AfterOtp {
    FindAccount(FindAccount),
    Reply(VerifyResponse),
}

/// Submit a code.
pub fn verify_otp_handler(req: VerifyOtpRequest) -> (r: AuthResult<CheckOtp>)
    ensures
        if trimmed(req.code@).len() == 0 {
            r matches Err(e) && e.bad_request("Verification code is required"@)
        } else {
            r matches Ok(step) && step.code@ == trimmed(req.code@)
        },
{
    crate::handlers::session_auth::verify_otp_handler(req)
}

/// `r` goes on with the address of a code that was accepted, or refuses.
pub open spec fn code_taken(
    checked: OtpChecked,
    saved: AuthResult<()>,
    r: AuthResult<AfterOtp>,
) -> bool {
    match saved {
        Err(e) => r == Err::<AfterOtp, AuthError>(e),
        Ok(_) => match checked.outcome {
            Err(message) => r matches Ok(AfterOtp::Reply(reply)) && reply.refuses(
                message@,
                None,
            ),
            Ok(email) => r == Ok::<AfterOtp, AuthError>(
                AfterOtp::FindAccount(FindAccount { email }),
            ),
        },
    }
}

/// Go on with the address that a verified code was mailed to, or say why it was not accepted.
/// A verified code proves that the address is the user's, which is all that an account needs.
pub fn otp_checked(checked: OtpChecked, saved: AuthResult<()>) -> (r: AuthResult<AfterOtp>)
    ensures
        code_taken(checked, saved, r),
{
    match verify_otp_guarded(checked, saved) {
        Err(e) => Err(e),
        Ok(Err(message)) => Ok(AfterOtp::Reply(VerifyResponse::failed(message.as_str()))),
        Ok(Ok(email)) => Ok(AfterOtp::FindAccount(resolve_or_create_account(email))),
    }
}

// ── POST /auth/session/otp/resend ───────────────────────────────────
/// What a request for another code is answered.
#[derive(Debug)]
pub enum ResendNext {
    MintOtp(OtpIssue<VerifyResponse>),
    Reply(VerifyResponse),
}

/// `r` is what a request for another code at `now` is answered.
pub open spec fn resend_answered(s: LoginSession, now: i64, r: AuthResult<ResendNext>) -> bool {
    match s.login_email {
        Stored::Unreadable => r == Err::<ResendNext, AuthError>(AuthError::SessionError),
        Stored::Missing => r matches Err(e) && e.bad_request("No login session in progress"@),
        Stored::Value(email) => match s.otp_code {
            Stored::Unreadable => r == Err::<ResendNext, AuthError>(AuthError::SessionError),
            Stored::Missing => r matches Err(e) && e.bad_request(
                "No verification code in progress"@,
            ),
            Stored::Value(_) => match throttle(s, now) {
                Ok(ResendThrottle::Open) => if s.otp_purpose is Unreadable {
                    r == Err::<ResendNext, AuthError>(AuthError::SessionError)
                } else {
                    &&& r matches Ok(ResendNext::MintOtp(issue))
                    &&& issue.email == email
                    &&& issue.purpose@ == purpose_of(s)
                    &&& issue.reply == VerifyResponse::says_resent()
                },
                _ => match r {
                    Ok(ResendNext::Reply(reply)) => throttle_answered(
                        s,
                        now,
                        Ok::<Option<VerifyResponse>, AuthError>(Some(reply)),
                    ),
                    Ok(ResendNext::MintOtp(_)) => false,
                    Err(e) => throttle_answered(
                        s,
                        now,
                        Err::<Option<VerifyResponse>, AuthError>(e),
                    ),
                },
            },
        },
    }
}

/// Ask for another code at `now`. It needs one that was sent already: where the first code is
/// withheld until a captcha is solved, this is no way around it.
pub fn resend_otp_at(session: &LoginSession, now: i64) -> (r: AuthResult<ResendNext>)
    requires
        clock_reading(now),
        code_in_flight(*session) ==> cooldown_computable(*session),
    ensures
        resend_answered(*session, now, r),
{
    let email = match load_login_email(session) {
        Ok(email) => email,
        Err(e) => {
            return Err(e);
        },
    };
    match session.otp_code.read() {
        Ok(Some(_)) => {},
        Ok(None) => {
            return Err(bad_request("No verification code in progress"));
        },
        Err(e) => {
            return Err(e);
        },
    }
    match resend_throttle_error_at(session, now) {
        Err(e) => Err(e),
        Ok(Some(reply)) => Ok(ResendNext::Reply(reply)),
        Ok(None) => match load_purpose(session) {
            Err(e) => Err(e),
            Ok(purpose) => Ok(
                ResendNext::MintOtp(
                    OtpIssue {
                        email,
                        purpose,
                        reply: VerifyResponse {
                            success: true,
                            redirect_url: None,
                            error: None,
                            retry_after_seconds: Some(RESEND_COOLDOWN_SECONDS),
                            offer_passkey: None,
                        },
                    },
                ),
            ),
        },
    }
}

/// [`resend_otp_at`] by the system clock.
pub fn resend_otp_handler(session: &LoginSession) -> (r: AuthResult<ResendNext>)
    requires
        code_in_flight(*session) ==> cooldown_computable(*session),
    ensures
        exists|now: i64| #[trigger] clock_reading(now) && resend_answered(*session, now, r),
{
    let now: i64 = utc_now();
    resend_otp_at(session, now)
}

// ── POST /auth/session/passkey-fallback-otp ─────────────────────────
/// Whether the throttle is asked about a code instead of a passkey: a login was started, and no
/// registration is pending.
pub open spec fn fallback_throttled(s: LoginSession) -> bool {
    s.login_email is Value && !(s.local_deferred_new_user is Unreadable) && !is_deferred(s)
}

/// `r` is what a request for a code instead of a passkey at `now` is answered, and `after` the
/// session that it leaves.
pub open spec fn fallback_answered(
    s: LoginSession,
    after: LoginSession,
    now: i64,
    r: AuthResult<OtpIssue<StartSessionResponse>>,
) -> bool {
    let unreadable = Err::<OtpIssue<StartSessionResponse>, AuthError>(AuthError::SessionError);
    match s.login_email {
        Stored::Unreadable => r == unreadable && after == s,
        Stored::Missing => {
            &&& r matches Err(e) && e.bad_request("No login session in progress"@)
            &&& after == s
        },
        Stored::Value(email) => if s.local_deferred_new_user is Unreadable {
            r == unreadable && after == s
        } else if is_deferred(s) {
            &&& r matches Err(e) && e.bad_request(
                "Please complete verification to receive a code."@,
            )
            &&& after == s
        } else {
            match throttle(s, now) {
                Err(_) => r == unreadable && after == s,
                Ok(ResendThrottle::Open) => {
                    let ended = removal(s, ceremony_keys());
                    &&& after == ended.0
                    &&& if ended.1 {
                        r matches Ok(issue) && issues_login_otp(
                            issue,
                            email,
                            StartSessionResponse::says_otp_sent(false, true),
                        )
                    } else {
                        r == unreadable
                    }
                },
                Ok(_) => {
                    &&& r matches Err(e) && e.bad_request(throttle_message(s, now))
                    &&& after == s
                },
            }
        },
    }
}

/// Ask at `now` for a code instead of a passkey. A pending registration has no passkey to fall
/// back from, and its code waits for the captcha.
pub fn passkey_fallback_at(session: &mut LoginSession, now: i64) -> (r: AuthResult<
    OtpIssue<StartSessionResponse>,
>)
    requires
        clock_reading(now),
        fallback_throttled(*old(session)) ==> cooldown_computable(*old(session)),
    ensures
        fallback_answered(*old(session), *final(session), now, r),
{
    let email = match load_login_email(session) {
        Ok(email) => email,
        Err(e) => {
            return Err(e);
        },
    };
    match load_deferred(session) {
        Ok(false) => {},
        Ok(true) => {
            return Err(bad_request("Please complete verification to receive a code."));
        },
        Err(e) => {
            return Err(e);
        },
    }
    if let Err(e) = pass_throttle_at(session, now) {
        return Err(e);
    }
    match end_ceremony(session) {
        Err(e) => Err(e),
        Ok(_) => Ok(
            OtpIssue {
                email,
                purpose: LOGIN_PURPOSE.to_owned(),
                reply: StartSessionResponse::otp_sent(false, true),
            },
        ),
    }
}

/// [`passkey_fallback_at`] by the system clock.
pub fn passkey_fallback_to_otp(session: &mut LoginSession) -> (r: AuthResult<
    OtpIssue<StartSessionResponse>,
>)
    requires
        fallback_throttled(*old(session)) ==> cooldown_computable(*old(session)),
    ensures
        exists|now: i64| #[trigger]
            clock_reading(now) && fallback_answered(*old(session), *final(session), now, r),
{
    let now: i64 = utc_now();
    passkey_fallback_at(session, now)
}

// ── POST /auth/session/captcha/verify ───────────────────────────────
/// Submit a captcha token for a pending registration.
pub fn verify_captcha_handler(session: &LoginSession, req: VerifyCaptchaRequest) -> (r: AuthResult<
    CaptchaCheck,
>)
    ensures
        if session.local_deferred_new_user is Unreadable {
            r == Err::<CaptchaCheck, AuthError>(AuthError::SessionError)
        } else if is_deferred(*session) {
            r == Ok::<CaptchaCheck, AuthError>(CaptchaCheck { captcha_token: req.captcha_token })
        } else {
            r matches Err(e) && e.bad_request("No pending registration session"@)
        },
{
    match load_deferred(session) {
        Err(e) => Err(e),
        Ok(true) => Ok(CaptchaCheck { captcha_token: req.captcha_token }),
        Ok(false) => Err(bad_request("No pending registration session")),
    }
}

/// Whether the throttle is asked about a withheld code: the captcha was passed, and the address
/// of the login is known.
pub open spec fn withheld_throttled(s: LoginSession, answer: Option<CaptchaAnswer>) -> bool {
    s.login_email is Value && (answer matches Some(a) && captcha_passed(a))
}

/// `r` is what the captcha server's answer leads to at `now`, where it gave one.
pub open spec fn captcha_concluded(
    s: LoginSession,
    now: i64,
    answer: Option<CaptchaAnswer>,
    r: AuthResult<AfterCaptcha>,
) -> bool {
    match answer {
        None => r matches Ok(AfterCaptcha::Reply(reply)) && reply.refuses(
            "Verification unavailable. Please try again in a moment."@,
        ),
        Some(a) => if !captcha_passed(a) {
            r matches Ok(AfterCaptcha::Reply(reply)) && reply.refuses(
                "Verification failed. Please try again."@,
            )
        } else if !withheld_throttled(s, answer) {
            withheld_code_sent(s, r)
        } else {
            match throttle(s, now) {
                Err(e) => r == Err::<AfterCaptcha, AuthError>(e),
                Ok(ResendThrottle::Open) => withheld_code_sent(s, r),
                Ok(_) => r matches Err(e) && e.bad_request(throttle_message(s, now)),
            }
        },
    }
}

/// Send the withheld code once the captcha server has let the token pass, where the throttle
/// lets it out at `now`: a rejection and a server that does not answer both block the
/// registration.
pub fn captcha_answered_at(
    session: &LoginSession,
    now: i64,
    answer: Option<CaptchaAnswer>,
) -> (r: AuthResult<AfterCaptcha>)
    requires
        clock_reading(now),
        withheld_throttled(*session, answer) ==> cooldown_computable(*session),
    ensures
        captcha_concluded(*session, now, answer, r),
{
    match verify_captcha_token(answer) {
        Err(_) => Ok(
            AfterCaptcha::Reply(
                CaptchaVerifyResponse::rejected(
                    "Verification unavailable. Please try again in a moment.",
                ),
            ),
        ),
        Ok(false) => Ok(
            AfterCaptcha::Reply(
                CaptchaVerifyResponse::rejected("Verification failed. Please try again."),
            ),
        ),
        Ok(true) => match session.login_email.read() {
            Err(e) => Err(e),
            Ok(None) => Err(server_state("Missing login email")),
            Ok(Some(email)) => match pass_throttle_at(session, now) {
                Err(e) => Err(e),
                Ok(_) => Ok(
                    AfterCaptcha::MintOtp(
                        OtpIssue {
                            email: email.clone(),
                            purpose: LOGIN_PURPOSE.to_owned(),
                            reply: CaptchaVerifyResponse {
                                success: true,
                                otp_sent: true,
                                error: None,
                            },
                        },
                    ),
                ),
            },
        },
    }
}

/// [`captcha_answered_at`] by the system clock.
pub fn captcha_answered(session: &LoginSession, answer: Option<CaptchaAnswer>) -> (r: AuthResult<
    AfterCaptcha,
>)
    requires
        withheld_throttled(*session, answer) ==> cooldown_computable(*session),
    ensures
        exists|now: i64| #[trigger]
            clock_reading(now) && captcha_concluded(*session, now, answer, r),
{
    let now: i64 = utc_now();
    captcha_answered_at(session, now, answer)
}

// ── Finalize login ──────────────────────────────────────────────────
/// Decide where the user goes after login.
#[derive(Debug)]
pub struct PostLoginRedirect {
    pub user: AuthUser,
}

/// List the passkeys of the account.
#[derive(Debug)]
pub struct OfferPasskey {
    pub user_id: String,
    pub redirect_url: String,
}

/// `step` opens the session of `user`.
pub open spec fn finalizes(step: CycleId, user: AuthUser) -> bool {
    &&& step.user == user
    &&& session_data_of(step.data, user, user.email@, "local_login"@)
}

/// Log `user` in.
pub fn finalize_login(user: AuthUser) -> (r: CycleId)
    ensures
        finalizes(r, user),
        r.user == user,
        r.data.id@ == user.id@,
        r.data.sub@ == user.sub@,
        r.data.email@ == user.email@,
{
    let email = user.email.clone();
    open_session(user, email.as_str(), "local_login")
}

/// `s` after a finished login, and whether all of the temporary state could be removed.
pub open spec fn login_ended(s: LoginSession) -> (LoginSession, bool) {
    let (started, ok) = removal(s, seq![SessionKey::LoginEmail]);
    if !ok {
        (started, false)
    } else {
        let (reset, ok) = pending_reset(started);
        if !ok {
            (reset, false)
        } else {
            removal(reset, seq![SessionKey::OtpLastSentAt, SessionKey::OtpResendCount])
        }
    }
}

/// Remove the temporary login state, the throttle's counters with it, whether or not the login
/// could be recorded.
pub fn login_recorded(
    record: RecordLogin,
    session: &mut LoginSession,
    recorded: AuthResult<()>,
) -> (r: AuthResult<PostLoginRedirect>)
    ensures
        *final(session) == login_ended(*old(session)).0,
        r == (if login_ended(*old(session)).1 {
            Ok::<PostLoginRedirect, AuthError>(PostLoginRedirect { user: record.user })
        } else {
            Err(AuthError::SessionError)
        }),
{
    let first = [SessionKey::LoginEmail];
    assert(first@ =~= seq![SessionKey::LoginEmail]);
    if let Err(e) = session.remove_each(first.as_slice()) {
        return Err(e);
    }
    if let Err(e) = reset_pending_login_state(session) {
        return Err(e);
    }
    let last = [SessionKey::OtpLastSentAt, SessionKey::OtpResendCount];
    assert(last@ =~= seq![SessionKey::OtpLastSentAt, SessionKey::OtpResendCount]);
    match session.remove_each(last.as_slice()) {
        Ok(_) => Ok(PostLoginRedirect { user: record.user }),
        Err(e) => Err(e),
    }
}

impl PostLoginRedirect {
    /// Go on with the destination.
    pub fn resume(self, decided: AuthResult<String>) -> (r: AuthResult<OfferPasskey>)
        ensures
            match decided {
                Err(e) => r == Err::<OfferPasskey, AuthError>(e),
                Ok(redirect_url) => r == Ok::<OfferPasskey, AuthError>(
                    OfferPasskey { user_id: self.user.id, redirect_url },
                ),
            },
    {
        match decided {
            Err(e) => Err(e),
            Ok(redirect_url) => Ok(OfferPasskey { user_id: self.user.id, redirect_url }),
        }
    }
}

impl OfferPasskey {
    /// Whether the account is known to have no passkey.
    pub open spec fn offered(listed: AuthResult<Vec<StoredPasskey>>) -> bool {
        PASSKEY_LOGIN_ENABLED && (listed matches Ok(passkeys) && passkeys@.len() == 0)
    }

    /// Offer a passkey to an account that has none. Passkeys that cannot be listed are not
    /// offered.
    pub fn resume(self, listed: AuthResult<Vec<StoredPasskey>>) -> (r: VerifyResponse)
        ensures
            r == VerifyResponse::logs_in(
                FinalizeResult {
                    redirect_url: self.redirect_url,
                    offer_passkey: OfferPasskey::offered(listed),
                },
            ),
    {
        let offer_passkey = PASSKEY_LOGIN_ENABLED && match &listed {
            Ok(passkeys) => passkeys.len() == 0,
            Err(_) => false,
        };
        VerifyResponse::logged_in(
            FinalizeResult { redirect_url: self.redirect_url, offer_passkey },
        )
    }
}

} // verus!
