//! Verification codes sent by mail: issuing, throttling and checking them; and the captcha in
//! front of a registration.

use vstd::prelude::*;

use crate::error::{server_state, AuthError, AuthResult};
use crate::interop::{bool_member, clock_reading, json_bools, same_secret, utc_now, LAST_SECOND};
use crate::session::{LoginSession, Stored};
use crate::text::{join, trim_trailing_slashes, without_trailing_slashes};

verus! {

/// How often a code may be guessed.
pub const MAX_OTP_ATTEMPTS: u32 = 5;

/// How long to wait between two mails.
pub const RESEND_COOLDOWN_SECONDS: i64 = 30;

/// From how many mails on a session is refused another one.
pub const MAX_RESEND_COUNT: u32 = 5;

/// How many digits a code has.
pub const OTP_DIGITS: usize = 6;

/// How long a code can be used.
pub const OTP_LIFETIME_SECONDS: i64 = 600;

/// The same, as the mail says it.
pub const OTP_LIFETIME_MINUTES: u32 = 10;

/// What a code is for, unless something else was said.
pub const LOGIN_PURPOSE: &'static str = "login";

/// Over how many locks the sessions are spread.
pub const SESSION_LOCK_STRIPES: usize = 64;

// ── Per-session locking ─────────────────────────────────────────────
/// Which lock guards a session: the one of its id, the first for a visitor without a session.
/// It must be held from before the session is read until the session is written back.
pub fn lock_session(session_id: Option<i128>) -> (stripe: usize)
    ensures
        stripe < SESSION_LOCK_STRIPES,
        match session_id {
            Some(id) => stripe == (if id >= 0 {
                id as int
            } else {
                -(id as int)
            }) % (SESSION_LOCK_STRIPES as int),
            None => stripe == 0,
        },
{
    match session_id {
        Some(id) => (id.unsigned_abs() % (SESSION_LOCK_STRIPES as u128)) as usize,
        None => 0,
    }
}

/// Whether a session has to be written back at once. A visitor without a session has nothing
/// to race over.
pub fn persist_now(session_id: Option<i128>) -> (r: bool)
    ensures
        r == (session_id is Some),
{
    session_id.is_some()
}

// ── Issuing a code ──────────────────────────────────────────────────
/// Mint a code of [`OTP_DIGITS`] digits for an address, and answer with `reply` once it is
/// mailed.
#[derive(Debug)]
pub struct OtpIssue<R> {
    pub email: String,
    pub purpose: String,
    pub reply: R,
}

/// Mail `code` to `email`, saying that it lasts `minutes`, and answer with `reply`.
#[derive(Debug)]
pub struct OtpMail<R> {
    pub email: String,
    pub code: String,
    pub minutes: u32,
    pub reply: R,
}

/// `s` with a fresh code for `email`, issued at `now`.
pub open spec fn otp_stored(
    s: LoginSession,
    code: String,
    email: String,
    purpose: String,
    now: i64,
) -> LoginSession {
    LoginSession {
        otp_code: Stored::Value(code),
        otp_email: Stored::Value(email),
        otp_expires_at: Stored::Value((now + OTP_LIFETIME_SECONDS) as i64),
        otp_purpose: Stored::Value(purpose),
        otp_attempts: Stored::Value(0),
        ..s
    }
}

/// How many mails the session has caused.
pub open spec fn mails_sent(s: LoginSession) -> u32 {
    match s.otp_resend_count {
        Stored::Value(n) => n,
        _ => 0,
    }
}

/// `s` after a mail went out at `now`.
pub open spec fn mail_noted(s: LoginSession, now: i64) -> LoginSession {
    LoginSession {
        otp_last_sent_at: Stored::Value(now),
        otp_resend_count: Stored::Value((mails_sent(s) + 1) as u32),
        ..s
    }
}

/// Put a fresh code for `email` into the session, as of `now`.
pub fn store_otp_at(
    session: &mut LoginSession,
    code: &String,
    email: &String,
    purpose: &String,
    now: i64,
)
    requires
        clock_reading(now),
    ensures
        *final(session) == otp_stored(*old(session), *code, *email, *purpose, now),
{
    session.otp_code = Stored::Value(code.clone());
    session.otp_email = Stored::Value(email.clone());
    session.otp_expires_at = Stored::Value(now + OTP_LIFETIME_SECONDS);
    session.otp_purpose = Stored::Value(purpose.clone());
    session.otp_attempts = Stored::Value(0);
}

/// `r` mails the code that was minted for `issue`, and `after` is the session that holds it.
pub open spec fn code_issued<R>(
    before: LoginSession,
    after: LoginSession,
    issue: OtpIssue<R>,
    minted: Result<String, String>,
    r: AuthResult<OtpMail<R>>,
) -> bool {
    match minted {
        Ok(code) => {
            &&& exists|now: i64| #[trigger]
                clock_reading(now) && after == otp_stored(
                    before,
                    code,
                    issue.email,
                    issue.purpose,
                    now,
                )
            &&& r == Ok::<OtpMail<R>, AuthError>(
                OtpMail {
                    email: issue.email,
                    code,
                    minutes: OTP_LIFETIME_MINUTES,
                    reply: issue.reply,
                },
            )
        },
        Err(e) => {
            &&& after == before
            &&& r matches Err(error) && error.server_state("Failed to generate OTP: "@ + e@)
        },
    }
}

/// Take the minted code into the session, bound to the address that it goes to, and say what
/// to mail.
pub fn generate_and_send_otp<R>(
    session: &mut LoginSession,
    issue: OtpIssue<R>,
    minted: Result<String, String>,
) -> (r: AuthResult<OtpMail<R>>)
    ensures
        code_issued(*old(session), *final(session), issue, minted, r),
{
    match minted {
        Ok(code) => {
            let now: i64 = utc_now();
            store_otp_at(session, &code, &issue.email, &issue.purpose, now);
            Ok(
                OtpMail {
                    email: issue.email,
                    code,
                    minutes: OTP_LIFETIME_MINUTES,
                    reply: issue.reply,
                },
            )
        },
        Err(e) => Err(server_state(join("Failed to generate OTP: ", e.as_str()).as_str())),
    }
}

/// Note a mail that went out at `now`.
pub fn note_mail_at(session: &mut LoginSession, now: i64)
    requires
        mails_sent(*old(session)) < u32::MAX,
    ensures
        *final(session) == mail_noted(*old(session), now),
{
    let count: u32 = match &session.otp_resend_count {
        Stored::Value(n) => *n,
        _ => 0,
    };
    session.otp_last_sent_at = Stored::Value(now);
    session.otp_resend_count = Stored::Value(count + 1);
}

/// `r` is the reply that waited for `mail`, and `after` the session that has noted it.
pub open spec fn code_mailed<R>(
    before: LoginSession,
    after: LoginSession,
    mail: OtpMail<R>,
    outcome: Result<(), String>,
    r: AuthResult<R>,
) -> bool {
    match outcome {
        Ok(_) => {
            &&& exists|now: i64| #[trigger]
                clock_reading(now) && after == mail_noted(before, now)
            &&& r == Ok::<R, AuthError>(mail.reply)
        },
        Err(e) => {
            &&& after == before
            &&& r matches Err(error) && error.server_state(
                "Failed to send verification email: "@ + e@,
            )
        },
    }
}

/// Close the sending of a code: the mail counts against the session's throttle only once it
/// went out.
pub fn otp_mailed<R>(
    session: &mut LoginSession,
    mail: OtpMail<R>,
    outcome: Result<(), String>,
) -> (r: AuthResult<R>)
    requires
        outcome is Ok ==> mails_sent(*old(session)) < u32::MAX,
    ensures
        code_mailed(*old(session), *final(session), mail, outcome, r),
{
    match outcome {
        Ok(_) => {
            let now: i64 = utc_now();
            note_mail_at(session, now);
            Ok(mail.reply)
        },
        Err(e) => Err(
            server_state(join("Failed to send verification email: ", e.as_str()).as_str()),
        ),
    }
}

/// `s` without a code in flight.
pub open spec fn otp_cleared(s: LoginSession) -> LoginSession {
    LoginSession {
        otp_code: Stored::Missing,
        otp_email: Stored::Missing,
        otp_expires_at: Stored::Missing,
        otp_purpose: Stored::Missing,
        otp_attempts: Stored::Missing,
        ..s
    }
}

/// Wipe the code in flight. Every field goes together: a code must not outlive the address
/// that it was bound to.
pub fn clear_otp_state(session: &mut LoginSession)
    ensures
        *final(session) == otp_cleared(*old(session)),
{
    session.otp_code = Stored::Missing;
    session.otp_email = Stored::Missing;
    session.otp_expires_at = Stored::Missing;
    session.otp_purpose = Stored::Missing;
    session.otp_attempts = Stored::Missing;
}

// ── Checking a code ─────────────────────────────────────────────────
/// What checking a submitted code comes to.
pub enum OtpVerdict {
    /// The session cannot be read.
    SessionError,
    NotInProgress,
    Expired,
    /// The code was guessed too often.
    Exhausted,
    Wrong,
    Verified,
}

/// How often the code in flight was guessed.
pub open spec fn otp_attempts(s: LoginSession) -> u32 {
    match s.otp_attempts {
        Stored::Value(n) => n,
        _ => 0,
    }
}

/// What checking `submitted` at `now` comes to.
pub open spec fn otp_verdict(s: LoginSession, submitted: Seq<char>, now: i64) -> OtpVerdict {
    if s.otp_code is Unreadable {
        OtpVerdict::SessionError
    } else if s.otp_code is Missing {
        OtpVerdict::NotInProgress
    } else if s.otp_email is Unreadable {
        OtpVerdict::SessionError
    } else if s.otp_email is Missing {
        OtpVerdict::NotInProgress
    } else if s.otp_expires_at is Unreadable {
        OtpVerdict::SessionError
    } else if s.otp_expires_at is Missing {
        OtpVerdict::NotInProgress
    } else if now > s.otp_expires_at->Value_0 {
        OtpVerdict::Expired
    } else if s.otp_attempts is Unreadable {
        OtpVerdict::SessionError
    } else if otp_attempts(s) >= MAX_OTP_ATTEMPTS {
        OtpVerdict::Exhausted
    } else if submitted != s.otp_code->Value_0@ {
        OtpVerdict::Wrong
    } else {
        OtpVerdict::Verified
    }
}

/// The session after checking `submitted` at `now`.
pub open spec fn otp_after(s: LoginSession, submitted: Seq<char>, now: i64) -> LoginSession {
    match otp_verdict(s, submitted, now) {
        OtpVerdict::SessionError => s,
        OtpVerdict::NotInProgress => s,
        OtpVerdict::Wrong => LoginSession {
            otp_attempts: Stored::Value((otp_attempts(s) + 1) as u32),
            ..s
        },
        _ => otp_cleared(s),
    }
}

/// What a user is told whose code was not accepted.
pub open spec fn otp_refusal(verdict: OtpVerdict) -> Seq<char> {
    match verdict {
        OtpVerdict::SessionError => "Session error"@,
        OtpVerdict::NotInProgress => "No verification code in progress"@,
        OtpVerdict::Expired => "Verification code has expired. Please request a new one."@,
        OtpVerdict::Exhausted =>
            "Too many failed attempts. Please request a new verification code."@,
        _ => "Invalid verification code. Please try again."@,
    }
}

/// `outcome` is what the check of `submitted` at `now` returns, and `after` the session that
/// it leaves.
pub open spec fn otp_checked_at(
    before: LoginSession,
    after: LoginSession,
    submitted: Seq<char>,
    now: i64,
    outcome: Result<String, String>,
) -> bool {
    let verdict = otp_verdict(before, submitted, now);
    &&& after == otp_after(before, submitted, now)
    &&& match outcome {
        Ok(address) => verdict is Verified && before.otp_email == Stored::Value(address),
        Err(message) => !(verdict is Verified) && message@ == otp_refusal(verdict),
    }
}

/// Check a submitted code against the code in flight at `now`, and return the address that
/// the code was mailed to.
pub fn verify_otp_at(session: &mut LoginSession, submitted: &str, now: i64) -> (r: Result<
    String,
    String,
>)
    ensures
        otp_checked_at(*old(session), *final(session), submitted@, now, r),
{
    let stored_code: String = match session.otp_code.read() {
        Ok(Some(code)) => code.clone(),
        Ok(None) => {
            return Err("No verification code in progress".to_owned());
        },
        Err(_) => {
            return Err("Session error".to_owned());
        },
    };
    let bound_email: String = match session.otp_email.read() {
        Ok(Some(email)) => email.clone(),
        Ok(None) => {
            return Err("No verification code in progress".to_owned());
        },
        Err(_) => {
            return Err("Session error".to_owned());
        },
    };
    let expires_at: i64 = match session.otp_expires_at.read() {
        Ok(Some(at)) => *at,
        Ok(None) => {
            return Err("No verification code in progress".to_owned());
        },
        Err(_) => {
            return Err("Session error".to_owned());
        },
    };
    if now > expires_at {
        clear_otp_state(session);
        return Err("Verification code has expired. Please request a new one.".to_owned());
    }
    let attempts: u32 = match session.otp_attempts.read() {
        Ok(Some(n)) => *n,
        Ok(None) => 0,
        Err(_) => {
            return Err("Session error".to_owned());
        },
    };
    if attempts >= MAX_OTP_ATTEMPTS {
        clear_otp_state(session);
        return Err("Too many failed attempts. Please request a new verification code.".to_owned());
    }
    if !same_secret(submitted, stored_code.as_str()) {
        session.otp_attempts = Stored::Value(attempts + 1);
        return Err("Invalid verification code. Please try again.".to_owned());
    }
    clear_otp_state(session);
    Ok(bound_email)
}

/// [`verify_otp_at`] by the system clock. Callers take the user from the returned address:
/// the code proves something of that address only.
pub fn verify_otp_from_session(session: &mut LoginSession, submitted: &str) -> (r: Result<
    String,
    String,
>)
    ensures
        exists|now: i64| #[trigger]
            clock_reading(now) && otp_checked_at(
                *old(session),
                *final(session),
                submitted@,
                now,
                r,
            ),
{
    let now: i64 = utc_now();
    verify_otp_at(session, submitted, now)
}

/// A checked code whose session has not been written back yet.
#[derive(Debug)]
pub struct OtpChecked {
    pub outcome: Result<String, String>,
}

/// Let the outcome of a check count once the session was written back, still under the lock.
pub fn verify_otp_guarded(checked: OtpChecked, saved: AuthResult<()>) -> (r: AuthResult<
    Result<String, String>,
>)
    ensures
        match saved {
            Ok(_) => r == Ok::<Result<String, String>, AuthError>(checked.outcome),
            Err(e) => r == Err::<Result<String, String>, AuthError>(e),
        },
{
    match saved {
        Ok(_) => Ok(checked.outcome),
        Err(e) => Err(e),
    }
}

// ── Resend throttle ─────────────────────────────────────────────────
/// Whether another mail may go out.
#[derive(Clone, Copy, Debug)]
pub enum ResendThrottle {
    Open,
    /// The session has caused as many mails as it may.
    CapReached,
    /// The last mail is too recent; so many seconds are left.
    CoolingDown(i64),
}

/// Whether the throttle of `s` looks at the time: the mails can be counted and the cap is not
/// reached.
pub open spec fn cooldown_asked(s: LoginSession) -> bool {
    !(s.otp_resend_count is Unreadable) && mails_sent(s) < MAX_RESEND_COUNT
}

/// Where the throttle looks at the time, the seconds since the last mail, and those left of the
/// cooldown, are numbers of 64 bits, whatever the clock shows.
pub open spec fn cooldown_computable(s: LoginSession) -> bool {
    cooldown_asked(s) ==> (s.otp_last_sent_at matches Stored::Value(at) ==> LAST_SECOND - i64::MAX
        <= at <= i64::MAX - RESEND_COOLDOWN_SECONDS)
}

/// Whether the throttle of a session can be asked. Only a session with a time that no clock has
/// shown cannot.
pub fn cooldown_is_computable(session: &LoginSession) -> (r: bool)
    ensures
        r == cooldown_computable(*session),
{
    let asked = match &session.otp_resend_count {
        Stored::Value(n) => *n < MAX_RESEND_COUNT,
        Stored::Missing => true,
        Stored::Unreadable => false,
    };
    match &session.otp_last_sent_at {
        Stored::Value(at) => !asked || (LAST_SECOND - i64::MAX <= *at && *at <= i64::MAX
            - RESEND_COOLDOWN_SECONDS),
        _ => true,
    }
}

/// Whether the session `s` may cause another mail at `now`.
pub open spec fn throttle(s: LoginSession, now: i64) -> AuthResult<ResendThrottle> {
    if s.otp_resend_count is Unreadable {
        Err(AuthError::SessionError)
    } else if mails_sent(s) >= MAX_RESEND_COUNT {
        Ok(ResendThrottle::CapReached)
    } else if s.otp_last_sent_at is Unreadable {
        Err(AuthError::SessionError)
    } else {
        match s.otp_last_sent_at {
            Stored::Value(at) if now - at < RESEND_COOLDOWN_SECONDS => Ok(
                ResendThrottle::CoolingDown((at + RESEND_COOLDOWN_SECONDS - now) as i64),
            ),
            _ => Ok(ResendThrottle::Open),
        }
    }
}

/// The guard of a request for another mail, at `now`: a hard cap and a cooldown.
pub fn resend_throttle_at(session: &LoginSession, now: i64) -> (r: AuthResult<ResendThrottle>)
    requires
        clock_reading(now),
        cooldown_computable(*session),
    ensures
        r == throttle(*session, now),
        r matches Ok(ResendThrottle::CoolingDown(left)) ==> left > 0,
{
    let count: u32 = match session.otp_resend_count.read() {
        Ok(Some(n)) => *n,
        Ok(None) => 0,
        Err(e) => {
            return Err(e);
        },
    };
    if count >= MAX_RESEND_COUNT {
        return Ok(ResendThrottle::CapReached);
    }
    match session.otp_last_sent_at.read() {
        Ok(Some(at)) => {
            let elapsed: i64 = now - *at;
            if elapsed < RESEND_COOLDOWN_SECONDS {
                return Ok(ResendThrottle::CoolingDown(RESEND_COOLDOWN_SECONDS - elapsed));
            }
        },
        Ok(None) => {},
        Err(e) => {
            return Err(e);
        },
    }
    Ok(ResendThrottle::Open)
}

// ── Captcha ─────────────────────────────────────────────────────────
/// The captcha server of a deployment.
#[derive(Debug)]
pub struct CaptchaCfg {
    pub server_url: String,
    pub site_key: String,
    pub secret_key: String,
}

/// The three captcha settings as the environment has them.
#[derive(Debug)]
pub struct CaptchaEnv {
    pub server_url: Option<String>,
    pub site_key: Option<String>,
    pub secret_key: Option<String>,
}

/// A setting that is there and not empty.
pub open spec fn is_set(value: Option<String>) -> bool {
    value matches Some(v) && v@.len() > 0
}

/// Whether a captcha is configured: all three settings or none.
pub open spec fn captcha_configured(env: CaptchaEnv) -> bool {
    is_set(env.server_url) && is_set(env.site_key) && is_set(env.secret_key)
}

/// The captcha configuration that the environment gives; a partial one counts as none.
pub fn captcha_cfg(env: CaptchaEnv) -> (r: Option<CaptchaCfg>)
    ensures
        match r {
            Some(cfg) => {
                &&& captcha_configured(env)
                &&& env.server_url == Some(cfg.server_url)
                &&& env.site_key == Some(cfg.site_key)
                &&& env.secret_key == Some(cfg.secret_key)
            },
            None => !captcha_configured(env),
        },
{
    match (env.server_url, env.site_key, env.secret_key) {
        (Some(server_url), Some(site_key), Some(secret_key)) => {
            if server_url.as_str().is_empty() || site_key.as_str().is_empty()
                || secret_key.as_str().is_empty() {
                None
            } else {
                Some(CaptchaCfg { server_url, site_key, secret_key })
            }
        },
        _ => None,
    }
}

/// The request that asks the captcha server about a token: `token` posted to `url`, with
/// `bearer` as the bearer token.
#[derive(Debug)]
pub struct CaptchaRequest {
    pub url: String,
    pub bearer: String,
    pub token: String,
}

/// Where a captcha server verifies tokens.
pub open spec fn captcha_verify_url(server_url: Seq<char>) -> Seq<char> {
    without_trailing_slashes(server_url) + "/v1/verify"@
}

/// The request for `token`.
pub fn captcha_request(cfg: CaptchaCfg, token: String) -> (r: CaptchaRequest)
    ensures
        r.url@ == captcha_verify_url(cfg.server_url@),
        r.bearer == cfg.secret_key,
        r.token == token,
{
    CaptchaRequest {
        url: join(trim_trailing_slashes(cfg.server_url.as_str()), "/v1/verify"),
        bearer: cfg.secret_key,
        token,
    }
}

/// The captcha server's answer: whether its status is a success, and its body where that is
/// JSON.
#[derive(Debug)]
pub struct CaptchaAnswer {
    pub status_is_success: bool,
    pub body: Option<serde_json::Value>,
}

/// Whether the answer is a pass: a success status, and a body whose member `success` is true.
pub open spec fn captcha_passed(answer: CaptchaAnswer) -> bool {
    &&& answer.status_is_success
    &&& answer.body matches Some(body) && json_bools(body).dom().contains(seq!["success"@])
        && json_bools(body)[seq!["success"@]]
}

/// What the captcha server said of a token; an error where it did not answer.
pub fn verify_captcha_token(answer: Option<CaptchaAnswer>) -> (r: AuthResult<bool>)
    ensures
        match answer {
            Some(a) => r == Ok::<bool, AuthError>(captcha_passed(a)),
            None => r matches Err(e) && e.server_state("captcha verify request failed"@),
        },
{
    match answer {
        Some(a) => {
            let success = match &a.body {
                Some(body) => match bool_member(body, "success") {
                    Some(b) => b,
                    None => false,
                },
                None => false,
            };
            Ok(a.status_is_success && success)
        },
        None => Err(server_state("captcha verify request failed")),
    }
}

} // verus!
