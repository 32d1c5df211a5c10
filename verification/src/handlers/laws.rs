//! What holds of the login flows as a whole, over any number of requests.

use vstd::prelude::*;

use crate::config::AuthConfig;
use crate::error::{AuthError, AuthResult};
use crate::handlers::local_login;
use crate::handlers::otp::{
    captcha_configured, captcha_passed, cooldown_computable, mail_noted, mails_sent, otp_after,
    otp_attempts, otp_checked_at, otp_cleared, otp_stored, otp_verdict, throttle, CaptchaAnswer,
    CaptchaEnv, OtpIssue, ResendThrottle, MAX_OTP_ATTEMPTS, MAX_RESEND_COUNT, OTP_LIFETIME_SECONDS,
    RESEND_COOLDOWN_SECONDS,
};
use crate::handlers::registration::open_to;
use crate::handlers::session_auth;
use crate::handlers::session_auth::{
    attempt_counted, captcha_asked, code_of_redirect, id_token_resolved, login_keys, method_for,
    needs_tos, password_attempts, password_slot_left, pending_redirect, redirect_accepted,
    LoginMethod, MAX_PASSWORD_ATTEMPTS, TOS_VERSION,
};
use crate::interop::clock_reading;
use crate::session::{removal, LoginSession, SessionKey, Stored};
use crate::types::{
    AssertionOutcome, AuthUser, AuthUserInfo, CredentialKind, FerrisKeyFlow, IdTokenClaims,
    OidcTokenResponse, StoredPasskey,
};

verus! {

// ── Codes ───────────────────────────────────────────────────────────
/// A code logs in the address that it was mailed to, for as long as it lasts, whatever address
/// the login was restarted for or sent to meanwhile; and it is spent by that.
pub proof fn law_code_proves_the_address_it_was_mailed_to(
    s: LoginSession,
    code: String,
    email: String,
    purpose: String,
    issued: i64,
    sent: i64,
    other_email: Stored<String>,
    now: i64,
    after: LoginSession,
    outcome: Result<String, String>,
)
    requires
        clock_reading(issued),
        now <= issued + OTP_LIFETIME_SECONDS,
        otp_checked_at(
            LoginSession {
                login_email: other_email,
                ..mail_noted(otp_stored(s, code, email, purpose, issued), sent)
            },
            after,
            code@,
            now,
            outcome,
        ),
    ensures
        outcome == Ok::<String, String>(email),
        after == otp_cleared(after),
{
}

/// Another text than the code is never accepted for it.
pub proof fn law_wrong_code_is_refused(
    s: LoginSession,
    code: String,
    submitted: Seq<char>,
    now: i64,
    after: LoginSession,
    outcome: Result<String, String>,
)
    requires
        s.otp_code == Stored::Value(code),
        submitted != code@,
        otp_checked_at(s, after, submitted, now, outcome),
    ensures
        outcome is Err,
{
}

/// A code is refused from the moment that its lifetime is over, and gone after that.
pub proof fn law_code_expires(
    s: LoginSession,
    code: String,
    email: String,
    purpose: String,
    issued: i64,
    submitted: Seq<char>,
    now: i64,
)
    requires
        clock_reading(issued),
        now > issued + OTP_LIFETIME_SECONDS,
    ensures
        otp_verdict(otp_stored(s, code, email, purpose, issued), submitted, now) is Expired,
        otp_after(otp_stored(s, code, email, purpose, issued), submitted, now) == otp_cleared(s),
{
}

/// A code that was accepted, has expired or was guessed too often is not in progress any more:
/// no later request can use it.
pub proof fn law_code_is_used_once(
    s: LoginSession,
    submitted: Seq<char>,
    now: i64,
    again: Seq<char>,
    later: i64,
)
    requires
        ({
            let verdict = otp_verdict(s, submitted, now);
            verdict is Verified || verdict is Expired || verdict is Exhausted
        }),
    ensures
        otp_verdict(otp_after(s, submitted, now), again, later) is NotInProgress,
        otp_after(otp_after(s, submitted, now), again, later) == otp_after(s, submitted, now),
{
}

/// How many of these guesses, each with its time, are compared with the code and found wrong.
pub open spec fn wrong_guesses(s: LoginSession, guesses: Seq<(Seq<char>, i64)>) -> nat
    decreases guesses.len(),
{
    if guesses.len() == 0 {
        0
    } else {
        let (submitted, now) = guesses[0];
        let rest = wrong_guesses(otp_after(s, submitted, now), guesses.drop_first());
        if otp_verdict(s, submitted, now) is Wrong {
            1 + rest
        } else {
            rest
        }
    }
}

/// However many guesses are made at one code, no more than [`MAX_OTP_ATTEMPTS`] are compared
/// with it.
pub proof fn law_guesses_are_capped(s: LoginSession, guesses: Seq<(Seq<char>, i64)>)
    ensures
        wrong_guesses(s, guesses) <= MAX_OTP_ATTEMPTS,
        wrong_guesses(s, guesses) > 0 ==> wrong_guesses(s, guesses) + otp_attempts(s)
            <= MAX_OTP_ATTEMPTS,
    decreases guesses.len(),
{
    if guesses.len() > 0 {
        let (submitted, now) = guesses[0];
        law_guesses_are_capped(otp_after(s, submitted, now), guesses.drop_first());
        if !(otp_verdict(s, submitted, now) is Wrong) && otp_after(s, submitted, now) != s {
            lemma_no_code_no_guess(otp_cleared(s), guesses.drop_first());
        }
    }
}

proof fn lemma_no_code_no_guess(s: LoginSession, guesses: Seq<(Seq<char>, i64)>)
    requires
        s.otp_code is Missing,
    ensures
        wrong_guesses(s, guesses) == 0,
    decreases guesses.len(),
{
    if guesses.len() > 0 {
        lemma_no_code_no_guess(s, guesses.drop_first());
    }
}

/// Once the attempts are used up the right code does not help either.
pub proof fn law_exhausted_code_is_refused(s: LoginSession, submitted: Seq<char>, now: i64)
    requires
        otp_attempts(s) >= MAX_OTP_ATTEMPTS,
    ensures
        !(otp_verdict(s, submitted, now) is Verified),
{
}

/// The fields of a code in flight are there together or not at all.
pub open spec fn otp_whole(s: LoginSession) -> bool {
    ||| {
        &&& s.otp_code is Value
        &&& s.otp_email is Value
        &&& s.otp_expires_at is Value
        &&& s.otp_purpose is Value
        &&& s.otp_attempts is Value
    }
    ||| {
        &&& s.otp_code is Missing
        &&& s.otp_email is Missing
        &&& s.otp_expires_at is Missing
        &&& s.otp_purpose is Missing
        &&& s.otp_attempts is Missing
    }
}

/// No step of a login separates a code from the address that it is bound to.
pub proof fn law_code_and_address_stay_together(
    s: LoginSession,
    code: String,
    email: String,
    purpose: String,
    redirect: Option<String>,
    submitted: Seq<char>,
    now: i64,
)
    requires
        otp_whole(s),
    ensures
        otp_whole(otp_stored(s, code, email, purpose, now)),
        otp_whole(mail_noted(s, now)),
        otp_whole(otp_cleared(s)),
        otp_whole(otp_after(s, submitted, now)),
        otp_whole(attempt_counted(s)),
        otp_whole(session_auth::pending_reset(s)),
        otp_whole(session_auth::login_started(s, email, redirect)),
        otp_whole(session_auth::registration_pending(s)),
        otp_whole(removal(s, login_keys()).0),
        otp_whole(local_login::pending_reset(s).0),
        otp_whole(local_login::login_started(s, email, redirect).0),
        otp_whole(local_login::registration_pending(s)),
        otp_whole(removal(s, local_login::ceremony_keys()).0),
        otp_whole(local_login::login_ended(s).0),
{
    reveal_with_fuel(removal, 13);
    lemma_local_reset(s);
    lemma_local_reset(local_login::redirect_kept(s, redirect));
    lemma_local_reset(s.without(SessionKey::LoginEmail));
    lemma_local_end(s);
}

proof fn lemma_local_reset(s: LoginSession)
    ensures
        local_login::pending_reset(s).1 == !(s.local_deferred_new_user is Unreadable
            || s.passkey_challenge is Unreadable || s.passkey_user_id is Unreadable),
        local_login::pending_reset(s).1 ==> local_login::pending_reset(s).0 == (LoginSession {
            local_deferred_new_user: Stored::Missing,
            passkey_challenge: Stored::Missing,
            passkey_user_id: Stored::Missing,
            ..otp_cleared(s)
        }),
        otp_whole(local_login::pending_reset(s).0),
        local_login::pending_reset(s).0.otp_last_sent_at == s.otp_last_sent_at,
        local_login::pending_reset(s).0.otp_resend_count == s.otp_resend_count,
        local_login::pending_reset(s).0.password_attempts == s.password_attempts,
        local_login::pending_reset(s).0.otp_code is Missing,
{
    reveal_with_fuel(removal, 4);
}

proof fn lemma_local_end(s: LoginSession)
    requires
        otp_whole(s),
    ensures
        otp_whole(local_login::login_ended(s).0),
{
    reveal_with_fuel(removal, 3);
    lemma_local_reset(s.without(SessionKey::LoginEmail));
}

// ── Restarting a login ──────────────────────────────────────────────
/// Starting over drops the code and the pending registration of the earlier attempt, whatever
/// address either was for, and keeps the counters that guard against abuse: the mails sent, the
/// time of the last one and the password attempts.
pub proof fn law_restart_drops_credentials_and_keeps_counters(
    s: LoginSession,
    email: String,
    redirect: Option<String>,
    submitted: Seq<char>,
    now: i64,
)
    ensures
        ({
            let t = session_auth::login_started(s, email, redirect);
            &&& otp_verdict(t, submitted, now) is NotInProgress
            &&& t.deferred_new_user is Missing
            &&& t.login_email == Stored::Value(email)
            &&& t.otp_last_sent_at == s.otp_last_sent_at
            &&& t.otp_resend_count == s.otp_resend_count
            &&& t.password_attempts == s.password_attempts
            &&& throttle(t, now) == throttle(s, now)
        }),
{
}

/// The same of the self-owned flow, which also drops a passkey challenge; where something of the
/// earlier attempt could not be read back, the start fails, and still no code is left.
pub proof fn law_local_restart_drops_credentials_and_keeps_counters(
    s: LoginSession,
    email: String,
    redirect: Option<String>,
    submitted: Seq<char>,
    now: i64,
)
    ensures
        ({
            let (t, ok) = local_login::login_started(s, email, redirect);
            &&& otp_verdict(t, submitted, now) is NotInProgress
            &&& throttle(t, now) == throttle(s, now)
            &&& ok ==> {
                &&& t.local_deferred_new_user is Missing
                &&& t.passkey_challenge is Missing
                &&& t.passkey_user_id is Missing
                &&& t.login_email == Stored::Value(email)
            }
        }),
{
    lemma_local_reset(local_login::redirect_kept(s, redirect));
}

// ── Withheld codes ──────────────────────────────────────────────────
/// While the code of a new user is withheld until a captcha is solved, asking to have it sent
/// again does not send it.
pub proof fn law_resend_does_not_bypass_the_captcha(
    s: LoginSession,
    email: String,
    redirect: Option<String>,
    now: i64,
    r: AuthResult<session_auth::ResendNext>,
)
    requires
        session_auth::resend_answered(
            session_auth::registration_pending(session_auth::login_started(s, email, redirect)),
            now,
            r,
        ),
    ensures
        r matches Err(e) && e.bad_request("No verification code in progress"@),
{
}

/// The same of the self-owned flow, where falling back from a passkey does not send it either.
pub proof fn law_local_flow_does_not_bypass_the_captcha(
    s: LoginSession,
    email: String,
    redirect: Option<String>,
    now: i64,
    resend: AuthResult<local_login::ResendNext>,
    after: LoginSession,
    fallback: AuthResult<OtpIssue<local_login::StartSessionResponse>>,
)
    requires
        local_login::login_started(s, email, redirect).1,
        local_login::resend_answered(
            local_login::registration_pending(local_login::login_started(s, email, redirect).0),
            now,
            resend,
        ),
        local_login::fallback_answered(
            local_login::registration_pending(local_login::login_started(s, email, redirect).0),
            after,
            now,
            fallback,
        ),
    ensures
        resend matches Err(e) && e.bad_request("No verification code in progress"@),
        fallback matches Err(e) && e.bad_request(
            "Please complete verification to receive a code."@,
        ),
{
    lemma_local_reset(local_login::redirect_kept(s, redirect));
}

/// A withheld code is sent only where a captcha server was asked about a token and let it pass:
/// no token, a rejection and no answer all block the registration.
pub proof fn law_captcha_fails_closed(
    env: CaptchaEnv,
    token: Option<String>,
    asked: AuthResult<session_auth::CaptchaNext>,
    s: LoginSession,
    now: i64,
    answer: Option<CaptchaAnswer>,
    r: AuthResult<session_auth::AfterCaptcha>,
    local_r: AuthResult<session_auth::AfterCaptcha>,
)
    requires
        captcha_asked(env, token, asked),
        session_auth::captcha_concluded(s, answer, r),
        local_login::captcha_concluded(s, now, answer, local_r),
    ensures
        asked matches Ok(session_auth::CaptchaNext::Verify(request)) ==> captcha_configured(env)
            && token == Some(request.token) && request.token@.len() > 0,
        r matches Ok(session_auth::AfterCaptcha::MintOtp(_)) ==> (answer matches Some(a)
            && captcha_passed(a)),
        local_r matches Ok(session_auth::AfterCaptcha::MintOtp(_)) ==> (answer matches Some(a)
            && captcha_passed(a)),
{
}

// ── Accounts ────────────────────────────────────────────────────────
/// A verified code makes the identity provider create a user only for a pending registration,
/// and only while the allowlist is open to the address that the code was mailed to, whatever
/// was decided when the login started.
pub proof fn law_accounts_are_created_under_the_allowlist(
    step: session_auth::OtpToken,
    first: session_auth::OtpRegistration,
    config: AuthConfig,
    s: LoginSession,
    answer: AuthResult<OidcTokenResponse>,
    has_users: AuthResult<bool>,
    r: AuthResult<session_auth::OtpAccount>,
    first_r: AuthResult<session_auth::OtpCreateUser>,
)
    requires
        session_auth::account_sourced(step, config, s, answer, r),
        session_auth::first_account_decided(first, config, has_users, first_r),
    ensures
        r matches Ok(session_auth::OtpAccount::CreateUser(create)) ==> create.email == step.email
            && session_auth::is_deferred(s) && (forall|any: bool| #[trigger]
            open_to(config, step.email@, any)),
        r matches Ok(session_auth::OtpAccount::AskForUsers(ask)) ==> ask.email == step.email
            && session_auth::is_deferred(s),
        first_r matches Ok(create) ==> create.email == first.email && (has_users matches Ok(any)
            && open_to(config, first.email@, any)),
{
}

/// The self-owned flow creates an account only while the allowlist is open to the address that
/// the code was mailed to.
pub proof fn law_local_accounts_are_created_under_the_allowlist(
    step: local_login::FindAccount,
    first: local_login::AccountRegistration,
    config: AuthConfig,
    found: AuthResult<Option<AuthUser>>,
    has_users: AuthResult<bool>,
    r: AuthResult<local_login::AccountNext>,
    first_r: AuthResult<local_login::MintSubject>,
)
    requires
        local_login::account_looked_up(step, config, found, r),
        local_login::first_account_decided(first, config, has_users, first_r),
    ensures
        r matches Ok(local_login::AccountNext::MintSubject(mint)) ==> mint.email == step.email
            && (forall|any: bool| #[trigger] open_to(config, step.email@, any)),
        first_r matches Ok(mint) ==> mint.email == first.email && (has_users matches Ok(any)
            && open_to(config, first.email@, any)),
{
}

/// An account that exists is taken as the store has it, its subject included, whatever the
/// allowlist says.
pub proof fn law_existing_account_is_taken_as_it_is(
    step: local_login::FindAccount,
    config: AuthConfig,
    user: AuthUser,
    r: AuthResult<local_login::AccountNext>,
)
    requires
        local_login::account_looked_up(
            step,
            config,
            Ok::<Option<AuthUser>, AuthError>(Some(user)),
            r,
        ),
    ensures
        r == Ok::<local_login::AccountNext, AuthError>(local_login::AccountNext::Found(user)),
{
}

// ── Passkeys ────────────────────────────────────────────────────────
/// A challenge that an assertion has answered cannot be answered again.
pub proof fn law_passkey_challenge_is_used_once<P, E>(
    step: local_login::VerifyAssertion<P>,
    before: LoginSession,
    after: LoginSession,
    outcome: AssertionOutcome,
    r: AuthResult<local_login::AfterAssertion>,
    again: serde_json::Value,
    again_r: AuthResult<local_login::FindPasskey>,
)
    requires
        local_login::assertion_concluded(
            step,
            before,
            after,
            Ok::<AssertionOutcome, E>(outcome),
            r,
        ),
        local_login::assertion_taken(after, again, again_r),
    ensures
        again_r matches Err(e) && e.bad_request("No passkey challenge in progress"@),
{
    reveal_with_fuel(removal, 3);
}

/// An assertion that fails leaves the challenge and its account to be tried again.
pub proof fn law_failed_assertion_can_be_retried<P, E>(
    step: local_login::VerifyAssertion<P>,
    before: LoginSession,
    after: LoginSession,
    error: E,
    r: AuthResult<local_login::AfterAssertion>,
)
    requires
        local_login::assertion_concluded(
            step,
            before,
            after,
            Err::<AssertionOutcome, E>(error),
            r,
        ),
    ensures
        after == before,
        r is Ok,
{
}

// ── Mails ───────────────────────────────────────────────────────────
/// Whether the throttle of `s` lets a mail out at `now`.
pub open spec fn throttle_open(s: LoginSession, now: i64) -> bool {
    throttle(s, now) == Ok::<ResendThrottle, AuthError>(ResendThrottle::Open)
}

/// In the provider-backed flow a code is sent again only while the throttle is open, and only to
/// the address that the login was started for.
pub proof fn law_resend_goes_through_the_throttle(
    s: LoginSession,
    now: i64,
    r: AuthResult<session_auth::ResendNext>,
)
    requires
        session_auth::resend_answered(s, now, r),
    ensures
        r matches Ok(session_auth::ResendNext::MintOtp(issue)) ==> s.login_email == Stored::Value(
            issue.email,
        ) && throttle_open(s, now),
{
}

/// Every endpoint of the self-owned flow that can cause a mail goes through the throttle: the
/// start of a login for an existing and for a new account, the captcha, the request for another
/// code and the one for a code instead of a passkey.
pub proof fn law_local_mails_go_through_the_throttle(
    s: LoginSession,
    now: i64,
    existing: local_login::StartPasskeys,
    config: AuthConfig,
    listed: AuthResult<Vec<StoredPasskey>>,
    existing_r: AuthResult<local_login::AfterPasskeys>,
    new: local_login::StartCaptcha,
    env: CaptchaEnv,
    new_r: AuthResult<local_login::StartNewUser>,
    answer: Option<CaptchaAnswer>,
    captcha_r: AuthResult<session_auth::AfterCaptcha>,
    resend_r: AuthResult<local_login::ResendNext>,
    after: LoginSession,
    fallback_r: AuthResult<OtpIssue<local_login::StartSessionResponse>>,
)
    requires
        local_login::existing_user_answered(existing, config, s, now, listed, existing_r),
        local_login::new_user_answered(new, s, now, env, new_r),
        local_login::captcha_concluded(s, now, answer, captcha_r),
        local_login::resend_answered(s, now, resend_r),
        local_login::fallback_answered(s, after, now, fallback_r),
    ensures
        existing_r matches Ok(local_login::AfterPasskeys::MintOtp(issue)) ==> issue.email
            == existing.email && throttle_open(s, now),
        new_r matches Ok(local_login::StartNewUser::MintOtp(issue)) ==> issue.email == new.email
            && throttle_open(s, now),
        captcha_r matches Ok(session_auth::AfterCaptcha::MintOtp(issue)) ==> s.login_email
            == Stored::Value(issue.email) && throttle_open(s, now),
        resend_r matches Ok(local_login::ResendNext::MintOtp(issue)) ==> s.login_email
            == Stored::Value(issue.email) && throttle_open(s, now),
        fallback_r matches Ok(issue) ==> s.login_email == Stored::Value(issue.email)
            && throttle_open(s, now),
{
}

/// A session of the self-owned flow that has caused as many mails as it may gets none by starting
/// over: an existing account without passkeys and a new one without a captcha are both refused.
pub proof fn law_restart_does_not_reopen_the_throttle(
    s: LoginSession,
    email: String,
    redirect: Option<String>,
    now: i64,
    existing: local_login::StartPasskeys,
    config: AuthConfig,
    listed: AuthResult<Vec<StoredPasskey>>,
    existing_r: AuthResult<local_login::AfterPasskeys>,
    new: local_login::StartCaptcha,
    env: CaptchaEnv,
    new_r: AuthResult<local_login::StartNewUser>,
)
    requires
        mails_sent(s) >= MAX_RESEND_COUNT,
        !local_login::is_challenged(listed),
        !captcha_configured(env),
        local_login::existing_user_answered(
            existing,
            config,
            local_login::login_started(s, email, redirect).0,
            now,
            listed,
            existing_r,
        ),
        local_login::new_user_answered(
            new,
            local_login::registration_pending(local_login::login_started(s, email, redirect).0),
            now,
            env,
            new_r,
        ),
    ensures
        existing_r matches Err(e) && e.bad_request(
            "Maximum resend attempts reached. Please start a new login."@,
        ),
        new_r matches Err(e) && e.bad_request(
            "Maximum resend attempts reached. Please start a new login."@,
        ),
{
    lemma_local_reset(local_login::redirect_kept(s, redirect));
}

/// Right after a mail no other one goes out, until the cooldown is over.
pub proof fn law_mails_keep_their_distance(s: LoginSession, sent: i64, now: i64)
    requires
        mails_sent(s) < u32::MAX,
        now < sent + RESEND_COOLDOWN_SECONDS,
    ensures
        !(throttle(mail_noted(s, sent), now) == Ok::<ResendThrottle, AuthError>(
            ResendThrottle::Open,
        )),
{
}

/// When the cooldown is over another mail may go out, as long as there were fewer than
/// [`MAX_RESEND_COUNT`].
pub proof fn law_cooldown_ends(s: LoginSession, sent: i64, now: i64)
    requires
        mails_sent(s) < u32::MAX,
        now >= sent + RESEND_COOLDOWN_SECONDS,
    ensures
        throttle(mail_noted(s, sent), now) == Ok::<ResendThrottle, AuthError>(
            if mails_sent(s) + 1 < MAX_RESEND_COUNT {
                ResendThrottle::Open
            } else {
                ResendThrottle::CapReached
            },
        ),
{
}

/// How many mails go out for requests at these times.
pub open spec fn mails_let_through(s: LoginSession, times: Seq<i64>) -> nat
    decreases times.len(),
{
    if times.len() == 0 {
        0
    } else if throttle_open(s, times[0]) {
        1 + mails_let_through(mail_noted(s, times[0]), times.drop_first())
    } else {
        mails_let_through(s, times.drop_first())
    }
}

/// However often a session asks to have a code sent again, no more than [`MAX_RESEND_COUNT`]
/// mails go out.
pub proof fn law_mails_are_capped(s: LoginSession, times: Seq<i64>)
    ensures
        mails_let_through(s, times) <= MAX_RESEND_COUNT,
        mails_let_through(s, times) > 0 ==> mails_let_through(s, times) + mails_sent(s)
            <= MAX_RESEND_COUNT,
    decreases times.len(),
{
    if times.len() > 0 {
        if throttle_open(s, times[0]) {
            law_mails_are_capped(mail_noted(s, times[0]), times.drop_first());
        } else {
            law_mails_are_capped(s, times.drop_first());
        }
    }
}

/// What can happen to a session of the self-owned flow before a login succeeds.
pub enum LocalEvent {
    /// A login is started, or started over.
    Start { email: String, redirect: Option<String> },
    /// The address turns out to be new.
    Register,
    /// A passkey challenge is parked.
    Challenge { challenge: String, user_id: Stored<String> },
    /// A passkey challenge is answered or given up.
    EndCeremony,
    /// A code is guessed.
    Guess { submitted: Seq<char>, now: i64 },
    /// A mail is asked for. Where the throttle lets it out, a code is issued; `sent` is when the
    /// mail went out, nothing where it could not be delivered.
    Mail {
        asked: i64,
        code: String,
        email: String,
        purpose: String,
        issued: i64,
        sent: Option<i64>,
    },
}

/// The session after the event.
pub open spec fn after_event(s: LoginSession, event: LocalEvent) -> LoginSession {
    match event {
        LocalEvent::Start { email, redirect } => local_login::login_started(s, email, redirect).0,
        LocalEvent::Register => local_login::registration_pending(s),
        LocalEvent::Challenge { challenge, user_id } => LoginSession {
            passkey_challenge: Stored::Value(challenge),
            passkey_user_id: user_id,
            ..s
        },
        LocalEvent::EndCeremony => removal(s, local_login::ceremony_keys()).0,
        LocalEvent::Guess { submitted, now } => otp_after(s, submitted, now),
        LocalEvent::Mail { asked, code, email, purpose, issued, sent } => if throttle_open(s, asked) {
            let stored = otp_stored(s, code, email, purpose, issued);
            match sent {
                Some(now) => mail_noted(stored, now),
                None => stored,
            }
        } else {
            s
        },
    }
}

/// Whether the event sends a mail.
pub open spec fn sends_mail(s: LoginSession, event: LocalEvent) -> bool {
    match event {
        LocalEvent::Mail { asked, sent, .. } => throttle_open(s, asked) && sent is Some,
        _ => false,
    }
}

/// How many mails these events send.
pub open spec fn mails_of(s: LoginSession, events: Seq<LocalEvent>) -> nat
    decreases events.len(),
{
    if events.len() == 0 {
        0
    } else {
        let rest = mails_of(after_event(s, events[0]), events.drop_first());
        if sends_mail(s, events[0]) {
            1 + rest
        } else {
            rest
        }
    }
}

/// Whatever is done in a session of the self-owned flow before a login succeeds, and however
/// often it is started over, no more than [`MAX_RESEND_COUNT`] mails go out.
pub proof fn law_local_mails_are_capped(s: LoginSession, events: Seq<LocalEvent>)
    ensures
        mails_of(s, events) <= MAX_RESEND_COUNT,
        mails_of(s, events) > 0 ==> mails_of(s, events) + mails_sent(s) <= MAX_RESEND_COUNT,
    decreases events.len(),
{
    if events.len() > 0 {
        let next = after_event(s, events[0]);
        law_local_mails_are_capped(next, events.drop_first());
        if let LocalEvent::Start { email, redirect } = events[0] {
            lemma_local_reset(local_login::redirect_kept(s, redirect));
        }
        if !sends_mail(s, events[0]) {
            reveal_with_fuel(removal, 3);
            assert(next.otp_resend_count == s.otp_resend_count);
        }
    }
}

/// A session in which a mail was noted by the system clock can be asked about the cooldown.
pub proof fn law_noted_mails_can_be_timed(s: LoginSession, now: i64)
    requires
        clock_reading(now),
    ensures
        cooldown_computable(LoginSession { otp_last_sent_at: Stored::Missing, ..s }),
        cooldown_computable(mail_noted(s, now)),
{
}

// ── Passwords ───────────────────────────────────────────────────────
/// How many of `n` password attempts are let through, if none of them hands its slot back.
pub open spec fn attempts_let_through(s: LoginSession, n: nat) -> nat
    decreases n,
{
    if n == 0 || s.password_attempts is Unreadable || !password_slot_left(s) {
        0
    } else {
        1 + attempts_let_through(attempt_counted(s), (n - 1) as nat)
    }
}

/// However many passwords are tried and fail, no more than [`MAX_PASSWORD_ATTEMPTS`] reach the
/// identity provider.
pub proof fn law_password_attempts_are_capped(s: LoginSession, n: nat)
    ensures
        attempts_let_through(s, n) <= MAX_PASSWORD_ATTEMPTS,
        attempts_let_through(s, n) > 0 ==> attempts_let_through(s, n) + password_attempts(s)
            <= MAX_PASSWORD_ATTEMPTS,
    decreases n,
{
    if n > 0 && !(s.password_attempts is Unreadable) && password_slot_left(s) {
        law_password_attempts_are_capped(attempt_counted(s), (n - 1) as nat);
    }
}

// ── Provider logins ─────────────────────────────────────────────────
/// A code is a way in only for accounts that have no credential at the identity provider.
pub proof fn law_code_login_is_for_accounts_without_credentials(credentials: Seq<CredentialKind>)
    ensures
        method_for(credentials) == LoginMethod::EmailCode <==> credentials.len() == 0,
{
    if credentials.len() > 0 {
        assert(credentials.contains(credentials[0]));
    }
}

/// A redirect is accepted only with the state of the flow that it answers, and yields its code.
pub proof fn law_redirect_is_bound_to_its_flow(
    url: Seq<char>,
    state: Seq<char>,
    r: AuthResult<String>,
)
    requires
        code_of_redirect(url, state, r),
    ensures
        r is Ok <==> redirect_accepted(url, state),
{
}

/// A redirect that one flow accepts is refused by every flow with another state.
pub proof fn law_redirect_serves_one_flow(
    url: Seq<char>,
    state: Seq<char>,
    other_state: Seq<char>,
    r: AuthResult<String>,
)
    requires
        redirect_accepted(url, state),
        other_state != state,
        code_of_redirect(url, other_state, r),
    ensures
        r matches Err(e) && e.unauthorized("Login flow state mismatch — please retry"@),
{
}

/// An id_token names a user only with the nonce of the flow, where it has one, and with an
/// address; the address counts as verified only where the provider says so.
pub proof fn law_id_token_is_bound_to_its_flow(
    flow: FerrisKeyFlow,
    claims: IdTokenClaims,
    r: AuthResult<AuthUserInfo>,
)
    requires
        id_token_resolved(flow, Ok::<IdTokenClaims, String>(claims), r),
        r is Ok,
    ensures
        flow.nonce matches Some(nonce) ==> claims.nonce matches Some(returned) && returned@
            == nonce@,
        r->Ok_0.sub == claims.sub,
        claims.email == Some(r->Ok_0.email),
        r->Ok_0.email@.len() > 0,
        r->Ok_0.email_verified ==> claims.email_verified == Some(true),
{
}

// ── Finished logins ─────────────────────────────────────────────────
/// A login ends with all of its temporary state removed, and with everything else as it was;
/// it fails exactly where some of that state could not be read back.
pub proof fn law_finished_login_leaves_nothing_behind(s: LoginSession)
    ensures
        removal(s, login_keys()).1 == (forall|key: SessionKey|
            #![trigger s.unreadable(key)]
            login_keys().contains(key) ==> !s.unreadable(key)),
        removal(s, login_keys()).1 ==> removal(s, login_keys()).0 == (LoginSession {
            login_redirect_url: s.login_redirect_url,
            tos_pending_redirect: s.tos_pending_redirect,
            local_deferred_new_user: s.local_deferred_new_user,
            passkey_challenge: s.passkey_challenge,
            passkey_user_id: s.passkey_user_id,
            ..LoginSession::spec_empty()
        }),
{
    reveal_with_fuel(removal, 13);
    let keys = login_keys();
    assert(keys[0] == SessionKey::Flow);
    assert(keys[1] == SessionKey::LoginEmail);
    assert(keys[2] == SessionKey::FerrisKeyUserId);
    assert(keys[3] == SessionKey::OtpCode);
    assert(keys[4] == SessionKey::OtpEmail);
    assert(keys[5] == SessionKey::OtpExpiresAt);
    assert(keys[6] == SessionKey::OtpPurpose);
    assert(keys[7] == SessionKey::OtpAttempts);
    assert(keys[8] == SessionKey::OtpLastSentAt);
    assert(keys[9] == SessionKey::OtpResendCount);
    assert(keys[10] == SessionKey::DeferredNewUser);
    assert(keys[11] == SessionKey::PasswordAttempts);
    if forall|key: SessionKey| #![trigger s.unreadable(key)] keys.contains(key) ==> !s.unreadable(
        key,
    ) {
        assert forall|i: int| 0 <= i < keys.len() implies !s.unreadable(#[trigger] keys[i]) by {
            assert(keys.contains(keys[i]));
        }
        assert(removal(s, keys).1);
    } else {
        let key = choose|key: SessionKey|
            #![trigger s.unreadable(key)]
            keys.contains(key) && s.unreadable(key);
        assert(!removal(s, keys).1);
    }
}

/// The same of the self-owned flow. A code that could not be read back is no failure there.
pub proof fn law_finished_local_login_leaves_nothing_behind(s: LoginSession)
    ensures
        local_login::login_ended(s).1 == !(s.login_email is Unreadable
            || s.local_deferred_new_user is Unreadable || s.passkey_challenge is Unreadable
            || s.passkey_user_id is Unreadable || s.otp_last_sent_at is Unreadable
            || s.otp_resend_count is Unreadable),
        local_login::login_ended(s).1 ==> local_login::login_ended(s).0 == (LoginSession {
            login_redirect_url: s.login_redirect_url,
            flow: s.flow,
            ferriskey_user_id: s.ferriskey_user_id,
            tos_pending_redirect: s.tos_pending_redirect,
            deferred_new_user: s.deferred_new_user,
            password_attempts: s.password_attempts,
            ..LoginSession::spec_empty()
        }),
{
    reveal_with_fuel(removal, 3);
    lemma_local_reset(s.without(SessionKey::LoginEmail));
}

// ── Terms of service ────────────────────────────────────────────────
/// Who has accepted the current terms is not asked again, and everybody else is.
pub proof fn law_current_terms_are_accepted_once(user: AuthUser)
    ensures
        !needs_tos(user) <==> (user.tos_acceptance matches Some(acceptance)
            && acceptance.latest_version@ == TOS_VERSION@ && acceptance.accepted),
{
}

/// Accepting the terms leads to where the login that waited for them was going.
pub proof fn law_terms_keep_the_destination(s: LoginSession, url: String)
    ensures
        pending_redirect(LoginSession { tos_pending_redirect: Stored::Value(url), ..s }) == url@,
{
}

} // verus!
