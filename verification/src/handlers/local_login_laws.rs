//! What the steps of the self-owned flow come to, in terms of what they are given.

use vstd::prelude::*;
use vstd::utf8::encode_utf8;

use crate::config::AuthConfig;
use crate::error::{AuthError, AuthResult};
use crate::handlers::local_login;
use crate::handlers::local_login::{
    account_looked_up, allows, assertion_concluded, assertion_taken, captcha_concluded,
    ceremony_keys, existing_user_answered, fallback_answered, fallback_throttled, finalizes,
    first_account_decided, handle_of, is_challenged, is_deferred, issues_login_otp, login_ended,
    login_started, new_user_answered, owner_accepted, pending_reset, raw_id_of, redirect_kept,
    registration_pending, resend_answered, throttle_answered, throttle_message, user_handle_of,
    withheld_throttled, AccountNext, AccountRegistration, AfterAssertion, AfterCaptcha, AfterFind,
    AfterLookup, AfterOtp, AfterPasskeys, FinalizeResult, FindAccount, FindPasskey, MintSubject,
    OfferPasskey, ResendNext, StartCaptcha, StartLookup, StartNewUser, StartPasskeys,
    StartRegistration, StartSessionResponse, VerifyAssertion, VerifyResponse, PASSKEY_FAILED,
    PASSKEY_LOGIN_ENABLED, SUBJECT_TOKEN_BYTES,
};
use crate::handlers::opening::{session_data_of, CycleId};
use crate::handlers::otp::{
    captcha_configured, captcha_passed, throttle, CaptchaAnswer, CaptchaEnv, OtpChecked, OtpIssue,
    ResendThrottle,
};
use crate::handlers::otp_laws::same_but_for_the_code;
use crate::handlers::registration::{depends_on_users, open_to};
use crate::handlers::session_auth::{purpose_of, wait_message, withheld_code_sent};
use crate::interop::{base64url, json_string_at, json_strings};
use crate::session::{removal, LoginSession, Stored};
use crate::types::{AssertionOutcome, AuthUser, StoredPasskey};

verus! {

/// Passkeys log in, a subject is made of sixteen bytes, and a failed assertion is told as such.
pub proof fn law_settings_of_the_local_flow()
    ensures
        PASSKEY_LOGIN_ENABLED,
        SUBJECT_TOKEN_BYTES == 16,
        PASSKEY_FAILED@ == "Passkey verification failed. Please try again."@,
{
}

// ── Answers ─────────────────────────────────────────────────────────
/// The answer to a start says one thing, and carries nothing that belongs to another one.
pub proof fn law_local_start_answers_say_one_thing(
    options: serde_json::Value,
    is_new_user: bool,
    has_passkeys: bool,
    server_url: String,
    site_key: String,
)
    ensures
        ({
            let sent = StartSessionResponse::says_otp_sent(is_new_user, has_passkeys);
            &&& sent.otp_sent && sent.is_new_user == is_new_user
            &&& sent.has_passkeys == has_passkeys && sent.public_key_options is None
            &&& sent.captcha_required is None && sent.captcha_server_url is None
            &&& sent.captcha_site_key is None
        }),
        ({
            let offer = StartSessionResponse::offers_passkey(options);
            &&& offer.public_key_options == Some(options) && offer.has_passkeys
            &&& !offer.otp_sent && !offer.is_new_user && offer.captcha_required is None
            &&& offer.captcha_server_url is None && offer.captcha_site_key is None
        }),
        ({
            let captcha = StartSessionResponse::asks_captcha(server_url, site_key);
            &&& captcha.captcha_required == Some(true)
            &&& captcha.captcha_server_url == Some(server_url)
            &&& captcha.captcha_site_key == Some(site_key)
            &&& !captcha.otp_sent && captcha.is_new_user && !captcha.has_passkeys
            &&& captcha.public_key_options is None
        }),
{
}

/// The answer to a verification either refuses, with a message, or succeeds, without one.
pub proof fn law_local_verify_answers_say_one_thing(
    reply: VerifyResponse,
    message: Seq<char>,
    retry_after: Option<i64>,
    result: FinalizeResult,
)
    ensures
        reply.refuses(message, retry_after) ==> {
            &&& !reply.success
            &&& reply.error matches Some(m) && m@ == message
            &&& reply.retry_after_seconds == retry_after
            &&& reply.redirect_url is None && reply.offer_passkey is None
        },
        ({
            let login = VerifyResponse::logs_in(result);
            &&& login.success && login.error is None && login.retry_after_seconds is None
            &&& login.redirect_url == Some(result.redirect_url)
            &&& result.offer_passkey ==> login.offer_passkey == Some(true)
            &&& !result.offer_passkey ==> login.offer_passkey is None
        }),
        ({
            let resent = VerifyResponse::says_resent();
            &&& resent.success && resent.error is None
            &&& resent.retry_after_seconds == Some(30i64)
            &&& resent.redirect_url is None && resent.offer_passkey is None
        }),
{
}

// ── Session ─────────────────────────────────────────────────────────
/// Starting over drops the code, the pending registration and the passkey challenge, and nothing
/// else; it fails exactly where one of the last three values cannot be read back.
pub proof fn law_local_reset_drops_what_is_pending(s: LoginSession)
    ensures
        ({
            let (t, ok) = pending_reset(s);
            &&& ok == !(s.local_deferred_new_user is Unreadable || s.passkey_challenge is Unreadable
                || s.passkey_user_id is Unreadable)
            &&& t.otp_code is Missing && t.otp_email is Missing && t.otp_expires_at is Missing
            &&& t.otp_purpose is Missing && t.otp_attempts is Missing
            &&& t.local_deferred_new_user is Missing
            &&& ok ==> t.passkey_challenge is Missing && t.passkey_user_id is Missing
            &&& same_but_for_the_code(
                LoginSession {
                    local_deferred_new_user: t.local_deferred_new_user,
                    passkey_challenge: t.passkey_challenge,
                    passkey_user_id: t.passkey_user_id,
                    ..s
                },
                t,
            )
        }),
{
    reveal_with_fuel(removal, 4);
}

/// A start takes over the address, and the redirect where there is one to take over.
pub proof fn law_local_start_takes_over_the_address(
    s: LoginSession,
    email: String,
    redirect: Option<String>,
)
    ensures
        ({
            let (t, ok) = login_started(s, email, redirect);
            &&& ok == pending_reset(s).1
            &&& ok ==> t.login_email == Stored::Value(email)
            &&& !ok ==> t.login_email == s.login_email
            &&& redirect matches Some(url) ==> t.login_redirect_url == Stored::Value(url)
            &&& redirect is None ==> t.login_redirect_url == s.login_redirect_url
            &&& LoginSession {
                login_email: s.login_email,
                login_redirect_url: s.login_redirect_url,
                ..t
            } == pending_reset(s).0
        }),
        redirect_kept(s, redirect) == (LoginSession {
            login_redirect_url: if redirect is Some {
                Stored::Value(redirect->Some_0)
            } else {
                s.login_redirect_url
            },
            ..s
        }),
        registration_pending(s) == (LoginSession {
            local_deferred_new_user: Stored::Value(true),
            ..s
        }),
        is_deferred(s) <==> (s.local_deferred_new_user matches Stored::Value(b) && b),
{
    reveal_with_fuel(removal, 4);
}

/// A ceremony ends with its challenge and its account removed, and nothing else; that fails
/// exactly where one of the two cannot be read back.
pub proof fn law_ended_ceremony_is_gone(s: LoginSession)
    ensures
        ({
            let (t, ok) = removal(s, ceremony_keys());
            &&& ok == !(s.passkey_challenge is Unreadable || s.passkey_user_id is Unreadable)
            &&& t.passkey_challenge is Missing
            &&& ok ==> t.passkey_user_id is Missing
            &&& t == (LoginSession {
                passkey_challenge: Stored::Missing,
                passkey_user_id: t.passkey_user_id,
                ..s
            })
        }),
{
    reveal_with_fuel(removal, 3);
}

/// A finished login removes its temporary state and the counters of the throttle; what could not
/// be read back on the way stops it there.
pub proof fn law_finished_local_login_removes_its_state(s: LoginSession)
    ensures
        login_ended(s).1 ==> login_ended(s).0 == (LoginSession {
            login_email: Stored::Missing,
            otp_code: Stored::Missing,
            otp_email: Stored::Missing,
            otp_expires_at: Stored::Missing,
            otp_purpose: Stored::Missing,
            otp_attempts: Stored::Missing,
            local_deferred_new_user: Stored::Missing,
            passkey_challenge: Stored::Missing,
            passkey_user_id: Stored::Missing,
            otp_last_sent_at: Stored::Missing,
            otp_resend_count: Stored::Missing,
            ..s
        }),
        login_ended(s).0.login_email is Missing,
        s.login_email is Unreadable ==> login_ended(s) == (
            LoginSession { login_email: Stored::Missing, ..s },
            false,
        ),
{
    reveal_with_fuel(removal, 4);
}

// ── Throttle ────────────────────────────────────────────────────────
/// A session that may not cause a mail is told so: how long to wait, or that there are no more.
pub proof fn law_throttle_says_why(
    s: LoginSession,
    now: i64,
    r: AuthResult<Option<VerifyResponse>>,
)
    requires
        throttle_answered(s, now, r),
    ensures
        throttle(s, now) matches Err(e) ==> r == Err::<Option<VerifyResponse>, AuthError>(e),
        throttle(s, now) matches Ok(ResendThrottle::Open) ==> (r matches Ok(None)),
        throttle(s, now) matches Ok(ResendThrottle::CapReached) ==> {
            &&& r matches Ok(Some(reply)) && reply.refuses(
                "Maximum resend attempts reached. Please start a new login."@,
                None,
            )
            &&& throttle_message(s, now)
                == "Maximum resend attempts reached. Please start a new login."@
        },
        throttle(s, now) matches Ok(ResendThrottle::CoolingDown(left)) ==> {
            &&& r matches Ok(Some(reply)) && reply.refuses(wait_message(left), Some(left))
            &&& throttle_message(s, now) == wait_message(left)
        },
{
}

// ── Accounts ────────────────────────────────────────────────────────
/// The account of a proven address is the one that exists; else one is made where the allowlist is
/// open to the address, and refused where it is not.
pub proof fn law_local_account_comes_from_where_it_must(
    step: FindAccount,
    config: AuthConfig,
    found: AuthResult<Option<AuthUser>>,
    r: AuthResult<AccountNext>,
)
    requires
        account_looked_up(step, config, found, r),
    ensures
        found matches Err(e) ==> r == Err::<AccountNext, AuthError>(e),
        found matches Ok(Some(user)) ==> (r matches Ok(AccountNext::Found(same)) && same == user),
        found matches Ok(None) ==> {
            &&& depends_on_users(config) ==> (r matches Ok(AccountNext::AskForUsers(next))
                && next.email == step.email)
            &&& !depends_on_users(config) && open_to(config, step.email@, false) ==> (r matches Ok(
                AccountNext::MintSubject(next),
            ) && next.email == step.email)
            &&& !depends_on_users(config) && !open_to(config, step.email@, false) ==> (r matches
                Err(AuthError::Unauthorized(m)) && m@
                == "Registration is not open for this address"@)
        },
{
}

/// Where the user store decides, the account is made exactly where it lets the address in.
pub proof fn law_first_local_account_is_created(
    step: AccountRegistration,
    config: AuthConfig,
    has_users: AuthResult<bool>,
    r: AuthResult<MintSubject>,
)
    requires
        first_account_decided(step, config, has_users, r),
    ensures
        has_users matches Err(e) ==> r == Err::<MintSubject, AuthError>(e),
        has_users matches Ok(any) ==> {
            &&& r is Ok <==> open_to(config, step.email@, any)
            &&& r matches Ok(next) ==> next.email == step.email
            &&& r matches Err(e) ==> (e matches AuthError::Unauthorized(m) && m@
                == "Registration is not open for this address"@)
        },
{
}

// ── Starting ────────────────────────────────────────────────────────
/// A login code is mailed to the address that it was asked for, as a login code.
pub proof fn law_local_login_code_goes_to_its_address<R>(
    issue: OtpIssue<R>,
    email: String,
    reply: R,
)
    requires
        issues_login_otp(issue, email, reply),
    ensures
        issue.email == email,
        issue.purpose@ == "login"@,
        issue.reply == reply,
{
}

/// An account is challenged exactly where a passkey of it was listed, and then with all of them,
/// each under its own id and transports.
pub proof fn law_accounts_with_passkeys_are_challenged(
    step: StartPasskeys,
    config: AuthConfig,
    s: LoginSession,
    now: i64,
    listed: AuthResult<Vec<StoredPasskey>>,
    r: AuthResult<AfterPasskeys>,
)
    requires
        existing_user_answered(step, config, s, now, listed, r),
    ensures
        (r matches Ok(AfterPasskeys::DeriveRelyingParty(_))) <==> listed is Ok
            && listed->Ok_0@.len() > 0,
        r matches Ok(AfterPasskeys::DeriveRelyingParty(next)) ==> {
            &&& next.base_url == config.base_url
            &&& next.ceremony.user_id == step.user_id
            &&& next.ceremony.allow@.len() == listed->Ok_0@.len()
            &&& forall|i: int|
                0 <= i < listed->Ok_0@.len() ==> (#[trigger] next.ceremony.allow@[i]).0
                    == listed->Ok_0@[i].credential_id && next.ceremony.allow@[i].1@
                    == listed->Ok_0@[i].transports@
        },
        is_challenged(listed) <==> listed is Ok && listed->Ok_0@.len() > 0,
{
}

/// An account without a passkey gets its code where the throttle is open, and is told why where it
/// is not.
pub proof fn law_accounts_without_passkeys_get_a_code(
    step: StartPasskeys,
    config: AuthConfig,
    s: LoginSession,
    now: i64,
    listed: AuthResult<Vec<StoredPasskey>>,
    r: AuthResult<AfterPasskeys>,
)
    requires
        existing_user_answered(step, config, s, now, listed, r),
        listed is Err || listed->Ok_0@.len() == 0,
    ensures
        throttle(s, now) matches Err(e) ==> r == Err::<AfterPasskeys, AuthError>(e),
        throttle(s, now) matches Ok(ResendThrottle::Open) ==> (r matches Ok(AfterPasskeys::MintOtp(
            issue,
        )) && issue.email == step.email && issue.purpose@ == "login"@ && issue.reply.otp_sent
            && !issue.reply.is_new_user && !issue.reply.has_passkeys),
        throttle(s, now) matches Ok(ResendThrottle::CapReached) ==> (r matches Err(
            AuthError::BadRequest(m),
        ) && m@ == "Maximum resend attempts reached. Please start a new login."@),
        throttle(s, now) matches Ok(ResendThrottle::CoolingDown(left)) ==> (r matches Err(
            AuthError::BadRequest(m),
        ) && m@ == wait_message(left)),
{
}

/// A new user is asked for the captcha where one is configured; else the code is sent where the
/// throttle is open.
pub proof fn law_new_users_solve_the_captcha_or_get_a_code(
    step: StartCaptcha,
    s: LoginSession,
    now: i64,
    env: CaptchaEnv,
    r: AuthResult<StartNewUser>,
)
    requires
        new_user_answered(step, s, now, env, r),
    ensures
        captcha_configured(env) ==> {
            &&& r matches Ok(StartNewUser::Reply(reply))
            &&& reply.captcha_required == Some(true) && reply.captcha_server_url == env.server_url
            &&& reply.captcha_site_key == env.site_key && !reply.otp_sent && reply.is_new_user
        },
        !captcha_configured(env) ==> {
            &&& throttle(s, now) matches Err(e) ==> r == Err::<StartNewUser, AuthError>(e)
            &&& throttle(s, now) matches Ok(ResendThrottle::Open) ==> (r matches Ok(
                StartNewUser::MintOtp(issue),
            ) && issue.email == step.email && issue.purpose@ == "login"@ && issue.reply.otp_sent
                && issue.reply.is_new_user && !issue.reply.has_passkeys)
            &&& throttle(s, now) matches Ok(ResendThrottle::CapReached) ==> (r matches Err(
                AuthError::BadRequest(m),
            ) && m@ == "Maximum resend attempts reached. Please start a new login."@)
            &&& throttle(s, now) matches Ok(ResendThrottle::CoolingDown(left)) ==> (r matches Err(
                AuthError::BadRequest(m),
            ) && m@ == wait_message(left))
        },
{
}

// ── Passkeys ────────────────────────────────────────────────────────
/// A list of allowed passkeys names each passkey in its place.
pub proof fn law_allowed_passkeys_are_those_listed(
    allow: Seq<(String, Vec<String>)>,
    passkeys: Seq<StoredPasskey>,
)
    requires
        allows(allow, passkeys),
    ensures
        allow.len() == passkeys.len(),
        forall|i: int|
            0 <= i < allow.len() ==> (#[trigger] allow[i]).0 == passkeys[i].credential_id
                && allow[i].1@ == passkeys[i].transports@,
{
}

/// What an assertion holds is found under the names of the standard, and a user handle is the
/// base64 of the bytes of the account's id.
pub proof fn law_assertions_are_read_by_their_names(
    assertion: serde_json::Value,
    user_id: Seq<char>,
    text: Seq<char>,
)
    ensures
        raw_id_of(assertion) == Some(text) <==> json_strings(assertion).dom().contains(
            seq!["rawId"@],
        ) && json_strings(assertion)[seq!["rawId"@]] == text,
        user_handle_of(assertion) == Some(text) <==> json_strings(assertion).dom().contains(
            seq!["response"@, "userHandle"@],
        ) && json_strings(assertion)[seq!["response"@, "userHandle"@]] == text,
        handle_of(user_id) == base64url(encode_utf8(user_id)),
{
}

/// An assertion is taken up exactly where a challenge is parked, its account can be read, and it
/// names a credential; then with the challenge and the account of the session.
pub proof fn law_assertion_answers_the_challenge(
    s: LoginSession,
    assertion: serde_json::Value,
    r: AuthResult<FindPasskey>,
)
    requires
        assertion_taken(s, assertion, r),
    ensures
        r is Ok <==> s.passkey_challenge is Value && !(s.passkey_user_id is Unreadable)
            && raw_id_of(assertion) is Some,
        r matches Ok(step) ==> {
            &&& s.passkey_challenge == Stored::Value(step.challenge)
            &&& raw_id_of(assertion) == Some(step.credential_id@)
            &&& step.assertion == assertion
            &&& step.expected_user_id matches Some(id) ==> s.passkey_user_id == Stored::Value(id)
            &&& step.expected_user_id is None ==> s.passkey_user_id is Missing
        },
        s.passkey_challenge is Missing ==> (r matches Err(AuthError::BadRequest(m)) && m@
            == "No passkey challenge in progress"@),
        s.passkey_challenge is Unreadable || (s.passkey_challenge is Value
            && s.passkey_user_id is Unreadable) ==> r == Err::<FindPasskey, AuthError>(
            AuthError::SessionError,
        ),
        s.passkey_challenge is Value && !(s.passkey_user_id is Unreadable) && raw_id_of(
            assertion,
        ) is None ==> (r matches Err(AuthError::BadRequest(m)) && m@
            == "Malformed passkey assertion"@),
{
}

/// A passkey answers for its owner: on a challenge for one account only for that one, else only
/// under the owner's handle, where the assertion carries one.
pub proof fn law_passkey_answers_for_its_owner(
    owner: String,
    expected: Option<String>,
    assertion: serde_json::Value,
)
    ensures
        expected matches Some(id) ==> (owner_accepted(owner, expected, assertion) <==> id@
            == owner@),
        expected is None && user_handle_of(assertion) is None ==> owner_accepted(
            owner,
            expected,
            assertion,
        ),
        expected is None && user_handle_of(assertion) is Some ==> (owner_accepted(
            owner,
            expected,
            assertion,
        ) <==> user_handle_of(assertion)->Some_0 == base64url(encode_utf8(owner@))),
{
}

/// A verified assertion ends the ceremony and records the use of that passkey, for its owner.
pub proof fn law_verified_assertion_is_recorded<P, E>(
    step: VerifyAssertion<P>,
    before: LoginSession,
    after: LoginSession,
    outcome: AssertionOutcome,
    r: AuthResult<AfterAssertion>,
)
    requires
        assertion_concluded(step, before, after, Ok::<AssertionOutcome, E>(outcome), r),
    ensures
        r is Ok <==> !(before.passkey_challenge is Unreadable || before.passkey_user_id
            is Unreadable),
        r matches Ok(next) ==> {
            &&& next matches AfterAssertion::Touch(touch)
            &&& touch.credential_id == step.passkey.credential_id
            &&& touch.user_id == step.passkey.user_id
            &&& touch.sign_count == outcome.sign_count
            &&& touch.backed_up == outcome.backed_up
            &&& after == (LoginSession {
                passkey_challenge: Stored::Missing,
                passkey_user_id: Stored::Missing,
                ..before
            })
        },
        r matches Err(e) ==> e == AuthError::SessionError,
{
    reveal_with_fuel(removal, 3);
}

/// An assertion that fails is told so, and nothing more.
pub proof fn law_failed_assertion_is_told<P, E>(
    step: VerifyAssertion<P>,
    before: LoginSession,
    after: LoginSession,
    error: E,
    r: AuthResult<AfterAssertion>,
)
    requires
        assertion_concluded(step, before, after, Err::<AssertionOutcome, E>(error), r),
    ensures
        after == before,
        r matches Ok(AfterAssertion::Reply(reply)) && reply.refuses(
            "Passkey verification failed. Please try again."@,
            None,
        ),
{
}

// ── Resend and fallback ─────────────────────────────────────────────
/// A code is sent again to the address of the login exactly where one is in flight, the throttle is
/// open and the purpose can be read. Else the answer says why not.
pub proof fn law_local_code_is_sent_again(s: LoginSession, now: i64, r: AuthResult<ResendNext>)
    requires
        resend_answered(s, now, r),
    ensures
        r matches Ok(ResendNext::MintOtp(issue)) ==> {
            &&& s.login_email == Stored::Value(issue.email)
            &&& s.otp_code is Value
            &&& throttle(s, now) == Ok::<ResendThrottle, AuthError>(ResendThrottle::Open)
            &&& issue.purpose@ == purpose_of(s)
            &&& issue.reply.success && issue.reply.retry_after_seconds == Some(30i64)
            &&& issue.reply == VerifyResponse::says_resent()
        },
        s.login_email is Missing ==> (r matches Err(AuthError::BadRequest(m)) && m@
            == "No login session in progress"@),
        s.login_email is Unreadable ==> r == Err::<ResendNext, AuthError>(AuthError::SessionError),
        s.login_email is Value && s.otp_code is Missing ==> (r matches Err(AuthError::BadRequest(m))
            && m@ == "No verification code in progress"@),
        s.login_email is Value && s.otp_code is Unreadable ==> r == Err::<ResendNext, AuthError>(
            AuthError::SessionError,
        ),
        s.login_email is Value && s.otp_code is Value ==> {
            &&& throttle(s, now) matches Err(e) ==> r == Err::<ResendNext, AuthError>(e)
            &&& throttle(s, now) matches Ok(ResendThrottle::CapReached) ==> (r matches Ok(
                ResendNext::Reply(reply),
            ) && reply.refuses(
                "Maximum resend attempts reached. Please start a new login."@,
                None,
            ))
            &&& throttle(s, now) matches Ok(ResendThrottle::CoolingDown(left)) ==> (r matches Ok(
                ResendNext::Reply(reply),
            ) && reply.refuses(wait_message(left), Some(left)))
            &&& throttle(s, now) matches Ok(ResendThrottle::Open) ==> if s.otp_purpose is Unreadable {
                r == Err::<ResendNext, AuthError>(AuthError::SessionError)
            } else {
                r matches Ok(ResendNext::MintOtp(_))
            }
        },
{
}

/// A passkey is given up for a code exactly where a login is in progress, no registration is
/// pending and the throttle is open; the ceremony ends with it. Else the session stays as it is,
/// and the answer says why.
pub proof fn law_passkey_is_given_up_for_a_code(
    s: LoginSession,
    after: LoginSession,
    now: i64,
    r: AuthResult<OtpIssue<StartSessionResponse>>,
)
    requires
        fallback_answered(s, after, now, r),
    ensures
        r is Ok <==> {
            &&& s.login_email is Value
            &&& s.local_deferred_new_user is Missing || s.local_deferred_new_user == Stored::Value(
                false,
            )
            &&& throttle(s, now) == Ok::<ResendThrottle, AuthError>(ResendThrottle::Open)
            &&& !(s.passkey_challenge is Unreadable) && !(s.passkey_user_id is Unreadable)
        },
        r matches Ok(issue) ==> {
            &&& s.login_email == Stored::Value(issue.email)
            &&& issue.purpose@ == "login"@
            &&& issue.reply.otp_sent && issue.reply.has_passkeys && !issue.reply.is_new_user
            &&& after == (LoginSession {
                passkey_challenge: Stored::Missing,
                passkey_user_id: Stored::Missing,
                ..s
            })
        },
        s.login_email is Missing ==> after == s && (r matches Err(AuthError::BadRequest(m)) && m@
            == "No login session in progress"@),
        s.login_email is Unreadable ==> after == s && (r matches Err(AuthError::SessionError)),
        s.login_email is Value && s.local_deferred_new_user is Unreadable ==> after == s && (r
            matches Err(AuthError::SessionError)),
        s.login_email is Value && s.local_deferred_new_user == Stored::Value(true) ==> after == s
            && (r matches Err(AuthError::BadRequest(m)) && m@
            == "Please complete verification to receive a code."@),
        fallback_throttled(s) ==> {
            &&& throttle(s, now) is Err ==> after == s && (r matches Err(AuthError::SessionError))
            &&& throttle(s, now) matches Ok(ResendThrottle::CapReached) ==> after == s && (r matches
                Err(AuthError::BadRequest(m)) && m@
                == "Maximum resend attempts reached. Please start a new login."@)
            &&& throttle(s, now) matches Ok(ResendThrottle::CoolingDown(left)) ==> after == s && (r
                matches Err(AuthError::BadRequest(m)) && m@ == wait_message(left))
        },
        fallback_throttled(s) <==> s.login_email is Value && (s.local_deferred_new_user is Missing
            || s.local_deferred_new_user == Stored::Value(false)),
{
    if let Stored::Value(pending) = s.local_deferred_new_user {
        assert(pending || s.local_deferred_new_user == Stored::Value(false));
    }
    reveal_with_fuel(removal, 3);
}

// ── Captcha ─────────────────────────────────────────────────────────
/// A token that passed sends the code where the throttle is open; one that did not, and no answer
/// at all, are refused.
pub proof fn law_local_captcha_answer_decides(
    s: LoginSession,
    now: i64,
    answer: Option<CaptchaAnswer>,
    r: AuthResult<AfterCaptcha>,
)
    requires
        captcha_concluded(s, now, answer, r),
    ensures
        answer is None ==> (r matches Ok(AfterCaptcha::Reply(reply)) && reply.refuses(
            "Verification unavailable. Please try again in a moment."@,
        )),
        answer matches Some(a) ==> {
            &&& !captcha_passed(a) ==> (r matches Ok(AfterCaptcha::Reply(reply)) && reply.refuses(
                "Verification failed. Please try again."@,
            ))
            &&& captcha_passed(a) && s.login_email is Missing ==> (r matches Err(
                AuthError::ServerStateError(m),
            ) && m@ == "Missing login email"@)
            &&& captcha_passed(a) && s.login_email is Unreadable ==> (r matches Err(
                AuthError::SessionError,
            ))
            &&& captcha_passed(a) && s.login_email is Value ==> {
                &&& withheld_throttled(s, answer)
                &&& throttle(s, now) matches Err(e) ==> r == Err::<AfterCaptcha, AuthError>(e)
                &&& throttle(s, now) matches Ok(ResendThrottle::Open) ==> (r matches Ok(
                    AfterCaptcha::MintOtp(issue),
                ) && s.login_email == Stored::Value(issue.email) && issue.purpose@ == "login"@
                    && issue.reply.success && issue.reply.otp_sent && issue.reply.error is None
                    && withheld_code_sent(s, r))
                &&& throttle(s, now) matches Ok(ResendThrottle::CapReached) ==> (r matches Err(
                    AuthError::BadRequest(m),
                ) && m@ == "Maximum resend attempts reached. Please start a new login."@)
                &&& throttle(s, now) matches Ok(ResendThrottle::CoolingDown(left)) ==> (r matches
                    Err(AuthError::BadRequest(m)) && m@ == wait_message(left))
            }
        },
{
}

// ── Finishing ───────────────────────────────────────────────────────
/// The session of a local login holds the account that logged in, by its own address.
pub proof fn law_local_login_opens_the_accounts_session(step: CycleId, user: AuthUser)
    requires
        finalizes(step, user),
    ensures
        step.user == user,
        step.data.id@ == user.id@,
        step.data.sub@ == user.sub@,
        step.data.email@ == user.email@,
        step.data.id_token@ == "local_login"@,
        session_data_of(step.data, user, user.email@, "local_login"@),
{
}

/// A passkey is offered exactly where the account is known to have none.
pub proof fn law_passkey_is_offered_to_accounts_without(listed: AuthResult<Vec<StoredPasskey>>)
    ensures
        OfferPasskey::offered(listed) <==> listed is Ok && listed->Ok_0@.len() == 0,
        OfferPasskey::offered(listed) ==> !is_challenged(listed),
{
}

/// What a JSON value holds at a path is what stands there.
pub proof fn law_json_strings_are_found_by_their_path(
    v: serde_json::Value,
    path: Seq<Seq<char>>,
    text: Seq<char>,
)
    ensures
        json_string_at(v, path) == Some(text) <==> json_strings(v).dom().contains(path)
            && json_strings(v)[path] == text,
        json_string_at(v, path) is None <==> !json_strings(v).dom().contains(path),
{
}

// ── Lookups ─────────────────────────────────────────────────────────
/// A known address has its passkeys looked at. An unknown one is a pending registration exactly
/// where it is let in: by the allowlist, or without one by a store that has no user yet.
pub proof fn law_addresses_are_known_or_register(
    step: StartLookup,
    ask: StartRegistration,
    config: AuthConfig,
    before: LoginSession,
    after: LoginSession,
    found: AuthResult<Option<AuthUser>>,
    r: AuthResult<AfterLookup>,
    later: LoginSession,
    has_users: AuthResult<bool>,
    asked: AuthResult<StartCaptcha>,
)
    requires
        local_login::lookup_answered(step, config, before, after, found, r),
        local_login::registration_answered(ask, config, before, later, has_users, asked),
    ensures
        found matches Err(e) ==> r == Err::<AfterLookup, AuthError>(e) && after == before,
        found matches Ok(Some(user)) ==> after == before && (r matches Ok(AfterLookup::ListPasskeys(
            next,
        )) && next.user_id == user.id && next.email == step.email),
        found matches Ok(None) ==> {
            &&& depends_on_users(config) ==> after == before && (r matches Ok(
                AfterLookup::AskForUsers(next),
            ) && next.email == step.email)
            &&& !depends_on_users(config) && open_to(config, step.email@, false) ==> after == (
            LoginSession { local_deferred_new_user: Stored::Value(true), ..before }) && (r matches
                Ok(AfterLookup::ReadCaptcha(next)) && next.email == step.email)
            &&& !depends_on_users(config) && !open_to(config, step.email@, false) ==> after
                == before && (r matches Err(AuthError::Unauthorized(m)) && m@
                == "Registration is not open for this address"@)
        },
        has_users matches Err(e) ==> asked == Err::<StartCaptcha, AuthError>(e) && later == before,
        has_users matches Ok(any) ==> {
            &&& asked is Ok <==> open_to(config, ask.email@, any)
            &&& asked matches Ok(next) ==> next.email == ask.email && later == (LoginSession {
                local_deferred_new_user: Stored::Value(true),
                ..before
            })
            &&& asked matches Err(e) ==> later == before && (e matches AuthError::Unauthorized(m)
                && m@ == "Registration is not open for this address"@)
        },
{
}

/// A passkey goes on to be verified exactly where it is known and may answer for its owner: with
/// its own key, and against the challenge and the assertion at hand.
pub proof fn law_known_passkey_is_verified(
    step: FindPasskey,
    config: AuthConfig,
    found: AuthResult<Option<StoredPasskey>>,
    r: AuthResult<AfterFind>,
)
    requires
        local_login::passkey_found(step, config, found, r),
    ensures
        found matches Err(e) ==> r == Err::<AfterFind, AuthError>(e),
        found is Ok ==> r is Ok,
        r matches Ok(AfterFind::DeriveRelyingParty(next)) ==> {
            &&& found matches Ok(Some(passkey)) && passkey == next.passkey
            &&& next.base_url == config.base_url && next.challenge == step.challenge
            &&& next.assertion == step.assertion
            &&& owner_accepted(next.passkey.user_id, step.expected_user_id, step.assertion)
        },
        found matches Ok(Some(passkey)) ==> (owner_accepted(
            passkey.user_id,
            step.expected_user_id,
            step.assertion,
        ) ==> (r matches Ok(AfterFind::DeriveRelyingParty(_)))),
        r matches Ok(AfterFind::Reply(reply)) ==> reply.refuses(
            "Passkey verification failed. Please try again."@,
            None,
        ),
{
}

/// The address of an accepted code is the one whose account is looked for, once the session is
/// written back; a refusal is told as it is.
pub proof fn law_accepted_local_code_goes_on_with_its_address(
    checked: OtpChecked,
    saved: AuthResult<()>,
    r: AuthResult<AfterOtp>,
)
    requires
        local_login::code_taken(checked, saved, r),
    ensures
        saved matches Err(e) ==> r == Err::<AfterOtp, AuthError>(e),
        saved is Ok ==> {
            &&& checked.outcome matches Err(message) ==> (r matches Ok(AfterOtp::Reply(reply))
                && reply.refuses(message@, None))
            &&& checked.outcome matches Ok(email) ==> (r matches Ok(AfterOtp::FindAccount(next))
                && next.email == email)
        },
{
}

} // verus!
