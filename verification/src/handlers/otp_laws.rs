//! What issuing, checking and throttling codes comes to, in terms of what is in the session and
//! what is submitted.

use vstd::prelude::*;

use crate::error::{AuthError, AuthResult};
use crate::handlers::otp::{
    captcha_configured, captcha_passed, captcha_verify_url, code_issued, code_mailed,
    cooldown_asked, cooldown_computable, is_set, mail_noted, mails_sent, otp_after, otp_attempts, otp_checked_at, otp_cleared,
    otp_stored, throttle, CaptchaAnswer, CaptchaEnv, OtpIssue, OtpMail, ResendThrottle, LOGIN_PURPOSE,
    MAX_OTP_ATTEMPTS, MAX_RESEND_COUNT, OTP_DIGITS, OTP_LIFETIME_MINUTES, OTP_LIFETIME_SECONDS,
    RESEND_COOLDOWN_SECONDS, SESSION_LOCK_STRIPES,
};
use crate::interop::{clock_reading, json_bools, LAST_SECOND};
use crate::session::{LoginSession, Stored};

verus! {

/// The limits: five guesses at a code of six digits that lasts ten minutes, and five mails with
/// half a minute between them.
pub proof fn law_limits_of_codes()
    ensures
        MAX_OTP_ATTEMPTS == 5,
        OTP_DIGITS == 6,
        OTP_LIFETIME_SECONDS == 600,
        OTP_LIFETIME_MINUTES * 60 == OTP_LIFETIME_SECONDS,
        MAX_RESEND_COUNT == 5,
        RESEND_COOLDOWN_SECONDS == 30,
        SESSION_LOCK_STRIPES == 64,
        LOGIN_PURPOSE@ == "login"@,
{
}

// ── Issuing ─────────────────────────────────────────────────────────
/// `a` and `b` differ at most in the code in flight.
pub open spec fn same_but_for_the_code(a: LoginSession, b: LoginSession) -> bool {
    &&& a.login_redirect_url == b.login_redirect_url
    &&& a.flow == b.flow
    &&& a.ferriskey_user_id == b.ferriskey_user_id
    &&& a.login_email == b.login_email
    &&& a.tos_pending_redirect == b.tos_pending_redirect
    &&& a.otp_last_sent_at == b.otp_last_sent_at
    &&& a.otp_resend_count == b.otp_resend_count
    &&& a.deferred_new_user == b.deferred_new_user
    &&& a.password_attempts == b.password_attempts
    &&& a.local_deferred_new_user == b.local_deferred_new_user
    &&& a.passkey_challenge == b.passkey_challenge
    &&& a.passkey_user_id == b.passkey_user_id
}

/// A fresh code is in the session with the address it goes to, lasts ten minutes and has not been
/// guessed; nothing else in the session changes.
pub proof fn law_issued_code_is_fresh(
    s: LoginSession,
    code: String,
    email: String,
    purpose: String,
    now: i64,
)
    requires
        clock_reading(now),
    ensures
        ({
            let t = otp_stored(s, code, email, purpose, now);
            &&& t.otp_code == Stored::Value(code)
            &&& t.otp_email == Stored::Value(email)
            &&& t.otp_purpose == Stored::Value(purpose)
            &&& t.otp_attempts == Stored::<u32>::Value(0)
            &&& t.otp_expires_at matches Stored::Value(at) && at == now + 600
            &&& same_but_for_the_code(s, t)
        }),
{
}

/// Clearing a code takes all of it, and nothing else.
pub proof fn law_cleared_code_is_gone(s: LoginSession)
    ensures
        ({
            let t = otp_cleared(s);
            &&& t.otp_code is Missing
            &&& t.otp_email is Missing
            &&& t.otp_purpose is Missing
            &&& t.otp_attempts is Missing
            &&& t.otp_expires_at is Missing
            &&& same_but_for_the_code(s, t)
        }),
{
}

/// A mail that went out is counted once and its time is kept; nothing else in the session changes.
pub proof fn law_noted_mail_is_counted_once(s: LoginSession, now: i64)
    requires
        mails_sent(s) < u32::MAX,
    ensures
        mails_sent(mail_noted(s, now)) == mails_sent(s) + 1,
        mail_noted(s, now).otp_resend_count is Value,
        mail_noted(s, now).otp_last_sent_at == Stored::Value(now),
        mail_noted(s, now) == (LoginSession {
            otp_last_sent_at: mail_noted(s, now).otp_last_sent_at,
            otp_resend_count: mail_noted(s, now).otp_resend_count,
            ..s
        }),
{
}

/// The mails of a session are those it has counted; none where it has counted none.
pub proof fn law_mails_are_those_counted(s: LoginSession, n: u32)
    ensures
        s.otp_resend_count == Stored::Value(n) ==> mails_sent(s) == n,
        !(s.otp_resend_count is Value) ==> mails_sent(s) == 0,
        s.otp_attempts == Stored::Value(n) ==> otp_attempts(s) == n,
        !(s.otp_attempts is Value) ==> otp_attempts(s) == 0,
{
}

// ── Checking ────────────────────────────────────────────────────────
/// The session holds a code for `email` that is `code`, was guessed `attempts` times and can be
/// used until `expires_at`.
pub open spec fn holds_code(
    s: LoginSession,
    code: Seq<char>,
    email: String,
    attempts: u32,
    expires_at: i64,
) -> bool {
    &&& s.otp_code matches Stored::Value(c) && c@ == code
    &&& s.otp_email == Stored::Value(email)
    &&& s.otp_expires_at == Stored::Value(expires_at)
    &&& s.otp_attempts == Stored::Value(attempts) || (attempts == 0 && s.otp_attempts is Missing)
}

/// A code is accepted exactly where it is the one in flight, in time, and guessed fewer than five
/// times before; then it yields the address it was bound to, and is spent.
pub proof fn law_right_code_is_accepted(
    s: LoginSession,
    code: Seq<char>,
    email: String,
    attempts: u32,
    expires_at: i64,
    submitted: Seq<char>,
    now: i64,
    after: LoginSession,
    outcome: Result<String, String>,
)
    requires
        holds_code(s, code, email, attempts, expires_at),
        otp_checked_at(s, after, submitted, now, outcome),
    ensures
        outcome is Ok <==> submitted == code && now <= expires_at && attempts < 5,
        outcome matches Ok(address) ==> address == email && after.otp_code is Missing
            && after.otp_email is Missing && after.otp_expires_at is Missing
            && after.otp_purpose is Missing && after.otp_attempts is Missing
            && same_but_for_the_code(s, after),
{
}

/// A code that is not accepted is refused for one reason, in this order: it has expired, it was
/// guessed five times, or it is wrong. The first two take the code with them; the last counts the
/// guess and changes nothing else.
pub proof fn law_refused_code_says_why(
    s: LoginSession,
    code: Seq<char>,
    email: String,
    attempts: u32,
    expires_at: i64,
    submitted: Seq<char>,
    now: i64,
    after: LoginSession,
    outcome: Result<String, String>,
)
    requires
        holds_code(s, code, email, attempts, expires_at),
        otp_checked_at(s, after, submitted, now, outcome),
    ensures
        now > expires_at ==> {
            &&& outcome matches Err(m) && m@
                == "Verification code has expired. Please request a new one."@
            &&& after.otp_code is Missing && after.otp_email is Missing
            &&& after.otp_expires_at is Missing && after.otp_purpose is Missing
            &&& after.otp_attempts is Missing && same_but_for_the_code(s, after)
        },
        now <= expires_at && attempts >= 5 ==> {
            &&& outcome matches Err(m) && m@
                == "Too many failed attempts. Please request a new verification code."@
            &&& after.otp_code is Missing && after.otp_email is Missing
            &&& after.otp_expires_at is Missing && after.otp_purpose is Missing
            &&& after.otp_attempts is Missing && same_but_for_the_code(s, after)
        },
        now <= expires_at && attempts < 5 && submitted != code ==> {
            &&& outcome matches Err(m) && m@ == "Invalid verification code. Please try again."@
            &&& after == (LoginSession { otp_attempts: after.otp_attempts, ..s })
            &&& after.otp_attempts matches Stored::Value(n) && n == attempts + 1
        },
{
}

/// Without a whole code there is nothing to check: the session stays as it is, and the refusal
/// says whether there is no code or it cannot be read. What comes first counts: the code, then its
/// address, then its lifetime.
pub proof fn law_no_code_is_checked_where_none_is_whole(
    s: LoginSession,
    submitted: Seq<char>,
    now: i64,
    after: LoginSession,
    outcome: Result<String, String>,
)
    requires
        !(s.otp_code is Value && s.otp_email is Value && s.otp_expires_at is Value),
        otp_checked_at(s, after, submitted, now, outcome),
    ensures
        after == s,
        outcome is Err,
        s.otp_code is Missing ==> outcome->Err_0@ == "No verification code in progress"@,
        s.otp_code is Unreadable ==> outcome->Err_0@ == "Session error"@,
        s.otp_code is Value && s.otp_email is Missing ==> outcome->Err_0@
            == "No verification code in progress"@,
        s.otp_code is Value && s.otp_email is Unreadable ==> outcome->Err_0@ == "Session error"@,
        s.otp_code is Value && s.otp_email is Value && s.otp_expires_at is Missing
            ==> outcome->Err_0@ == "No verification code in progress"@,
        s.otp_code is Value && s.otp_email is Value && s.otp_expires_at is Unreadable
            ==> outcome->Err_0@ == "Session error"@,
{
}

/// Where the count of guesses cannot be read, a code that has not expired is neither accepted nor
/// touched; one that has is cleared.
pub proof fn law_uncounted_code_is_not_checked(
    s: LoginSession,
    expires_at: i64,
    submitted: Seq<char>,
    now: i64,
    after: LoginSession,
    outcome: Result<String, String>,
)
    requires
        s.otp_code is Value,
        s.otp_email is Value,
        s.otp_expires_at == Stored::Value(expires_at),
        s.otp_attempts is Unreadable,
        otp_checked_at(s, after, submitted, now, outcome),
    ensures
        now <= expires_at ==> after == s && (outcome matches Err(m) && m@ == "Session error"@),
        now > expires_at ==> after.otp_code is Missing && same_but_for_the_code(s, after) && (
        outcome matches Err(m) && m@
            == "Verification code has expired. Please request a new one."@),
{
}

/// The session after these guesses, each with its time.
pub open spec fn after_guesses(s: LoginSession, guesses: Seq<(Seq<char>, i64)>) -> LoginSession
    decreases guesses.len(),
{
    if guesses.len() == 0 {
        s
    } else {
        otp_after(after_guesses(s, guesses.drop_last()), guesses.last().0, guesses.last().1)
    }
}

/// Mistyping a code does not spend it: after fewer than five wrong guesses in time the code that
/// was mailed is still accepted in time, for the address it was mailed to.
pub proof fn law_mistyped_code_can_still_be_used(
    s: LoginSession,
    code: String,
    email: String,
    purpose: String,
    issued: i64,
    guesses: Seq<(Seq<char>, i64)>,
    now: i64,
    after: LoginSession,
    outcome: Result<String, String>,
)
    requires
        clock_reading(issued),
        guesses.len() < 5,
        forall|i: int|
            0 <= i < guesses.len() ==> (#[trigger] guesses[i]).0 != code@ && guesses[i].1 <= issued
                + 600,
        now <= issued + 600,
        otp_checked_at(
            after_guesses(otp_stored(s, code, email, purpose, issued), guesses),
            after,
            code@,
            now,
            outcome,
        ),
    ensures
        outcome == Ok::<String, String>(email),
        after.otp_code is Missing,
{
    lemma_wrong_guesses_are_counted(s, code, email, purpose, issued, guesses);
}

/// Five wrong guesses in time spend a code: the right one is refused after them.
pub proof fn law_five_wrong_guesses_spend_a_code(
    s: LoginSession,
    code: String,
    email: String,
    purpose: String,
    issued: i64,
    guesses: Seq<(Seq<char>, i64)>,
    now: i64,
    after: LoginSession,
    outcome: Result<String, String>,
)
    requires
        clock_reading(issued),
        guesses.len() == 5,
        forall|i: int|
            0 <= i < guesses.len() ==> (#[trigger] guesses[i]).0 != code@ && guesses[i].1 <= issued
                + 600,
        otp_checked_at(
            after_guesses(otp_stored(s, code, email, purpose, issued), guesses),
            after,
            code@,
            now,
            outcome,
        ),
    ensures
        outcome is Err,
        after.otp_code is Missing,
{
    lemma_wrong_guesses_are_counted(s, code, email, purpose, issued, guesses);
}

proof fn lemma_wrong_guesses_are_counted(
    s: LoginSession,
    code: String,
    email: String,
    purpose: String,
    issued: i64,
    guesses: Seq<(Seq<char>, i64)>,
)
    requires
        clock_reading(issued),
        guesses.len() <= 5,
        forall|i: int|
            0 <= i < guesses.len() ==> (#[trigger] guesses[i]).0 != code@ && guesses[i].1 <= issued
                + 600,
    ensures
        ({
            let t = after_guesses(otp_stored(s, code, email, purpose, issued), guesses);
            holds_code(t, code@, email, guesses.len() as u32, (issued + 600) as i64)
        }),
    decreases guesses.len(),
{
    if guesses.len() > 0 {
        let before = guesses.drop_last();
        assert forall|i: int| 0 <= i < before.len() implies (#[trigger] before[i]).0 != code@
            && before[i].1 <= issued + 600 by {
            assert(before[i] == guesses[i]);
        }
        lemma_wrong_guesses_are_counted(s, code, email, purpose, issued, before);
        assert(guesses.last() == guesses[guesses.len() - 1]);
    }
}

// ── Throttle ────────────────────────────────────────────────────────
/// Another mail may go out exactly where the session has counted fewer than five and the last one
/// is at least half a minute old, or there was none.
pub proof fn law_throttle_opens(s: LoginSession, now: i64)
    ensures
        throttle(s, now) == Ok::<ResendThrottle, AuthError>(ResendThrottle::Open) <==> {
            &&& match s.otp_resend_count {
                Stored::Value(n) => n < 5,
                Stored::Missing => true,
                Stored::Unreadable => false,
            }
            &&& match s.otp_last_sent_at {
                Stored::Value(at) => now >= at + 30,
                Stored::Missing => true,
                Stored::Unreadable => false,
            }
        },
{
}

/// From five mails on the cap counts, whatever the time.
pub proof fn law_throttle_has_a_cap(s: LoginSession, now: i64)
    ensures
        throttle(s, now) == Ok::<ResendThrottle, AuthError>(ResendThrottle::CapReached) <==> (
        s.otp_resend_count matches Stored::Value(n) && n >= 5),
{
}

/// Below the cap, a mail less than half a minute old leaves the rest of it to wait.
pub proof fn law_throttle_cools_down(s: LoginSession, now: i64, at: i64)
    requires
        clock_reading(now),
        s.otp_resend_count is Missing || (s.otp_resend_count matches Stored::Value(n) && n < 5),
        s.otp_last_sent_at == Stored::Value(at),
        at <= i64::MAX - 30,
        now < at + 30,
    ensures
        throttle(s, now) matches Ok(ResendThrottle::CoolingDown(left)) && left > 0 && now + left
            == at + 30,
{
}

/// The throttle cannot be asked exactly where what it needs cannot be read.
pub proof fn law_throttle_needs_its_counters(s: LoginSession, now: i64)
    ensures
        throttle(s, now) is Err <==> s.otp_resend_count is Unreadable || (
        !(s.otp_resend_count matches Stored::Value(n) && n >= 5) && s.otp_last_sent_at is Unreadable),
        throttle(s, now) matches Err(e) ==> e == AuthError::SessionError,
{
}

/// Only a time that no clock shows keeps the throttle from being asked, and only where it counts.
pub proof fn law_throttle_can_be_asked(s: LoginSession)
    ensures
        cooldown_asked(s) <==> s.otp_resend_count is Missing || (s.otp_resend_count matches
            Stored::Value(n) && n < 5),
        !cooldown_asked(s) ==> cooldown_computable(s),
        !(s.otp_last_sent_at is Value) ==> cooldown_computable(s),
        s.otp_last_sent_at is Value && clock_reading(s.otp_last_sent_at->Value_0)
            ==> cooldown_computable(s),
{
}

// ── Captcha ─────────────────────────────────────────────────────────
/// A captcha is configured exactly where all three settings are there and none is empty.
pub proof fn law_captcha_needs_all_settings(env: CaptchaEnv)
    ensures
        captcha_configured(env) <==> {
            &&& env.server_url matches Some(v) && v@ != Seq::<char>::empty()
            &&& env.site_key matches Some(v) && v@ != Seq::<char>::empty()
            &&& env.secret_key matches Some(v) && v@ != Seq::<char>::empty()
        },
{
    assert forall|v: Option<String>| #[trigger] is_set(v) == (v matches Some(t) && t@ != Seq::<
        char,
    >::empty()) by {
        if v is Some && v->Some_0@.len() == 0 {
            assert(v->Some_0@ =~= Seq::<char>::empty());
        }
    }
}

/// A captcha server is asked at the path `/v1/verify` below its URL, however many slashes the URL
/// ends in.
pub proof fn law_captcha_is_verified_below_the_server(base: Seq<char>, slashes: Seq<char>)
    requires
        base.len() == 0 || base.last() != '/',
        forall|i: int| 0 <= i < slashes.len() ==> slashes[i] == '/',
    ensures
        captcha_verify_url(base + slashes) == base + "/v1/verify"@,
{
    crate::text::law_trailing_slashes_are_cut(base, slashes);
}

/// A token has passed exactly where the server answers with a success status and a JSON body
/// whose member `success` is the boolean true.
pub proof fn law_captcha_passes_on_success(
    status_is_success: bool,
    body: Option<serde_json::Value>,
)
    ensures
        captcha_passed(CaptchaAnswer { status_is_success, body }) <==> {
            &&& status_is_success
            &&& body is Some
            &&& json_bools(body->Some_0).dom().contains(seq!["success"@])
            &&& json_bools(body->Some_0)[seq!["success"@]] == true
        },
{
}

// ── Sending ─────────────────────────────────────────────────────────
/// What is mailed is the code that the session holds from then on, to the address it is bound to,
/// unguessed and with ten minutes to go from some reading of the clock.
pub proof fn law_mailed_code_is_the_one_kept<R>(
    before: LoginSession,
    after: LoginSession,
    issue: OtpIssue<R>,
    minted: Result<String, String>,
    r: AuthResult<OtpMail<R>>,
)
    requires
        code_issued(before, after, issue, minted, r),
    ensures
        minted matches Ok(code) ==> {
            &&& r matches Ok(mail)
            &&& mail.code == code && mail.email == issue.email && mail.minutes == 10
            &&& mail.reply == issue.reply
            &&& after.otp_code == Stored::Value(code)
            &&& after.otp_email == Stored::Value(issue.email)
            &&& after.otp_purpose == Stored::Value(issue.purpose)
            &&& after.otp_attempts == Stored::<u32>::Value(0)
            &&& after.otp_expires_at matches Stored::Value(at) && 600 <= at <= LAST_SECOND + 600
            &&& same_but_for_the_code(before, after)
        },
        minted matches Err(e) ==> after == before && (r matches Err(AuthError::ServerStateError(m))
            && m@ == "Failed to generate OTP: "@ + e@),
{
}

/// A mail that went out is counted once, and one that did not is not; the rest of the session
/// stays, the code with it.
pub proof fn law_sent_mail_is_counted<R>(
    before: LoginSession,
    after: LoginSession,
    mail: OtpMail<R>,
    outcome: Result<(), String>,
    r: AuthResult<R>,
)
    requires
        code_mailed(before, after, mail, outcome, r),
        outcome is Ok ==> mails_sent(before) < u32::MAX,
    ensures
        outcome is Ok ==> {
            &&& r == Ok::<R, AuthError>(mail.reply)
            &&& mails_sent(after) == mails_sent(before) + 1
            &&& after.otp_last_sent_at matches Stored::Value(at) && 0 <= at <= LAST_SECOND
            &&& after == (LoginSession {
                otp_last_sent_at: after.otp_last_sent_at,
                otp_resend_count: after.otp_resend_count,
                ..before
            })
        },
        outcome matches Err(e) ==> after == before && (r matches Err(AuthError::ServerStateError(
            m,
        )) && m@ == "Failed to send verification email: "@ + e@),
{
}

} // verus!
