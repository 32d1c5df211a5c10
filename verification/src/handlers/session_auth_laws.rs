//! What the steps of the provider-backed flow come to, in terms of what they are given.

use vstd::prelude::*;

use crate::config::AuthConfig;
use crate::error::{AuthError, AuthResult};
use crate::handlers::opening::{username_of, CycleId};
use crate::handlers::otp::{
    captcha_configured, captcha_passed, captcha_verify_url, throttle, CaptchaAnswer, CaptchaEnv,
    OtpChecked, OtpIssue, ResendThrottle,
};
use crate::handlers::otp_laws::same_but_for_the_code;
use crate::handlers::registration::{depends_on_users, open_to};
use crate::handlers::session_auth;
use crate::handlers::session_auth::{
    account_sourced, address_marked, attempt_counted, captcha_asked, captcha_concluded,
    code_in_flight, code_of_pairs, code_of_redirect, credentials_answered, first_account_decided,
    flow_loaded, id_token_resolved, is_deferred, issues_login_otp, last_value, login_email_loaded,
    login_keys, login_started, method_for, needs_tos, no_client_secret, nonce_matches,
    oidc_outcome, otp_login_of, password_attempts, password_slot_left, pending_redirect,
    pending_reset, purpose_of, redirect_accepted, redirect_followed, registration_pending,
    registration_refused, resend_answered, step_up_refusal, wait_message, withheld_code_sent,
    AfterCaptcha, AfterCount, AfterFlow, AfterLookup, AfterOtp, AfterOtpCredentials,
    AuthenticatePassword, CaptchaNext, CaptchaVerifyResponse, CountAttempt, ExchangeCode, FkConfig,
    LoginMethod, LookupUser, OidcNext, OtpAccount, OtpCreateUser, OtpCredentials, OtpRegistration,
    OtpToken, PersistAttempt, PostLoginRedirect, ResendNext, SetEmailVerified, StartCaptcha,
    StartCredentials, StartFindUser, StartFlow, StartNewUser, StartRegistration,
    StartSessionResponse, ValidateIdToken, VerifyResponse, MAX_PASSWORD_ATTEMPTS, TOS_VERSION,
};
use crate::interop::url_query;
use crate::session::{removal, LoginSession, Stored};
use crate::text::{decimal, number_of};
use crate::types::{
    AuthTosAcceptance, AuthUser, AuthUserInfo, AuthenticateResponse, AuthenticationStatus,
    CredentialKind, FerrisKeyFlow, FerrisKeyUser, IdTokenClaims, OidcTokenResponse,
};

verus! {

/// The limits: five passwords, and the first version of the terms of service.
pub proof fn law_limits_of_the_provider_flow()
    ensures
        MAX_PASSWORD_ATTEMPTS == 5,
        TOS_VERSION@ == "1.0"@,
{
}

// ── Answers ─────────────────────────────────────────────────────────
/// The answer to a start says one thing, and carries nothing that belongs to another one.
pub proof fn law_start_answers_say_one_thing(
    reply: StartSessionResponse,
    options: serde_json::Value,
    is_new_user: bool,
    server_url: String,
    site_key: String,
)
    ensures
        reply.offers_passkey(options) ==> {
            &&& reply.public_key_options == Some(options) && reply.has_passkeys
            &&& !reply.has_password && !reply.otp_sent && !reply.is_new_user
            &&& reply.captcha_required is None && reply.captcha_server_url is None
            &&& reply.captcha_site_key is None
        },
        reply.asks_password() ==> {
            &&& reply.has_password && reply.public_key_options is None && !reply.has_passkeys
            &&& !reply.otp_sent && !reply.is_new_user
            &&& reply.captcha_required is None && reply.captcha_server_url is None
            &&& reply.captcha_site_key is None
        },
        reply.says_otp_sent(is_new_user) ==> {
            &&& reply.otp_sent && reply.is_new_user == is_new_user
            &&& reply.public_key_options is None && !reply.has_passkeys && !reply.has_password
            &&& reply.captcha_required is None && reply.captcha_server_url is None
            &&& reply.captcha_site_key is None
        },
        reply.asks_captcha(server_url, site_key) ==> {
            &&& reply.captcha_required == Some(true)
            &&& reply.captcha_server_url == Some(server_url)
            &&& reply.captcha_site_key == Some(site_key)
            &&& !reply.otp_sent && reply.is_new_user
            &&& reply.public_key_options is None && !reply.has_passkeys && !reply.has_password
        },
        reply.offers_passkey(options) || reply.asks_password() || reply.says_otp_sent(is_new_user)
            || reply.asks_captcha(server_url, site_key) ==> reply.session_id@.len() == 0
            && reply.needs_tos_acceptance is None && reply.redirect_url is None,
{
}

/// The answer to a verification either refuses, with a message, or succeeds, without one.
pub proof fn law_verify_answers_say_one_thing(
    reply: VerifyResponse,
    message: Seq<char>,
    needs: bool,
    url: String,
    left: i64,
)
    ensures
        reply.refuses(message) ==> {
            &&& !reply.success
            &&& reply.error matches Some(m) && m@ == message
            &&& reply.redirect_url is None && reply.needs_tos_acceptance is None
            &&& reply.retry_after_seconds is None
        },
        reply.cools_down(left) ==> {
            &&& !reply.success
            &&& reply.error matches Some(m) && m@ == wait_message(left)
            &&& reply.retry_after_seconds == Some(left)
            &&& reply.redirect_url is None && reply.needs_tos_acceptance is None
        },
        reply.says_resent() ==> {
            &&& reply.success && reply.error is None && reply.retry_after_seconds == Some(30i64)
            &&& reply.redirect_url is None && reply.needs_tos_acceptance is None
        },
        reply.logs_in(needs, url) ==> {
            &&& reply.success && reply.error is None && reply.retry_after_seconds is None
            &&& needs ==> reply.redirect_url is None && reply.needs_tos_acceptance == Some(true)
            &&& !needs ==> reply.redirect_url == Some(url) && reply.needs_tos_acceptance is None
        },
{
}

/// The answer to a captcha either refuses, with a message and no code sent, or passes.
pub proof fn law_captcha_answers_say_one_thing(reply: CaptchaVerifyResponse, message: Seq<char>)
    ensures
        reply.refuses(message) ==> !reply.success && !reply.otp_sent && (reply.error matches Some(m)
            && m@ == message),
        reply.passes() ==> reply.success && reply.otp_sent && reply.error is None,
{
}

/// Who has to wait is told for how many seconds, in decimal.
pub proof fn law_wait_is_told_in_seconds(left: i64)
    requires
        left > 0,
    ensures
        exists|digits: Seq<char>|
            {
                &&& #[trigger] number_of(digits) == left
                &&& wait_message(left) == "Please wait "@ + digits
                    + " seconds before requesting a new code."@
            },
{
    crate::text::law_decimal_denotes_its_number(left as nat);
    assert(number_of(decimal(left as nat)) == left);
}

/// A step-up that the login screen does not have is named in the refusal.
pub proof fn law_step_up_is_named(label: Seq<char>)
    ensures
        step_up_refusal(label) == "Your account requires "@ + label
            + ", which isn't supported by this login screen yet."@,
{
}

/// A refused registration is an `Unauthorized` that says so.
pub proof fn law_refused_registration_is_unauthorized(e: AuthError)
    ensures
        registration_refused(e) <==> (e matches AuthError::Unauthorized(m) && m@
            == "Registration is not open for this address"@),
{
}

// ── Configuration and session ───────────────────────────────────────
/// The provider is called with the configured settings, and not without a secret.
pub proof fn law_provider_is_called_as_configured(fk: FkConfig, config: AuthConfig, e: AuthError)
    ensures
        fk.describes(config) ==> {
            &&& fk.base@ == config.ferriskey_url@
            &&& fk.realm@ == config.ferriskey_realm@
            &&& fk.client_id@ == config.ferriskey_client_id@
            &&& fk.base_url@ == config.base_url@
            &&& config.ferriskey_client_secret is Some
            &&& fk.client_secret@ == config.ferriskey_client_secret->Some_0@
        },
        no_client_secret(config, e) ==> config.ferriskey_client_secret is None && (e matches
            AuthError::ServerStateError(m) && m@ == "FERRISKEY_CLIENT_SECRET not configured"@),
{
}

/// Starting over drops the code and the pending registration, and nothing else.
pub proof fn law_reset_drops_code_and_registration(s: LoginSession)
    ensures
        ({
            let t = pending_reset(s);
            &&& t.otp_code is Missing && t.otp_email is Missing && t.otp_expires_at is Missing
            &&& t.otp_purpose is Missing && t.otp_attempts is Missing
            &&& t.deferred_new_user is Missing
            &&& same_but_for_the_code(LoginSession { deferred_new_user: Stored::Missing, ..s }, t)
        }),
{
}

/// A start takes over the address, and the redirect where there is one to take over.
pub proof fn law_start_takes_over_the_address(
    s: LoginSession,
    email: String,
    redirect: Option<String>,
)
    ensures
        ({
            let t = login_started(s, email, redirect);
            &&& t.login_email == Stored::Value(email)
            &&& redirect matches Some(url) ==> t.login_redirect_url == Stored::Value(url)
            &&& redirect is None ==> t.login_redirect_url == s.login_redirect_url
            &&& LoginSession {
                login_email: s.login_email,
                login_redirect_url: s.login_redirect_url,
                ..t
            } == pending_reset(s)
        }),
        registration_pending(s) == (LoginSession { deferred_new_user: Stored::Value(true), ..s }),
        is_deferred(s) <==> (s.deferred_new_user matches Stored::Value(b) && b),
{
}

/// What a request needs of the session it takes from there, or says what is missing.
pub proof fn law_session_is_read_as_it_is(
    s: LoginSession,
    flow: AuthResult<FerrisKeyFlow>,
    email: AuthResult<String>,
)
    requires
        flow_loaded(s, flow),
        login_email_loaded(s, email),
    ensures
        flow matches Ok(f) ==> s.flow == Stored::Value(f),
        s.flow is Value ==> flow is Ok,
        s.flow is Missing ==> (flow matches Err(AuthError::BadRequest(m)) && m@
            == "No login flow in progress"@),
        s.flow is Unreadable ==> flow == Err::<FerrisKeyFlow, AuthError>(AuthError::SessionError),
        email matches Ok(a) ==> s.login_email == Stored::Value(a),
        s.login_email is Value ==> email is Ok,
        s.login_email is Missing ==> (email matches Err(AuthError::BadRequest(m)) && m@
            == "No login session in progress"@),
        s.login_email is Unreadable ==> email == Err::<String, AuthError>(AuthError::SessionError),
{
}

/// A finished login removes these twelve values, fails exactly where one of them cannot be read
/// back, and leaves the rest.
pub proof fn law_finished_login_removes_its_state(s: LoginSession)
    ensures
        removal(s, login_keys()).1 == !(s.flow is Unreadable || s.login_email is Unreadable
            || s.ferriskey_user_id is Unreadable || s.otp_code is Unreadable
            || s.otp_email is Unreadable || s.otp_expires_at is Unreadable
            || s.otp_purpose is Unreadable || s.otp_attempts is Unreadable
            || s.otp_last_sent_at is Unreadable || s.otp_resend_count is Unreadable
            || s.deferred_new_user is Unreadable || s.password_attempts is Unreadable),
        removal(s, login_keys()).1 ==> removal(s, login_keys()).0 == (LoginSession {
            flow: Stored::Missing,
            login_email: Stored::Missing,
            ferriskey_user_id: Stored::Missing,
            otp_code: Stored::Missing,
            otp_email: Stored::Missing,
            otp_expires_at: Stored::Missing,
            otp_purpose: Stored::Missing,
            otp_attempts: Stored::Missing,
            otp_last_sent_at: Stored::Missing,
            otp_resend_count: Stored::Missing,
            deferred_new_user: Stored::Missing,
            password_attempts: Stored::Missing,
            ..s
        }),
{
    reveal_with_fuel(removal, 13);
}

// ── Choosing how to log in ──────────────────────────────────────────
/// A passkey is asked for exactly where the account has one, a password exactly where it has one
/// and no passkey, and an account with other credentials only is refused.
pub proof fn law_credentials_choose_the_method(credentials: Seq<CredentialKind>)
    ensures
        method_for(credentials) == LoginMethod::Passkey <==> exists|i: int|
            0 <= i < credentials.len() && #[trigger] credentials[i] == CredentialKind::Passkey,
        method_for(credentials) == LoginMethod::Password <==> {
            &&& exists|i: int|
                0 <= i < credentials.len() && #[trigger] credentials[i] == CredentialKind::Password
            &&& forall|i: int|
                0 <= i < credentials.len() ==> #[trigger] credentials[i] != CredentialKind::Passkey
        },
        method_for(credentials) == LoginMethod::Unsupported <==> {
            &&& credentials.len() > 0
            &&& forall|i: int|
                0 <= i < credentials.len() ==> #[trigger] credentials[i] == CredentialKind::Other
        },
{
    if credentials.len() > 0 {
        assert(credentials[0] == credentials[0]);
    }
}

/// Further credentials never take the passkey away from an account, nor a way in that the login
/// screen supports.
pub proof fn law_more_credentials_keep_a_way_in(
    credentials: Seq<CredentialKind>,
    more: Seq<CredentialKind>,
)
    ensures
        method_for(credentials) == LoginMethod::Passkey ==> method_for(credentials + more)
            == LoginMethod::Passkey,
        method_for(credentials) == LoginMethod::Password ==> method_for(credentials + more)
            == LoginMethod::Password || method_for(credentials + more) == LoginMethod::Passkey,
{
    let all = credentials + more;
    assert forall|kind: CredentialKind| #[trigger] credentials.contains(kind) implies all.contains(
        kind,
    ) by {
        let i = choose|i: int| 0 <= i < credentials.len() && credentials[i] == kind;
        assert(all[i] == kind);
    }
}

/// A login code is mailed to the address that it was asked for, as a login code.
pub proof fn law_login_code_goes_to_its_address(
    issue: OtpIssue<StartSessionResponse>,
    email: String,
    is_new_user: bool,
)
    requires
        issues_login_otp(issue, email, is_new_user),
    ensures
        issue.email == email,
        issue.purpose@ == "login"@,
        issue.reply.otp_sent,
        issue.reply.is_new_user == is_new_user,
        issue.reply.says_otp_sent(is_new_user),
{
}

// ── Redirect and id_token ───────────────────────────────────────────
/// The value of a key is that of its last pair: pairs with other keys do not matter, and neither
/// do earlier ones with the same key.
pub proof fn law_last_pair_counts(
    before: Seq<(Seq<char>, Seq<char>)>,
    key: Seq<char>,
    value: Seq<char>,
    after: Seq<(Seq<char>, Seq<char>)>,
)
    requires
        forall|i: int| 0 <= i < after.len() ==> (#[trigger] after[i]).0 != key,
    ensures
        last_value(before.push((key, value)) + after, key) == Some(value),
        last_value(after, key) is None,
    decreases after.len(),
{
    let all = before.push((key, value)) + after;
    if after.len() == 0 {
        assert(all =~= before.push((key, value)));
    } else {
        let shorter = after.drop_last();
        assert forall|i: int| 0 <= i < shorter.len() implies (#[trigger] shorter[i]).0 != key by {
            assert(shorter[i] == after[i]);
        }
        law_last_pair_counts(before, key, value, shorter);
        assert(all.last() == after[after.len() - 1]);
        assert(all.drop_last() =~= before.push((key, value)) + shorter);
    }
}

/// A redirect yields the code in its query to the flow whose state it carries. Without a state or
/// a code it is broken, with another state it is refused, and what is no URL says so.
pub proof fn law_redirect_yields_its_code(url: Seq<char>, state: Seq<char>, r: AuthResult<String>)
    requires
        code_of_redirect(url, state, r),
    ensures
        r matches Ok(code) ==> (url_query(url) matches Ok(pairs) && last_value(pairs, "code"@)
            == Some(code@) && last_value(pairs, "state"@) == Some(state)),
        url_query(url) matches Err(message) ==> (r matches Err(AuthError::ServerStateError(m))
            && m@ == "FerrisKey returned invalid redirect URL: "@ + message),
        url_query(url) matches Ok(pairs) ==> {
            &&& last_value(pairs, "state"@) is None ==> (r matches Err(AuthError::ServerStateError(
                m,
            )) && m@ == "Missing state in redirect URL"@)
            &&& last_value(pairs, "state"@) is Some && last_value(pairs, "state"@) != Some(state)
                ==> (r matches Err(AuthError::Unauthorized(m)) && m@
                == "Login flow state mismatch — please retry"@)
            &&& last_value(pairs, "state"@) == Some(state) && last_value(pairs, "code"@) is None
                ==> (r matches Err(AuthError::ServerStateError(m)) && m@
                == "Missing code in redirect URL"@)
            &&& last_value(pairs, "state"@) == Some(state) && last_value(pairs, "code"@) is Some
                ==> r is Ok
        },
        redirect_accepted(url, state) <==> r is Ok,
{
}

/// The pairs of a query decide like the redirect they come from.
pub proof fn law_pairs_decide_like_their_redirect(
    url: Seq<char>,
    pairs: Seq<(Seq<char>, Seq<char>)>,
    state: Seq<char>,
    r: AuthResult<String>,
)
    requires
        url_query(url) == Ok::<Seq<(Seq<char>, Seq<char>)>, Seq<char>>(pairs),
    ensures
        code_of_pairs(pairs, state, r) == code_of_redirect(url, state, r),
{
}

/// The code of an accepted redirect is redeemed in the very flow that it answers, with that flow's
/// secret; a flow without a secret redeems nothing.
pub proof fn law_code_is_redeemed_in_its_flow(
    fk: FkConfig,
    flow: FerrisKeyFlow,
    url: Seq<char>,
    r: AuthResult<ExchangeCode>,
)
    requires
        redirect_followed(fk, flow, url, r),
    ensures
        r is Ok <==> redirect_accepted(url, flow.state@) && flow.code_verifier is Some,
        r matches Ok(step) ==> {
            &&& step.fk == fk
            &&& step.flow.state@ == flow.state@
            &&& step.flow.nonce == flow.nonce
            &&& step.flow.code_verifier == flow.code_verifier
            &&& step.flow.provider_session == flow.provider_session
            &&& flow.code_verifier == Some(step.code_verifier)
            &&& url_query(url) matches Ok(pairs) && last_value(pairs, "code"@) == Some(step.code@)
        },
        redirect_accepted(url, flow.state@) && flow.code_verifier is None ==> (r matches Err(
            AuthError::ServerStateError(m),
        ) && m@ == "Login flow missing PKCE verifier — please retry"@),
        !redirect_accepted(url, flow.state@) ==> r is Err && code_of_redirect(
            url,
            flow.state@,
            Err::<String, AuthError>(r->Err_0),
        ),
{
}

/// A validated id_token names its user exactly where it has the nonce of the flow, if the flow
/// has one, and an address. The address counts as verified exactly where the provider says so.
pub proof fn law_id_token_names_its_user(
    flow: FerrisKeyFlow,
    claims: IdTokenClaims,
    r: AuthResult<AuthUserInfo>,
)
    requires
        id_token_resolved(flow, Ok::<IdTokenClaims, String>(claims), r),
    ensures
        ({
            let bound = flow.nonce is None || (claims.nonce is Some && claims.nonce->Some_0@
                == flow.nonce->Some_0@);
            let addressed = claims.email is Some && claims.email->Some_0@.len() > 0;
            &&& bound == nonce_matches(flow, claims)
            &&& r is Ok <==> bound && addressed
            &&& r matches Ok(info) ==> {
                &&& info.sub == claims.sub
                &&& claims.email == Some(info.email)
                &&& info.email_verified <==> claims.email_verified == Some(true)
                &&& info.name is None && info.nickname is None && info.picture is None
                &&& info.preferred_username is None
            }
            &&& !bound ==> (r matches Err(AuthError::Unauthorized(m)) && m@
                == "Login flow nonce mismatch — please retry"@)
            &&& bound && !addressed ==> (r matches Err(AuthError::ServerStateError(m)) && m@
                == "FerrisKey id_token has no email claim"@)
        }),
{
}

/// An id_token that could not be validated names nobody.
pub proof fn law_invalid_id_token_names_nobody(
    flow: FerrisKeyFlow,
    message: String,
    r: AuthResult<AuthUserInfo>,
)
    requires
        id_token_resolved(flow, Err::<IdTokenClaims, String>(message), r),
    ensures
        r matches Err(AuthError::ServerStateError(m)) && m@
            == "Failed to validate FerrisKey id_token: "@ + message@,
{
}

/// The answer of the provider decides by its status: a success goes on in the same flow with the
/// code of its redirect, and everything else is a refusal that says what is missing.
pub proof fn law_status_decides(
    config: AuthConfig,
    flow: FerrisKeyFlow,
    resp: AuthenticateResponse,
    r: AuthResult<OidcNext>,
    fk: FkConfig,
)
    requires
        oidc_outcome(config, flow, resp, r),
    ensures
        r matches Ok(OidcNext::ExchangeCode(step)) ==> {
            &&& resp.status == AuthenticationStatus::Success
            &&& resp.url is Some
            &&& step.fk.describes(config)
            &&& step.flow.state@ == flow.state@
            &&& step.flow.nonce == flow.nonce
            &&& step.flow.code_verifier == flow.code_verifier
            &&& step.flow.provider_session == flow.provider_session
            &&& flow.code_verifier == Some(step.code_verifier)
            &&& url_query(resp.url->Some_0@) matches Ok(pairs) && last_value(pairs, "state"@)
                == Some(flow.state@) && last_value(pairs, "code"@) == Some(step.code@)
        },
        resp.status == AuthenticationStatus::Success ==> {
            &&& !(r matches Ok(OidcNext::Reply(_)))
            &&& r is Ok <==> resp.url is Some && config.ferriskey_client_secret is Some
                && redirect_accepted(resp.url->Some_0@, flow.state@) && flow.code_verifier is Some
            &&& resp.url is None ==> (r matches Err(AuthError::ServerStateError(m)) && m@
                == "FerrisKey returned Success without a redirect URL"@)
            &&& resp.url is Some && config.ferriskey_client_secret is None ==> (r matches Err(
                AuthError::ServerStateError(m),
            ) && m@ == "FERRISKEY_CLIENT_SECRET not configured"@)
            &&& resp.url is Some && config.ferriskey_client_secret is Some && r is Err
                ==> redirect_followed(
                fk,
                flow,
                resp.url->Some_0@,
                Err::<ExchangeCode, AuthError>(r->Err_0),
            )
        },
        resp.status == AuthenticationStatus::RequiresOtpChallenge ==> (r matches Ok(OidcNext::Reply(
            reply,
        )) && !reply.success && reply.error is Some && reply.error->Some_0@
            == "Your account requires "@ + "TOTP"@
            + ", which isn't supported by this login screen yet."@),
        resp.status == AuthenticationStatus::RequiresActions ==> (r matches Ok(OidcNext::Reply(
            reply,
        )) && !reply.success && reply.error is Some && reply.error->Some_0@
            == "Your account requires "@ + "additional setup"@
            + ", which isn't supported by this login screen yet."@),
        resp.status == AuthenticationStatus::Failed ==> (r matches Ok(OidcNext::Reply(reply))
            && !reply.success && reply.error is Some && reply.error->Some_0@ == if resp.message
            is Some {
            resp.message->Some_0@
        } else {
            "Authentication failed"@
        }),
        r matches Ok(OidcNext::Reply(reply)) ==> reply.refuses(reply.error->Some_0@),
{
    if resp.status == AuthenticationStatus::Success && resp.url is Some
        && config.ferriskey_client_secret is Some {
        let url = resp.url->Some_0@;
        match r {
            Err(e) => {
                assert(redirect_followed(fk, flow, url, Err::<ExchangeCode, AuthError>(e)));
                law_code_is_redeemed_in_its_flow(
                    fk,
                    flow,
                    url,
                    Err::<ExchangeCode, AuthError>(e),
                );
            },
            Ok(OidcNext::ExchangeCode(step)) => {
                law_code_is_redeemed_in_its_flow(
                    step.fk,
                    flow,
                    url,
                    Ok::<ExchangeCode, AuthError>(step),
                );
            },
            Ok(OidcNext::Reply(_)) => {},
        }
    }
}

/// From the flow in the session to the user: once the provider has answered a step of that flow
/// with a success, an id_token with the nonce of the flow and an address names its user, and one
/// with another nonce never does.
pub proof fn law_login_is_bound_to_the_flow_of_the_session(
    s: LoginSession,
    flow: FerrisKeyFlow,
    config: AuthConfig,
    resp: AuthenticateResponse,
    step: ExchangeCode,
    claims: IdTokenClaims,
    r: AuthResult<AuthUserInfo>,
)
    requires
        flow_loaded(s, Ok::<FerrisKeyFlow, AuthError>(flow)),
        oidc_outcome(config, flow, resp, Ok::<OidcNext, AuthError>(OidcNext::ExchangeCode(step))),
        id_token_resolved(step.flow, Ok::<IdTokenClaims, String>(claims), r),
    ensures
        s.flow == Stored::Value(flow),
        step.flow == flow,
        claims.nonce == flow.nonce && claims.email is Some && claims.email->Some_0@.len() > 0 ==> (
        r matches Ok(info) && info.sub == claims.sub && info.email == claims.email->Some_0),
        flow.nonce is Some && (claims.nonce is None || claims.nonce->Some_0@
            != flow.nonce->Some_0@) ==> (r matches Err(AuthError::Unauthorized(m)) && m@
            == "Login flow nonce mismatch — please retry"@),
{
}

// ── Passwords ───────────────────────────────────────────────────────
/// A password may be tried exactly while fewer than five are counted, and counting one leaves the
/// rest of the session.
pub proof fn law_password_attempts_are_counted(s: LoginSession, n: u32)
    ensures
        s.password_attempts == Stored::Value(n) ==> password_attempts(s) == n
            && password_slot_left(s) == (n < 5),
        s.password_attempts is Missing ==> password_attempts(s) == 0 && password_slot_left(s),
        password_slot_left(s) ==> {
            &&& attempt_counted(s).password_attempts matches Stored::Value(m) && m
                == password_attempts(s) + 1
            &&& attempt_counted(s) == (LoginSession {
                password_attempts: attempt_counted(s).password_attempts,
                ..s
            })
        },
{
}

// ── Email code ──────────────────────────────────────────────────────
/// The account of a proven address is looked for, unless a registration is pending; then it is
/// created where the allowlist is open, with the token and for the address at hand.
pub proof fn law_account_comes_from_where_it_must(
    step: OtpToken,
    config: AuthConfig,
    s: LoginSession,
    tokens: OidcTokenResponse,
    r: AuthResult<OtpAccount>,
)
    requires
        account_sourced(step, config, s, Ok::<OidcTokenResponse, AuthError>(tokens), r),
    ensures
        s.deferred_new_user is Unreadable ==> r == Err::<OtpAccount, AuthError>(
            AuthError::SessionError,
        ),
        s.deferred_new_user is Missing || s.deferred_new_user == Stored::Value(false) ==> (r matches
            Ok(OtpAccount::FindUser(next)) && next.fk == step.fk && next.token
            == tokens.access_token && next.email == step.email),
        s.deferred_new_user == Stored::Value(true) ==> {
            &&& depends_on_users(config) ==> (r matches Ok(OtpAccount::AskForUsers(next))
                && next.fk == step.fk && next.token == tokens.access_token && next.email
                == step.email)
            &&& !depends_on_users(config) && open_to(config, step.email@, false) ==> (r matches Ok(
                OtpAccount::CreateUser(next),
            ) && next.fk == step.fk && next.token == tokens.access_token && next.email
                == step.email)
            &&& !depends_on_users(config) && !open_to(config, step.email@, false) ==> (r matches
                Err(AuthError::Unauthorized(m)) && m@
                == "Registration is not open for this address"@)
        },
{
}

/// Without a token nothing is looked for and nothing is created.
pub proof fn law_no_account_without_a_token(
    step: OtpToken,
    config: AuthConfig,
    s: LoginSession,
    e: AuthError,
    r: AuthResult<OtpAccount>,
)
    requires
        account_sourced(step, config, s, Err::<OidcTokenResponse, AuthError>(e), r),
    ensures
        r == Err::<OtpAccount, AuthError>(e),
{
}

/// Where the user store decides, the account is created exactly where it lets the address in.
pub proof fn law_first_account_is_created(
    step: OtpRegistration,
    config: AuthConfig,
    has_users: AuthResult<bool>,
    r: AuthResult<OtpCreateUser>,
)
    requires
        first_account_decided(step, config, has_users, r),
    ensures
        has_users matches Err(e) ==> r == Err::<OtpCreateUser, AuthError>(e),
        has_users matches Ok(any) ==> {
            &&& r is Ok <==> open_to(config, step.email@, any)
            &&& r matches Ok(next) ==> next.fk == step.fk && next.token == step.token && next.email
                == step.email
            &&& r matches Err(e) ==> (e matches AuthError::Unauthorized(m) && m@
                == "Registration is not open for this address"@)
        },
{
}

/// An account whose address a code has proven is logged in exactly where it is enabled, as itself
/// and under that address.
pub proof fn law_enabled_account_is_logged_in(
    user: FerrisKeyUser,
    email: String,
    r: AuthResult<LookupUser>,
)
    requires
        otp_login_of(user, email, r),
    ensures
        r is Ok <==> user.enabled,
        r matches Ok(next) ==> {
            &&& next.info.sub == user.id
            &&& next.info.email == email
            &&& next.info.email_verified
            &&& next.info.preferred_username == Some(email)
            &&& next.info.nickname is None && next.info.picture is None
            &&& user.firstname@.len() > 0 ==> next.info.name == Some(user.firstname)
            &&& user.firstname@.len() == 0 ==> next.info.name is None
        },
        r matches Err(e) ==> (e matches AuthError::Unauthorized(m) && m@
            == "This account is disabled"@),
{
}

/// How a login with a code ends: at once, or once the address is marked as verified.
pub open spec fn code_login_end(
    r: AuthResult<AfterOtpCredentials>,
    marked: AuthResult<LookupUser>,
) -> AuthResult<LookupUser> {
    match r {
        Ok(AfterOtpCredentials::LookupUser(next)) => Ok(next),
        Ok(AfterOtpCredentials::SetEmailVerified(_)) => marked,
        Err(e) => Err(e),
    }
}

/// An enabled account without credentials is logged in by a code, whether its address was verified
/// before or not, whatever it is called, and whether or not it was just created; a disabled one is
/// refused. The address of an account that was there before is marked first, where it has to be.
pub proof fn law_code_logs_in_every_enabled_account(
    step: OtpCredentials,
    before: LoginSession,
    after: LoginSession,
    kinds: Vec<CredentialKind>,
    r: AuthResult<AfterOtpCredentials>,
    marked: AuthResult<LookupUser>,
)
    requires
        kinds@.len() == 0,
        !(step.deferred && before.deferred_new_user is Unreadable),
        credentials_answered(step, before, after, Ok::<Vec<CredentialKind>, AuthError>(kinds), r),
        r matches Ok(AfterOtpCredentials::SetEmailVerified(mark)) ==> address_marked(
            mark,
            Ok::<(), AuthError>(()),
            marked,
        ),
    ensures
        code_login_end(r, marked) is Ok <==> step.user.enabled,
        code_login_end(r, marked) matches Ok(next) ==> next.info.sub == step.user.id
            && next.info.email == step.email && next.info.email_verified,
        code_login_end(r, marked) matches Err(e) ==> (e matches AuthError::Unauthorized(m) && m@
            == "This account is disabled"@),
        r matches Ok(AfterOtpCredentials::SetEmailVerified(mark)) ==> !step.deferred
            && !step.user.email_verified && mark.fk == step.fk && mark.token == step.token
            && mark.user == step.user && mark.email == step.email,
        !step.deferred && !step.user.email_verified ==> (r matches Ok(
            AfterOtpCredentials::SetEmailVerified(_),
        )),
        step.deferred ==> after == (LoginSession { deferred_new_user: Stored::Missing, ..before }),
        !step.deferred ==> after == before,
{
}

/// A code does not log in an account with a credential, or one whose credentials are unknown.
pub proof fn law_code_is_no_way_around_a_credential(
    step: OtpCredentials,
    before: LoginSession,
    after: LoginSession,
    credentials: AuthResult<Vec<CredentialKind>>,
    r: AuthResult<AfterOtpCredentials>,
)
    requires
        credentials is Err || credentials->Ok_0@.len() > 0,
        credentials_answered(step, before, after, credentials, r),
    ensures
        after == before,
        credentials is Err ==> (r matches Err(AuthError::ServerStateError(m)) && m@
            == "Unable to inspect user credentials"@),
        credentials is Ok ==> (r matches Err(AuthError::Unauthorized(m)) && m@
            == "Email code login is not available for this account"@),
{
}

/// A pending registration that cannot be read back is dropped, and logs nobody in.
pub proof fn law_unreadable_registration_logs_nobody_in(
    step: OtpCredentials,
    before: LoginSession,
    after: LoginSession,
    kinds: Vec<CredentialKind>,
    r: AuthResult<AfterOtpCredentials>,
)
    requires
        kinds@.len() == 0,
        step.deferred,
        before.deferred_new_user is Unreadable,
        credentials_answered(step, before, after, Ok::<Vec<CredentialKind>, AuthError>(kinds), r),
    ensures
        after == (LoginSession { deferred_new_user: Stored::Missing, ..before }),
        r matches Err(AuthError::SessionError),
{
}

/// Where the provider cannot be told that an address is verified, its user is not logged in.
pub proof fn law_unmarked_address_is_not_logged_in(
    step: SetEmailVerified,
    e: AuthError,
    r: AuthResult<LookupUser>,
)
    requires
        address_marked(step, Err::<(), AuthError>(e), r),
    ensures
        r == Err::<LookupUser, AuthError>(e),
{
}

// ── Resend ──────────────────────────────────────────────────────────
/// Another code keeps the purpose of the one in flight.
pub proof fn law_another_code_keeps_the_purpose(s: LoginSession, purpose: String)
    ensures
        s.otp_purpose == Stored::Value(purpose) ==> purpose_of(s) == purpose@,
        !(s.otp_purpose is Value) ==> purpose_of(s) == "login"@,
        code_in_flight(s) <==> s.login_email is Value && s.otp_code is Value,
{
}

/// A code is sent again to the address of the login exactly where one is in flight, the throttle is
/// open and the purpose can be read. Else the answer says why not.
pub proof fn law_code_is_sent_again(s: LoginSession, now: i64, r: AuthResult<ResendNext>)
    requires
        resend_answered(s, now, r),
    ensures
        r matches Ok(ResendNext::MintOtp(issue)) ==> {
            &&& s.login_email == Stored::Value(issue.email)
            &&& s.otp_code is Value
            &&& throttle(s, now) == Ok::<ResendThrottle, AuthError>(ResendThrottle::Open)
            &&& issue.purpose@ == purpose_of(s)
            &&& issue.reply.success && issue.reply.retry_after_seconds == Some(30i64)
            &&& issue.reply.says_resent()
        },
        s.login_email is Missing ==> (r matches Err(AuthError::BadRequest(m)) && m@
            == "No login session in progress"@),
        s.login_email is Unreadable ==> r == Err::<ResendNext, AuthError>(AuthError::SessionError),
        s.login_email is Value && s.otp_code is Missing ==> (r matches Err(AuthError::BadRequest(m))
            && m@ == "No verification code in progress"@),
        s.login_email is Value && s.otp_code is Unreadable ==> r == Err::<ResendNext, AuthError>(
            AuthError::SessionError,
        ),
        s.login_email is Value && s.otp_code is Value ==> {
            &&& throttle(s, now) matches Err(e) ==> r == Err::<ResendNext, AuthError>(e)
            &&& throttle(s, now) matches Ok(ResendThrottle::CapReached) ==> (r matches Ok(
                ResendNext::Reply(reply),
            ) && reply.refuses("Maximum resend attempts reached. Please start a new login."@))
            &&& throttle(s, now) matches Ok(ResendThrottle::CoolingDown(left)) ==> (r matches Ok(
                ResendNext::Reply(reply),
            ) && reply.cools_down(left))
            &&& throttle(s, now) matches Ok(ResendThrottle::Open) ==> if s.otp_purpose is Unreadable {
                r == Err::<ResendNext, AuthError>(AuthError::SessionError)
            } else {
                r matches Ok(ResendNext::MintOtp(_))
            }
        },
{
}

// ── Captcha ─────────────────────────────────────────────────────────
/// A captcha server is asked about the submitted token, with its own secret, exactly where one is
/// configured and the token is not empty.
pub proof fn law_captcha_server_is_asked(
    env: CaptchaEnv,
    token: Option<String>,
    r: AuthResult<CaptchaNext>,
)
    requires
        captcha_asked(env, token, r),
    ensures
        r matches Ok(CaptchaNext::Verify(request)) ==> {
            &&& captcha_configured(env)
            &&& token == Some(request.token) && request.token@.len() > 0
            &&& env.secret_key == Some(request.bearer)
            &&& request.url@ == captcha_verify_url(env.server_url->Some_0@)
        },
        !captcha_configured(env) ==> (r matches Err(AuthError::BadRequest(m)) && m@
            == "No captcha is configured for this deployment"@),
        captcha_configured(env) ==> r is Ok,
        captcha_configured(env) && token is Some && token->Some_0@.len() > 0 ==> (r matches Ok(
            CaptchaNext::Verify(_),
        )),
        captcha_configured(env) && (token is None || token->Some_0@.len() == 0) ==> (r matches Ok(
            CaptchaNext::Reply(reply),
        ) && reply.refuses("Verification token missing. Please try again."@)),
{
}

/// A withheld code goes to the address of the login.
pub proof fn law_withheld_code_goes_to_the_address(s: LoginSession, r: AuthResult<AfterCaptcha>)
    requires
        withheld_code_sent(s, r),
    ensures
        s.login_email is Value ==> {
            &&& r matches Ok(AfterCaptcha::MintOtp(issue))
            &&& s.login_email == Stored::Value(issue.email)
            &&& issue.purpose@ == "login"@
            &&& issue.reply.success && issue.reply.otp_sent && issue.reply.error is None
        },
        s.login_email is Missing ==> (r matches Err(AuthError::ServerStateError(m)) && m@
            == "Missing login email"@),
        s.login_email is Unreadable ==> r == Err::<AfterCaptcha, AuthError>(
            AuthError::SessionError,
        ),
{
}

/// A token that passed sends the code, one that did not is refused, and no answer is an error.
pub proof fn law_captcha_answer_decides(
    s: LoginSession,
    answer: Option<CaptchaAnswer>,
    r: AuthResult<AfterCaptcha>,
)
    requires
        captcha_concluded(s, answer, r),
    ensures
        answer is None ==> (r matches Err(AuthError::ServerStateError(m)) && m@
            == "captcha verify request failed"@),
        answer matches Some(a) ==> {
            &&& captcha_passed(a) ==> withheld_code_sent(s, r)
            &&& !captcha_passed(a) ==> (r matches Ok(AfterCaptcha::Reply(reply)) && reply.refuses(
                "Verification failed. Please try again."@,
            ))
        },
{
}

// ── Terms of service ────────────────────────────────────────────────
/// The terms are asked for unless their current version was accepted.
pub proof fn law_terms_are_asked_for(user: AuthUser, acceptance: AuthTosAcceptance)
    ensures
        user.tos_acceptance is None ==> needs_tos(user),
        user.tos_acceptance == Some(acceptance) ==> (needs_tos(user) <==> !(acceptance.accepted
            && acceptance.latest_version@ == "1.0"@)),
{
}

/// A login that did not wait for the terms leads to the dashboard.
pub proof fn law_destination_is_the_dashboard_by_default(s: LoginSession, url: String)
    ensures
        s.tos_pending_redirect == Stored::Value(url) ==> pending_redirect(s) == url@,
        !(s.tos_pending_redirect is Value) ==> pending_redirect(s) == "/dashboard"@,
{
}

// ── Starting ────────────────────────────────────────────────────────
/// A known account has its credentials looked at exactly where it is enabled; the session stays as
/// it is until then.
pub proof fn law_known_accounts_are_looked_at(
    step: StartFindUser,
    config: AuthConfig,
    before: LoginSession,
    after: LoginSession,
    user: FerrisKeyUser,
    r: AuthResult<AfterLookup>,
)
    requires
        session_auth::lookup_answered(
            step,
            config,
            before,
            after,
            Ok::<Option<FerrisKeyUser>, AuthError>(Some(user)),
            r,
        ),
    ensures
        after == before,
        r is Ok <==> user.enabled,
        r matches Ok(next) ==> (next matches AfterLookup::ListCredentials(list) && list.fk
            == step.fk && list.token == step.token && list.user_id == user.id && list.email
            == step.email),
        r matches Err(e) ==> (e matches AuthError::Unauthorized(m) && m@
            == "This account is disabled"@),
{
}

/// An unknown address is a pending registration exactly where it is let in: by the allowlist, or
/// without one by a store that has no user yet. A failed lookup decides nothing.
pub proof fn law_unknown_addresses_register(
    step: StartFindUser,
    ask: StartRegistration,
    config: AuthConfig,
    before: LoginSession,
    after: LoginSession,
    found: AuthResult<Option<FerrisKeyUser>>,
    r: AuthResult<AfterLookup>,
    later: LoginSession,
    has_users: AuthResult<bool>,
    asked: AuthResult<StartCaptcha>,
)
    requires
        !(found matches Ok(Some(_))),
        session_auth::lookup_answered(step, config, before, after, found, r),
        session_auth::registration_answered(ask, config, before, later, has_users, asked),
    ensures
        found matches Err(e) ==> r == Err::<AfterLookup, AuthError>(e) && after == before,
        found is Ok && depends_on_users(config) ==> after == before && (r matches Ok(
            AfterLookup::AskForUsers(next),
        ) && next.email == step.email),
        found is Ok && !depends_on_users(config) && open_to(config, step.email@, false) ==> after
            == (LoginSession { deferred_new_user: Stored::Value(true), ..before }) && (r matches Ok(
            AfterLookup::ReadCaptcha(next),
        ) && next.email == step.email),
        found is Ok && !depends_on_users(config) && !open_to(config, step.email@, false) ==> after
            == before && (r matches Err(AuthError::Unauthorized(m)) && m@
            == "Registration is not open for this address"@),
        has_users matches Err(e) ==> asked == Err::<StartCaptcha, AuthError>(e) && later == before,
        has_users matches Ok(any) ==> {
            &&& asked is Ok <==> open_to(config, ask.email@, any)
            &&& asked matches Ok(next) ==> next.email == ask.email && later == (LoginSession {
                deferred_new_user: Stored::Value(true),
                ..before
            })
            &&& asked matches Err(e) ==> later == before && (e matches AuthError::Unauthorized(m)
                && m@ == "Registration is not open for this address"@)
        },
{
}

/// A new user is asked for the captcha where one is configured, and else gets a code.
pub proof fn law_new_provider_users_solve_the_captcha_or_get_a_code(
    step: StartCaptcha,
    env: CaptchaEnv,
    r: StartNewUser,
)
    requires
        session_auth::new_user_answered(step, env, r),
    ensures
        captcha_configured(env) ==> {
            &&& r matches StartNewUser::Reply(reply)
            &&& reply.captcha_required == Some(true) && reply.captcha_server_url == env.server_url
            &&& reply.captcha_site_key == env.site_key && !reply.otp_sent && reply.is_new_user
        },
        !captcha_configured(env) ==> {
            &&& r matches StartNewUser::MintOtp(issue)
            &&& issue.email == step.email && issue.purpose@ == "login"@
            &&& issue.reply.otp_sent && issue.reply.is_new_user
        },
{
}

/// From the credentials of an account to the answer: with a passkey among them the options of the
/// flow that was opened are fetched, with a password and no passkey it is asked for, without any a
/// code is mailed and the flow dropped, and else the account is refused. The session remembers the
/// account.
pub proof fn law_account_logs_in_by_its_credentials(
    step: StartCredentials,
    before: LoginSession,
    between: LoginSession,
    after: LoginSession,
    kinds: Vec<CredentialKind>,
    next: StartFlow,
    flow: FerrisKeyFlow,
    r: AuthResult<AfterFlow>,
)
    requires
        session_auth::credentials_listed(
            step,
            before,
            between,
            Ok::<Vec<CredentialKind>, AuthError>(kinds),
            Ok::<StartFlow, AuthError>(next),
        ),
        session_auth::flow_opened(
            next,
            between,
            after,
            Ok::<FerrisKeyFlow, AuthError>(flow),
            r,
        ),
    ensures
        next.fk == step.fk && next.email == step.email,
        ({
            let passkey = exists|i: int|
                0 <= i < kinds@.len() && #[trigger] kinds@[i] == CredentialKind::Passkey;
            let password = exists|i: int|
                0 <= i < kinds@.len() && #[trigger] kinds@[i] == CredentialKind::Password;
            &&& passkey ==> (r matches Ok(AfterFlow::PasskeyOptions(options)) && options.flow
                == flow && options.email == step.email && options.fk == step.fk)
            &&& !passkey && password ==> (r matches Ok(AfterFlow::Reply(reply))
                && reply.has_password && !reply.otp_sent && reply.asks_password())
            &&& kinds@.len() == 0 ==> (r matches Ok(AfterFlow::MintOtp(issue)) && issue.email
                == step.email && issue.reply.otp_sent && !issue.reply.is_new_user
                && issue.purpose@ == "login"@)
            &&& kinds@.len() > 0 && !passkey && !password ==> (r matches Err(
                AuthError::Unauthorized(m),
            ) && m@ == "This account has no supported login method"@)
        }),
        after == (LoginSession {
            ferriskey_user_id: Stored::Value(step.user_id),
            flow: if kinds@.len() == 0 {
                Stored::Missing
            } else {
                Stored::Value(flow)
            },
            ..before
        }),
{
    law_credentials_choose_the_method(kinds@);
    crate::handlers::laws::law_code_login_is_for_accounts_without_credentials(kinds@);
}

/// Credentials that cannot be listed, and a flow that cannot be opened, end the start with the
/// session as it was.
pub proof fn law_failed_start_changes_nothing(
    step: StartCredentials,
    next: StartFlow,
    before: LoginSession,
    after: LoginSession,
    later: LoginSession,
    listing: AuthError,
    opening: AuthError,
    listed: AuthResult<StartFlow>,
    opened: AuthResult<AfterFlow>,
)
    requires
        session_auth::credentials_listed(
            step,
            before,
            after,
            Err::<Vec<CredentialKind>, AuthError>(listing),
            listed,
        ),
        session_auth::flow_opened(
            next,
            before,
            later,
            Err::<FerrisKeyFlow, AuthError>(opening),
            opened,
        ),
    ensures
        after == before && later == before,
        listed matches Err(AuthError::ServerStateError(m)) && m@
            == "Unable to inspect user credentials"@,
        opened == Err::<AfterFlow, AuthError>(opening),
{
}

/// Listing the credentials of an account always goes on to open a flow.
pub proof fn law_listed_credentials_go_on(
    step: StartCredentials,
    before: LoginSession,
    after: LoginSession,
    kinds: Vec<CredentialKind>,
    r: AuthResult<StartFlow>,
)
    requires
        session_auth::credentials_listed(
            step,
            before,
            after,
            Ok::<Vec<CredentialKind>, AuthError>(kinds),
            r,
        ),
    ensures
        r is Ok,
{
}

// ── Password steps ──────────────────────────────────────────────────
/// A password is counted before it is tried, while fewer than five are; the sixth is refused, and
/// leaves the count.
pub proof fn law_password_is_counted_before_it_is_tried(
    step: CountAttempt,
    before: LoginSession,
    after: LoginSession,
    r: AuthResult<AfterCount>,
)
    requires
        session_auth::attempt_answered(step, before, after, r),
    ensures
        r matches Ok(AfterCount::Persist(next)) ==> {
            &&& next.password == step.password && next.fk == step.fk
            &&& after.password_attempts matches Stored::Value(n) && 1 <= n <= 5 && (
            before.password_attempts is Missing && n == 1 || before.password_attempts
                == Stored::Value((n - 1) as u32))
            &&& after == (LoginSession { password_attempts: after.password_attempts, ..before })
        },
        (r matches Ok(AfterCount::Persist(_))) <==> before.password_attempts is Missing || (
        before.password_attempts matches Stored::Value(n) && n < 5),
        before.password_attempts is Unreadable ==> after == before && (r matches Err(
            AuthError::SessionError,
        )),
        (before.password_attempts matches Stored::Value(n) && n >= 5) ==> after == before && (r
            matches Ok(AfterCount::Reply(reply)) && reply.refuses(
            "Too many failed password attempts. Please start a new login."@,
        )),
{
}

/// The password goes to the provider in the flow and for the address of the session, once it is
/// counted for good.
pub proof fn law_password_is_tried_in_the_flow_of_the_session(
    step: PersistAttempt,
    s: LoginSession,
    saved: AuthResult<()>,
    r: AuthResult<AuthenticatePassword>,
)
    requires
        session_auth::attempt_made(step, s, saved, r),
    ensures
        r is Ok <==> saved is Ok && s.flow is Value && s.login_email is Value,
        r matches Ok(next) ==> {
            &&& next.fk == step.fk && next.password == step.password
            &&& s.flow == Stored::Value(next.flow)
            &&& s.login_email == Stored::Value(next.email)
        },
        saved matches Err(e) ==> r == Err::<AuthenticatePassword, AuthError>(e),
        saved is Ok && s.flow is Missing ==> (r matches Err(AuthError::BadRequest(m)) && m@
            == "No login flow in progress"@),
        saved is Ok && s.flow is Value && s.login_email is Missing ==> (r matches Err(
            AuthError::BadRequest(m),
        ) && m@ == "No login session in progress"@),
        saved is Ok && (s.flow is Unreadable || (s.flow is Value && s.login_email is Unreadable))
            ==> (r matches Err(AuthError::SessionError)),
{
}

/// A failed password keeps its place in the count, and every other answer frees it; what follows
/// is what the answer says, in the same flow.
pub proof fn law_password_answer_frees_the_count(
    step: AuthenticatePassword,
    config: AuthConfig,
    before: LoginSession,
    after: LoginSession,
    answer: AuthResult<AuthenticateResponse>,
    r: AuthResult<OidcNext>,
)
    requires
        session_auth::password_answered(step, config, before, after, answer, r),
    ensures
        answer is Err ==> after == before && (r matches Ok(OidcNext::Reply(reply))
            && reply.refuses("Invalid password. Please try again."@)),
        answer matches Ok(resp) ==> {
            &&& resp.status == AuthenticationStatus::Failed ==> after == before
            &&& resp.status != AuthenticationStatus::Failed ==> after == (LoginSession {
                password_attempts: Stored::Missing,
                ..before
            })
            &&& resp.status == AuthenticationStatus::Failed || !(before.password_attempts
                is Unreadable) ==> oidc_outcome(config, step.flow, resp, r)
            &&& resp.status != AuthenticationStatus::Failed && before.password_attempts
                is Unreadable ==> (r matches Err(AuthError::SessionError))
        },
{
}

/// The tokens that a code was redeemed for are validated in the flow of the code.
pub proof fn law_id_token_is_validated_in_its_flow(
    step: ExchangeCode,
    answer: AuthResult<OidcTokenResponse>,
    r: AuthResult<ValidateIdToken>,
)
    requires
        session_auth::tokens_received(step, answer, r),
    ensures
        r is Ok <==> answer is Ok && answer->Ok_0.id_token is Some,
        r matches Ok(next) ==> next.flow == step.flow && answer->Ok_0.id_token == Some(
            next.id_token,
        ),
        answer matches Err(e) ==> r == Err::<ValidateIdToken, AuthError>(e),
        answer is Ok && answer->Ok_0.id_token is None ==> (r matches Err(
            AuthError::ServerStateError(m),
        ) && m@ == "FerrisKey returned no id_token"@),
{
}

/// The whole way of a provider login: from the flow in the session over the redirect and the
/// tokens to the user. The id_token is held against the nonce of the flow in the session.
pub proof fn law_provider_login_names_the_user_of_its_flow(
    flow: FerrisKeyFlow,
    config: AuthConfig,
    resp: AuthenticateResponse,
    exchange: ExchangeCode,
    tokens: OidcTokenResponse,
    validate: ValidateIdToken,
    claims: IdTokenClaims,
    r: AuthResult<AuthUserInfo>,
)
    requires
        oidc_outcome(
            config,
            flow,
            resp,
            Ok::<OidcNext, AuthError>(OidcNext::ExchangeCode(exchange)),
        ),
        session_auth::tokens_received(
            exchange,
            Ok::<OidcTokenResponse, AuthError>(tokens),
            Ok::<ValidateIdToken, AuthError>(validate),
        ),
        id_token_resolved(validate.flow, Ok::<IdTokenClaims, String>(claims), r),
    ensures
        tokens.id_token == Some(validate.id_token),
        r is Ok <==> (flow.nonce is None || (claims.nonce is Some && claims.nonce->Some_0@
            == flow.nonce->Some_0@)) && claims.email is Some && claims.email->Some_0@.len() > 0,
        r matches Ok(info) ==> info.sub == claims.sub && Some(info.email) == claims.email,
{
}

// ── Code and end of a login ─────────────────────────────────────────
/// The address of an accepted code is the one that goes on, once the session is written back; a
/// refusal is told as it is.
pub proof fn law_accepted_code_goes_on_with_its_address(
    config: AuthConfig,
    checked: OtpChecked,
    saved: AuthResult<()>,
    r: AuthResult<AfterOtp>,
)
    requires
        session_auth::code_taken(config, checked, saved, r),
    ensures
        saved matches Err(e) ==> r == Err::<AfterOtp, AuthError>(e),
        saved is Ok ==> {
            &&& checked.outcome matches Err(message) ==> (r matches Ok(AfterOtp::Reply(reply))
                && reply.refuses(message@))
            &&& checked.outcome matches Ok(email) ==> !(r matches Ok(AfterOtp::Reply(_)))
            &&& r matches Ok(AfterOtp::ServiceToken(next)) ==> checked.outcome == Ok::<
                String,
                String,
            >(next.email) && next.fk.describes(config)
            &&& checked.outcome is Ok ==> (r is Err ==> config.ferriskey_client_secret is None)
            &&& r matches Err(e) ==> (e matches AuthError::ServerStateError(m) && m@
                == "FERRISKEY_CLIENT_SECRET not configured"@)
        },
{
}

/// The account that was found is the one that the session is opened for.
pub proof fn law_found_account_is_logged_in(
    step: LookupUser,
    found: AuthResult<AuthUser>,
    r: AuthResult<CycleId>,
)
    requires
        session_auth::account_resolved(step, found, r),
    ensures
        found matches Err(e) ==> r == Err::<CycleId, AuthError>(e),
        found matches Ok(user) ==> {
            &&& r matches Ok(next)
            &&& next.user == user
            &&& next.data.id@ == user.id@ && next.data.sub@ == user.sub@
            &&& next.data.email@ == user.email@
            &&& next.data.avatar_url is None
            &&& next.data.username@ == username_of(user.display_name, step.info.email@)
            &&& next.data.id_token@ == "ferriskey_login"@
        },
{
}

/// A user who has accepted the current terms is sent to the destination. Any other one is sent
/// there by accepting them, and not before.
pub proof fn law_login_leads_to_its_destination(
    step: PostLoginRedirect,
    before: LoginSession,
    after: LoginSession,
    url: String,
    r: AuthResult<VerifyResponse>,
    later: LoginSession,
    accepted: AuthResult<VerifyResponse>,
)
    requires
        session_auth::destination_decided(
            step,
            before,
            after,
            Ok::<String, AuthError>(url),
            r,
        ),
        session_auth::terms_saved(after, later, Ok::<(), AuthError>(()), accepted),
    ensures
        ({
            let current = step.user.tos_acceptance is Some
                && step.user.tos_acceptance->Some_0.accepted
                && step.user.tos_acceptance->Some_0.latest_version@ == "1.0"@;
            &&& r matches Ok(reply) && reply.success && reply.error is None
            &&& current ==> after == before && r->Ok_0.redirect_url == Some(url)
                && r->Ok_0.needs_tos_acceptance is None
            &&& !current ==> r->Ok_0.redirect_url is None && r->Ok_0.needs_tos_acceptance == Some(
                true,
            ) && after == (LoginSession { tos_pending_redirect: Stored::Value(url), ..before })
            &&& !current ==> (accepted matches Ok(reply) && reply.success
                && reply.redirect_url is Some && reply.redirect_url->Some_0@ == url@
                && reply.needs_tos_acceptance is None)
        }),
        later == (LoginSession { tos_pending_redirect: Stored::Missing, ..after }),
{
}

/// Without a destination, and without a saved acceptance, nothing changes; an acceptance without a
/// login that waited leads to the dashboard.
pub proof fn law_destination_and_terms_can_fail(
    step: PostLoginRedirect,
    before: LoginSession,
    after: LoginSession,
    deciding: AuthError,
    r: AuthResult<VerifyResponse>,
    later: LoginSession,
    saved: AuthResult<()>,
    accepted: AuthResult<VerifyResponse>,
)
    requires
        session_auth::destination_decided(
            step,
            before,
            after,
            Err::<String, AuthError>(deciding),
            r,
        ),
        session_auth::terms_saved(before, later, saved, accepted),
    ensures
        after == before && r == Err::<VerifyResponse, AuthError>(deciding),
        saved is Err ==> later == before && (accepted matches Err(AuthError::ServerStateError(m))
            && m@ == "Failed to save TOS acceptance"@),
        saved is Ok && before.tos_pending_redirect is Missing ==> (accepted matches Ok(reply)
            && reply.success && reply.redirect_url is Some && reply.redirect_url->Some_0@
            == "/dashboard"@),
        saved is Ok && before.tos_pending_redirect is Unreadable ==> (accepted matches Err(
            AuthError::SessionError,
        )),
        saved is Ok ==> later == (LoginSession { tos_pending_redirect: Stored::Missing, ..before }),
{
}

} // verus!
