use dx_auth::config::AuthConfig;
use dx_auth::error::{AuthError, AuthResult};
use dx_auth::handlers::otp::{
    note_mail_at, store_otp_at, CaptchaAnswer, CaptchaEnv, OtpChecked, OtpIssue,
};
use dx_auth::handlers::session_auth::{
    accept_tos_handler, captcha_answered, code_from_pairs, exchange_and_resolve, finalize_login,
    handle_oidc_outcome, load_flow, login_method, login_recorded, needs_tos_acceptance,
    otp_checked, parse_oidc_redirect, resend_otp_at, resend_otp_handler,
    reset_pending_login_state, resolve_id_token, service_token, start_session, store_flow,
    verify_captcha_handler, verify_otp_handler, verify_passkey_handler, verify_password_handler,
    AfterCaptcha, AfterCount, AfterFlow, AfterLookup, AfterOtp, AfterOtpCredentials, CaptchaNext,
    FkConfig, LoginMethod, LookupUser, OidcNext, OtpAccount, OtpCredentials, PostLoginRedirect,
    ResendNext, StartCaptcha, StartCredentials, StartFlow, StartNewUser, StartSessionRequest,
    StartSessionResponse, VerifyCaptchaRequest, VerifyOtpRequest, VerifyPasskeyRequest,
    VerifyPasswordRequest, VerifyResponse, MAX_PASSWORD_ATTEMPTS, TOS_VERSION,
};
use dx_auth::session::{LoginSession, Stored};
use dx_auth::types::{
    AuthTosAcceptance, AuthUser, AuthUserInfo, AuthenticateResponse, AuthenticationStatus,
    CredentialKind, FerrisKeyFlow, FerrisKeyUser, IdTokenClaims, LoggedInData, OidcTokenResponse,
};

fn s(text: &str) -> String {
    text.to_string()
}

fn json(text: &str) -> serde_json::Value {
    serde_json::from_str(text).unwrap()
}

fn config() -> AuthConfig {
    AuthConfig {
        ferriskey_url: s("https://id.example"),
        ferriskey_realm: s("realm"),
        ferriskey_client_id: s("app"),
        ferriskey_client_secret: Some(s("secret")),
        base_url: s("https://app.example"),
        ..AuthConfig::default()
    }
}

fn flow() -> FerrisKeyFlow {
    FerrisKeyFlow {
        state: s("st"),
        nonce: Some(s("n1")),
        code_verifier: Some(s("pkce")),
        provider_session: s("ps"),
    }
}

fn provider_user(enabled: bool, email_verified: bool) -> FerrisKeyUser {
    FerrisKeyUser { id: s("fk-1"), enabled, email_verified, firstname: s("Ada") }
}

fn tokens(id_token: Option<&str>) -> AuthResult<OidcTokenResponse> {
    Ok(OidcTokenResponse { access_token: s("svc"), id_token: id_token.map(|t| t.to_string()) })
}

fn user(tos: Option<AuthTosAcceptance>) -> AuthUser {
    AuthUser {
        id: s("u1"),
        sub: s("sub1"),
        email: s("ada@example.com"),
        display_name: None,
        tos_acceptance: tos,
    }
}

fn info() -> AuthUserInfo {
    AuthUserInfo {
        sub: s("fk-1"),
        nickname: None,
        name: None,
        email: s("ada@example.com"),
        email_verified: true,
        picture: None,
        preferred_username: None,
    }
}

fn no_captcha() -> CaptchaEnv {
    CaptchaEnv { server_url: None, site_key: None, secret_key: None }
}

fn captcha() -> CaptchaEnv {
    CaptchaEnv {
        server_url: Some(s("https://captcha.example/")),
        site_key: Some(s("site")),
        secret_key: Some(s("key")),
    }
}

fn is_bad_request(e: &AuthError, message: &str) -> bool {
    matches!(e, AuthError::BadRequest(m) if m == message)
}

fn is_unauthorized(e: &AuthError, message: &str) -> bool {
    matches!(e, AuthError::Unauthorized(m) if m == message)
}

fn is_server_state(e: &AuthError, message: &str) -> bool {
    matches!(e, AuthError::ServerStateError(m) if m == message)
}

fn refused(reply: &VerifyResponse, message: &str) -> bool {
    !reply.success
        && reply.error.as_deref() == Some(message)
        && reply.redirect_url.is_none()
        && reply.needs_tos_acceptance.is_none()
        && reply.retry_after_seconds.is_none()
}

fn is_login_issue(issue: &OtpIssue<StartSessionResponse>, is_new_user: bool) -> bool {
    issue.email == "ada@example.com"
        && issue.purpose == "login"
        && issue.reply.otp_sent
        && issue.reply.is_new_user == is_new_user
        && !issue.reply.has_passkeys
        && !issue.reply.has_password
        && issue.reply.captcha_required.is_none()
}

fn request(email: &str) -> StartSessionRequest {
    StartSessionRequest { email: s(email), redirect_url: Some(s("/reports")) }
}

#[test]
fn the_provider_settings_need_a_client_secret() {
    let config = config();
    let fk = FkConfig::from(&config).unwrap();
    assert_eq!(fk.base, "https://id.example");
    assert_eq!(fk.realm, "realm");
    assert_eq!(fk.client_id, "app");
    assert_eq!(fk.client_secret, "secret");
    assert_eq!(fk.base_url, "https://app.example");

    let bare = AuthConfig::default();
    let message = "FERRISKEY_CLIENT_SECRET not configured";
    assert!(is_server_state(&FkConfig::from(&bare).unwrap_err(), message));
    assert!(is_server_state(&start_session(&bare, request("a@b.c")).unwrap_err(), message));
    let session = LoginSession::empty();
    let req = VerifyPasskeyRequest { credential_assertion_data: json("{}") };
    assert!(is_server_state(&verify_passkey_handler(&bare, &session, req).unwrap_err(), message));
    let req = VerifyPasswordRequest { password: s("") };
    assert!(is_server_state(&verify_password_handler(&bare, req).unwrap_err(), message));
}

#[test]
fn the_service_token_is_the_access_token() {
    assert_eq!(service_token(tokens(None)).unwrap(), "svc");
    assert!(matches!(service_token(Err(AuthError::SessionError)), Err(AuthError::SessionError)));
}

#[test]
fn an_address_is_trimmed_and_lowercased() {
    let config = config();
    let step = start_session(&config, request(" \t\u{3000}Ada@Example.COM\n")).unwrap();
    assert_eq!(step.email, "ada@example.com");
    assert_eq!(step.redirect_url.as_deref(), Some("/reports"));
    let step = start_session(&config, request("ÄDA@ÉXAMPLE.com")).unwrap();
    assert_eq!(step.email, "äda@éxample.com");
}

#[test]
fn a_restart_inherits_no_credentials_and_keeps_the_counters() {
    let config = config();
    let mut session = LoginSession::empty();
    store_otp_at(&mut session, &s("123456"), &s("old@example.com"), &s("login"), 100);
    note_mail_at(&mut session, 100);
    session.deferred_new_user = Stored::Value(true);
    session.password_attempts = Stored::Value(3);
    session.login_redirect_url = Stored::Value(s("/old"));

    let step = start_session(&config, request("ada@example.com")).unwrap();
    let mut untouched = session.clone();
    assert!(is_bad_request(
        &step.resume(&mut untouched, false, true).unwrap_err(),
        "Invalid email address"
    ));
    assert!(matches!(untouched.otp_code, Stored::Value(_)));

    let step = start_session(&config, request("ada@example.com")).unwrap();
    let next = step.resume(&mut session, true, false).unwrap();
    assert_eq!(next.email, "ada@example.com");
    assert!(matches!(session.otp_code, Stored::Missing));
    assert!(matches!(session.otp_email, Stored::Missing));
    assert!(matches!(session.deferred_new_user, Stored::Missing));
    assert!(matches!(session.password_attempts, Stored::Value(3)));
    assert!(matches!(session.otp_resend_count, Stored::Value(1)));
    assert!(matches!(session.otp_last_sent_at, Stored::Value(100)));
    assert!(matches!(&session.login_email, Stored::Value(e) if e == "ada@example.com"));
    assert!(matches!(&session.login_redirect_url, Stored::Value(u) if u == "/old"));

    let step = start_session(&config, request("ada@example.com")).unwrap();
    step.resume(&mut session, true, true).unwrap();
    assert!(matches!(&session.login_redirect_url, Stored::Value(u) if u == "/reports"));

    session.otp_code = Stored::Unreadable;
    reset_pending_login_state(&mut session);
    assert!(matches!(session.otp_code, Stored::Missing));
}

fn looked_up<'a>(
    config: &'a AuthConfig,
    session: &mut LoginSession,
    found: AuthResult<Option<FerrisKeyUser>>,
) -> AuthResult<AfterLookup<'a>> {
    let step = start_session(config, request("ada@example.com")).unwrap();
    let step = step.resume(session, true, true).unwrap();
    let step = step.resume(tokens(None)).unwrap();
    assert_eq!(step.token, "svc");
    step.resume(config, session, found)
}

#[test]
fn a_disabled_account_is_turned_away() {
    let config = config();
    let mut session = LoginSession::empty();
    let r = looked_up(&config, &mut session, Ok(Some(provider_user(false, true))));
    assert!(is_unauthorized(&r.unwrap_err(), "This account is disabled"));
    let r = looked_up(&config, &mut session, Err(AuthError::ServerStateError(s("down"))));
    assert!(is_server_state(&r.unwrap_err(), "down"));
}

#[test]
fn an_unknown_address_registers_under_the_allowlist() {
    // With an allowlist the store is not asked.
    let mut config = config();
    config.allowed_registration_emails = vec![s("ops@example.com")];
    let mut session = LoginSession::empty();
    let r = looked_up(&config, &mut session, Ok(None));
    assert!(is_unauthorized(&r.unwrap_err(), "Registration is not open for this address"));
    assert!(matches!(session.deferred_new_user, Stored::Missing));

    config.allowed_registration_domains = vec![s("example.com")];
    let r = looked_up(&config, &mut session, Ok(None));
    assert!(matches!(r, Ok(AfterLookup::ReadCaptcha(step)) if step.email == "ada@example.com"));
    assert!(matches!(session.deferred_new_user, Stored::Value(true)));
}

#[test]
fn without_an_allowlist_the_first_address_registers() {
    let config = config();
    for any in [false, true] {
        let mut session = LoginSession::empty();
        let ask = match looked_up(&config, &mut session, Ok(None)).unwrap() {
            AfterLookup::AskForUsers(ask) => ask,
            _ => panic!("the store decides"),
        };
        let r = ask.resume(&config, &mut session, Ok(any));
        if any {
            let e = r.unwrap_err();
            assert!(is_unauthorized(&e, "Registration is not open for this address"));
            assert!(matches!(session.deferred_new_user, Stored::Missing));
        } else {
            assert_eq!(r.unwrap().email, "ada@example.com");
            assert!(matches!(session.deferred_new_user, Stored::Value(true)));
        }
    }
}

#[test]
fn a_captcha_withholds_the_code_of_a_new_user() {
    let step = StartCaptcha { email: s("ada@example.com") };
    match step.resume(captcha()) {
        StartNewUser::Reply(reply) => {
            assert_eq!(reply.captcha_required, Some(true));
            assert_eq!(reply.captcha_server_url.as_deref(), Some("https://captcha.example/"));
            assert_eq!(reply.captcha_site_key.as_deref(), Some("site"));
            assert!(!reply.otp_sent && reply.is_new_user && reply.session_id.is_empty());
        }
        StartNewUser::MintOtp(_) => panic!("the code is withheld"),
    }
    let step = StartCaptcha { email: s("ada@example.com") };
    assert!(matches!(step.resume(no_captcha()),
        StartNewUser::MintOtp(issue) if is_login_issue(&issue, true)));
}

#[test]
fn the_credentials_decide_how_an_account_logs_in() {
    assert_eq!(login_method(&vec![]), LoginMethod::EmailCode);
    assert_eq!(
        login_method(&vec![CredentialKind::Password, CredentialKind::Passkey]),
        LoginMethod::Passkey
    );
    assert_eq!(
        login_method(&vec![CredentialKind::Other, CredentialKind::Password]),
        LoginMethod::Password
    );
    assert_eq!(login_method(&vec![CredentialKind::Other]), LoginMethod::Unsupported);

    let config = config();
    let fk = FkConfig::from(&config).unwrap();
    let mut session = LoginSession::empty();
    let listing = || StartCredentials {
        fk,
        token: s("svc"),
        user_id: s("fk-1"),
        email: s("ada@example.com"),
    };
    let r = listing().resume(&mut session, Err(AuthError::SessionError));
    assert!(is_server_state(&r.unwrap_err(), "Unable to inspect user credentials"));
    assert!(matches!(session.ferriskey_user_id, Stored::Missing));
    let step = listing().resume(&mut session, Ok(vec![CredentialKind::Password])).unwrap();
    assert_eq!(step.method, LoginMethod::Password);
    assert!(matches!(&session.ferriskey_user_id, Stored::Value(id) if id == "fk-1"));
}

#[test]
fn each_login_method_has_its_answer() {
    let config = config();
    let fk = FkConfig::from(&config).unwrap();
    let open = |method, session: &mut LoginSession| {
        StartFlow { fk, email: s("ada@example.com"), method }.resume(session, Ok(flow()))
    };

    let mut session = LoginSession::empty();
    match open(LoginMethod::Passkey, &mut session).unwrap() {
        AfterFlow::PasskeyOptions(step) => {
            assert_eq!(step.flow.state, "st");
            let reply = step.resume(Ok(json("{\"challenge\": \"c\"}"))).unwrap();
            assert!(reply.has_passkeys && !reply.has_password && !reply.otp_sent);
            assert_eq!(reply.public_key_options, Some(json("{\"challenge\": \"c\"}")));
        }
        _ => panic!("passkey options"),
    }
    assert!(matches!(session.flow, Stored::Value(_)));
    match open(LoginMethod::Passkey, &mut session).unwrap() {
        AfterFlow::PasskeyOptions(step) => assert!(is_server_state(
            &step.resume(Err(AuthError::SessionError)).unwrap_err(),
            "Unable to start passkey authentication"
        )),
        _ => panic!("passkey options"),
    }

    match open(LoginMethod::Password, &mut session).unwrap() {
        AfterFlow::Reply(reply) => assert!(
            reply.has_password && !reply.has_passkeys && !reply.otp_sent && !reply.is_new_user
        ),
        _ => panic!("a password is asked for"),
    }

    assert!(matches!(open(LoginMethod::EmailCode, &mut session),
        Ok(AfterFlow::MintOtp(issue)) if is_login_issue(&issue, false)));
    assert!(matches!(session.flow, Stored::Missing));

    assert!(is_unauthorized(
        &open(LoginMethod::Unsupported, &mut session).unwrap_err(),
        "This account has no supported login method"
    ));
    let failed = StartFlow { fk, email: s("a"), method: LoginMethod::Password }
        .resume(&mut session, Err(AuthError::ServerStateError(s("down"))));
    assert!(is_server_state(&failed.unwrap_err(), "down"));
}

#[test]
fn a_redirect_yields_its_code_to_its_flow_only() {
    let url = "https://app.example/cb?code=c%201&state=st";
    assert_eq!(parse_oidc_redirect(url, "st").unwrap(), "c 1");
    assert!(is_unauthorized(
        &parse_oidc_redirect(url, "other").unwrap_err(),
        "Login flow state mismatch — please retry"
    ));
    // The last pair of a key counts.
    let url = "https://app.example/cb?code=old&state=x&code=a+b&state=st&z=1#state=y";
    assert_eq!(parse_oidc_redirect(url, "st").unwrap(), "a b");
    assert!(is_server_state(
        &parse_oidc_redirect("https://app.example/cb?code=c", "st").unwrap_err(),
        "Missing state in redirect URL"
    ));
    assert!(is_server_state(
        &parse_oidc_redirect("https://app.example/cb?state=st", "st").unwrap_err(),
        "Missing code in redirect URL"
    ));
    assert!(is_server_state(
        &parse_oidc_redirect("/cb?code=c&state=st", "st").unwrap_err(),
        "FerrisKey returned invalid redirect URL: relative URL without a base"
    ));
    let pairs = vec![(s("state"), s("st")), (s("code"), s("c")), (s("codes"), s("d"))];
    assert_eq!(code_from_pairs(&pairs, "st").unwrap(), "c");
}

#[test]
fn a_code_is_redeemed_with_the_secret_of_its_flow() {
    let config = config();
    let fk = FkConfig::from(&config).unwrap();
    let url = "https://app.example/cb?code=c&state=st";
    let step = exchange_and_resolve(fk, flow(), url).unwrap();
    assert_eq!(step.code, "c");
    assert_eq!(step.code_verifier, "pkce");
    let step = step.resume(tokens(Some("idt"))).unwrap();
    assert_eq!(step.id_token, "idt");
    let step = exchange_and_resolve(fk, flow(), url).unwrap();
    let e = step.resume(tokens(None)).unwrap_err();
    assert!(is_server_state(&e, "FerrisKey returned no id_token"));

    let without = FerrisKeyFlow { code_verifier: None, ..flow() };
    assert!(is_server_state(
        &exchange_and_resolve(fk, without, url).unwrap_err(),
        "Login flow missing PKCE verifier — please retry"
    ));
}

fn claims(email: Option<&str>, nonce: Option<&str>) -> Result<IdTokenClaims, String> {
    Ok(IdTokenClaims {
        sub: s("fk-1"),
        email: email.map(|e| e.to_string()),
        email_verified: None,
        nonce: nonce.map(|n| n.to_string()),
    })
}

#[test]
fn an_id_token_is_bound_to_its_flow_by_the_nonce() {
    let info = resolve_id_token(&flow(), claims(Some("a@b.c"), Some("n1"))).unwrap();
    assert_eq!(info.sub, "fk-1");
    assert_eq!(info.email, "a@b.c");
    assert!(!info.email_verified);
    for nonce in [None, Some("n2"), Some("n"), Some("n11")] {
        assert!(is_unauthorized(
            &resolve_id_token(&flow(), claims(Some("a@b.c"), nonce)).unwrap_err(),
            "Login flow nonce mismatch — please retry"
        ));
    }
    let without = FerrisKeyFlow { nonce: None, ..flow() };
    assert!(resolve_id_token(&without, claims(Some("a@b.c"), Some("n2"))).is_ok());
    for email in [None, Some("")] {
        assert!(is_server_state(
            &resolve_id_token(&flow(), claims(email, Some("n1"))).unwrap_err(),
            "FerrisKey id_token has no email claim"
        ));
    }
    assert!(is_server_state(
        &resolve_id_token(&flow(), Err(s("bad signature"))).unwrap_err(),
        "Failed to validate FerrisKey id_token: bad signature"
    ));
    let mut verified = claims(Some("a@b.c"), Some("n1")).unwrap();
    verified.email_verified = Some(true);
    assert!(resolve_id_token(&flow(), Ok(verified)).unwrap().email_verified);
}

fn answer(status: AuthenticationStatus, url: Option<&str>) -> AuthenticateResponse {
    AuthenticateResponse { status, url: url.map(|u| u.to_string()), message: None }
}

#[test]
fn each_status_of_the_provider_has_its_answer() {
    let config = config();
    let url = "https://app.example/cb?code=c&state=st";
    let r = handle_oidc_outcome(&config, flow(), answer(AuthenticationStatus::Success, Some(url)));
    assert!(matches!(r, Ok(OidcNext::ExchangeCode(step)) if step.code == "c"));
    let r = handle_oidc_outcome(&config, flow(), answer(AuthenticationStatus::Success, None));
    let message = "FerrisKey returned Success without a redirect URL";
    assert!(is_server_state(&r.unwrap_err(), message));

    for (status, message) in [
        (
            AuthenticationStatus::RequiresOtpChallenge,
            "Your account requires TOTP, which isn't supported by this login screen yet.",
        ),
        (
            AuthenticationStatus::RequiresActions,
            "Your account requires additional setup, which isn't supported by this login screen \
             yet.",
        ),
        (AuthenticationStatus::Failed, "Authentication failed"),
    ] {
        let r = handle_oidc_outcome(&config, flow(), answer(status, Some(url)));
        assert!(matches!(r, Ok(OidcNext::Reply(reply)) if refused(&reply, message)));
    }
    let mut resp = answer(AuthenticationStatus::Failed, None);
    resp.message = Some(s("Wrong password"));
    let r = handle_oidc_outcome(&config, flow(), resp);
    assert!(matches!(r, Ok(OidcNext::Reply(reply)) if refused(&reply, "Wrong password")));
}

#[test]
fn a_passkey_assertion_needs_a_flow() {
    let config = config();
    let mut session = LoginSession::empty();
    let req = || VerifyPasskeyRequest { credential_assertion_data: json("{\"id\": 1}") };
    assert!(is_bad_request(
        &verify_passkey_handler(&config, &session, req()).unwrap_err(),
        "No login flow in progress"
    ));
    store_flow(&mut session, &flow());
    assert_eq!(load_flow(&session).unwrap().provider_session, "ps");
    let step = verify_passkey_handler(&config, &session, req()).unwrap();
    assert_eq!(step.assertion, json("{\"id\": 1}"));
    let r = step.resume(&config, Err(AuthError::SessionError));
    assert!(matches!(r, Ok(OidcNext::Reply(reply))
        if refused(&reply, "Passkey verification failed. Please try again.")));
    session.flow = Stored::Unreadable;
    assert!(matches!(load_flow(&session), Err(AuthError::SessionError)));
}

fn try_password(config: &AuthConfig, session: &mut LoginSession) -> Option<AuthenticationStatus> {
    let req = VerifyPasswordRequest { password: s("  pw ") };
    let step = verify_password_handler(config, req).unwrap();
    assert_eq!(step.password, "pw");
    match step.resume(session).unwrap() {
        AfterCount::Reply(reply) => {
            let message = "Too many failed password attempts. Please start a new login.";
            assert!(refused(&reply, message));
            None
        }
        AfterCount::Persist(step) => {
            let step = step.resume(session, Ok(())).unwrap();
            assert_eq!(step.email, "ada@example.com");
            assert_eq!(step.password, "pw");
            let status = AuthenticationStatus::Failed;
            let r = step.resume(config, session, Ok(answer(status, None)));
            assert!(matches!(r, Ok(OidcNext::Reply(_))));
            Some(status)
        }
    }
}

#[test]
fn failed_passwords_are_capped() {
    let config = config();
    let mut session = LoginSession::empty();
    store_flow(&mut session, &flow());
    session.login_email = Stored::Value(s("ada@example.com"));
    let mut tried = 0;
    for _ in 0..20 {
        if try_password(&config, &mut session).is_some() {
            tried += 1;
        }
    }
    assert_eq!(tried, MAX_PASSWORD_ATTEMPTS);
    // A restart does not help.
    reset_pending_login_state(&mut session);
    assert!(try_password(&config, &mut session).is_none());
}

#[test]
fn an_answer_other_than_a_failure_hands_the_attempt_back() {
    let config = config();
    let mut session = LoginSession::empty();
    store_flow(&mut session, &flow());
    session.login_email = Stored::Value(s("ada@example.com"));
    session.password_attempts = Stored::Value(2);
    let step = verify_password_handler(&config, VerifyPasswordRequest { password: s("pw") });
    let step = match step.unwrap().resume(&mut session).unwrap() {
        AfterCount::Persist(step) => step,
        AfterCount::Reply(_) => panic!("an attempt is left"),
    };
    assert!(matches!(session.password_attempts, Stored::Value(3)));
    let step = step.resume(&session, Ok(())).unwrap();
    let resp = answer(AuthenticationStatus::RequiresActions, None);
    assert!(step.resume(&config, &mut session, Ok(resp)).is_ok());
    assert!(matches!(session.password_attempts, Stored::Missing));
}

#[test]
fn a_password_attempt_needs_a_password_and_a_flow() {
    let config = config();
    assert!(is_bad_request(
        &verify_password_handler(&config, VerifyPasswordRequest { password: s(" \n") })
            .unwrap_err(),
        "Password is required"
    ));
    let mut session = LoginSession::empty();
    let counted = |session: &mut LoginSession| {
        let step = verify_password_handler(&config, VerifyPasswordRequest { password: s("pw") });
        match step.unwrap().resume(session).unwrap() {
            AfterCount::Persist(step) => step,
            AfterCount::Reply(_) => panic!("an attempt is left"),
        }
    };
    let e = counted(&mut session).resume(&session, Ok(())).unwrap_err();
    assert!(is_bad_request(&e, "No login flow in progress"));
    store_flow(&mut session, &flow());
    let e = counted(&mut session).resume(&session, Ok(())).unwrap_err();
    assert!(is_bad_request(&e, "No login session in progress"));
    let e = counted(&mut session).resume(&session, Err(AuthError::SessionError)).unwrap_err();
    assert!(matches!(e, AuthError::SessionError));
    session.login_email = Stored::Value(s("ada@example.com"));
    let step = counted(&mut session).resume(&session, Ok(())).unwrap();
    let r = step.resume(&config, &mut session, Err(AuthError::SessionError));
    assert!(matches!(r, Ok(OidcNext::Reply(reply))
        if refused(&reply, "Invalid password. Please try again.")));
    session.password_attempts = Stored::Unreadable;
    let step = verify_password_handler(&config, VerifyPasswordRequest { password: s("pw") });
    assert!(matches!(step.unwrap().resume(&mut session), Err(AuthError::SessionError)));
}

#[test]
fn a_submitted_code_is_checked_and_then_saved() {
    let config = config();
    let e = verify_otp_handler(VerifyOtpRequest { code: s("  ") }).unwrap_err();
    assert!(is_bad_request(&e, "Verification code is required"));
    let mut session = LoginSession::empty();
    let now = chrono::Utc::now().timestamp();
    store_otp_at(&mut session, &s("123456"), &s("ada@example.com"), &s("login"), now);
    let step = verify_otp_handler(VerifyOtpRequest { code: s(" 123456 ") }).unwrap();
    let checked = step.resume(&mut session);
    match otp_checked(&config, checked, Ok(())).unwrap() {
        AfterOtp::ServiceToken(step) => assert_eq!(step.email, "ada@example.com"),
        AfterOtp::Reply(_) => panic!("the code is right"),
    }
    let step = verify_otp_handler(VerifyOtpRequest { code: s("123456") }).unwrap();
    let checked = step.resume(&mut session);
    assert!(matches!(otp_checked(&config, checked, Ok(())),
        Ok(AfterOtp::Reply(reply)) if refused(&reply, "No verification code in progress")));
    let checked = OtpChecked { outcome: Ok(s("ada@example.com")) };
    assert!(matches!(
        otp_checked(&config, checked, Err(AuthError::SessionError)),
        Err(AuthError::SessionError)
    ));
}

fn account_source<'a>(
    config: &'a AuthConfig,
    session: &LoginSession,
) -> AuthResult<OtpAccount<'a>> {
    let checked = OtpChecked { outcome: Ok(s("ada@example.com")) };
    match otp_checked(config, checked, Ok(())).unwrap() {
        AfterOtp::ServiceToken(step) => step.resume(config, session, tokens(None)),
        AfterOtp::Reply(_) => panic!("the code is right"),
    }
}

#[test]
fn the_allowlist_is_asked_again_before_an_account_is_created() {
    let mut session = LoginSession::empty();
    let mut config = config();
    assert!(matches!(account_source(&config, &session), Ok(OtpAccount::FindUser(_))));
    session.deferred_new_user = Stored::Value(true);
    match account_source(&config, &session).unwrap() {
        OtpAccount::AskForUsers(ask) => {
            assert!(is_unauthorized(
                &ask.resume(&config, Ok(true)).unwrap_err(),
                "Registration is not open for this address"
            ));
        }
        _ => panic!("the store decides"),
    }
    config.allowed_registration_emails = vec![s("ops@example.com")];
    assert!(is_unauthorized(
        &account_source(&config, &session).unwrap_err(),
        "Registration is not open for this address"
    ));
    config.allowed_registration_emails.push(s("ada@example.com"));
    assert!(matches!(account_source(&config, &session), Ok(OtpAccount::CreateUser(_))));
    session.deferred_new_user = Stored::Unreadable;
    assert!(matches!(account_source(&config, &session), Err(AuthError::SessionError)));
}

fn credentials_step(config: &AuthConfig, user: FerrisKeyUser, deferred: bool) -> OtpCredentials<'_> {
    OtpCredentials {
        fk: FkConfig::from(config).unwrap(),
        token: s("svc"),
        user,
        email: s("ada@example.com"),
        deferred,
    }
}

#[test]
fn a_code_logs_in_accounts_without_credentials_only() {
    let config = config();
    let mut session = LoginSession::empty();
    session.deferred_new_user = Stored::Value(true);
    for deferred in [false, true] {
        let step = credentials_step(&config, provider_user(true, true), deferred);
        let r = step.resume(&mut session, Ok(vec![CredentialKind::Other]));
        let message = "Email code login is not available for this account";
        assert!(is_unauthorized(&r.unwrap_err(), message));
    }
    assert!(matches!(session.deferred_new_user, Stored::Value(true)));
    let step = credentials_step(&config, provider_user(true, true), true);
    let r = step.resume(&mut session, Err(AuthError::SessionError));
    assert!(is_server_state(&r.unwrap_err(), "Unable to inspect user credentials"));

    let step = credentials_step(&config, provider_user(true, false), true);
    match step.resume(&mut session, Ok(vec![])).unwrap() {
        AfterOtpCredentials::LookupUser(step) => {
            assert_eq!(step.info.sub, "fk-1");
            assert_eq!(step.info.name.as_deref(), Some("Ada"));
            assert_eq!(step.info.email, "ada@example.com");
            assert_eq!(step.info.preferred_username.as_deref(), Some("ada@example.com"));
            assert!(step.info.email_verified);
        }
        _ => panic!("a created user is logged in"),
    }
    assert!(matches!(session.deferred_new_user, Stored::Missing));
}

#[test]
fn a_proven_address_is_marked_as_verified() {
    let config = config();
    let mut session = LoginSession::empty();
    let step = credentials_step(&config, provider_user(true, false), false);
    match step.resume(&mut session, Ok(vec![])).unwrap() {
        AfterOtpCredentials::SetEmailVerified(step) => {
            assert_eq!(step.user.id, "fk-1");
            assert!(step.resume(Ok(())).unwrap().info.email_verified);
        }
        _ => panic!("the provider is told first"),
    }
    let step = credentials_step(&config, provider_user(false, true), false);
    let r = step.resume(&mut session, Ok(vec![]));
    assert!(is_unauthorized(&r.unwrap_err(), "This account is disabled"));

    match account_source(&config, &session).unwrap() {
        OtpAccount::FindUser(step) => assert!(is_server_state(
            &step.resume(Ok(None)).unwrap_err(),
            "OTP-verified user 'ada@example.com' not found in FerrisKey"
        )),
        _ => panic!("nothing is pending"),
    }
}

#[test]
fn a_login_opens_a_session_and_leaves_nothing_behind() {
    let mut session = LoginSession::empty();
    store_flow(&mut session, &flow());
    store_otp_at(&mut session, &s("1"), &s("ada@example.com"), &s("login"), 5);
    note_mail_at(&mut session, 5);
    session.login_email = Stored::Value(s("ada@example.com"));
    session.password_attempts = Stored::Value(2);
    session.login_redirect_url = Stored::Value(s("/reports"));

    let step: LookupUser = finalize_login(info());
    let step = step.resume(Ok(user(None))).unwrap();
    assert_eq!(step.data.username, "ada");
    assert_eq!(step.data.id_token, "ferriskey_login");
    assert_eq!(step.data.sub, "sub1");
    assert!(step.data.avatar_url.is_none());
    let step = step.resume(Ok(())).unwrap();
    let step = step.resume(Ok(())).unwrap();
    let step = login_recorded(step, &mut session, Err(AuthError::SessionError)).unwrap();
    assert_eq!(step.user.id, "u1");
    assert!(matches!(session.flow, Stored::Missing));
    assert!(matches!(session.login_email, Stored::Missing));
    assert!(matches!(session.otp_code, Stored::Missing));
    assert!(matches!(session.otp_resend_count, Stored::Missing));
    assert!(matches!(session.otp_last_sent_at, Stored::Missing));
    assert!(matches!(session.password_attempts, Stored::Missing));
    assert!(matches!(&session.login_redirect_url, Stored::Value(u) if u == "/reports"));
}

#[test]
fn a_display_name_goes_before_the_address() {
    let mut named = user(None);
    named.display_name = Some(s("Ada L."));
    assert_eq!(finalize_login(info()).resume(Ok(named)).unwrap().data.username, "Ada L.");
    let mut unnamed = user(None);
    unnamed.display_name = Some(s(""));
    assert_eq!(finalize_login(info()).resume(Ok(unnamed)).unwrap().data.username, "ada");
    let mut plain = info();
    plain.email = s("root");
    assert_eq!(finalize_login(plain).resume(Ok(user(None))).unwrap().data.username, "root");
}

fn accepted(version: &str, accepted: bool) -> Option<AuthTosAcceptance> {
    Some(AuthTosAcceptance { latest_version: s(version), accepted })
}

#[test]
fn the_terms_are_asked_for_until_the_current_ones_are_accepted() {
    assert!(needs_tos_acceptance(&user(None)));
    assert!(needs_tos_acceptance(&user(accepted("0.9", true))));
    assert!(needs_tos_acceptance(&user(accepted("1.0", false))));
    assert!(!needs_tos_acceptance(&user(accepted("1.0", true))));

    let mut session = LoginSession::empty();
    let step = PostLoginRedirect { user: user(accepted(TOS_VERSION, true)) };
    let reply = step.resume(&mut session, Ok(s("/home"))).unwrap();
    assert_eq!(reply.redirect_url.as_deref(), Some("/home"));
    assert!(reply.success && reply.needs_tos_acceptance.is_none());
    assert!(matches!(session.tos_pending_redirect, Stored::Missing));

    let step = PostLoginRedirect { user: user(None) };
    let reply = step.resume(&mut session, Ok(s("/home"))).unwrap();
    assert!(reply.success && reply.redirect_url.is_none());
    assert_eq!(reply.needs_tos_acceptance, Some(true));
    assert!(matches!(&session.tos_pending_redirect, Stored::Value(u) if u == "/home"));
}

fn logged_in() -> LoggedInData {
    LoggedInData {
        id: s("u1"),
        sub: s("sub1"),
        email: s("ada@example.com"),
        username: s("ada"),
        avatar_url: None,
        id_token: s("ferriskey_login"),
    }
}

#[test]
fn accepting_the_terms_leads_to_where_the_login_was_going() {
    assert!(matches!(accept_tos_handler(None), Err(AuthError::UserNotLoggedIn)));
    let mut session = LoginSession::empty();
    session.tos_pending_redirect = Stored::Value(s("/home"));
    let step = accept_tos_handler(Some(logged_in())).unwrap();
    assert_eq!(step.user_id, "u1");
    assert_eq!(step.acceptance.latest_version, "1.0");
    assert!(step.acceptance.accepted);
    let e = step.resume(&mut session, Err(AuthError::SessionError)).unwrap_err();
    assert!(is_server_state(&e, "Failed to save TOS acceptance"));
    let step = accept_tos_handler(Some(logged_in())).unwrap();
    let reply = step.resume(&mut session, Ok(())).unwrap();
    assert_eq!(reply.redirect_url.as_deref(), Some("/home"));
    assert!(reply.success && reply.needs_tos_acceptance.is_none());
    let step = accept_tos_handler(Some(logged_in())).unwrap();
    let reply = step.resume(&mut session, Ok(())).unwrap();
    assert_eq!(reply.redirect_url.as_deref(), Some("/dashboard"));
    session.tos_pending_redirect = Stored::Unreadable;
    let step = accept_tos_handler(Some(logged_in())).unwrap();
    assert!(matches!(step.resume(&mut session, Ok(())), Err(AuthError::SessionError)));
}

#[test]
fn a_code_is_resent_to_the_address_of_the_login() {
    let mut session = LoginSession::empty();
    assert!(is_bad_request(
        &resend_otp_at(&session, 100).unwrap_err(),
        "No login session in progress"
    ));
    // The code of a pending registration is withheld, and asking again does not send it.
    session.login_email = Stored::Value(s("ada@example.com"));
    session.deferred_new_user = Stored::Value(true);
    assert!(is_bad_request(
        &resend_otp_at(&session, 100).unwrap_err(),
        "No verification code in progress"
    ));
    store_otp_at(&mut session, &s("1"), &s("ada@example.com"), &s("signup"), 100);
    note_mail_at(&mut session, 100);
    match resend_otp_at(&session, 117).unwrap() {
        ResendNext::Reply(reply) => {
            assert!(!reply.success);
            assert_eq!(reply.retry_after_seconds, Some(13));
            assert_eq!(
                reply.error.as_deref(),
                Some("Please wait 13 seconds before requesting a new code.")
            );
        }
        ResendNext::MintOtp(_) => panic!("the cooldown is not over"),
    }
    match resend_otp_at(&session, 130).unwrap() {
        ResendNext::MintOtp(issue) => {
            assert_eq!(issue.email, "ada@example.com");
            assert_eq!(issue.purpose, "signup");
            assert!(issue.reply.success);
            assert_eq!(issue.reply.retry_after_seconds, Some(30));
        }
        ResendNext::Reply(_) => panic!("the cooldown is over"),
    }
    assert!(matches!(resend_otp_handler(&session), Ok(ResendNext::MintOtp(_))));
    session.otp_resend_count = Stored::Value(5);
    assert!(matches!(resend_otp_at(&session, 9_000), Ok(ResendNext::Reply(reply))
        if refused(&reply, "Maximum resend attempts reached. Please start a new login.")));
    session.otp_resend_count = Stored::Missing;
    session.otp_purpose = Stored::Missing;
    assert!(matches!(resend_otp_at(&session, 9_000),
        Ok(ResendNext::MintOtp(issue)) if issue.purpose == "login"));
}

#[test]
fn a_long_wait_is_told_in_seconds() {
    let mut session = LoginSession::empty();
    session.login_email = Stored::Value(s("ada@example.com"));
    store_otp_at(&mut session, &s("1"), &s("ada@example.com"), &s("login"), 100);
    session.otp_last_sent_at = Stored::Value(1_000_000_100);
    match resend_otp_at(&session, 30).unwrap() {
        ResendNext::Reply(reply) => assert_eq!(
            reply.error.as_deref(),
            Some("Please wait 1000000100 seconds before requesting a new code.")
        ),
        ResendNext::MintOtp(_) => panic!("the cooldown is not over"),
    }
}

#[test]
fn a_registration_waits_for_its_captcha() {
    let token = |t: Option<&str>| VerifyCaptchaRequest { captcha_token: t.map(|t| t.to_string()) };
    let mut session = LoginSession::empty();
    assert!(is_bad_request(
        &verify_captcha_handler(&session, token(Some("t"))).unwrap_err(),
        "No pending registration session"
    ));
    session.deferred_new_user = Stored::Value(true);
    let step = verify_captcha_handler(&session, token(Some("t"))).unwrap();
    assert!(is_bad_request(
        &step.resume(no_captcha()).unwrap_err(),
        "No captcha is configured for this deployment"
    ));
    for missing in [None, Some("")] {
        let step = verify_captcha_handler(&session, token(missing)).unwrap();
        match step.resume(captcha()).unwrap() {
            CaptchaNext::Reply(reply) => {
                assert!(!reply.success && !reply.otp_sent);
                assert_eq!(
                    reply.error.as_deref(),
                    Some("Verification token missing. Please try again.")
                );
            }
            CaptchaNext::Verify(_) => panic!("there is no token"),
        }
    }
    let step = verify_captcha_handler(&session, token(Some("t"))).unwrap();
    match step.resume(captcha()).unwrap() {
        CaptchaNext::Verify(request) => {
            assert_eq!(request.url, "https://captcha.example/v1/verify");
            assert_eq!(request.bearer, "key");
            assert_eq!(request.token, "t");
        }
        CaptchaNext::Reply(_) => panic!("the token is verified"),
    }
}

#[test]
fn the_captcha_fails_closed() {
    let mut session = LoginSession::empty();
    session.login_email = Stored::Value(s("ada@example.com"));
    let said = |success: &str| {
        Some(CaptchaAnswer { status_is_success: true, body: Some(json(success)) })
    };
    assert!(is_server_state(
        &captcha_answered(&session, None).unwrap_err(),
        "captcha verify request failed"
    ));
    assert!(matches!(captcha_answered(&session, said("{\"success\": false}")),
        Ok(AfterCaptcha::Reply(reply))
            if reply.error.as_deref() == Some("Verification failed. Please try again.")));
    match captcha_answered(&session, said("{\"success\": true}")).unwrap() {
        AfterCaptcha::MintOtp(issue) => {
            assert_eq!(issue.email, "ada@example.com");
            assert_eq!(issue.purpose, "login");
            assert!(issue.reply.success && issue.reply.otp_sent && issue.reply.error.is_none());
        }
        AfterCaptcha::Reply(_) => panic!("the captcha was passed"),
    }
    session.login_email = Stored::Missing;
    assert!(is_server_state(
        &captcha_answered(&session, said("{\"success\": true}")).unwrap_err(),
        "Missing login email"
    ));
}
