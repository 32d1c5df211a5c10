use dx_auth::config::AuthConfig;
use dx_auth::error::{AuthError, AuthResult};
use dx_auth::handlers::local_login::{
    captcha_answered, captcha_answered_at, finalize_login, login_recorded, otp_checked, passkey_conditional_options,
    passkey_fallback_at, passkey_fallback_to_otp, relying_party, resend_otp_at,
    resend_throttle_error, resend_throttle_error_at, reset_pending_login_state,
    resolve_or_create_account, start_session, user_handle, verify_captcha_handler,
    verify_otp_handler, verify_passkey_handler, AccountNext, AfterAssertion, AfterCaptcha,
    AfterFind, AfterLookup, AfterOtp, AfterPasskeys, BoundLogin, DeriveRelyingParty, FinalizeResult,
    GetOwner, OfferPasskey, ResendNext, StartCaptcha, StartNewUser, StartPasskeys,
    StartSessionRequest, StartSessionResponse, TouchPasskey, VerifyCaptchaRequest,
    VerifyOtpRequest, VerifyPasskeyRequest, VerifyResponse, PASSKEY_FAILED, SUBJECT_TOKEN_BYTES,
};
use dx_auth::handlers::otp::{note_mail_at, store_otp_at, CaptchaAnswer, CaptchaEnv, OtpChecked};
use dx_auth::session::{LoginSession, Stored};
use dx_auth::types::{AssertionOutcome, AuthUser, NewAuthUser, StoredPasskey};

fn s(text: &str) -> String {
    text.to_string()
}

fn json(text: &str) -> serde_json::Value {
    serde_json::from_str(text).unwrap()
}

fn is_bad_request(e: &AuthError, message: &str) -> bool {
    matches!(e, AuthError::BadRequest(m) if m == message)
}

fn is_server_state(e: &AuthError, message: &str) -> bool {
    matches!(e, AuthError::ServerStateError(m) if m == message)
}

fn refused(reply: &VerifyResponse, message: &str) -> bool {
    !reply.success
        && reply.error.as_deref() == Some(message)
        && reply.redirect_url.is_none()
        && reply.offer_passkey.is_none()
}

/// A store holding at most one user, that records the rows it is asked to create.
struct OneUserStore {
    user: Option<AuthUser>,
    created: Vec<NewAuthUser>,
}

impl OneUserStore {
    fn get_user_by_email(&self, email: &str) -> AuthResult<Option<AuthUser>> {
        Ok(self.user.clone().filter(|u| u.email == email))
    }

    fn create_user(&mut self, user: NewAuthUser) -> AuthResult<AuthUser> {
        self.created.push(user.clone());
        Ok(AuthUser {
            id: s("new"),
            sub: user.sub,
            email: user.email,
            display_name: None,
            tos_acceptance: None,
        })
    }

    fn has_any_users(&self) -> AuthResult<bool> {
        Ok(self.user.is_some())
    }
}

fn resolve(store: &mut OneUserStore, config: &AuthConfig, email: &str) -> AuthResult<AuthUser> {
    let step = resolve_or_create_account(s(email));
    let found = store.get_user_by_email(&step.email);
    let mint = match step.resume(config, found)? {
        AccountNext::Found(user) => return Ok(user),
        AccountNext::AskForUsers(ask) => ask.resume(config, store.has_any_users())?,
        AccountNext::MintSubject(mint) => mint,
    };
    let create = mint.resume(Ok(s("minted-subject")))?;
    let created = store.create_user(NewAuthUser {
        sub: create.new_user.sub.clone(),
        email: create.new_user.email.clone(),
    });
    let organization = create.resume(created)?;
    assert_eq!(organization.email, email);
    Ok(organization.resume(Err(AuthError::SessionError)))
}

fn existing() -> AuthUser {
    AuthUser {
        id: s("existing-id"),
        sub: s("existing-sub"),
        email: s("me@example.com"),
        display_name: None,
        tos_acceptance: None,
    }
}

#[test]
fn an_existing_account_keeps_its_sub() {
    let mut store = OneUserStore { user: Some(existing()), created: vec![] };

    let user = resolve(&mut store, &AuthConfig::default(), "me@example.com").unwrap();

    assert_eq!(user.id, "existing-id");
    assert_eq!(user.sub, "existing-sub");
    assert!(store.created.is_empty());
}

#[test]
fn a_first_sign_in_creates_the_account_with_a_minted_sub() {
    // No users yet and no allowlist: the bootstrap rule admits the first one.
    let mut store = OneUserStore { user: None, created: vec![] };

    let user = resolve(&mut store, &AuthConfig::default(), "first@example.com").unwrap();

    assert_eq!(user.email, "first@example.com");
    assert!(!user.sub.is_empty(), "sub must be issued, not left for the store");
    assert_eq!(store.created.len(), 1);
    assert_eq!(store.created[0].sub, user.sub);
    assert_eq!(SUBJECT_TOKEN_BYTES, 16);
}

#[test]
fn registration_is_refused_outside_the_allowlist() {
    let mut store = OneUserStore { user: Some(existing()), created: vec![] };
    let config = AuthConfig {
        allowed_registration_emails: vec![s("ops@example.com")],
        ..Default::default()
    };

    let result = resolve(&mut store, &config, "stranger@example.com");

    assert!(matches!(result, Err(AuthError::Unauthorized(_))));
    assert!(store.created.is_empty());
}

#[test]
fn a_second_account_is_refused_without_an_allowlist() {
    let mut store = OneUserStore { user: Some(existing()), created: vec![] };
    let result = resolve(&mut store, &AuthConfig::default(), "second@example.com");
    assert!(matches!(result, Err(AuthError::Unauthorized(m))
        if m == "Registration is not open for this address"));
    assert!(store.created.is_empty());
}

#[test]
fn an_account_that_cannot_be_created_is_an_error() {
    let config = AuthConfig {
        allowed_registration_domains: vec![s("example.com")],
        ..Default::default()
    };
    let mint = || match resolve_or_create_account(s("a@example.com")).resume(&config, Ok(None)) {
        Ok(AccountNext::MintSubject(mint)) => mint,
        _ => panic!("the domain is listed"),
    };
    assert!(is_server_state(
        &mint().resume(Err(s("no entropy"))).unwrap_err(),
        "Failed to generate subject: no entropy"
    ));
    let create = mint().resume(Ok(s("sub"))).unwrap();
    assert_eq!(create.new_user.email, "a@example.com");
    assert!(is_server_state(
        &create.resume(Err(AuthError::SessionError)).unwrap_err(),
        "Failed to create user"
    ));
}

#[test]
fn a_user_handle_is_the_base64_of_the_id() {
    assert_eq!(user_handle(""), "");
    assert_eq!(user_handle("a"), "YQ");
    assert_eq!(user_handle("existing-id"), "ZXhpc3RpbmctaWQ");
    assert_eq!(user_handle("~~~???"), "fn5-Pz8_");
}

#[test]
fn a_relying_party_needs_a_usable_base_url() {
    assert_eq!(relying_party(Ok(7)).unwrap(), 7);
    assert!(is_server_state(
        &relying_party::<u8>(Err(s("no host"))).unwrap_err(),
        "BASE_URL invalid for WebAuthn: no host"
    ));
}

#[test]
fn the_replies_say_what_they_stand_for() {
    let reply = StartSessionResponse::otp_sent(true, false);
    assert!(reply.otp_sent && reply.is_new_user && !reply.has_passkeys);
    assert!(reply.public_key_options.is_none() && reply.captcha_required.is_none());
    assert!(refused(&VerifyResponse::failed("no"), "no"));
    for offer_passkey in [false, true] {
        let result = FinalizeResult { redirect_url: s("/home"), offer_passkey };
        let reply = VerifyResponse::logged_in(result);
        assert!(reply.success && reply.error.is_none());
        assert_eq!(reply.redirect_url.as_deref(), Some("/home"));
        assert_eq!(reply.offer_passkey, if offer_passkey { Some(true) } else { None });
    }
}

fn request(email: &str) -> StartSessionRequest {
    StartSessionRequest { email: s(email), redirect_url: Some(s("/reports")) }
}

#[test]
fn a_local_restart_inherits_no_credentials_and_keeps_the_throttle() {
    let mut session = LoginSession::empty();
    store_otp_at(&mut session, &s("123456"), &s("old@example.com"), &s("login"), 100);
    note_mail_at(&mut session, 100);
    session.local_deferred_new_user = Stored::Value(true);
    session.passkey_challenge = Stored::Value(s("c"));
    session.passkey_user_id = Stored::Value(s("u"));

    let step = start_session(request(" Me@Example.com "));
    assert_eq!(step.email, "me@example.com");
    assert!(is_bad_request(
        &step.resume(&mut session, false, true).unwrap_err(),
        "Invalid email address"
    ));
    assert!(matches!(session.otp_code, Stored::Value(_)));

    let step = start_session(request("me@example.com"));
    assert_eq!(step.resume(&mut session, true, true).unwrap().email, "me@example.com");
    assert!(matches!(session.otp_code, Stored::Missing));
    assert!(matches!(session.local_deferred_new_user, Stored::Missing));
    assert!(matches!(session.passkey_challenge, Stored::Missing));
    assert!(matches!(session.passkey_user_id, Stored::Missing));
    assert!(matches!(session.otp_resend_count, Stored::Value(1)));
    assert!(matches!(session.otp_last_sent_at, Stored::Value(100)));
    assert!(matches!(&session.login_email, Stored::Value(e) if e == "me@example.com"));
    assert!(matches!(&session.login_redirect_url, Stored::Value(u) if u == "/reports"));

    session.passkey_challenge = Stored::Unreadable;
    session.passkey_user_id = Stored::Value(s("u"));
    assert!(matches!(reset_pending_login_state(&mut session), Err(AuthError::SessionError)));
    assert!(matches!(session.passkey_challenge, Stored::Missing));
    assert!(matches!(session.passkey_user_id, Stored::Value(_)));
}

fn looked_up(
    config: &AuthConfig,
    session: &mut LoginSession,
    found: AuthResult<Option<AuthUser>>,
) -> AuthResult<AfterLookup> {
    let step = start_session(request("me@example.com")).resume(session, true, true).unwrap();
    step.resume(config, session, found)
}

#[test]
fn an_unknown_address_is_a_pending_registration() {
    let mut config = AuthConfig::default();
    let mut session = LoginSession::empty();
    match looked_up(&config, &mut session, Ok(None)).unwrap() {
        AfterLookup::AskForUsers(ask) => {
            let e = ask.resume(&config, &mut session, Ok(true)).unwrap_err();
            assert!(matches!(e, AuthError::Unauthorized(_)));
        }
        _ => panic!("the store decides"),
    }
    assert!(matches!(session.local_deferred_new_user, Stored::Missing));
    config.allowed_registration_domains = vec![s("example.com")];
    assert!(matches!(
        looked_up(&config, &mut session, Ok(None)),
        Ok(AfterLookup::ReadCaptcha(step)) if step.email == "me@example.com"
    ));
    assert!(matches!(session.local_deferred_new_user, Stored::Value(true)));
    assert!(matches!(session.deferred_new_user, Stored::Missing));
    config.allowed_registration_domains = vec![s("example.org")];
    assert!(matches!(
        looked_up(&config, &mut session, Ok(None)),
        Err(AuthError::Unauthorized(_))
    ));
    assert!(matches!(
        looked_up(&config, &mut session, Ok(Some(existing()))),
        Ok(AfterLookup::ListPasskeys(step)) if step.user_id == "existing-id"
    ));
}

fn captcha() -> CaptchaEnv {
    CaptchaEnv {
        server_url: Some(s("https://captcha.example")),
        site_key: Some(s("site")),
        secret_key: Some(s("key")),
    }
}

#[test]
fn a_captcha_withholds_the_code_of_a_new_account() {
    let mut session = LoginSession::empty();
    let step = || StartCaptcha { email: s("me@example.com") };
    match step().resume(&session, captcha()).unwrap() {
        StartNewUser::Reply(reply) => {
            assert_eq!(reply.captcha_required, Some(true));
            assert_eq!(reply.captcha_site_key.as_deref(), Some("site"));
            assert_eq!(reply.captcha_server_url.as_deref(), Some("https://captcha.example"));
            assert!(!reply.otp_sent && reply.is_new_user);
        }
        StartNewUser::MintOtp(_) => panic!("the code is withheld"),
    }
    let partial = || CaptchaEnv { secret_key: None, ..captcha() };
    match step().resume(&session, partial()).unwrap() {
        StartNewUser::MintOtp(issue) => {
            assert_eq!(issue.email, "me@example.com");
            assert_eq!(issue.purpose, "login");
            assert!(issue.reply.otp_sent && issue.reply.is_new_user);
        }
        StartNewUser::Reply(_) => panic!("no captcha is configured"),
    }

    // The code is throttled, the captcha is not.
    note_mail_at(&mut session, 100);
    assert!(is_bad_request(
        &step().resume_at(&session, 110, partial()).unwrap_err(),
        "Please wait 20 seconds before requesting a new code."
    ));
    assert!(matches!(
        step().resume_at(&session, 110, captcha()),
        Ok(StartNewUser::Reply(_))
    ));
    assert!(matches!(
        step().resume_at(&session, 130, partial()),
        Ok(StartNewUser::MintOtp(_))
    ));
    session.otp_resend_count = Stored::Unreadable;
    assert!(matches!(
        step().resume_at(&session, 130, partial()),
        Err(AuthError::SessionError)
    ));
}

#[test]
fn a_start_sends_no_mail_once_all_are_sent() {
    let config = AuthConfig {
        allowed_registration_domains: vec![s("example.com")],
        ..Default::default()
    };
    let message = "Maximum resend attempts reached. Please start a new login.";
    let mut session = LoginSession::empty();
    session.otp_resend_count = Stored::Value(5);

    match looked_up(&config, &mut session, Ok(Some(existing()))).unwrap() {
        AfterLookup::ListPasskeys(step) => assert!(is_bad_request(
            &step.resume(&config, &session, Ok(vec![])).unwrap_err(),
            message
        )),
        _ => panic!("the account exists"),
    }
    match looked_up(&config, &mut session, Ok(None)).unwrap() {
        AfterLookup::ReadCaptcha(step) => {
            let env = CaptchaEnv { server_url: None, site_key: None, secret_key: None };
            assert!(is_bad_request(&step.resume(&session, env).unwrap_err(), message));
        }
        _ => panic!("the domain is listed"),
    }
    let passed = CaptchaAnswer { status_is_success: true, body: Some(json("{\"success\": true}")) };
    assert!(is_bad_request(&captcha_answered(&session, Some(passed)).unwrap_err(), message));
    assert!(matches!(session.otp_resend_count, Stored::Value(5)));
    assert!(matches!(session.otp_code, Stored::Missing));

    // A passkey needs no mail.
    match looked_up(&config, &mut session, Ok(Some(existing()))).unwrap() {
        AfterLookup::ListPasskeys(step) => assert!(matches!(
            step.resume(&config, &session, Ok(vec![passkey("existing-id")])),
            Ok(AfterPasskeys::DeriveRelyingParty(_))
        )),
        _ => panic!("the account exists"),
    }
}

#[test]
fn restarts_do_not_add_mails() {
    let config = AuthConfig::default();
    let mut session = LoginSession::empty();
    let mut sent = 0;
    for i in 0..20 {
        let now = 100 + 60 * i;
        let step = match looked_up(&config, &mut session, Ok(Some(existing()))).unwrap() {
            AfterLookup::ListPasskeys(step) => step,
            _ => panic!("the account exists"),
        };
        if let Ok(AfterPasskeys::MintOtp(issue)) =
            step.resume_at(&config, &session, now, Ok(vec![]))
        {
            store_otp_at(&mut session, &s("1"), &issue.email, &issue.purpose, now);
            note_mail_at(&mut session, now);
            sent += 1;
        }
    }
    assert_eq!(sent, 5);
}

fn passkey(user_id: &str) -> StoredPasskey {
    StoredPasskey {
        credential_id: s("cred-1"),
        user_id: s(user_id),
        transports: vec![s("usb"), s("nfc")],
        public_key_cose: vec![1, 2, 3],
        sign_count: 4,
    }
}

#[test]
fn an_account_with_passkeys_is_challenged() {
    let config = AuthConfig { base_url: s("https://app.example"), ..Default::default() };
    let mut session = LoginSession::empty();
    let step = || StartPasskeys { user_id: s("existing-id"), email: s("me@example.com") };
    let bound: DeriveRelyingParty<BoundLogin> =
        match step().resume(&config, &session, Ok(vec![passkey("existing-id")])).unwrap() {
            AfterPasskeys::DeriveRelyingParty(bound) => bound,
            AfterPasskeys::MintOtp(_) => panic!("the account has a passkey"),
        };
    assert_eq!(bound.base_url, "https://app.example");
    assert_eq!(bound.ceremony.allow, vec![(s("cred-1"), vec![s("usb"), s("nfc")])]);
    let mint = bound.resume(Ok("rp")).unwrap();
    let build = mint.resume(Ok(s("challenge"))).unwrap();
    assert_eq!(build.rp, "rp");
    let reply = build.resume(&mut session, json("{\"o\": 1}"));
    assert!(reply.has_passkeys && !reply.otp_sent && !reply.is_new_user);
    assert_eq!(reply.public_key_options, Some(json("{\"o\": 1}")));
    assert!(matches!(&session.passkey_challenge, Stored::Value(c) if c == "challenge"));
    assert!(matches!(&session.passkey_user_id, Stored::Value(u) if u == "existing-id"));

    // No passkeys, or none that can be listed: a code.
    for listed in [Ok(vec![]), Err(AuthError::SessionError)] {
        match step().resume(&config, &session, listed).unwrap() {
            AfterPasskeys::MintOtp(issue) => {
                assert_eq!(issue.email, "me@example.com");
                assert!(issue.reply.otp_sent && !issue.reply.is_new_user);
                assert!(!issue.reply.has_passkeys);
            }
            AfterPasskeys::DeriveRelyingParty(_) => panic!("there is no passkey"),
        }
    }
    note_mail_at(&mut session, 100);
    assert!(is_bad_request(
        &step().resume_at(&config, &session, 101, Ok(vec![])).unwrap_err(),
        "Please wait 29 seconds before requesting a new code."
    ));
}

#[test]
fn a_discoverable_ceremony_is_bound_to_no_account() {
    let config = AuthConfig { base_url: s("https://app.example"), ..Default::default() };
    let mut session = LoginSession::empty();
    session.passkey_user_id = Stored::Value(s("old"));
    let step = passkey_conditional_options(&config).unwrap();
    assert!(step.ceremony.allow.is_empty());
    let step = step.resume(Ok(())).unwrap().resume(Ok(s("c2"))).unwrap();
    let reply = step.resume(&mut session, json("{\"o\": 2}")).unwrap();
    assert_eq!(reply.options, json("{\"o\": 2}"));
    assert!(matches!(&session.passkey_challenge, Stored::Value(c) if c == "c2"));
    assert!(matches!(session.passkey_user_id, Stored::Missing));

    let step = passkey_conditional_options(&config).unwrap();
    assert!(is_server_state(
        &step.resume::<()>(Err(s("no host"))).unwrap_err(),
        "BASE_URL invalid for WebAuthn: no host"
    ));
    let step = passkey_conditional_options(&config).unwrap().resume(Ok(())).unwrap();
    assert!(is_server_state(&step.resume(Err(s("no entropy"))).unwrap_err(), "no entropy"));
    session.passkey_user_id = Stored::Unreadable;
    let step = passkey_conditional_options(&config).unwrap().resume(Ok(())).unwrap();
    let step = step.resume(Ok(s("c3"))).unwrap();
    assert!(matches!(step.resume(&mut session, json("1")), Err(AuthError::SessionError)));
}

fn assertion(text: &str) -> VerifyPasskeyRequest {
    VerifyPasskeyRequest { credential_assertion_data: json(text) }
}

#[test]
fn an_assertion_needs_a_challenge_and_an_id() {
    let mut session = LoginSession::empty();
    assert!(is_bad_request(
        &verify_passkey_handler(&session, assertion("{\"rawId\": \"cred-1\"}")).unwrap_err(),
        "No passkey challenge in progress"
    ));
    session.passkey_challenge = Stored::Value(s("c"));
    for malformed in ["{}", "{\"rawId\": 1}", "[]", "\"rawId\""] {
        assert!(is_bad_request(
            &verify_passkey_handler(&session, assertion(malformed)).unwrap_err(),
            "Malformed passkey assertion"
        ));
    }
    let step = verify_passkey_handler(&session, assertion("{\"rawId\": \"cred-1\"}")).unwrap();
    assert_eq!(step.credential_id, "cred-1");
    assert_eq!(step.challenge, "c");
    assert!(step.expected_user_id.is_none());
    session.passkey_user_id = Stored::Unreadable;
    assert!(matches!(
        verify_passkey_handler(&session, assertion("{\"rawId\": \"cred-1\"}")),
        Err(AuthError::SessionError)
    ));
}

fn found(session: &LoginSession, text: &str, owner: &str) -> AuthResult<AfterFind> {
    let config = AuthConfig { base_url: s("https://app.example"), ..Default::default() };
    let step = verify_passkey_handler(session, assertion(text)).unwrap();
    step.resume(&config, Ok(Some(passkey(owner))))
}

#[test]
fn a_passkey_answers_for_its_owner_only() {
    let mut session = LoginSession::empty();
    session.passkey_challenge = Stored::Value(s("c"));
    let plain = "{\"rawId\": \"cred-1\"}";
    // existing-id in base64url.
    let own =
        "{\"rawId\": \"cred-1\", \"response\": {\"userHandle\": \"ZXhpc3RpbmctaWQ\"}}";
    let other = "{\"rawId\": \"cred-1\", \"response\": {\"userHandle\": \"b3RoZXI\"}}";

    // Bound to no account: the handle, where there is one, names the owner.
    assert!(matches!(found(&session, plain, "existing-id"), Ok(AfterFind::DeriveRelyingParty(_))));
    assert!(matches!(found(&session, own, "existing-id"), Ok(AfterFind::DeriveRelyingParty(_))));
    assert!(matches!(found(&session, other, "existing-id"),
        Ok(AfterFind::Reply(reply)) if refused(&reply, PASSKEY_FAILED)));

    // Bound to an account: only that counts.
    session.passkey_user_id = Stored::Value(s("existing-id"));
    assert!(matches!(found(&session, other, "existing-id"), Ok(AfterFind::DeriveRelyingParty(_))));
    assert!(matches!(found(&session, own, "someone"),
        Ok(AfterFind::Reply(reply)) if refused(&reply, PASSKEY_FAILED)));

    let step = verify_passkey_handler(&session, assertion(plain)).unwrap();
    assert!(matches!(step.resume(&AuthConfig::default(), Ok(None)),
        Ok(AfterFind::Reply(reply)) if refused(&reply, PASSKEY_FAILED)));
}

#[test]
fn a_verified_assertion_burns_the_challenge() {
    let mut session = LoginSession::empty();
    session.passkey_challenge = Stored::Value(s("c"));
    session.passkey_user_id = Stored::Value(s("existing-id"));
    let plain = "{\"rawId\": \"cred-1\"}";
    let verify = |session: &LoginSession| match found(session, plain, "existing-id").unwrap() {
        AfterFind::DeriveRelyingParty(step) => {
            assert_eq!(step.base_url, "https://app.example");
            step.resume(Ok("rp")).unwrap()
        }
        AfterFind::Reply(_) => panic!("the passkey is the owner's"),
    };
    let step = verify(&session);
    assert_eq!(step.challenge, "c");
    assert_eq!(step.passkey.sign_count, 4);
    // A failed one keeps it.
    assert!(matches!(step.resume(&mut session, Err("bad signature")),
        Ok(AfterAssertion::Reply(reply)) if refused(&reply, PASSKEY_FAILED)));
    assert!(matches!(session.passkey_challenge, Stored::Value(_)));

    let outcome = AssertionOutcome { sign_count: 9, backed_up: true };
    let touch: TouchPasskey =
        match verify(&session).resume::<String>(&mut session, Ok(outcome)).unwrap() {
            AfterAssertion::Touch(touch) => touch,
            AfterAssertion::Reply(_) => panic!("the assertion is verified"),
        };
    assert_eq!(touch.credential_id, "cred-1");
    assert_eq!(touch.sign_count, 9);
    assert!(touch.backed_up);
    assert!(matches!(session.passkey_challenge, Stored::Missing));
    assert!(matches!(session.passkey_user_id, Stored::Missing));
    assert!(is_bad_request(
        &verify_passkey_handler(&session, assertion(plain)).unwrap_err(),
        "No passkey challenge in progress"
    ));
    let owner = touch.resume(Err(AuthError::SessionError));
    assert_eq!(owner.user_id, "existing-id");
    assert!(is_server_state(
        &owner.resume(Ok(None)).unwrap_err(),
        "Passkey owner no longer exists"
    ));
    let opened = GetOwner { user_id: s("existing-id") }.resume(Ok(Some(existing()))).unwrap();
    assert_eq!(opened.data.id_token, "local_login");
    assert_eq!(opened.data.username, "me");
}

#[test]
fn a_verified_code_finds_the_account_of_its_address() {
    let e = verify_otp_handler(VerifyOtpRequest { code: s("\t") }).unwrap_err();
    assert!(is_bad_request(&e, "Verification code is required"));
    let mut session = LoginSession::empty();
    let now = chrono::Utc::now().timestamp();
    store_otp_at(&mut session, &s("123456"), &s("me@example.com"), &s("login"), now);
    session.login_email = Stored::Value(s("victim@example.com"));
    let wrong = verify_otp_handler(VerifyOtpRequest { code: s("654321") }).unwrap();
    assert!(matches!(otp_checked(wrong.resume(&mut session), Ok(())),
        Ok(AfterOtp::Reply(reply))
            if refused(&reply, "Invalid verification code. Please try again.")));
    let right = verify_otp_handler(VerifyOtpRequest { code: s("123456") }).unwrap();
    match otp_checked(right.resume(&mut session), Ok(())).unwrap() {
        AfterOtp::FindAccount(step) => assert_eq!(step.email, "me@example.com"),
        AfterOtp::Reply(_) => panic!("the code is right"),
    }
    let checked = OtpChecked { outcome: Ok(s("me@example.com")) };
    assert!(matches!(
        otp_checked(checked, Err(AuthError::SessionError)),
        Err(AuthError::SessionError)
    ));
}

#[test]
fn a_request_for_another_mail_is_throttled() {
    let mut session = LoginSession::empty();
    assert!(resend_throttle_error(&session).unwrap().is_none());
    note_mail_at(&mut session, 100);
    let reply = resend_throttle_error_at(&session, 101).unwrap().unwrap();
    assert!(refused(&reply, "Please wait 29 seconds before requesting a new code."));
    assert_eq!(reply.retry_after_seconds, Some(29));
    assert!(resend_throttle_error_at(&session, 130).unwrap().is_none());
    session.otp_resend_count = Stored::Value(5);
    let reply = resend_throttle_error_at(&session, 130).unwrap().unwrap();
    assert!(refused(&reply, "Maximum resend attempts reached. Please start a new login."));
    assert!(reply.retry_after_seconds.is_none());
    session.otp_resend_count = Stored::Missing;
    session.otp_last_sent_at = Stored::Unreadable;
    assert!(matches!(resend_throttle_error_at(&session, 130), Err(AuthError::SessionError)));
}

#[test]
fn a_pending_registration_gets_no_code_around_the_captcha() {
    let config = AuthConfig {
        allowed_registration_domains: vec![s("example.com")],
        ..Default::default()
    };
    let mut session = LoginSession::empty();
    looked_up(&config, &mut session, Ok(None)).unwrap();
    assert!(is_bad_request(
        &resend_otp_at(&session, 100).unwrap_err(),
        "No verification code in progress"
    ));
    assert!(is_bad_request(
        &passkey_fallback_at(&mut session, 100).unwrap_err(),
        "Please complete verification to receive a code."
    ));
}

#[test]
fn a_local_code_is_resent_for_its_purpose() {
    let mut session = LoginSession::empty();
    session.login_email = Stored::Value(s("me@example.com"));
    store_otp_at(&mut session, &s("1"), &s("me@example.com"), &s("signup"), 100);
    match resend_otp_at(&session, 100).unwrap() {
        ResendNext::MintOtp(issue) => {
            assert_eq!(issue.email, "me@example.com");
            assert_eq!(issue.purpose, "signup");
            assert!(issue.reply.success && issue.reply.error.is_none());
            assert_eq!(issue.reply.retry_after_seconds, Some(30));
        }
        ResendNext::Reply(_) => panic!("nothing was sent yet"),
    }
    note_mail_at(&mut session, 100);
    assert!(matches!(resend_otp_at(&session, 110), Ok(ResendNext::Reply(reply))
        if refused(&reply, "Please wait 20 seconds before requesting a new code.")));
}

#[test]
fn a_passkey_can_be_replaced_by_a_code() {
    let mut session = LoginSession::empty();
    assert!(is_bad_request(
        &passkey_fallback_to_otp(&mut session).unwrap_err(),
        "No login session in progress"
    ));
    session.login_email = Stored::Value(s("me@example.com"));
    session.passkey_challenge = Stored::Value(s("c"));
    session.passkey_user_id = Stored::Value(s("existing-id"));
    note_mail_at(&mut session, 100);
    assert!(is_bad_request(
        &passkey_fallback_at(&mut session, 105).unwrap_err(),
        "Please wait 25 seconds before requesting a new code."
    ));
    assert!(matches!(session.passkey_challenge, Stored::Value(_)));
    let issue = passkey_fallback_at(&mut session, 130).unwrap();
    assert_eq!(issue.email, "me@example.com");
    assert_eq!(issue.purpose, "login");
    assert!(issue.reply.otp_sent && issue.reply.has_passkeys && !issue.reply.is_new_user);
    assert!(matches!(session.passkey_challenge, Stored::Missing));
    assert!(matches!(session.passkey_user_id, Stored::Missing));
    session.otp_resend_count = Stored::Value(5);
    assert!(is_bad_request(
        &passkey_fallback_to_otp(&mut session).unwrap_err(),
        "Maximum resend attempts reached. Please start a new login."
    ));
}

#[test]
fn the_local_captcha_fails_closed() {
    let req = || VerifyCaptchaRequest { captcha_token: Some(s("t")) };
    let mut session = LoginSession::empty();
    session.deferred_new_user = Stored::Value(true);
    assert!(is_bad_request(
        &verify_captcha_handler(&session, req()).unwrap_err(),
        "No pending registration session"
    ));
    session.local_deferred_new_user = Stored::Value(true);
    session.login_email = Stored::Value(s("me@example.com"));
    assert_eq!(
        verify_captcha_handler(&session, req()).unwrap().captcha_token.as_deref(),
        Some("t")
    );
    let said = |status_is_success: bool, body: &str| {
        Some(CaptchaAnswer { status_is_success, body: Some(json(body)) })
    };
    for (answer, message) in [
        (None, "Verification unavailable. Please try again in a moment."),
        (said(true, "{}"), "Verification failed. Please try again."),
        (said(false, "{\"success\": true}"), "Verification failed. Please try again."),
    ] {
        assert!(matches!(captcha_answered(&session, answer), Ok(AfterCaptcha::Reply(reply))
            if !reply.success && reply.error.as_deref() == Some(message)));
    }
    assert!(matches!(captcha_answered(&session, said(true, "{\"success\": true}")),
        Ok(AfterCaptcha::MintOtp(issue)) if issue.email == "me@example.com"));
    note_mail_at(&mut session, 100);
    let passed = || said(true, "{\"success\": true}");
    assert!(is_bad_request(
        &captcha_answered_at(&session, 129, passed()).unwrap_err(),
        "Please wait 1 seconds before requesting a new code."
    ));
    assert!(matches!(
        captcha_answered_at(&session, 130, passed()),
        Ok(AfterCaptcha::MintOtp(_))
    ));
    session.login_email = Stored::Missing;
    assert!(is_server_state(
        &captcha_answered_at(&session, 101, passed()).unwrap_err(),
        "Missing login email"
    ));
}

#[test]
fn a_local_login_leaves_nothing_behind() {
    let mut session = LoginSession::empty();
    store_otp_at(&mut session, &s("1"), &s("me@example.com"), &s("login"), 5);
    note_mail_at(&mut session, 5);
    session.login_email = Stored::Value(s("me@example.com"));
    session.passkey_challenge = Stored::Value(s("c"));
    session.otp_code = Stored::Unreadable;
    let step = finalize_login(existing());
    assert_eq!(step.data.id, "existing-id");
    let step = step.resume(Ok(())).unwrap().resume(Ok(())).unwrap();
    let step = login_recorded(step, &mut session, Ok(())).unwrap();
    assert!(matches!(session.login_email, Stored::Missing));
    assert!(matches!(session.otp_code, Stored::Missing));
    assert!(matches!(session.passkey_challenge, Stored::Missing));
    assert!(matches!(session.otp_resend_count, Stored::Missing));
    assert!(matches!(session.otp_last_sent_at, Stored::Missing));
    let offer: OfferPasskey = step.resume(Ok(s("/home"))).unwrap();
    assert_eq!(offer.user_id, "existing-id");
    let reply = offer.resume(Ok(vec![]));
    assert_eq!(reply.offer_passkey, Some(true));
    assert_eq!(reply.redirect_url.as_deref(), Some("/home"));
    for listed in [Ok(vec![passkey("existing-id")]), Err(AuthError::SessionError)] {
        let offer = OfferPasskey { user_id: s("existing-id"), redirect_url: s("/home") };
        assert!(offer.resume(listed).offer_passkey.is_none());
    }

    session.otp_last_sent_at = Stored::Unreadable;
    let step = finalize_login(existing()).resume(Ok(())).unwrap().resume(Ok(())).unwrap();
    assert!(matches!(
        login_recorded(step, &mut session, Ok(())),
        Err(AuthError::SessionError)
    ));
}

#[test]
fn a_session_that_cannot_be_renewed_is_not_logged_in() {
    assert!(matches!(
        finalize_login(existing()).resume(Err(AuthError::SessionError)),
        Err(AuthError::SessionError)
    ));
    let step = finalize_login(existing()).resume(Ok(())).unwrap();
    assert!(matches!(step.resume(Err(AuthError::SessionError)), Err(AuthError::SessionError)));
}
