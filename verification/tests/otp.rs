use dx_auth::error::AuthError;
use dx_auth::handlers::otp::{
    captcha_cfg, captcha_request, clear_otp_state, cooldown_is_computable, generate_and_send_otp, lock_session,
    note_mail_at, otp_mailed, persist_now, resend_throttle_at, store_otp_at, verify_captcha_token,
    verify_otp_at, verify_otp_from_session, verify_otp_guarded, CaptchaAnswer, CaptchaCfg,
    CaptchaEnv, OtpChecked, OtpIssue, OtpMail, ResendThrottle, MAX_OTP_ATTEMPTS, MAX_RESEND_COUNT,
    OTP_DIGITS, RESEND_COOLDOWN_SECONDS,
};
use dx_auth::interop::{bool_member, nested_string_member, same_secret, string_member};
use dx_auth::session::{LoginSession, SessionKey, Stored};

fn s(text: &str) -> String {
    text.to_string()
}

fn seeded(now: i64) -> LoginSession {
    let mut session = LoginSession::empty();
    store_otp_at(&mut session, &s("123456"), &s("a@example.com"), &s("login"), now);
    session
}

fn json(text: &str) -> serde_json::Value {
    serde_json::from_str(text).unwrap()
}

#[test]
fn parallel_otp_guesses_cannot_exceed_the_attempt_cap() {
    let mut session = LoginSession::empty();
    session.otp_code = Stored::Value(s("123456"));
    session.otp_email = Stored::Value(s("a@example.com"));
    session.otp_expires_at = Stored::Value(chrono::Utc::now().timestamp() + 600);
    session.otp_attempts = Stored::Value(0);

    // Twenty requests for one cookie, one after the other as the session's lock has them.
    let mut evaluated = 0;
    for _ in 0..20 {
        let outcome = verify_otp_from_session(&mut session, "000000");
        match verify_otp_guarded(OtpChecked { outcome }, Ok(())).unwrap() {
            Err(msg) if msg.starts_with("Invalid verification code") => evaluated += 1,
            Err(_) => {} // cap reached, or the code already cleared by it
            Ok(email) => panic!("wrong code accepted for {email}"),
        }
    }
    assert_eq!(evaluated, MAX_OTP_ATTEMPTS as usize);
}

#[test]
fn a_code_names_the_address_it_was_mailed_to_and_is_used_once() {
    let mut session = seeded(1_000);
    session.login_email = Stored::Value(s("victim@example.com"));
    assert_eq!(verify_otp_at(&mut session, "123456", 1_600), Ok(s("a@example.com")));
    assert_eq!(
        verify_otp_at(&mut session, "123456", 1_600),
        Err(s("No verification code in progress"))
    );
    assert!(matches!(session.otp_email, Stored::Missing));
    assert!(matches!(session.otp_purpose, Stored::Missing));
    assert!(matches!(session.login_email, Stored::Value(_)));
}

#[test]
fn an_expired_code_is_cleared() {
    let mut session = seeded(1_000);
    assert_eq!(
        verify_otp_at(&mut session, "123456", 1_601),
        Err(s("Verification code has expired. Please request a new one."))
    );
    assert!(matches!(session.otp_code, Stored::Missing));
    assert!(matches!(session.otp_attempts, Stored::Missing));
}

#[test]
fn the_system_clock_decides_whether_a_code_lasts() {
    let now = chrono::Utc::now().timestamp();
    let mut fresh = seeded(now);
    assert_eq!(verify_otp_from_session(&mut fresh, "123456"), Ok(s("a@example.com")));
    let mut stale = seeded(now - 700);
    assert!(verify_otp_from_session(&mut stale, "123456").unwrap_err().contains("expired"));
}

#[test]
fn the_right_code_does_not_help_after_the_last_attempt() {
    let mut session = seeded(1_000);
    for n in 0..5 {
        assert_eq!(
            verify_otp_at(&mut session, "000000", 1_000),
            Err(s("Invalid verification code. Please try again."))
        );
        assert!(matches!(session.otp_attempts, Stored::Value(m) if m == n + 1));
    }
    assert_eq!(
        verify_otp_at(&mut session, "123456", 1_000),
        Err(s("Too many failed attempts. Please request a new verification code."))
    );
    assert_eq!(
        verify_otp_at(&mut session, "123456", 1_000),
        Err(s("No verification code in progress"))
    );
}

#[test]
fn missing_and_unreadable_fields_are_told_apart() {
    let mut session = seeded(1_000);
    session.otp_email = Stored::Missing;
    assert_eq!(
        verify_otp_at(&mut session, "123456", 1_000),
        Err(s("No verification code in progress"))
    );
    let mut session = seeded(1_000);
    session.otp_expires_at = Stored::Unreadable;
    assert_eq!(verify_otp_at(&mut session, "123456", 1_000), Err(s("Session error")));
    let mut session = seeded(1_000);
    session.otp_attempts = Stored::Unreadable;
    assert_eq!(verify_otp_at(&mut session, "123456", 1_000), Err(s("Session error")));
    let mut session = seeded(1_000);
    session.otp_attempts = Stored::Missing;
    assert_eq!(verify_otp_at(&mut session, "123456", 1_000), Ok(s("a@example.com")));
}

#[test]
fn an_outcome_counts_only_once_it_is_saved() {
    let checked = OtpChecked { outcome: Ok(s("a@example.com")) };
    assert!(matches!(
        verify_otp_guarded(checked, Err(AuthError::SessionError)),
        Err(AuthError::SessionError)
    ));
}

#[test]
fn issuing_a_code_binds_it_and_counts_the_mail() {
    let mut session = LoginSession::empty();
    session.otp_attempts = Stored::Value(4);
    let before = chrono::Utc::now().timestamp();
    let issue = OtpIssue { email: s("a@example.com"), purpose: s("login"), reply: 7 };
    let mail = generate_and_send_otp(&mut session, issue, Ok(s("123456"))).unwrap();
    assert_eq!(OTP_DIGITS, 6);
    assert_eq!(mail.email, "a@example.com");
    assert_eq!(mail.code, "123456");
    assert_eq!(mail.minutes, 10);
    assert!(matches!(&session.otp_email, Stored::Value(e) if e == "a@example.com"));
    assert!(matches!(session.otp_attempts, Stored::Value(0)));
    assert!(matches!(session.otp_expires_at, Stored::Value(at) if at >= before + 600));
    assert!(matches!(session.otp_resend_count, Stored::Missing));

    assert_eq!(otp_mailed(&mut session, mail, Ok(())).unwrap(), 7);
    assert!(matches!(session.otp_resend_count, Stored::Value(1)));
    assert!(matches!(session.otp_last_sent_at, Stored::Value(at) if at >= before));
}

#[test]
fn a_code_that_cannot_be_minted_or_mailed_is_an_error() {
    let mut session = LoginSession::empty();
    let issue = OtpIssue { email: s("a@example.com"), purpose: s("login"), reply: () };
    assert!(matches!(
        generate_and_send_otp(&mut session, issue, Err(s("no entropy"))),
        Err(AuthError::ServerStateError(m)) if m == "Failed to generate OTP: no entropy"
    ));
    assert!(matches!(session.otp_code, Stored::Missing));
    let mail = OtpMail { email: s("a@example.com"), code: s("1"), minutes: 10, reply: () };
    assert!(matches!(
        otp_mailed(&mut session, mail, Err(s("relay down"))),
        Err(AuthError::ServerStateError(m)) if m == "Failed to send verification email: relay down"
    ));
    assert!(matches!(session.otp_resend_count, Stored::Missing));
}

#[test]
fn the_throttle_has_a_cooldown_and_a_cap() {
    let mut session = LoginSession::empty();
    assert!(matches!(resend_throttle_at(&session, 50), Ok(ResendThrottle::Open)));
    note_mail_at(&mut session, 100);
    assert!(matches!(resend_throttle_at(&session, 100), Ok(ResendThrottle::CoolingDown(30))));
    assert!(matches!(resend_throttle_at(&session, 129), Ok(ResendThrottle::CoolingDown(1))));
    assert!(matches!(resend_throttle_at(&session, 130), Ok(ResendThrottle::Open)));
    // A clock that went back only makes the wait longer.
    assert!(matches!(resend_throttle_at(&session, 90), Ok(ResendThrottle::CoolingDown(40))));

    let mut let_through = 1;
    for i in 0..20 {
        let now = 200 + RESEND_COOLDOWN_SECONDS * i;
        if matches!(resend_throttle_at(&session, now), Ok(ResendThrottle::Open)) {
            note_mail_at(&mut session, now);
            let_through += 1;
        }
    }
    assert_eq!(let_through, MAX_RESEND_COUNT);
    assert!(matches!(resend_throttle_at(&session, 9_000), Ok(ResendThrottle::CapReached)));
    session.otp_resend_count = Stored::Unreadable;
    assert!(matches!(resend_throttle_at(&session, 9_000), Err(AuthError::SessionError)));
}

#[test]
fn the_cooldown_is_asked_only_below_the_cap() {
    let mut session = LoginSession::empty();
    assert!(cooldown_is_computable(&session));
    note_mail_at(&mut session, 100);
    assert!(cooldown_is_computable(&session));
    session.otp_last_sent_at = Stored::Value(i64::MIN);
    assert!(!cooldown_is_computable(&session));
    session.otp_last_sent_at = Stored::Value(i64::MAX);
    assert!(!cooldown_is_computable(&session));
    session.otp_resend_count = Stored::Value(5);
    assert!(cooldown_is_computable(&session));
    assert!(matches!(resend_throttle_at(&session, 100), Ok(ResendThrottle::CapReached)));
    session.otp_resend_count = Stored::Unreadable;
    assert!(cooldown_is_computable(&session));
    assert!(matches!(resend_throttle_at(&session, 100), Err(AuthError::SessionError)));
}

#[test]
fn a_mail_that_failed_is_not_counted() {
    let mut session = LoginSession::empty();
    session.otp_resend_count = Stored::Value(u32::MAX);
    let mail = OtpMail { email: s("a@example.com"), code: s("1"), minutes: 10, reply: () };
    assert!(otp_mailed(&mut session, mail, Err(s("relay down"))).is_err());
    assert!(matches!(session.otp_resend_count, Stored::Value(u32::MAX)));
}

#[test]
fn clearing_a_code_keeps_the_throttle() {
    let mut session = seeded(1_000);
    note_mail_at(&mut session, 1_000);
    clear_otp_state(&mut session);
    assert!(matches!(session.otp_code, Stored::Missing));
    assert!(matches!(session.otp_expires_at, Stored::Missing));
    assert!(matches!(session.otp_resend_count, Stored::Value(1)));
    assert!(matches!(session.otp_last_sent_at, Stored::Value(1_000)));
}

#[test]
fn sessions_are_spread_over_the_locks_by_their_id() {
    assert_eq!(lock_session(None), 0);
    assert_eq!(lock_session(Some(65)), 1);
    assert_eq!(lock_session(Some(-65)), 1);
    assert_eq!(lock_session(Some(-3)), 3);
    assert_eq!(lock_session(Some(i128::MIN)), 0);
    assert!(persist_now(Some(0)));
    assert!(!persist_now(None));
}

#[test]
fn a_partial_captcha_configuration_is_none() {
    let env = |secret: Option<&str>| CaptchaEnv {
        server_url: Some(s("https://captcha.example")),
        site_key: Some(s("site")),
        secret_key: secret.map(|k| k.to_string()),
    };
    assert!(captcha_cfg(env(None)).is_none());
    assert!(captcha_cfg(env(Some(""))).is_none());
    let cfg = captcha_cfg(env(Some("secret"))).unwrap();
    assert_eq!(cfg.server_url, "https://captcha.example");
    assert_eq!(cfg.site_key, "site");
    assert_eq!(cfg.secret_key, "secret");
}

#[test]
fn the_captcha_server_is_asked_at_its_verify_path() {
    let cfg = CaptchaCfg {
        server_url: s("https://captcha.example//"),
        site_key: s("site"),
        secret_key: s("secret"),
    };
    let request = captcha_request(cfg, s("tok"));
    assert_eq!(request.url, "https://captcha.example/v1/verify");
    assert_eq!(request.bearer, "secret");
    assert_eq!(request.token, "tok");
}

#[test]
fn only_an_explicit_success_passes_the_captcha() {
    let answer = |ok: bool, body: Option<&str>| {
        verify_captcha_token(Some(CaptchaAnswer {
            status_is_success: ok,
            body: body.map(json),
        }))
        .unwrap()
    };
    assert!(answer(true, Some("{\"success\": true}")));
    assert!(!answer(true, Some("{\"success\": false}")));
    assert!(!answer(true, Some("{\"success\": \"true\"}")));
    assert!(!answer(true, Some("[true]")));
    assert!(!answer(true, None));
    assert!(!answer(false, Some("{\"success\": true}")));
    assert!(matches!(
        verify_captcha_token(None),
        Err(AuthError::ServerStateError(m)) if m == "captcha verify request failed"
    ));
}

#[test]
fn json_members_are_found_by_their_keys() {
    let value = json("{\"a\": \"x\", \"b\": {\"c\": \"y\", \"d\": true}, \"e\": 1, \"f\": [\"z\"]}");
    assert_eq!(string_member(&value, "a"), Some("x"));
    assert_eq!(string_member(&value, "e"), None);
    assert_eq!(string_member(&value, "f"), None);
    assert_eq!(string_member(&value, "g"), None);
    assert_eq!(nested_string_member(&value, "b", "c"), Some("y"));
    assert_eq!(nested_string_member(&value, "b", "d"), None);
    assert_eq!(nested_string_member(&value, "a", "c"), None);
    assert_eq!(bool_member(&value, "a"), None);
    assert_eq!(string_member(&json("\"x\""), "x"), None);
}

#[test]
fn secrets_are_compared_whole() {
    assert!(same_secret("123456", "123456"));
    assert!(!same_secret("123456", "123457"));
    assert!(!same_secret("123456", "12345"));
    assert!(same_secret("", ""));
}

#[test]
fn removing_a_key_reports_what_could_not_be_read() {
    let mut session = seeded(1_000);
    session.flow = Stored::Unreadable;
    assert!(session.remove_each(&[SessionKey::OtpCode, SessionKey::OtpEmail]).is_ok());
    assert!(matches!(
        session.remove_each(&[SessionKey::OtpPurpose, SessionKey::Flow, SessionKey::OtpAttempts]),
        Err(AuthError::SessionError)
    ));
    assert!(matches!(session.otp_purpose, Stored::Missing));
    assert!(matches!(session.flow, Stored::Missing));
    assert!(matches!(session.otp_attempts, Stored::Value(0)));
    assert_eq!(SessionKey::Flow.name(), "ferriskey.flow");
    assert_eq!(SessionKey::OtpCode.name(), "custom_otp.code");
    assert_eq!(SessionKey::LocalDeferredNewUser.name(), "login.deferred_new_user");
}
