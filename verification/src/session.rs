//! The part of a visitor's session that the login flows keep their state in.

use vstd::prelude::*;

use crate::error::{AuthError, AuthResult};
use crate::types::FerrisKeyFlow;

verus! {

pub const FLOW_KEY: &'static str = "ferriskey.flow";

pub const FERRISKEY_USER_ID_KEY: &'static str = "ferriskey.user_id";

pub const LOGIN_EMAIL_KEY: &'static str = "login.email";

pub const TOS_PENDING_REDIRECT_KEY: &'static str = "tos.pending_redirect";

pub const CUSTOM_OTP_CODE_KEY: &'static str = "custom_otp.code";

/// The address that the code was mailed to. A code proves ownership of this address and of
/// nothing else.
pub const CUSTOM_OTP_EMAIL_KEY: &'static str = "custom_otp.email";

pub const CUSTOM_OTP_EXPIRES_AT_KEY: &'static str = "custom_otp.expires_at";

pub const CUSTOM_OTP_PURPOSE_KEY: &'static str = "custom_otp.purpose";

pub const CUSTOM_OTP_ATTEMPTS_KEY: &'static str = "custom_otp.attempts";

pub const CUSTOM_OTP_LAST_SENT_AT_KEY: &'static str = "custom_otp.last_sent_at";

pub const CUSTOM_OTP_RESEND_COUNT_KEY: &'static str = "custom_otp.resend_count";

/// Set while a new user of the identity provider has not verified a code yet.
pub const DEFERRED_NEW_USER_KEY: &'static str = "ferriskey.deferred_new_user";

pub const PASSWORD_ATTEMPTS_KEY: &'static str = "password.attempts";

/// Set while a new user of the self-owned flow has not verified a code yet.
pub const LOCAL_DEFERRED_NEW_USER_KEY: &'static str = "login.deferred_new_user";

pub const PASSKEY_CHALLENGE_KEY: &'static str = "passkey.challenge";

pub const PASSKEY_USER_ID_KEY: &'static str = "passkey.user_id";

/// What a session holds under one key.
#[derive(Clone, Debug)]
pub enum Stored<T> {
    /// Nothing.
    Missing,
    Value(T),
    /// The store failed, or the value is not of the key's type.
    Unreadable,
}

impl<T> Stored<T> {
    /// What reading the key gives.
    pub open spec fn reading(self) -> AuthResult<Option<T>> {
        match self {
            Stored::Missing => Ok(None),
            Stored::Value(value) => Ok(Some(value)),
            Stored::Unreadable => Err(AuthError::SessionError),
        }
    }

    /// The value under the key.
    pub fn read(&self) -> (r: AuthResult<Option<&T>>)
        ensures
            match r {
                Ok(Some(value)) => self.reading() == Ok::<Option<T>, AuthError>(Some(*value)),
                Ok(None) => self.reading() == Ok::<Option<T>, AuthError>(None),
                Err(e) => self.reading() == Err::<Option<T>, AuthError>(e),
            },
    {
        match self {
            Stored::Missing => Ok(None),
            Stored::Value(value) => Ok(Some(value)),
            Stored::Unreadable => Err(AuthError::SessionError),
        }
    }
}

/// The login state of one visitor.
#[derive(Clone, Debug)]
pub struct LoginSession {
    /// Where to send the user after login.
    pub login_redirect_url: Stored<String>,
    pub flow: Stored<FerrisKeyFlow>,
    pub ferriskey_user_id: Stored<String>,
    pub login_email: Stored<String>,
    pub tos_pending_redirect: Stored<String>,
    pub otp_code: Stored<String>,
    pub otp_email: Stored<String>,
    pub otp_expires_at: Stored<i64>,
    pub otp_purpose: Stored<String>,
    pub otp_attempts: Stored<u32>,
    pub otp_last_sent_at: Stored<i64>,
    pub otp_resend_count: Stored<u32>,
    pub deferred_new_user: Stored<bool>,
    pub password_attempts: Stored<u32>,
    pub local_deferred_new_user: Stored<bool>,
    pub passkey_challenge: Stored<String>,
    pub passkey_user_id: Stored<String>,
}

/// The keys of the temporary login state.
#[derive(Clone, Copy, Debug, PartialEq, Eq, Structural)]
pub enum SessionKey {
    Flow,
    FerrisKeyUserId,
    LoginEmail,
    TosPendingRedirect,
    OtpCode,
    OtpEmail,
    OtpExpiresAt,
    OtpPurpose,
    OtpAttempts,
    OtpLastSentAt,
    OtpResendCount,
    DeferredNewUser,
    PasswordAttempts,
    LocalDeferredNewUser,
    PasskeyChallenge,
    PasskeyUserId,
}

impl SessionKey {
    /// The name of the key in the session.
    pub open spec fn spec_name(self) -> Seq<char> {
        match self {
            SessionKey::Flow => FLOW_KEY@,
            SessionKey::FerrisKeyUserId => FERRISKEY_USER_ID_KEY@,
            SessionKey::LoginEmail => LOGIN_EMAIL_KEY@,
            SessionKey::TosPendingRedirect => TOS_PENDING_REDIRECT_KEY@,
            SessionKey::OtpCode => CUSTOM_OTP_CODE_KEY@,
            SessionKey::OtpEmail => CUSTOM_OTP_EMAIL_KEY@,
            SessionKey::OtpExpiresAt => CUSTOM_OTP_EXPIRES_AT_KEY@,
            SessionKey::OtpPurpose => CUSTOM_OTP_PURPOSE_KEY@,
            SessionKey::OtpAttempts => CUSTOM_OTP_ATTEMPTS_KEY@,
            SessionKey::OtpLastSentAt => CUSTOM_OTP_LAST_SENT_AT_KEY@,
            SessionKey::OtpResendCount => CUSTOM_OTP_RESEND_COUNT_KEY@,
            SessionKey::DeferredNewUser => DEFERRED_NEW_USER_KEY@,
            SessionKey::PasswordAttempts => PASSWORD_ATTEMPTS_KEY@,
            SessionKey::LocalDeferredNewUser => LOCAL_DEFERRED_NEW_USER_KEY@,
            SessionKey::PasskeyChallenge => PASSKEY_CHALLENGE_KEY@,
            SessionKey::PasskeyUserId => PASSKEY_USER_ID_KEY@,
        }
    }

    /// The name of the key in the session.
    pub fn name(self) -> (r: &'static str)
        ensures
            r@ == self.spec_name(),
    {
        match self {
            SessionKey::Flow => FLOW_KEY,
            SessionKey::FerrisKeyUserId => FERRISKEY_USER_ID_KEY,
            SessionKey::LoginEmail => LOGIN_EMAIL_KEY,
            SessionKey::TosPendingRedirect => TOS_PENDING_REDIRECT_KEY,
            SessionKey::OtpCode => CUSTOM_OTP_CODE_KEY,
            SessionKey::OtpEmail => CUSTOM_OTP_EMAIL_KEY,
            SessionKey::OtpExpiresAt => CUSTOM_OTP_EXPIRES_AT_KEY,
            SessionKey::OtpPurpose => CUSTOM_OTP_PURPOSE_KEY,
            SessionKey::OtpAttempts => CUSTOM_OTP_ATTEMPTS_KEY,
            SessionKey::OtpLastSentAt => CUSTOM_OTP_LAST_SENT_AT_KEY,
            SessionKey::OtpResendCount => CUSTOM_OTP_RESEND_COUNT_KEY,
            SessionKey::DeferredNewUser => DEFERRED_NEW_USER_KEY,
            SessionKey::PasswordAttempts => PASSWORD_ATTEMPTS_KEY,
            SessionKey::LocalDeferredNewUser => LOCAL_DEFERRED_NEW_USER_KEY,
            SessionKey::PasskeyChallenge => PASSKEY_CHALLENGE_KEY,
            SessionKey::PasskeyUserId => PASSKEY_USER_ID_KEY,
        }
    }
}

/// `s` after its keys were removed one after the other, up to and with the first that cannot
/// be read back; and whether all of them could.
pub open spec fn removal(s: LoginSession, keys: Seq<SessionKey>) -> (LoginSession, bool)
    decreases keys.len(),
{
    if keys.len() == 0 {
        (s, true)
    } else if s.unreadable(keys[0]) {
        (s.without(keys[0]), false)
    } else {
        removal(s.without(keys[0]), keys.drop_first())
    }
}

impl LoginSession {
    /// The session of a visitor who has not started to log in.
    pub fn empty() -> (r: Self)
        ensures
            r == LoginSession::spec_empty(),
    {
        LoginSession {
            login_redirect_url: Stored::Missing,
            flow: Stored::Missing,
            ferriskey_user_id: Stored::Missing,
            login_email: Stored::Missing,
            tos_pending_redirect: Stored::Missing,
            otp_code: Stored::Missing,
            otp_email: Stored::Missing,
            otp_expires_at: Stored::Missing,
            otp_purpose: Stored::Missing,
            otp_attempts: Stored::Missing,
            otp_last_sent_at: Stored::Missing,
            otp_resend_count: Stored::Missing,
            deferred_new_user: Stored::Missing,
            password_attempts: Stored::Missing,
            local_deferred_new_user: Stored::Missing,
            passkey_challenge: Stored::Missing,
            passkey_user_id: Stored::Missing,
        }
    }

    /// The session that holds nothing.
    pub open spec fn spec_empty() -> Self {
        LoginSession {
            login_redirect_url: Stored::Missing,
            flow: Stored::Missing,
            ferriskey_user_id: Stored::Missing,
            login_email: Stored::Missing,
            tos_pending_redirect: Stored::Missing,
            otp_code: Stored::Missing,
            otp_email: Stored::Missing,
            otp_expires_at: Stored::Missing,
            otp_purpose: Stored::Missing,
            otp_attempts: Stored::Missing,
            otp_last_sent_at: Stored::Missing,
            otp_resend_count: Stored::Missing,
            deferred_new_user: Stored::Missing,
            password_attempts: Stored::Missing,
            local_deferred_new_user: Stored::Missing,
            passkey_challenge: Stored::Missing,
            passkey_user_id: Stored::Missing,
        }
    }

    /// Whether the value under `key` cannot be read back.
    pub open spec fn unreadable(self, key: SessionKey) -> bool {
        match key {
            SessionKey::Flow => self.flow is Unreadable,
            SessionKey::FerrisKeyUserId => self.ferriskey_user_id is Unreadable,
            SessionKey::LoginEmail => self.login_email is Unreadable,
            SessionKey::TosPendingRedirect => self.tos_pending_redirect is Unreadable,
            SessionKey::OtpCode => self.otp_code is Unreadable,
            SessionKey::OtpEmail => self.otp_email is Unreadable,
            SessionKey::OtpExpiresAt => self.otp_expires_at is Unreadable,
            SessionKey::OtpPurpose => self.otp_purpose is Unreadable,
            SessionKey::OtpAttempts => self.otp_attempts is Unreadable,
            SessionKey::OtpLastSentAt => self.otp_last_sent_at is Unreadable,
            SessionKey::OtpResendCount => self.otp_resend_count is Unreadable,
            SessionKey::DeferredNewUser => self.deferred_new_user is Unreadable,
            SessionKey::PasswordAttempts => self.password_attempts is Unreadable,
            SessionKey::LocalDeferredNewUser => self.local_deferred_new_user is Unreadable,
            SessionKey::PasskeyChallenge => self.passkey_challenge is Unreadable,
            SessionKey::PasskeyUserId => self.passkey_user_id is Unreadable,
        }
    }

    /// The session with nothing under `key`.
    pub open spec fn without(self, key: SessionKey) -> LoginSession {
        match key {
            SessionKey::Flow => LoginSession { flow: Stored::Missing, ..self },
            SessionKey::FerrisKeyUserId => LoginSession {
                ferriskey_user_id: Stored::Missing,
                ..self
            },
            SessionKey::LoginEmail => LoginSession { login_email: Stored::Missing, ..self },
            SessionKey::TosPendingRedirect => LoginSession {
                tos_pending_redirect: Stored::Missing,
                ..self
            },
            SessionKey::OtpCode => LoginSession { otp_code: Stored::Missing, ..self },
            SessionKey::OtpEmail => LoginSession { otp_email: Stored::Missing, ..self },
            SessionKey::OtpExpiresAt => LoginSession { otp_expires_at: Stored::Missing, ..self },
            SessionKey::OtpPurpose => LoginSession { otp_purpose: Stored::Missing, ..self },
            SessionKey::OtpAttempts => LoginSession { otp_attempts: Stored::Missing, ..self },
            SessionKey::OtpLastSentAt => LoginSession {
                otp_last_sent_at: Stored::Missing,
                ..self
            },
            SessionKey::OtpResendCount => LoginSession {
                otp_resend_count: Stored::Missing,
                ..self
            },
            SessionKey::DeferredNewUser => LoginSession {
                deferred_new_user: Stored::Missing,
                ..self
            },
            SessionKey::PasswordAttempts => LoginSession {
                password_attempts: Stored::Missing,
                ..self
            },
            SessionKey::LocalDeferredNewUser => LoginSession {
                local_deferred_new_user: Stored::Missing,
                ..self
            },
            SessionKey::PasskeyChallenge => LoginSession {
                passkey_challenge: Stored::Missing,
                ..self
            },
            SessionKey::PasskeyUserId => LoginSession {
                passkey_user_id: Stored::Missing,
                ..self
            },
        }
    }

    /// Remove the value under `key`. It is gone in either case; the error says that it could
    /// not be read back.
    pub fn remove(&mut self, key: SessionKey) -> (r: AuthResult<()>)
        ensures
            *final(self) == old(self).without(key),
            match r {
                Ok(_) => !old(self).unreadable(key),
                Err(e) => old(self).unreadable(key) && e == AuthError::SessionError,
            },
    {
        let unreadable = match key {
            SessionKey::Flow => {
                let u = matches!(self.flow, Stored::Unreadable);
                self.flow = Stored::Missing;
                u
            },
            SessionKey::FerrisKeyUserId => {
                let u = matches!(self.ferriskey_user_id, Stored::Unreadable);
                self.ferriskey_user_id = Stored::Missing;
                u
            },
            SessionKey::LoginEmail => {
                let u = matches!(self.login_email, Stored::Unreadable);
                self.login_email = Stored::Missing;
                u
            },
            SessionKey::TosPendingRedirect => {
                let u = matches!(self.tos_pending_redirect, Stored::Unreadable);
                self.tos_pending_redirect = Stored::Missing;
                u
            },
            SessionKey::OtpCode => {
                let u = matches!(self.otp_code, Stored::Unreadable);
                self.otp_code = Stored::Missing;
                u
            },
            SessionKey::OtpEmail => {
                let u = matches!(self.otp_email, Stored::Unreadable);
                self.otp_email = Stored::Missing;
                u
            },
            SessionKey::OtpExpiresAt => {
                let u = matches!(self.otp_expires_at, Stored::Unreadable);
                self.otp_expires_at = Stored::Missing;
                u
            },
            SessionKey::OtpPurpose => {
                let u = matches!(self.otp_purpose, Stored::Unreadable);
                self.otp_purpose = Stored::Missing;
                u
            },
            SessionKey::OtpAttempts => {
                let u = matches!(self.otp_attempts, Stored::Unreadable);
                self.otp_attempts = Stored::Missing;
                u
            },
            SessionKey::OtpLastSentAt => {
                let u = matches!(self.otp_last_sent_at, Stored::Unreadable);
                self.otp_last_sent_at = Stored::Missing;
                u
            },
            SessionKey::OtpResendCount => {
                let u = matches!(self.otp_resend_count, Stored::Unreadable);
                self.otp_resend_count = Stored::Missing;
                u
            },
            SessionKey::DeferredNewUser => {
                let u = matches!(self.deferred_new_user, Stored::Unreadable);
                self.deferred_new_user = Stored::Missing;
                u
            },
            SessionKey::PasswordAttempts => {
                let u = matches!(self.password_attempts, Stored::Unreadable);
                self.password_attempts = Stored::Missing;
                u
            },
            SessionKey::LocalDeferredNewUser => {
                let u = matches!(self.local_deferred_new_user, Stored::Unreadable);
                self.local_deferred_new_user = Stored::Missing;
                u
            },
            SessionKey::PasskeyChallenge => {
                let u = matches!(self.passkey_challenge, Stored::Unreadable);
                self.passkey_challenge = Stored::Missing;
                u
            },
            SessionKey::PasskeyUserId => {
                let u = matches!(self.passkey_user_id, Stored::Unreadable);
                self.passkey_user_id = Stored::Missing;
                u
            },
        };
        if unreadable {
            Err(AuthError::SessionError)
        } else {
            Ok(())
        }
    }

    /// Remove the values under `keys`, one after the other, and stop at the first that could
    /// not be read back.
    pub fn remove_each(&mut self, keys: &[SessionKey]) -> (r: AuthResult<()>)
        ensures
            *final(self) == removal(*old(self), keys@).0,
            match r {
                Ok(_) => removal(*old(self), keys@).1,
                Err(e) => !removal(*old(self), keys@).1 && e == AuthError::SessionError,
            },
    {
        let ghost start = *self;
        let mut i: usize = 0;
        assert(keys@.skip(0) =~= keys@);
        while i < keys.len()
            invariant
                start == *old(self),
                i <= keys@.len(),
                removal(start, keys@) == removal(*self, keys@.skip(i as int)),
            decreases keys@.len() - i,
        {
            let ghost before = *self;
            assert(keys@.skip(i as int)[0] == keys@[i as int]);
            assert(keys@.skip(i as int).drop_first() =~= keys@.skip(i + 1));
            match self.remove(keys[i]) {
                Ok(_) => {},
                Err(e) => {
                    return Err(e);
                },
            }
            i = i + 1;
        }
        Ok(())
    }
}

/// What reading a key gives is what the session holds under it: the value, nothing, or an error
/// where the value cannot be had.
pub proof fn law_reading_gives_what_is_stored<T>(value: T)
    ensures
        Stored::Value(value).reading() == Ok::<Option<T>, AuthError>(Some(value)),
        Stored::<T>::Missing.reading() == Ok::<Option<T>, AuthError>(None),
        Stored::<T>::Unreadable.reading() == Err::<Option<T>, AuthError>(AuthError::SessionError),
{
}

/// The session stores each value under a name of its own.
pub proof fn law_keys_have_their_names()
    ensures
        SessionKey::Flow.spec_name() == "ferriskey.flow"@,
        SessionKey::FerrisKeyUserId.spec_name() == "ferriskey.user_id"@,
        SessionKey::LoginEmail.spec_name() == "login.email"@,
        SessionKey::TosPendingRedirect.spec_name() == "tos.pending_redirect"@,
        SessionKey::OtpCode.spec_name() == "custom_otp.code"@,
        SessionKey::OtpEmail.spec_name() == "custom_otp.email"@,
        SessionKey::OtpExpiresAt.spec_name() == "custom_otp.expires_at"@,
        SessionKey::OtpPurpose.spec_name() == "custom_otp.purpose"@,
        SessionKey::OtpAttempts.spec_name() == "custom_otp.attempts"@,
        SessionKey::OtpLastSentAt.spec_name() == "custom_otp.last_sent_at"@,
        SessionKey::OtpResendCount.spec_name() == "custom_otp.resend_count"@,
        SessionKey::DeferredNewUser.spec_name() == "ferriskey.deferred_new_user"@,
        SessionKey::PasswordAttempts.spec_name() == "password.attempts"@,
        SessionKey::LocalDeferredNewUser.spec_name() == "login.deferred_new_user"@,
        SessionKey::PasskeyChallenge.spec_name() == "passkey.challenge"@,
        SessionKey::PasskeyUserId.spec_name() == "passkey.user_id"@,
{
}

/// Removing a key empties that key, and leaves what is stored under every other one.
pub proof fn law_removing_a_key_empties_that_key_only(s: LoginSession)
    ensures
        s.without(SessionKey::Flow) == (LoginSession { flow: Stored::Missing, ..s }),
        s.without(SessionKey::FerrisKeyUserId) == (LoginSession { ferriskey_user_id: Stored::Missing, ..s }),
        s.without(SessionKey::LoginEmail) == (LoginSession { login_email: Stored::Missing, ..s }),
        s.without(SessionKey::TosPendingRedirect) == (LoginSession { tos_pending_redirect: Stored::Missing, ..s }),
        s.without(SessionKey::OtpCode) == (LoginSession { otp_code: Stored::Missing, ..s }),
        s.without(SessionKey::OtpEmail) == (LoginSession { otp_email: Stored::Missing, ..s }),
        s.without(SessionKey::OtpExpiresAt) == (LoginSession { otp_expires_at: Stored::Missing, ..s }),
        s.without(SessionKey::OtpPurpose) == (LoginSession { otp_purpose: Stored::Missing, ..s }),
        s.without(SessionKey::OtpAttempts) == (LoginSession { otp_attempts: Stored::Missing, ..s }),
        s.without(SessionKey::OtpLastSentAt) == (LoginSession { otp_last_sent_at: Stored::Missing, ..s }),
        s.without(SessionKey::OtpResendCount) == (LoginSession { otp_resend_count: Stored::Missing, ..s }),
        s.without(SessionKey::DeferredNewUser) == (LoginSession { deferred_new_user: Stored::Missing, ..s }),
        s.without(SessionKey::PasswordAttempts) == (LoginSession { password_attempts: Stored::Missing, ..s }),
        s.without(SessionKey::LocalDeferredNewUser) == (LoginSession { local_deferred_new_user: Stored::Missing, ..s }),
        s.without(SessionKey::PasskeyChallenge) == (LoginSession { passkey_challenge: Stored::Missing, ..s }),
        s.without(SessionKey::PasskeyUserId) == (LoginSession { passkey_user_id: Stored::Missing, ..s }),
{
}

/// A removal reports a value that cannot be read back under that very key.
pub proof fn law_unreadable_values_are_found_by_their_key(s: LoginSession)
    ensures
        s.unreadable(SessionKey::Flow) == (s.flow is Unreadable),
        s.unreadable(SessionKey::FerrisKeyUserId) == (s.ferriskey_user_id is Unreadable),
        s.unreadable(SessionKey::LoginEmail) == (s.login_email is Unreadable),
        s.unreadable(SessionKey::TosPendingRedirect) == (s.tos_pending_redirect is Unreadable),
        s.unreadable(SessionKey::OtpCode) == (s.otp_code is Unreadable),
        s.unreadable(SessionKey::OtpEmail) == (s.otp_email is Unreadable),
        s.unreadable(SessionKey::OtpExpiresAt) == (s.otp_expires_at is Unreadable),
        s.unreadable(SessionKey::OtpPurpose) == (s.otp_purpose is Unreadable),
        s.unreadable(SessionKey::OtpAttempts) == (s.otp_attempts is Unreadable),
        s.unreadable(SessionKey::OtpLastSentAt) == (s.otp_last_sent_at is Unreadable),
        s.unreadable(SessionKey::OtpResendCount) == (s.otp_resend_count is Unreadable),
        s.unreadable(SessionKey::DeferredNewUser) == (s.deferred_new_user is Unreadable),
        s.unreadable(SessionKey::PasswordAttempts) == (s.password_attempts is Unreadable),
        s.unreadable(SessionKey::LocalDeferredNewUser) == (s.local_deferred_new_user is Unreadable),
        s.unreadable(SessionKey::PasskeyChallenge) == (s.passkey_challenge is Unreadable),
        s.unreadable(SessionKey::PasskeyUserId) == (s.passkey_user_id is Unreadable),
{
}

/// A removal of several keys succeeds exactly where each of their values can be read back.
pub proof fn law_removal_succeeds_where_all_can_be_read(s: LoginSession, keys: Seq<SessionKey>)
    ensures
        removal(s, keys).1 <==> (forall|i: int|
            0 <= i < keys.len() ==> !s.unreadable(#[trigger] keys[i])),
    decreases keys.len(),
{
    if keys.len() > 0 {
        let rest = keys.drop_first();
        let t = s.without(keys[0]);
        law_removal_succeeds_where_all_can_be_read(t, rest);
        assert forall|k: SessionKey| #[trigger] t.unreadable(k) == (s.unreadable(k) && k
            != keys[0]) by {}
        if s.unreadable(keys[0]) {
        } else {
            if removal(s, keys).1 {
                assert forall|i: int| 0 <= i < keys.len() implies !s.unreadable(
                    #[trigger] keys[i],
                ) by {
                    if i > 0 {
                        assert(rest[i - 1] == keys[i]);
                    }
                }
            }
            if forall|i: int| 0 <= i < keys.len() ==> !s.unreadable(#[trigger] keys[i]) {
                assert forall|i: int| 0 <= i < rest.len() implies !t.unreadable(
                    #[trigger] rest[i],
                ) by {
                    assert(rest[i] == keys[i + 1]);
                }
            }
        }
    }
}

/// A removal goes key by key, and ends with the first key whose value cannot be read back.
pub proof fn law_removal_goes_key_by_key(s: LoginSession, key: SessionKey, rest: Seq<SessionKey>)
    ensures
        removal(s, Seq::empty()) == (s, true),
        s.unreadable(key) ==> removal(s, seq![key] + rest) == (s.without(key), false),
        !s.unreadable(key) ==> removal(s, seq![key] + rest) == removal(s.without(key), rest),
{
    assert((seq![key] + rest).drop_first() =~= rest);
}

} // verus!
