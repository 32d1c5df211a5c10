//! The errors that a login request is answered with.

use vstd::prelude::*;

verus! {

/// Why a request was not served.
#[derive(Clone, Debug)]
pub enum AuthError {
    /// The request does not fit the state of the login.
    BadRequest(String),
    /// The caller may not do this.
    Unauthorized(String),
    /// Something on this side, or behind it, failed.
    ServerStateError(String),
    /// The session store failed, or holds a value that cannot be read back.
    SessionError,
    /// The request needs a logged-in user and there is none.
    UserNotLoggedIn,
}

pub type AuthResult<T> = Result<T, AuthError>;

impl AuthError {
    /// A `BadRequest` with this message.
    pub open spec fn bad_request(self, message: Seq<char>) -> bool {
        self matches AuthError::BadRequest(m) && m@ == message
    }

    /// An `Unauthorized` with this message.
    pub open spec fn unauthorized(self, message: Seq<char>) -> bool {
        self matches AuthError::Unauthorized(m) && m@ == message
    }

    /// A `ServerStateError` with this message.
    pub open spec fn server_state(self, message: Seq<char>) -> bool {
        self matches AuthError::ServerStateError(m) && m@ == message
    }
}

pub(crate) fn bad_request(message: &str) -> (e: AuthError)
    ensures
        e.bad_request(message@),
{
    AuthError::BadRequest(message.to_owned())
}

pub(crate) fn unauthorized(message: &str) -> (e: AuthError)
    ensures
        e.unauthorized(message@),
{
    AuthError::Unauthorized(message.to_owned())
}

pub(crate) fn server_state(message: &str) -> (e: AuthError)
    ensures
        e.server_state(message@),
{
    AuthError::ServerStateError(message.to_owned())
}

/// Each kind of error is recognised by its kind and its message, and by nothing else.
pub proof fn law_errors_are_told_apart(e: AuthError, message: Seq<char>)
    ensures
        e.bad_request(message) <==> (e matches AuthError::BadRequest(m) && m@ == message),
        e.unauthorized(message) <==> (e matches AuthError::Unauthorized(m) && m@ == message),
        e.server_state(message) <==> (e matches AuthError::ServerStateError(m) && m@ == message),
{
}

} // verus!
