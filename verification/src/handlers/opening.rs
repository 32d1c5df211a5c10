//! How a session becomes the session of a logged-in user.

use vstd::prelude::*;

use crate::error::{AuthError, AuthResult};
use crate::text::{before_first_at, local_part_of};
use crate::types::{AuthUser, LoggedInData};

verus! {

/// Give the session a new id: one that was planted before the login must not become an
/// authenticated one.
#[derive(Debug)]
pub struct CycleId {
    pub user: AuthUser,
    pub data: LoggedInData,
}

/// Put `data` into the session as the logged-in user.
#[derive(Debug)]
pub struct LogIn {
    pub user: AuthUser,
    pub data: LoggedInData,
}

/// Record the login of the account.
#[derive(Debug)]
pub struct RecordLogin {
    pub user: AuthUser,
}

/// What a user is called: by the display name, else by the address up to its `@`.
pub open spec fn username_of(display_name: Option<String>, email: Seq<char>) -> Seq<char> {
    match display_name {
        Some(name) if name@.len() > 0 => name@,
        _ => before_first_at(email),
    }
}

/// The name to call a user by.
pub fn username(display_name: &Option<String>, email: &str) -> (r: String)
    ensures
        r@ == username_of(*display_name, email@),
{
    match display_name {
        Some(name) => {
            if name.as_str().is_empty() {
                local_part_of(email).to_owned()
            } else {
                name.clone()
            }
        },
        None => local_part_of(email).to_owned(),
    }
}

/// `data` is what the session holds of `user`, who logged in with `email` by the way `token`.
pub open spec fn session_data_of(
    data: LoggedInData,
    user: AuthUser,
    email: Seq<char>,
    token: Seq<char>,
) -> bool {
    &&& data.id == user.id
    &&& data.sub == user.sub
    &&& data.email == user.email
    &&& data.username@ == username_of(user.display_name, email)
    &&& data.avatar_url is None
    &&& data.id_token@ == token
}

/// Open the session of `user`, who logged in with `email` by the way `token`.
pub(crate) fn open_session(user: AuthUser, email: &str, token: &str) -> (r: CycleId)
    ensures
        r.user == user,
        session_data_of(r.data, user, email@, token@),
        r.data.id == user.id,
        r.data.sub == user.sub,
        r.data.email == user.email,
{
    let data = LoggedInData {
        id: user.id.clone(),
        sub: user.sub.clone(),
        email: user.email.clone(),
        username: username(&user.display_name, email),
        avatar_url: None,
        id_token: token.to_owned(),
    };
    CycleId { user, data }
}

impl CycleId {
    /// Log in under the new id.
    pub fn resume(self, outcome: AuthResult<()>) -> (r: AuthResult<LogIn>)
        ensures
            match outcome {
                Err(e) => r == Err::<LogIn, AuthError>(e),
                Ok(_) => r == Ok::<LogIn, AuthError>(LogIn { user: self.user, data: self.data }),
            },
    {
        match outcome {
            Err(e) => Err(e),
            Ok(_) => Ok(LogIn { user: self.user, data: self.data }),
        }
    }
}

impl LogIn {
    /// Record the login.
    pub fn resume(self, outcome: AuthResult<()>) -> (r: AuthResult<RecordLogin>)
        ensures
            match outcome {
                Err(e) => r == Err::<RecordLogin, AuthError>(e),
                Ok(_) => r == Ok::<RecordLogin, AuthError>(RecordLogin { user: self.user }),
            },
    {
        match outcome {
            Err(e) => Err(e),
            Ok(_) => Ok(RecordLogin { user: self.user }),
        }
    }
}

/// After a login the session data are those of the account that logged in: its id, its subject
/// and its address, with the name to call the user by and the way of the login.
pub proof fn law_session_data_are_the_accounts(
    data: LoggedInData,
    user: AuthUser,
    email: Seq<char>,
    token: Seq<char>,
)
    requires
        session_data_of(data, user, email, token),
    ensures
        data.id@ == user.id@,
        data.sub@ == user.sub@,
        data.email@ == user.email@,
        data.avatar_url is None,
        data.id_token@ == token,
        data.username@ == username_of(user.display_name, email),
{
}

/// A user with a name is called by it. One without is called by what precedes the first `@` of
/// the address.
pub proof fn law_users_are_called_by_their_name(
    display_name: Option<String>,
    local: Seq<char>,
    host: Seq<char>,
)
    requires
        !local.contains('@'),
    ensures
        (display_name matches Some(name) && name@.len() > 0) ==> username_of(
            display_name,
            local + seq!['@'] + host,
        ) == display_name->Some_0@,
        !(display_name matches Some(name) && name@.len() > 0) ==> username_of(
            display_name,
            local + seq!['@'] + host,
        ) == local && username_of(display_name, local) == local,
{
    crate::text::law_local_part_precedes_the_first_at(local, host);
}

} // verus!
