//! What the login endpoints share: the application's stores and its mail.

use std::sync::Arc;
use vstd::prelude::*;

verus! {

/// The key set of an identity provider. It is lazy: nothing is fetched until a token is to be
/// validated.
#[derive(Debug)]
pub struct JwksCache {
    pub url: String,
    pub issuer_url: String,
    pub realm: String,
    pub client_id: String,
}

impl JwksCache {
    /// The key set of a realm, for tokens of this issuer and audience.
    pub fn new(url: &str, issuer_url: &str, realm: &str, client_id: &str) -> (r: Self)
        ensures
            r.url@ == url@,
            r.issuer_url@ == issuer_url@,
            r.realm@ == realm@,
            r.client_id@ == client_id@,
    {
        JwksCache {
            url: url.to_owned(),
            issuer_url: issuer_url.to_owned(),
            realm: realm.to_owned(),
            client_id: client_id.to_owned(),
        }
    }

    /// No provider at all.
    pub open spec fn inert(self) -> bool {
        &&& self.url@.len() == 0
        &&& self.issuer_url@.len() == 0
        &&& self.realm@.len() == 0
        &&& self.client_id@.len() == 0
    }
}

/// The application's side of the login endpoints. What the stores and the mail are is the
/// application's choice: the endpoints' decisions take what they answer.
#[derive(Debug)]
pub struct AuthState<U: ?Sized, E: ?Sized, L: ?Sized, P: ?Sized> {
    pub user_store: Arc<U>,
    pub email_sender: Arc<E>,
    pub jwks_cache: Arc<JwksCache>,
    /// A shared store for rate limiting. Without it each process counts for itself.
    pub rate_limit_store: Option<Arc<L>>,
    pub passkey_store: Arc<P>,
}

impl<U: ?Sized, E: ?Sized, L: ?Sized, P: ?Sized> Clone for AuthState<U, E, L, P> {
    fn clone(&self) -> (r: Self)
        ensures
            r == *self,
    {
        AuthState {
            user_store: self.user_store.clone(),
            email_sender: self.email_sender.clone(),
            jwks_cache: self.jwks_cache.clone(),
            rate_limit_store: match &self.rate_limit_store {
                Some(store) => Some(store.clone()),
                None => None,
            },
            passkey_store: self.passkey_store.clone(),
        }
    }
}

impl<U: ?Sized, E: ?Sized, L: ?Sized, P: ?Sized> AuthState<U, E, L, P> {
    /// The state of the self-owned login flow: no identity provider, so a key set that names
    /// none. A shared rate limit store can be set afterwards.
    pub fn local(user_store: Arc<U>, email_sender: Arc<E>, passkey_store: Arc<P>) -> (r: Self)
        ensures
            r.user_store == user_store,
            r.email_sender == email_sender,
            r.jwks_cache.inert(),
            r.rate_limit_store is None,
            r.passkey_store == passkey_store,
    {
        proof {
            reveal_strlit("");
        }
        AuthState {
            user_store,
            email_sender,
            jwks_cache: Arc::new(JwksCache::new("", "", "", "")),
            rate_limit_store: None,
            passkey_store,
        }
    }
}

} // verus!
