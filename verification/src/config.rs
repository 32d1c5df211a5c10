//! The settings that the login flows read.

use vstd::prelude::*;

verus! {

/// Settings of an application's login.
#[derive(Clone, Debug)]
pub struct AuthConfig {
    pub ferriskey_url: String,
    pub ferriskey_realm: String,
    pub ferriskey_client_id: String,
    pub ferriskey_client_secret: Option<String>,
    pub base_url: String,
    /// Addresses that may register.
    pub allowed_registration_emails: Vec<String>,
    /// Domains whose addresses may register.
    pub allowed_registration_domains: Vec<String>,
}

impl Default for AuthConfig {
    fn default() -> (r: Self)
        ensures
            r.ferriskey_url@.len() == 0,
            r.ferriskey_realm@.len() == 0,
            r.ferriskey_client_id@.len() == 0,
            r.ferriskey_client_secret is None,
            r.base_url@.len() == 0,
            r.allowed_registration_emails@.len() == 0,
            r.allowed_registration_domains@.len() == 0,
    {
        AuthConfig {
            ferriskey_url: String::new(),
            ferriskey_realm: String::new(),
            ferriskey_client_id: String::new(),
            ferriskey_client_secret: None,
            base_url: String::new(),
            allowed_registration_emails: Vec::new(),
            allowed_registration_domains: Vec::new(),
        }
    }
}

} // verus!
