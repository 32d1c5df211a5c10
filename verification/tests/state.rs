use dx_auth::state::{AuthState, JwksCache};
use std::sync::Arc;

#[test]
fn the_local_state_has_no_provider_and_no_shared_limiter() {
    let state: AuthState<str, u8, u16, [u8]> =
        AuthState::local(Arc::from("users"), Arc::new(1), Arc::from(vec![1u8, 2]));
    assert_eq!(&*state.user_store, "users");
    assert_eq!(*state.email_sender, 1);
    assert_eq!(&*state.passkey_store, &[1u8, 2]);
    assert!(state.rate_limit_store.is_none());
    assert_eq!(state.jwks_cache.url, "");
    assert_eq!(state.jwks_cache.client_id, "");
}

#[test]
fn a_key_set_keeps_what_it_is_for() {
    let keys = JwksCache::new("https://id.example", "https://issuer.example", "realm", "app");
    assert_eq!(keys.url, "https://id.example");
    assert_eq!(keys.issuer_url, "https://issuer.example");
    assert_eq!(keys.realm, "realm");
    assert_eq!(keys.client_id, "app");
}

#[test]
fn a_copy_of_the_state_shares_its_stores() {
    let mut state: AuthState<str, u8, u16, [u8]> =
        AuthState::local(Arc::from("users"), Arc::new(1), Arc::from(vec![1u8, 2]));
    state.rate_limit_store = Some(Arc::new(9));
    let copy = state.clone();
    assert!(Arc::ptr_eq(&copy.user_store, &state.user_store));
    assert!(Arc::ptr_eq(&copy.email_sender, &state.email_sender));
    assert!(Arc::ptr_eq(&copy.jwks_cache, &state.jwks_cache));
    assert!(Arc::ptr_eq(&copy.passkey_store, &state.passkey_store));
    assert_eq!(copy.rate_limit_store.as_deref(), Some(&9));
}
