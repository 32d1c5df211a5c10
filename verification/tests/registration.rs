use dx_auth::config::AuthConfig;
use dx_auth::handlers::registration::{
    registration_allowed, registration_allowed_given, registration_permitted, RegistrationGate,
};

fn v(items: &[&str]) -> Vec<String> {
    items.iter().map(|s| s.to_string()).collect()
}

#[test]
fn no_allowlist_permits_only_the_first_account() {
    // Fresh deployment (no users yet): the first registration is allowed.
    assert!(registration_permitted(&[], &[], "first@example.com", false));
    // Once a user exists, registration closes.
    assert!(!registration_permitted(
        &[],
        &[],
        "second@example.com",
        true
    ));
}

#[test]
fn email_allowlist_is_exact_match() {
    let emails = v(&["ops@example.com"]);
    assert!(registration_permitted(
        &emails,
        &[],
        "ops@example.com",
        true
    ));
    assert!(!registration_permitted(
        &emails,
        &[],
        "intruder@example.com",
        false
    ));
    // No substring or suffix matching.
    assert!(!registration_permitted(
        &emails,
        &[],
        "notops@example.com",
        false
    ));
}

#[test]
fn domain_allowlist_matches_the_part_after_the_at() {
    let domains = v(&["example.com"]);
    assert!(registration_permitted(
        &[],
        &domains,
        "anyone@example.com",
        true
    ));
    assert!(!registration_permitted(
        &[],
        &domains,
        "anyone@evil.com",
        false
    ));
    // A domain that is only a suffix of the address's domain must not match.
    assert!(!registration_permitted(
        &[],
        &domains,
        "anyone@notexample.com",
        false
    ));
}

#[test]
fn a_configured_allowlist_ignores_the_bootstrap_rule() {
    // With an allowlist set, has_users is not consulted: a non-listed address
    // is refused even on a brand-new instance with no users.
    let emails = v(&["ops@example.com"]);
    assert!(!registration_permitted(
        &emails,
        &[],
        "someone@example.com",
        false
    ));
}

#[test]
fn email_and_domain_allowlists_combine() {
    let emails = v(&["contractor@other.com"]);
    let domains = v(&["example.com"]);
    assert!(registration_permitted(
        &emails,
        &domains,
        "staff@example.com",
        true
    ));
    assert!(registration_permitted(
        &emails,
        &domains,
        "contractor@other.com",
        true
    ));
    assert!(!registration_permitted(
        &emails,
        &domains,
        "stranger@other.com",
        true
    ));
}

#[test]
fn the_domain_is_what_follows_the_last_at() {
    let domains = v(&["example.com", "bare"]);
    assert!(registration_permitted(&[], &domains, "\"a@b\"@example.com", true));
    assert!(!registration_permitted(&[], &domains, "a@example.com@evil.com", true));
    // Without an at sign the whole text is compared.
    assert!(registration_permitted(&[], &domains, "bare", true));
    assert!(!registration_permitted(&[], &domains, "anyone@", true));
    assert!(registration_permitted(&[], &v(&[""]), "anyone@", true));
    assert!(registration_permitted(&[], &v(&["exämple.com"]), "ü@exämple.com", true));
}

#[test]
fn extending_an_allowlist_shuts_nobody_out() {
    let emails = v(&["ops@example.com"]);
    let more = v(&["ops@example.com", "other@example.com"]);
    let domains = v(&["example.org"]);
    assert!(registration_permitted(&emails, &[], "ops@example.com", true));
    assert!(registration_permitted(&more, &domains, "ops@example.com", true));
}

#[test]
fn the_store_is_asked_only_without_an_allowlist() {
    let mut config = AuthConfig::default();
    assert_eq!(
        registration_allowed(&config, "first@example.com"),
        RegistrationGate::AskForUsers
    );
    assert!(registration_allowed_given(&config, "first@example.com", false));
    assert!(!registration_allowed_given(&config, "first@example.com", true));

    config.allowed_registration_domains = v(&["example.com"]);
    assert_eq!(
        registration_allowed(&config, "first@example.com"),
        RegistrationGate::Decided(true)
    );
    assert_eq!(
        registration_allowed(&config, "first@example.org"),
        RegistrationGate::Decided(false)
    );
    assert!(registration_allowed_given(&config, "first@example.com", true));
}
