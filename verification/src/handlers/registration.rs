//! Who may create an account.

use vstd::prelude::*;

use crate::config::AuthConfig;
use crate::text::{after_last_at, domain_of, holds_text};

verus! {

/// Whether `list` holds `text`.
pub open spec fn listed(list: Seq<String>, text: Seq<char>) -> bool {
    exists|i: int| 0 <= i < list.len() && #[trigger] list[i]@ == text
}

/// Whether a not yet registered address may create an account: with no allowlist only while
/// there is no user yet, else where the address or its domain is listed.
pub open spec fn may_register(
    emails: Seq<String>,
    domains: Seq<String>,
    email: Seq<char>,
    has_users: bool,
) -> bool {
    if emails.len() == 0 && domains.len() == 0 {
        !has_users
    } else {
        listed(emails, email) || listed(domains, after_last_at(email))
    }
}

/// Whether the decision needs to know if any user exists.
pub open spec fn depends_on_users(config: AuthConfig) -> bool {
    config.allowed_registration_emails@.len() == 0
        && config.allowed_registration_domains@.len() == 0
}

/// [`may_register`] under the allowlists of `config`.
pub open spec fn open_to(config: AuthConfig, email: Seq<char>, has_users: bool) -> bool {
    may_register(
        config.allowed_registration_emails@,
        config.allowed_registration_domains@,
        email,
        has_users,
    )
}

/// The allowlist decision. `email` is compared as it is; callers pass it trimmed and in lower
/// case. `has_users` matters only where both allowlists are empty.
pub fn registration_permitted(
    emails: &[String],
    domains: &[String],
    email: &str,
    has_users: bool,
) -> (r: bool)
    ensures
        r == may_register(emails@, domains@, email@, has_users),
{
    if emails.len() == 0 && domains.len() == 0 {
        return !has_users;
    }
    if holds_text(emails, email) {
        return true;
    }
    holds_text(domains, domain_of(email))
}

/// How far the registration question is settled.
#[derive(Clone, Copy, Debug, PartialEq, Eq, Structural)]
pub enum RegistrationGate {
    /// No allowlist: whether any user exists decides, so the store has to be asked.
    AskForUsers,
    /// An allowlist decides, and this is what it says.
    Decided(bool),
}

/// Whether `email` may create an account, as far as the configuration alone can tell.
pub fn registration_allowed(config: &AuthConfig, email: &str) -> (r: RegistrationGate)
    ensures
        match r {
            RegistrationGate::AskForUsers => depends_on_users(*config),
            RegistrationGate::Decided(b) => {
                &&& !depends_on_users(*config)
                &&& forall|has_users: bool| b == #[trigger] open_to(*config, email@, has_users)
            },
        },
{
    let emails = config.allowed_registration_emails.as_slice();
    let domains = config.allowed_registration_domains.as_slice();
    if emails.len() == 0 && domains.len() == 0 {
        RegistrationGate::AskForUsers
    } else {
        RegistrationGate::Decided(registration_permitted(emails, domains, email, false))
    }
}

/// The decision once the store has said whether any user exists.
pub fn registration_allowed_given(config: &AuthConfig, email: &str, has_users: bool) -> (r: bool)
    ensures
        r == open_to(*config, email@, has_users),
{
    registration_permitted(
        config.allowed_registration_emails.as_slice(),
        config.allowed_registration_domains.as_slice(),
        email,
        has_users,
    )
}

/// Without an allowlist registration is open to anybody until the first account exists, and
/// closed to everybody from then on.
pub proof fn law_closed_by_default(email: Seq<char>)
    ensures
        may_register(Seq::empty(), Seq::empty(), email, false),
        !may_register(Seq::empty(), Seq::empty(), email, true),
{
}

/// With an allowlist it does not matter whether any user exists.
pub proof fn law_allowlist_ignores_the_bootstrap_rule(
    emails: Seq<String>,
    domains: Seq<String>,
    email: Seq<char>,
)
    requires
        emails.len() > 0 || domains.len() > 0,
    ensures
        may_register(emails, domains, email, true) == may_register(emails, domains, email, false),
{
}

/// Extending an allowlist that is not empty shuts nobody out who was admitted.
pub proof fn law_allowlists_only_add(
    emails: Seq<String>,
    domains: Seq<String>,
    more_emails: Seq<String>,
    more_domains: Seq<String>,
    email: Seq<char>,
    has_users: bool,
)
    requires
        emails.len() > 0 || domains.len() > 0,
        may_register(emails, domains, email, has_users),
    ensures
        may_register(emails + more_emails, domains + more_domains, email, has_users),
{
    if listed(emails, email) {
        let i = choose|i: int| 0 <= i < emails.len() && #[trigger] emails[i]@ == email;
        assert((emails + more_emails)[i]@ == email);
    } else {
        let d = after_last_at(email);
        let i = choose|i: int| 0 <= i < domains.len() && #[trigger] domains[i]@ == d;
        assert((domains + more_domains)[i]@ == d);
    }
}

/// A listed domain admits exactly the addresses whose text after the last `@` is that domain:
/// no other suffix of an address counts.
pub proof fn law_domain_is_matched_whole(domain: String, user: Seq<char>, host: Seq<char>)
    requires
        !host.contains('@'),
    ensures
        may_register(Seq::empty(), seq![domain], user + seq!['@'] + host, true) <==> host
            == domain@,
{
    lemma_after_at(user, host);
    assert(seq![domain][0]@ == domain@);
}

proof fn lemma_after_at(user: Seq<char>, host: Seq<char>)
    requires
        !host.contains('@'),
    ensures
        after_last_at(user + seq!['@'] + host) == host,
    decreases host.len(),
{
    let s = user + seq!['@'] + host;
    if host.len() == 0 {
        assert(s.last() == '@');
    } else {
        let shorter = host.drop_last();
        assert(s.drop_last() =~= user + seq!['@'] + shorter);
        assert forall|i: int| 0 <= i < shorter.len() implies shorter[i] != '@' by {
            assert(host.contains(host[i]));
        }
        assert(s.last() == host.last());
        assert(host.contains(host.last()));
        lemma_after_at(user, shorter);
        assert(shorter.push(host.last()) =~= host);
    }
}

/// Who may register, address by address: without any allowlist whoever comes while there is no
/// user; with one whoever is listed, or whose domain is.
pub proof fn law_registration_is_for_the_listed(
    emails: Seq<String>,
    domains: Seq<String>,
    user: Seq<char>,
    host: Seq<char>,
    has_users: bool,
)
    requires
        !host.contains('@'),
    ensures
        ({
            let email = user + seq!['@'] + host;
            may_register(emails, domains, email, has_users) <==> if emails.len() == 0
                && domains.len() == 0 {
                !has_users
            } else {
                ||| exists|i: int| 0 <= i < emails.len() && #[trigger] emails[i]@ == email
                ||| exists|i: int| 0 <= i < domains.len() && #[trigger] domains[i]@ == host
            }
        }),
{
    crate::text::law_domain_follows_the_last_at(user, host);
}

/// The allowlists are those of the configuration, and the user store matters only without them.
pub proof fn law_configuration_holds_the_allowlists(
    config: AuthConfig,
    email: Seq<char>,
    has_users: bool,
)
    ensures
        depends_on_users(config) <==> config.allowed_registration_emails@.len() == 0
            && config.allowed_registration_domains@.len() == 0,
        depends_on_users(config) ==> open_to(config, email, has_users) == !has_users,
        !depends_on_users(config) ==> open_to(config, email, true) == open_to(config, email, false),
        (exists|i: int|
            0 <= i < config.allowed_registration_emails@.len()
                && #[trigger] config.allowed_registration_emails@[i]@ == email) ==> open_to(
            config,
            email,
            has_users,
        ),
        open_to(config, email, has_users) == may_register(
            config.allowed_registration_emails@,
            config.allowed_registration_domains@,
            email,
            has_users,
        ),
{
}

} // verus!
