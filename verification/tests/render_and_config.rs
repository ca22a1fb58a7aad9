//! Rendering of search results, worker decision functions, and configuration
//! defaults.

use std::collections::HashMap;

use ldap3::SearchEntry;
use libreidp::config::CacheConfiguration;
use libreidp::config::HttpConfiguration;
use libreidp::config::IdPConfiguration;
use libreidp::config::LdapConfiguration;
use libreidp::outcome::ErrorKind;
use libreidp::outcome::Outcome;
use libreidp::render::concat_strings;
use libreidp::render::render_entries;
use libreidp::worker::BackendState;
use libreidp::worker::ExecEvent;
use libreidp::worker::classify;
use libreidp::worker::unavailable_outcome;

fn entry(dn: &str) -> SearchEntry {
    let mut attrs = HashMap::new();
    attrs.insert(
        String::from("objectClass"),
        vec![String::from("inetOrgPerson")],
    );
    SearchEntry {
        dn: String::from(dn),
        attrs,
        bin_attrs: HashMap::new(),
    }
}

#[test]
fn concat_is_the_exact_concatenation() {
    let parts = vec![
        String::from("dn: one\n"),
        String::from(""),
        String::from("dn: two\n"),
    ];
    assert_eq!(concat_strings(&parts), "dn: one\ndn: two\n");
    let empty: Vec<String> = Vec::new();
    assert_eq!(concat_strings(&empty), "");
}

#[test]
fn rendered_result_has_one_line_per_entry() {
    let entries = vec![entry("uid=a,dc=example,dc=org"), entry("uid=b,dc=example,dc=org")];
    let body = render_entries(&entries);
    assert!(body.len() >= entries.len());
    assert!(body.ends_with('\n'));
    // The rendered body carries each entry's data, in order.
    let first = body.find("uid=a,dc=example,dc=org").expect("first entry rendered");
    let second = body.find("uid=b,dc=example,dc=org").expect("second entry rendered");
    assert!(first < second);
    assert!(body.contains("inetOrgPerson"));
}

#[test]
fn rendering_no_entries_gives_an_empty_body() {
    let entries: Vec<SearchEntry> = Vec::new();
    assert_eq!(render_entries(&entries), "");
}

#[test]
fn classification_of_backend_events() {
    let (out, backend) = classify(ExecEvent::Completed(String::from("body")));
    assert!(matches!(out, Outcome::Success(ref s) if s == "body"));
    assert_eq!(backend, BackendState::Open);

    let (out, backend) = classify(ExecEvent::Failed);
    assert!(matches!(out, Outcome::Failure(ErrorKind::QueryFailed)));
    assert_eq!(backend, BackendState::Open);

    let (out, backend) = classify(ExecEvent::ConnectionLost);
    assert!(matches!(out, Outcome::Failure(ErrorKind::BackendUnavailable)));
    assert_eq!(backend, BackendState::Closed);

    assert!(matches!(
        unavailable_outcome(),
        Outcome::Failure(ErrorKind::BackendUnavailable)
    ));
}

#[test]
fn default_configuration_is_empty() {
    let config = IdPConfiguration::default();
    assert_eq!(config.ldap.uri, "");
    assert_eq!(config.ldap.base, "");
    assert_eq!(config.http.address, "");
    assert!(config.cache.options.is_empty());

    let ldap = LdapConfiguration::default();
    assert_eq!(ldap.uri, "");
    let http = HttpConfiguration::default();
    assert_eq!(http.address, "");
    let cache = CacheConfiguration::default();
    assert!(cache.options.is_empty());
}
