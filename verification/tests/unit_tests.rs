//! Unit tests for the small building blocks: decimal rendering and parsing,
//! statuses, roles, configuration checking and the scheduler gate.

use xivrepo_search::config::{ConfigError, SearchConfig};
use xivrepo_search::digits::{parse_u64, u64_to_string};
use xivrepo_search::document::make_doc_id;
use xivrepo_search::protocol::{transition_decision, SyncDecision};
use xivrepo_search::scheduler::TickGate;
use xivrepo_search::status::ModStatus;
use xivrepo_search::users::Role;
use xivrepo_search::versions::{default_algorithm, Algorithm};

fn config(address: &str, key: &str, site: &str, host: &str, flush: u64, reindex: u64) -> SearchConfig {
    SearchConfig {
        address: address.to_string(),
        key: key.to_string(),
        site_url: site.to_string(),
        host_tag: host.to_string(),
        flush_interval_secs: flush,
        reindex_interval_secs: reindex,
    }
}

#[test]
fn u64_to_string_renders_decimal() {
    assert_eq!(u64_to_string(0), "0");
    assert_eq!(u64_to_string(7), "7");
    assert_eq!(u64_to_string(10), "10");
    assert_eq!(u64_to_string(1234567890), "1234567890");
    assert_eq!(u64_to_string(u64::MAX), "18446744073709551615");
}

#[test]
fn parse_u64_accepts_digit_strings() {
    assert_eq!(parse_u64("0"), Some(0));
    assert_eq!(parse_u64("42"), Some(42));
    assert_eq!(parse_u64("007"), Some(7));
    assert_eq!(parse_u64("18446744073709551615"), Some(u64::MAX));
}

#[test]
fn parse_u64_rejects_bad_input() {
    assert_eq!(parse_u64(""), None);
    assert_eq!(parse_u64("12a"), None);
    assert_eq!(parse_u64("-3"), None);
    assert_eq!(parse_u64(" 3"), None);
    // one past u64::MAX
    assert_eq!(parse_u64("18446744073709551616"), None);
}

#[test]
fn parse_inverts_rendering() {
    for n in [0u64, 1, 9, 10, 99, 100, 4096, u64::MAX] {
        assert_eq!(parse_u64(&u64_to_string(n)), Some(n));
    }
}

#[test]
fn doc_id_is_host_dash_decimal() {
    assert_eq!(make_doc_id("local", 57), "local-57");
    assert_eq!(make_doc_id("xivrepo", 0), "xivrepo-0");
}

#[test]
fn status_searchability() {
    assert!(ModStatus::Approved.is_searchable());
    assert!(!ModStatus::Draft.is_searchable());
    assert!(!ModStatus::Pending.is_searchable());
    assert!(!ModStatus::Rejected.is_searchable());
    assert!(!ModStatus::Unlisted.is_searchable());
}

#[test]
fn status_hidden_subset() {
    assert!(ModStatus::Draft.is_hidden());
    assert!(ModStatus::Pending.is_hidden());
    assert!(ModStatus::Rejected.is_hidden());
    assert!(!ModStatus::Approved.is_hidden());
    assert!(!ModStatus::Unlisted.is_hidden());
}

#[test]
fn status_round_trip() {
    for s in [
        ModStatus::Draft,
        ModStatus::Pending,
        ModStatus::Approved,
        ModStatus::Rejected,
        ModStatus::Unlisted,
    ] {
        assert_eq!(ModStatus::from_string(s.as_str()), s);
    }
    assert_eq!(ModStatus::from_string("nonsense"), ModStatus::Unlisted);
}

#[test]
fn role_parsing_and_powers() {
    assert_eq!(Role::from_string("admin"), Role::Admin);
    assert_eq!(Role::from_string("moderator"), Role::Moderator);
    assert_eq!(Role::from_string("developer"), Role::Developer);
    assert_eq!(Role::from_string("anything else"), Role::Developer);
    assert!(Role::Admin.is_mod());
    assert!(Role::Moderator.is_mod());
    assert!(!Role::Developer.is_mod());
    assert_eq!(Role::Admin.as_str(), "admin");
}

#[test]
fn config_validation_reports_first_fault() {
    assert_eq!(config("", "k", "s", "h", 1, 1).validate(), Err(ConfigError::MissingAddress));
    assert_eq!(config("a", "", "s", "h", 1, 1).validate(), Err(ConfigError::MissingKey));
    assert_eq!(config("a", "k", "", "h", 1, 1).validate(), Err(ConfigError::MissingSiteUrl));
    assert_eq!(config("a", "k", "s", "", 1, 1).validate(), Err(ConfigError::MissingHostTag));
    assert_eq!(config("a", "k", "s", "h", 0, 1).validate(), Err(ConfigError::ZeroFlushInterval));
    assert_eq!(config("a", "k", "s", "h", 1, 0).validate(), Err(ConfigError::ZeroReindexInterval));
    assert_eq!(config("a", "k", "s", "h", 15, 86400).validate(), Ok(()));
}

#[test]
fn tick_gate_bounds_overlap_at_two() {
    let mut gate = TickGate::new(2);
    assert!(gate.try_begin());
    assert!(gate.try_begin());
    // a third overlapping run is refused
    assert!(!gate.try_begin());
    gate.end();
    assert!(gate.try_begin());
    gate.end();
    gate.end();
    assert!(gate.try_begin());
}

#[test]
fn sync_decision_follows_searchability() {
    assert_eq!(
        transition_decision(ModStatus::Draft, ModStatus::Approved),
        SyncDecision::EnqueueUpsert
    );
    assert_eq!(
        transition_decision(ModStatus::Approved, ModStatus::Approved),
        SyncDecision::EnqueueUpsert
    );
    assert_eq!(
        transition_decision(ModStatus::Approved, ModStatus::Rejected),
        SyncDecision::DeleteFromIndex
    );
    assert_eq!(
        transition_decision(ModStatus::Approved, ModStatus::Unlisted),
        SyncDecision::DeleteFromIndex
    );
    assert_eq!(transition_decision(ModStatus::Draft, ModStatus::Pending), SyncDecision::Nothing);
}

#[test]
fn default_hash_algorithm_is_sha1() {
    assert_eq!(default_algorithm(), "sha1");
    let a = Algorithm::default();
    assert_eq!(a.algorithm(), "sha1");
    let b = Algorithm::new("sha512".to_string());
    assert_eq!(b.algorithm(), "sha512");
}
