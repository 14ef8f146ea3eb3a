//! Tests of the query-result-to-API conversion.

use xivrepo_search::db_ids;
use xivrepo_search::ids;
use xivrepo_search::mod_item::{DonationUrl, Mod as DbMod, QueryMod};
use xivrepo_search::mods::{convert_mod, DependencyType};
use xivrepo_search::status::ModStatus;

fn db_mod() -> DbMod {
    DbMod {
        id: db_ids::ModId(42),
        team_id: db_ids::TeamId(5),
        title: "A mod".to_string(),
        description: "Does things".to_string(),
        body: "Long text".to_string(),
        body_url: None,
        published: 1_600_000_000,
        updated: 1_600_000_500,
        status: db_ids::StatusId(1),
        is_nsfw: false,
        downloads: 321,
        follows: 12,
        icon_url: Some("https://cdn.example/icon.png".to_string()),
        issues_url: None,
        source_url: Some("https://git.example/mod".to_string()),
        wiki_url: None,
        discord_url: None,
        slug: Some("a-mod".to_string()),
    }
}

fn query_mod() -> QueryMod {
    QueryMod {
        inner: db_mod(),
        categories: vec!["utility".to_string(), "tools".to_string()],
        versions: vec![db_ids::VersionId(7), db_ids::VersionId(8)],
        donation_urls: vec![DonationUrl {
            mod_id: db_ids::ModId(42),
            platform_id: db_ids::DonationPlatformId(2),
            platform_short: "pp".to_string(),
            platform_name: "PayPal".to_string(),
            url: "https://pay.example/me".to_string(),
        }],
        dependencies: vec!["57".to_string(), "not a number".to_string()],
        status: ModStatus::Approved,
    }
}

#[test]
fn convert_mod_carries_every_field() {
    let m = convert_mod(query_mod());
    assert_eq!(m.id, ids::ModId(42));
    assert_eq!(m.slug, "a-mod");
    assert_eq!(m.team, ids::TeamId(5));
    assert_eq!(m.title, "A mod");
    assert_eq!(m.description, "Does things");
    assert_eq!(m.body, "Long text");
    assert_eq!(m.body_url, None);
    assert_eq!(m.published, 1_600_000_000);
    assert_eq!(m.updated, 1_600_000_500);
    assert_eq!(m.status, ModStatus::Approved);
    assert!(!m.is_nsfw);
    assert_eq!(m.downloads, 321);
    assert_eq!(m.followers, 12);
    assert_eq!(m.categories, vec!["utility".to_string(), "tools".to_string()]);
    assert_eq!(m.versions, vec![ids::VersionId(7), ids::VersionId(8)]);
    assert_eq!(m.icon_url, Some("https://cdn.example/icon.png".to_string()));
    assert_eq!(m.source_url, Some("https://git.example/mod".to_string()));
}

#[test]
fn convert_mod_maps_donation_rows_to_links() {
    let m = convert_mod(query_mod());
    let links = m.donation_urls.expect("links are always reported");
    assert_eq!(links.len(), 1);
    assert_eq!(links[0].id, "pp");
    assert_eq!(links[0].platform, "PayPal");
    assert_eq!(links[0].url, "https://pay.example/me");
}

#[test]
fn convert_mod_parses_dependency_ids() {
    let m = convert_mod(query_mod());
    let deps = m.dependencies.expect("non-empty dependency list is reported");
    assert_eq!(deps.len(), 2);
    assert_eq!(deps[0].mod_id, ids::ModId(57));
    assert_eq!(deps[0].dependency_type, DependencyType::Required);
    assert_eq!(deps[0].min_version_num, None);
    // a malformed stored id degrades to the placeholder 0
    assert_eq!(deps[1].mod_id, ids::ModId(0));
}

#[test]
fn convert_mod_reports_no_dependencies_as_none() {
    let mut q = query_mod();
    q.dependencies = vec![];
    let m = convert_mod(q);
    assert!(m.dependencies.is_none());
}
