//! Tests of the bulk importer, the document mapper and the full reindex:
//! census over a snapshot, exclusion of non-searchable entities, skipping of
//! unresolvable owners, idempotence, and healing after a dropped flush.

use xivrepo_search::config::SearchConfig;
use xivrepo_search::importer::{import_all, reindex_removals, run_full_reindex, EntitySnapshot};
use xivrepo_search::index::SearchIndex;
use xivrepo_search::mapper::{map_document, EntityRow, OwnerInfo};
use xivrepo_search::protocol::{flush_batch, notify_became_searchable};
use xivrepo_search::queue::CreationQueue;
use xivrepo_search::status::ModStatus;

fn test_config() -> SearchConfig {
    SearchConfig {
        address: "http://127.0.0.1:7700".to_string(),
        key: "test-master-key".to_string(),
        site_url: "https://mods.example".to_string(),
        host_tag: "local".to_string(),
        flush_interval_secs: 15,
        reindex_interval_secs: 86400,
    }
}

fn row(id: u64, title: &str, status: ModStatus) -> EntityRow {
    EntityRow {
        id,
        title: title.to_string(),
        description: format!("{} description", title),
        downloads: 40,
        follows: 4,
        icon_url: Some(format!("https://cdn.example/{}/icon.png", id)),
        published: 1_600_000_000,
        updated: 1_600_000_500,
        team_id: 1,
        status,
        is_nsfw: false,
        slug: Some(format!("{}-slug", title)),
    }
}

fn snap(id: u64, title: &str, status: ModStatus) -> EntitySnapshot {
    EntitySnapshot {
        row: row(id, title, status),
        owner: Some(OwnerInfo { id: 9, username: "author".to_string() }),
        categories: vec!["utility".to_string()],
    }
}

#[test]
fn mapper_fills_every_field() {
    let cfg = test_config();
    let d = map_document(
        &cfg,
        &row(7, "seven", ModStatus::Approved),
        &OwnerInfo { id: 9, username: "author".to_string() },
        vec!["tools".to_string(), "utility".to_string()],
    );
    assert_eq!(d.id, "local-7");
    assert_eq!(d.title, "seven");
    assert_eq!(d.description, "seven description");
    assert_eq!(d.categories, vec!["tools".to_string(), "utility".to_string()]);
    assert_eq!(d.downloads, 40);
    assert_eq!(d.follows, 4);
    assert_eq!(d.page_url, "https://mods.example/mod/7");
    assert_eq!(d.icon_url, "https://cdn.example/7/icon.png");
    assert_eq!(d.author, "author");
    assert_eq!(d.author_url, "https://mods.example/user/9");
    assert_eq!(d.created_timestamp, 1_600_000_000);
    assert_eq!(d.modified_timestamp, 1_600_000_500);
    assert!(!d.is_nsfw);
    assert_eq!(d.slug, Some("seven-slug".to_string()));
}

#[test]
fn mapper_uses_empty_icon_when_row_has_none() {
    let cfg = test_config();
    let mut r = row(8, "eight", ModStatus::Approved);
    r.icon_url = None;
    let d = map_document(&cfg, &r, &OwnerInfo { id: 9, username: "author".to_string() }, vec![]);
    assert_eq!(d.icon_url, "");
}

#[test]
fn reindex_census_counts_searchable_only() {
    // five entities, two of them non-searchable: the index ends with
    // exactly three documents, and no non-searchable entity's id.
    let snapshot = vec![
        snap(1, "one", ModStatus::Approved),
        snap(2, "two", ModStatus::Rejected),
        snap(3, "three", ModStatus::Approved),
        snap(4, "four", ModStatus::Draft),
        snap(5, "five", ModStatus::Approved),
    ];
    let cfg = test_config();
    let mut index = SearchIndex::new();
    run_full_reindex(&cfg, &snapshot, &mut index);
    assert_eq!(index.doc_count(), 3);
    assert!(index.contains_id("local-1"));
    assert!(!index.contains_id("local-2"));
    assert!(index.contains_id("local-3"));
    assert!(!index.contains_id("local-4"));
    assert!(index.contains_id("local-5"));
}

#[test]
fn import_skips_entity_without_resolvable_owner() {
    let cfg = test_config();
    let mut broken = snap(6, "six", ModStatus::Approved);
    broken.owner = None;
    let snapshot = vec![snap(1, "one", ModStatus::Approved), broken];
    let docs = import_all(&cfg, &snapshot);
    assert_eq!(docs.len(), 1);
    assert_eq!(docs[0].id, "local-1");
}

#[test]
fn reindex_twice_gives_identical_document_set() {
    let snapshot = vec![
        snap(1, "one", ModStatus::Approved),
        snap(2, "two", ModStatus::Unlisted),
        snap(3, "three", ModStatus::Approved),
    ];
    let cfg = test_config();
    let first = import_all(&cfg, &snapshot);
    let second = import_all(&cfg, &snapshot);
    assert_eq!(first, second);

    let mut index = SearchIndex::new();
    run_full_reindex(&cfg, &snapshot, &mut index);
    let count_after_first = index.doc_count();
    run_full_reindex(&cfg, &snapshot, &mut index);
    assert_eq!(index.doc_count(), count_after_first);
    assert!(index.contains_id("local-1"));
    assert!(!index.contains_id("local-2"));
    assert!(index.contains_id("local-3"));
}

#[test]
fn reindex_heals_after_dropped_flush_batch() {
    // A flush tick's engine call fails and the drained batch is dropped;
    // the next full reindex still produces correct contents for the
    // affected entity.
    let cfg = test_config();
    let mut queue = CreationQueue::new();
    let mut index = SearchIndex::new();

    let a = row(7, "entity-a", ModStatus::Approved);
    notify_became_searchable(
        &cfg,
        &mut queue,
        &a,
        &OwnerInfo { id: 9, username: "author".to_string() },
        vec![],
    );
    let batch = flush_batch(&mut queue);
    assert_eq!(batch.len(), 1);
    drop(batch); // the engine call failed; this tick's batch is not retried

    assert_eq!(index.doc_count(), 0);

    let snapshot = vec![snap(7, "entity-a", ModStatus::Approved)];
    run_full_reindex(&cfg, &snapshot, &mut index);
    assert_eq!(index.doc_count(), 1);
    let held = index.get("local-7").expect("reindex must restore entity-a");
    assert_eq!(held.title, "entity-a");
}

#[test]
fn reindex_replaces_stale_contents() {
    // An entity that became non-searchable without its synchronous delete
    // ever reaching the engine is gone after the next full reindex.
    let cfg = test_config();
    let mut index = SearchIndex::new();
    run_full_reindex(
        &cfg,
        &vec![snap(1, "one", ModStatus::Approved), snap(2, "two", ModStatus::Approved)],
        &mut index,
    );
    assert!(index.contains_id("local-2"));

    // entity 2 is now hidden; the missed delete is healed by the reindex
    run_full_reindex(
        &cfg,
        &vec![snap(1, "one", ModStatus::Approved), snap(2, "two", ModStatus::Unlisted)],
        &mut index,
    );
    assert!(index.contains_id("local-1"));
    assert!(!index.contains_id("local-2"));
    assert_eq!(index.doc_count(), 1);
}

#[test]
fn removals_are_the_stale_ids() {
    let cfg = test_config();
    let fresh = import_all(
        &cfg,
        &vec![snap(1, "one", ModStatus::Approved), snap(3, "three", ModStatus::Approved)],
    );
    let current = vec![
        "local-1".to_string(),
        "local-2".to_string(),
        "local-3".to_string(),
        "local-9".to_string(),
    ];
    let removals = reindex_removals(&current, &fresh);
    assert_eq!(removals, vec!["local-2".to_string(), "local-9".to_string()]);
}
