//! Tests of the queue, the index model and the synchronization protocol:
//! last-write-wins coalescing, flush delivery, synchronous deletes and the
//! end-to-end lifecycle scenarios.

use xivrepo_search::config::SearchConfig;
use xivrepo_search::document::SearchDocument;
use xivrepo_search::index::SearchIndex;
use xivrepo_search::mapper::{EntityRow, OwnerInfo};
use xivrepo_search::protocol::{
    flush_batch, notify_became_searchable, notify_deleted, notify_left_searchable,
};
use xivrepo_search::queue::CreationQueue;
use xivrepo_search::status::ModStatus;

fn test_config() -> SearchConfig {
    SearchConfig {
        address: "http://127.0.0.1:7700".to_string(),
        key: "test-master-key".to_string(),
        site_url: "https://mods.example".to_string(),
        host_tag: "host".to_string(),
        flush_interval_secs: 15,
        reindex_interval_secs: 86400,
    }
}

fn doc(id: &str, title: &str) -> SearchDocument {
    SearchDocument {
        id: id.to_string(),
        title: title.to_string(),
        description: format!("{} description", title),
        categories: vec!["utility".to_string()],
        downloads: 10,
        follows: 2,
        page_url: format!("https://mods.example/mod/{}", id),
        icon_url: String::new(),
        author: "author".to_string(),
        author_url: "https://mods.example/user/9".to_string(),
        created_timestamp: 1_600_000_000,
        modified_timestamp: 1_600_000_500,
        is_nsfw: false,
        slug: Some(format!("{}-slug", title)),
    }
}

fn row(id: u64, title: &str, status: ModStatus) -> EntityRow {
    EntityRow {
        id,
        title: title.to_string(),
        description: format!("{} description", title),
        downloads: 100,
        follows: 5,
        icon_url: None,
        published: 1_600_000_000,
        updated: 1_600_000_500,
        team_id: 1,
        status,
        is_nsfw: false,
        slug: Some(format!("{}-slug", title)),
    }
}

fn owner() -> OwnerInfo {
    OwnerInfo { id: 9, username: "author".to_string() }
}

#[test]
fn enqueue_same_id_twice_keeps_second_payload() {
    let mut queue = CreationQueue::new();
    queue.add(doc("host-1", "first"));
    queue.add(doc("host-1", "second"));
    assert_eq!(queue.len(), 1);
    let batch = queue.drain();
    assert_eq!(batch.len(), 1);
    assert_eq!(batch[0].title, "second");
    assert_eq!(batch[0], doc("host-1", "second"));
}

#[test]
fn drain_then_drain_returns_empty_batch() {
    let mut queue = CreationQueue::new();
    queue.add(doc("host-1", "one"));
    queue.add(doc("host-2", "two"));
    let first = queue.drain();
    assert_eq!(first.len(), 2);
    let second = queue.drain();
    assert!(second.is_empty());
    assert_eq!(queue.len(), 0);
}

#[test]
fn flush_puts_enqueued_document_in_index() {
    let mut queue = CreationQueue::new();
    let mut index = SearchIndex::new();
    let d = doc("host-5", "flushed");
    queue.add(d.clone());
    let batch = flush_batch(&mut queue);
    index.upsert_batch(batch);
    let held = index.get("host-5").expect("document must be present after flush");
    assert_eq!(*held, d);
}

#[test]
fn delete_of_absent_id_is_no_error_and_no_change() {
    let mut index = SearchIndex::new();
    index.upsert(doc("host-1", "kept"));
    let removed = index.delete_by_id("host-404");
    assert!(!removed);
    assert_eq!(index.doc_count(), 1);
    assert!(index.contains_id("host-1"));
}

#[test]
fn approved_entity_is_indexed_after_flush_tick() {
    // Entity A is approved, the handler notifies, the flush tick fires:
    // the index then holds exactly one document, host-7.
    let cfg = test_config();
    let mut queue = CreationQueue::new();
    let mut index = SearchIndex::new();

    let a = row(7, "entity-a", ModStatus::Approved);
    notify_became_searchable(&cfg, &mut queue, &a, &owner(), vec!["tools".to_string()]);

    let batch = flush_batch(&mut queue);
    index.upsert_batch(batch);

    assert_eq!(index.doc_count(), 1);
    let held = index.get("host-7").expect("host-7 must be indexed");
    assert_eq!(held.title, "entity-a");
    assert_eq!(held.page_url, "https://mods.example/mod/7");
    assert_eq!(held.author_url, "https://mods.example/user/9");
}

#[test]
fn rejection_deletes_synchronously_before_any_flush() {
    // Entity A was Approved and indexed; it transitions to Rejected.  The
    // delete is synchronous: the index lacks host-7 immediately, with no
    // flush tick in between.
    let cfg = test_config();
    let mut index = SearchIndex::new();
    index.upsert(doc("host-7", "entity-a"));
    assert!(index.contains_id("host-7"));

    let doc_id = notify_left_searchable(&cfg, 7);
    assert_eq!(doc_id, "host-7");
    index.delete_by_id(doc_id.as_str());

    assert!(!index.contains_id("host-7"));
    assert_eq!(index.doc_count(), 0);
}

#[test]
fn hard_delete_targets_same_document_id() {
    let cfg = test_config();
    let mut index = SearchIndex::new();
    index.upsert(doc("host-21", "doomed"));
    let doc_id = notify_deleted(&cfg, 21);
    assert_eq!(doc_id, "host-21");
    index.delete_by_id(doc_id.as_str());
    assert!(!index.contains_id("host-21"));
}

#[test]
fn two_edits_one_flush_yield_one_document_each() {
    // Entities B and C are both edited between two flush ticks; after one
    // flush the index holds exactly one document for each.
    let cfg = test_config();
    let mut queue = CreationQueue::new();
    let mut index = SearchIndex::new();

    let b = row(2, "entity-b", ModStatus::Approved);
    let c = row(3, "entity-c", ModStatus::Approved);
    notify_became_searchable(&cfg, &mut queue, &b, &owner(), vec![]);
    notify_became_searchable(&cfg, &mut queue, &c, &owner(), vec![]);
    // a second edit of B before the flush coalesces
    notify_became_searchable(&cfg, &mut queue, &b, &owner(), vec![]);
    assert_eq!(queue.len(), 2);

    let batch = flush_batch(&mut queue);
    index.upsert_batch(batch);

    assert_eq!(index.doc_count(), 2);
    assert!(index.contains_id("host-2"));
    assert!(index.contains_id("host-3"));
}

#[test]
fn refresh_replaces_fields_of_indexed_document() {
    let cfg = test_config();
    let mut queue = CreationQueue::new();
    let mut index = SearchIndex::new();

    let before = row(4, "old-title", ModStatus::Approved);
    notify_became_searchable(&cfg, &mut queue, &before, &owner(), vec![]);
    index.upsert_batch(flush_batch(&mut queue));
    assert_eq!(index.get("host-4").unwrap().title, "old-title");

    let after = row(4, "new-title", ModStatus::Approved);
    notify_became_searchable(&cfg, &mut queue, &after, &owner(), vec![]);
    index.upsert_batch(flush_batch(&mut queue));

    assert_eq!(index.doc_count(), 1);
    assert_eq!(index.get("host-4").unwrap().title, "new-title");
}
