//! The synchronization protocol: the rules connecting entity lifecycle
//! events to queue and index operations.
//!
//! Request handlers call [`notify_became_searchable`] when an entity enters
//! (or is edited within) the searchable subset, [`notify_left_searchable`]
//! when it leaves it, and [`notify_deleted`] when it is removed from the
//! primary store outright.  The first path is asynchronous — the document
//! waits in the creation queue for the next flush — while the two removal
//! paths are synchronous: a rejected or deleted entity must stop appearing
//! promptly, so its document id is deleted from the engine within the same
//! request, not via the queue.

use vstd::prelude::*;
use crate::config::SearchConfig;
use crate::document::{doc_id_spec, make_doc_id, unique_ids, upsert_effect, DocView, SearchDocument};
use crate::mapper::{map_doc_spec, map_document, EntityRow, OwnerInfo};
use crate::queue::CreationQueue;
use crate::status::ModStatus;

verus! {

/// What the index must do about one status transition.
#[derive(Clone, Copy, Debug, PartialEq, Eq, Structural)]
pub enum SyncDecision {
    /// Rebuild the entity's document and enqueue it (covers both entering
    /// the searchable subset and a refresh while staying in it).
    EnqueueUpsert,
    /// Delete the entity's document synchronously.
    DeleteFromIndex,
    /// The entity was not and is not searchable: the index is not involved.
    Nothing,
}

/// The decision for a transition from `old_status` to `new_status`: upsert
/// whenever the new status is searchable, delete when searchability was
/// lost, and nothing when the entity stays out of the index.
pub open spec fn spec_transition_decision(old_status: ModStatus, new_status: ModStatus) -> SyncDecision {
    if new_status.spec_is_searchable() {
        SyncDecision::EnqueueUpsert
    } else if old_status.spec_is_searchable() {
        SyncDecision::DeleteFromIndex
    } else {
        SyncDecision::Nothing
    }
}

#[verifier::when_used_as_spec(spec_transition_decision)]
pub fn transition_decision(old_status: ModStatus, new_status: ModStatus) -> (d: SyncDecision)
    ensures
        d == spec_transition_decision(old_status, new_status),
{
    if new_status.is_searchable() {
        SyncDecision::EnqueueUpsert
    } else if old_status.is_searchable() {
        SyncDecision::DeleteFromIndex
    } else {
        SyncDecision::Nothing
    }
}

/// An entity entered the searchable subset (or was edited while in it):
/// builds its document immediately from the freshly read row and enqueues
/// it, replacing any pending entry with the same id.  The index itself is
/// untouched until the next flush.
pub fn notify_became_searchable(
    cfg: &SearchConfig,
    queue: &mut CreationQueue,
    row: &EntityRow,
    owner: &OwnerInfo,
    categories: Vec<String>,
)
    requires
        old(queue).wf(),
        row@.status.spec_is_searchable(),
    ensures
        final(queue).wf(),
        upsert_effect(
            old(queue)@,
            map_doc_spec(cfg@, row@, owner@, categories.deep_view()),
            final(queue)@,
        ),
{
    let doc = map_document(cfg, row, owner, categories);
    queue.add(doc);
}

/// An entity left the searchable subset: returns the document id the caller
/// must delete from every collection of the engine, synchronously within the
/// current request.  Deleting an id the engine does not hold is not an
/// error, so the caller need not know whether the entity was ever flushed.
pub fn notify_left_searchable(cfg: &SearchConfig, entity_id: u64) -> (doc_id: String)
    ensures
        doc_id@ == doc_id_spec(cfg@.host_tag, entity_id),
{
    make_doc_id(cfg.host_tag.as_str(), entity_id)
}

/// An entity was removed from the primary store entirely: same synchronous
/// delete as [`notify_left_searchable`]; once the delete completes (or the
/// next full reindex omits the entity, as fallback) no trace remains.
pub fn notify_deleted(cfg: &SearchConfig, entity_id: u64) -> (doc_id: String)
    ensures
        doc_id@ == doc_id_spec(cfg@.host_tag, entity_id),
{
    make_doc_id(cfg.host_tag.as_str(), entity_id)
}

/// One flush tick's queue work: atomically drains the queue and hands the
/// batch back for the caller to upsert into the engine.  If the engine call
/// then fails, the batch is dropped (the next full reindex heals the index);
/// the queue is already empty either way, so producers were never blocked on
/// the engine.
pub fn flush_batch(queue: &mut CreationQueue) -> (batch: Vec<SearchDocument>)
    requires
        old(queue).wf(),
    ensures
        final(queue).wf(),
        batch.deep_view() == old(queue)@,
        final(queue)@ == Seq::<DocView>::empty(),
        unique_ids(batch.deep_view()),
{
    queue.drain()
}

} // verus!
