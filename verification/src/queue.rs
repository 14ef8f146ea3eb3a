//! The creation queue: the deduplicating buffer of pending index upserts.

use vstd::prelude::*;
use crate::document::{unique_ids, upsert_effect, upsert_into, DocView, SearchDocument};

verus! {

/// The shared buffer of pending document upserts, deduplicated by document
/// id: at most one pending entry per id at any time, a later `add` for the
/// same id overwriting the earlier one.  This is what coalesces a burst of
/// edits to one entity into a single index write at the next flush.
///
/// `add` and `drain` touch only this in-memory structure and never block on
/// the engine; the surrounding process shares the queue behind a mutex held
/// only across these calls.
pub struct CreationQueue {
    entries: Vec<SearchDocument>,
}

impl View for CreationQueue {
    type V = Seq<DocView>;

    closed spec fn view(&self) -> Seq<DocView> {
        self.entries.deep_view()
    }
}

impl CreationQueue {
    /// Invariant: pending entries carry pairwise distinct document ids.
    pub open spec fn wf(&self) -> bool {
        unique_ids(self@)
    }

    pub fn new() -> (q: CreationQueue)
        ensures
            q@ == Seq::<DocView>::empty(),
            q.wf(),
    {
        let q = CreationQueue { entries: Vec::new() };
        proof {
            assert(q@ =~= Seq::<DocView>::empty());
        }
        q
    }

    pub fn len(&self) -> (n: usize)
        ensures
            n == self@.len(),
    {
        self.entries.len()
    }

    pub fn is_empty(&self) -> (r: bool)
        ensures
            r == (self@.len() == 0),
    {
        self.entries.is_empty()
    }

    /// Stores `doc` keyed by its id, replacing any prior pending entry with
    /// the same id (last write wins).
    pub fn add(&mut self, doc: SearchDocument)
        requires
            old(self).wf(),
        ensures
            final(self).wf(),
            upsert_effect(old(self)@, doc@, final(self)@),
    {
        upsert_into(&mut self.entries, doc);
    }

    /// Atomically removes and returns every pending entry, leaving the queue
    /// empty.  This is the only way entries leave the queue.
    pub fn drain(&mut self) -> (batch: Vec<SearchDocument>)
        requires
            old(self).wf(),
        ensures
            final(self).wf(),
            batch.deep_view() == drain_batch(old(self)@),
            final(self)@ == drain_rest(old(self)@),
            unique_ids(batch.deep_view()),
    {
        let mut batch: Vec<SearchDocument> = Vec::new();
        core::mem::swap(&mut batch, &mut self.entries);
        proof {
            assert(self@ =~= Seq::<DocView>::empty());
        }
        batch
    }
}

/// Law (last write wins): enqueuing `d1` and then `d2` carrying the same
/// document id leaves exactly one pending entry for that id, and it is `d2`.
///
/// `mid` and `post` are the queue contents after the first and the second
/// `add`, as related to their inputs by [`upsert_effect`], the relation
/// `CreationQueue::add` ensures.
pub proof fn lemma_add_last_write_wins(
    pre: Seq<DocView>,
    mid: Seq<DocView>,
    post: Seq<DocView>,
    d1: DocView,
    d2: DocView,
)
    requires
        d1.id == d2.id,
        upsert_effect(pre, d1, mid),
        upsert_effect(mid, d2, post),
    ensures
        post.contains(d2),
        forall|e: DocView| post.contains(e) && e.id == d2.id ==> e == d2,
        forall|i: int, j: int|
            0 <= i < post.len() && 0 <= j < post.len() && post[i].id == d2.id && post[j].id
                == d2.id ==> i == j,
{
    assert forall|e: DocView| post.contains(e) && e.id == d2.id implies e == d2 by {}
    assert forall|i: int, j: int|
        0 <= i < post.len() && 0 <= j < post.len() && post[i].id == d2.id && post[j].id == d2.id
        implies i == j by {
        if i != j {
            if i < j {
                assert(post[i].id != post[j].id);
            } else {
                assert(post[j].id != post[i].id);
            }
        }
    }
}

/// Law (drain, then drain): the batch a drain returns is exactly the prior
/// queue contents, and a drain leaves the queue empty — so a second drain
/// with no interleaving `add` returns the empty batch.
pub proof fn lemma_drain_twice(q: Seq<DocView>)
    ensures
        drain_batch(drain_rest(q)) == Seq::<DocView>::empty(),
        drain_rest(drain_rest(q)) == Seq::<DocView>::empty(),
{
}

/// The batch `CreationQueue::drain` returns from contents `q`.
pub open spec fn drain_batch(q: Seq<DocView>) -> Seq<DocView> {
    q
}

/// The queue contents `CreationQueue::drain` leaves behind.
pub open spec fn drain_rest(q: Seq<DocView>) -> Seq<DocView> {
    Seq::<DocView>::empty()
}

} // verus!
