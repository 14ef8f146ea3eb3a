//! An in-memory model of the search engine's document collection.
//!
//! The real engine is an external service reached over the network; this
//! crate states its documented semantics — a collection keyed by document id
//! with idempotent upsert and idempotent delete-by-id — as an executable
//! model.  The synchronization protocol's guarantees are proved against this
//! model, and tests use it as the reference for what the engine holds after
//! each flush, delete and reindex.

use vstd::prelude::*;
use crate::document::{has_doc_id, lemma_push_contains, lemma_push_has_id, str_eq, unique_ids,
    upsert_effect, upsert_into, DocView, SearchDocument};

verus! {

/// What deleting one id from an id-keyed collection does: afterwards the id
/// is absent, every entry with a different id is kept, nothing else is held,
/// and deleting an absent id leaves the collection exactly as it was (the
/// operation is idempotent and never an error).
pub open spec fn delete_effect(pre: Seq<DocView>, id: Seq<char>, post: Seq<DocView>) -> bool {
    &&& unique_ids(post)
    &&& !has_doc_id(post, id)
    &&& (forall|e: DocView| pre.contains(e) && e.id != id ==> post.contains(e))
    &&& (forall|e: DocView| post.contains(e) ==> (pre.contains(e) && e.id != id))
    &&& (!has_doc_id(pre, id) ==> post == pre)
    &&& post.len() == if has_doc_id(pre, id) {
        pre.len() - 1
    } else {
        pre.len() as int
    }
}

/// What upserting a whole batch does: every batch document is afterwards
/// held verbatim, an id is held exactly if it was held before or occurs in
/// the batch, entries whose id the batch does not touch are kept, and
/// nothing else is held.
pub open spec fn batch_effect(pre: Seq<DocView>, batch: Seq<DocView>, post: Seq<DocView>) -> bool {
    &&& unique_ids(post)
    &&& (forall|d: DocView| batch.contains(d) ==> post.contains(d))
    &&& (forall|x: Seq<char>|
        has_doc_id(post, x) <==> (has_doc_id(pre, x) || has_doc_id(batch, x)))
    &&& (forall|e: DocView| pre.contains(e) && !has_doc_id(batch, e.id) ==> post.contains(e))
    &&& (forall|e: DocView|
        post.contains(e) ==> (batch.contains(e) || (pre.contains(e) && !has_doc_id(
            batch,
            e.id,
        ))))
}

/// The document collection: at most one document per id.
pub struct SearchIndex {
    entries: Vec<SearchDocument>,
}

impl View for SearchIndex {
    type V = Seq<DocView>;

    closed spec fn view(&self) -> Seq<DocView> {
        self.entries.deep_view()
    }
}

impl SearchIndex {
    /// Invariant: documents carry pairwise distinct ids.
    pub open spec fn wf(&self) -> bool {
        unique_ids(self@)
    }

    pub fn new() -> (idx: SearchIndex)
        ensures
            idx@ == Seq::<DocView>::empty(),
            idx.wf(),
    {
        let idx = SearchIndex { entries: Vec::new() };
        proof {
            assert(idx@ =~= Seq::<DocView>::empty());
        }
        idx
    }

    pub fn doc_count(&self) -> (n: usize)
        ensures
            n == self@.len(),
    {
        self.entries.len()
    }

    /// Adds `doc`, fully replacing any prior document with the same id.
    pub fn upsert(&mut self, doc: SearchDocument)
        requires
            old(self).wf(),
        ensures
            final(self).wf(),
            upsert_effect(old(self)@, doc@, final(self)@),
    {
        upsert_into(&mut self.entries, doc);
    }

    /// Upserts every document of a batch (of pairwise distinct ids, as a
    /// queue drain yields it).
    pub fn upsert_batch(&mut self, batch: Vec<SearchDocument>)
        requires
            old(self).wf(),
            unique_ids(batch.deep_view()),
        ensures
            final(self).wf(),
            batch_effect(old(self)@, batch.deep_view(), final(self)@),
    {
        let ghost pre = self@;
        let ghost bv = batch.deep_view();
        let mut rest = batch;
        let ghost mut k: int = 0;
        proof {
            assert(rest.deep_view() =~= bv.skip(0));
            assert(bv.take(0) =~= Seq::<DocView>::empty());
            assert(batch_effect(pre, bv.take(0), self@)) by {
                assert(forall|x: Seq<char>| !has_doc_id(bv.take(0), x));
                assert(forall|e: DocView| !bv.take(0).contains(e));
            }
        }
        #[verifier::loop_isolation(false)]
        while rest.len() > 0
            invariant
                0 <= k <= bv.len(),
                rest.deep_view() == bv.skip(k),
                self.wf(),
                batch_effect(pre, bv.take(k), self@),
            decreases rest.len(),
        {
            let ghost cur = self@;
            let d = rest.remove(0);
            proof {
                assert(bv.skip(k).len() == bv.len() - k);
                assert(d@ == bv[k]) by {
                    assert(bv.skip(k)[0] == bv[k]);
                }
                assert(rest.deep_view() =~= bv.skip(k + 1)) by {
                    assert forall|j: int| 0 <= j < rest.deep_view().len() implies
                        rest.deep_view()[j] == bv.skip(k + 1)[j] by {
                        assert(rest.deep_view()[j] == bv.skip(k)[j + 1]);
                    }
                }
            }
            self.upsert(d);
            proof {
                let next = self@;
                let tk = bv.take(k);
                let tk1 = bv.take(k + 1);
                assert(tk1 =~= tk.push(bv[k]));
                assert forall|dd: DocView| tk1.contains(dd) implies next.contains(dd) by {
                    lemma_push_contains(tk, bv[k], dd);
                    if dd != bv[k] {
                        let j = choose|j: int| 0 <= j < tk.len() && tk[j] == dd;
                        assert(bv[j] == dd);
                        assert(bv[j].id != bv[k].id);
                        assert(cur.contains(dd));
                        assert(next.contains(dd));
                    }
                }
                assert forall|x: Seq<char>| has_doc_id(next, x) <==> (has_doc_id(pre, x)
                    || has_doc_id(tk1, x)) by {
                    lemma_push_has_id(tk, bv[k], x);
                }
                assert forall|e: DocView| pre.contains(e) && !has_doc_id(tk1, e.id) implies
                    next.contains(e) by {
                    lemma_push_has_id(tk, bv[k], e.id);
                }
                assert forall|e: DocView| next.contains(e) implies (tk1.contains(e) || (
                pre.contains(e) && !has_doc_id(tk1, e.id))) by {
                    lemma_push_contains(tk, bv[k], e);
                    lemma_push_has_id(tk, bv[k], e.id);
                }
                k = k + 1;
            }
        }
        proof {
            assert(bv.take(k) =~= bv);
        }
    }

    /// Removes the document carrying `id`, if any.  Deleting an id that is
    /// not present is not an error and leaves the collection unchanged.
    /// Returns whether a document was removed.
    pub fn delete_by_id(&mut self, id: &str) -> (removed: bool)
        requires
            old(self).wf(),
        ensures
            final(self).wf(),
            delete_effect(old(self)@, id@, final(self)@),
            removed == has_doc_id(old(self)@, id@),
    {
        let ghost pre = self@;
        let n = self.entries.len();
        let mut i: usize = 0;
        #[verifier::loop_isolation(false)]
        while i < n
            invariant
                0 <= i <= n,
                n == self.entries.len(),
                self@ == pre,
                unique_ids(pre),
                forall|j: int| 0 <= j < i ==> pre[j].id != id@,
            decreases n - i,
        {
            if str_eq(self.entries[i].id.as_str(), id) {
                proof {
                    assert(pre[i as int].id == id@);
                }
                self.entries.remove(i);
                proof {
                    let post = self@;
                    assert(post =~= pre.remove(i as int)) by {
                        assert forall|j: int| 0 <= j < post.len() implies post[j] == pre.remove(
                            i as int,
                        )[j] by {}
                    }
                    assert forall|j: int| 0 <= j < post.len() implies post[j] == if j < i {
                        pre[j]
                    } else {
                        pre[j + 1]
                    } by {}
                    assert forall|k: int, l: int| 0 <= k < l < post.len() implies post[k].id
                        != post[l].id by {}
                    assert(!has_doc_id(post, id@)) by {
                        assert forall|j: int| 0 <= j < post.len() implies post[j].id != id@ by {
                            if j >= i {
                                assert(pre[j + 1].id != pre[i as int].id);
                            }
                        }
                    }
                    assert forall|e: DocView| pre.contains(e) && e.id != id@ implies post.contains(
                        e,
                    ) by {
                        let j = choose|j: int| 0 <= j < pre.len() && pre[j] == e;
                        assert(j != i);
                        if j < i {
                            assert(post[j] == e);
                        } else {
                            assert(post[j - 1] == e);
                        }
                    }
                    assert forall|e: DocView| post.contains(e) implies (pre.contains(e) && e.id
                        != id@) by {
                        let j = choose|j: int| 0 <= j < post.len() && post[j] == e;
                        if j < i {
                            assert(pre[j] == e);
                            assert(pre[j].id != pre[i as int].id);
                        } else {
                            assert(pre[j + 1] == e);
                            assert(pre[j + 1].id != pre[i as int].id);
                        }
                    }
                    assert(has_doc_id(pre, id@)) by {
                        assert(pre[i as int].id == id@);
                    }
                    assert(delete_effect(pre, id@, post));
                }
                return true;
            }
            i = i + 1;
        }
        proof {
            assert(!has_doc_id(pre, id@));
            assert(delete_effect(pre, id@, self@));
        }
        false
    }

    /// Whether a document with this id is present.
    pub fn contains_id(&self, id: &str) -> (r: bool)
        ensures
            r == has_doc_id(self@, id@),
    {
        let n = self.entries.len();
        let mut i: usize = 0;
        #[verifier::loop_isolation(false)]
        while i < n
            invariant
                0 <= i <= n,
                n == self.entries.len(),
                forall|j: int| 0 <= j < i ==> self@[j].id != id@,
            decreases n - i,
        {
            if str_eq(self.entries[i].id.as_str(), id) {
                proof {
                    assert(self@[i as int].id == id@);
                }
                return true;
            }
            i = i + 1;
        }
        false
    }

    /// The document carrying `id`, if any.
    pub fn get(&self, id: &str) -> (r: Option<&SearchDocument>)
        ensures
            match r {
                Some(d) => self@.contains(d@) && d@.id == id@,
                None => !has_doc_id(self@, id@),
            },
    {
        let n = self.entries.len();
        let mut i: usize = 0;
        #[verifier::loop_isolation(false)]
        while i < n
            invariant
                0 <= i <= n,
                n == self.entries.len(),
                forall|j: int| 0 <= j < i ==> self@[j].id != id@,
            decreases n - i,
        {
            if str_eq(self.entries[i].id.as_str(), id) {
                proof {
                    assert(self@[i as int].id == id@);
                    assert(self@.contains(self@[i as int]));
                }
                return Some(&self.entries[i]);
            }
            i = i + 1;
        }
        None
    }

    /// Replaces the whole collection with a fresh document set, as the full
    /// reindex job does: afterwards the index holds exactly `docs`,
    /// independent of what it held before.
    pub fn apply_full_reindex(&mut self, docs: Vec<SearchDocument>)
        requires
            unique_ids(docs.deep_view()),
        ensures
            final(self).wf(),
            final(self)@ == docs.deep_view(),
    {
        self.entries = docs;
    }
}

/// Law (flush delivers): if a drained batch (pairwise distinct ids, as
/// `CreationQueue::drain` guarantees) holds the document `d`, then after the
/// batch is upserted the index holds a document with `d`'s id and it is `d`
/// itself, every field intact.
pub proof fn lemma_flush_delivers(
    pre: Seq<DocView>,
    batch: Seq<DocView>,
    post: Seq<DocView>,
    d: DocView,
)
    requires
        unique_ids(batch),
        batch.contains(d),
        batch_effect(pre, batch, post),
    ensures
        post.contains(d),
        forall|e: DocView| post.contains(e) && e.id == d.id ==> e == d,
{
    assert forall|e: DocView| post.contains(e) && e.id == d.id implies e == d by {
        assert(has_doc_id(batch, d.id)) by {
            let j = choose|j: int| 0 <= j < batch.len() && batch[j] == d;
            assert(batch[j].id == d.id);
        }
        assert(batch.contains(e));
        let j = choose|j: int| 0 <= j < batch.len() && batch[j] == e;
        let l = choose|l: int| 0 <= l < batch.len() && batch[l] == d;
        if j != l {
            if j < l {
                assert(batch[j].id != batch[l].id);
            } else {
                assert(batch[l].id != batch[j].id);
            }
        }
    }
}

} // verus!
