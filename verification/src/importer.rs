//! The bulk importer and the full reindex: the self-healing path.
//!
//! The importer walks a snapshot of every entity in the primary store,
//! filters to the searchable subset, and maps each survivor (with its joined
//! owner and categories) to a search document.  An entity whose owner could
//! not be resolved is skipped and the run continues.  The full reindex then
//! replaces the index contents with the fresh document set, so the final
//! index depends on the snapshot alone — whatever incremental updates were
//! missed or dropped before.

use vstd::prelude::*;
use crate::config::{ConfigView, SearchConfig};
use crate::document::{doc_id_spec, has_doc_id, lemma_concat_contains, lemma_concat_has_id,
    lemma_doc_id_injective, str_eq, unique_ids, DocView, SearchDocument};
use crate::index::SearchIndex;
use crate::mapper::{map_doc_spec, map_document, EntityRow, OwnerInfo, OwnerView, RowView};

verus! {

/// One entity of the snapshot: its row, the owning account if the ownership
/// join resolved one, and its category tags.
pub struct EntitySnapshot {
    pub row: EntityRow,
    pub owner: Option<OwnerInfo>,
    pub categories: Vec<String>,
}

/// The mathematical value of an [`EntitySnapshot`].
#[verifier::ext_equal]
pub ghost struct SnapView {
    pub row: RowView,
    pub owner: Option<OwnerView>,
    pub categories: Seq<Seq<char>>,
}

impl View for EntitySnapshot {
    type V = SnapView;

    open spec fn view(&self) -> SnapView {
        SnapView {
            row: self.row@,
            owner: self.owner.deep_view(),
            categories: self.categories.deep_view(),
        }
    }
}

impl DeepView for EntitySnapshot {
    type V = SnapView;

    open spec fn deep_view(&self) -> SnapView {
        self.view()
    }
}

/// An entity makes it into the fresh document set exactly when its status is
/// searchable and its owner resolved.
pub open spec fn eligible(e: SnapView) -> bool {
    e.row.status.spec_is_searchable() && e.owner is Some
}

/// The document one eligible snapshot entity maps to.
pub open spec fn snap_doc_spec(cfg: ConfigView, e: SnapView) -> DocView {
    map_doc_spec(cfg, e.row, e.owner->0, e.categories)
}

/// The exact document sequence a bulk import over `s` produces: the mapped
/// documents of the eligible entities, in snapshot order.
pub open spec fn import_spec(cfg: ConfigView, s: Seq<SnapView>) -> Seq<DocView>
    decreases s.len(),
{
    if s.len() == 0 {
        Seq::<DocView>::empty()
    } else {
        import_spec(cfg, s.drop_last()) + if eligible(s.last()) {
            seq![snap_doc_spec(cfg, s.last())]
        } else {
            Seq::<DocView>::empty()
        }
    }
}

/// How many snapshot entities are not searchable.
pub open spec fn count_unsearchable(s: Seq<SnapView>) -> nat
    decreases s.len(),
{
    if s.len() == 0 {
        0
    } else {
        count_unsearchable(s.drop_last()) + if s.last().row.status.spec_is_searchable() {
            0nat
        } else {
            1nat
        }
    }
}

/// Entity ids are unique within a snapshot (they are primary keys).
pub open spec fn unique_row_ids(s: Seq<SnapView>) -> bool {
    forall|i: int, j: int| 0 <= i < j < s.len() ==> #[trigger] s[i].row.id != #[trigger] s[j].row.id
}

/// Every document id of the fresh set is the document id of some eligible
/// snapshot entity.
pub proof fn lemma_import_ids_from_rows(cfg: ConfigView, s: Seq<SnapView>, x: Seq<char>)
    requires
        has_doc_id(import_spec(cfg, s), x),
    ensures
        exists|i: int|
            0 <= i < s.len() && eligible(#[trigger] s[i]) && x == doc_id_spec(
                cfg.host_tag,
                s[i].row.id,
            ),
    decreases s.len(),
{
    let rest = import_spec(cfg, s.drop_last());
    let tail = if eligible(s.last()) {
        seq![snap_doc_spec(cfg, s.last())]
    } else {
        Seq::<DocView>::empty()
    };
    lemma_concat_has_id(rest, tail, x);
    if has_doc_id(rest, x) {
        lemma_import_ids_from_rows(cfg, s.drop_last(), x);
        let i = choose|i: int|
            0 <= i < s.drop_last().len() && eligible(#[trigger] s.drop_last()[i]) && x
                == doc_id_spec(cfg.host_tag, s.drop_last()[i].row.id);
        assert(s[i] == s.drop_last()[i]);
        assert(eligible(s[i]));
    } else {
        assert(eligible(s.last()));
        assert(tail[0].id == x);
        assert(x == doc_id_spec(cfg.host_tag, s.last().row.id));
        let i = s.len() - 1;
        assert(eligible(s[i]) && x == doc_id_spec(cfg.host_tag, s[i].row.id));
    }
}

/// Every eligible snapshot entity's document is in the fresh set.
pub proof fn lemma_eligible_in_import(cfg: ConfigView, s: Seq<SnapView>, i: int)
    requires
        0 <= i < s.len(),
        eligible(s[i]),
    ensures
        import_spec(cfg, s).contains(snap_doc_spec(cfg, s[i])),
    decreases s.len(),
{
    let rest = import_spec(cfg, s.drop_last());
    let tail = if eligible(s.last()) {
        seq![snap_doc_spec(cfg, s.last())]
    } else {
        Seq::<DocView>::empty()
    };
    lemma_concat_contains(rest, tail, snap_doc_spec(cfg, s[i]));
    if i == s.len() - 1 {
        assert(tail[0] == snap_doc_spec(cfg, s[i]));
        assert(tail.contains(snap_doc_spec(cfg, s[i])));
    } else {
        assert(s.drop_last()[i] == s[i]);
        lemma_eligible_in_import(cfg, s.drop_last(), i);
    }
}

/// With distinct entity ids, the fresh document set carries distinct
/// document ids.
pub proof fn lemma_import_unique(cfg: ConfigView, s: Seq<SnapView>)
    requires
        unique_row_ids(s),
    ensures
        unique_ids(import_spec(cfg, s)),
    decreases s.len(),
{
    if s.len() == 0 {
    } else {
        let prior = s.drop_last();
        assert forall|i: int, j: int| 0 <= i < j < prior.len() implies prior[i].row.id
            != prior[j].row.id by {
            assert(prior[i] == s[i]);
            assert(prior[j] == s[j]);
        }
        lemma_import_unique(cfg, prior);
        let rest = import_spec(cfg, prior);
        let t = import_spec(cfg, s);
        if eligible(s.last()) {
            let d = snap_doc_spec(cfg, s.last());
            assert(!has_doc_id(rest, d.id)) by {
                if has_doc_id(rest, d.id) {
                    lemma_import_ids_from_rows(cfg, prior, d.id);
                    let i = choose|i: int|
                        0 <= i < prior.len() && eligible(#[trigger] prior[i]) && d.id
                            == doc_id_spec(cfg.host_tag, prior[i].row.id);
                    lemma_doc_id_injective(cfg.host_tag, prior[i].row.id, s.last().row.id);
                    assert(s[i].row.id == s[s.len() - 1].row.id);
                    assert(false);
                }
            }
            assert(t =~= rest.push(d));
            assert forall|k: int, l: int| 0 <= k < l < t.len() implies t[k].id != t[l].id by {
                if l < rest.len() {
                } else {
                    assert(t[l] == d);
                    assert(t[k] == rest[k]);
                    assert(rest[k].id != d.id);
                }
            }
        } else {
            assert(t =~= rest);
        }
    }
}

/// Law (census of a full reindex): over a snapshot whose searchable entities
/// all have a resolvable owner, the fresh document set holds exactly one
/// document per searchable entity — its length plus the number of
/// non-searchable entities is the snapshot's length, and each searchable
/// entity's document is present.
pub proof fn lemma_reindex_census(cfg: ConfigView, s: Seq<SnapView>)
    requires
        forall|i: int|
            0 <= i < s.len() && (#[trigger] s[i]).row.status.spec_is_searchable() ==> s[i].owner
                is Some,
    ensures
        import_spec(cfg, s).len() + count_unsearchable(s) == s.len(),
        forall|i: int|
            0 <= i < s.len() && (#[trigger] s[i]).row.status.spec_is_searchable()
                ==> import_spec(cfg, s).contains(snap_doc_spec(cfg, s[i])),
    decreases s.len(),
{
    if s.len() == 0 {
    } else {
        let prior = s.drop_last();
        assert forall|i: int|
            0 <= i < prior.len() && (#[trigger] prior[i]).row.status.spec_is_searchable() implies
            prior[i].owner is Some by {
            assert(prior[i] == s[i]);
        }
        lemma_reindex_census(cfg, prior);
        assert(s.last() == s[s.len() - 1]);
        if s.last().row.status.spec_is_searchable() {
            assert(eligible(s.last()));
        }
    }
    assert forall|i: int|
        0 <= i < s.len() && (#[trigger] s[i]).row.status.spec_is_searchable() implies import_spec(
        cfg,
        s,
    ).contains(snap_doc_spec(cfg, s[i])) by {
        lemma_eligible_in_import(cfg, s, i);
    }
}

/// Law (no stale entry after a reindex): a non-searchable entity's document
/// id is absent from the fresh document set.
pub proof fn lemma_unsearchable_absent(cfg: ConfigView, s: Seq<SnapView>, i: int)
    requires
        unique_row_ids(s),
        0 <= i < s.len(),
        !s[i].row.status.spec_is_searchable(),
    ensures
        !has_doc_id(import_spec(cfg, s), doc_id_spec(cfg.host_tag, s[i].row.id)),
{
    let x = doc_id_spec(cfg.host_tag, s[i].row.id);
    if has_doc_id(import_spec(cfg, s), x) {
        lemma_import_ids_from_rows(cfg, s, x);
        let j = choose|j: int|
            0 <= j < s.len() && eligible(#[trigger] s[j]) && x == doc_id_spec(
                cfg.host_tag,
                s[j].row.id,
            );
        lemma_doc_id_injective(cfg.host_tag, s[j].row.id, s[i].row.id);
        if i != j {
            if i < j {
                assert(s[i].row.id != s[j].row.id);
            } else {
                assert(s[j].row.id != s[i].row.id);
            }
        }
        assert(false);
    }
}

/// Streams the snapshot through the document mapper: filters to the
/// searchable subset, skips entities whose owner did not resolve, and maps
/// every survivor to its search document.
pub fn import_all(cfg: &SearchConfig, snapshot: &Vec<EntitySnapshot>) -> (docs: Vec<
    SearchDocument,
>)
    ensures
        docs.deep_view() == import_spec(cfg@, snapshot.deep_view()),
{
    let ghost sv = snapshot.deep_view();
    let mut docs: Vec<SearchDocument> = Vec::new();
    let n = snapshot.len();
    let mut i: usize = 0;
    proof {
        assert(sv.take(0) =~= Seq::<SnapView>::empty());
        assert(docs.deep_view() =~= import_spec(cfg@, sv.take(0)));
    }
    #[verifier::loop_isolation(false)]
    while i < n
        invariant
            0 <= i <= n,
            n == snapshot@.len(),
            docs.deep_view() == import_spec(cfg@, sv.take(i as int)),
        decreases n - i,
    {
        let ghost pre = docs.deep_view();
        proof {
            assert(sv.take(i + 1).drop_last() =~= sv.take(i as int));
            assert(sv.take(i + 1).last() == sv[i as int]);
        }
        let entry = &snapshot[i];
        proof {
            assert(sv[i as int] == entry.deep_view());
        }
        if entry.row.status.is_searchable() {
            match &entry.owner {
                Some(o) => {
                    let cats = entry.categories.clone();
                    proof {
                        assert(cats.deep_view() =~= entry.categories.deep_view()) by {
                            assert forall|j: int|
                                0 <= j < cats.deep_view().len() implies cats.deep_view()[j]
                                == entry.categories.deep_view()[j] by {
                                assert(cloned::<String>(entry.categories[j], cats[j]));
                            }
                        }
                    }
                    let d = map_document(cfg, &entry.row, o, cats);
                    docs.push(d);
                    proof {
                        assert(eligible(sv[i as int]));
                        assert(d@ == snap_doc_spec(cfg@, sv[i as int]));
                        assert(docs.deep_view() =~= pre.push(d@));
                        assert(pre.push(d@) =~= import_spec(cfg@, sv.take(i + 1)));
                    }
                },
                None => {
                    proof {
                        assert(!eligible(sv[i as int]));
                        assert(import_spec(cfg@, sv.take(i + 1)) =~= pre);
                    }
                },
            }
        } else {
            proof {
                assert(!eligible(sv[i as int]));
                assert(import_spec(cfg@, sv.take(i + 1)) =~= pre);
            }
        }
        i = i + 1;
    }
    proof {
        assert(sv.take(n as int) =~= sv);
    }
    docs
}

/// The index contents after one full reindex over snapshot `snap`, starting
/// from any prior contents `prior`: the fresh import alone.  That the prior
/// contents do not appear on the right-hand side is the self-healing
/// property, stated by [`lemma_reindex_independent_of_prior`].
pub open spec fn index_after_reindex(
    prior: Seq<DocView>,
    cfg: ConfigView,
    snap: Seq<SnapView>,
) -> Seq<DocView> {
    import_spec(cfg, snap)
}

/// Law (self-healing, idempotence): two full reindex runs over the same
/// snapshot end in identical index contents, whatever the index held before
/// each run — whether the first run's own result (running the reindex twice
/// in a row changes nothing) or a state missing updates because a flush
/// tick's engine call failed and its batch was dropped.
pub proof fn lemma_reindex_independent_of_prior(
    prior1: Seq<DocView>,
    prior2: Seq<DocView>,
    cfg: ConfigView,
    snap: Seq<SnapView>,
)
    ensures
        index_after_reindex(prior1, cfg, snap) == index_after_reindex(prior2, cfg, snap),
{
}

/// One full reindex run against the index model: imports the snapshot and
/// replaces the index contents with the result.
pub fn run_full_reindex(
    cfg: &SearchConfig,
    snapshot: &Vec<EntitySnapshot>,
    index: &mut SearchIndex,
)
    requires
        unique_row_ids(snapshot.deep_view()),
    ensures
        final(index).wf(),
        final(index)@ == index_after_reindex(old(index)@, cfg@, snapshot.deep_view()),
{
    let docs = import_all(cfg, snapshot);
    proof {
        lemma_import_unique(cfg@, snapshot.deep_view());
    }
    index.apply_full_reindex(docs);
}

/// The ids among `cur` (the ids the index currently holds) that the fresh
/// document set does not carry — the documents a diff-and-remove reindex
/// deletes so that nothing stale outlives the run.
pub open spec fn removals_spec(cur: Seq<Seq<char>>, fresh: Seq<DocView>) -> Seq<Seq<char>>
    decreases cur.len(),
{
    if cur.len() == 0 {
        Seq::<Seq<char>>::empty()
    } else {
        removals_spec(cur.drop_last(), fresh) + if has_doc_id(fresh, cur.last()) {
            Seq::<Seq<char>>::empty()
        } else {
            seq![cur.last()]
        }
    }
}

/// Whether some document of `docs` carries the id `id`.
pub fn docs_have_id(docs: &Vec<SearchDocument>, id: &str) -> (r: bool)
    ensures
        r == has_doc_id(docs.deep_view(), id@),
{
    let n = docs.len();
    let mut i: usize = 0;
    #[verifier::loop_isolation(false)]
    while i < n
        invariant
            0 <= i <= n,
            n == docs@.len(),
            forall|j: int| 0 <= j < i ==> docs.deep_view()[j].id != id@,
        decreases n - i,
    {
        if str_eq(docs[i].id.as_str(), id) {
            proof {
                assert(docs.deep_view()[i as int].id == id@);
            }
            return true;
        }
        i = i + 1;
    }
    false
}

/// Computes the stale ids a diff-and-remove reindex must delete: the
/// currently indexed ids that the fresh document set no longer carries.
pub fn reindex_removals(current_ids: &Vec<String>, fresh: &Vec<SearchDocument>) -> (r: Vec<String>)
    ensures
        r.deep_view() == removals_spec(current_ids.deep_view(), fresh.deep_view()),
{
    let ghost cv = current_ids.deep_view();
    let mut out: Vec<String> = Vec::new();
    let n = current_ids.len();
    let mut i: usize = 0;
    proof {
        assert(cv.take(0) =~= Seq::<Seq<char>>::empty());
        assert(out.deep_view() =~= removals_spec(cv.take(0), fresh.deep_view()));
    }
    #[verifier::loop_isolation(false)]
    while i < n
        invariant
            0 <= i <= n,
            n == current_ids@.len(),
            out.deep_view() == removals_spec(cv.take(i as int), fresh.deep_view()),
        decreases n - i,
    {
        let ghost pre = out.deep_view();
        proof {
            assert(cv.take(i + 1).drop_last() =~= cv.take(i as int));
            assert(cv.take(i + 1).last() == cv[i as int]);
        }
        if !docs_have_id(fresh, current_ids[i].as_str()) {
            let id = current_ids[i].clone();
            out.push(id);
            proof {
                assert(out.deep_view() =~= pre.push(cv[i as int]));
                assert(pre.push(cv[i as int]) =~= removals_spec(
                    cv.take(i + 1),
                    fresh.deep_view(),
                ));
            }
        } else {
            proof {
                assert(removals_spec(cv.take(i + 1), fresh.deep_view()) =~= pre);
            }
        }
        i = i + 1;
    }
    proof {
        assert(cv.take(n as int) =~= cv);
    }
    out
}

} // verus!
