//! The search document: the denormalized, engine-facing record of one mod.

use vstd::prelude::*;
use crate::digits::{dec_digits, lemma_dec_digits_injective, push_dec};

verus! {

/// One document as stored in the search index.
///
/// `id` is the sole key of the index: upserting a document with an existing
/// id fully replaces the prior one, and deleting by id removes it.  The id is
/// stable for the lifetime of the entity and is formed as
/// `<host-tag>-<entity-id>` (see [`doc_id_spec`]), the host tag
/// disambiguating this system's documents in an index shared across content
/// sources.
///
/// `created_timestamp` and `modified_timestamp` carry the creation and
/// modification instants as epoch seconds; the engine-facing serialization
/// materializes each once more as a datetime string for display, both wire
/// fields being functions of the same instant held here.
#[derive(Clone, Debug, PartialEq)]
pub struct SearchDocument {
    pub id: String,
    pub title: String,
    pub description: String,
    pub categories: Vec<String>,
    pub downloads: u32,
    pub follows: u32,
    pub page_url: String,
    pub icon_url: String,
    pub author: String,
    pub author_url: String,
    pub created_timestamp: i64,
    pub modified_timestamp: i64,
    pub is_nsfw: bool,
    pub slug: Option<String>,
}

/// The mathematical value of a [`SearchDocument`]: every text field as its
/// character sequence.
#[verifier::ext_equal]
pub ghost struct DocView {
    pub id: Seq<char>,
    pub title: Seq<char>,
    pub description: Seq<char>,
    pub categories: Seq<Seq<char>>,
    pub downloads: u32,
    pub follows: u32,
    pub page_url: Seq<char>,
    pub icon_url: Seq<char>,
    pub author: Seq<char>,
    pub author_url: Seq<char>,
    pub created_timestamp: i64,
    pub modified_timestamp: i64,
    pub is_nsfw: bool,
    pub slug: Option<Seq<char>>,
}

impl View for SearchDocument {
    type V = DocView;

    open spec fn view(&self) -> DocView {
        DocView {
            id: self.id@,
            title: self.title@,
            description: self.description@,
            categories: self.categories.deep_view(),
            downloads: self.downloads,
            follows: self.follows,
            page_url: self.page_url@,
            icon_url: self.icon_url@,
            author: self.author@,
            author_url: self.author_url@,
            created_timestamp: self.created_timestamp,
            modified_timestamp: self.modified_timestamp,
            is_nsfw: self.is_nsfw,
            slug: self.slug.deep_view(),
        }
    }
}

impl DeepView for SearchDocument {
    type V = DocView;

    open spec fn deep_view(&self) -> DocView {
        self.view()
    }
}

/// The document id of the entity `id` under host tag `host`:
/// `<host-tag>-<decimal entity id>`.
pub open spec fn doc_id_spec(host: Seq<char>, id: u64) -> Seq<char> {
    host + seq!['-'] + dec_digits(id as nat)
}

/// Under one host tag, distinct entities get distinct document ids.
pub proof fn lemma_doc_id_injective(host: Seq<char>, a: u64, b: u64)
    requires
        doc_id_spec(host, a) == doc_id_spec(host, b),
    ensures
        a == b,
{
    let p = host + seq!['-'];
    let da = dec_digits(a as nat);
    let db = dec_digits(b as nat);
    assert((p + da).len() == (p + db).len());
    assert(da =~= db) by {
        assert forall|i: int| 0 <= i < da.len() implies da[i] == db[i] by {
            assert((p + da)[p.len() + i] == da[i]);
            assert((p + db)[p.len() + i] == db[i]);
        }
    }
    lemma_dec_digits_injective(a as nat, b as nat);
}

/// Builds the document id of entity `id` under host tag `host`.
pub fn make_doc_id(host: &str, id: u64) -> (r: String)
    ensures
        r@ == doc_id_spec(host@, id),
{
    let mut s = String::from_str(host);
    s.append("-");
    proof {
        reveal_strlit("-");
        assert(s@ =~= host@ + seq!['-']);
    }
    push_dec(id, &mut s);
    proof {
        assert(s@ =~= doc_id_spec(host@, id));
    }
    s
}

/// Whether some document in `s` carries the id `id`.
pub open spec fn has_doc_id(s: Seq<DocView>, id: Seq<char>) -> bool {
    exists|i: int| 0 <= i < s.len() && #[trigger] s[i].id == id
}

/// Whether the documents of `s` carry pairwise distinct ids.
pub open spec fn unique_ids(s: Seq<DocView>) -> bool {
    forall|i: int, j: int| 0 <= i < j < s.len() ==> #[trigger] s[i].id != #[trigger] s[j].id
}

/// String equality by contents.
pub fn str_eq(a: &str, b: &str) -> (r: bool)
    ensures
        r == (a@ == b@),
{
    String::from_str(a).eq(&String::from_str(b))
}

/// What adding one document to an id-keyed collection does: afterwards the
/// collection holds `d` itself, holds an id exactly if it held it before or
/// it is `d`'s, keeps every entry whose id differs from `d`'s, holds nothing
/// else, and grows by one entry only if `d`'s id was absent.
pub open spec fn upsert_effect(pre: Seq<DocView>, d: DocView, post: Seq<DocView>) -> bool {
    &&& unique_ids(post)
    &&& post.contains(d)
    &&& (forall|x: Seq<char>| has_doc_id(post, x) <==> (has_doc_id(pre, x) || x == d.id))
    &&& (forall|e: DocView| pre.contains(e) && e.id != d.id ==> post.contains(e))
    &&& (forall|e: DocView| post.contains(e) ==> (e == d || (pre.contains(e) && e.id != d.id)))
    &&& post.len() == if has_doc_id(pre, d.id) {
        pre.len()
    } else {
        pre.len() + 1
    }
}

/// Inserts `doc` into an id-keyed document vector, replacing the entry with
/// the same id if one exists and appending otherwise.
pub fn upsert_into(entries: &mut Vec<SearchDocument>, doc: SearchDocument)
    requires
        unique_ids(old(entries).deep_view()),
    ensures
        unique_ids(final(entries).deep_view()),
        upsert_effect(old(entries).deep_view(), doc@, final(entries).deep_view()),
{
    let ghost pre = entries.deep_view();
    let n = entries.len();
    let mut i: usize = 0;
    #[verifier::loop_isolation(false)]
    while i < n
        invariant
            0 <= i <= n,
            n == entries.len(),
            entries.deep_view() == pre,
            unique_ids(pre),
            forall|j: int| 0 <= j < i ==> pre[j].id != doc@.id,
        decreases n - i,
    {
        if str_eq(entries[i].id.as_str(), doc.id.as_str()) {
            proof {
                assert(pre[i as int].id == doc@.id);
            }
            entries.set(i, doc);
            proof {
                let post = entries.deep_view();
                assert forall|j: int| 0 <= j < post.len() implies post[j] == if j == i {
                    doc@
                } else {
                    pre[j]
                } by {}
                assert(post[i as int] == doc@);
                assert(post.contains(doc@));
                assert forall|k: int, l: int| 0 <= k < l < post.len() implies post[k].id
                    != post[l].id by {
                    assert(post[k].id == pre[k].id);
                    assert(post[l].id == pre[l].id);
                }
                assert forall|x: Seq<char>| has_doc_id(post, x) <==> (has_doc_id(pre, x) || x
                    == doc@.id) by {
                    if has_doc_id(post, x) {
                        let j = choose|j: int| 0 <= j < post.len() && post[j].id == x;
                        if j != i {
                            assert(pre[j].id == x);
                        }
                    }
                    if has_doc_id(pre, x) {
                        let j = choose|j: int| 0 <= j < pre.len() && pre[j].id == x;
                        if j == i {
                            assert(x == doc@.id);
                        } else {
                            assert(post[j].id == x);
                        }
                    }
                    if x == doc@.id {
                        assert(post[i as int].id == x);
                    }
                }
                assert forall|e: DocView| pre.contains(e) && e.id != doc@.id implies post.contains(
                    e,
                ) by {
                    let j = choose|j: int| 0 <= j < pre.len() && pre[j] == e;
                    assert(j != i);
                    assert(post[j] == e);
                }
                assert forall|e: DocView| post.contains(e) implies (e == doc@ || (pre.contains(e)
                    && e.id != doc@.id)) by {
                    let j = choose|j: int| 0 <= j < post.len() && post[j] == e;
                    if j != i {
                        assert(pre[j] == e);
                        assert(pre[j].id != pre[i as int].id);
                    }
                }
                assert(has_doc_id(pre, doc@.id)) by {
                    assert(pre[i as int].id == doc@.id);
                }
                assert(upsert_effect(pre, doc@, entries.deep_view()));
            }
            return ;
        }
        i = i + 1;
    }
    entries.push(doc);
    proof {
        let post = entries.deep_view();
        assert(post =~= pre.push(doc@));
        assert(!has_doc_id(pre, doc@.id));
        lemma_push_contains(pre, doc@, doc@);
        assert forall|k: int, l: int| 0 <= k < l < post.len() implies post[k].id != post[l].id by {
            if l < pre.len() {
            } else {
                assert(post[l] == doc@);
                assert(post[k] == pre[k]);
            }
        }
        assert forall|x: Seq<char>| has_doc_id(post, x) <==> (has_doc_id(pre, x) || x == doc@.id)
            by {
            lemma_push_has_id(pre, doc@, x);
        }
        assert forall|e: DocView| pre.contains(e) && e.id != doc@.id implies post.contains(e) by {
            lemma_push_contains(pre, doc@, e);
        }
        assert forall|e: DocView| post.contains(e) implies (e == doc@ || (pre.contains(e) && e.id
            != doc@.id)) by {
            lemma_push_contains(pre, doc@, e);
            if e != doc@ {
                let j = choose|j: int| 0 <= j < pre.len() && pre[j] == e;
                assert(pre[j].id != doc@.id);
            }
        }
        assert(upsert_effect(pre, doc@, entries.deep_view()));
    }
}

pub proof fn lemma_push_contains(s: Seq<DocView>, d: DocView, e: DocView)
    ensures
        s.push(d).contains(e) <==> (s.contains(e) || e == d),
{
    let t = s.push(d);
    if t.contains(e) {
        let i = choose|i: int| 0 <= i < t.len() && t[i] == e;
        if i < s.len() {
            assert(s[i] == e);
        } else {
            assert(e == d);
        }
    }
    if s.contains(e) {
        let i = choose|i: int| 0 <= i < s.len() && s[i] == e;
        assert(t[i] == e);
    }
    if e == d {
        assert(t[s.len() as int] == e);
    }
}

pub proof fn lemma_concat_contains(a: Seq<DocView>, b: Seq<DocView>, e: DocView)
    ensures
        (a + b).contains(e) <==> (a.contains(e) || b.contains(e)),
{
    let t = a + b;
    if t.contains(e) {
        let i = choose|i: int| 0 <= i < t.len() && t[i] == e;
        if i < a.len() {
            assert(a[i] == e);
        } else {
            assert(b[i - a.len()] == e);
        }
    }
    if a.contains(e) {
        let i = choose|i: int| 0 <= i < a.len() && a[i] == e;
        assert(t[i] == e);
    }
    if b.contains(e) {
        let i = choose|i: int| 0 <= i < b.len() && b[i] == e;
        assert(t[a.len() + i] == e);
    }
}

pub proof fn lemma_concat_has_id(a: Seq<DocView>, b: Seq<DocView>, x: Seq<char>)
    ensures
        has_doc_id(a + b, x) <==> (has_doc_id(a, x) || has_doc_id(b, x)),
{
    let t = a + b;
    if has_doc_id(t, x) {
        let i = choose|i: int| 0 <= i < t.len() && t[i].id == x;
        if i < a.len() {
            assert(a[i].id == x);
        } else {
            assert(b[i - a.len()].id == x);
        }
    }
    if has_doc_id(a, x) {
        let i = choose|i: int| 0 <= i < a.len() && a[i].id == x;
        assert(t[i].id == x);
    }
    if has_doc_id(b, x) {
        let i = choose|i: int| 0 <= i < b.len() && b[i].id == x;
        assert(t[a.len() + i].id == x);
    }
}

pub proof fn lemma_push_has_id(s: Seq<DocView>, d: DocView, x: Seq<char>)
    ensures
        has_doc_id(s.push(d), x) <==> (has_doc_id(s, x) || d.id == x),
{
    let t = s.push(d);
    if has_doc_id(t, x) {
        let i = choose|i: int| 0 <= i < t.len() && t[i].id == x;
        if i < s.len() {
            assert(s[i].id == x);
        }
    }
    if has_doc_id(s, x) {
        let i = choose|i: int| 0 <= i < s.len() && s[i].id == x;
        assert(t[i].id == x);
    }
    if d.id == x {
        assert(t[s.len() as int].id == x);
    }
}

} // verus!
