//! The public-facing mod record and the conversion from a primary-store
//! query result to it.

use vstd::prelude::*;
use crate::digits::{all_dec_digits, dec_val, parse_u64};
use crate::ids::{ModId, TeamId, VersionId};
use crate::mod_item::{DonationUrl, QueryMod};
use crate::status::ModStatus;

verus! {

/// One donation link as the API reports it.
#[derive(Clone, Debug)]
pub struct DonationLink {
    pub id: String,
    pub platform: String,
    pub url: String,
}

/// How a dependency binds.
#[derive(Clone, Copy, Debug, PartialEq, Eq, Structural)]
pub enum DependencyType {
    Required,
    Optional,
}

/// One dependency of a mod on another mod.
#[derive(Clone, Debug)]
pub struct Dependency {
    pub mod_id: ModId,
    pub dependency_type: DependencyType,
    pub min_version_num: Option<String>,
}

/// A mod as returned from the API.
#[derive(Clone, Debug)]
pub struct Mod {
    pub id: ModId,
    pub slug: String,
    pub team: TeamId,
    pub title: String,
    pub description: String,
    pub body: String,
    pub body_url: Option<String>,
    pub published: i64,
    pub updated: i64,
    pub status: ModStatus,
    pub is_nsfw: bool,
    pub downloads: u32,
    pub followers: u32,
    pub categories: Vec<String>,
    pub versions: Vec<VersionId>,
    pub icon_url: Option<String>,
    pub issues_url: Option<String>,
    pub source_url: Option<String>,
    pub wiki_url: Option<String>,
    pub discord_url: Option<String>,
    pub donation_urls: Option<Vec<DonationLink>>,
    pub dependencies: Option<Vec<Dependency>>,
}

/// A batch mod lookup: a serialized list of mod ids.
#[derive(Clone, Debug)]
pub struct ModIds {
    pub ids: String,
}

/// A mod edit request: each present field is to be updated, each absent one
/// left alone.  The doubly optional URL fields distinguish "leave alone"
/// (outer `None`) from "clear" (inner `None`).
#[derive(Clone, Debug)]
pub struct EditMod {
    pub title: Option<String>,
    pub description: Option<String>,
    pub body: Option<String>,
    pub status: Option<ModStatus>,
    pub categories: Option<Vec<String>>,
    pub issues_url: Option<Option<String>>,
    pub source_url: Option<Option<String>>,
    pub wiki_url: Option<Option<String>>,
    pub discord_url: Option<Option<String>>,
    pub donation_urls: Option<Vec<DonationLink>>,
    pub slug: Option<Option<String>>,
    pub is_nsfw: Option<bool>,
}

/// The file extension of an uploaded icon.
#[derive(Clone, Debug)]
pub struct Extension {
    pub ext: String,
}

/// How a donation link is derived from its stored row.
pub open spec fn link_of_row(l: DonationLink, d: DonationUrl) -> bool {
    &&& l.id == d.platform_short
    &&& l.platform == d.platform_name
    &&& l.url == d.url
}

/// The mod id a stored dependency string denotes: its decimal value, or 0
/// where the string is not a decimal `u64` (a malformed row degrades to a
/// placeholder rather than failing the conversion).
pub open spec fn dep_mod_id_spec(s: Seq<char>) -> u64 {
    if s.len() > 0 && all_dec_digits(s) && dec_val(s) <= u64::MAX {
        dec_val(s) as u64
    } else {
        0
    }
}

/// Converts one enriched query result to the public mod record: ids are
/// re-keyed into the public id space, counters become unsigned, donation
/// rows become links, and dependency strings are parsed into mod ids.
pub fn convert_mod(data: QueryMod) -> (m: Mod)
    requires
        data.wf(),
    ensures
        m.id == ModId(data.inner.id.0 as u64),
        m.slug == data.inner.slug->0,
        m.team == TeamId(data.inner.team_id.0 as u64),
        m.title == data.inner.title,
        m.description == data.inner.description,
        m.body == data.inner.body,
        m.body_url == data.inner.body_url,
        m.published == data.inner.published,
        m.updated == data.inner.updated,
        m.status == data.status,
        m.is_nsfw == data.inner.is_nsfw,
        m.downloads == data.inner.downloads as u32,
        m.followers == data.inner.follows as u32,
        m.categories == data.categories,
        m.versions@.len() == data.versions@.len(),
        forall|i: int|
            0 <= i < data.versions@.len() ==> m.versions@[i] == VersionId(
                #[trigger] data.versions@[i].0 as u64,
            ),
        m.icon_url == data.inner.icon_url,
        m.issues_url == data.inner.issues_url,
        m.source_url == data.inner.source_url,
        m.wiki_url == data.inner.wiki_url,
        m.discord_url == data.inner.discord_url,
        m.donation_urls is Some,
        m.donation_urls->0@.len() == data.donation_urls@.len(),
        forall|i: int|
            0 <= i < data.donation_urls@.len() ==> link_of_row(
                #[trigger] m.donation_urls->0@[i],
                data.donation_urls@[i],
            ),
        data.dependencies@.len() == 0 ==> m.dependencies is None,
        data.dependencies@.len() > 0 ==> {
            &&& m.dependencies is Some
            &&& m.dependencies->0@.len() == data.dependencies@.len()
            &&& forall|i: int|
                0 <= i < data.dependencies@.len() ==> {
                    &&& (#[trigger] m.dependencies->0@[i]).mod_id == ModId(
                        dep_mod_id_spec(data.dependencies@[i]@),
                    )
                    &&& m.dependencies->0@[i].dependency_type == DependencyType::Required
                    &&& m.dependencies->0@[i].min_version_num is None
                }
        },
{
    let QueryMod { inner, categories, versions, donation_urls, dependencies, status } = data;

    let mut out_versions: Vec<VersionId> = Vec::new();
    let n = versions.len();
    let mut i: usize = 0;
    #[verifier::loop_isolation(false)]
    while i < n
        invariant
            0 <= i <= n,
            n == versions@.len(),
            out_versions@.len() == i,
            forall|j: int|
                0 <= j < i ==> out_versions@[j] == VersionId(#[trigger] versions@[j].0 as u64),
        decreases n - i,
    {
        let v = versions[i];
        out_versions.push(VersionId(#[verifier::truncate] (v.0 as u64)));
        i = i + 1;
    }

    let mut links: Vec<DonationLink> = Vec::new();
    let ghost donations_orig = donation_urls@;
    let mut donations_rest = donation_urls;
    #[verifier::loop_isolation(false)]
    while donations_rest.len() > 0
        invariant
            links@.len() + donations_rest@.len() == donations_orig.len(),
            donations_rest@ == donations_orig.skip(links@.len() as int),
            forall|j: int|
                0 <= j < links@.len() ==> link_of_row(#[trigger] links@[j], donations_orig[j]),
        decreases donations_rest@.len(),
    {
        let ghost k = links@.len() as int;
        let d = donations_rest.remove(0);
        proof {
            assert(d == donations_orig.skip(k)[0]);
            assert(d == donations_orig[k]);
            assert(donations_rest@ =~= donations_orig.skip(k + 1)) by {
                assert forall|j: int| 0 <= j < donations_rest@.len() implies donations_rest@[j]
                    == donations_orig.skip(k + 1)[j] by {
                    assert(donations_rest@[j] == donations_orig.skip(k)[j + 1]);
                }
            }
        }
        links.push(DonationLink { id: d.platform_short, platform: d.platform_name, url: d.url });
    }

    let deps: Option<Vec<Dependency>> = if dependencies.len() == 0 {
        None
    } else {
        let mut out: Vec<Dependency> = Vec::new();
        let ghost deps_orig = dependencies@;
        let mut deps_rest = dependencies;
        #[verifier::loop_isolation(false)]
        while deps_rest.len() > 0
            invariant
                out@.len() + deps_rest@.len() == deps_orig.len(),
                deps_rest@ == deps_orig.skip(out@.len() as int),
                forall|j: int|
                    0 <= j < out@.len() ==> {
                        &&& (#[trigger] out@[j]).mod_id == ModId(dep_mod_id_spec(deps_orig[j]@))
                        &&& out@[j].dependency_type == DependencyType::Required
                        &&& out@[j].min_version_num is None
                    },
            decreases deps_rest@.len(),
        {
            let ghost k = out@.len() as int;
            let s = deps_rest.remove(0);
            proof {
                assert(s == deps_orig.skip(k)[0]);
                assert(s == deps_orig[k]);
                assert(deps_rest@ =~= deps_orig.skip(k + 1)) by {
                    assert forall|j: int| 0 <= j < deps_rest@.len() implies deps_rest@[j]
                        == deps_orig.skip(k + 1)[j] by {
                        assert(deps_rest@[j] == deps_orig.skip(k)[j + 1]);
                    }
                }
            }
            let parsed = match parse_u64(s.as_str()) {
                Some(v) => v,
                None => 0,
            };
            out.push(
                Dependency {
                    mod_id: ModId(parsed),
                    dependency_type: DependencyType::Required,
                    min_version_num: None,
                },
            );
        }
        Some(out)
    };

    Mod {
        id: ModId(#[verifier::truncate] (inner.id.0 as u64)),
        slug: inner.slug.unwrap(),
        team: TeamId(#[verifier::truncate] (inner.team_id.0 as u64)),
        title: inner.title,
        description: inner.description,
        body: inner.body,
        body_url: inner.body_url,
        published: inner.published,
        updated: inner.updated,
        status,
        is_nsfw: inner.is_nsfw,
        downloads: inner.downloads as u32,
        followers: inner.follows as u32,
        categories,
        versions: out_versions,
        icon_url: inner.icon_url,
        issues_url: inner.issues_url,
        source_url: inner.source_url,
        wiki_url: inner.wiki_url,
        discord_url: inner.discord_url,
        donation_urls: Some(links),
        dependencies: deps,
    }
}

} // verus!
