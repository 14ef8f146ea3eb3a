//! A mod as the primary store holds it: the raw row and the enriched query
//! result with its joins.  Reading and writing these rows is database work
//! done by the surrounding process; here they are the plain values that work
//! hands over.

use vstd::prelude::*;
use crate::db_ids::{DonationPlatformId, ModId, StatusId, TeamId, VersionId};
use crate::status::ModStatus;

verus! {

/// One donation link of a mod, as joined from the donations table.
#[derive(Clone, Debug)]
pub struct DonationUrl {
    pub mod_id: ModId,
    pub platform_id: DonationPlatformId,
    pub platform_short: String,
    pub platform_name: String,
    pub url: String,
}

/// One row of the mods table.
#[derive(Clone, Debug)]
pub struct Mod {
    pub id: ModId,
    pub team_id: TeamId,
    pub title: String,
    pub description: String,
    pub body: String,
    pub body_url: Option<String>,
    pub published: i64,
    pub updated: i64,
    pub status: StatusId,
    pub is_nsfw: bool,
    pub downloads: i32,
    pub follows: i32,
    pub icon_url: Option<String>,
    pub issues_url: Option<String>,
    pub source_url: Option<String>,
    pub wiki_url: Option<String>,
    pub discord_url: Option<String>,
    pub slug: Option<String>,
}

/// A mod row together with its joins: category tags, version ids, donation
/// links, dependency ids (as decimal strings, as the join aggregates them)
/// and the status resolved against the status table.
pub struct QueryMod {
    pub inner: Mod,
    pub categories: Vec<String>,
    pub versions: Vec<VersionId>,
    pub donation_urls: Vec<DonationUrl>,
    pub dependencies: Vec<String>,
    pub status: ModStatus,
}

impl QueryMod {
    /// What a row read back from the store satisfies: a slug was stored (the
    /// store lower-cases and keeps one for every mod) and the counters are
    /// non-negative.
    pub open spec fn wf(&self) -> bool {
        &&& self.inner.slug is Some
        &&& self.inner.downloads >= 0
        &&& self.inner.follows >= 0
    }
}

} // verus!
