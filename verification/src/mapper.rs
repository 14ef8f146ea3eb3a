//! The document mapper: one entity row plus its joins, mapped to one search
//! document.  Pure and deterministic given its inputs.

use vstd::prelude::*;
use crate::config::{ConfigView, SearchConfig};
use crate::digits::{dec_digits, push_dec};
use crate::document::{doc_id_spec, make_doc_id, DocView, SearchDocument};
use crate::status::ModStatus;

verus! {

/// One mod's row as read from the primary store: the display and search
/// fields, the status already resolved against the status table, and the
/// creation and update instants as epoch seconds.
pub struct EntityRow {
    pub id: u64,
    pub title: String,
    pub description: String,
    pub downloads: u32,
    pub follows: u32,
    pub icon_url: Option<String>,
    pub published: i64,
    pub updated: i64,
    pub team_id: u64,
    pub status: ModStatus,
    pub is_nsfw: bool,
    pub slug: Option<String>,
}

/// The mathematical value of an [`EntityRow`].
#[verifier::ext_equal]
pub ghost struct RowView {
    pub id: u64,
    pub title: Seq<char>,
    pub description: Seq<char>,
    pub downloads: u32,
    pub follows: u32,
    pub icon_url: Option<Seq<char>>,
    pub published: i64,
    pub updated: i64,
    pub team_id: u64,
    pub status: ModStatus,
    pub is_nsfw: bool,
    pub slug: Option<Seq<char>>,
}

impl View for EntityRow {
    type V = RowView;

    open spec fn view(&self) -> RowView {
        RowView {
            id: self.id,
            title: self.title@,
            description: self.description@,
            downloads: self.downloads,
            follows: self.follows,
            icon_url: self.icon_url.deep_view(),
            published: self.published,
            updated: self.updated,
            team_id: self.team_id,
            status: self.status,
            is_nsfw: self.is_nsfw,
            slug: self.slug.deep_view(),
        }
    }
}

impl DeepView for EntityRow {
    type V = RowView;

    open spec fn deep_view(&self) -> RowView {
        self.view()
    }
}

/// The owning account of a mod's team, as resolved by the ownership join.
pub struct OwnerInfo {
    pub id: u64,
    pub username: String,
}

/// The mathematical value of an [`OwnerInfo`].
#[verifier::ext_equal]
pub ghost struct OwnerView {
    pub id: u64,
    pub username: Seq<char>,
}

impl View for OwnerInfo {
    type V = OwnerView;

    open spec fn view(&self) -> OwnerView {
        OwnerView { id: self.id, username: self.username@ }
    }
}

impl DeepView for OwnerInfo {
    type V = OwnerView;

    open spec fn deep_view(&self) -> OwnerView {
        self.view()
    }
}

/// The exact document [`map_document`] produces: the id under the configured
/// host tag, the row's fields verbatim, the page and author URLs built from
/// the site base URL, the icon URL or the empty string, and both instants as
/// epoch seconds.
pub open spec fn map_doc_spec(
    cfg: ConfigView,
    row: RowView,
    owner: OwnerView,
    categories: Seq<Seq<char>>,
) -> DocView {
    DocView {
        id: doc_id_spec(cfg.host_tag, row.id),
        title: row.title,
        description: row.description,
        categories: categories,
        downloads: row.downloads,
        follows: row.follows,
        page_url: cfg.site_url + "/mod/"@ + dec_digits(row.id as nat),
        icon_url: match row.icon_url {
            Some(u) => u,
            None => Seq::<char>::empty(),
        },
        author: owner.username,
        author_url: cfg.site_url + "/user/"@ + dec_digits(owner.id as nat),
        created_timestamp: row.published,
        modified_timestamp: row.updated,
        is_nsfw: row.is_nsfw,
        slug: row.slug,
    }
}

/// Maps one entity row, its owning account and its category tags to the
/// search document that represents it in the index.
pub fn map_document(
    cfg: &SearchConfig,
    row: &EntityRow,
    owner: &OwnerInfo,
    categories: Vec<String>,
) -> (d: SearchDocument)
    ensures
        d@ == map_doc_spec(cfg@, row@, owner@, categories.deep_view()),
{
    let mut page_url = cfg.site_url.clone();
    page_url.append("/mod/");
    push_dec(row.id, &mut page_url);

    let mut author_url = cfg.site_url.clone();
    author_url.append("/user/");
    push_dec(owner.id, &mut author_url);

    let icon_url = match &row.icon_url {
        Some(u) => u.clone(),
        None => String::new(),
    };

    let slug = match &row.slug {
        Some(s) => Some(s.clone()),
        None => None,
    };

    let d = SearchDocument {
        id: make_doc_id(cfg.host_tag.as_str(), row.id),
        title: row.title.clone(),
        description: row.description.clone(),
        categories,
        downloads: row.downloads,
        follows: row.follows,
        page_url,
        icon_url,
        author: owner.username.clone(),
        author_url,
        created_timestamp: row.published,
        modified_timestamp: row.updated,
        is_nsfw: row.is_nsfw,
        slug,
    };
    proof {
        assert(d@.icon_url =~= map_doc_spec(cfg@, row@, owner@, categories.deep_view()).icon_url);
        assert(d@ =~= map_doc_spec(cfg@, row@, owner@, categories.deep_view()));
    }
    d
}

} // verus!
