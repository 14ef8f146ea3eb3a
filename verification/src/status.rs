//! Publication status of a mod and the searchable subset.

use vstd::prelude::*;

verus! {

/// Lifecycle status of a mod in the primary store.
///
/// Exactly the publicly visible statuses are *searchable*: the search index
/// must eventually contain a document for a mod if and only if its status is
/// searchable.  `Unlisted` mods stay reachable by direct link but never
/// appear in search results.
#[derive(Clone, Copy, Debug, PartialEq, Eq, Structural)]
pub enum ModStatus {
    Draft,
    Pending,
    Approved,
    Rejected,
    Unlisted,
}

impl ModStatus {
    /// The searchable subset: only approved mods are indexed.
    pub open spec fn spec_is_searchable(&self) -> bool {
        *self == ModStatus::Approved
    }

    #[verifier::when_used_as_spec(spec_is_searchable)]
    pub fn is_searchable(&self) -> (r: bool)
        ensures
            r == self.spec_is_searchable(),
    {
        match self {
            ModStatus::Approved => true,
            _ => false,
        }
    }

    /// Statuses whose mods are withheld from public view entirely
    /// (not merely from search).
    pub open spec fn spec_is_hidden(&self) -> bool {
        match *self {
            ModStatus::Draft => true,
            ModStatus::Pending => true,
            ModStatus::Rejected => true,
            ModStatus::Approved => false,
            ModStatus::Unlisted => false,
        }
    }

    #[verifier::when_used_as_spec(spec_is_hidden)]
    pub fn is_hidden(&self) -> (r: bool)
        ensures
            r == self.spec_is_hidden(),
    {
        match self {
            ModStatus::Draft => true,
            ModStatus::Pending => true,
            ModStatus::Rejected => true,
            ModStatus::Approved => false,
            ModStatus::Unlisted => false,
        }
    }

    /// How each status is stored in the primary store's `statuses` table.
    pub open spec fn spec_as_str(&self) -> Seq<char> {
        match *self {
            ModStatus::Draft => "draft"@,
            ModStatus::Pending => "pending"@,
            ModStatus::Approved => "approved"@,
            ModStatus::Rejected => "rejected"@,
            ModStatus::Unlisted => "unlisted"@,
        }
    }

    pub fn as_str(&self) -> (r: &'static str)
        ensures
            r@ == self.spec_as_str(),
    {
        match self {
            ModStatus::Draft => "draft",
            ModStatus::Pending => "pending",
            ModStatus::Approved => "approved",
            ModStatus::Rejected => "rejected",
            ModStatus::Unlisted => "unlisted",
        }
    }

    pub open spec fn spec_from_string(s: Seq<char>) -> ModStatus {
        if s == "draft"@ {
            ModStatus::Draft
        } else if s == "pending"@ {
            ModStatus::Pending
        } else if s == "approved"@ {
            ModStatus::Approved
        } else if s == "rejected"@ {
            ModStatus::Rejected
        } else {
            ModStatus::Unlisted
        }
    }

    /// Parses a status name from the primary store; unknown names fall back
    /// to `Unlisted`, the safe (non-searchable) default.
    pub fn from_string(string: &str) -> (r: ModStatus)
        ensures
            r == ModStatus::spec_from_string(string@),
    {
        let s = String::from_str(string);
        if s.eq(&String::from_str("draft")) {
            ModStatus::Draft
        } else if s.eq(&String::from_str("pending")) {
            ModStatus::Pending
        } else if s.eq(&String::from_str("approved")) {
            ModStatus::Approved
        } else if s.eq(&String::from_str("rejected")) {
            ModStatus::Rejected
        } else {
            ModStatus::Unlisted
        }
    }
}

} // verus!
