//! Data carried by the version-listing and file-download request handlers.
//! The handlers themselves are database and file-host work done by the
//! surrounding process.

use vstd::prelude::*;

verus! {

/// Filters a version listing accepts.
#[derive(Clone, Debug)]
pub struct VersionListFilters {
    pub game_versions: Option<String>,
    pub loaders: Option<String>,
    pub featured: Option<bool>,
}

/// A batch version lookup: a serialized list of version ids.
#[derive(Clone, Debug)]
pub struct VersionIds {
    pub ids: String,
}

/// The default hash algorithm for file lookups.
pub fn default_algorithm() -> (r: String)
    ensures
        r@ == "sha1"@,
{
    String::from_str("sha1")
}

/// The hash algorithm a file lookup is keyed by.
#[derive(Clone, Debug)]
pub struct Algorithm {
    algorithm: String,
}

impl Algorithm {
    pub fn new(algorithm: String) -> (a: Algorithm)
        ensures
            a.spec_algorithm() == algorithm@,
    {
        Algorithm { algorithm }
    }

    pub closed spec fn spec_algorithm(&self) -> Seq<char> {
        self.algorithm@
    }

    pub fn algorithm(&self) -> (r: &String)
        ensures
            r@ == self.spec_algorithm(),
    {
        &self.algorithm
    }
}

impl Default for Algorithm {
    /// Absent an explicit choice, file hashes are looked up by SHA-1.
    fn default() -> (a: Algorithm)
        ensures
            a.spec_algorithm() == "sha1"@,
    {
        Algorithm { algorithm: default_algorithm() }
    }
}

/// The redirect payload of a file download.
#[derive(Clone, Debug)]
pub struct DownloadRedirect {
    pub url: String,
}

} // verus!
