//! Configuration of the indexing subsystem.

use vstd::prelude::*;

verus! {

/// Everything the synchronization subsystem is configured with: the search
/// engine endpoint and its credential, the site base URL from which document
/// page and author URLs are built, the host tag that prefixes every document
/// id of this system in a shared index, and the periods of the two recurring
/// jobs.
pub struct SearchConfig {
    pub address: String,
    pub key: String,
    pub site_url: String,
    pub host_tag: String,
    pub flush_interval_secs: u64,
    pub reindex_interval_secs: u64,
}

/// The mathematical value of a [`SearchConfig`].
#[verifier::ext_equal]
pub ghost struct ConfigView {
    pub address: Seq<char>,
    pub key: Seq<char>,
    pub site_url: Seq<char>,
    pub host_tag: Seq<char>,
    pub flush_interval_secs: u64,
    pub reindex_interval_secs: u64,
}

impl View for SearchConfig {
    type V = ConfigView;

    open spec fn view(&self) -> ConfigView {
        ConfigView {
            address: self.address@,
            key: self.key@,
            site_url: self.site_url@,
            host_tag: self.host_tag@,
            flush_interval_secs: self.flush_interval_secs,
            reindex_interval_secs: self.reindex_interval_secs,
        }
    }
}

/// A configuration fault, fatal at process start: the process refuses to run
/// rather than index under a broken configuration.
#[derive(Clone, Copy, Debug, PartialEq, Eq, Structural)]
pub enum ConfigError {
    MissingAddress,
    MissingKey,
    MissingSiteUrl,
    MissingHostTag,
    ZeroFlushInterval,
    ZeroReindexInterval,
}

impl SearchConfig {
    /// A usable configuration: no field is empty and both job periods are
    /// positive.
    pub open spec fn wf(&self) -> bool {
        &&& self@.address.len() > 0
        &&& self@.key.len() > 0
        &&& self@.site_url.len() > 0
        &&& self@.host_tag.len() > 0
        &&& self@.flush_interval_secs > 0
        &&& self@.reindex_interval_secs > 0
    }

    /// Checks the configuration, reporting the first fault in field order.
    /// Returns `Ok` exactly when the configuration is usable.
    pub fn validate(&self) -> (r: Result<(), ConfigError>)
        ensures
            r is Ok <==> self.wf(),
            (r == Result::<(), ConfigError>::Err(ConfigError::MissingAddress)) <==> self@.address.len() == 0,
            (r == Result::<(), ConfigError>::Err(ConfigError::MissingKey)) <==> (self@.address.len() > 0
                && self@.key.len() == 0),
            (r == Result::<(), ConfigError>::Err(ConfigError::MissingSiteUrl)) <==> (self@.address.len() > 0
                && self@.key.len() > 0 && self@.site_url.len() == 0),
            (r == Result::<(), ConfigError>::Err(ConfigError::MissingHostTag)) <==> (self@.address.len() > 0
                && self@.key.len() > 0 && self@.site_url.len() > 0 && self@.host_tag.len() == 0),
            (r == Result::<(), ConfigError>::Err(ConfigError::ZeroFlushInterval)) <==> (self@.address.len()
                > 0 && self@.key.len() > 0 && self@.site_url.len() > 0 && self@.host_tag.len() > 0
                && self@.flush_interval_secs == 0),
            (r == Result::<(), ConfigError>::Err(ConfigError::ZeroReindexInterval)) <==> (self@.address.len()
                > 0 && self@.key.len() > 0 && self@.site_url.len() > 0 && self@.host_tag.len() > 0
                && self@.flush_interval_secs > 0 && self@.reindex_interval_secs == 0),
    {
        if self.address.as_str().is_empty() {
            Err(ConfigError::MissingAddress)
        } else if self.key.as_str().is_empty() {
            Err(ConfigError::MissingKey)
        } else if self.site_url.as_str().is_empty() {
            Err(ConfigError::MissingSiteUrl)
        } else if self.host_tag.as_str().is_empty() {
            Err(ConfigError::MissingHostTag)
        } else if self.flush_interval_secs == 0 {
            Err(ConfigError::ZeroFlushInterval)
        } else if self.reindex_interval_secs == 0 {
            Err(ConfigError::ZeroReindexInterval)
        } else {
            Ok(())
        }
    }
}

} // verus!
