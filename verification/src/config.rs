//! Configuration lookup.
//!
//! Configuration is an owned key-to-value map handed in by the caller;
//! the session-wide endpoint URLs live in [`SessionConfig`].

use vstd::prelude::*;
use vstd::pervasive::unreached;
use vstd::string::StringExecFns;
use crate::strmap::StrMap;

verus! {

/// A configuration document: string keys to string values.
pub type Config = StrMap<String>;

/// Returns the value a configuration holds for a key the caller knows
/// to be present. A caller that is not sure looks the key up with
/// [`StrMap::get`] instead.
pub fn get_config_value(config: &Config, key: &str) -> (r: String)
    requires
        config.wf(),
        config@.contains_key(key@),
    ensures
        r@ == config@[key@],
{
    match config.get(key) {
        Some(v) => v.clone(),
        None => unreached(),
    }
}

/// The two endpoint URLs one synchronization pass needs: where the
/// remote manifest document is fetched from, and the base the per-file
/// download URLs are derived from.
#[derive(Debug)]
pub struct SessionConfig {
    pub hash_file_url: String,
    pub files_server_url: String,
}

impl SessionConfig {
    /// Builds the session endpoints from the two configured URLs, or
    /// reports which one is unset: the manifest endpoint is checked
    /// first, then the file-server base.
    pub fn from_urls(hash_file_url: Option<String>, files_server_url: Option<String>) -> (r:
        Result<SessionConfig, crate::errors::SyncError>)
        ensures
            match r {
                Ok(c) => {
                    &&& hash_file_url matches Some(h) && c.hash_file_url@ == h@
                    &&& files_server_url matches Some(f) && c.files_server_url@ == f@
                },
                Err(e) => e is Config && (hash_file_url is None || files_server_url is None),
            },
    {
        match (hash_file_url, files_server_url) {
            (Some(h), Some(f)) => Ok(SessionConfig { hash_file_url: h, files_server_url: f }),
            (None, _) => Err(
                crate::errors::SyncError::Config(String::from_str("HASH_FILE_URL must be set")),
            ),
            (_, None) => Err(
                crate::errors::SyncError::Config(String::from_str("FILE_SERVER_URL must be set")),
            ),
        }
    }
}

} // verus!
