//! The persistent hash cache.
//!
//! A mapping from relative path to the file's last-known content hash
//! and the modification time observed when that hash was computed. An
//! entry is trusted only while the file's modification time is
//! unchanged; any mismatch forces a re-hash.

use vstd::prelude::*;
use crate::strmap::StrMap;

verus! {

/// What the cache records for one path: "as of this modification time,
/// this file's content hash was this value."
#[derive(Debug)]
pub struct CacheEntry {
    pub hash: String,
    pub last_modified: u64,
}

/// The mathematical image of a [`CacheEntry`].
pub struct CacheEntryView {
    pub hash: Seq<char>,
    pub last_modified: u64,
}

impl View for CacheEntry {
    type V = CacheEntryView;

    open spec fn view(&self) -> CacheEntryView {
        CacheEntryView { hash: self.hash@, last_modified: self.last_modified }
    }
}

impl DeepView for CacheEntry {
    type V = CacheEntryView;

    open spec fn deep_view(&self) -> CacheEntryView {
        self.view()
    }
}

impl CacheEntry {
    /// A field-for-field copy.
    pub fn duplicate(&self) -> (r: CacheEntry)
        ensures
            r@ == self@,
    {
        CacheEntry { hash: self.hash.clone(), last_modified: self.last_modified }
    }
}

/// The persistent hash cache: relative path to cache entry. Loaded once
/// at the start of a diff pass and written back once at the end.
pub type HashCache = StrMap<CacheEntry>;

} // verus!
