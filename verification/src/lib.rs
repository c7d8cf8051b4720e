//! Update-synchronization engine for a large file-tree-based installation.
//!
//! The library decides which files of a local installation differ from an
//! authoritative remote manifest, plans the minimal set of downloads,
//! verifies the integrity of downloaded content against the manifest's
//! hashes, and computes the progress figures reported to an observer.
//! All decision logic lives here and is verified; the surrounding process
//! (filesystem walks, HTTP transfers, JSON parsing) hands plain values in
//! and takes plain values back.

pub mod cache;
pub mod config;
pub mod credentials;
pub mod download;
pub mod errors;
pub mod events;
pub mod hashing;
pub mod manifest;
pub mod paths;
pub mod planner;
pub mod records;
pub mod strmap;
