//! Interfaces for file-embedded metadata caching.
//!
//! A scan layer may read expensive per-file metadata, such as a columnar
//! footer, many times.  These traits let a runtime plug in a cache for
//! such entries; the codec itself never touches them, they are part of
//! the runtime surface the plans are handed to.

use vstd::prelude::*;

verus! {

/// Generic file-embedded metadata held by a [`FileMetadataCache`], such
/// as the footer and page index of a columnar data file.  An entry
/// reports the memory it pins so a bounded cache can account for it.
pub trait FileMetadata: Sized {
    /// The number of bytes this entry keeps alive while cached.
    fn memory_size(&self) -> usize;
}

/// A store of file-embedded metadata, one entry per file identity.  The
/// key stands for the file (for instance a digest of its location and
/// revision), so a refreshed file gets a new key and stale entries are
/// never served for it.
pub trait FileMetadataCache<M: FileMetadata>: Sized {
    /// The number of entries currently held.
    fn len(&self) -> usize;

    /// Looks up the entry stored for `key`.
    fn get(&self, key: u64) -> Option<&M>;

    /// Stores an entry for `key`, displacing any earlier one.
    fn put(&mut self, key: u64, value: M);

    /// Drops every entry.
    fn clear(&mut self);
}

} // verus!
