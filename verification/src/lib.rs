//! A browsing-and-sharing gateway over a hierarchical storage backend.
//!
//! The library holds the verified core: the bounded two-level directory
//! listing, the file-operation result and error mapping, the in-memory
//! share registry with hash-derived share ids, and the gateway that
//! resolves share links and enforces the access policy.

use vstd::prelude::*;

pub mod paths;
pub mod share;
pub mod gateway;
pub mod listing;
pub mod fileops;
pub mod state;

verus! {

/// Metadata describing one entry of a directory listing.
///
/// `size` is depth-dependent by design: exact bytes for files, the
/// immediate child count for directories at the first level of a
/// listing, and zero for directories at the second level.
#[derive(Debug, Clone)]
pub struct FileInfo {
    pub name: String,
    pub path: String,
    pub size: u64,
    pub created: u64,
    pub modified: u64,
    pub is_directory: bool,
    pub permissions: String,
}

/// Access policy attached to a shared path.
///
/// A `Private` share is never served to anyone; only `Public` shares
/// can be retrieved through a share link.
#[derive(Debug, Clone, Copy, PartialEq, Eq, Structural)]
pub enum AuthScheme {
    Public,
    Private,
}

} // verus!
