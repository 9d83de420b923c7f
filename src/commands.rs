//! Plain values that the command layer hands to the front end.

use vstd::prelude::*;

verus! {

/// A file dropped onto the window: where it is, its name, and its size in bytes.
#[derive(Clone, Debug, PartialEq, Eq)]
pub struct AttachedFileInfo {
    pub file_path: String,
    pub file_name: String,
    pub size_bytes: u64,
}

/// Where the background worker process listens.
#[derive(Clone, Debug, PartialEq, Eq)]
pub struct SidecarConfig {
    pub host: String,
    pub port: u16,
}

} // verus!
