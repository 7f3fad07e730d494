//! In-process adapter implementing the client trait.

use vstd::prelude::*;
use crate::models::FileStorageClientV1;

verus! {

/// Local (same-process) implementation of `FileStorageClientV1`.
#[derive(Debug, Clone, Copy, PartialEq, Eq, Structural)]
pub struct FileStorageLocalClient;

impl FileStorageLocalClient {
    /// Create a new local client.
    pub fn new() -> (r: FileStorageLocalClient)
        ensures
            r == FileStorageLocalClient,
    {
        FileStorageLocalClient
    }
}

impl Default for FileStorageLocalClient {
    fn default() -> (r: FileStorageLocalClient)
        ensures
            r == FileStorageLocalClient,
    {
        FileStorageLocalClient
    }
}

impl FileStorageClientV1 for FileStorageLocalClient {
    fn module_name(&self) -> (r: &'static str)
        ensures
            r@ == "file-storage"@,
    {
        "file-storage"
    }
}

} // verus!
