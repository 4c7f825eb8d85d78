use vstd::prelude::*;

verus! {

/// The classes of operating-system failure that the executors tell apart.
#[derive(Clone, Copy, Debug, PartialEq, Eq, Structural)]
pub enum IoKind {
    AlreadyExists,
    NotFound,
    PermissionDenied,
    Other,
}

/// A failed filesystem primitive: its class and the system's own message.
#[derive(Debug)]
pub struct IoFailure {
    pub kind: IoKind,
    pub message: String,
}

/// A failed file creation: either the file could not be created or its
/// content could not be written.
#[derive(Debug)]
pub enum FileFailure {
    Open(IoFailure),
    Write(IoFailure),
}

/// The single-purpose filesystem operations that provisioning is built on.
/// None of them retries; each reports its failure at once.
pub trait FileManager {
    /// Creates the directory `path`; fails with `AlreadyExists` if it exists.
    fn create_directory(&self, path: &str) -> Result<(), IoFailure>;

    /// Creates the file `path`, which must not exist yet, and writes
    /// `content` into it.
    fn create_file(&self, path: &str, content: &str) -> Result<(), FileFailure>;

    /// Removes the directory `path` with everything in it; fails with
    /// `NotFound` if it is absent.
    fn remove_directory(&self, path: &str) -> Result<(), IoFailure>;

    /// Removes the file `path`; fails with `NotFound` if it is absent.
    fn remove_file(&self, path: &str) -> Result<(), IoFailure>;
}

} // verus!
