//! The categories of fatal failure.

use vstd::prelude::*;

verus! {

/// Why a bootstrap was abandoned.
///
/// None of these is recoverable except `WorkerFailure`, which the entry of the
/// new process turns into an exit status.
#[derive(Clone, Copy, Debug, PartialEq, Eq, Structural)]
pub enum Failure {
    /// Mapping, protecting or unmapping the stack failed.
    AllocationFailure,
    /// Process creation returned an invalid process id.
    SpawnFailure,
    /// A write to an identity-mapping file was rejected or incomplete.
    IdentityWriteFailure,
    /// A mount, unmount, root switch or directory change failed.
    MountFailure,
    /// A directory could not be created, listed or removed, or the old root
    /// was not empty.
    FilesystemFailure,
    /// A step of the barrier or the wait for the new process failed.
    SyncFailure,
    /// The supervised unit of work in the new process ended abnormally.
    WorkerFailure,
}

} // verus!
