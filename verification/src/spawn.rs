//! Creating the new process inside fresh namespaces.

use vstd::prelude::*;
use crate::failure::Failure;
use crate::flags::{
    clone_newns, clone_newns_bits, clone_newpid, clone_newpid_bits, clone_newuser,
    clone_newuser_bits, sigchld, sigchld_bits,
};
use crate::linux::{Reply, Request, RequestView};

verus! {

/// The flags of the process creation: a new user namespace, a new mount
/// namespace, a new process-id namespace, and a child signal for the creator
/// when the new process ends.
pub open spec fn namespace_flags_bits() -> i32 {
    clone_newuser_bits() | clone_newns_bits() | clone_newpid_bits() | sigchld_bits()
}

/// The process id that `reply` reports, if it reports a valid one: any value
/// that process creation returned but `-1`.
pub open spec fn spawned_pid(reply: Reply) -> Option<i32> {
    match reply {
        Reply::Returned { value } => if value != -1 {
            Some(value)
        } else {
            None
        },
        _ => None,
    }
}

/// The flags of the process creation.
pub fn namespace_flags() -> (r: i32)
    ensures
        r == namespace_flags_bits(),
{
    clone_newuser() | clone_newns() | clone_newpid() | sigchld()
}

/// The request to create the new process on the stack below `stack_top`,
/// with a context that holds the two endpoints of the barrier.
pub fn spawn(stack_top: usize, read_fd: i32, write_fd: i32) -> (r: Request)
    ensures
        r@ == (RequestView::Spawn {
            stack_top,
            flags: namespace_flags_bits(),
            read_fd,
            write_fd,
        }),
{
    Request::Spawn { stack_top, flags: namespace_flags(), read_fd, write_fd }
}

/// Judges the reply to the process creation: an invalid process id, or any
/// other kind of reply, is a `SpawnFailure`.
pub fn check_spawn(reply: Reply) -> (r: Result<i32, Failure>)
    ensures
        r == match spawned_pid(reply) {
            Some(pid) => Ok::<i32, Failure>(pid),
            None => Err::<i32, Failure>(Failure::SpawnFailure),
        },
{
    match reply {
        Reply::Returned { value } => if value != -1 {
            Ok(value)
        } else {
            Err(Failure::SpawnFailure)
        },
        _ => Err(Failure::SpawnFailure),
    }
}

} // verus!
