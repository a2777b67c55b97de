//! The creator's side of the bootstrap.
//!
//! The creator opens the barrier, maps the guarded stack, creates the
//! new process, writes its identity mapping, releases the barrier, waits for
//! the process to end, and only then frees the context and the stack.

use vstd::prelude::*;
use crate::failure::Failure;
use crate::idmap::{gid_map_write, setgroups_write, uid_map_write, FileWrite};
use crate::linux::{Reply, Request, RequestView, request_view};
use crate::spawn::{check_spawn, namespace_flags_bits, spawn, spawned_pid};
use crate::stack::{
    guard_protection, interior_protection, lemma_layout_geometry, mapping_flags, mapping_len_of,
    Layout, Stack,
};

verus! {

/// What the creator is about to do.
#[derive(Clone, Copy, Debug, PartialEq, Eq, Structural)]
pub enum CreatorStage {
    /// Open the pipe that is the barrier.
    OpenBarrier,
    /// Ask for the page size.
    QueryPageSize,
    /// Map the region of the stack.
    MapStack,
    /// Make the first page of the region inaccessible.
    GuardLow,
    /// Make the last page of the region inaccessible.
    GuardHigh,
    /// Create the new process.
    Spawn,
    /// Ask for the creator's own user and group id.
    QueryIds,
    /// Write the user mapping of the new process.
    WriteUidMap,
    /// Deny group lists to the new process.
    DenySetgroups,
    /// Write the group mapping of the new process.
    WriteGidMap,
    /// Close the write endpoint of the barrier, which lets the new process go.
    ReleaseBarrier,
    /// Wait for the new process to end.
    Reap,
    /// Free the context that the new process referred to.
    ReleaseContext,
    /// Unmap the stack.
    UnmapStack,
    /// All is done.
    Finished,
}

impl CreatorStage {
    /// Position of the stage in the bootstrap.
    pub open spec fn ordinal(self) -> nat {
        match self {
            CreatorStage::OpenBarrier => 0,
            CreatorStage::QueryPageSize => 1,
            CreatorStage::MapStack => 2,
            CreatorStage::GuardLow => 3,
            CreatorStage::GuardHigh => 4,
            CreatorStage::Spawn => 5,
            CreatorStage::QueryIds => 6,
            CreatorStage::WriteUidMap => 7,
            CreatorStage::DenySetgroups => 8,
            CreatorStage::WriteGidMap => 9,
            CreatorStage::ReleaseBarrier => 10,
            CreatorStage::Reap => 11,
            CreatorStage::ReleaseContext => 12,
            CreatorStage::UnmapStack => 13,
            CreatorStage::Finished => 14,
        }
    }
}

/// The creator as a mathematical value.
pub struct CreatorModel {
    /// Number of usable pages of the stack.
    pub pages: usize,
    /// The stage about to be carried out, or the stage that failed.
    pub stage: CreatorStage,
    /// Read endpoint of the barrier.
    pub read_fd: i32,
    /// Write endpoint of the barrier.
    pub write_fd: i32,
    /// Size of a page.
    pub page_size: usize,
    /// Length of the region of the stack.
    pub len: usize,
    /// Layout of the stack, once it is mapped.
    pub stack: Option<Layout>,
    /// Id of the new process.
    pub pid: i32,
    /// User id of the creator.
    pub uid: u32,
    /// Group id of the creator.
    pub gid: u32,
    /// Termination status of the new process.
    pub status: i32,
    /// Why the bootstrap was abandoned, if it was.
    pub failure: Option<Failure>,
}

impl CreatorModel {
    /// The creator before its first stage, for a stack of `pages` pages.
    pub open spec fn init(pages: usize) -> CreatorModel {
        CreatorModel {
            pages,
            stage: CreatorStage::OpenBarrier,
            read_fd: 0,
            write_fd: 0,
            page_size: 0,
            len: 0,
            stack: None,
            pid: 0,
            uid: 0,
            gid: 0,
            status: 0,
            failure: None,
        }
    }

    /// Whether the bootstrap has ended, in success or in failure.
    pub open spec fn halted(self) -> bool {
        self.failure is Some || self.stage == CreatorStage::Finished
    }

    /// The termination status of the new process, once all is done.
    pub open spec fn exit_status(self) -> Option<i32> {
        if self.failure is None && self.stage == CreatorStage::Finished {
            Some(self.status)
        } else {
            None
        }
    }

    /// The request that the creator waits to have answered; none once it has
    /// halted.
    pub open spec fn request(self) -> Option<RequestView> {
        if self.failure is Some {
            None
        } else {
            match self.stage {
                CreatorStage::OpenBarrier => Some(RequestView::OpenPipe),
                CreatorStage::QueryPageSize => Some(RequestView::PageSize),
                CreatorStage::MapStack => Some(
                    RequestView::MapRegion {
                        len: self.len,
                        prot: interior_protection(),
                        flags: mapping_flags(),
                    },
                ),
                CreatorStage::GuardLow => match self.stack {
                    Some(layout) => Some(
                        RequestView::ProtectRegion {
                            addr: layout.base as usize,
                            len: layout.page_size as usize,
                            prot: guard_protection(),
                        },
                    ),
                    None => None,
                },
                CreatorStage::GuardHigh => match self.stack {
                    Some(layout) => Some(
                        RequestView::ProtectRegion {
                            addr: layout.top() as usize,
                            len: layout.page_size as usize,
                            prot: guard_protection(),
                        },
                    ),
                    None => None,
                },
                CreatorStage::Spawn => match self.stack {
                    Some(layout) => Some(
                        RequestView::Spawn {
                            stack_top: layout.top() as usize,
                            flags: namespace_flags_bits(),
                            read_fd: self.read_fd,
                            write_fd: self.write_fd,
                        },
                    ),
                    None => None,
                },
                CreatorStage::QueryIds => Some(RequestView::Ids),
                CreatorStage::WriteUidMap => Some(
                    uid_map_write(self.pid as int, self.uid as nat).request(),
                ),
                CreatorStage::DenySetgroups => Some(setgroups_write(self.pid as int).request()),
                CreatorStage::WriteGidMap => Some(
                    gid_map_write(self.pid as int, self.gid as nat).request(),
                ),
                CreatorStage::ReleaseBarrier => Some(RequestView::Close { fd: self.write_fd }),
                CreatorStage::Reap => Some(RequestView::Reap { pid: self.pid }),
                CreatorStage::ReleaseContext => Some(RequestView::ReleaseContext),
                CreatorStage::UnmapStack => match self.stack {
                    Some(layout) => Some(
                        RequestView::UnmapRegion {
                            addr: layout.base as usize,
                            len: layout.len() as usize,
                        },
                    ),
                    None => None,
                },
                CreatorStage::Finished => None,
            }
        }
    }

    /// The creator, failed at the stage it is at.
    pub open spec fn failed(self, failure: Failure) -> CreatorModel {
        CreatorModel { failure: Some(failure), ..self }
    }

    /// The creator at another stage.
    pub open spec fn at(self, stage: CreatorStage) -> CreatorModel {
        CreatorModel { stage, ..self }
    }

    /// The layout of a stack of this creator that is mapped at `addr`.
    pub open spec fn layout_at(self, addr: usize) -> Layout {
        Layout { base: addr as nat, pages: self.pages as nat, page_size: self.page_size as nat }
    }

    /// The creator after `reply`: unchanged once halted, at the next stage if
    /// the reply reports success, and else failed at the stage it was at.
    ///
    /// The barrier and the wait fail with `SyncFailure`, the stack with
    /// `AllocationFailure`, the process creation with `SpawnFailure`, and
    /// the identity with `IdentityWriteFailure`. Freeing the context cannot
    /// fail.
    pub open spec fn advance(self, reply: Reply) -> CreatorModel {
        if self.halted() {
            self
        } else {
            match self.stage {
                CreatorStage::OpenBarrier => match reply {
                    Reply::Pipe { status: 0, read_fd, write_fd } => CreatorModel {
                        read_fd,
                        write_fd,
                        stage: CreatorStage::QueryPageSize,
                        ..self
                    },
                    _ => self.failed(Failure::SyncFailure),
                },
                CreatorStage::QueryPageSize => match reply {
                    Reply::PageSize { size } => if size > 1 {
                        match mapping_len_of(self.pages as nat, size as nat) {
                            Some(len) => CreatorModel {
                                page_size: size as usize,
                                len: len as usize,
                                stage: CreatorStage::MapStack,
                                ..self
                            },
                            None => self.failed(Failure::AllocationFailure),
                        }
                    } else {
                        self.failed(Failure::AllocationFailure)
                    },
                    _ => self.failed(Failure::AllocationFailure),
                },
                CreatorStage::MapStack => match reply {
                    Reply::Mapped { addr } => if self.layout_at(addr).valid() {
                        CreatorModel {
                            stack: Some(self.layout_at(addr)),
                            stage: CreatorStage::GuardLow,
                            ..self
                        }
                    } else {
                        self.failed(Failure::AllocationFailure)
                    },
                    _ => self.failed(Failure::AllocationFailure),
                },
                CreatorStage::GuardLow => if reply == (Reply::Returned { value: 0 }) {
                    self.at(CreatorStage::GuardHigh)
                } else {
                    self.failed(Failure::AllocationFailure)
                },
                CreatorStage::GuardHigh => if reply == (Reply::Returned { value: 0 }) {
                    self.at(CreatorStage::Spawn)
                } else {
                    self.failed(Failure::AllocationFailure)
                },
                CreatorStage::Spawn => match spawned_pid(reply) {
                    Some(pid) => CreatorModel { pid, stage: CreatorStage::QueryIds, ..self },
                    None => self.failed(Failure::SpawnFailure),
                },
                CreatorStage::QueryIds => match reply {
                    Reply::Ids { uid, gid } => CreatorModel {
                        uid,
                        gid,
                        stage: CreatorStage::WriteUidMap,
                        ..self
                    },
                    _ => self.failed(Failure::IdentityWriteFailure),
                },
                CreatorStage::WriteUidMap => if uid_map_write(
                    self.pid as int,
                    self.uid as nat,
                ).completed_by(reply) {
                    self.at(CreatorStage::DenySetgroups)
                } else {
                    self.failed(Failure::IdentityWriteFailure)
                },
                CreatorStage::DenySetgroups => if setgroups_write(self.pid as int).completed_by(
                    reply,
                ) {
                    self.at(CreatorStage::WriteGidMap)
                } else {
                    self.failed(Failure::IdentityWriteFailure)
                },
                CreatorStage::WriteGidMap => if gid_map_write(
                    self.pid as int,
                    self.gid as nat,
                ).completed_by(reply) {
                    self.at(CreatorStage::ReleaseBarrier)
                } else {
                    self.failed(Failure::IdentityWriteFailure)
                },
                CreatorStage::ReleaseBarrier => if reply == (Reply::Returned { value: 0 }) {
                    self.at(CreatorStage::Reap)
                } else {
                    self.failed(Failure::SyncFailure)
                },
                CreatorStage::Reap => match reply {
                    Reply::Reaped { pid, status } => if pid != -1 {
                        CreatorModel { status, stage: CreatorStage::ReleaseContext, ..self }
                    } else {
                        self.failed(Failure::SyncFailure)
                    },
                    _ => self.failed(Failure::SyncFailure),
                },
                CreatorStage::ReleaseContext => self.at(CreatorStage::UnmapStack),
                CreatorStage::UnmapStack => if reply == (Reply::Returned { value: 0 }) {
                    self.at(CreatorStage::Finished)
                } else {
                    self.failed(Failure::AllocationFailure)
                },
                CreatorStage::Finished => self,
            }
        }
    }

    /// The creator after each of `replies` in turn.
    pub open spec fn run(self, replies: Seq<Reply>) -> CreatorModel
        decreases replies.len(),
    {
        if replies.len() == 0 {
            self
        } else {
            self.run(replies.drop_last()).advance(replies.last())
        }
    }

    /// What holds of every creator that began at its first stage: from the
    /// mapping on it knows a valid layout of its stack, whose length is the
    /// length that it asked for, and before that it knows none.
    pub open spec fn consistent(self) -> bool {
        &&& self.stage.ordinal() > CreatorStage::QueryPageSize.ordinal() ==> mapping_len_of(
            self.pages as nat,
            self.page_size as nat,
        ) == Some(self.len as nat)
        &&& self.stage.ordinal() > CreatorStage::MapStack.ordinal() ==> {
            &&& self.stack matches Some(layout)
            &&& layout.valid()
            &&& layout.pages == self.pages
            &&& layout.page_size == self.page_size
            &&& layout.len() == self.len
        }
        &&& self.stage.ordinal() <= CreatorStage::MapStack.ordinal() ==> self.stack is None
        &&& self.stage.ordinal() > CreatorStage::Spawn.ordinal() ==> self.pid != -1
    }
}

/// Number of usable pages of the stack of the new process.
pub const STACK_PAGES: usize = 512;

/// The creator's side of the bootstrap.
#[derive(Debug)]
pub struct Creator {
    pages: usize,
    stage: CreatorStage,
    read_fd: i32,
    write_fd: i32,
    page_size: usize,
    len: usize,
    stack: Option<Stack>,
    pid: i32,
    uid: u32,
    gid: u32,
    status: i32,
    failure: Option<Failure>,
}

impl View for Creator {
    type V = CreatorModel;

    closed spec fn view(&self) -> CreatorModel {
        CreatorModel {
            pages: self.pages,
            stage: self.stage,
            read_fd: self.read_fd,
            write_fd: self.write_fd,
            page_size: self.page_size,
            len: self.len,
            stack: match self.stack {
                Some(stack) => Some(stack@),
                None => None,
            },
            pid: self.pid,
            uid: self.uid,
            gid: self.gid,
            status: self.status,
            failure: self.failure,
        }
    }
}

impl Creator {
    /// A creator, before its first stage, of a process whose stack has
    /// `pages` usable pages.
    pub fn new(pages: usize) -> (r: Creator)
        ensures
            r@ == CreatorModel::init(pages),
    {
        Creator {
            pages,
            stage: CreatorStage::OpenBarrier,
            read_fd: 0,
            write_fd: 0,
            page_size: 0,
            len: 0,
            stack: None,
            pid: 0,
            uid: 0,
            gid: 0,
            status: 0,
            failure: None,
        }
    }

    /// The stage about to be carried out, or the stage that failed.
    pub fn stage(&self) -> (r: CreatorStage)
        ensures
            r == self@.stage,
    {
        self.stage
    }

    /// Why the bootstrap was abandoned, if it was.
    pub fn failure(&self) -> (r: Option<Failure>)
        ensures
            r == self@.failure,
    {
        self.failure
    }

    /// The termination status of the new process, once all is done: the
    /// status with which the creator itself is to exit.
    pub fn exit_status(&self) -> (r: Option<i32>)
        ensures
            r == self@.exit_status(),
    {
        if self.failure.is_none() && self.stage == CreatorStage::Finished {
            Some(self.status)
        } else {
            None
        }
    }

    /// The request to carry out next; none once the creator has halted.
    pub fn next_request(&self) -> (r: Option<Request>)
        ensures
            request_view(r) == self@.request(),
    {
        if self.failure.is_some() {
            return None;
        }
        match self.stage {
            CreatorStage::OpenBarrier => Some(Request::OpenPipe),
            CreatorStage::QueryPageSize => Some(Request::PageSize),
            CreatorStage::MapStack => Some(Stack::map_request(self.len)),
            CreatorStage::GuardLow => match &self.stack {
                Some(stack) => Some(stack.protect_low_request()),
                None => None,
            },
            CreatorStage::GuardHigh => match &self.stack {
                Some(stack) => Some(stack.protect_high_request()),
                None => None,
            },
            CreatorStage::Spawn => match &self.stack {
                Some(stack) => Some(spawn(stack.top(), self.read_fd, self.write_fd)),
                None => None,
            },
            CreatorStage::QueryIds => Some(Request::Ids),
            CreatorStage::WriteUidMap => Some(
                FileWrite::uid_map(self.pid, self.uid).into_request(),
            ),
            CreatorStage::DenySetgroups => Some(FileWrite::setgroups(self.pid).into_request()),
            CreatorStage::WriteGidMap => Some(
                FileWrite::gid_map(self.pid, self.gid).into_request(),
            ),
            CreatorStage::ReleaseBarrier => Some(Request::Close { fd: self.write_fd }),
            CreatorStage::Reap => Some(Request::Reap { pid: self.pid }),
            CreatorStage::ReleaseContext => Some(Request::ReleaseContext),
            CreatorStage::UnmapStack => match &self.stack {
                Some(stack) => Some(stack.unmap_request()),
                None => None,
            },
            CreatorStage::Finished => None,
        }
    }

    /// Records a failure.
    fn fail(&mut self, failure: Failure) -> (r: Result<(), Failure>)
        requires
            old(self)@.failure is None,
        ensures
            final(self)@ == old(self)@.failed(failure),
            r == Err::<(), Failure>(failure),
    {
        self.failure = Some(failure);
        Err(failure)
    }

    /// Moves on if a system call returned zero, and fails otherwise.
    fn expect_zero(&mut self, reply: Reply, next: CreatorStage, failure: Failure) -> (r: Result<
        (),
        Failure,
    >)
        requires
            old(self)@.failure is None,
        ensures
            final(self)@ == if reply == (Reply::Returned { value: 0 }) {
                old(self)@.at(next)
            } else {
                old(self)@.failed(failure)
            },
            r == match final(self)@.failure {
                Some(f) => Err::<(), Failure>(f),
                None => Ok::<(), Failure>(()),
            },
    {
        match reply {
            Reply::Returned { value: 0 } => {
                self.stage = next;
                Ok(())
            },
            _ => self.fail(failure),
        }
    }

    /// Moves on if an identity write was complete, and fails otherwise.
    fn expect_written(&mut self, write: &FileWrite, reply: Reply, next: CreatorStage) -> (r:
        Result<(), Failure>)
        requires
            old(self)@.failure is None,
        ensures
            final(self)@ == if write@.completed_by(reply) {
                old(self)@.at(next)
            } else {
                old(self)@.failed(Failure::IdentityWriteFailure)
            },
            r == match final(self)@.failure {
                Some(f) => Err::<(), Failure>(f),
                None => Ok::<(), Failure>(()),
            },
    {
        match write.check(reply) {
            Ok(()) => {
                self.stage = next;
                Ok(())
            },
            Err(f) => self.fail(f),
        }
    }

    /// Takes the reply to the pending request.
    ///
    /// A reply that reports success moves the creator on by one stage. Any
    /// other reply ends the bootstrap with the failure of the stage, which
    /// every later call reports again. A finished creator takes any reply
    /// and does not change.
    pub fn advance(&mut self, reply: Reply) -> (r: Result<(), Failure>)
        ensures
            final(self)@ == old(self)@.advance(reply),
            r == match final(self)@.failure {
                Some(f) => Err::<(), Failure>(f),
                None => Ok::<(), Failure>(()),
            },
    {
        if let Some(f) = self.failure {
            return Err(f);
        }
        match self.stage {
            CreatorStage::OpenBarrier => match reply {
                Reply::Pipe { status: 0, read_fd, write_fd } => {
                    self.read_fd = read_fd;
                    self.write_fd = write_fd;
                    self.stage = CreatorStage::QueryPageSize;
                    Ok(())
                },
                _ => self.fail(Failure::SyncFailure),
            },
            CreatorStage::QueryPageSize => match reply {
                Reply::PageSize { size } => {
                    if size <= 1 || size as u64 > usize::MAX as u64 {
                        return self.fail(Failure::AllocationFailure);
                    }
                    let page_size = size as usize;
                    match Stack::mapping_len(self.pages, page_size) {
                        Ok(len) => {
                            self.page_size = page_size;
                            self.len = len;
                            self.stage = CreatorStage::MapStack;
                            Ok(())
                        },
                        Err(f) => self.fail(f),
                    }
                },
                _ => self.fail(Failure::AllocationFailure),
            },
            CreatorStage::MapStack => match reply {
                Reply::Mapped { addr } => match Stack::new(self.pages, self.page_size, addr) {
                    Ok(stack) => {
                        self.stack = Some(stack);
                        self.stage = CreatorStage::GuardLow;
                        Ok(())
                    },
                    Err(f) => self.fail(f),
                },
                _ => self.fail(Failure::AllocationFailure),
            },
            CreatorStage::GuardLow => self.expect_zero(
                reply,
                CreatorStage::GuardHigh,
                Failure::AllocationFailure,
            ),
            CreatorStage::GuardHigh => self.expect_zero(
                reply,
                CreatorStage::Spawn,
                Failure::AllocationFailure,
            ),
            CreatorStage::Spawn => match check_spawn(reply) {
                Ok(pid) => {
                    self.pid = pid;
                    self.stage = CreatorStage::QueryIds;
                    Ok(())
                },
                Err(f) => self.fail(f),
            },
            CreatorStage::QueryIds => match reply {
                Reply::Ids { uid, gid } => {
                    self.uid = uid;
                    self.gid = gid;
                    self.stage = CreatorStage::WriteUidMap;
                    Ok(())
                },
                _ => self.fail(Failure::IdentityWriteFailure),
            },
            CreatorStage::WriteUidMap => {
                let write = FileWrite::uid_map(self.pid, self.uid);
                self.expect_written(&write, reply, CreatorStage::DenySetgroups)
            },
            CreatorStage::DenySetgroups => {
                let write = FileWrite::setgroups(self.pid);
                self.expect_written(&write, reply, CreatorStage::WriteGidMap)
            },
            CreatorStage::WriteGidMap => {
                let write = FileWrite::gid_map(self.pid, self.gid);
                self.expect_written(&write, reply, CreatorStage::ReleaseBarrier)
            },
            CreatorStage::ReleaseBarrier => self.expect_zero(
                reply,
                CreatorStage::Reap,
                Failure::SyncFailure,
            ),
            CreatorStage::Reap => match reply {
                Reply::Reaped { pid, status } => {
                    if pid != -1 {
                        self.status = status;
                        self.stage = CreatorStage::ReleaseContext;
                        Ok(())
                    } else {
                        self.fail(Failure::SyncFailure)
                    }
                },
                _ => self.fail(Failure::SyncFailure),
            },
            CreatorStage::ReleaseContext => {
                self.stage = CreatorStage::UnmapStack;
                Ok(())
            },
            CreatorStage::UnmapStack => self.expect_zero(
                reply,
                CreatorStage::Finished,
                Failure::AllocationFailure,
            ),
            CreatorStage::Finished => Ok(()),
        }
    }
}

/// Begins the bootstrap of a contained process on a stack of `STACK_PAGES`
/// pages: the creator before its first stage.
pub fn runcontained() -> (r: Creator)
    ensures
        r@ == CreatorModel::init(STACK_PAGES),
{
    Creator::new(STACK_PAGES)
}

/// The number of stages that lie behind a creator that has not failed after
/// `replies` replies: one for each reply, up to the last stage.
pub open spec fn stages_behind(replies: nat) -> nat {
    if replies < 14 {
        replies
    } else {
        14
    }
}

/// The state after one more reply is the state before it, advanced by it.
pub proof fn lemma_run_step(creator: CreatorModel, replies: Seq<Reply>, n: int)
    requires
        0 <= n < replies.len(),
    ensures
        creator.run(replies.take(n + 1)) == creator.run(replies.take(n)).advance(replies[n]),
{
    assert(replies.take(n + 1).drop_last() == replies.take(n));
}

/// A failed creator stays as it is, whatever is reported to it, and asks for
/// nothing more.
pub proof fn lemma_failure_is_final(creator: CreatorModel, replies: Seq<Reply>)
    requires
        creator.failure is Some,
    ensures
        creator.run(replies) == creator,
        creator.request() is None,
    decreases replies.len(),
{
    if replies.len() > 0 {
        lemma_failure_is_final(creator, replies.drop_last());
    }
}

/// A creator that has not failed had not failed at any earlier time.
pub proof fn lemma_unfailed_prefix(creator: CreatorModel, replies: Seq<Reply>, n: int)
    requires
        creator.run(replies).failure is None,
        0 <= n <= replies.len(),
    ensures
        creator.run(replies.take(n)).failure is None,
    decreases replies.len(),
{
    if n == replies.len() {
        assert(replies.take(n) == replies);
    } else {
        assert(replies.drop_last().take(n) == replies.take(n));
        lemma_unfailed_prefix(creator, replies.drop_last(), n);
    }
}

/// Every creator that began at its first stage is consistent and keeps the
/// number of pages that it began with, whatever was reported to it.
pub proof fn lemma_run_is_consistent(pages: usize, replies: Seq<Reply>)
    ensures
        CreatorModel::init(pages).run(replies).consistent(),
        CreatorModel::init(pages).run(replies).pages == pages,
    decreases replies.len(),
{
    if replies.len() > 0 {
        lemma_run_is_consistent(pages, replies.drop_last());
    }
}

/// A creator that has not failed has taken its stages in order, one for each
/// reply, none twice and none left out.
pub proof fn lemma_unfailed_run_progress(pages: usize, replies: Seq<Reply>)
    requires
        CreatorModel::init(pages).run(replies).failure is None,
    ensures
        CreatorModel::init(pages).run(replies).stage.ordinal() == stages_behind(replies.len()),
    decreases replies.len(),
{
    if replies.len() > 0 {
        lemma_unfailed_prefix(CreatorModel::init(pages), replies, replies.len() - 1);
        assert(replies.take(replies.len() - 1) == replies.drop_last());
        lemma_unfailed_run_progress(pages, replies.drop_last());
    }
}

/// The creator asks for the new process only on a stack whose guards are in
/// place: when it is about to spawn, its first five requests have succeeded,
/// the region that was mapped is `pages * page_size + 2 * page_size` bytes
/// long, and the top that it hands to the new process lies one page and the
/// interior above the base and is a multiple of the page size.
pub proof fn lemma_spawn_on_guarded_stack(pages: usize, replies: Seq<Reply>)
    requires
        CreatorModel::init(pages).run(replies).failure is None,
        CreatorModel::init(pages).run(replies).stage == CreatorStage::Spawn,
    ensures
        replies.len() == 5,
        ({
            let init = CreatorModel::init(pages);
            &&& replies[1] matches Reply::PageSize { size }
            &&& replies[2] matches Reply::Mapped { addr }
            &&& size > 1
            &&& addr % (size as usize) == 0
            &&& init.run(replies.take(2)).request() == Some(
                RequestView::MapRegion {
                    len: (pages * size + 2 * size) as usize,
                    prot: interior_protection(),
                    flags: mapping_flags(),
                },
            )
            &&& init.run(replies.take(3)).request() == Some(
                RequestView::ProtectRegion {
                    addr,
                    len: size as usize,
                    prot: guard_protection(),
                },
            )
            &&& init.run(replies.take(4)).request() == Some(
                RequestView::ProtectRegion {
                    addr: (addr + size + pages * size) as usize,
                    len: size as usize,
                    prot: guard_protection(),
                },
            )
            &&& init.run(replies).request() matches Some(RequestView::Spawn { stack_top, .. })
            &&& stack_top == addr + size + pages * size
            &&& stack_top % (size as usize) == 0
        }),
        replies[3] == (Reply::Returned { value: 0 }),
        replies[4] == (Reply::Returned { value: 0 }),
{
    let init = CreatorModel::init(pages);
    lemma_unfailed_run_progress(pages, replies);
    assert(replies.take(5) == replies);
    assert forall|n: int| 0 <= n <= 5 implies (#[trigger] init.run(replies.take(n))).failure
        is None && init.run(replies.take(n)).stage.ordinal() == n && init.run(
        replies.take(n),
    ).consistent() && init.run(replies.take(n)).pages == pages by {
        lemma_unfailed_prefix(init, replies, n);
        lemma_unfailed_run_progress(pages, replies.take(n));
        lemma_run_is_consistent(pages, replies.take(n));
    }
    lemma_run_step(init, replies, 1);
    lemma_run_step(init, replies, 2);
    lemma_run_step(init, replies, 3);
    lemma_run_step(init, replies, 4);
    let mapped = init.run(replies.take(3));
    let layout = mapped.stack->0;
    assert(init.run(replies.take(4)).stack == Some(layout));
    assert(init.run(replies.take(5)).stack == Some(layout));
    lemma_layout_geometry(layout);
}

/// The denial of group lists comes strictly before the group mapping:
/// whatever is reported to the creator, when it asks for the write of the
/// group mapping, the write of the user mapping and the denial of group
/// lists were its two requests before, in this order, for the same process,
/// and each was reported as one complete write.
pub proof fn lemma_deny_precedes_gid_map(pages: usize, replies: Seq<Reply>)
    requires
        CreatorModel::init(pages).run(replies).failure is None,
        CreatorModel::init(pages).run(replies).stage == CreatorStage::WriteGidMap,
    ensures
        replies.len() == 9,
        ({
            let creator = CreatorModel::init(pages).run(replies);
            let pid = creator.pid as int;
            &&& creator.request() == Some(gid_map_write(pid, creator.gid as nat).request())
            &&& CreatorModel::init(pages).run(replies.take(8)).request() == Some(
                setgroups_write(pid).request(),
            )
            &&& setgroups_write(pid).completed_by(replies[8])
            &&& CreatorModel::init(pages).run(replies.take(7)).request() == Some(
                uid_map_write(pid, creator.uid as nat).request(),
            )
            &&& uid_map_write(pid, creator.uid as nat).completed_by(replies[7])
        }),
{
    let init = CreatorModel::init(pages);
    lemma_unfailed_run_progress(pages, replies);
    assert(replies.take(9) == replies);
    assert forall|n: int| 7 <= n <= 9 implies (#[trigger] init.run(replies.take(n))).failure
        is None && init.run(replies.take(n)).stage.ordinal() == n by {
        lemma_unfailed_prefix(init, replies, n);
        lemma_unfailed_run_progress(pages, replies.take(n));
    }
    lemma_run_step(init, replies, 7);
    lemma_run_step(init, replies, 8);
}

/// The identity mapping is written before the barrier is released: whatever is
/// reported to the creator, when it asks to close the write endpoint of the
/// barrier, that endpoint is the one that the pipe was opened with, the new
/// process exists, and the three writes of its identity were the three
/// requests before, each reported as one complete write, the group mapping
/// last.
pub proof fn lemma_barrier_released_after_mapping(pages: usize, replies: Seq<Reply>)
    requires
        CreatorModel::init(pages).run(replies).failure is None,
        CreatorModel::init(pages).run(replies).stage == CreatorStage::ReleaseBarrier,
    ensures
        replies.len() == 10,
        ({
            let creator = CreatorModel::init(pages).run(replies);
            let pid = creator.pid as int;
            &&& replies[0] matches Reply::Pipe { status: 0, write_fd, .. } && creator.request()
                == Some(RequestView::Close { fd: write_fd })
            &&& spawned_pid(replies[5]) == Some(creator.pid)
            &&& CreatorModel::init(pages).run(replies.take(7)).request() == Some(
                uid_map_write(pid, creator.uid as nat).request(),
            )
            &&& uid_map_write(pid, creator.uid as nat).completed_by(replies[7])
            &&& CreatorModel::init(pages).run(replies.take(8)).request() == Some(
                setgroups_write(pid).request(),
            )
            &&& setgroups_write(pid).completed_by(replies[8])
            &&& CreatorModel::init(pages).run(replies.take(9)).request() == Some(
                gid_map_write(pid, creator.gid as nat).request(),
            )
            &&& gid_map_write(pid, creator.gid as nat).completed_by(replies[9])
        }),
{
    let init = CreatorModel::init(pages);
    lemma_unfailed_run_progress(pages, replies);
    assert(replies.take(10) == replies);
    assert forall|n: int| 0 <= n <= 10 implies (#[trigger] init.run(replies.take(n))).failure
        is None && init.run(replies.take(n)).stage.ordinal() == n by {
        lemma_unfailed_prefix(init, replies, n);
        lemma_unfailed_run_progress(pages, replies.take(n));
    }
    assert(replies.take(0) == Seq::<Reply>::empty());
    lemma_run_step(init, replies, 0);
    lemma_run_step(init, replies, 1);
    lemma_run_step(init, replies, 2);
    lemma_run_step(init, replies, 3);
    lemma_run_step(init, replies, 4);
    lemma_run_step(init, replies, 5);
    lemma_run_step(init, replies, 6);
    lemma_run_step(init, replies, 7);
    lemma_run_step(init, replies, 8);
    lemma_run_step(init, replies, 9);
}

/// The barrier is released at most once: whatever is reported to the
/// creator, it asks only once to close the write endpoint of the barrier.
pub proof fn lemma_barrier_released_once(pages: usize, replies: Seq<Reply>, i: int, j: int)
    requires
        0 <= i <= replies.len(),
        0 <= j <= replies.len(),
        CreatorModel::init(pages).run(replies.take(i)).request() matches Some(
            RequestView::Close { .. },
        ),
        CreatorModel::init(pages).run(replies.take(j)).request() matches Some(
            RequestView::Close { .. },
        ),
    ensures
        i == j,
        i == CreatorStage::ReleaseBarrier.ordinal(),
{
    lemma_run_is_consistent(pages, replies.take(i));
    lemma_run_is_consistent(pages, replies.take(j));
    lemma_barrier_released_after_mapping(pages, replies.take(i));
    lemma_barrier_released_after_mapping(pages, replies.take(j));
}

/// The context and the stack are released only after the end of the new
/// process has been observed, and the status that the creator exits with is
/// the status that was reaped: whatever is reported to the creator, once it
/// is past the wait without failure, its twelfth reply was a successful wait,
/// and its status is the one of that reply.
pub proof fn lemma_release_after_reap(pages: usize, replies: Seq<Reply>)
    requires
        CreatorModel::init(pages).run(replies).failure is None,
        CreatorModel::init(pages).run(replies).stage.ordinal() > CreatorStage::Reap.ordinal(),
    ensures
        replies.len() >= 12,
        replies[11] matches Reply::Reaped { pid, status } && pid != -1 && CreatorModel::init(
            pages,
        ).run(replies).status == status,
        CreatorModel::init(pages).run(replies.take(11)).request() == Some(
            RequestView::Reap { pid: CreatorModel::init(pages).run(replies).pid },
        ),
    decreases replies.len(),
{
    let init = CreatorModel::init(pages);
    lemma_unfailed_run_progress(pages, replies);
    if replies.len() == 12 {
        assert(replies.take(12) == replies);
        lemma_unfailed_prefix(init, replies, 11);
        lemma_unfailed_run_progress(pages, replies.take(11));
        lemma_run_step(init, replies, 11);
    } else {
        let prefix = replies.drop_last();
        lemma_unfailed_prefix(init, replies, replies.len() - 1);
        assert(replies.take(replies.len() - 1) == prefix);
        lemma_unfailed_run_progress(pages, prefix);
        lemma_release_after_reap(pages, prefix);
        assert(prefix[11] == replies[11]);
        assert(prefix.take(11) == replies.take(11));
    }
}

} // verus!
