//! The life of the new process, from its first instruction to the hand-off to
//! the caller's logic.
//!
//! The new process closes its copy of the write endpoint of the readiness
//! barrier, waits on the read endpoint for the end of the stream, and only then
//! builds and enters its root. All of this runs in a supervised unit of work;
//! `supervise` turns the way that unit ended into what the process does next.

use vstd::prelude::*;
use vstd::string::StringSliceAdditionalSpecFns;
use crate::failure::Failure;
use crate::linux::{Reply, Report, Request, RequestView, request_view};
use crate::mounts::{BuildStep, BuilderModel, BuilderState, MountNamespaceBuilder};
use crate::path::bytes_of;

verus! {

/// What the new process is about to do.
#[derive(Clone, Copy, Debug, PartialEq, Eq, Structural)]
pub enum EntryStage {
    /// Close the inherited copy of the write endpoint of the barrier.
    CloseWriteEnd,
    /// Wait on the read endpoint until the creator closes its write endpoint.
    AwaitRelease,
    /// Show the confinement of the process.
    ShowStatus,
    /// Build and enter the isolated root.
    BuildRoot,
    /// Show the mount table.
    ShowMounts,
    /// Everything is in place: the caller's logic runs next.
    HandOff,
}

impl EntryStage {
    /// Position of the stage in the life of the process.
    pub open spec fn ordinal(self) -> nat {
        match self {
            EntryStage::CloseWriteEnd => 0,
            EntryStage::AwaitRelease => 1,
            EntryStage::ShowStatus => 2,
            EntryStage::BuildRoot => 3,
            EntryStage::ShowMounts => 4,
            EntryStage::HandOff => 5,
        }
    }

    /// Whether the process has been let through the barrier.
    pub open spec fn released(self) -> bool {
        self.ordinal() > EntryStage::AwaitRelease.ordinal()
    }
}

/// The entry of the new process as a mathematical value.
pub struct EntryModel {
    /// Read endpoint of the barrier.
    pub read_fd: i32,
    /// The process's copy of the write endpoint of the barrier.
    pub write_fd: i32,
    /// The stage about to be carried out, or the stage that failed.
    pub stage: EntryStage,
    /// The builder of the root.
    pub builder: BuilderModel,
    /// Why the process gave up, if it did.
    pub failure: Option<Failure>,
}

impl EntryModel {
    /// The entry at the first instruction of the new process.
    pub open spec fn init(read_fd: i32, write_fd: i32, root: Seq<u8>) -> EntryModel {
        EntryModel {
            read_fd,
            write_fd,
            stage: EntryStage::CloseWriteEnd,
            builder: BuilderModel::init(root),
            failure: None,
        }
    }

    /// Whether the entry has ended, in the hand-off or in failure.
    pub open spec fn halted(self) -> bool {
        self.failure is Some || self.stage == EntryStage::HandOff
    }

    /// The request that the entry waits to have answered; none once it has
    /// halted.
    pub open spec fn request(self) -> Option<RequestView> {
        if self.failure is Some {
            None
        } else {
            match self.stage {
                EntryStage::CloseWriteEnd => Some(RequestView::Close { fd: self.write_fd }),
                EntryStage::AwaitRelease => Some(RequestView::AwaitEof { fd: self.read_fd }),
                EntryStage::ShowStatus => Some(RequestView::Show { report: Report::ProcessStatus }),
                EntryStage::BuildRoot => self.builder.request(),
                EntryStage::ShowMounts => Some(RequestView::Show { report: Report::MountTable }),
                EntryStage::HandOff => None,
            }
        }
    }

    /// The entry, failed at the stage it is at.
    pub open spec fn failed(self, failure: Failure) -> EntryModel {
        EntryModel { failure: Some(failure), ..self }
    }

    /// The entry at another stage.
    pub open spec fn at(self, stage: EntryStage) -> EntryModel {
        EntryModel { stage, ..self }
    }

    /// The entry after `reply`.
    ///
    /// The close must return zero and the read must report the end of the
    /// stream, or the entry fails with `SyncFailure`. What is shown is not
    /// acted upon. The build takes its replies itself; its failure is the
    /// failure of the entry, and its last step leads on to the mount table.
    pub open spec fn advance(self, reply: Reply) -> EntryModel {
        if self.halted() {
            self
        } else {
            match self.stage {
                EntryStage::CloseWriteEnd => if reply == (Reply::Returned { value: 0 }) {
                    self.at(EntryStage::AwaitRelease)
                } else {
                    self.failed(Failure::SyncFailure)
                },
                EntryStage::AwaitRelease => if reply == (Reply::Read { bytes: 0 }) {
                    self.at(EntryStage::ShowStatus)
                } else {
                    self.failed(Failure::SyncFailure)
                },
                EntryStage::ShowStatus => self.at(EntryStage::BuildRoot),
                EntryStage::BuildRoot => {
                    let builder = self.builder.advance(reply);
                    EntryModel {
                        builder,
                        failure: builder.failure,
                        stage: if builder.failure is None && builder.step == BuildStep::Finished {
                            EntryStage::ShowMounts
                        } else {
                            EntryStage::BuildRoot
                        },
                        ..self
                    }
                },
                EntryStage::ShowMounts => self.at(EntryStage::HandOff),
                EntryStage::HandOff => self,
            }
        }
    }

    /// The entry after each of `replies` in turn.
    pub open spec fn run(self, replies: Seq<Reply>) -> EntryModel
        decreases replies.len(),
    {
        if replies.len() == 0 {
            self
        } else {
            self.run(replies.drop_last()).advance(replies.last())
        }
    }

    /// What holds of every entry that began at its first stage: the build has
    /// not begun before its stage, has not ended during it, and has ended in
    /// `OldRootReclaimed` after it.
    pub open spec fn consistent(self) -> bool {
        match self.stage {
            EntryStage::CloseWriteEnd | EntryStage::AwaitRelease | EntryStage::ShowStatus =>
                self.builder == BuilderModel::init(self.builder.root),
            EntryStage::BuildRoot => self.builder.failure == self.failure && self.builder.step
                != BuildStep::Finished,
            EntryStage::ShowMounts | EntryStage::HandOff => self.builder.failure is None
                && self.builder.step == BuildStep::Finished,
        }
    }
}

/// Path of the directory that becomes the root of the new process, relative
/// to the directory in which the bootstrap runs.
pub open spec fn container_root_bytes() -> Seq<u8> {
    "./mntcont".spec_bytes()
}

/// Path of the directory that becomes the root of the new process.
pub fn container_root() -> (r: Vec<u8>)
    ensures
        r@ == container_root_bytes(),
{
    bytes_of("./mntcont")
}

/// The entry of the new process.
#[derive(Debug)]
pub struct ContainerEntry {
    read_fd: i32,
    write_fd: i32,
    stage: EntryStage,
    builder: MountNamespaceBuilder,
    failure: Option<Failure>,
}

impl View for ContainerEntry {
    type V = EntryModel;

    closed spec fn view(&self) -> EntryModel {
        EntryModel {
            read_fd: self.read_fd,
            write_fd: self.write_fd,
            stage: self.stage,
            builder: self.builder@,
            failure: self.failure,
        }
    }
}

impl ContainerEntry {
    /// The entry of a process that holds the two endpoints of the barrier and is
    /// to make `root` its root.
    pub fn new(read_fd: i32, write_fd: i32, root: Vec<u8>) -> (r: ContainerEntry)
        ensures
            r@ == EntryModel::init(read_fd, write_fd, root@),
    {
        ContainerEntry {
            read_fd,
            write_fd,
            stage: EntryStage::CloseWriteEnd,
            builder: MountNamespaceBuilder::new(root),
            failure: None,
        }
    }

    /// The stage about to be carried out, or the stage that failed.
    pub fn stage(&self) -> (r: EntryStage)
        ensures
            r == self@.stage,
    {
        self.stage
    }

    /// How far the root has been built.
    pub fn root_state(&self) -> (r: BuilderState)
        ensures
            r == self@.builder.state(),
    {
        self.builder.state()
    }

    /// The step of the build about to be taken, or the step that failed.
    pub fn build_step(&self) -> (r: BuildStep)
        ensures
            r == self@.builder.step,
    {
        self.builder.step()
    }

    /// Why the process gave up, if it did.
    pub fn failure(&self) -> (r: Option<Failure>)
        ensures
            r == self@.failure,
    {
        self.failure
    }

    /// Tells whether the caller's logic may run.
    pub fn is_ready(&self) -> (r: bool)
        ensures
            r == (self@.failure is None && self@.stage == EntryStage::HandOff),
    {
        self.failure.is_none() && self.stage == EntryStage::HandOff
    }

    /// The request to carry out next; none once the entry has halted.
    pub fn next_request(&self) -> (r: Option<Request>)
        ensures
            request_view(r) == self@.request(),
    {
        if self.failure.is_some() {
            return None;
        }
        match self.stage {
            EntryStage::CloseWriteEnd => Some(Request::Close { fd: self.write_fd }),
            EntryStage::AwaitRelease => Some(Request::AwaitEof { fd: self.read_fd }),
            EntryStage::ShowStatus => Some(Request::Show { report: Report::ProcessStatus }),
            EntryStage::BuildRoot => self.builder.next_request(),
            EntryStage::ShowMounts => Some(Request::Show { report: Report::MountTable }),
            EntryStage::HandOff => None,
        }
    }

    /// Takes the reply to the pending request.
    ///
    /// A failure ends the entry; every later call reports it again. After
    /// the hand-off the entry takes any reply and does not change.
    pub fn advance(&mut self, reply: Reply) -> (r: Result<(), Failure>)
        ensures
            final(self)@ == old(self)@.advance(reply),
            r == match final(self)@.failure {
                Some(f) => Err::<(), Failure>(f),
                None => Ok::<(), Failure>(()),
            },
    {
        if let Some(f) = self.failure {
            return Err(f);
        }
        match self.stage {
            EntryStage::CloseWriteEnd => {
                match reply {
                    Reply::Returned { value: 0 } => {
                        self.stage = EntryStage::AwaitRelease;
                        Ok(())
                    },
                    _ => {
                        self.failure = Some(Failure::SyncFailure);
                        Err(Failure::SyncFailure)
                    },
                }
            },
            EntryStage::AwaitRelease => {
                match reply {
                    Reply::Read { bytes: 0 } => {
                        self.stage = EntryStage::ShowStatus;
                        Ok(())
                    },
                    _ => {
                        self.failure = Some(Failure::SyncFailure);
                        Err(Failure::SyncFailure)
                    },
                }
            },
            EntryStage::ShowStatus => {
                self.stage = EntryStage::BuildRoot;
                Ok(())
            },
            EntryStage::BuildRoot => {
                match self.builder.advance(reply) {
                    Ok(()) => {
                        if self.builder.is_finished() {
                            self.stage = EntryStage::ShowMounts;
                        }
                        Ok(())
                    },
                    Err(f) => {
                        self.failure = Some(f);
                        Err(f)
                    },
                }
            },
            EntryStage::ShowMounts => {
                self.stage = EntryStage::HandOff;
                Ok(())
            },
            EntryStage::HandOff => Ok(()),
        }
    }
}

/// The exit status of a new process whose unit of work ended abnormally.
pub const WORKER_FAILURE_STATUS: i32 = 1;

/// What the new process does once its unit of work has ended.
#[derive(Debug, PartialEq, Eq)]
pub enum Outcome<T> {
    /// Run the caller's logic on the value that the unit produced.
    Run(T),
    /// Exit with this status.
    Exit(i32),
}

/// Turns the way the unit of work ended into what the process does next:
/// the value of a unit that completed goes to the caller's logic, and a unit
/// that ended abnormally, for whatever reason, makes the process exit with
/// `WORKER_FAILURE_STATUS`.
pub fn supervise<T>(joined: Option<T>) -> (r: Outcome<T>)
    ensures
        r == match joined {
            Some(value) => Outcome::Run(value),
            None => Outcome::<T>::Exit(WORKER_FAILURE_STATUS),
        },
        WORKER_FAILURE_STATUS != 0,
{
    match joined {
        Some(value) => Outcome::Run(value),
        None => Outcome::Exit(WORKER_FAILURE_STATUS),
    }
}

/// Every entry that began at its first stage is consistent, whatever was
/// reported to it.
pub proof fn lemma_run_is_consistent(read_fd: i32, write_fd: i32, root: Seq<u8>, replies: Seq<Reply>)
    ensures
        EntryModel::init(read_fd, write_fd, root).run(replies).consistent(),
        EntryModel::init(read_fd, write_fd, root).run(replies).read_fd == read_fd,
        EntryModel::init(read_fd, write_fd, root).run(replies).write_fd == write_fd,
        EntryModel::init(read_fd, write_fd, root).run(replies).builder.root == root,
    decreases replies.len(),
{
    if replies.len() > 0 {
        lemma_run_is_consistent(read_fd, write_fd, root, replies.drop_last());
    }
}

/// A failed entry stays as it is, whatever is reported to it, and asks for
/// nothing more: the caller's logic is never reached.
pub proof fn lemma_failure_is_final(entry: EntryModel, replies: Seq<Reply>)
    requires
        entry.failure is Some,
    ensures
        entry.run(replies) == entry,
        entry.request() is None,
    decreases replies.len(),
{
    if replies.len() > 0 {
        lemma_failure_is_final(entry, replies.drop_last());
    }
}

/// The new process makes no progress past the barrier until its read has
/// reported the end of the stream: whatever is reported to it, it is let
/// through only if its first two replies were a close that returned zero and
/// a read of zero bytes, and before that it asks for nothing but that close
/// and that read.
pub proof fn lemma_no_progress_before_release(
    read_fd: i32,
    write_fd: i32,
    root: Seq<u8>,
    replies: Seq<Reply>,
)
    ensures
        ({
            let entry = EntryModel::init(read_fd, write_fd, root).run(replies);
            &&& entry.stage.released() ==> replies.len() >= 2 && replies[0] == (Reply::Returned {
                value: 0,
            }) && replies[1] == (Reply::Read { bytes: 0 })
            &&& !entry.stage.released() ==> entry.request() is None || entry.request() == Some(
                RequestView::Close { fd: write_fd },
            ) || entry.request() == Some(RequestView::AwaitEof { fd: read_fd })
            &&& entry.stage == EntryStage::AwaitRelease && entry.failure is None ==> replies.len()
                == 1 && replies[0] == (Reply::Returned { value: 0 })
            &&& entry.stage == EntryStage::CloseWriteEnd && entry.failure is None ==> replies.len()
                == 0
        }),
    decreases replies.len(),
{
    if replies.len() > 0 {
        let prefix = replies.drop_last();
        lemma_no_progress_before_release(read_fd, write_fd, root, prefix);
        lemma_run_is_consistent(read_fd, write_fd, root, prefix);
        if prefix.len() > 0 {
            assert(prefix[0] == replies[0]);
        }
        if prefix.len() > 1 {
            assert(prefix[1] == replies[1]);
        }
    }
}

/// The hand-off is reached only over a root that was built to the end: an
/// entry that is ready for the caller's logic has passed the barrier, and its
/// build is in `OldRootReclaimed`, without failure.
pub proof fn lemma_hand_off_needs_reclaimed_root(
    read_fd: i32,
    write_fd: i32,
    root: Seq<u8>,
    replies: Seq<Reply>,
)
    ensures
        ({
            let entry = EntryModel::init(read_fd, write_fd, root).run(replies);
            entry.stage == EntryStage::HandOff ==> entry.failure is None && entry.builder.state()
                == BuilderState::OldRootReclaimed && entry.builder.failure is None
                && entry.stage.released()
        }),
    decreases replies.len(),
{
    lemma_run_is_consistent(read_fd, write_fd, root, replies);
    if replies.len() > 0 {
        lemma_hand_off_needs_reclaimed_root(read_fd, write_fd, root, replies.drop_last());
    }
}

} // verus!
