//! Building and entering the isolated filesystem root.
//!
//! The builder walks a fixed list of steps. Each step is one request to the
//! kernel; the reply either moves the builder to the next step or ends the
//! build with a failure, after which nothing more is asked for. Nothing is
//! ever undone.

use vstd::prelude::*;
use vstd::string::StringSliceAdditionalSpecFns;
use crate::failure::Failure;
use crate::flags::{
    mnt_detach, mnt_detach_bits, ms_nodev, ms_nodev_bits, ms_noexec, ms_noexec_bits, ms_nosuid,
    ms_nosuid_bits, ms_private, ms_private_bits, ms_rec, ms_rec_bits,
};
use crate::linux::{
    chdir, mount, pivot_root, umount2, MountSpecView, Reply, Request, RequestView, request_view,
};
use crate::path::{copy_of, join, join_path};

verus! {

/// How far the isolated root has been built.
#[derive(Clone, Copy, Debug, PartialEq, Eq, Structural)]
pub enum BuilderState {
    /// Nothing is known of the container root yet.
    Init,
    /// The container root exists and is a directory.
    RootStaged,
    /// A private tmpfs is mounted on the container root, and mount events no
    /// longer pass between this namespace and the host.
    PrivateRoot,
    /// The process-information filesystem is mounted below the container root.
    ProcMounted,
    /// The caller has seeded the container root.
    Populated,
    /// The container root is the root, and the working directory lies in it.
    PivotDone,
    /// The previous root is detached and its staging directory removed.
    OldRootReclaimed,
}

/// The step that the builder is about to take.
#[derive(Clone, Copy, Debug, PartialEq, Eq, Structural)]
pub enum BuildStep {
    ProbeRoot,
    CreateRoot,
    MountRoot,
    PrivatizeMounts,
    CreateProcDir,
    MountProc,
    Populate,
    CreateOldRoot,
    SwitchRoot,
    EnterRoot,
    DetachOldRoot,
    ListOldRoot,
    RemoveOldRoot,
    Finished,
}

impl BuildStep {
    /// Position of the step in the build.
    pub open spec fn ordinal(self) -> nat {
        match self {
            BuildStep::ProbeRoot => 0,
            BuildStep::CreateRoot => 1,
            BuildStep::MountRoot => 2,
            BuildStep::PrivatizeMounts => 3,
            BuildStep::CreateProcDir => 4,
            BuildStep::MountProc => 5,
            BuildStep::Populate => 6,
            BuildStep::CreateOldRoot => 7,
            BuildStep::SwitchRoot => 8,
            BuildStep::EnterRoot => 9,
            BuildStep::DetachOldRoot => 10,
            BuildStep::ListOldRoot => 11,
            BuildStep::RemoveOldRoot => 12,
            BuildStep::Finished => 13,
        }
    }

    /// The state in which the step is taken.
    pub open spec fn state(self) -> BuilderState {
        match self {
            BuildStep::ProbeRoot | BuildStep::CreateRoot => BuilderState::Init,
            BuildStep::MountRoot | BuildStep::PrivatizeMounts => BuilderState::RootStaged,
            BuildStep::CreateProcDir | BuildStep::MountProc => BuilderState::PrivateRoot,
            BuildStep::Populate => BuilderState::ProcMounted,
            BuildStep::CreateOldRoot | BuildStep::SwitchRoot | BuildStep::EnterRoot =>
                BuilderState::Populated,
            BuildStep::DetachOldRoot | BuildStep::ListOldRoot | BuildStep::RemoveOldRoot =>
                BuilderState::PivotDone,
            BuildStep::Finished => BuilderState::OldRootReclaimed,
        }
    }

    /// Whether `reply` reports that the step succeeded.
    ///
    /// The root may be absent or a directory. A system call succeeds by
    /// returning zero. The old root must be listed as empty.
    pub open spec fn accepts(self, reply: Reply) -> bool {
        match self {
            BuildStep::ProbeRoot => reply matches Reply::Probed { present, is_dir } && (present
                ==> is_dir),
            BuildStep::CreateRoot
            | BuildStep::CreateProcDir
            | BuildStep::CreateOldRoot
            | BuildStep::RemoveOldRoot
            | BuildStep::Populate => reply == Reply::Done,
            BuildStep::MountRoot
            | BuildStep::PrivatizeMounts
            | BuildStep::MountProc
            | BuildStep::SwitchRoot
            | BuildStep::EnterRoot
            | BuildStep::DetachOldRoot => reply == (Reply::Returned { value: 0 }),
            BuildStep::ListOldRoot => reply == (Reply::Listed { empty: true }),
            BuildStep::Finished => false,
        }
    }

    /// The step that follows when `reply` is accepted: creating the root is
    /// left out when the root is there already.
    pub open spec fn successor(self, reply: Reply) -> BuildStep {
        match self {
            BuildStep::ProbeRoot => if reply matches Reply::Probed { present: true, .. } {
                BuildStep::MountRoot
            } else {
                BuildStep::CreateRoot
            },
            BuildStep::CreateRoot => BuildStep::MountRoot,
            BuildStep::MountRoot => BuildStep::PrivatizeMounts,
            BuildStep::PrivatizeMounts => BuildStep::CreateProcDir,
            BuildStep::CreateProcDir => BuildStep::MountProc,
            BuildStep::MountProc => BuildStep::Populate,
            BuildStep::Populate => BuildStep::CreateOldRoot,
            BuildStep::CreateOldRoot => BuildStep::SwitchRoot,
            BuildStep::SwitchRoot => BuildStep::EnterRoot,
            BuildStep::EnterRoot => BuildStep::DetachOldRoot,
            BuildStep::DetachOldRoot => BuildStep::ListOldRoot,
            BuildStep::ListOldRoot => BuildStep::RemoveOldRoot,
            BuildStep::RemoveOldRoot => BuildStep::Finished,
            BuildStep::Finished => BuildStep::Finished,
        }
    }

    /// The failure that a reply which is not accepted amounts to.
    pub open spec fn category(self) -> Failure {
        match self {
            BuildStep::MountRoot
            | BuildStep::PrivatizeMounts
            | BuildStep::MountProc
            | BuildStep::SwitchRoot
            | BuildStep::EnterRoot
            | BuildStep::DetachOldRoot => Failure::MountFailure,
            BuildStep::Populate => Failure::WorkerFailure,
            _ => Failure::FilesystemFailure,
        }
    }
}

/// Name of the directory below the container root on which the
/// process-information filesystem is mounted.
pub open spec fn proc_name() -> Seq<u8> {
    "proc".spec_bytes()
}

/// Name of the staging directory below the container root to which the
/// previous root is moved.
pub open spec fn old_root_name() -> Seq<u8> {
    "oldroot".spec_bytes()
}

/// The root directory.
pub open spec fn slash() -> Seq<u8> {
    "/".spec_bytes()
}

/// The mount of a private tmpfs on the container root.
pub open spec fn root_mount(root: Seq<u8>) -> MountSpecView {
    MountSpecView {
        source: None,
        target: Some(root),
        fstype: Some("tmpfs".spec_bytes()),
        flags: 0,
    }
}

/// The recursive remount of `/` with private propagation.
pub open spec fn private_mount() -> MountSpecView {
    MountSpecView {
        source: Some("none".spec_bytes()),
        target: Some(slash()),
        fstype: None,
        flags: ms_rec_bits() | ms_private_bits(),
    }
}

/// The mount of the process-information filesystem below the container root,
/// without set-user-id, devices and program execution.
pub open spec fn proc_mount(root: Seq<u8>) -> MountSpecView {
    MountSpecView {
        source: None,
        target: Some(join(root, proc_name())),
        fstype: Some("proc".spec_bytes()),
        flags: ms_nosuid_bits() | ms_nodev_bits() | ms_noexec_bits(),
    }
}

/// The request of a step of the build of `root`.
pub open spec fn step_request(root: Seq<u8>, step: BuildStep) -> Option<RequestView> {
    match step {
        BuildStep::ProbeRoot => Some(RequestView::ProbeDir { path: root }),
        BuildStep::CreateRoot => Some(RequestView::CreateDir { path: root }),
        BuildStep::MountRoot => Some(RequestView::Mount { spec: root_mount(root) }),
        BuildStep::PrivatizeMounts => Some(RequestView::Mount { spec: private_mount() }),
        BuildStep::CreateProcDir => Some(RequestView::CreateDir { path: join(root, proc_name()) }),
        BuildStep::MountProc => Some(RequestView::Mount { spec: proc_mount(root) }),
        BuildStep::Populate => Some(RequestView::Populate { root }),
        BuildStep::CreateOldRoot => Some(
            RequestView::CreateDir { path: join(root, old_root_name()) },
        ),
        BuildStep::SwitchRoot => Some(
            RequestView::PivotRoot { new_root: root, put_old: join(root, old_root_name()) },
        ),
        BuildStep::EnterRoot => Some(RequestView::ChangeDir { path: slash() }),
        BuildStep::DetachOldRoot => Some(
            RequestView::Unmount { target: join(slash(), old_root_name()), flags: mnt_detach_bits() },
        ),
        BuildStep::ListOldRoot => Some(
            RequestView::ListDir { path: join(slash(), old_root_name()) },
        ),
        BuildStep::RemoveOldRoot => Some(
            RequestView::RemoveDir { path: join(slash(), old_root_name()) },
        ),
        BuildStep::Finished => None,
    }
}

/// The builder as a mathematical value.
pub struct BuilderModel {
    /// Path of the container root.
    pub root: Seq<u8>,
    /// The step about to be taken, or the step that failed.
    pub step: BuildStep,
    /// Why the build was abandoned, if it was.
    pub failure: Option<Failure>,
}

impl BuilderModel {
    /// The builder before its first step.
    pub open spec fn init(root: Seq<u8>) -> BuilderModel {
        BuilderModel { root, step: BuildStep::ProbeRoot, failure: None }
    }

    /// The state of the build.
    pub open spec fn state(self) -> BuilderState {
        self.step.state()
    }

    /// Whether the build has ended, in success or in failure.
    pub open spec fn halted(self) -> bool {
        self.failure is Some || self.step == BuildStep::Finished
    }

    /// The request that the builder waits to have answered; none once it has
    /// halted.
    pub open spec fn request(self) -> Option<RequestView> {
        if self.failure is Some {
            None
        } else {
            step_request(self.root, self.step)
        }
    }

    /// The builder after `reply`: unchanged once halted, at the next step if
    /// the reply is accepted, and else failed at the step it was at.
    pub open spec fn advance(self, reply: Reply) -> BuilderModel {
        if self.halted() {
            self
        } else if self.step.accepts(reply) {
            BuilderModel { step: self.step.successor(reply), ..self }
        } else {
            BuilderModel { failure: Some(self.step.category()), ..self }
        }
    }

    /// The builder after each of `replies` in turn.
    pub open spec fn run(self, replies: Seq<Reply>) -> BuilderModel
        decreases replies.len(),
    {
        if replies.len() == 0 {
            self
        } else {
            self.run(replies.drop_last()).advance(replies.last())
        }
    }

    /// Whether each of `replies` reports success of the step that it answers.
    pub open spec fn all_accepted(self, replies: Seq<Reply>) -> bool {
        forall|i: int|
            0 <= i < replies.len() ==> (#[trigger] self.run(replies.take(i))).step.accepts(
                replies[i],
            )
    }
}

/// Builds the isolated root step by step.
#[derive(Debug)]
pub struct MountNamespaceBuilder {
    root: Vec<u8>,
    step: BuildStep,
    failure: Option<Failure>,
}

impl View for MountNamespaceBuilder {
    type V = BuilderModel;

    closed spec fn view(&self) -> BuilderModel {
        BuilderModel { root: self.root@, step: self.step, failure: self.failure }
    }
}

impl MountNamespaceBuilder {
    /// A builder for the container root `root`, before its first step.
    pub fn new(root: Vec<u8>) -> (r: MountNamespaceBuilder)
        ensures
            r@ == BuilderModel::init(root@),
    {
        MountNamespaceBuilder { root, step: BuildStep::ProbeRoot, failure: None }
    }

    /// The state of the build.
    pub fn state(&self) -> (r: BuilderState)
        ensures
            r == self@.state(),
    {
        match self.step {
            BuildStep::ProbeRoot | BuildStep::CreateRoot => BuilderState::Init,
            BuildStep::MountRoot | BuildStep::PrivatizeMounts => BuilderState::RootStaged,
            BuildStep::CreateProcDir | BuildStep::MountProc => BuilderState::PrivateRoot,
            BuildStep::Populate => BuilderState::ProcMounted,
            BuildStep::CreateOldRoot | BuildStep::SwitchRoot | BuildStep::EnterRoot =>
                BuilderState::Populated,
            BuildStep::DetachOldRoot | BuildStep::ListOldRoot | BuildStep::RemoveOldRoot =>
                BuilderState::PivotDone,
            BuildStep::Finished => BuilderState::OldRootReclaimed,
        }
    }

    /// The step about to be taken, or the step that failed.
    pub fn step(&self) -> (r: BuildStep)
        ensures
            r == self@.step,
    {
        self.step
    }

    /// Why the build was abandoned, if it was.
    pub fn failure(&self) -> (r: Option<Failure>)
        ensures
            r == self@.failure,
    {
        self.failure
    }

    /// Tells whether the build has reached its last state.
    pub fn is_finished(&self) -> (r: bool)
        ensures
            r == (self@.failure is None && self@.state() == BuilderState::OldRootReclaimed),
    {
        self.failure.is_none() && self.step == BuildStep::Finished
    }

    /// The request to carry out next; none once the build has halted.
    pub fn next_request(&self) -> (r: Option<Request>)
        ensures
            request_view(r) == self@.request(),
    {
        if self.failure.is_some() {
            return None;
        }
        let root = self.root.as_slice();
        match self.step {
            BuildStep::ProbeRoot => Some(Request::ProbeDir { path: copy_of(root) }),
            BuildStep::CreateRoot => Some(Request::CreateDir { path: copy_of(root) }),
            BuildStep::MountRoot => Some(mount(None, Some(root), Some("tmpfs"), 0)),
            BuildStep::PrivatizeMounts => Some(
                mount(
                    Some("none".as_bytes()),
                    Some("/".as_bytes()),
                    None,
                    ms_rec() | ms_private(),
                ),
            ),
            BuildStep::CreateProcDir => Some(Request::CreateDir { path: join_path(root, "proc") }),
            BuildStep::MountProc => {
                let proc_dir = join_path(root, "proc");
                Some(
                    mount(
                        None,
                        Some(proc_dir.as_slice()),
                        Some("proc"),
                        ms_nosuid() | ms_nodev() | ms_noexec(),
                    ),
                )
            },
            BuildStep::Populate => Some(Request::Populate { root: copy_of(root) }),
            BuildStep::CreateOldRoot => Some(
                Request::CreateDir { path: join_path(root, "oldroot") },
            ),
            BuildStep::SwitchRoot => {
                let old_root = join_path(root, "oldroot");
                Some(pivot_root(root, old_root.as_slice()))
            },
            BuildStep::EnterRoot => Some(chdir("/".as_bytes())),
            BuildStep::DetachOldRoot => {
                let old_root = join_path("/".as_bytes(), "oldroot");
                Some(umount2(old_root.as_slice(), mnt_detach()))
            },
            BuildStep::ListOldRoot => Some(
                Request::ListDir { path: join_path("/".as_bytes(), "oldroot") },
            ),
            BuildStep::RemoveOldRoot => Some(
                Request::RemoveDir { path: join_path("/".as_bytes(), "oldroot") },
            ),
            BuildStep::Finished => None,
        }
    }

    /// Takes the reply to the pending request.
    ///
    /// An accepted reply moves the build on by one step. Any other reply ends
    /// it with the failure of the step, which every later call reports again.
    /// A finished build takes any reply and does not change.
    pub fn advance(&mut self, reply: Reply) -> (r: Result<(), Failure>)
        ensures
            final(self)@ == old(self)@.advance(reply),
            r == match final(self)@.failure {
                Some(f) => Err::<(), Failure>(f),
                None => Ok::<(), Failure>(()),
            },
    {
        if let Some(f) = self.failure {
            return Err(f);
        }
        let accepted = match self.step {
            BuildStep::ProbeRoot => match reply {
                Reply::Probed { present, is_dir } => !present || is_dir,
                _ => false,
            },
            BuildStep::CreateRoot
            | BuildStep::CreateProcDir
            | BuildStep::CreateOldRoot
            | BuildStep::RemoveOldRoot
            | BuildStep::Populate => match reply {
                Reply::Done => true,
                _ => false,
            },
            BuildStep::MountRoot
            | BuildStep::PrivatizeMounts
            | BuildStep::MountProc
            | BuildStep::SwitchRoot
            | BuildStep::EnterRoot
            | BuildStep::DetachOldRoot => match reply {
                Reply::Returned { value } => value == 0,
                _ => false,
            },
            BuildStep::ListOldRoot => match reply {
                Reply::Listed { empty } => empty,
                _ => false,
            },
            BuildStep::Finished => {
                return Ok(());
            },
        };
        if !accepted {
            let f = match self.step {
                BuildStep::MountRoot
                | BuildStep::PrivatizeMounts
                | BuildStep::MountProc
                | BuildStep::SwitchRoot
                | BuildStep::EnterRoot
                | BuildStep::DetachOldRoot => Failure::MountFailure,
                BuildStep::Populate => Failure::WorkerFailure,
                _ => Failure::FilesystemFailure,
            };
            self.failure = Some(f);
            return Err(f);
        }
        self.step = match self.step {
            BuildStep::ProbeRoot => match reply {
                Reply::Probed { present: true, .. } => BuildStep::MountRoot,
                _ => BuildStep::CreateRoot,
            },
            BuildStep::CreateRoot => BuildStep::MountRoot,
            BuildStep::MountRoot => BuildStep::PrivatizeMounts,
            BuildStep::PrivatizeMounts => BuildStep::CreateProcDir,
            BuildStep::CreateProcDir => BuildStep::MountProc,
            BuildStep::MountProc => BuildStep::Populate,
            BuildStep::Populate => BuildStep::CreateOldRoot,
            BuildStep::CreateOldRoot => BuildStep::SwitchRoot,
            BuildStep::SwitchRoot => BuildStep::EnterRoot,
            BuildStep::EnterRoot => BuildStep::DetachOldRoot,
            BuildStep::DetachOldRoot => BuildStep::ListOldRoot,
            BuildStep::ListOldRoot => BuildStep::RemoveOldRoot,
            BuildStep::RemoveOldRoot => BuildStep::Finished,
            BuildStep::Finished => BuildStep::Finished,
        };
        Ok(())
    }
}

/// The number of steps that lie behind a builder to which each of `replies`
/// reported success: one step for each reply, and one more where the first
/// reply found the root in place, so that it was not created.
pub open spec fn steps_behind(replies: Seq<Reply>) -> nat {
    if replies.len() == 0 {
        0
    } else if replies[0] matches Reply::Probed { present: true, .. } {
        replies.len() + 1
    } else {
        replies.len()
    }
}

/// A failed build stays as it is, whatever is reported to it, and asks for
/// nothing more: it never reaches a later state.
pub proof fn lemma_failure_is_final(builder: BuilderModel, replies: Seq<Reply>)
    requires
        builder.failure is Some,
    ensures
        builder.run(replies) == builder,
        builder.request() is None,
    decreases replies.len(),
{
    if replies.len() > 0 {
        lemma_failure_is_final(builder, replies.drop_last());
    }
}

/// A reply that is not accepted ends the build at the step it was at, with
/// the failure of that step, and the state of the build does not change.
pub proof fn lemma_rejected_reply_fails(builder: BuilderModel, reply: Reply)
    requires
        !builder.halted(),
        !builder.step.accepts(reply),
    ensures
        builder.advance(reply).failure == Some(builder.step.category()),
        builder.advance(reply).step == builder.step,
        builder.advance(reply).state() == builder.state(),
        builder.advance(reply).request() is None,
{
}

/// As long as every reply reports success, the build does not fail and takes
/// its steps in order, none twice and none left out but the creation of a
/// root that is in place.
pub proof fn lemma_accepted_run_progress(root: Seq<u8>, replies: Seq<Reply>)
    requires
        BuilderModel::init(root).all_accepted(replies),
    ensures
        BuilderModel::init(root).run(replies).failure is None,
        BuilderModel::init(root).run(replies).root == root,
        BuilderModel::init(root).run(replies).step.ordinal() == steps_behind(replies),
    decreases replies.len(),
{
    let init = BuilderModel::init(root);
    if replies.len() > 0 {
        let prefix = replies.drop_last();
        assert forall|i: int| 0 <= i < prefix.len() implies (#[trigger] init.run(
            prefix.take(i),
        )).step.accepts(prefix[i]) by {
            assert(prefix.take(i) == replies.take(i));
        }
        lemma_accepted_run_progress(root, prefix);
        assert(replies.take(prefix.len() as int) == prefix);
        assert(init.run(prefix).step.accepts(replies.last()));
        if prefix.len() > 0 {
            assert(prefix[0] == replies[0]);
        }
    }
}

/// The state after one more reply is the state before it, advanced by it.
pub proof fn lemma_run_step(builder: BuilderModel, replies: Seq<Reply>, n: int)
    requires
        0 <= n < replies.len(),
    ensures
        builder.run(replies.take(n + 1)) == builder.run(replies.take(n)).advance(replies[n]),
{
    assert(replies.take(n + 1).drop_last() == replies.take(n));
}

/// The replies of a kernel on which every request of the build succeeds, to
/// a builder whose container root is in place as a directory.
pub open spec fn clean_replies() -> Seq<Reply> {
    seq![
        Reply::Probed { present: true, is_dir: true },
        Reply::Returned { value: 0 },
        Reply::Returned { value: 0 },
        Reply::Done,
        Reply::Returned { value: 0 },
        Reply::Done,
        Reply::Done,
        Reply::Returned { value: 0 },
        Reply::Returned { value: 0 },
        Reply::Returned { value: 0 },
        Reply::Listed { empty: true },
        Reply::Done,
    ]
}

/// Each of the clean replies reports success of the step that it answers,
/// whatever the container root is.
pub proof fn lemma_clean_replies_are_accepted(root: Seq<u8>)
    ensures
        clean_replies().len() == 12,
        BuilderModel::init(root).all_accepted(clean_replies()),
{
    let init = BuilderModel::init(root);
    let replies = clean_replies();
    assert(replies.take(0) == Seq::<Reply>::empty());
    assert(init.run(replies.take(0)) == init);
    lemma_run_step(init, replies, 0);
    lemma_run_step(init, replies, 1);
    lemma_run_step(init, replies, 2);
    lemma_run_step(init, replies, 3);
    lemma_run_step(init, replies, 4);
    lemma_run_step(init, replies, 5);
    lemma_run_step(init, replies, 6);
    lemma_run_step(init, replies, 7);
    lemma_run_step(init, replies, 8);
    lemma_run_step(init, replies, 9);
    lemma_run_step(init, replies, 10);
    assert forall|i: int| 0 <= i < replies.len() implies (#[trigger] init.run(
        replies.take(i),
    )).step.accepts(replies[i]) by {
        assert(init.run(replies.take(i)).step.ordinal() == if i == 0 {
            0
        } else {
            i + 1
        });
    }
}

/// From `Init`, on a container root that is in place as a directory and on a
/// kernel on which every request succeeds, the build reaches
/// `OldRootReclaimed`, and the last thing it asked for was the removal of
/// the directory to which the previous root was moved. The build is a
/// function of the replies: the same replies lead to the same state.
pub proof fn lemma_clean_run(root: Seq<u8>)
    ensures
        BuilderModel::init(root).run(clean_replies()).state() == BuilderState::OldRootReclaimed,
        BuilderModel::init(root).run(clean_replies()).failure is None,
        BuilderModel::init(root).run(clean_replies().drop_last()).request() == Some(
            RequestView::RemoveDir { path: join(slash(), old_root_name()) },
        ),
{
    lemma_clean_replies_are_accepted(root);
    lemma_clean_run_reclaims_old_root(root, clean_replies());
}

/// On a container root that is in place as a directory, a build in which all
/// twelve requests succeed ends in `OldRootReclaimed`, and its last request
/// is the removal of the directory to which the previous root was moved.
pub proof fn lemma_clean_run_reclaims_old_root(root: Seq<u8>, replies: Seq<Reply>)
    requires
        replies.len() == 12,
        replies[0] == (Reply::Probed { present: true, is_dir: true }),
        BuilderModel::init(root).all_accepted(replies),
    ensures
        BuilderModel::init(root).run(replies).state() == BuilderState::OldRootReclaimed,
        BuilderModel::init(root).run(replies).failure is None,
        BuilderModel::init(root).run(replies).request() is None,
        BuilderModel::init(root).run(replies.drop_last()).request() == Some(
            RequestView::RemoveDir { path: join(slash(), old_root_name()) },
        ),
{
    let init = BuilderModel::init(root);
    let prefix = replies.drop_last();
    lemma_accepted_run_progress(root, replies);
    assert forall|i: int| 0 <= i < prefix.len() implies (#[trigger] init.run(
        prefix.take(i),
    )).step.accepts(prefix[i]) by {
        assert(prefix.take(i) == replies.take(i));
    }
    lemma_accepted_run_progress(root, prefix);
    assert(prefix[0] == replies[0]);
}

/// Where the container root is absent, the build creates it first, and ends
/// in `OldRootReclaimed` after thirteen requests that succeed.
pub proof fn lemma_clean_run_creates_absent_root(root: Seq<u8>, replies: Seq<Reply>)
    requires
        replies.len() == 13,
        replies[0] matches Reply::Probed { present: false, .. },
        BuilderModel::init(root).all_accepted(replies),
    ensures
        BuilderModel::init(root).run(replies.take(1)).request() == Some(
            RequestView::CreateDir { path: root },
        ),
        BuilderModel::init(root).run(replies).state() == BuilderState::OldRootReclaimed,
        BuilderModel::init(root).run(replies).failure is None,
{
    let init = BuilderModel::init(root);
    lemma_accepted_run_progress(root, replies);
    let first = replies.take(1);
    assert(first.drop_last() == Seq::<Reply>::empty());
    assert(init.run(first.drop_last()) == init);
    assert(replies.take(0) == Seq::<Reply>::empty());
    assert(init.run(replies.take(0)).step.accepts(replies[0]));
    assert(first.last() == replies[0]);
}

/// The directory to which the previous root was moved is empty immediately
/// before its removal: whatever is reported to the builder, when it asks for
/// the removal, its request before was the listing of that directory, and
/// the reply to it, the last one, was that the directory is empty.
pub proof fn lemma_old_root_empty_before_removal(root: Seq<u8>, replies: Seq<Reply>)
    requires
        BuilderModel::init(root).run(replies).failure is None,
        BuilderModel::init(root).run(replies).step == BuildStep::RemoveOldRoot,
    ensures
        replies.len() > 0,
        replies.last() == (Reply::Listed { empty: true }),
        BuilderModel::init(root).run(replies.drop_last()).request() == Some(
            RequestView::ListDir { path: join(slash(), old_root_name()) },
        ),
        BuilderModel::init(root).run(replies).request() == Some(
            RequestView::RemoveDir { path: join(slash(), old_root_name()) },
        ),
{
}

} // verus!
