//! The barrier between the creator and the new process.
//!
//! The barrier is a pipe. The creator keeps the write endpoint open until the
//! identity of the new process is written. The new process closes its own
//! copy of that endpoint and reads: the read ends, with the end of the
//! stream, once no copy of the write endpoint is open any more.
//!
//! This module states what the two state machines achieve together. The pipe
//! is a model here: the theorem holds of every kernel whose reads report the
//! end of the stream only when every copy of the write endpoint is closed.

use vstd::prelude::*;
use crate::entry::{EntryModel, EntryStage};
use crate::idmap::{gid_map_write, setgroups_write, uid_map_write};
use crate::linux::{Reply, RequestView};
use crate::runcontained::{
    lemma_barrier_released_after_mapping, lemma_run_step, lemma_unfailed_prefix,
    lemma_unfailed_run_progress, CreatorModel, CreatorStage,
};

verus! {

/// The process that a reply goes to.
pub enum Turn {
    Creator,
    Child,
}

/// One reply of the kernel to one of the two processes.
pub struct Event {
    pub turn: Turn,
    pub reply: Reply,
}

/// The creator, the new process once it exists, and the pipe between them.
pub struct System {
    /// The creator.
    pub creator: CreatorModel,
    /// The new process, once it has been created.
    pub child: Option<EntryModel>,
    /// Path that the new process makes its root.
    pub root: Seq<u8>,
    /// Whether the creator's copy of the write endpoint is open.
    pub creator_holds_write_end: bool,
    /// Whether the new process's copy of the write endpoint is open.
    pub child_holds_write_end: bool,
}

impl System {
    /// The system before the creator's first stage.
    pub open spec fn init(pages: usize, root: Seq<u8>) -> System {
        System {
            creator: CreatorModel::init(pages),
            child: None,
            root,
            creator_holds_write_end: false,
            child_holds_write_end: false,
        }
    }

    /// Whether the kernel can give this reply now. Only the pipe is held to
    /// a rule: a read of the new process reports the end of the stream only
    /// when no copy of the write endpoint is open. A reply to the new
    /// process needs that process to exist.
    pub open spec fn possible(self, event: Event) -> bool {
        match event.turn {
            Turn::Creator => true,
            Turn::Child => {
                &&& self.child matches Some(child)
                &&& child.stage == EntryStage::AwaitRelease && child.failure is None && event.reply
                    == (Reply::Read { bytes: 0 }) ==> !self.creator_holds_write_end
                    && !self.child_holds_write_end
            },
        }
    }

    /// The system after a reply to the creator.
    ///
    /// A pipe that is opened gives the creator its write endpoint. A process
    /// that is created inherits a copy of it. The creator's copy is closed
    /// when the creator closes it, and also when the creator fails, since
    /// it aborts.
    pub open spec fn creator_step(self, reply: Reply) -> System {
        let before = self.creator;
        let after = before.advance(reply);
        let carried_out = before.failure is None && after.failure is None;
        let opened = carried_out && before.stage == CreatorStage::OpenBarrier;
        let spawned = carried_out && before.stage == CreatorStage::Spawn;
        let closed = carried_out && before.stage == CreatorStage::ReleaseBarrier;
        System {
            creator: after,
            child: if spawned {
                Some(EntryModel::init(after.read_fd, after.write_fd, self.root))
            } else {
                self.child
            },
            creator_holds_write_end: if after.failure is Some || closed {
                false
            } else if opened {
                true
            } else {
                self.creator_holds_write_end
            },
            child_holds_write_end: if spawned {
                true
            } else {
                self.child_holds_write_end
            },
            ..self
        }
    }

    /// The system after a reply to the new process. Its copy of the write
    /// endpoint is closed when it closes it, and also when it fails.
    pub open spec fn child_step(self, reply: Reply) -> System {
        match self.child {
            Some(before) => {
                let after = before.advance(reply);
                let closed = before.failure is None && after.failure is None && before.stage
                    == EntryStage::CloseWriteEnd;
                System {
                    child: Some(after),
                    child_holds_write_end: if after.failure is Some || closed {
                        false
                    } else {
                        self.child_holds_write_end
                    },
                    ..self
                }
            },
            None => self,
        }
    }

    /// The system after `event`.
    pub open spec fn step(self, event: Event) -> System {
        match event.turn {
            Turn::Creator => self.creator_step(event.reply),
            Turn::Child => self.child_step(event.reply),
        }
    }

    /// The system after each of `events` in turn.
    pub open spec fn run(self, events: Seq<Event>) -> System
        decreases events.len(),
    {
        if events.len() == 0 {
            self
        } else {
            self.run(events.drop_last()).step(events.last())
        }
    }

    /// Whether each of `events` is possible when it happens.
    pub open spec fn all_possible(self, events: Seq<Event>) -> bool {
        forall|i: int|
            0 <= i < events.len() ==> (#[trigger] self.run(events.take(i))).possible(events[i])
    }

    /// Whether the new process exists and has been let through the barrier.
    pub open spec fn child_released(self) -> bool {
        self.child matches Some(child) && child.stage.released()
    }

    /// What holds at all times: the creator's write endpoint is open from
    /// the opening of the pipe to its release, unless the creator failed;
    /// the new process exists only once the creator is past its creation;
    /// and it is through the barrier only if the creator's write endpoint is
    /// closed.
    pub open spec fn in_order(self) -> bool {
        &&& self.creator_holds_write_end <==> self.creator.failure is None
            && CreatorStage::OpenBarrier.ordinal() < self.creator.stage.ordinal()
            <= CreatorStage::ReleaseBarrier.ordinal()
        &&& self.child is Some ==> self.creator.stage.ordinal() > CreatorStage::Spawn.ordinal()
        &&& self.child_released() ==> !self.creator_holds_write_end
    }
}

/// The replies among `events` that went to the creator, in their order.
pub open spec fn creator_replies(events: Seq<Event>) -> Seq<Reply>
    decreases events.len(),
{
    if events.len() == 0 {
        Seq::empty()
    } else {
        match events.last().turn {
            Turn::Creator => creator_replies(events.drop_last()).push(events.last().reply),
            Turn::Child => creator_replies(events.drop_last()),
        }
    }
}

/// The creator within the system is the creator by itself, with the replies
/// that went to it.
pub proof fn lemma_creator_within_system(pages: usize, root: Seq<u8>, events: Seq<Event>)
    ensures
        System::init(pages, root).run(events).creator == CreatorModel::init(pages).run(
            creator_replies(events),
        ),
    decreases events.len(),
{
    if events.len() > 0 {
        lemma_creator_within_system(pages, root, events.drop_last());
        let replies = creator_replies(events.drop_last());
        if events.last().turn is Creator {
            assert(replies.push(events.last().reply).drop_last() == replies);
        }
    }
}

/// The system is in order after every sequence of possible events.
pub proof fn lemma_system_stays_in_order(pages: usize, root: Seq<u8>, events: Seq<Event>)
    requires
        System::init(pages, root).all_possible(events),
    ensures
        System::init(pages, root).run(events).in_order(),
    decreases events.len(),
{
    let init = System::init(pages, root);
    if events.len() > 0 {
        let prefix = events.drop_last();
        assert forall|i: int| 0 <= i < prefix.len() implies (#[trigger] init.run(
            prefix.take(i),
        )).possible(prefix[i]) by {
            assert(prefix.take(i) == events.take(i));
        }
        lemma_system_stays_in_order(pages, root, prefix);
        assert(events.take(prefix.len() as int) == prefix);
        assert(init.run(prefix).possible(events.last()));
    }
}

/// The new process makes no progress past the barrier until the creator's
/// write endpoint is closed, and the identity mapping is written before the
/// barrier is released.
///
/// On a kernel whose reads report the end of the stream only when no copy of
/// the write endpoint is open, and whatever else the kernel replies to
/// either process in whatever order: when the new process is through the
/// barrier, the creator's write endpoint is closed; and unless the creator
/// failed, which closes it too, the creator has by then been told that the
/// user mapping, the denial of group lists and the group mapping of the new
/// process were each written in one complete write, in this order, and has
/// closed the endpoint after that.
pub proof fn lemma_released_only_after_identity(pages: usize, root: Seq<u8>, events: Seq<Event>)
    requires
        System::init(pages, root).all_possible(events),
        System::init(pages, root).run(events).child_released(),
    ensures
        !System::init(pages, root).run(events).creator_holds_write_end,
        ({
            let creator = System::init(pages, root).run(events).creator;
            let replies = creator_replies(events);
            let pid = creator.pid as int;
            creator.failure is None ==> {
                &&& replies.len() > 10
                &&& uid_map_write(pid, creator.uid as nat).completed_by(replies[7])
                &&& setgroups_write(pid).completed_by(replies[8])
                &&& gid_map_write(pid, creator.gid as nat).completed_by(replies[9])
                &&& replies[10] == (Reply::Returned { value: 0 })
                &&& CreatorModel::init(pages).run(replies.take(10)).request() == Some(
                    RequestView::Close { fd: creator.write_fd },
                )
            }
        }),
{
    let system = System::init(pages, root).run(events);
    let init = CreatorModel::init(pages);
    let replies = creator_replies(events);
    lemma_system_stays_in_order(pages, root, events);
    lemma_creator_within_system(pages, root, events);
    if system.creator.failure is None {
        lemma_unfailed_run_progress(pages, replies);
        lemma_unfailed_prefix(init, replies, 10);
        lemma_unfailed_prefix(init, replies, 11);
        lemma_unfailed_run_progress(pages, replies.take(10));
        lemma_unfailed_run_progress(pages, replies.take(11));
        lemma_barrier_released_after_mapping(pages, replies.take(10));
        lemma_run_step(init, replies, 10);
        lemma_identity_is_kept(pages, replies, 11);
        assert(replies.take(10)[7] == replies[7]);
        assert(replies.take(10)[8] == replies[8]);
        assert(replies.take(10)[9] == replies[9]);
    }
}

/// Once the creator knows the new process and its own ids, it keeps them:
/// from the writing of the user mapping on, they are the same at all later
/// times at which the creator has not failed.
pub proof fn lemma_identity_is_kept(pages: usize, replies: Seq<Reply>, n: int)
    requires
        CreatorStage::WriteUidMap.ordinal() <= n <= replies.len(),
        CreatorModel::init(pages).run(replies).failure is None,
    ensures
        ({
            let earlier = CreatorModel::init(pages).run(replies.take(n));
            let later = CreatorModel::init(pages).run(replies);
            &&& earlier.pid == later.pid
            &&& earlier.uid == later.uid
            &&& earlier.gid == later.gid
            &&& earlier.write_fd == later.write_fd
            &&& earlier.read_fd == later.read_fd
        }),
    decreases replies.len(),
{
    let init = CreatorModel::init(pages);
    if n == replies.len() {
        assert(replies.take(n) == replies);
    } else {
        let prefix = replies.drop_last();
        lemma_unfailed_prefix(init, replies, replies.len() - 1);
        assert(replies.take(replies.len() - 1) == prefix);
        lemma_identity_is_kept(pages, prefix, n);
        assert(prefix.take(n) == replies.take(n));
        lemma_unfailed_run_progress(pages, prefix);
    }
}

} // verus!
