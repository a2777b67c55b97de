use contain::entry::{container_root, ContainerEntry, EntryStage};
use contain::linux::{Reply, Request};
use contain::mounts::BuilderState;
use contain::runcontained::{Creator, CreatorStage};

/// A pipe as the kernel keeps it: a read reports the end of the stream once
/// every copy of the write endpoint is closed, and blocks until then.
struct PipeDouble {
    read_fd: i32,
    write_fd: i32,
    creator_holds_write_end: bool,
    child_holds_write_end: bool,
    log: Vec<&'static str>,
}

impl PipeDouble {
    fn new(read_fd: i32, write_fd: i32) -> PipeDouble {
        PipeDouble {
            read_fd,
            write_fd,
            creator_holds_write_end: true,
            child_holds_write_end: false,
            log: Vec::new(),
        }
    }

    /// The reply to a read, or nothing while the read blocks.
    fn read(&mut self, fd: i32) -> Option<Reply> {
        assert_eq!(fd, self.read_fd);
        if self.creator_holds_write_end || self.child_holds_write_end {
            self.log.push("read blocks");
            None
        } else {
            self.log.push("read returns");
            Some(Reply::Read { bytes: 0 })
        }
    }
}

/// One step of the creator on a kernel on which everything succeeds.
fn creator_step(creator: &mut Creator, pipe: &mut PipeDouble, child: &mut Option<ContainerEntry>) {
    let request = match creator.next_request() {
        Some(request) => request,
        None => return,
    };
    let reply = match &request {
        Request::OpenPipe => {
            Reply::Pipe { status: 0, read_fd: pipe.read_fd, write_fd: pipe.write_fd }
        }
        Request::PageSize => Reply::PageSize { size: 4096 },
        Request::MapRegion { .. } => Reply::Mapped { addr: 0x7000_0000 },
        Request::Spawn { read_fd, write_fd, .. } => {
            pipe.child_holds_write_end = true;
            *child = Some(ContainerEntry::new(*read_fd, *write_fd, container_root()));
            Reply::Returned { value: 4242 }
        }
        Request::Ids => Reply::Ids { uid: 1000, gid: 1000 },
        Request::WriteFile { content, .. } => {
            pipe.log.push("identity write");
            Reply::Wrote { count: content.len() }
        }
        Request::Close { fd } => {
            assert_eq!(*fd, pipe.write_fd);
            pipe.creator_holds_write_end = false;
            pipe.log.push("creator closes");
            Reply::Returned { value: 0 }
        }
        Request::Reap { pid } => Reply::Reaped { pid: *pid, status: 0 },
        Request::ReleaseContext => Reply::Done,
        _ => Reply::Returned { value: 0 },
    };
    creator.advance(reply).unwrap();
}

/// One step of the new process; a read that blocks leaves it where it is.
fn child_step(entry: &mut ContainerEntry, pipe: &mut PipeDouble) {
    let request = match entry.next_request() {
        Some(request) => request,
        None => return,
    };
    let reply = match &request {
        Request::Close { fd } => {
            assert_eq!(*fd, pipe.write_fd);
            pipe.child_holds_write_end = false;
            Reply::Returned { value: 0 }
        }
        Request::AwaitEof { fd } => match pipe.read(*fd) {
            Some(reply) => reply,
            None => return,
        },
        Request::ProbeDir { .. } => Reply::Probed { present: true, is_dir: true },
        Request::CreateDir { .. }
        | Request::RemoveDir { .. }
        | Request::Populate { .. }
        | Request::Show { .. } => Reply::Done,
        Request::ListDir { .. } => Reply::Listed { empty: true },
        _ => Reply::Returned { value: 0 },
    };
    entry.advance(reply).unwrap();
}

/// Runs creator and new process under a schedule: in each round the creator
/// takes `creator_steps[round]` steps (one once the schedule is used up),
/// and the new process, if it exists, takes `child_steps` steps.
fn run(creator_steps: &[usize], child_steps: usize) -> Vec<&'static str> {
    let mut pipe = PipeDouble::new(3, 4);
    let mut creator = Creator::new(512);
    let mut child: Option<ContainerEntry> = None;
    let mut round = 0;
    while creator.next_request().is_some() || child.as_ref().map_or(true, |c| !c.is_ready()) {
        let steps = creator_steps.get(round).copied().unwrap_or(1);
        for _ in 0..steps {
            creator_step(&mut creator, &mut pipe, &mut child);
        }
        if let Some(entry) = child.as_mut() {
            for _ in 0..child_steps {
                child_step(entry, &mut pipe);
                // No progress past the barrier while the creator holds its write endpoint.
                if pipe.creator_holds_write_end {
                    assert!(
                        entry.stage() == EntryStage::CloseWriteEnd
                            || entry.stage() == EntryStage::AwaitRelease
                    );
                    assert_eq!(entry.root_state(), BuilderState::Init);
                }
                // Once it is through, the identity has been written and the barrier released.
                if entry.stage() != EntryStage::CloseWriteEnd
                    && entry.stage() != EntryStage::AwaitRelease
                {
                    assert!(creator.stage() != CreatorStage::ReleaseBarrier);
                    assert!(!pipe.creator_holds_write_end);
                    assert_eq!(pipe.log.iter().filter(|e| **e == "identity write").count(), 3);
                }
            }
        }
        round += 1;
        assert!(round < 1000);
    }
    assert_eq!(creator.exit_status(), Some(0));
    assert!(child.unwrap().is_ready());
    pipe.log
}

#[test]
fn entry_blocks_on_fd_3_until_creator_closes_fd_4() {
    let mut pipe = PipeDouble::new(3, 4);
    let mut creator = Creator::new(512);
    let mut child: Option<ContainerEntry> = None;
    while creator.stage() != CreatorStage::QueryIds {
        creator_step(&mut creator, &mut pipe, &mut child);
    }
    let mut entry = child.take().expect("the new process exists");
    assert_eq!(entry.next_request(), Some(Request::Close { fd: 4 }));
    child_step(&mut entry, &mut pipe);
    assert_eq!(entry.next_request(), Some(Request::AwaitEof { fd: 3 }));
    for _ in 0..5 {
        child_step(&mut entry, &mut pipe);
        assert_eq!(entry.stage(), EntryStage::AwaitRelease);
    }
    let mut child = Some(entry);
    while creator.stage() != CreatorStage::ReleaseBarrier {
        creator_step(&mut creator, &mut pipe, &mut child);
        child_step(child.as_mut().unwrap(), &mut pipe);
        assert_eq!(child.as_ref().unwrap().stage(), EntryStage::AwaitRelease);
    }
    assert_eq!(creator.next_request(), Some(Request::Close { fd: 4 }));
    creator_step(&mut creator, &mut pipe, &mut child);
    let mut entry = child.unwrap();
    child_step(&mut entry, &mut pipe);
    assert_eq!(entry.stage(), EntryStage::ShowStatus);
    let closes = pipe.log.iter().position(|e| *e == "creator closes").unwrap();
    let returns = pipe.log.iter().position(|e| *e == "read returns").unwrap();
    assert!(closes < returns);
}

#[test]
fn no_read_returns_before_the_close() {
    let schedules: [(&[usize], usize); 6] = [
        (&[], 1),
        (&[], 3),
        (&[6, 0, 0, 0, 0, 1, 0, 0, 1, 0, 1, 0, 0, 1], 1),
        (&[14], 1),
        (&[6, 0, 0, 0, 0, 0, 0, 0, 0], 4),
        (&[5, 1, 0, 1, 0, 1, 0, 1, 0, 1], 2),
    ];
    for (creator_steps, child_steps) in schedules {
        let log = run(creator_steps, child_steps);
        let closes = log.iter().position(|e| *e == "creator closes").unwrap();
        let returns = log.iter().position(|e| *e == "read returns").unwrap();
        assert!(closes < returns);
        let last_write = log.iter().rposition(|e| *e == "identity write").unwrap();
        assert!(last_write < closes);
        assert_eq!(log.iter().filter(|e| **e == "creator closes").count(), 1);
        assert_eq!(log.iter().filter(|e| **e == "read returns").count(), 1);
    }
}

#[test]
fn read_with_an_open_write_end_does_not_let_the_entry_through() {
    // The new process forgot nothing: it closes its own copy first, so the
    // read can end once the creator has closed.
    let mut pipe = PipeDouble::new(3, 4);
    pipe.child_holds_write_end = true;
    let mut entry = ContainerEntry::new(3, 4, container_root());
    child_step(&mut entry, &mut pipe);
    assert!(!pipe.child_holds_write_end);
    child_step(&mut entry, &mut pipe);
    assert_eq!(entry.stage(), EntryStage::AwaitRelease);
    pipe.creator_holds_write_end = false;
    child_step(&mut entry, &mut pipe);
    assert_eq!(entry.stage(), EntryStage::ShowStatus);
}
