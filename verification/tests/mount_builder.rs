use contain::failure::Failure;
use contain::linux::{MountSpec, Reply, Request};
use contain::mounts::{BuildStep, BuilderState, MountNamespaceBuilder};

const OK: Reply = Reply::Returned { value: 0 };
const FOUND_DIR: Reply = Reply::Probed { present: true, is_dir: true };
const ABSENT: Reply = Reply::Probed { present: false, is_dir: false };

/// The reply of a kernel on which everything succeeds and the root is in place.
fn success(request: &Request) -> Reply {
    match request {
        Request::ProbeDir { .. } => FOUND_DIR,
        Request::CreateDir { .. } | Request::RemoveDir { .. } | Request::Populate { .. } => {
            Reply::Done
        }
        Request::ListDir { .. } => Reply::Listed { empty: true },
        _ => OK,
    }
}

/// Runs a builder on a kernel on which everything succeeds, up to `step`.
fn builder_at(root: &[u8], step: BuildStep) -> MountNamespaceBuilder {
    let mut builder = MountNamespaceBuilder::new(root.to_vec());
    while builder.step() != step {
        let request = builder.next_request().expect("the step lies on the way");
        assert_eq!(builder.advance(success(&request)), Ok(()));
    }
    builder
}

fn mount_spec(source: Option<&[u8]>, target: &[u8], fstype: Option<&[u8]>, flags: u64) -> Request {
    Request::Mount {
        spec: MountSpec {
            source: source.map(|s| s.to_vec()),
            target: Some(target.to_vec()),
            fstype: fstype.map(|s| s.to_vec()),
            flags,
        },
    }
}

#[test]
fn clean_run_on_existing_directory_reclaims_old_root() {
    let mut builder = MountNamespaceBuilder::new(b"./mntcont".to_vec());
    assert_eq!(builder.state(), BuilderState::Init);
    let mut requests = Vec::new();
    let mut states = Vec::new();
    while let Some(request) = builder.next_request() {
        assert_eq!(builder.advance(success(&request)), Ok(()));
        requests.push(request);
        states.push(builder.state());
    }
    assert_eq!(
        requests,
        vec![
            Request::ProbeDir { path: b"./mntcont".to_vec() },
            mount_spec(None, b"./mntcont", Some(b"tmpfs"), 0),
            mount_spec(Some(b"none"), b"/", None, 0x4000 | 0x4_0000),
            Request::CreateDir { path: b"./mntcont/proc".to_vec() },
            mount_spec(None, b"./mntcont/proc", Some(b"proc"), 0x2 | 0x4 | 0x8),
            Request::Populate { root: b"./mntcont".to_vec() },
            Request::CreateDir { path: b"./mntcont/oldroot".to_vec() },
            Request::PivotRoot {
                new_root: b"./mntcont".to_vec(),
                put_old: b"./mntcont/oldroot".to_vec(),
            },
            Request::ChangeDir { path: b"/".to_vec() },
            Request::Unmount { target: b"/oldroot".to_vec(), flags: 2 },
            Request::ListDir { path: b"/oldroot".to_vec() },
            Request::RemoveDir { path: b"/oldroot".to_vec() },
        ]
    );
    assert_eq!(
        states,
        vec![
            BuilderState::RootStaged,
            BuilderState::RootStaged,
            BuilderState::PrivateRoot,
            BuilderState::PrivateRoot,
            BuilderState::ProcMounted,
            BuilderState::Populated,
            BuilderState::Populated,
            BuilderState::Populated,
            BuilderState::PivotDone,
            BuilderState::PivotDone,
            BuilderState::PivotDone,
            BuilderState::OldRootReclaimed,
        ]
    );
    assert_eq!(builder.state(), BuilderState::OldRootReclaimed);
    assert_eq!(builder.step(), BuildStep::Finished);
    assert_eq!(builder.failure(), None);
    assert!(builder.is_finished());
    assert_eq!(requests.last(), Some(&Request::RemoveDir { path: b"/oldroot".to_vec() }));
}

#[test]
fn clean_run_is_deterministic() {
    let run = || {
        let mut builder = MountNamespaceBuilder::new(b"./mntcont".to_vec());
        let mut requests = Vec::new();
        while let Some(request) = builder.next_request() {
            builder.advance(success(&request)).unwrap();
            requests.push(request);
        }
        (requests, builder.state())
    };
    assert_eq!(run(), run());
}

#[test]
fn flags_are_those_of_libc() {
    let builder = builder_at(b"./mntcont", BuildStep::PrivatizeMounts);
    assert_eq!(
        builder.next_request(),
        Some(mount_spec(Some(b"none"), b"/", None, (libc::MS_REC | libc::MS_PRIVATE) as u64))
    );
    let builder = builder_at(b"./mntcont", BuildStep::MountProc);
    assert_eq!(
        builder.next_request(),
        Some(mount_spec(
            None,
            b"./mntcont/proc",
            Some(b"proc"),
            (libc::MS_NOSUID | libc::MS_NODEV | libc::MS_NOEXEC) as u64
        ))
    );
    let builder = builder_at(b"./mntcont", BuildStep::DetachOldRoot);
    assert_eq!(
        builder.next_request(),
        Some(Request::Unmount { target: b"/oldroot".to_vec(), flags: libc::MNT_DETACH })
    );
}

#[test]
fn absent_root_is_created_first() {
    let mut builder = MountNamespaceBuilder::new(b"./mntcont".to_vec());
    assert_eq!(builder.advance(ABSENT), Ok(()));
    assert_eq!(builder.step(), BuildStep::CreateRoot);
    assert_eq!(builder.state(), BuilderState::Init);
    assert_eq!(builder.next_request(), Some(Request::CreateDir { path: b"./mntcont".to_vec() }));
    assert_eq!(builder.advance(Reply::Done), Ok(()));
    assert_eq!(builder.state(), BuilderState::RootStaged);
    let mut count = 2;
    while let Some(request) = builder.next_request() {
        builder.advance(success(&request)).unwrap();
        count += 1;
    }
    assert_eq!(count, 13);
    assert_eq!(builder.state(), BuilderState::OldRootReclaimed);
}

#[test]
fn absent_root_is_absent_whatever_is_said_of_its_kind() {
    let mut builder = MountNamespaceBuilder::new(b"r".to_vec());
    assert_eq!(builder.advance(Reply::Probed { present: false, is_dir: true }), Ok(()));
    assert_eq!(builder.step(), BuildStep::CreateRoot);
}

#[test]
fn root_that_is_no_directory_is_a_filesystem_failure() {
    let mut builder = MountNamespaceBuilder::new(b"./mntcont".to_vec());
    assert_eq!(
        builder.advance(Reply::Probed { present: true, is_dir: false }),
        Err(Failure::FilesystemFailure)
    );
    assert_eq!(builder.state(), BuilderState::Init);
    assert_eq!(builder.step(), BuildStep::ProbeRoot);
    assert_eq!(builder.next_request(), None);
    assert!(!builder.is_finished());
}

#[test]
fn proc_mounted_twice_is_a_mount_failure() {
    // A kernel that refuses a filesystem that is mounted on its target already.
    let mut mounted: Vec<MountSpec> = Vec::new();
    let mut kernel = |request: &Request| match request {
        Request::Mount { spec } => {
            if mounted.iter().any(|m| m.target == spec.target && m.fstype == spec.fstype) {
                Reply::Returned { value: -1 }
            } else {
                mounted.push(spec.clone());
                OK
            }
        }
        other => success(other),
    };
    let mut builder = MountNamespaceBuilder::new(b"./mntcont".to_vec());
    while builder.step() != BuildStep::MountProc {
        let request = builder.next_request().unwrap();
        builder.advance(kernel(&request)).unwrap();
    }
    assert_eq!(builder.state(), BuilderState::PrivateRoot);
    let proc_mount = builder.next_request().unwrap();
    let first = kernel(&proc_mount);
    assert_eq!(first, OK);
    let second = kernel(&proc_mount);
    assert_eq!(second, Reply::Returned { value: -1 });
    assert_eq!(builder.advance(second), Err(Failure::MountFailure));
    assert_eq!(builder.failure(), Some(Failure::MountFailure));
    assert_eq!(builder.step(), BuildStep::MountProc);
    assert_eq!(builder.state(), BuilderState::PrivateRoot);
    assert_eq!(builder.next_request(), None);
}

#[test]
fn non_empty_old_root_is_a_filesystem_failure() {
    let mut builder = builder_at(b"./mntcont", BuildStep::ListOldRoot);
    assert_eq!(builder.state(), BuilderState::PivotDone);
    assert_eq!(builder.next_request(), Some(Request::ListDir { path: b"/oldroot".to_vec() }));
    assert_eq!(builder.advance(Reply::Listed { empty: false }), Err(Failure::FilesystemFailure));
    assert_eq!(builder.failure(), Some(Failure::FilesystemFailure));
    assert_eq!(builder.state(), BuilderState::PivotDone);
    assert!(!builder.is_finished());
    assert_eq!(builder.next_request(), None);
    assert_eq!(builder.advance(Reply::Listed { empty: true }), Err(Failure::FilesystemFailure));
    assert_eq!(builder.advance(Reply::Done), Err(Failure::FilesystemFailure));
    assert_eq!(builder.state(), BuilderState::PivotDone);
    assert!(!builder.is_finished());
}

#[test]
fn each_step_fails_in_its_category() {
    let cases = [
        (BuildStep::ProbeRoot, Reply::Failed, Failure::FilesystemFailure),
        (BuildStep::CreateRoot, Reply::Failed, Failure::FilesystemFailure),
        (BuildStep::MountRoot, Reply::Returned { value: -1 }, Failure::MountFailure),
        (BuildStep::PrivatizeMounts, Reply::Returned { value: -1 }, Failure::MountFailure),
        (BuildStep::CreateProcDir, Reply::Failed, Failure::FilesystemFailure),
        (BuildStep::MountProc, Reply::Returned { value: -1 }, Failure::MountFailure),
        (BuildStep::Populate, Reply::Failed, Failure::WorkerFailure),
        (BuildStep::CreateOldRoot, Reply::Failed, Failure::FilesystemFailure),
        (BuildStep::SwitchRoot, Reply::Returned { value: -1 }, Failure::MountFailure),
        (BuildStep::EnterRoot, Reply::Returned { value: -1 }, Failure::MountFailure),
        (BuildStep::DetachOldRoot, Reply::Returned { value: -1 }, Failure::MountFailure),
        (BuildStep::ListOldRoot, Reply::Failed, Failure::FilesystemFailure),
        (BuildStep::RemoveOldRoot, Reply::Failed, Failure::FilesystemFailure),
    ];
    for (step, reply, failure) in cases {
        let root: &[u8] = if step == BuildStep::CreateRoot { b"" } else { b"./mntcont" };
        let mut builder = MountNamespaceBuilder::new(root.to_vec());
        if step == BuildStep::CreateRoot {
            builder.advance(ABSENT).unwrap();
        } else {
            builder = builder_at(root, step);
        }
        let state = builder.state();
        assert_eq!(builder.advance(reply), Err(failure));
        assert_eq!(builder.failure(), Some(failure));
        assert_eq!(builder.step(), step);
        assert_eq!(builder.state(), state);
        assert_eq!(builder.next_request(), None);
    }
}

#[test]
fn reply_of_another_kind_is_a_failure() {
    let mut builder = builder_at(b"./mntcont", BuildStep::MountRoot);
    assert_eq!(builder.advance(Reply::Done), Err(Failure::MountFailure));
    let mut builder = builder_at(b"./mntcont", BuildStep::CreateProcDir);
    assert_eq!(builder.advance(OK), Err(Failure::FilesystemFailure));
    let mut builder = builder_at(b"./mntcont", BuildStep::MountProc);
    assert_eq!(builder.advance(Reply::Returned { value: 1 }), Err(Failure::MountFailure));
    let mut builder = builder_at(b"./mntcont", BuildStep::Populate);
    assert_eq!(builder.advance(OK), Err(Failure::WorkerFailure));
}

#[test]
fn failure_is_final() {
    let mut builder = builder_at(b"./mntcont", BuildStep::SwitchRoot);
    assert_eq!(builder.advance(Reply::Returned { value: -1 }), Err(Failure::MountFailure));
    for reply in [OK, Reply::Done, FOUND_DIR, Reply::Listed { empty: true }, Reply::Failed] {
        assert_eq!(builder.advance(reply), Err(Failure::MountFailure));
        assert_eq!(builder.step(), BuildStep::SwitchRoot);
        assert_eq!(builder.state(), BuilderState::Populated);
        assert_eq!(builder.next_request(), None);
    }
}

#[test]
fn finished_builder_does_not_change() {
    let mut builder = builder_at(b"./mntcont", BuildStep::Finished);
    assert_eq!(builder.next_request(), None);
    for reply in [OK, Reply::Failed, Reply::Listed { empty: false }] {
        assert_eq!(builder.advance(reply), Ok(()));
        assert!(builder.is_finished());
        assert_eq!(builder.state(), BuilderState::OldRootReclaimed);
    }
}

#[test]
fn root_with_trailing_separator() {
    let builder = builder_at(b"/srv/jail/", BuildStep::SwitchRoot);
    assert_eq!(
        builder.next_request(),
        Some(Request::PivotRoot {
            new_root: b"/srv/jail/".to_vec(),
            put_old: b"/srv/jail/oldroot".to_vec(),
        })
    );
}
