//! What the bootstrap asks of the kernel, and what comes back.
//!
//! A state machine of this crate names its next `Request`; the driver carries
//! it out and hands the `Reply` back. Requests hold paths as bytes, so their
//! contracts speak of a `RequestView`, in which each path is a `Seq<u8>`.

use vstd::prelude::*;
use vstd::string::StringSliceAdditionalSpecFns;
use crate::path::{bytes_of, copy_of, has_prefix, starts_with};

verus! {

/// One mount operation.
#[derive(Clone, Debug, PartialEq, Eq)]
pub struct MountSpec {
    pub source: Option<Vec<u8>>,
    pub target: Option<Vec<u8>>,
    pub fstype: Option<Vec<u8>>,
    pub flags: u64,
}

/// A `MountSpec` with its paths as sequences.
pub struct MountSpecView {
    pub source: Option<Seq<u8>>,
    pub target: Option<Seq<u8>>,
    pub fstype: Option<Seq<u8>>,
    pub flags: u64,
}

/// The bytes of an optional byte string.
pub open spec fn view_of(bytes: Option<Vec<u8>>) -> Option<Seq<u8>> {
    match bytes {
        Some(b) => Some(b@),
        None => None,
    }
}

impl View for MountSpec {
    type V = MountSpecView;

    open spec fn view(&self) -> MountSpecView {
        MountSpecView {
            source: view_of(self.source),
            target: view_of(self.target),
            fstype: view_of(self.fstype),
            flags: self.flags,
        }
    }
}

/// An informational file that is shown and not acted upon.
#[derive(Clone, Copy, Debug, PartialEq, Eq, Structural)]
pub enum Report {
    /// The status of the process: of it, the lines on confinement are shown.
    ProcessStatus,
    /// The mount table of the process: all of it is shown.
    MountTable,
}

impl Report {
    /// Path of the file.
    pub open spec fn path_bytes(self) -> Seq<u8> {
        match self {
            Report::ProcessStatus => "/proc/self/status".spec_bytes(),
            Report::MountTable => "/proc/self/mountinfo".spec_bytes(),
        }
    }

    /// Whether a line of the file is shown: of the process status the lines
    /// that begin with `Seccomp` or `Cap`, of the mount table every line.
    pub open spec fn selects(self, line: Seq<u8>) -> bool {
        match self {
            Report::ProcessStatus => has_prefix(line, "Seccomp".spec_bytes()) || has_prefix(
                line,
                "Cap".spec_bytes(),
            ),
            Report::MountTable => true,
        }
    }

    /// Path of the file to read.
    pub fn path(&self) -> (r: Vec<u8>)
        ensures
            r@ == self.path_bytes(),
    {
        match self {
            Report::ProcessStatus => bytes_of("/proc/self/status"),
            Report::MountTable => bytes_of("/proc/self/mountinfo"),
        }
    }

    /// Tells whether `line` of the file is to be shown.
    pub fn shows(&self, line: &[u8]) -> (r: bool)
        ensures
            r == self.selects(line@),
    {
        match self {
            Report::ProcessStatus => starts_with(line, "Seccomp".as_bytes()) || starts_with(
                line,
                "Cap".as_bytes(),
            ),
            Report::MountTable => true,
        }
    }
}

/// A request to the kernel, or to the caller's logic.
#[derive(Clone, Debug, PartialEq, Eq)]
pub enum Request {
    /// Open a pipe.
    OpenPipe,
    /// Ask for the size of a page.
    PageSize,
    /// Map `len` bytes, at an address of the kernel's choice.
    MapRegion { len: usize, prot: i32, flags: i32 },
    /// Set the protection of `len` bytes from `addr` on.
    ProtectRegion { addr: usize, len: usize, prot: i32 },
    /// Create the new process on the stack below `stack_top`, with a context
    /// that holds the two endpoints of the barrier.
    Spawn { stack_top: usize, flags: i32, read_fd: i32, write_fd: i32 },
    /// Ask for the user and group id of this process.
    Ids,
    /// Open the existing file `path` for writing and write `content` to it in
    /// one call.
    WriteFile { path: Vec<u8>, content: Vec<u8> },
    /// Close a descriptor.
    Close { fd: i32 },
    /// Wait for the process `pid` to end.
    Reap { pid: i32 },
    /// Free the context that was handed to the new process.
    ReleaseContext,
    /// Unmap `len` bytes from `addr` on, in one call.
    UnmapRegion { addr: usize, len: usize },
    /// Read one byte from `fd`, blocking, in expectation of the end of the
    /// stream.
    AwaitEof { fd: i32 },
    /// Show an informational file.
    Show { report: Report },
    /// Find out whether `path` exists and whether it is a directory.
    ProbeDir { path: Vec<u8> },
    /// Create the directory `path`.
    CreateDir { path: Vec<u8> },
    /// Mount a filesystem.
    Mount { spec: MountSpec },
    /// Let the caller seed the new root.
    Populate { root: Vec<u8> },
    /// Make `new_root` the root and move the previous root to `put_old`.
    PivotRoot { new_root: Vec<u8>, put_old: Vec<u8> },
    /// Change the working directory.
    ChangeDir { path: Vec<u8> },
    /// Unmount `target`.
    Unmount { target: Vec<u8>, flags: i32 },
    /// Find out whether the directory `path` is empty.
    ListDir { path: Vec<u8> },
    /// Remove the empty directory `path`.
    RemoveDir { path: Vec<u8> },
}

/// A `Request` with its paths and contents as sequences.
pub enum RequestView {
    OpenPipe,
    PageSize,
    MapRegion { len: usize, prot: i32, flags: i32 },
    ProtectRegion { addr: usize, len: usize, prot: i32 },
    Spawn { stack_top: usize, flags: i32, read_fd: i32, write_fd: i32 },
    Ids,
    WriteFile { path: Seq<u8>, content: Seq<u8> },
    Close { fd: i32 },
    Reap { pid: i32 },
    ReleaseContext,
    UnmapRegion { addr: usize, len: usize },
    AwaitEof { fd: i32 },
    Show { report: Report },
    ProbeDir { path: Seq<u8> },
    CreateDir { path: Seq<u8> },
    Mount { spec: MountSpecView },
    Populate { root: Seq<u8> },
    PivotRoot { new_root: Seq<u8>, put_old: Seq<u8> },
    ChangeDir { path: Seq<u8> },
    Unmount { target: Seq<u8>, flags: i32 },
    ListDir { path: Seq<u8> },
    RemoveDir { path: Seq<u8> },
}

impl View for Request {
    type V = RequestView;

    open spec fn view(&self) -> RequestView {
        match *self {
            Request::OpenPipe => RequestView::OpenPipe,
            Request::PageSize => RequestView::PageSize,
            Request::MapRegion { len, prot, flags } => RequestView::MapRegion { len, prot, flags },
            Request::ProtectRegion { addr, len, prot } => RequestView::ProtectRegion { addr, len, prot },
            Request::Spawn { stack_top, flags, read_fd, write_fd } => RequestView::Spawn {
                stack_top,
                flags,
                read_fd,
                write_fd,
            },
            Request::Ids => RequestView::Ids,
            Request::WriteFile { path, content } => RequestView::WriteFile {
                path: path@,
                content: content@,
            },
            Request::Close { fd } => RequestView::Close { fd },
            Request::Reap { pid } => RequestView::Reap { pid },
            Request::ReleaseContext => RequestView::ReleaseContext,
            Request::UnmapRegion { addr, len } => RequestView::UnmapRegion { addr, len },
            Request::AwaitEof { fd } => RequestView::AwaitEof { fd },
            Request::Show { report } => RequestView::Show { report },
            Request::ProbeDir { path } => RequestView::ProbeDir { path: path@ },
            Request::CreateDir { path } => RequestView::CreateDir { path: path@ },
            Request::Mount { spec } => RequestView::Mount { spec: spec@ },
            Request::Populate { root } => RequestView::Populate { root: root@ },
            Request::PivotRoot { new_root, put_old } => RequestView::PivotRoot {
                new_root: new_root@,
                put_old: put_old@,
            },
            Request::ChangeDir { path } => RequestView::ChangeDir { path: path@ },
            Request::Unmount { target, flags } => RequestView::Unmount { target: target@, flags },
            Request::ListDir { path } => RequestView::ListDir { path: path@ },
            Request::RemoveDir { path } => RequestView::RemoveDir { path: path@ },
        }
    }
}

/// The view of an optional request.
pub open spec fn request_view(request: Option<Request>) -> Option<RequestView> {
    match request {
        Some(r) => Some(r@),
        None => None,
    }
}

/// What came back from a request.
#[derive(Clone, Copy, Debug, PartialEq, Eq, Structural)]
pub enum Reply {
    /// The value that a system call returned: zero or a process id when it
    /// succeeded, `-1` when it failed.
    Returned { value: i32 },
    /// The number of bytes that a read returned: zero at the end of the
    /// stream, negative when it failed.
    Read { bytes: i64 },
    /// The page size that the system reported.
    PageSize { size: i64 },
    /// The address that a mapping returned; all ones when it failed.
    Mapped { addr: usize },
    /// The value that opening a pipe returned, and the two descriptors.
    Pipe { status: i32, read_fd: i32, write_fd: i32 },
    /// The user and group id of the process.
    Ids { uid: u32, gid: u32 },
    /// The value that waiting returned, and the termination status of the
    /// process.
    Reaped { pid: i32, status: i32 },
    /// The number of bytes that the one write call took.
    Wrote { count: usize },
    /// Whether the path is present and whether it is a directory.
    Probed { present: bool, is_dir: bool },
    /// Whether the directory is empty.
    Listed { empty: bool },
    /// The operation succeeded.
    Done,
    /// The operation failed.
    Failed,
}

/// A copy of an optional byte string.
fn copy_of_optional(bytes: Option<&[u8]>) -> (r: Option<Vec<u8>>)
    ensures
        view_of(r) == match bytes {
            Some(b) => Some(b@),
            None => None,
        },
{
    match bytes {
        Some(b) => Some(copy_of(b)),
        None => None,
    }
}

/// The request to change the working directory to `path`.
pub fn chdir(path: &[u8]) -> (r: Request)
    ensures
        r@ == (RequestView::ChangeDir { path: path@ }),
{
    Request::ChangeDir { path: copy_of(path) }
}

/// The request to make `new_root` the root and to move the previous root to
/// `put_old`.
pub fn pivot_root(new_root: &[u8], put_old: &[u8]) -> (r: Request)
    ensures
        r@ == (RequestView::PivotRoot { new_root: new_root@, put_old: put_old@ }),
{
    Request::PivotRoot { new_root: copy_of(new_root), put_old: copy_of(put_old) }
}

/// The request for one mount operation.
pub fn mount(
    source: Option<&[u8]>,
    target: Option<&[u8]>,
    filesystemtype: Option<&str>,
    mountflags: u64,
) -> (r: Request)
    ensures
        r@ == (RequestView::Mount {
            spec: MountSpecView {
                source: match source {
                    Some(b) => Some(b@),
                    None => None,
                },
                target: match target {
                    Some(b) => Some(b@),
                    None => None,
                },
                fstype: match filesystemtype {
                    Some(t) => Some(t.spec_bytes()),
                    None => None,
                },
                flags: mountflags,
            },
        }),
{
    let fstype = match filesystemtype {
        Some(t) => Some(bytes_of(t)),
        None => None,
    };
    Request::Mount {
        spec: MountSpec {
            source: copy_of_optional(source),
            target: copy_of_optional(target),
            fstype,
            flags: mountflags,
        },
    }
}

/// The request to unmount `target`.
pub fn umount2(target: &[u8], flags: i32) -> (r: Request)
    ensures
        r@ == (RequestView::Unmount { target: target@, flags }),
{
    Request::Unmount { target: copy_of(target), flags }
}

} // verus!
