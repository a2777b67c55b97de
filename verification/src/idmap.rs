//! The identity mapping of the new process.
//!
//! The creator maps user 0 and group 0 of the new user namespace to its own
//! user and group, by three writes to files of the new process. The kernel
//! takes the group mapping only after group lists have been denied, and takes
//! each file's content in one write call only.

use vstd::prelude::*;
use vstd::string::StringSliceAdditionalSpecFns;
use crate::failure::Failure;
use crate::linux::{Reply, Request, RequestView};
use crate::path::{append, bytes_of};

verus! {

/// The byte of the decimal digit `d`.
pub open spec fn digit(d: nat) -> u8 {
    (0x30 + d) as u8
}

/// The decimal digits of `n`, most significant first, without leading zeros.
pub open spec fn decimal(n: nat) -> Seq<u8>
    decreases n,
{
    if n < 10 {
        seq![digit(n)]
    } else {
        decimal(n / 10).push(digit(n % 10))
    }
}

/// The decimal form of `n`, with a minus sign before a negative number.
pub open spec fn signed_decimal(n: int) -> Seq<u8> {
    if n < 0 {
        seq![0x2du8] + decimal((-n) as nat)
    } else {
        decimal(n as nat)
    }
}

/// The one line of a mapping file that maps id 0 of the namespace to
/// `host_id`, with a range of one id.
pub open spec fn mapping_line(host_id: nat) -> Seq<u8> {
    "0 ".spec_bytes() + decimal(host_id) + " 1".spec_bytes()
}

/// The content that denies the use of group lists.
pub open spec fn deny_line() -> Seq<u8> {
    "deny".spec_bytes()
}

/// Path of the file `name` of the process `pid`; `name` begins with a
/// separator.
pub open spec fn process_file(pid: int, name: Seq<u8>) -> Seq<u8> {
    "/proc/".spec_bytes() + signed_decimal(pid) + name
}

/// One complete write to an existing file.
#[derive(Clone, Debug, PartialEq, Eq)]
pub struct FileWrite {
    pub path: Vec<u8>,
    pub content: Vec<u8>,
}

/// A `FileWrite` with its path and content as sequences.
pub struct FileWriteView {
    pub path: Seq<u8>,
    pub content: Seq<u8>,
}

impl View for FileWrite {
    type V = FileWriteView;

    open spec fn view(&self) -> FileWriteView {
        FileWriteView { path: self.path@, content: self.content@ }
    }
}

impl FileWriteView {
    /// The request that carries out the write.
    pub open spec fn request(self) -> RequestView {
        RequestView::WriteFile { path: self.path, content: self.content }
    }

    /// Whether `reply` reports that the one write call took all of the
    /// content.
    pub open spec fn completed_by(self, reply: Reply) -> bool {
        reply matches Reply::Wrote { count } && count == self.content.len()
    }
}

/// The write of the user mapping of the process `pid`.
pub open spec fn uid_map_write(pid: int, host_uid: nat) -> FileWriteView {
    FileWriteView {
        path: process_file(pid, "/uid_map".spec_bytes()),
        content: mapping_line(host_uid),
    }
}

/// The write that denies group lists to the process `pid`.
pub open spec fn setgroups_write(pid: int) -> FileWriteView {
    FileWriteView { path: process_file(pid, "/setgroups".spec_bytes()), content: deny_line() }
}

/// The write of the group mapping of the process `pid`.
pub open spec fn gid_map_write(pid: int, host_gid: nat) -> FileWriteView {
    FileWriteView {
        path: process_file(pid, "/gid_map".spec_bytes()),
        content: mapping_line(host_gid),
    }
}

/// The three writes that give the process `pid` its identity, in the order in
/// which they must be made: user mapping, denial of group lists, group
/// mapping.
pub open spec fn mapping_writes(pid: int, host_uid: nat, host_gid: nat) -> Seq<FileWriteView> {
    seq![uid_map_write(pid, host_uid), setgroups_write(pid), gid_map_write(pid, host_gid)]
}

/// Appends the decimal digits of `n` to `out`.
pub fn push_decimal(out: &mut Vec<u8>, n: u64)
    ensures
        final(out)@ == old(out)@ + decimal(n as nat),
{
    let mut digits: Vec<u8> = Vec::new();
    digits.push(0x30 + (n % 10) as u8);
    let mut rest: u64 = n / 10;
    while rest > 0
        invariant
            decimal(n as nat) == if rest == 0 {
                digits@
            } else {
                decimal(rest as nat) + digits@
            },
        decreases rest,
    {
        digits.insert(0, 0x30 + (rest % 10) as u8);
        rest = rest / 10;
    }
    append(out, digits.as_slice());
}

/// Appends the decimal form of `n` to `out`.
pub fn push_signed_decimal(out: &mut Vec<u8>, n: i32)
    ensures
        final(out)@ == old(out)@ + signed_decimal(n as int),
{
    if n < 0 {
        out.push(0x2d);
        let magnitude: u64 = (-(n as i64)) as u64;
        push_decimal(out, magnitude);
    } else {
        push_decimal(out, n as u64);
    }
}

/// The content of a mapping file that maps id 0 to `host_id`.
pub fn mapping_content(host_id: u32) -> (r: Vec<u8>)
    ensures
        r@ == mapping_line(host_id as nat),
{
    let mut out = bytes_of("0 ");
    push_decimal(&mut out, host_id as u64);
    append(&mut out, " 1".as_bytes());
    out
}

/// The path of the file `name` of the process `pid`.
fn process_path(pid: i32, name: &str) -> (r: Vec<u8>)
    ensures
        r@ == process_file(pid as int, name.spec_bytes()),
{
    let mut out = bytes_of("/proc/");
    push_signed_decimal(&mut out, pid);
    append(&mut out, name.as_bytes());
    out
}

impl FileWrite {
    /// The write of the user mapping of the process `pid`.
    pub fn uid_map(pid: i32, host_uid: u32) -> (r: FileWrite)
        ensures
            r@ == uid_map_write(pid as int, host_uid as nat),
    {
        FileWrite { path: process_path(pid, "/uid_map"), content: mapping_content(host_uid) }
    }

    /// The write that denies group lists to the process `pid`.
    pub fn setgroups(pid: i32) -> (r: FileWrite)
        ensures
            r@ == setgroups_write(pid as int),
    {
        FileWrite { path: process_path(pid, "/setgroups"), content: bytes_of("deny") }
    }

    /// The write of the group mapping of the process `pid`.
    pub fn gid_map(pid: i32, host_gid: u32) -> (r: FileWrite)
        ensures
            r@ == gid_map_write(pid as int, host_gid as nat),
    {
        FileWrite { path: process_path(pid, "/gid_map"), content: mapping_content(host_gid) }
    }

    /// The request that carries out the write.
    pub fn into_request(self) -> (r: Request)
        ensures
            r@ == self@.request(),
    {
        Request::WriteFile { path: self.path, content: self.content }
    }

    /// Judges the reply to the write: it counts only if the one write call
    /// took all of the content; anything else is an `IdentityWriteFailure`.
    pub fn check(&self, reply: Reply) -> (r: Result<(), Failure>)
        ensures
            self@.completed_by(reply) ==> r == Ok::<(), Failure>(()),
            !self@.completed_by(reply) ==> r == Err::<(), Failure>(Failure::IdentityWriteFailure),
    {
        match reply {
            Reply::Wrote { count } => if count == self.content.len() {
                Ok(())
            } else {
                Err(Failure::IdentityWriteFailure)
            },
            _ => Err(Failure::IdentityWriteFailure),
        }
    }
}

/// The three writes that map user 0 and group 0 of the process `pid` to
/// `host_uid` and `host_gid`, in the order in which they must be made.
pub fn single_mapping_writes(pid: i32, host_uid: u32, host_gid: u32) -> (r: Vec<FileWrite>)
    ensures
        r@.len() == 3,
        forall|i: int|
            0 <= i < 3 ==> (#[trigger] r@[i])@ == mapping_writes(
                pid as int,
                host_uid as nat,
                host_gid as nat,
            )[i],
{
    let mut writes: Vec<FileWrite> = Vec::new();
    writes.push(FileWrite::uid_map(pid, host_uid));
    writes.push(FileWrite::setgroups(pid));
    writes.push(FileWrite::gid_map(pid, host_gid));
    writes
}

/// In the order of the writes, the denial of group lists comes after the
/// user mapping and strictly before the group mapping, for every process and
/// every pair of ids.
pub proof fn lemma_mapping_writes_order(pid: int, host_uid: nat, host_gid: nat)
    ensures
        mapping_writes(pid, host_uid, host_gid).len() == 3,
        mapping_writes(pid, host_uid, host_gid)[0] == uid_map_write(pid, host_uid),
        mapping_writes(pid, host_uid, host_gid)[1] == setgroups_write(pid),
        mapping_writes(pid, host_uid, host_gid)[2] == gid_map_write(pid, host_gid),
{
}

} // verus!
