//! Kernel flag bits.
//!
//! The executable values come from the `libc` crate; each accessor states the
//! value that `libc` gives the constant on x86-64 Linux with glibc, the target
//! this crate is written for. Contracts elsewhere speak of the `*_bits`
//! functions only.

use vstd::prelude::*;

verus! {

/// Value of `MS_NOSUID`: ignore set-user-id and set-group-id bits.
pub open spec fn ms_nosuid_bits() -> u64 {
    0x02
}

/// Value of `MS_NODEV`: no access to device files.
pub open spec fn ms_nodev_bits() -> u64 {
    0x04
}

/// Value of `MS_NOEXEC`: no program execution.
pub open spec fn ms_noexec_bits() -> u64 {
    0x08
}

/// Value of `MS_REC`: apply to the whole subtree.
pub open spec fn ms_rec_bits() -> u64 {
    0x4000
}

/// Value of `MS_PRIVATE`: private mount propagation.
pub open spec fn ms_private_bits() -> u64 {
    0x4_0000
}

/// Value of `MNT_DETACH`: lazy unmount.
pub open spec fn mnt_detach_bits() -> i32 {
    0x2
}

/// Value of `CLONE_NEWNS`: new mount namespace.
pub open spec fn clone_newns_bits() -> i32 {
    0x2_0000
}

/// Value of `CLONE_NEWUSER`: new user namespace.
pub open spec fn clone_newuser_bits() -> i32 {
    0x1000_0000
}

/// Value of `CLONE_NEWPID`: new process-id namespace.
pub open spec fn clone_newpid_bits() -> i32 {
    0x2000_0000
}

/// Value of `SIGCHLD`, the signal sent to the creator when the new process ends.
pub open spec fn sigchld_bits() -> i32 {
    17
}

/// Value of `PROT_NONE`: no access at all.
pub open spec fn prot_none_bits() -> i32 {
    0
}

/// Value of `PROT_READ`.
pub open spec fn prot_read_bits() -> i32 {
    1
}

/// Value of `PROT_WRITE`.
pub open spec fn prot_write_bits() -> i32 {
    2
}

/// Value of `MAP_PRIVATE`.
pub open spec fn map_private_bits() -> i32 {
    0x0002
}

/// Value of `MAP_ANONYMOUS`.
pub open spec fn map_anonymous_bits() -> i32 {
    0x0020
}

/// Value of `MAP_GROWSDOWN`.
pub open spec fn map_growsdown_bits() -> i32 {
    0x0100
}

/// Value of `MAP_STACK`.
pub open spec fn map_stack_bits() -> i32 {
    0x2_0000
}

/// Reads `libc::MS_NOSUID`; trusted to be `0x02`.
#[verifier::external_body]
pub(crate) fn ms_nosuid() -> (bits: u64)
    ensures
        bits == ms_nosuid_bits(),
{
    libc::MS_NOSUID as u64
}

/// Reads `libc::MS_NODEV`; trusted to be `0x04`.
#[verifier::external_body]
pub(crate) fn ms_nodev() -> (bits: u64)
    ensures
        bits == ms_nodev_bits(),
{
    libc::MS_NODEV as u64
}

/// Reads `libc::MS_NOEXEC`; trusted to be `0x08`.
#[verifier::external_body]
pub(crate) fn ms_noexec() -> (bits: u64)
    ensures
        bits == ms_noexec_bits(),
{
    libc::MS_NOEXEC as u64
}

/// Reads `libc::MS_REC`; trusted to be `0x4000`.
#[verifier::external_body]
pub(crate) fn ms_rec() -> (bits: u64)
    ensures
        bits == ms_rec_bits(),
{
    libc::MS_REC as u64
}

/// Reads `libc::MS_PRIVATE`; trusted to be `0x040000`.
#[verifier::external_body]
pub(crate) fn ms_private() -> (bits: u64)
    ensures
        bits == ms_private_bits(),
{
    libc::MS_PRIVATE as u64
}

/// Reads `libc::MNT_DETACH`; trusted to be `0x2`.
#[verifier::external_body]
pub(crate) fn mnt_detach() -> (bits: i32)
    ensures
        bits == mnt_detach_bits(),
{
    libc::MNT_DETACH
}

/// Reads `libc::CLONE_NEWNS`; trusted to be `0x20000`.
#[verifier::external_body]
pub(crate) fn clone_newns() -> (bits: i32)
    ensures
        bits == clone_newns_bits(),
{
    libc::CLONE_NEWNS
}

/// Reads `libc::CLONE_NEWUSER`; trusted to be `0x10000000`.
#[verifier::external_body]
pub(crate) fn clone_newuser() -> (bits: i32)
    ensures
        bits == clone_newuser_bits(),
{
    libc::CLONE_NEWUSER
}

/// Reads `libc::CLONE_NEWPID`; trusted to be `0x20000000`.
#[verifier::external_body]
pub(crate) fn clone_newpid() -> (bits: i32)
    ensures
        bits == clone_newpid_bits(),
{
    libc::CLONE_NEWPID
}

/// Reads `libc::SIGCHLD`; trusted to be `17`.
#[verifier::external_body]
pub(crate) fn sigchld() -> (bits: i32)
    ensures
        bits == sigchld_bits(),
{
    libc::SIGCHLD
}

/// Reads `libc::PROT_NONE`; trusted to be `0`.
#[verifier::external_body]
pub(crate) fn prot_none() -> (bits: i32)
    ensures
        bits == prot_none_bits(),
{
    libc::PROT_NONE
}

/// Reads `libc::PROT_READ`; trusted to be `1`.
#[verifier::external_body]
pub(crate) fn prot_read() -> (bits: i32)
    ensures
        bits == prot_read_bits(),
{
    libc::PROT_READ
}

/// Reads `libc::PROT_WRITE`; trusted to be `2`.
#[verifier::external_body]
pub(crate) fn prot_write() -> (bits: i32)
    ensures
        bits == prot_write_bits(),
{
    libc::PROT_WRITE
}

/// Reads `libc::MAP_PRIVATE`; trusted to be `0x0002`.
#[verifier::external_body]
pub(crate) fn map_private() -> (bits: i32)
    ensures
        bits == map_private_bits(),
{
    libc::MAP_PRIVATE
}

/// Reads `libc::MAP_ANONYMOUS`; trusted to be `0x0020`.
#[verifier::external_body]
pub(crate) fn map_anonymous() -> (bits: i32)
    ensures
        bits == map_anonymous_bits(),
{
    libc::MAP_ANONYMOUS
}

/// Reads `libc::MAP_GROWSDOWN`; trusted to be `0x0100`.
#[verifier::external_body]
pub(crate) fn map_growsdown() -> (bits: i32)
    ensures
        bits == map_growsdown_bits(),
{
    libc::MAP_GROWSDOWN
}

/// Reads `libc::MAP_STACK`; trusted to be `0x020000`.
#[verifier::external_body]
pub(crate) fn map_stack() -> (bits: i32)
    ensures
        bits == map_stack_bits(),
{
    libc::MAP_STACK
}

} // verus!
