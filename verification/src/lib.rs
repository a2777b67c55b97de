//! Verified decision logic of a minimal namespace-isolation bootstrap.
//!
//! A creator starts a new process inside fresh user, mount and process-id
//! namespaces, gives it an identity, and lets it go; the new process builds
//! and enters an isolated filesystem root and hands over to the caller's
//! logic.
//!
//! The crate decides; a driver performs. Each side of the bootstrap is a
//! state machine that names the next request to the kernel and takes the
//! kernel's reply:
//!
//! - `runcontained`: the creator's side;
//! - `entry`: the new process, from its first instruction to the hand-off;
//! - `mounts`: the building of the isolated root, inside the new process;
//! - `barrier`: what the two sides achieve together over the pipe between
//!   them;
//! - `stack`, `spawn`, `idmap`: the guarded stack, the process creation and
//!   the identity mapping that the creator's requests are made of;
//! - `linux`: the requests and replies themselves;
//! - `flags`, `path`, `failure`: flag bits, byte strings, and the categories
//!   of failure.

pub mod barrier;
pub mod entry;
pub mod failure;
pub mod flags;
pub mod idmap;
pub mod linux;
pub mod mounts;
pub mod path;
pub mod runcontained;
pub mod spawn;
pub mod stack;
