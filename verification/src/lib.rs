//! One-way incremental synchronization of remote mailboxes into a local,
//! durable, file-based mail store.
//!
//! This crate holds the synchronization core: the cursor codec (the fixed
//! 8-byte on-disk progress marker), the cursor store logic (interpreting a
//! marker file's contents), the delta range resolver (which messages are new
//! for a given cursor), and the per-mailbox sync controller (validity
//! checking and cursor advancement). The remote mailbox client, the local
//! message store and the process entry point are external collaborators:
//! they perform I/O and live outside this library.

use vstd::prelude::*;

pub mod codec;
pub mod controller;
pub mod cursor;
pub mod render;
pub mod resolver;

verus! {

/// Errors of the synchronization core, one variant per fatal condition.
///
/// `Connection` and `Io` originate in the external collaborators (remote
/// client unreachable; local write failed) and are fatal for the run or the
/// mailbox respectively. `Protocol` covers a remote mailbox that cannot
/// report a validity token. `ValidityMismatch` carries both the stored and
/// the freshly observed token. `Format` carries the offending byte length of
/// a malformed marker file.
#[derive(Clone, Copy, Debug, PartialEq, Eq, Structural)]
pub enum SyncError {
    Connection,
    Protocol,
    ValidityMismatch { stored: u32, observed: u32 },
    Format { len: usize },
    Io,
}

} // verus!
