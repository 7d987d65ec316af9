//! Cursor store logic: interpreting the contents of a mailbox's marker file.
//!
//! The file read itself is an external collaborator's job; this module is
//! handed the outcome of that read as a plain value and decides what cursor
//! state it denotes. A missing file and an empty file both mean "never
//! synchronized"; a present, non-empty file must be exactly 8 bytes.

use vstd::prelude::*;

use crate::SyncError;
use crate::codec::{decode, word_of};

verus! {

/// The per-mailbox synchronization progress, as recorded on disk.
///
/// `Absent` means the mailbox was never synchronized. `Present` records the
/// validity token under which the identifiers were issued and the highest
/// identifier whose message is durably persisted: every message with an
/// identifier at or below `last_id` is already stored locally.
#[derive(Clone, Copy, Debug, PartialEq, Eq, Structural)]
pub enum CursorState {
    Absent,
    Present { validity: u32, last_id: u32 },
}

/// Interprets a marker file read: `None` stands for a missing file,
/// `Some(bytes)` for the file's contents.
///
/// A missing file and an empty file both yield `Absent` (the deliberate
/// "touched but never populated" normalization); exactly 8 bytes decode to
/// a `Present` cursor; any other length fails with `SyncError::Format`
/// carrying the offending length.
pub fn load_cursor(contents: Option<&[u8]>) -> (r: Result<CursorState, SyncError>)
    ensures
        contents is None ==> r == Ok::<CursorState, SyncError>(CursorState::Absent),
        contents matches Some(b) ==> {
            &&& b@.len() == 0 ==> r == Ok::<CursorState, SyncError>(CursorState::Absent)
            &&& b@.len() == 8 ==> r == Ok::<CursorState, SyncError>(
                CursorState::Present {
                    validity: word_of(b@.subrange(0, 4)),
                    last_id: word_of(b@.subrange(4, 8)),
                },
            )
            &&& b@.len() != 0 && b@.len() != 8 ==> r == Err::<CursorState, SyncError>(
                SyncError::Format { len: b@.len() as usize },
            )
        },
{
    match contents {
        None => Ok(CursorState::Absent),
        Some(bytes) => {
            if bytes.len() == 0 {
                Ok(CursorState::Absent)
            } else {
                match decode(bytes) {
                    Ok((validity, last_id)) => Ok(CursorState::Present { validity, last_id }),
                    Err(e) => Err(e),
                }
            }
        },
    }
}

} // verus!
