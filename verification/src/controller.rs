//! Mailbox sync controller: per-mailbox orchestration state.
//!
//! A controller is opened from the freshly observed validity token and the
//! locally stored cursor. Opening validates the token: a stored cursor whose
//! validity token differs from the observed one means the local identifier
//! history is stale, and the mailbox must not be synchronized against the
//! new, incompatible identifier space. An open controller resolves the delta
//! query, and advances the cursor one message at a time as the external
//! collaborators durably persist each fetched payload.

use vstd::prelude::*;

use crate::SyncError;
use crate::codec::{encode, spec_encode};
use crate::cursor::CursorState;
use crate::resolver::{Query, resolve, spec_resolve};

verus! {

/// The in-memory cursor of one mailbox during a sync pass: the validity
/// token under which the remote identifiers were issued, and the highest
/// identifier whose message is durably persisted, if any.
#[derive(Clone, Copy, Debug, PartialEq, Eq)]
pub struct Controller {
    pub validity: u32,
    pub last_id: Option<u32>,
}

/// The outcome of opening a controller: no observed validity token is a
/// protocol error; a stored cursor under a different token is a validity
/// mismatch carrying both tokens; otherwise the controller adopts the
/// observed token and the stored last identifier, if any.
pub open spec fn spec_open(observed: Option<u32>, stored: CursorState) -> Result<
    Controller,
    SyncError,
> {
    match observed {
        None => Err(SyncError::Protocol),
        Some(o) => match stored {
            CursorState::Absent => Ok(Controller { validity: o, last_id: None }),
            CursorState::Present { validity, last_id } => if validity != o {
                Err(SyncError::ValidityMismatch { stored: validity, observed: o })
            } else {
                Ok(Controller { validity: o, last_id: Some(last_id) })
            },
        },
    }
}

impl Controller {
    /// The cursor state that this controller carries.
    pub open spec fn cursor(self) -> CursorState {
        match self.last_id {
            None => CursorState::Absent,
            Some(n) => CursorState::Present { validity: self.validity, last_id: n },
        }
    }

    /// Opens the controller for one mailbox from the validity token the
    /// remote client reported on select (`None` if the remote cannot report
    /// one) and the stored cursor.
    ///
    /// Fails with `Protocol` when no validity token was observed, and with
    /// `ValidityMismatch` — carrying both tokens — when a stored cursor was
    /// recorded under a different token. Otherwise the controller adopts the
    /// observed token and the stored last identifier, if any.
    pub fn open(observed: Option<u32>, stored: &CursorState) -> (r: Result<Controller, SyncError>)
        ensures
            r == spec_open(observed, *stored),
    {
        match observed {
            None => Err(SyncError::Protocol),
            Some(o) => match stored {
                CursorState::Absent => Ok(Controller { validity: o, last_id: None }),
                CursorState::Present { validity, last_id } => {
                    if *validity != o {
                        Err(SyncError::ValidityMismatch { stored: *validity, observed: o })
                    } else {
                        Ok(Controller { validity: o, last_id: Some(*last_id) })
                    }
                },
            },
        }
    }

    /// Computes the delta query for this controller's cursor.
    pub fn resolve(&self) -> (q: Query)
        ensures
            q == spec_resolve(self.cursor()),
    {
        match self.last_id {
            None => resolve(&CursorState::Absent),
            Some(n) => resolve(&CursorState::Present { validity: self.validity, last_id: n }),
        }
    }

    /// Advances the cursor to a message identifier whose payload was just
    /// durably persisted, and returns the 8-byte marker that must now be
    /// written (atomically) to the mailbox's marker file.
    ///
    /// The validity token is unchanged; the last identifier becomes exactly
    /// the persisted message's identifier, so after a partial pass the
    /// durable cursor names the last message that was actually stored.
    pub fn advance(&mut self, id: u32) -> (marker: [u8; 8])
        ensures
            final(self).validity == old(self).validity,
            final(self).last_id == Some(id),
            marker@ == spec_encode(old(self).validity, id),
    {
        self.last_id = Some(id);
        encode(self.validity, id)
    }
}

} // verus!
