//! Delta range resolver: which remote messages are new for a given cursor.
//!
//! A `Present` cursor asks for the half-open-above identifier range starting
//! just past the last synchronized identifier; the successor wraps at the
//! top of the 32-bit identifier space, mirroring the remote protocol's own
//! wraparound. An `Absent` cursor asks for the full current set of message
//! identifiers, since there is no smaller reference point.

use vstd::prelude::*;

use crate::cursor::CursorState;

verus! {

/// The delta query handed to the remote client: either every message
/// identifier currently in the mailbox, or the identifier range
/// `[lo, u32::MAX]`.
#[derive(Clone, Copy, Debug, PartialEq, Eq, Structural)]
pub enum Query {
    All,
    Range { lo: u32 },
}

/// The successor of a message identifier, wrapping at the top of the
/// identifier space.
pub open spec fn succ_id(n: u32) -> u32 {
    ((n + 1) % 0x1_0000_0000) as u32
}

/// The query that a cursor state resolves to.
pub open spec fn spec_resolve(c: CursorState) -> Query {
    match c {
        CursorState::Absent => Query::All,
        CursorState::Present { validity: _, last_id } => Query::Range { lo: succ_id(last_id) },
    }
}

/// Whether a query covers a given message identifier. A range query covers
/// the identifiers from its lower bound up to `u32::MAX` inclusive.
pub open spec fn query_includes(q: Query, id: u32) -> bool {
    match q {
        Query::All => true,
        Query::Range { lo } => lo <= id,
    }
}

/// Computes the delta query for a cursor state.
pub fn resolve(c: &CursorState) -> (q: Query)
    ensures
        q == spec_resolve(*c),
{
    match c {
        CursorState::Absent => Query::All,
        CursorState::Present { validity: _, last_id } => {
            let lo: u32 = last_id.wrapping_add(1);
            Query::Range { lo }
        },
    }
}

/// A `Present` cursor resolves to a range whose lower bound is the last
/// synchronized identifier plus one, modulo 2^32; an `Absent` cursor
/// resolves to the "all" query.
pub proof fn lemma_resolve_bounds(c: CursorState)
    ensures
        c matches CursorState::Present { validity: _, last_id } ==> spec_resolve(c) == (Query::Range {
            lo: ((last_id + 1) % 0x1_0000_0000) as u32,
        }),
        c is Absent ==> spec_resolve(c) == Query::All,
{
}

/// At-least-once delivery under a crash: if a message with identifier `k`
/// was stored but the cursor was not advanced to it — so the cursor still
/// names an earlier identifier, or is absent — then the query resolved on
/// the next run still covers `k`, and the message is fetched again rather
/// than lost.
pub proof fn lemma_crash_replay(c: CursorState, k: u32)
    requires
        c matches CursorState::Present { validity: _, last_id } ==> last_id < k,
    ensures
        query_includes(spec_resolve(c), k),
{
}

} // verus!
