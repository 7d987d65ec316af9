//! Cursor codec: the fixed-width byte layout of the persisted per-mailbox
//! progress marker.
//!
//! A marker is exactly 8 bytes: bytes 0-3 hold the validity token
//! little-endian, bytes 4-7 hold the last synchronized message identifier
//! little-endian. Absence of a cursor is represented by a missing (or empty)
//! marker file, never by encoded bytes.

use vstd::prelude::*;

use crate::SyncError;

verus! {

/// The 32-bit word that a little-endian 4-byte sequence denotes.
pub open spec fn word_of(s: Seq<u8>) -> u32
    recommends
        s.len() == 4,
{
    (s[0] as u32) | ((s[1] as u32) << 8) | ((s[2] as u32) << 16) | ((s[3] as u32) << 24)
}

/// The little-endian 4-byte layout of a 32-bit word.
pub open spec fn le_bytes(v: u32) -> Seq<u8> {
    seq![
        (v & 0xff) as u8,
        ((v >> 8) & 0xff) as u8,
        ((v >> 16) & 0xff) as u8,
        ((v >> 24) & 0xff) as u8,
    ]
}

/// The 8-byte marker layout for the cursor `(validity, last_id)`.
pub open spec fn spec_encode(validity: u32, last_id: u32) -> Seq<u8> {
    le_bytes(validity) + le_bytes(last_id)
}

/// Reading back the little-endian layout of a word yields the word.
pub proof fn lemma_word_of_le_bytes(v: u32)
    ensures
        le_bytes(v).len() == 4,
        word_of(le_bytes(v)) == v,
{
    assert(((v & 0xff) as u8 as u32) | (((v >> 8) & 0xff) as u8 as u32) << 8 | (((v >> 16)
        & 0xff) as u8 as u32) << 16 | (((v >> 24) & 0xff) as u8 as u32) << 24 == v)
        by (bit_vector);
}

/// Round trip: an encoded cursor is exactly 8 bytes, and decoding its two
/// halves as little-endian words yields the validity token and the last
/// synchronized identifier unchanged.
pub proof fn lemma_round_trip(validity: u32, last_id: u32)
    ensures
        spec_encode(validity, last_id).len() == 8,
        word_of(spec_encode(validity, last_id).subrange(0, 4)) == validity,
        word_of(spec_encode(validity, last_id).subrange(4, 8)) == last_id,
{
    assert(spec_encode(validity, last_id).subrange(0, 4) =~= le_bytes(validity));
    assert(spec_encode(validity, last_id).subrange(4, 8) =~= le_bytes(last_id));
    lemma_word_of_le_bytes(validity);
    lemma_word_of_le_bytes(last_id);
}

/// Reads a 32-bit word from 4 little-endian bytes.
pub fn convert_to_u32(bytes: [u8; 4]) -> (v: u32)
    ensures
        v == word_of(bytes@),
{
    (bytes[0] as u32) | ((bytes[1] as u32) << 8) | ((bytes[2] as u32) << 16) | ((
    bytes[3] as u32) << 24)
}

/// Writes a 32-bit word as 4 little-endian bytes.
pub fn convert_to_u8(v: u32) -> (bytes: [u8; 4])
    ensures
        bytes@ == le_bytes(v),
        word_of(bytes@) == v,
{
    proof {
        assert((v & 0xff) < 0x100 && ((v >> 8) & 0xff) < 0x100 && ((v >> 16) & 0xff) < 0x100 && ((v
            >> 24) & 0xff) < 0x100) by (bit_vector);
    }
    let bytes: [u8; 4] = [
        (v & 0xff) as u8,
        ((v >> 8) & 0xff) as u8,
        ((v >> 16) & 0xff) as u8,
        ((v >> 24) & 0xff) as u8,
    ];
    proof {
        assert(bytes@ =~= le_bytes(v));
        lemma_word_of_le_bytes(v);
    }
    bytes
}

/// Joins the two 4-byte halves of a marker into its 8-byte layout.
pub fn concat(b1: [u8; 4], b2: [u8; 4]) -> (res: [u8; 8])
    ensures
        res@ == b1@ + b2@,
{
    let res: [u8; 8] = [b1[0], b1[1], b1[2], b1[3], b2[0], b2[1], b2[2], b2[3]];
    proof {
        assert(res@ =~= b1@ + b2@);
    }
    res
}

/// Encodes the cursor `(validity, last_id)` as the fixed 8-byte marker.
pub fn encode(validity: u32, last_id: u32) -> (res: [u8; 8])
    ensures
        res@ == spec_encode(validity, last_id),
{
    concat(convert_to_u8(validity), convert_to_u8(last_id))
}

/// Decodes a marker byte sequence into `(validity, last_id)`.
///
/// Fails with `SyncError::Format`, carrying the offending length, for every
/// input whose length is not exactly 8; any 8 bytes decode to some pair.
pub fn decode(bytes: &[u8]) -> (r: Result<(u32, u32), SyncError>)
    ensures
        bytes@.len() == 8 ==> r == Ok::<(u32, u32), SyncError>(
            (word_of(bytes@.subrange(0, 4)), word_of(bytes@.subrange(4, 8))),
        ),
        bytes@.len() != 8 ==> r == Err::<(u32, u32), SyncError>(
            SyncError::Format { len: bytes@.len() as usize },
        ),
{
    if bytes.len() != 8 {
        return Err(SyncError::Format { len: bytes.len() });
    }
    let lo: [u8; 4] = [bytes[0], bytes[1], bytes[2], bytes[3]];
    let hi: [u8; 4] = [bytes[4], bytes[5], bytes[6], bytes[7]];
    proof {
        assert(lo@ =~= bytes@.subrange(0, 4));
        assert(hi@ =~= bytes@.subrange(4, 8));
    }
    Ok((convert_to_u32(lo), convert_to_u32(hi)))
}

} // verus!
