//! The canvas records and the layout of a canvas block.

use crate::grid::CANVAS_CELL_BYTES;
use crate::key::Key;
use crate::wire::get_key;
use crate::wire::get_u64;
use crate::wire::i64_le;
use crate::wire::key_at;
use crate::wire::lemma_key_of_view;
use crate::wire::lemma_le_round_trip;
use crate::wire::put_key;
use crate::wire::put_u64;
use crate::wire::u64_at;
use crate::wire::u64_le;
use vstd::prelude::*;

verus! {

/// Most frames that one neighborhood holds.
pub const MAX_FRAMES: u64 = 256;

/// Bytes reserved for a neighborhood's frame base.
pub const NEIGHBORHOOD_FRAME_BASE_RESERVE: usize = 128;

/// Bytes reserved for a frame pointer.
pub const NEIGHBORHOOD_FRAME_POINTER_RESERVE: usize = 128;

/// Offset of the neighborhood's x coordinate in a canvas block.
pub const BLOCK_X_OFFSET: usize = 120000;

/// Offset of the neighborhood's y coordinate in a canvas block.
pub const BLOCK_Y_OFFSET: usize = 120008;

/// Offset of the flag that marks a canvas block as stamped.
pub const BLOCK_FLAG_OFFSET: usize = 120016;

/// Bytes of a canvas block: the cells, the two coordinates and the flag.
pub const CANVAS_BLOCK_LEN: usize = 120017;

/// How many frames a neighborhood has.
#[derive(Clone, Copy, Debug, PartialEq, Eq, Structural)]
pub struct NeighborhoodFrameBase {
    pub bump: u8,
    pub length: u64,
}

impl NeighborhoodFrameBase {
    /// Bytes of an encoded record.
    pub const LEN: usize = 9;

    /// The bytes that stand for the record.
    pub open spec fn encoding(self) -> Seq<u8> {
        seq![self.bump] + u64_le(self.length)
    }

    /// The record that the first bytes of `data` stand for, if any.
    pub open spec fn parse(data: Seq<u8>) -> Option<NeighborhoodFrameBase> {
        if data.len() >= 9 {
            Some(NeighborhoodFrameBase { bump: data[0], length: u64_at(data, 1) })
        } else {
            None
        }
    }

    /// What is written is read back, whatever follows it.
    pub proof fn lemma_round_trip(self, rest: Seq<u8>)
        ensures
            self.encoding().len() == 9,
            NeighborhoodFrameBase::parse(self.encoding() + rest) == Some(self),
    {
        lemma_le_round_trip();
        let data = self.encoding() + rest;
        assert(data.subrange(1, 9) =~= u64_le(self.length));
    }

    /// Reads the record at the start of `data`.
    pub fn decode(data: &[u8]) -> (r: Option<NeighborhoodFrameBase>)
        ensures
            r == NeighborhoodFrameBase::parse(data@),
    {
        if data.len() < 9 {
            return None;
        }
        Some(NeighborhoodFrameBase { bump: data[0], length: get_u64(data, 1) })
    }

    /// The bytes that stand for the record.
    pub fn encode(&self) -> (v: Vec<u8>)
        ensures
            v@ == self.encoding(),
            v@.len() == 9,
    {
        proof {
            lemma_le_round_trip();
        }
        let mut v: Vec<u8> = Vec::new();
        v.push(self.bump);
        put_u64(&mut v, self.length);
        assert(v@ =~= self.encoding());
        v
    }
}

/// Where the canvas block of one frame lies. Written once.
#[derive(Clone, Copy, Debug, PartialEq, Eq)]
pub struct NeighborhoodFramePointer {
    pub bump: u8,
    pub framekey: Key,
}

impl NeighborhoodFramePointer {
    /// Bytes of an encoded record.
    pub const LEN: usize = 33;

    /// The bytes that stand for the record.
    pub open spec fn encoding(self) -> Seq<u8> {
        seq![self.bump] + self.framekey@
    }

    /// The record that the first bytes of `data` stand for, if any.
    pub open spec fn parse(data: Seq<u8>) -> Option<NeighborhoodFramePointer> {
        if data.len() >= 33 {
            Some(NeighborhoodFramePointer { bump: data[0], framekey: key_at(data, 1) })
        } else {
            None
        }
    }

    /// What is written is read back, whatever follows it.
    pub proof fn lemma_round_trip(self, rest: Seq<u8>)
        ensures
            self.encoding().len() == 33,
            NeighborhoodFramePointer::parse(self.encoding() + rest) == Some(self),
    {
        lemma_key_of_view(self.framekey);
        let data = self.encoding() + rest;
        assert(data.subrange(1, 33) =~= self.framekey@);
    }

    /// Reads the record at the start of `data`.
    pub fn decode(data: &[u8]) -> (r: Option<NeighborhoodFramePointer>)
        ensures
            r == NeighborhoodFramePointer::parse(data@),
    {
        if data.len() < 33 {
            return None;
        }
        Some(NeighborhoodFramePointer { bump: data[0], framekey: get_key(data, 1) })
    }

    /// The bytes that stand for the record.
    pub fn encode(&self) -> (v: Vec<u8>)
        ensures
            v@ == self.encoding(),
            v@.len() == 33,
    {
        let mut v: Vec<u8> = Vec::new();
        v.push(self.bump);
        put_key(&mut v, &self.framekey);
        assert(v@ =~= self.encoding());
        v
    }
}

/// A canvas block of `len` bytes right after it was stamped for the
/// neighborhood at `(x, y)`: every byte zero but the two coordinates and the
/// flag behind the cells.
pub open spec fn stamped_block(len: nat, x: i64, y: i64) -> Seq<u8> {
    Seq::new(
        len,
        |i: int|
            if BLOCK_X_OFFSET <= i < BLOCK_Y_OFFSET {
                i64_le(x)[i - BLOCK_X_OFFSET]
            } else if BLOCK_Y_OFFSET <= i < BLOCK_FLAG_OFFSET {
                i64_le(y)[i - BLOCK_Y_OFFSET]
            } else if i == BLOCK_FLAG_OFFSET {
                1u8
            } else {
                0u8
            },
    )
}

/// Whether a canvas block can be stamped: it has room for the cells and the
/// header, and carries no stamp yet.
pub open spec fn block_is_blank(data: Seq<u8>) -> bool {
    data.len() >= CANVAS_BLOCK_LEN && data[BLOCK_FLAG_OFFSET as int] == 0
}

/// Whether a canvas block can be stamped.
pub fn is_blank_block(data: &[u8]) -> (r: bool)
    ensures
        r == block_is_blank(data@),
{
    data.len() >= CANVAS_BLOCK_LEN && data[BLOCK_FLAG_OFFSET] == 0
}

/// The contents of a canvas block of `len` bytes stamped for the neighborhood
/// at `(x, y)`.
pub fn stamp_block(len: usize, x: i64, y: i64) -> (v: Vec<u8>)
    requires
        len >= CANVAS_BLOCK_LEN,
    ensures
        v@ == stamped_block(len as nat, x, y),
        v@.len() == len,
{
    proof {
        lemma_le_round_trip();
    }
    let bx = vstd::bytes::u64_to_le_bytes(x as u64);
    let by = vstd::bytes::u64_to_le_bytes(y as u64);
    let mut v: Vec<u8> = Vec::new();
    let mut i: usize = 0;
    while i < len
        invariant
            i <= len,
            bx@ == i64_le(x),
            by@ == i64_le(y),
            bx@.len() == 8,
            by@.len() == 8,
            v@.len() == i,
            forall|j: int| 0 <= j < i ==> v@[j] == stamped_block(len as nat, x, y)[j],
        decreases len - i,
    {
        let b: u8 = if BLOCK_X_OFFSET <= i && i < BLOCK_Y_OFFSET {
            bx[i - BLOCK_X_OFFSET]
        } else if BLOCK_Y_OFFSET <= i && i < BLOCK_FLAG_OFFSET {
            by[i - BLOCK_Y_OFFSET]
        } else if i == BLOCK_FLAG_OFFSET {
            1u8
        } else {
            0u8
        };
        v.push(b);
        i += 1;
    }
    assert(v@ =~= stamped_block(len as nat, x, y));
    v
}

/// A freshly stamped block is marked, names its neighborhood, and every cell
/// in it is black.
pub proof fn lemma_stamped_block(len: nat, x: i64, y: i64)
    requires
        len >= CANVAS_BLOCK_LEN,
    ensures
        stamped_block(len, x, y).len() == len,
        !block_is_blank(stamped_block(len, x, y)),
        stamped_block(len, x, y).subrange(BLOCK_X_OFFSET as int, BLOCK_Y_OFFSET as int) == i64_le(x),
        stamped_block(len, x, y).subrange(BLOCK_Y_OFFSET as int, BLOCK_FLAG_OFFSET as int)
            == i64_le(y),
        forall|i: int| 0 <= i < CANVAS_CELL_BYTES ==> stamped_block(len, x, y)[i] == 0,
{
    lemma_le_round_trip();
    let b = stamped_block(len, x, y);
    assert(b.subrange(BLOCK_X_OFFSET as int, BLOCK_Y_OFFSET as int) =~= i64_le(x));
    assert(b.subrange(BLOCK_Y_OFFSET as int, BLOCK_FLAG_OFFSET as int) =~= i64_le(y));
}

} // verus!
