//! The bytes that the halves exchange: one byte for a key, the row of its
//! switch in the high four bits and the column in the low four.
use vstd::prelude::*;

use crate::config::user_config::BIT_SHIFT;
use crate::matrix::KeyPos;

verus! {

/// The position that a byte of the other half stands for: the row in its
/// high four bits, the column in its low four. The byte zero stands for no
/// key.
pub open spec fn spec_unpack(byte: u8, layer: usize) -> KeyPos {
    if byte == 0 {
        KeyPos::spec_default()
    } else {
        KeyPos { row: byte >> BIT_SHIFT, col: byte & 0x0F, layer }
    }
}

/// The byte that stands for a position on the link between the halves: the
/// row in its high four bits, the column in its low four.
pub open spec fn spec_pack(position: KeyPos) -> u8 {
    (position.row << BIT_SHIFT) | position.col
}

/// The positions that the six bytes of the other half stand for.
pub open spec fn spec_unpack_all(bytes: Seq<u8>, layer: usize) -> Seq<KeyPos> {
    Seq::new(bytes.len(), |i: int| spec_unpack(bytes[i], layer))
}

/// The position that a byte of the other half stands for.
pub fn unpack(byte: u8, layer: usize) -> (position: KeyPos)
    ensures
        position == spec_unpack(byte, layer),
{
    if byte == 0 {
        KeyPos::default()
    } else {
        KeyPos { row: byte >> BIT_SHIFT, col: byte & 0x0F, layer }
    }
}

/// The byte that stands for a position on the link between the halves.
pub fn pack(position: &KeyPos) -> (byte: u8)
    ensures
        byte == spec_pack(*position),
{
    (position.row << BIT_SHIFT) | position.col
}

/// A row and a column of up to four bits each come back from the byte that
/// they were packed into.
proof fn lemma_nibbles(row: u8, col: u8)
    by (bit_vector)
    requires
        row <= 15,
        col <= 15,
    ensures
        ((row << 4u8) | col) >> 4u8 == row,
        ((row << 4u8) | col) & 0x0F == col,
        ((row << 4u8) | col) == 0 <==> row == 0 && col == 0,
{
}

/// The round trip over the link between the halves: a position whose row
/// and column are 15 at most comes back from its byte as it went in. The
/// one exception is row 0, column 0, whose byte is zero and stands for no
/// key.
pub proof fn lemma_pack_round_trip(position: KeyPos)
    requires
        position.row <= 15,
        position.col <= 15,
    ensures
        spec_pack(position) == 0 <==> position.row == 0 && position.col == 0,
        spec_pack(position) != 0 ==> spec_unpack(spec_pack(position), position.layer) == position,
        spec_pack(position) == 0 ==> spec_unpack(spec_pack(position), position.layer)
            == KeyPos::spec_default(),
{
    lemma_nibbles(position.row, position.col);
}

} // verus!
