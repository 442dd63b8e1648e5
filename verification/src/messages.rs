//! Wire messages of the vehicle's services, and the little-endian
//! byte-level helpers their codecs share.
//!
//! Every multi-byte integer on the wire is little-endian. A message is a
//! 4-byte unsigned tag followed by the payload the tag implies; decoding
//! reads only the bytes the recognized variant requires and ignores any
//! bytes that follow.

pub mod drive_core;
pub mod logger;

use vstd::prelude::*;

verus! {

/// Why a byte sequence does not decode as a complete message.
#[derive(Clone, Copy, Debug, PartialEq, Eq, Structural)]
pub enum DecodeError {
    /// The buffer ends before the recognized variant's payload does.
    Truncated,
    /// The leading tag word names no known variant.
    UnknownTag,
}

/// The little-endian byte image of a 32-bit word.
pub open spec fn le_bytes32(v: u32) -> Seq<u8> {
    seq![
        (v & 0xff) as u8,
        ((v >> 8) & 0xff) as u8,
        ((v >> 16) & 0xff) as u8,
        ((v >> 24) & 0xff) as u8,
    ]
}

/// The 32-bit word read from four little-endian bytes.
pub open spec fn word_of_le32(b0: u8, b1: u8, b2: u8, b3: u8) -> u32 {
    (b0 as u32) | ((b1 as u32) << 8) | ((b2 as u32) << 16) | ((b3 as u32) << 24)
}

/// The little-endian byte image of a 16-bit word.
pub open spec fn le_bytes16(v: u16) -> Seq<u8> {
    seq![(v & 0xff) as u8, ((v >> 8) & 0xff) as u8]
}

/// The 16-bit word read from two little-endian bytes.
pub open spec fn word_of_le16(b0: u8, b1: u8) -> u16 {
    (b0 as u16) | ((b1 as u16) << 8)
}

/// Reading back the four bytes of a word yields the word.
pub proof fn lemma_le32_round_trip(v: u32)
    ensures
        word_of_le32(
            le_bytes32(v)[0],
            le_bytes32(v)[1],
            le_bytes32(v)[2],
            le_bytes32(v)[3],
        ) == v,
{
    assert(((v & 0xff) as u8 as u32) | ((((v >> 8) & 0xff) as u8 as u32) << 8) | ((((v >> 16)
        & 0xff) as u8 as u32) << 16) | ((((v >> 24) & 0xff) as u8 as u32) << 24) == v)
        by (bit_vector);
}

/// Writing the word read from four bytes reproduces those bytes.
pub proof fn lemma_le32_bytes_of_word(b0: u8, b1: u8, b2: u8, b3: u8)
    ensures
        le_bytes32(word_of_le32(b0, b1, b2, b3)) == seq![b0, b1, b2, b3],
{
    let v = word_of_le32(b0, b1, b2, b3);
    assert((((b0 as u32) | ((b1 as u32) << 8) | ((b2 as u32) << 16) | ((b3 as u32) << 24))
        & 0xff) as u8 == b0) by (bit_vector);
    assert(((((b0 as u32) | ((b1 as u32) << 8) | ((b2 as u32) << 16) | ((b3 as u32) << 24))
        >> 8) & 0xff) as u8 == b1) by (bit_vector);
    assert(((((b0 as u32) | ((b1 as u32) << 8) | ((b2 as u32) << 16) | ((b3 as u32) << 24))
        >> 16) & 0xff) as u8 == b2) by (bit_vector);
    assert(((((b0 as u32) | ((b1 as u32) << 8) | ((b2 as u32) << 16) | ((b3 as u32) << 24))
        >> 24) & 0xff) as u8 == b3) by (bit_vector);
    assert(le_bytes32(v) =~= seq![b0, b1, b2, b3]);
}

/// Reading back the two bytes of a 16-bit word yields the word.
pub proof fn lemma_le16_round_trip(v: u16)
    ensures
        word_of_le16(le_bytes16(v)[0], le_bytes16(v)[1]) == v,
{
    assert(((v & 0xff) as u8 as u16) | ((((v >> 8) & 0xff) as u8 as u16) << 8) == v)
        by (bit_vector);
}

/// Appends the little-endian image of `v` to `out`.
pub fn push_le32(out: &mut Vec<u8>, v: u32)
    ensures
        final(out)@ == old(out)@ + le_bytes32(v),
{
    out.push((v & 0xff) as u8);
    out.push(((v >> 8) & 0xff) as u8);
    out.push(((v >> 16) & 0xff) as u8);
    out.push(((v >> 24) & 0xff) as u8);
    assert(out@ =~= old(out)@ + le_bytes32(v));
}

/// Appends the little-endian image of `v` to `out`.
pub fn push_le16(out: &mut Vec<u8>, v: u16)
    ensures
        final(out)@ == old(out)@ + le_bytes16(v),
{
    out.push((v & 0xff) as u8);
    out.push(((v >> 8) & 0xff) as u8);
    assert(out@ =~= old(out)@ + le_bytes16(v));
}

/// Reads the 32-bit word stored little-endian at `off`.
pub fn read_le32(bytes: &[u8], off: usize) -> (r: u32)
    requires
        off + 4 <= bytes@.len(),
    ensures
        r == word_of_le32(bytes@[off as int], bytes@[off + 1], bytes@[off + 2], bytes@[off + 3]),
{
    let b0 = bytes[off];
    let b1 = bytes[off + 1];
    let b2 = bytes[off + 2];
    let b3 = bytes[off + 3];
    (b0 as u32) | ((b1 as u32) << 8) | ((b2 as u32) << 16) | ((b3 as u32) << 24)
}

/// Reads the 16-bit word stored little-endian at `off`.
pub fn read_le16(bytes: &[u8], off: usize) -> (r: u16)
    requires
        off + 2 <= bytes@.len(),
    ensures
        r == word_of_le16(bytes@[off as int], bytes@[off + 1]),
{
    let b0 = bytes[off];
    let b1 = bytes[off + 1];
    (b0 as u16) | ((b1 as u16) << 8)
}

} // verus!
