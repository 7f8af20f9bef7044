//! Little-endian integers at fixed offsets of a byte sequence.
//!
//! The records of a cell are packed: no field is aligned and none is padded,
//! so every field is read byte by byte from its offset.

use vstd::prelude::*;

verus! {

/// The unsigned 16-bit integer whose two bytes start at `offset`.
pub open spec fn le_u16(bytes: Seq<u8>, offset: int) -> int {
    bytes[offset] as int + 0x100 * (bytes[offset + 1] as int)
}

/// The unsigned 32-bit integer whose four bytes start at `offset`.
pub open spec fn le_u32(bytes: Seq<u8>, offset: int) -> int {
    le_u16(bytes, offset) + 0x1_0000 * le_u16(bytes, offset + 2)
}

/// The unsigned 64-bit integer whose eight bytes start at `offset`.
pub open spec fn le_u64(bytes: Seq<u8>, offset: int) -> int {
    le_u32(bytes, offset) + 0x1_0000_0000 * le_u32(bytes, offset + 4)
}

/// A little-endian integer depends only on the bytes it covers, so it can be
/// read from a sub-range as well as from the whole sequence.
pub proof fn lemma_le_subrange(bytes: Seq<u8>, from: int, to: int, offset: int)
    requires
        0 <= from <= to <= bytes.len(),
        0 <= offset,
    ensures
        offset + 2 <= to - from ==> le_u16(bytes.subrange(from, to), offset) == le_u16(
            bytes,
            from + offset,
        ),
        offset + 4 <= to - from ==> le_u32(bytes.subrange(from, to), offset) == le_u32(
            bytes,
            from + offset,
        ),
        offset + 8 <= to - from ==> le_u64(bytes.subrange(from, to), offset) == le_u64(
            bytes,
            from + offset,
        ),
{
}

/// Reads the unsigned 16-bit integer at `offset`.
pub fn read_u16(bytes: &[u8], offset: usize) -> (value: u16)
    requires
        offset + 2 <= bytes.len(),
    ensures
        value == le_u16(bytes@, offset as int),
{
    let low: u16 = bytes[offset] as u16;
    let high: u16 = bytes[offset + 1] as u16;
    low + 0x100 * high
}

/// Reads the unsigned 32-bit integer at `offset`.
pub fn read_u32(bytes: &[u8], offset: usize) -> (value: u32)
    requires
        offset + 4 <= bytes.len(),
    ensures
        value == le_u32(bytes@, offset as int),
{
    let low: u32 = read_u16(bytes, offset) as u32;
    let high: u32 = read_u16(bytes, offset + 2) as u32;
    low + 0x1_0000 * high
}

/// Reads the unsigned 64-bit integer at `offset`.
pub fn read_u64(bytes: &[u8], offset: usize) -> (value: u64)
    requires
        offset + 8 <= bytes.len(),
    ensures
        value == le_u64(bytes@, offset as int),
{
    let low: u64 = read_u32(bytes, offset) as u64;
    let high: u64 = read_u32(bytes, offset + 4) as u64;
    low + 0x1_0000_0000 * high
}

} // verus!
