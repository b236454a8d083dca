//! Little-endian integers inside a byte region.
//!
//! Firmware publishes its tables as flat records whose multi-byte fields are
//! stored least significant byte first. The functions here read one such
//! field at a given offset of a region.

use vstd::prelude::*;

verus! {

/// The value of the 2-byte little-endian field that starts at offset `at`.
pub open spec fn le_u16(bytes: Seq<u8>, at: int) -> u16
    recommends
        0 <= at,
        at + 2 <= bytes.len(),
{
    (bytes[at] as int + 0x100 * (bytes[at + 1] as int)) as u16
}

/// The value of the 4-byte little-endian field that starts at offset `at`.
pub open spec fn le_u32(bytes: Seq<u8>, at: int) -> u32
    recommends
        0 <= at,
        at + 4 <= bytes.len(),
{
    (le_u16(bytes, at) as int + 0x1_0000 * (le_u16(bytes, at + 2) as int)) as u32
}

/// The value of the 8-byte little-endian field that starts at offset `at`.
pub open spec fn le_u64(bytes: Seq<u8>, at: int) -> u64
    recommends
        0 <= at,
        at + 8 <= bytes.len(),
{
    (le_u32(bytes, at) as int + 0x1_0000_0000 * (le_u32(bytes, at + 4) as int)) as u64
}

/// Reads the 2-byte little-endian field at offset `at`.
pub fn read_u16_le(bytes: &[u8], at: usize) -> (value: u16)
    requires
        at + 2 <= bytes.len(),
    ensures
        value == le_u16(bytes@, at as int),
{
    let low: u16 = bytes[at] as u16;
    let high: u16 = bytes[at + 1] as u16;
    low + 0x100 * high
}

/// Reads the 4-byte little-endian field at offset `at`.
pub fn read_u32_le(bytes: &[u8], at: usize) -> (value: u32)
    requires
        at + 4 <= bytes.len(),
    ensures
        value == le_u32(bytes@, at as int),
{
    let low: u32 = read_u16_le(bytes, at) as u32;
    let high: u32 = read_u16_le(bytes, at + 2) as u32;
    low + 0x1_0000 * high
}

/// Reads the 8-byte little-endian field at offset `at`.
pub fn read_u64_le(bytes: &[u8], at: usize) -> (value: u64)
    requires
        at + 8 <= bytes.len(),
    ensures
        value == le_u64(bytes@, at as int),
{
    let low: u64 = read_u32_le(bytes, at) as u64;
    let high: u64 = read_u32_le(bytes, at + 4) as u64;
    low + 0x1_0000_0000 * high
}

/// A 4-byte field is the sum of its bytes, each weighted by its position.
pub proof fn lemma_le_u32_value(bytes: Seq<u8>, at: int)
    ensures
        le_u32(bytes, at) == bytes[at] as int + 0x100 * (bytes[at + 1] as int) + 0x1_0000 * (
        bytes[at + 2] as int) + 0x100_0000 * (bytes[at + 3] as int),
{
}

} // verus!
