//! Little-endian fields in bytes read out of the target.

use vstd::prelude::*;

verus! {

/// The 16-bit value whose two bytes stand at `offset`, the low byte first.
pub open spec fn spec_le_u16(bytes: Seq<u8>, offset: int) -> u16 {
    (bytes[offset] + bytes[offset + 1] * 0x100) as u16
}

/// The 32-bit value whose four bytes stand at `offset`, the low byte first.
pub open spec fn spec_le_u32(bytes: Seq<u8>, offset: int) -> u32 {
    (bytes[offset] + bytes[offset + 1] * 0x100 + bytes[offset + 2] * 0x1_0000 + bytes[offset + 3]
        * 0x100_0000) as u32
}

/// The 64-bit value whose eight bytes stand at `offset`, the low byte first.
pub open spec fn spec_le_u64(bytes: Seq<u8>, offset: int) -> u64 {
    (spec_le_u32(bytes, offset) + spec_le_u32(bytes, offset + 4) * 0x1_0000_0000) as u64
}

/// Reads the 16-bit value at `offset`.
pub fn le_u16(bytes: &[u8], offset: usize) -> (value: u16)
    requires
        offset + 2 <= bytes@.len(),
    ensures
        value == spec_le_u16(bytes@, offset as int),
{
    bytes[offset] as u16 + bytes[offset + 1] as u16 * 0x100
}

/// Reads the 32-bit value at `offset`.
pub fn le_u32(bytes: &[u8], offset: usize) -> (value: u32)
    requires
        offset + 4 <= bytes@.len(),
    ensures
        value == spec_le_u32(bytes@, offset as int),
{
    bytes[offset] as u32 + bytes[offset + 1] as u32 * 0x100 + bytes[offset + 2] as u32 * 0x1_0000
        + bytes[offset + 3] as u32 * 0x100_0000
}

/// Reads the 64-bit value at `offset`.
pub fn le_u64(bytes: &[u8], offset: usize) -> (value: u64)
    requires
        offset + 8 <= bytes@.len(),
    ensures
        value == spec_le_u64(bytes@, offset as int),
{
    let length = bytes.len();
    assert(offset + 8 <= length);
    le_u32(bytes, offset) as u64 + le_u32(bytes, offset + 4) as u64 * 0x1_0000_0000
}

/// The unsigned value with the same 32 bits as `value`.
pub open spec fn spec_unsigned(value: i32) -> u32 {
    if value >= 0 {
        value as u32
    } else {
        (value + 0x1_0000_0000) as u32
    }
}

/// The signed value with the same 32 bits as `value`.
pub open spec fn spec_signed(value: u32) -> i32 {
    if value < 0x8000_0000 {
        value as i32
    } else {
        (value - 0x1_0000_0000) as i32
    }
}

/// The unsigned value with the same 32 bits as `value`.
pub fn unsigned(value: i32) -> (same: u32)
    ensures
        same == spec_unsigned(value),
{
    if value >= 0 {
        value as u32
    } else {
        let below: i32 = -(value + 1);
        u32::MAX - (below as u32)
    }
}

/// The signed value with the same 32 bits as `value`.
pub fn signed(value: u32) -> (same: i32)
    ensures
        same == spec_signed(value),
{
    if value < 0x8000_0000 {
        value as i32
    } else {
        let above: u32 = u32::MAX - value;
        -(above as i32) - 1
    }
}

/// A signed 32-bit value widened to 64 bits with its sign, then read as unsigned.
pub open spec fn spec_sign_extend(value: i32) -> u64 {
    if value >= 0 {
        value as u64
    } else {
        (0x1_0000_0000_0000_0000 + value) as u64
    }
}

/// A signed 32-bit value widened to 64 bits with its sign, then read as unsigned.
pub fn sign_extend(value: i32) -> (wide: u64)
    ensures
        wide == spec_sign_extend(value),
{
    if value >= 0 {
        value as u64
    } else {
        let below: i32 = -(value + 1);
        u64::MAX - (below as u64)
    }
}

} // verus!
