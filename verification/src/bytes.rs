//! Big-endian fields: writing a number as bytes and reading it back.

use vstd::prelude::*;
use crate::wire::{be16, be32, be64, from_be16, from_be32, from_be64, signed16, signed32, signed64,
    signed8, unsigned16, unsigned32, unsigned64, unsigned8};

verus! {

/// Appends the two bytes of `x`, most significant first.
pub fn push_be16(writer: &mut Vec<u8>, x: u16)
    ensures
        final(writer)@ == old(writer)@ + be16(x),
{
    writer.push((x / 0x100) as u8);
    writer.push((x % 0x100) as u8);
    assert(writer@ =~= old(writer)@ + be16(x));
}

/// Appends the four bytes of `x`, most significant first.
pub fn push_be32(writer: &mut Vec<u8>, x: u32)
    ensures
        final(writer)@ == old(writer)@ + be32(x),
{
    writer.push((x / 0x100_0000) as u8);
    writer.push((x / 0x1_0000 % 0x100) as u8);
    writer.push((x / 0x100 % 0x100) as u8);
    writer.push((x % 0x100) as u8);
    assert(writer@ =~= old(writer)@ + be32(x));
}

/// Appends the eight bytes of `x`, most significant first.
pub fn push_be64(writer: &mut Vec<u8>, x: u64)
    ensures
        final(writer)@ == old(writer)@ + be64(x),
{
    let hi = (x / 0x1_0000_0000) as u32;
    let lo = (x % 0x1_0000_0000) as u32;
    push_be32(writer, hi);
    push_be32(writer, lo);
    assert(writer@ =~= old(writer)@ + be64(x));
}

/// The number that the two bytes of `bytes` spell.
pub fn read_be16(bytes: &[u8]) -> (x: u16)
    requires
        bytes@.len() == 2,
    ensures
        x == from_be16(bytes@[0], bytes@[1]),
{
    let hi: u16 = bytes[0] as u16;
    let lo: u16 = bytes[1] as u16;
    hi * 0x100 + lo
}

/// The number that the four bytes of `bytes` spell.
pub fn read_be32(bytes: &[u8]) -> (x: u32)
    requires
        bytes@.len() == 4,
    ensures
        x == from_be32(bytes@[0], bytes@[1], bytes@[2], bytes@[3]),
{
    let b0: u32 = bytes[0] as u32;
    let b1: u32 = bytes[1] as u32;
    let b2: u32 = bytes[2] as u32;
    let b3: u32 = bytes[3] as u32;
    b0 * 0x100_0000 + b1 * 0x1_0000 + b2 * 0x100 + b3
}

/// The number that the eight bytes of `bytes` spell.
pub fn read_be64(bytes: &[u8]) -> (x: u64)
    requires
        bytes@.len() == 8,
    ensures
        x == from_be64(
            from_be32(bytes@[0], bytes@[1], bytes@[2], bytes@[3]),
            from_be32(bytes@[4], bytes@[5], bytes@[6], bytes@[7]),
        ),
{
    let b0: u64 = bytes[0] as u64;
    let b1: u64 = bytes[1] as u64;
    let b2: u64 = bytes[2] as u64;
    let b3: u64 = bytes[3] as u64;
    let b4: u64 = bytes[4] as u64;
    let b5: u64 = bytes[5] as u64;
    let b6: u64 = bytes[6] as u64;
    let b7: u64 = bytes[7] as u64;
    let hi: u64 = b0 * 0x100_0000 + b1 * 0x1_0000 + b2 * 0x100 + b3;
    let lo: u64 = b4 * 0x100_0000 + b5 * 0x1_0000 + b6 * 0x100 + b7;
    hi * 0x1_0000_0000 + lo
}

/// The byte with the bits of `v`.
pub fn to_unsigned8(v: i8) -> (u: u8)
    ensures
        u == unsigned8(v),
{
    if v < 0 {
        (v as i16 + 0x100) as u8
    } else {
        v as u8
    }
}

/// The unsigned number with the bits of `v`.
pub fn to_unsigned16(v: i16) -> (u: u16)
    ensures
        u == unsigned16(v),
{
    if v < 0 {
        (v as i32 + 0x1_0000) as u16
    } else {
        v as u16
    }
}

/// The unsigned number with the bits of `v`.
pub fn to_unsigned32(v: i32) -> (u: u32)
    ensures
        u == unsigned32(v),
{
    if v < 0 {
        (v as i64 + 0x1_0000_0000) as u32
    } else {
        v as u32
    }
}

/// The unsigned number with the bits of `v`.
pub fn to_unsigned64(v: i64) -> (u: u64)
    ensures
        u == unsigned64(v),
{
    if v < 0 {
        (v as i128 + 0x1_0000_0000_0000_0000) as u64
    } else {
        v as u64
    }
}

/// The bits of `u`, read as two's complement.
pub fn to_signed8(u: u8) -> (v: i8)
    ensures
        v == signed8(u),
{
    if u >= 0x80 {
        (u as i16 - 0x100) as i8
    } else {
        u as i8
    }
}

/// The bits of `u`, read as two's complement.
pub fn to_signed16(u: u16) -> (v: i16)
    ensures
        v == signed16(u),
{
    if u >= 0x8000 {
        (u as i32 - 0x1_0000) as i16
    } else {
        u as i16
    }
}

/// The bits of `u`, read as two's complement.
pub fn to_signed32(u: u32) -> (v: i32)
    ensures
        v == signed32(u),
{
    if u >= 0x8000_0000 {
        (u as i64 - 0x1_0000_0000) as i32
    } else {
        u as i32
    }
}

/// The bits of `u`, read as two's complement.
pub fn to_signed64(u: u64) -> (v: i64)
    ensures
        v == signed64(u),
{
    if u >= 0x8000_0000_0000_0000 {
        (u as i128 - 0x1_0000_0000_0000_0000) as i64
    } else {
        u as i64
    }
}

} // verus!
