//! Assembling integers from bytes.
//!
//! The `u8tou*` functions take their bytes most significant first; the
//! `u8stou*` functions read a slice in little-endian order (the first byte
//! is the least significant one), as on-disk structures store them.

use vstd::prelude::*;

verus! {

/// Value of two bytes, most significant first.
pub open spec fn be16(a: u8, b: u8) -> int {
    a * 0x100 + b
}

/// Value of four bytes, most significant first.
pub open spec fn be32(a: u8, b: u8, c: u8, d: u8) -> int {
    a * 0x100_0000 + b * 0x1_0000 + c * 0x100 + d
}

/// Value of eight bytes, most significant first.
pub open spec fn be64(a: u8, b: u8, c: u8, d: u8, e: u8, f: u8, g: u8, h: u8) -> int {
    be32(a, b, c, d) * 0x1_0000_0000 + be32(e, f, g, h)
}

/// Little-endian value of the two bytes of `s` starting at `off`.
pub open spec fn le16(s: Seq<u8>, off: int) -> int {
    be16(s[off + 1], s[off])
}

/// Little-endian value of the four bytes of `s` starting at `off`.
pub open spec fn le32(s: Seq<u8>, off: int) -> int {
    be32(s[off + 3], s[off + 2], s[off + 1], s[off])
}

/// Little-endian value of the eight bytes of `s` starting at `off`.
pub open spec fn le64(s: Seq<u8>, off: int) -> int {
    be64(s[off + 7], s[off + 6], s[off + 5], s[off + 4], s[off + 3], s[off + 2], s[off + 1], s[off])
}

pub fn u8tou16(a: u8, b: u8) -> (r: u16)
    ensures
        r == be16(a, b),
{
    let r = (a as u16) << 8 | (b as u16);
    assert(((a as u16) << 8 | (b as u16)) == (a as u16) * 256 + (b as u16)) by (bit_vector);
    r
}

pub fn u8tou32(a: u8, b: u8, c: u8, d: u8) -> (r: u32)
    ensures
        r == be32(a, b, c, d),
{
    let r = (a as u32) << 24 | (b as u32) << 16 | (c as u32) << 8 | (d as u32);
    assert(((a as u32) << 24 | (b as u32) << 16 | (c as u32) << 8 | (d as u32)) == (a as u32)
        * 0x100_0000 + (b as u32) * 0x1_0000 + (c as u32) * 0x100 + (d as u32)) by (bit_vector);
    r
}

pub fn u8tou64(a: u8, b: u8, c: u8, d: u8, e: u8, f: u8, g: u8, h: u8) -> (r: u64)
    ensures
        r == be64(a, b, c, d, e, f, g, h),
{
    let hi = u8tou32(a, b, c, d);
    let lo = u8tou32(e, f, g, h);
    let r = (a as u64) << 56 | (b as u64) << 48 | (c as u64) << 40 | (d as u64) << 32 | (e as u64)
        << 24 | (f as u64) << 16 | (g as u64) << 8 | (h as u64);
    assert(r == (hi as u64) * 0x1_0000_0000 + (lo as u64)) by (bit_vector)
        requires
            r == (a as u64) << 56 | (b as u64) << 48 | (c as u64) << 40 | (d as u64) << 32 | (e as u64)
                << 24 | (f as u64) << 16 | (g as u64) << 8 | (h as u64),
            hi == (a as u32) * 0x100_0000 + (b as u32) * 0x1_0000 + (c as u32) * 0x100 + (d as u32),
            lo == (e as u32) * 0x100_0000 + (f as u32) * 0x1_0000 + (g as u32) * 0x100 + (h as u32),
    ;
    r
}

pub fn u8stou64(slice: &[u8]) -> (r: u64)
    requires
        slice@.len() >= 8,
    ensures
        r == le64(slice@, 0),
{
    u8tou64(slice[7], slice[6], slice[5], slice[4], slice[3], slice[2], slice[1], slice[0])
}

pub fn u8stou32(slice: &[u8]) -> (r: u32)
    requires
        slice@.len() >= 4,
    ensures
        r == le32(slice@, 0),
{
    u8tou32(slice[3], slice[2], slice[1], slice[0])
}

pub fn u8stou16(slice: &[u8]) -> (r: u16)
    requires
        slice@.len() >= 2,
    ensures
        r == le16(slice@, 0),
{
    u8tou16(slice[1], slice[0])
}

} // verus!
