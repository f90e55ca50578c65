//! Big-endian primitive reads over a byte buffer.
//!
//! The spec functions say what a multi-byte field at a given position is
//! worth; the executable readers are proved to return exactly that.  Every
//! read carries a bounds precondition, so no caller can reach past the end of
//! a buffer.

use vstd::prelude::*;

verus! {

/// The unsigned 16-bit big-endian value at position `i` of `s`.
pub open spec fn be16(s: Seq<u8>, i: int) -> int {
    256 * (s[i] as int) + (s[i + 1] as int)
}

/// The unsigned 32-bit big-endian value at position `i` of `s`.
pub open spec fn be32(s: Seq<u8>, i: int) -> int {
    0x1000000 * (s[i] as int) + 0x10000 * (s[i + 1] as int) + 0x100 * (s[i + 2] as int) + (
    s[i + 3] as int)
}

/// Reads a 16-bit pattern as a two's-complement signed value.
pub open spec fn sign16(v: int) -> int {
    if v >= 0x8000 {
        v - 0x10000
    } else {
        v
    }
}

/// The signed 16-bit big-endian value at position `i` of `s`.
pub open spec fn be_i16(s: Seq<u8>, i: int) -> int {
    sign16(be16(s, i))
}

pub proof fn lemma_be16_bounds(s: Seq<u8>, i: int)
    requires
        0 <= i,
        i + 2 <= s.len(),
    ensures
        0 <= be16(s, i) < 0x10000,
{
}

pub proof fn lemma_be32_bounds(s: Seq<u8>, i: int)
    requires
        0 <= i,
        i + 4 <= s.len(),
    ensures
        0 <= be32(s, i) < 0x100000000,
{
}

/// Reads the unsigned 16-bit big-endian field at `pos`.
pub fn read_u16(data: &Vec<u8>, pos: usize) -> (r: u16)
    requires
        pos + 2 <= data.len(),
    ensures
        r == be16(data@, pos as int),
{
    let hi = data[pos];
    let lo = data[pos + 1];
    256 * (hi as u16) + (lo as u16)
}

/// Reads the unsigned 32-bit big-endian field at `pos`.
pub fn read_u32(data: &Vec<u8>, pos: usize) -> (r: u32)
    requires
        pos + 4 <= data.len(),
    ensures
        r == be32(data@, pos as int),
{
    let b0 = data[pos];
    let b1 = data[pos + 1];
    let b2 = data[pos + 2];
    let b3 = data[pos + 3];
    0x1000000 * (b0 as u32) + 0x10000 * (b1 as u32) + 0x100 * (b2 as u32) + (b3 as u32)
}

/// Reads the signed 16-bit big-endian field at `pos`.
pub fn read_i16(data: &Vec<u8>, pos: usize) -> (r: i16)
    requires
        pos + 2 <= data.len(),
    ensures
        r == be_i16(data@, pos as int),
{
    let v = read_u16(data, pos);
    if v >= 0x8000 {
        let m: i32 = (v as i32) - 0x10000;
        assert(-0x8000 <= m < 0);
        m as i16
    } else {
        v as i16
    }
}

} // verus!
