//! Little-endian primitives over byte buffers. A read that does not fit in
//! the buffer gives zero instead of failing.

use vstd::prelude::*;

verus! {

/// The `u16` stored little-endian at `off`, or 0 when the two bytes are not all there.
pub open spec fn le_u16(s: Seq<u8>, off: int) -> u16 {
    if 0 <= off && off + 2 <= s.len() {
        (s[off] + 256 * s[off + 1]) as u16
    } else {
        0
    }
}

/// The `u32` stored little-endian at `off`, or 0 when the four bytes are not all there.
pub open spec fn le_u32(s: Seq<u8>, off: int) -> u32 {
    if 0 <= off && off + 4 <= s.len() {
        (s[off] + 256 * s[off + 1] + 65536 * s[off + 2] + 16777216 * s[off + 3]) as u32
    } else {
        0
    }
}

/// The two's-complement reading of `le_u16(s, off)`.
pub open spec fn le_i16(s: Seq<u8>, off: int) -> i16 {
    let u = le_u16(s, off);
    if u < 0x8000 {
        u as i16
    } else {
        (u - 0x10000) as i16
    }
}

/// The byte at `off`, or 0 past the end.
pub open spec fn byte_at(s: Seq<u8>, off: int) -> u8 {
    if 0 <= off < s.len() {
        s[off]
    } else {
        0
    }
}

/// The bytes of `s` in `[a, b)`, cut short at the end of `s`.
pub open spec fn clipped(s: Seq<u8>, a: int, b: int) -> Seq<u8> {
    if a >= s.len() || b <= a {
        Seq::empty()
    } else if b > s.len() {
        s.subrange(a, s.len() as int)
    } else {
        s.subrange(a, b)
    }
}

pub fn read_u16(s: &[u8], off: usize) -> (r: u16)
    ensures
        r == le_u16(s@, off as int),
{
    if off <= s.len() && s.len() - off >= 2 {
        s[off] as u16 + 256 * (s[off + 1] as u16)
    } else {
        0
    }
}

pub fn read_u32(s: &[u8], off: usize) -> (r: u32)
    ensures
        r == le_u32(s@, off as int),
{
    if off <= s.len() && s.len() - off >= 4 {
        s[off] as u32 + 256 * (s[off + 1] as u32) + 65536 * (s[off + 2] as u32) + 16777216 * (
        s[off + 3] as u32)
    } else {
        0
    }
}

pub fn read_i16(s: &[u8], off: usize) -> (r: i16)
    ensures
        r == le_i16(s@, off as int),
{
    let u = read_u16(s, off);
    if u < 0x8000 {
        u as i16
    } else {
        (u as i32 - 0x10000) as i16
    }
}

pub fn read_u8(s: &[u8], off: usize) -> (r: u8)
    ensures
        r == byte_at(s@, off as int),
{
    if off < s.len() {
        s[off]
    } else {
        0
    }
}

/// The bytes in `[a, b)` of `s`, cut short at its end.
pub fn bytes_between(s: &[u8], a: usize, b: usize) -> (r: &[u8])
    ensures
        r@ == clipped(s@, a as int, b as int),
{
    if a >= s.len() || b <= a {
        &s[0..0]
    } else if b > s.len() {
        &s[a..s.len()]
    } else {
        &s[a..b]
    }
}


/// Reads in the tail of `s` from `a` are reads in `s`, `a` further on.
pub proof fn lemma_tail_reads(s: Seq<u8>, a: int, k: int)
    requires
        0 <= a <= s.len(),
        0 <= k,
    ensures
        le_u16(s.subrange(a, s.len() as int), k) == le_u16(s, a + k),
        le_u32(s.subrange(a, s.len() as int), k) == le_u32(s, a + k),
        byte_at(s.subrange(a, s.len() as int), k) == byte_at(s, a + k),
{
}

/// A clipped range of the tail of `s` from `a` is the same range of `s`, `a` further on.
pub proof fn lemma_tail_clipped(s: Seq<u8>, a: int, x: int, y: int)
    requires
        0 <= a <= s.len(),
        0 <= x <= y,
    ensures
        clipped(s.subrange(a, s.len() as int), x, y) == clipped(s, a + x, a + y),
{
    assert(clipped(s.subrange(a, s.len() as int), x, y) =~= clipped(s, a + x, a + y));
}

} // verus!
