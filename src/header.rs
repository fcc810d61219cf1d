//! The 128-byte file header.

use vstd::prelude::*;
use crate::bytes::{byte_at, bytes_between, le_i16, le_u16, le_u32, read_i16, read_u16, read_u32, read_u8};
use crate::error::DecodeError;

verus! {

pub const ASEPRITE_MAGIC_HEADER: u16 = 0xA5E0;

pub const HEADER_LEN: usize = 128;

pub struct AsepriteHeader {
    pub fsize: u32,
    pub magic: u16,
    pub frames: u16,
    pub width: u16,
    pub height: u16,
    /// Bits per pixel: 8, 16 or 32.
    pub colour_depth: u16,
    pub flags: u32,
    pub speed: u16,
    pub zero: Vec<u8>,
    pub palette_entry: u8,
    pub ignore: Vec<u8>,
    pub colour_count: u16,
    pub pixel_width: u8,
    pub pixel_height: u8,
    pub grid_xpos: i16,
    pub grid_ypos: i16,
    pub grid_width: u16,
    pub grid_height: u16,
    pub future: Vec<u8>,
}

pub struct HeaderModel {
    pub fsize: u32,
    pub magic: u16,
    pub frames: u16,
    pub width: u16,
    pub height: u16,
    pub colour_depth: u16,
    pub flags: u32,
    pub speed: u16,
    pub zero: Seq<u8>,
    pub palette_entry: u8,
    pub ignore: Seq<u8>,
    pub colour_count: u16,
    pub pixel_width: u8,
    pub pixel_height: u8,
    pub grid_xpos: i16,
    pub grid_ypos: i16,
    pub grid_width: u16,
    pub grid_height: u16,
    pub future: Seq<u8>,
}

impl View for AsepriteHeader {
    type V = HeaderModel;

    open spec fn view(&self) -> HeaderModel {
        HeaderModel {
            fsize: self.fsize,
            magic: self.magic,
            frames: self.frames,
            width: self.width,
            height: self.height,
            colour_depth: self.colour_depth,
            flags: self.flags,
            speed: self.speed,
            zero: self.zero@,
            palette_entry: self.palette_entry,
            ignore: self.ignore@,
            colour_count: self.colour_count,
            pixel_width: self.pixel_width,
            pixel_height: self.pixel_height,
            grid_xpos: self.grid_xpos,
            grid_ypos: self.grid_ypos,
            grid_width: self.grid_width,
            grid_height: self.grid_height,
            future: self.future@,
        }
    }
}

/// The header's fields, each read at its fixed offset in `b`.
pub open spec fn header_of(b: Seq<u8>) -> HeaderModel {
    HeaderModel {
        fsize: le_u32(b, 0),
        magic: le_u16(b, 4),
        frames: le_u16(b, 6),
        width: le_u16(b, 8),
        height: le_u16(b, 10),
        colour_depth: le_u16(b, 12),
        flags: le_u32(b, 14),
        speed: le_u16(b, 18),
        zero: b.subrange(20, 28),
        palette_entry: byte_at(b, 28),
        ignore: b.subrange(29, 32),
        colour_count: le_u16(b, 32),
        pixel_width: byte_at(b, 34),
        pixel_height: byte_at(b, 35),
        grid_xpos: le_i16(b, 36),
        grid_ypos: le_i16(b, 38),
        grid_width: le_u16(b, 40),
        grid_height: le_u16(b, 42),
        future: b.subrange(44, 128),
    }
}

/// What decoding the header at the start of `b` gives.
pub open spec fn header_result(b: Seq<u8>) -> Result<HeaderModel, DecodeError> {
    if b.len() < 128 {
        Err(DecodeError::TruncatedHeader)
    } else if le_u16(b, 4) != ASEPRITE_MAGIC_HEADER {
        Err(DecodeError::BadMagic)
    } else {
        Ok(header_of(b))
    }
}

/// Decodes the file header at the start of `bytes`.
pub fn decode_header(bytes: &[u8]) -> (r: Result<AsepriteHeader, DecodeError>)
    ensures
        match r {
            Ok(h) => header_result(bytes@) == Ok::<HeaderModel, DecodeError>(h@),
            Err(e) => header_result(bytes@) == Err::<HeaderModel, DecodeError>(e),
        },
{
    if bytes.len() < HEADER_LEN {
        return Err(DecodeError::TruncatedHeader);
    }
    let magic = read_u16(bytes, 4);
    if magic != ASEPRITE_MAGIC_HEADER {
        return Err(DecodeError::BadMagic);
    }
    Ok(
        AsepriteHeader {
            fsize: read_u32(bytes, 0),
            magic,
            frames: read_u16(bytes, 6),
            width: read_u16(bytes, 8),
            height: read_u16(bytes, 10),
            colour_depth: read_u16(bytes, 12),
            flags: read_u32(bytes, 14),
            speed: read_u16(bytes, 18),
            zero: vstd::slice::slice_to_vec(bytes_between(bytes, 20, 28)),
            palette_entry: read_u8(bytes, 28),
            ignore: vstd::slice::slice_to_vec(bytes_between(bytes, 29, 32)),
            colour_count: read_u16(bytes, 32),
            pixel_width: read_u8(bytes, 34),
            pixel_height: read_u8(bytes, 35),
            grid_xpos: read_i16(bytes, 36),
            grid_ypos: read_i16(bytes, 38),
            grid_width: read_u16(bytes, 40),
            grid_height: read_u16(bytes, 42),
            future: vstd::slice::slice_to_vec(bytes_between(bytes, 44, 128)),
        },
    )
}

/// The two little-endian bytes of `v`.
pub open spec fn u16_bytes(v: u16) -> Seq<u8> {
    seq![(v % 256) as u8, (v / 256) as u8]
}

/// The four little-endian bytes of `v`.
pub open spec fn u32_bytes(v: u32) -> Seq<u8> {
    seq![(v % 256) as u8, ((v / 256) % 256) as u8, ((v / 65536) % 256) as u8, (v / 16777216) as u8]
}

/// The two little-endian bytes of `v` in two's complement.
pub open spec fn i16_bytes(v: i16) -> Seq<u8> {
    u16_bytes((if v >= 0 { v as int } else { v + 65536 }) as u16)
}

/// The header laid out at its fixed offsets, as the format stores it.
pub open spec fn header_bytes(h: HeaderModel) -> Seq<u8> {
    u32_bytes(h.fsize) + u16_bytes(h.magic) + u16_bytes(h.frames) + u16_bytes(h.width) + u16_bytes(
        h.height,
    ) + u16_bytes(h.colour_depth) + u32_bytes(h.flags) + u16_bytes(h.speed) + h.zero + seq![
        h.palette_entry,
    ] + h.ignore + u16_bytes(h.colour_count) + seq![h.pixel_width, h.pixel_height] + i16_bytes(
        h.grid_xpos,
    ) + i16_bytes(h.grid_ypos) + u16_bytes(h.grid_width) + u16_bytes(h.grid_height) + h.future
}

proof fn lemma_u16_round_trip(b: Seq<u8>, off: int)
    requires
        0 <= off,
        off + 2 <= b.len(),
    ensures
        u16_bytes(le_u16(b, off)) == b.subrange(off, off + 2),
{
    let b0 = b[off];
    let b1 = b[off + 1];
    let x = b0 + 256 * b1;
    assert(x % 256 == b0 && x / 256 == b1) by (nonlinear_arith)
        requires
            0 <= b0 < 256,
            0 <= b1 < 256,
            x == b0 + 256 * b1,
    ;
    assert(u16_bytes(le_u16(b, off)) =~= b.subrange(off, off + 2));
}

proof fn lemma_i16_round_trip(b: Seq<u8>, off: int)
    requires
        0 <= off,
        off + 2 <= b.len(),
    ensures
        i16_bytes(le_i16(b, off)) == b.subrange(off, off + 2),
{
    lemma_u16_round_trip(b, off);
}

proof fn lemma_u32_round_trip(b: Seq<u8>, off: int)
    requires
        0 <= off,
        off + 4 <= b.len(),
    ensures
        u32_bytes(le_u32(b, off)) == b.subrange(off, off + 4),
{
    let b0 = b[off];
    let b1 = b[off + 1];
    let b2 = b[off + 2];
    let b3 = b[off + 3];
    let x = b0 + 256 * b1 + 65536 * b2 + 16777216 * b3;
    assert(x % 256 == b0 && (x / 256) % 256 == b1 && (x / 65536) % 256 == b2 && x / 16777216 == b3)
        by (nonlinear_arith)
        requires
            0 <= b0 < 256,
            0 <= b1 < 256,
            0 <= b2 < 256,
            0 <= b3 < 256,
            x == b0 + 256 * b1 + 65536 * b2 + 16777216 * b3,
    ;
    assert(u32_bytes(le_u32(b, off)) =~= b.subrange(off, off + 4));
}

/// Laying a decoded header's fields back at their offsets gives the 128
/// bytes it was decoded from.
pub proof fn lemma_header_round_trip(b: Seq<u8>)
    requires
        b.len() >= 128,
    ensures
        header_bytes(header_of(b)) == b.subrange(0, 128),
{
    lemma_u32_round_trip(b, 0);
    lemma_u16_round_trip(b, 4);
    lemma_u16_round_trip(b, 6);
    lemma_u16_round_trip(b, 8);
    lemma_u16_round_trip(b, 10);
    lemma_u16_round_trip(b, 12);
    lemma_u32_round_trip(b, 14);
    lemma_u16_round_trip(b, 18);
    lemma_u16_round_trip(b, 32);
    lemma_i16_round_trip(b, 36);
    lemma_i16_round_trip(b, 38);
    lemma_u16_round_trip(b, 40);
    lemma_u16_round_trip(b, 42);
    assert(header_bytes(header_of(b)) =~= b.subrange(0, 128));
}

} // verus!
