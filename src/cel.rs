//! Cel chunks (type `0x2005`): the pixels, or a link to them, of one layer
//! in one frame. Compressed pixels are inflated as the chunk is decoded.

use vstd::prelude::*;
use crate::bytes::{byte_at, bytes_between, clipped, le_i16, le_u16, read_i16, read_u16, read_u8};
use crate::error::DecodeError;
use crate::kinds::{cel_type_of, AsepriteCelType};

verus! {

pub const ASEPRITE_CEL_CHUNK_MAGIC: u16 = 0x2005;

/// What inflating the zlib stream `data` gives: the bytes, or `None` for a stream that fails.
pub uninterp spec fn zlib_inflate(data: Seq<u8>) -> Option<Seq<u8>>;

/// Relies on flate2's `bufread::ZlibDecoder`, read to its end: the zlib stream
/// in `data` inflated, or an error where the stream is corrupt or incomplete.
#[verifier::external_body]
fn inflate(data: &[u8]) -> (r: Option<Vec<u8>>)
    ensures
        match r {
            Some(v) => zlib_inflate(data@) == Some(v@),
            None => zlib_inflate(data@) is None,
        },
{
    let mut out = Vec::new();
    match std::io::Read::read_to_end(&mut flate2::bufread::ZlibDecoder::new(data), &mut out) {
        Ok(_) => Some(out),
        Err(_) => None,
    }
}

pub struct AsepriteCelChunk {
    /// Position of the owning layer in the flat layer list.
    pub layer_index: u16,
    pub x_pos: i16,
    pub y_pos: i16,
    pub opacity: u8,
    pub cel_type: AsepriteCelType,
    pub z_index: i16,
    /// Raw and compressed-image cels.
    pub width: Option<u16>,
    pub height: Option<u16>,
    /// The uncompressed pixels, for raw and compressed-image cels alike.
    pub raw_data: Option<Vec<u8>>,
    /// Linked cels: the frame whose pixels this cel reuses.
    pub linked_to: Option<u16>,
    /// Compressed-image cels: the pixels as stored.
    pub compressed_data: Option<Vec<u8>>,
}

pub struct CelModel {
    pub layer_index: u16,
    pub x_pos: i16,
    pub y_pos: i16,
    pub opacity: u8,
    pub cel_type: AsepriteCelType,
    pub z_index: i16,
    pub width: Option<u16>,
    pub height: Option<u16>,
    pub raw_data: Option<Seq<u8>>,
    pub linked_to: Option<u16>,
    pub compressed_data: Option<Seq<u8>>,
}

pub open spec fn bytes_view(o: Option<Vec<u8>>) -> Option<Seq<u8>> {
    match o {
        Some(v) => Some(v@),
        None => None,
    }
}

impl View for AsepriteCelChunk {
    type V = CelModel;

    open spec fn view(&self) -> CelModel {
        CelModel {
            layer_index: self.layer_index,
            x_pos: self.x_pos,
            y_pos: self.y_pos,
            opacity: self.opacity,
            cel_type: self.cel_type,
            z_index: self.z_index,
            width: self.width,
            height: self.height,
            raw_data: bytes_view(self.raw_data),
            linked_to: self.linked_to,
            compressed_data: bytes_view(self.compressed_data),
        }
    }
}

/// The kind of the cel in chunk `s`.
pub open spec fn cel_kind(s: Seq<u8>) -> AsepriteCelType {
    cel_type_of(le_u16(s, 13))
}

/// The bytes after a cel's width and height: its pixels, raw or compressed.
pub open spec fn cel_payload(s: Seq<u8>) -> Seq<u8> {
    clipped(s, 26, s.len() as int)
}

/// The cel that chunk `s` describes, given what its payload inflates to.
pub open spec fn cel_of(s: Seq<u8>, inflated: Option<Seq<u8>>) -> Result<CelModel, DecodeError> {
    let base = CelModel {
        layer_index: le_u16(s, 6),
        x_pos: le_i16(s, 8),
        y_pos: le_i16(s, 10),
        opacity: byte_at(s, 12),
        cel_type: cel_kind(s),
        z_index: le_i16(s, 15),
        width: None,
        height: None,
        raw_data: None,
        linked_to: None,
        compressed_data: None,
    };
    match cel_kind(s) {
        AsepriteCelType::Raw => Ok(
            CelModel {
                width: Some(le_u16(s, 22)),
                height: Some(le_u16(s, 24)),
                raw_data: Some(cel_payload(s)),
                ..base
            },
        ),
        AsepriteCelType::Linked => Ok(CelModel { linked_to: Some(le_u16(s, 22)), ..base }),
        AsepriteCelType::CompressedImage => match inflated {
            Some(pixels) => Ok(
                CelModel {
                    width: Some(le_u16(s, 22)),
                    height: Some(le_u16(s, 24)),
                    raw_data: Some(pixels),
                    compressed_data: Some(cel_payload(s)),
                    ..base
                },
            ),
            None => Err(DecodeError::DecompressionFailed),
        },
        AsepriteCelType::CompressedTilemap => Err(DecodeError::UnsupportedFeature),
    }
}

/// The cel that chunk `s` describes.
pub open spec fn cel_chunk_of(s: Seq<u8>) -> Result<CelModel, DecodeError> {
    cel_of(s, zlib_inflate(cel_payload(s)))
}

pub open spec fn cel_result_view(r: Result<AsepriteCelChunk, DecodeError>) -> Result<
    CelModel,
    DecodeError,
> {
    match r {
        Ok(c) => Ok(c@),
        Err(e) => Err(e),
    }
}

/// Decodes the cel chunk `span`, taking `inflated` as what its payload
/// inflates to; `inflated` is read only for a compressed-image cel.
pub fn decode_cel_with(span: &[u8], inflated: Option<Vec<u8>>) -> (r: Result<
    AsepriteCelChunk,
    DecodeError,
>)
    ensures
        cel_result_view(r) == cel_of(span@, bytes_view(inflated)),
{
    let cel_type = AsepriteCelType::from(read_u16(span, 13));
    let mut cel = AsepriteCelChunk {
        layer_index: read_u16(span, 6),
        x_pos: read_i16(span, 8),
        y_pos: read_i16(span, 10),
        opacity: read_u8(span, 12),
        cel_type,
        z_index: read_i16(span, 15),
        width: None,
        height: None,
        raw_data: None,
        linked_to: None,
        compressed_data: None,
    };
    match cel_type {
        AsepriteCelType::Raw => {
            cel.width = Some(read_u16(span, 22));
            cel.height = Some(read_u16(span, 24));
            cel.raw_data = Some(vstd::slice::slice_to_vec(bytes_between(span, 26, span.len())));
        },
        AsepriteCelType::Linked => {
            cel.linked_to = Some(read_u16(span, 22));
        },
        AsepriteCelType::CompressedImage => {
            match inflated {
                Some(pixels) => {
                    cel.width = Some(read_u16(span, 22));
                    cel.height = Some(read_u16(span, 24));
                    cel.compressed_data = Some(
                        vstd::slice::slice_to_vec(bytes_between(span, 26, span.len())),
                    );
                    cel.raw_data = Some(pixels);
                },
                None => {
                    return Err(DecodeError::DecompressionFailed);
                },
            }
        },
        AsepriteCelType::CompressedTilemap => {
            return Err(DecodeError::UnsupportedFeature);
        },
    }
    Ok(cel)
}

/// Decodes the cel chunk `span`, inflating its pixels if they are compressed.
pub fn decode_cel(span: &[u8]) -> (r: Result<AsepriteCelChunk, DecodeError>)
    ensures
        cel_result_view(r) == cel_chunk_of(span@),
{
    let inflated = if AsepriteCelType::from(read_u16(span, 13)) == AsepriteCelType::CompressedImage {
        inflate(bytes_between(span, 26, span.len()))
    } else {
        None
    };
    decode_cel_with(span, inflated)
}

/// Compression is transparent: a raw cel and a compressed-image cel whose
/// payload inflates to the raw cel's pixels both decode, to the same pixels.
pub proof fn lemma_compression_transparent(raw: Seq<u8>, packed: Seq<u8>)
    requires
        cel_kind(raw) == AsepriteCelType::Raw,
        cel_kind(packed) == AsepriteCelType::CompressedImage,
        zlib_inflate(cel_payload(packed)) == Some(cel_payload(raw)),
    ensures
        cel_chunk_of(raw) is Ok,
        cel_chunk_of(packed) is Ok,
        cel_chunk_of(raw)->Ok_0.raw_data == Some(cel_payload(raw)),
        cel_chunk_of(packed)->Ok_0.raw_data == cel_chunk_of(raw)->Ok_0.raw_data,
{
}

/// A compressed-tilemap cel is refused with `UnsupportedFeature`.
pub proof fn lemma_compressed_tilemap_unsupported(s: Seq<u8>)
    requires
        cel_kind(s) == AsepriteCelType::CompressedTilemap,
    ensures
        cel_chunk_of(s) == Err::<CelModel, DecodeError>(DecodeError::UnsupportedFeature),
{
}

} // verus!
