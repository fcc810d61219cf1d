//! Layer chunks (type `0x2004`). Offsets count from the start of the chunk,
//! its six-byte size and type header included.

use vstd::prelude::*;
use crate::bytes::{byte_at, bytes_between, clipped, le_u16, le_u32, read_u16, read_u32, read_u8};
use crate::kinds::{blend_mode_of, layer_type_of, AsepriteBlendMode, AsepriteLayerType};
use crate::text::{string_of, AsepriteString, StringModel};

verus! {

pub const ASEPRITE_LAYER_CHUNK_MAGIC: u16 = 0x2004;

pub struct AsepriteLayerChunk {
    pub flags: u16,
    pub layer_type: AsepriteLayerType,
    /// Nesting depth relative to the layers before it in the flat list.
    pub child_level: u16,
    pub default_width: u16,
    pub default_height: u16,
    pub blend_mode: AsepriteBlendMode,
    pub opacity: u8,
    pub name: AsepriteString,
    /// Present for tilemap layers only.
    pub tileset_index: Option<u32>,
}

pub struct LayerModel {
    pub flags: u16,
    pub layer_type: AsepriteLayerType,
    pub child_level: u16,
    pub default_width: u16,
    pub default_height: u16,
    pub blend_mode: AsepriteBlendMode,
    pub opacity: u8,
    pub name: StringModel,
    pub tileset_index: Option<u32>,
}

impl View for AsepriteLayerChunk {
    type V = LayerModel;

    open spec fn view(&self) -> LayerModel {
        LayerModel {
            flags: self.flags,
            layer_type: self.layer_type,
            child_level: self.child_level,
            default_width: self.default_width,
            default_height: self.default_height,
            blend_mode: self.blend_mode,
            opacity: self.opacity,
            name: self.name@,
            tileset_index: self.tileset_index,
        }
    }
}

/// Whether the layer in chunk `s` is a tilemap layer.
pub open spec fn layer_is_tilemap(s: Seq<u8>) -> bool {
    layer_type_of(le_u16(s, 8)) == AsepriteLayerType::Tilemap
}

/// The bytes of the layer's name field: from offset 22 to the end of the
/// chunk, less the four bytes of the tileset index on a tilemap layer.
pub open spec fn layer_name_field(s: Seq<u8>) -> Seq<u8> {
    clipped(s, 22, if layer_is_tilemap(s) { s.len() - 4 } else { s.len() as int })
}

/// The layer that chunk `s` describes.
pub open spec fn layer_of(s: Seq<u8>) -> LayerModel {
    LayerModel {
        flags: le_u16(s, 6),
        layer_type: layer_type_of(le_u16(s, 8)),
        child_level: le_u16(s, 10),
        default_width: le_u16(s, 12),
        default_height: le_u16(s, 14),
        blend_mode: blend_mode_of(le_u16(s, 16)),
        opacity: byte_at(s, 18),
        name: string_of(layer_name_field(s)),
        tileset_index: if layer_is_tilemap(s) {
            Some(le_u32(s, s.len() - 4))
        } else {
            None
        },
    }
}

/// Decodes the layer chunk whose bytes, header included, are `span`.
pub fn decode_layer(span: &[u8]) -> (r: AsepriteLayerChunk)
    ensures
        r@ == layer_of(span@),
{
    let n = span.len();
    let layer_type = AsepriteLayerType::from(read_u16(span, 8));
    let is_tilemap = layer_type == AsepriteLayerType::Tilemap;
    let name_end = if !is_tilemap {
        n
    } else if n >= 4 {
        n - 4
    } else {
        0
    };
    let name = AsepriteString::read_from_bytes(bytes_between(span, 22, name_end));
    let tileset_index = if !is_tilemap {
        None
    } else if n >= 4 {
        Some(read_u32(span, n - 4))
    } else {
        Some(0)
    };
    AsepriteLayerChunk {
        flags: read_u16(span, 6),
        layer_type,
        child_level: read_u16(span, 10),
        default_width: read_u16(span, 12),
        default_height: read_u16(span, 14),
        blend_mode: AsepriteBlendMode::from(read_u16(span, 16)),
        opacity: read_u8(span, 18),
        name,
        tileset_index,
    }
}

/// A layer chunk long enough to hold its fields is exactly 22 bytes of
/// header and fixed fields, then its name field, then on a tilemap layer the
/// four bytes of the tileset index; the name is read from that field alone.
pub proof fn lemma_layer_extent(s: Seq<u8>)
    requires
        s.len() >= 24 + (if layer_is_tilemap(s) { 4int } else { 0int }),
    ensures
        s.len() == 22 + layer_name_field(s).len() + (if layer_is_tilemap(s) { 4int } else { 0int }),
        layer_of(s).name == string_of(layer_name_field(s)),
        layer_of(s).tileset_index == (if layer_is_tilemap(s) {
            Some(le_u32(s, s.len() - 4))
        } else {
            None
        }),
{
}

} // verus!
