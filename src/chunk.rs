//! Chunks: each starts with its total size (`u32`, counting itself) and a
//! type tag (`u16`), and the type decoders read the whole span, header included.

use vstd::prelude::*;
use crate::bytes::{bytes_between, clipped, le_u16, le_u32, read_u16, read_u32};
use crate::cel::{cel_chunk_of, decode_cel, AsepriteCelChunk, CelModel, ASEPRITE_CEL_CHUNK_MAGIC};
use crate::error::DecodeError;
use crate::layer::{decode_layer, layer_of, AsepriteLayerChunk, LayerModel, ASEPRITE_LAYER_CHUNK_MAGIC};
use crate::tag::{decode_tags, tag_chunk_of, AsepriteTagChunk, TagChunkModel, ASEPRITE_TAG_CHUNK_MAGIC};

verus! {

/// A chunk of a type this decoder does not interpret, kept byte for byte.
pub struct RawAsepriteChunk {
    pub size: u32,
    pub chunk_type: u16,
    pub data: Vec<u8>,
}

pub enum Chunk {
    Unknown(RawAsepriteChunk),
    Layer(AsepriteLayerChunk),
    Cel(AsepriteCelChunk),
    Tag(AsepriteTagChunk),
}

pub struct RawChunkModel {
    pub size: u32,
    pub chunk_type: u16,
    pub data: Seq<u8>,
}

pub enum ChunkModel {
    Unknown(RawChunkModel),
    Layer(LayerModel),
    Cel(CelModel),
    Tag(TagChunkModel),
}

impl View for Chunk {
    type V = ChunkModel;

    open spec fn view(&self) -> ChunkModel {
        match self {
            Chunk::Unknown(r) => ChunkModel::Unknown(
                RawChunkModel { size: r.size, chunk_type: r.chunk_type, data: r.data@ },
            ),
            Chunk::Layer(l) => ChunkModel::Layer(l@),
            Chunk::Cel(c) => ChunkModel::Cel(c@),
            Chunk::Tag(t) => ChunkModel::Tag(t@),
        }
    }
}

pub open spec fn chunk_label(c: ChunkModel) -> Seq<char> {
    match c {
        ChunkModel::Unknown(_) => "unknown"@,
        ChunkModel::Layer(_) => "layer"@,
        ChunkModel::Cel(_) => "cel"@,
        ChunkModel::Tag(_) => "tag"@,
    }
}

impl Chunk {
    /// The name of the chunk's kind.
    pub fn name(&self) -> (r: &'static str)
        ensures
            r@ == chunk_label(self@),
    {
        match self {
            Self::Unknown(_) => "unknown",
            Self::Layer(_) => "layer",
            Self::Cel(_) => "cel",
            Self::Tag(_) => "tag",
        }
    }
}

/// The size that the chunk at `pos` declares.
pub open spec fn chunk_size(b: Seq<u8>, pos: int) -> u32 {
    le_u32(b, pos)
}

/// The type tag of the chunk at `pos`.
pub open spec fn chunk_type_at(b: Seq<u8>, pos: int) -> u16 {
    le_u16(b, pos + 4)
}

/// The bytes of the chunk at `pos`: as many as it declares, fewer where the stream ends first.
pub open spec fn chunk_span(b: Seq<u8>, pos: int) -> Seq<u8> {
    clipped(b, pos, pos + chunk_size(b, pos))
}

/// The chunk of type `t` and declared size `size` whose bytes are `span`.
#[verifier::opaque]
pub open spec fn chunk_of(size: u32, t: u16, span: Seq<u8>) -> Result<ChunkModel, DecodeError> {
    if t == ASEPRITE_LAYER_CHUNK_MAGIC {
        Ok(ChunkModel::Layer(layer_of(span)))
    } else if t == ASEPRITE_CEL_CHUNK_MAGIC {
        match cel_chunk_of(span) {
            Ok(c) => Ok(ChunkModel::Cel(c)),
            Err(e) => Err(e),
        }
    } else if t == ASEPRITE_TAG_CHUNK_MAGIC {
        Ok(ChunkModel::Tag(tag_chunk_of(span)))
    } else {
        Ok(ChunkModel::Unknown(RawChunkModel { size, chunk_type: t, data: span }))
    }
}

/// The chunk at `pos` and the position just past it.
pub open spec fn chunk_at(b: Seq<u8>, pos: int) -> Result<(ChunkModel, int), DecodeError> {
    match chunk_of(chunk_size(b, pos), chunk_type_at(b, pos), chunk_span(b, pos)) {
        Ok(c) => Ok((c, pos + chunk_span(b, pos).len())),
        Err(e) => Err(e),
    }
}

/// Decodes the chunk that starts at `pos` in `bytes`; gives it with the position just past it.
pub fn decode_chunk(bytes: &[u8], pos: usize) -> (r: Result<(Chunk, usize), DecodeError>)
    requires
        pos <= bytes@.len(),
    ensures
        match r {
            Ok((c, next)) => chunk_at(bytes@, pos as int) == Ok::<(ChunkModel, int), DecodeError>(
                (c@, next as int),
            ),
            Err(e) => chunk_at(bytes@, pos as int) == Err::<(ChunkModel, int), DecodeError>(e),
        },
{
    let size = read_u32(bytes, pos);
    let chunk_type = if bytes.len() - pos >= 6 {
        read_u16(bytes, pos + 4)
    } else {
        0
    };
    let end = if bytes.len() - pos < size as usize {
        bytes.len()
    } else {
        pos + size as usize
    };
    let span = bytes_between(bytes, pos, end);
    assert(span@ == chunk_span(bytes@, pos as int));
    proof {
        reveal(chunk_of);
    }
    let chunk = if chunk_type == ASEPRITE_LAYER_CHUNK_MAGIC {
        Chunk::Layer(decode_layer(span))
    } else if chunk_type == ASEPRITE_CEL_CHUNK_MAGIC {
        match decode_cel(span) {
            Ok(c) => Chunk::Cel(c),
            Err(e) => {
                return Err(e);
            },
        }
    } else if chunk_type == ASEPRITE_TAG_CHUNK_MAGIC {
        Chunk::Tag(decode_tags(span))
    } else {
        Chunk::Unknown(
            RawAsepriteChunk { size, chunk_type, data: vstd::slice::slice_to_vec(span) },
        )
    };
    Ok((chunk, pos + span.len()))
}

/// A chunk's span is the stream's bytes from its start to its declared end
/// (or the stream's end), and decoding moves past exactly that span. An
/// unknown chunk keeps its declared size and that span unchanged; a chunk
/// that is all in the stream declares its own length in its first bytes.
pub proof fn lemma_chunk_span(b: Seq<u8>, pos: int)
    requires
        0 <= pos <= b.len(),
    ensures
        chunk_span(b, pos) == b.subrange(
            pos,
            if pos + chunk_size(b, pos) <= b.len() {
                pos + chunk_size(b, pos)
            } else {
                b.len() as int
            },
        ),
        chunk_at(b, pos) is Ok ==> chunk_at(b, pos)->Ok_0.1 == pos + chunk_span(b, pos).len(),
        chunk_at(b, pos) matches Ok((ChunkModel::Unknown(raw), _)) ==> raw.size == chunk_size(b, pos)
            && raw.chunk_type == chunk_type_at(b, pos) && raw.data == chunk_span(b, pos),
        pos + chunk_size(b, pos) <= b.len() && chunk_size(b, pos) >= 6 ==> chunk_span(b, pos).len()
            == chunk_size(b, pos) && le_u32(chunk_span(b, pos), 0) == chunk_size(b, pos) && le_u16(
            chunk_span(b, pos),
            4,
        ) == chunk_type_at(b, pos),
{
    reveal(chunk_of);
    assert(chunk_span(b, pos) =~= b.subrange(
        pos,
        if pos + chunk_size(b, pos) <= b.len() {
            pos + chunk_size(b, pos)
        } else {
            b.len() as int
        },
    ));
}

} // verus!
