//! Tag chunks (type `0x2018`): named playback ranges over the frames. The
//! records have no fixed size, so they are walked one after the other.

use vstd::prelude::*;
use crate::bytes::{
    byte_at, bytes_between, clipped, le_u16, lemma_tail_clipped, lemma_tail_reads, read_u16,
    read_u8,
};
use crate::kinds::{tag_direction_of, AsepriteTagDirection};
use crate::text::{string_of, AsepriteString, StringModel};

verus! {

pub const ASEPRITE_TAG_CHUNK_MAGIC: u16 = 0x2018;

pub struct AsepriteTagChunk {
    /// The number of records that the chunk declares.
    pub tag_count: u16,
    pub tags: Vec<AsepriteTag>,
}

pub struct AsepriteTag {
    pub from: u16,
    pub to: u16,
    pub direction: AsepriteTagDirection,
    pub repeat_count: u16,
    pub name: AsepriteString,
}

pub struct TagModel {
    pub from: u16,
    pub to: u16,
    pub direction: AsepriteTagDirection,
    pub repeat_count: u16,
    pub name: StringModel,
}

pub struct TagChunkModel {
    pub tag_count: u16,
    pub tags: Seq<TagModel>,
}

impl View for AsepriteTag {
    type V = TagModel;

    open spec fn view(&self) -> TagModel {
        TagModel {
            from: self.from,
            to: self.to,
            direction: self.direction,
            repeat_count: self.repeat_count,
            name: self.name@,
        }
    }
}

impl View for AsepriteTagChunk {
    type V = TagChunkModel;

    open spec fn view(&self) -> TagChunkModel {
        TagChunkModel { tag_count: self.tag_count, tags: self.tags@.map_values(|t: AsepriteTag| t@) }
    }
}

/// The name length that the record at `off` declares.
pub open spec fn tag_name_len(s: Seq<u8>, off: int) -> u16 {
    le_u16(s, off + 17)
}

/// The size of the record at `off`: 17 bytes of fields, the name's two-byte
/// length, and the name.
pub open spec fn tag_record_len(s: Seq<u8>, off: int) -> int {
    19 + tag_name_len(s, off)
}

/// The record at `off` in chunk `s`.
pub open spec fn tag_at(s: Seq<u8>, off: int) -> TagModel {
    TagModel {
        from: le_u16(s, off),
        to: le_u16(s, off + 2),
        direction: tag_direction_of(byte_at(s, off + 4)),
        repeat_count: le_u16(s, off + 5),
        name: string_of(clipped(s, off + 17, off + tag_record_len(s, off))),
    }
}

/// The `k` records that follow one another from `off`.
pub open spec fn tags_from(s: Seq<u8>, off: int, k: nat) -> Seq<TagModel>
    decreases k,
{
    if k == 0 {
        Seq::empty()
    } else {
        seq![tag_at(s, off)] + tags_from(s, off + tag_record_len(s, off), (k - 1) as nat)
    }
}

/// Where the `k` records that start at `off` end.
pub open spec fn tag_walk_end(s: Seq<u8>, off: int, k: nat) -> int
    decreases k,
{
    if k == 0 {
        off
    } else {
        tag_walk_end(s, off + tag_record_len(s, off), (k - 1) as nat)
    }
}

/// The tag chunk `s`: a count at offset 6, eight reserved bytes, then the records from offset 16.
pub open spec fn tag_chunk_of(s: Seq<u8>) -> TagChunkModel {
    TagChunkModel { tag_count: le_u16(s, 6), tags: tags_from(s, 16, le_u16(s, 6) as nat) }
}

/// Reads the record at `off`, which is at most the chunk's length; past the
/// chunk's end every field reads as zero and the name as empty.
fn decode_tag_at(span: &[u8], off: usize) -> (r: AsepriteTag)
    requires
        off <= span@.len(),
    ensures
        r@ == tag_at(span@, off as int),
{
    let rec = bytes_between(span, off, span.len());
    proof {
        assert(rec@ == span@.subrange(off as int, span@.len() as int));
        lemma_tail_reads(span@, off as int, 0);
        lemma_tail_reads(span@, off as int, 2);
        lemma_tail_reads(span@, off as int, 4);
        lemma_tail_reads(span@, off as int, 5);
        lemma_tail_reads(span@, off as int, 17);
    }
    let name_len = read_u16(rec, 17);
    proof {
        lemma_tail_clipped(span@, off as int, 17, 19 + name_len);
    }
    AsepriteTag {
        from: read_u16(rec, 0),
        to: read_u16(rec, 2),
        direction: AsepriteTagDirection::from(read_u8(rec, 4)),
        repeat_count: read_u16(rec, 5),
        name: AsepriteString::read_from_bytes(bytes_between(rec, 17, 19 + name_len as usize)),
    }
}

/// Decodes the tag chunk whose bytes, header included, are `span`.
pub fn decode_tags(span: &[u8]) -> (r: AsepriteTagChunk)
    ensures
        r@ == tag_chunk_of(span@),
{
    let n = span.len();
    let tag_count = read_u16(span, 6);
    let mut tags: Vec<AsepriteTag> = Vec::new();
    let mut off: usize = if n < 16 {
        n
    } else {
        16
    };
    let ghost mut walk: int = 16;
    let mut i: u16 = 0;
    while i < tag_count
        invariant
            n == span@.len(),
            0 <= i <= tag_count,
            tag_count == le_u16(span@, 6),
            walk >= 0,
            off <= n,
            off as int == (if walk < n { walk } else { n as int }),
            tags@.map_values(|t: AsepriteTag| t@) + tags_from(span@, walk, (tag_count - i) as nat)
                == tags_from(span@, 16, tag_count as nat),
        decreases tag_count - i,
    {
        let tag = decode_tag_at(span, off);
        let step = 19 + tag.name.length as usize;
        proof {
            assert(tag@ == tag_at(span@, walk));
            assert(step == tag_record_len(span@, walk));
            let k = (tag_count - i) as nat;
            assert(tags_from(span@, walk, k) == seq![tag_at(span@, walk)] + tags_from(
                span@,
                walk + step,
                (k - 1) as nat,
            ));
            assert(tags@.push(tag).map_values(|t: AsepriteTag| t@) =~= tags@.map_values(
                |t: AsepriteTag| t@,
            ).push(tag@));
            assert((tags@.map_values(|t: AsepriteTag| t@) + seq![tag@]) + tags_from(
                span@,
                walk + step,
                (k - 1) as nat,
            ) =~= tags@.map_values(|t: AsepriteTag| t@) + (seq![tag@] + tags_from(
                span@,
                walk + step,
                (k - 1) as nat,
            )));
        }
        tags.push(tag);
        off = if n - off < step {
            n
        } else {
            off + step
        };
        proof {
            walk = walk + step;
        }
        i = i + 1;
    }
    proof {
        assert(tags@.map_values(|t: AsepriteTag| t@) + tags_from(span@, walk, 0) =~= tags@.map_values(
            |t: AsepriteTag| t@,
        ));
    }
    AsepriteTagChunk { tag_count, tags }
}

/// Sum over `tags` of the record sizes, `19 + L` for a name that declares `L` bytes.
pub open spec fn records_len(tags: Seq<TagModel>) -> int
    decreases tags.len(),
{
    if tags.len() == 0 {
        0
    } else {
        19 + tags[0].name.length + records_len(tags.drop_first())
    }
}

/// The records of a tag chunk run from offset 16 to `16 + Σ(19 + L_i)`, with
/// `L_i` the name length that the `i`-th decoded tag declares; so a chunk
/// that ends with its last record is exactly that long.
pub proof fn lemma_tag_chunk_extent(s: Seq<u8>)
    ensures
        tag_chunk_of(s).tags.len() == tag_chunk_of(s).tag_count,
        tag_walk_end(s, 16, tag_chunk_of(s).tag_count as nat) == 16 + records_len(
            tag_chunk_of(s).tags,
        ),
        s.len() == tag_walk_end(s, 16, tag_chunk_of(s).tag_count as nat) ==> s.len() == 16
            + records_len(tag_chunk_of(s).tags),
{
    lemma_walk_sums(s, 16, le_u16(s, 6) as nat);
}

proof fn lemma_walk_sums(s: Seq<u8>, off: int, k: nat)
    requires
        0 <= off,
    ensures
        tags_from(s, off, k).len() == k,
        tag_walk_end(s, off, k) == off + records_len(tags_from(s, off, k)),
    decreases k,
{
    if k > 0 {
        let next = off + tag_record_len(s, off);
        lemma_walk_sums(s, next, (k - 1) as nat);
        let field = clipped(s, off + 17, next);
        if off + 19 <= s.len() {
            assert(field[0] == s[off + 17] && field[1] == s[off + 18]);
        }
        assert(le_u16(field, 0) == tag_name_len(s, off));
        assert(tags_from(s, off, k).drop_first() =~= tags_from(s, next, (k - 1) as nat));
    }
}

} // verus!
