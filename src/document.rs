//! The whole file: the header, then frames until the bytes run out. Each
//! frame is a 16-byte header followed by the chunks it declares.

use vstd::prelude::*;
use crate::bytes::{bytes_between, le_u16, le_u32, lemma_tail_reads, read_u16, read_u32};
use crate::chunk::{chunk_at, decode_chunk, Chunk, ChunkModel};
use crate::error::{DecodeError, DecodeWarning};
use crate::header::{
    decode_header, header_result, AsepriteHeader, HeaderModel, ASEPRITE_MAGIC_HEADER, HEADER_LEN,
};

verus! {

pub const ASEPRITE_MAGIC_FRAMES: u16 = 0xF1FA;

pub struct Aseprite {
    pub header: AsepriteHeader,
    pub frames: Vec<AsepriteFrame>,
}

pub struct AsepriteFrame {
    /// The frame's declared byte size; it is only checked against, never relied on.
    pub size: u32,
    pub magic: u16,
    pub old_chunks: u16,
    pub frame_duration: u16,
    pub chunk_count: u32,
    pub chunks: Vec<Chunk>,
}

pub struct FrameModel {
    pub size: u32,
    pub magic: u16,
    pub old_chunks: u16,
    pub frame_duration: u16,
    pub chunk_count: u32,
    pub chunks: Seq<ChunkModel>,
}

pub struct DocumentModel {
    pub header: HeaderModel,
    pub frames: Seq<FrameModel>,
}

impl View for AsepriteFrame {
    type V = FrameModel;

    open spec fn view(&self) -> FrameModel {
        FrameModel {
            size: self.size,
            magic: self.magic,
            old_chunks: self.old_chunks,
            frame_duration: self.frame_duration,
            chunk_count: self.chunk_count,
            chunks: self.chunks@.map_values(|c: Chunk| c@),
        }
    }
}

impl View for Aseprite {
    type V = DocumentModel;

    open spec fn view(&self) -> DocumentModel {
        DocumentModel {
            header: self.header@,
            frames: self.frames@.map_values(|f: AsepriteFrame| f@),
        }
    }
}

/// Where the chunks of the frame at `pos` start: past its 16-byte header, or
/// at the end of the stream where the header is cut short.
pub open spec fn frame_header_end(b: Seq<u8>, pos: int) -> int {
    if pos + 16 <= b.len() {
        pos + 16
    } else {
        b.len() as int
    }
}

/// The first `n` chunks of a frame whose chunks start at `start` and whose
/// declared size is `size`: the chunks, the warnings for those that start
/// past the declared end, and the position after the last one.
pub open spec fn frame_chunks(b: Seq<u8>, start: int, size: u32, n: nat) -> Result<
    (Seq<ChunkModel>, Seq<DecodeWarning>, int),
    DecodeError,
>
    decreases n,
{
    if n == 0 {
        Ok((Seq::empty(), Seq::empty(), start))
    } else {
        match frame_chunks(b, start, size, (n - 1) as nat) {
            Err(e) => Err(e),
            Ok((cs, ws, p)) => {
                let ws2 = if p - start >= size {
                    ws.push(DecodeWarning::ChunkPastFrameEnd { position: p as usize })
                } else {
                    ws
                };
                match chunk_at(b, p) {
                    Err(e) => Err(e),
                    Ok((c, next)) => Ok((cs.push(c), ws2, next)),
                }
            },
        }
    }
}

/// The frame at `pos`, which is frame number `index` of a file whose header
/// declares `declared` frames: the frame, its warnings, and the position after it.
pub open spec fn frame_at(b: Seq<u8>, pos: int, index: int, declared: u16) -> Result<
    (FrameModel, Seq<DecodeWarning>, int),
    DecodeError,
> {
    let w0 = if declared < index {
        seq![DecodeWarning::FrameCountExceeded { frame_index: index as usize, declared }]
    } else {
        Seq::empty()
    };
    if le_u16(b, pos + 4) != ASEPRITE_MAGIC_FRAMES {
        Err(DecodeError::BadFrameMagic)
    } else {
        match frame_chunks(b, frame_header_end(b, pos), le_u32(b, pos), le_u32(b, pos + 12) as nat) {
            Err(e) => Err(e),
            Ok((cs, ws, end)) => Ok(
                (
                    FrameModel {
                        size: le_u32(b, pos),
                        magic: le_u16(b, pos + 4),
                        old_chunks: le_u16(b, pos + 6),
                        frame_duration: le_u16(b, pos + 8),
                        chunk_count: le_u32(b, pos + 12),
                        chunks: cs,
                    },
                    w0 + ws,
                    end,
                ),
            ),
        }
    }
}

/// The frames from `pos` to the end of the stream, numbered from `index`, and their warnings.
pub open spec fn frames_from(b: Seq<u8>, pos: int, index: int, declared: u16) -> Result<
    (Seq<FrameModel>, Seq<DecodeWarning>),
    DecodeError,
>
    decreases b.len() - pos,
{
    if pos >= b.len() || pos < 0 {
        Ok((Seq::empty(), Seq::empty()))
    } else {
        match frame_at(b, pos, index, declared) {
            Err(e) => Err(e),
            Ok((f, ws, next)) => {
                proof {
                    lemma_frame_advances(b, pos, index, declared);
                }
                then_frames(f, ws, frames_from(b, next, index + 1, declared))
            },
        }
    }
}

/// One frame and its warnings, put before what follows it.
pub open spec fn then_frames(
    f: FrameModel,
    ws: Seq<DecodeWarning>,
    rest: Result<(Seq<FrameModel>, Seq<DecodeWarning>), DecodeError>,
) -> Result<(Seq<FrameModel>, Seq<DecodeWarning>), DecodeError> {
    match rest {
        Err(e) => Err(e),
        Ok((fs, ws2)) => Ok((seq![f] + fs, ws + ws2)),
    }
}

/// Frames and warnings already decoded, put before what follows them.
pub open spec fn after_decoded(
    fs: Seq<FrameModel>,
    ws: Seq<DecodeWarning>,
    rest: Result<(Seq<FrameModel>, Seq<DecodeWarning>), DecodeError>,
) -> Result<(Seq<FrameModel>, Seq<DecodeWarning>), DecodeError> {
    match rest {
        Err(e) => Err(e),
        Ok((fs2, ws2)) => Ok((fs + fs2, ws + ws2)),
    }
}

/// What decoding the whole stream `b` gives: the document and its warnings,
/// or the first error met.
pub open spec fn document_of(b: Seq<u8>) -> Result<(DocumentModel, Seq<DecodeWarning>), DecodeError> {
    match header_result(b) {
        Err(e) => Err(e),
        Ok(h) => match frames_from(b, 128, 0, h.frames) {
            Err(e) => Err(e),
            Ok((fs, ws)) => Ok((DocumentModel { header: h, frames: fs }, ws)),
        },
    }
}

proof fn lemma_chunks_advance(b: Seq<u8>, start: int, size: u32, n: nat)
    requires
        0 <= start <= b.len(),
    ensures
        frame_chunks(b, start, size, n) matches Ok((_, _, end)) ==> start <= end <= b.len(),
    decreases n,
{
    if n > 0 {
        lemma_chunks_advance(b, start, size, (n - 1) as nat);
    }
}

proof fn lemma_chunks_error_stays(b: Seq<u8>, start: int, size: u32, k: nat, n: nat)
    requires
        k <= n,
        frame_chunks(b, start, size, k) is Err,
    ensures
        frame_chunks(b, start, size, n) == frame_chunks(b, start, size, k),
    decreases n,
{
    if n > k {
        lemma_chunks_error_stays(b, start, size, k, (n - 1) as nat);
    }
}

/// A frame that decodes ends past where it starts, and inside the stream.
pub proof fn lemma_frame_advances(b: Seq<u8>, pos: int, index: int, declared: u16)
    requires
        0 <= pos < b.len(),
    ensures
        frame_at(b, pos, index, declared) matches Ok((_, _, next)) ==> pos < next <= b.len(),
{
    lemma_chunks_advance(
        b,
        frame_header_end(b, pos),
        le_u32(b, pos),
        le_u32(b, pos + 12) as nat,
    );
}

/// Decodes the frame at `pos`, frame number `index` of a file whose header
/// declares `declared` frames; gives the frame, its warnings and the position after it.
pub fn decode_frame(bytes: &[u8], pos: usize, index: usize, declared: u16) -> (r: Result<
    (AsepriteFrame, Vec<DecodeWarning>, usize),
    DecodeError,
>)
    requires
        pos < bytes@.len(),
    ensures
        match r {
            Ok((f, ws, next)) => frame_at(bytes@, pos as int, index as int, declared) == Ok::<
                (FrameModel, Seq<DecodeWarning>, int),
                DecodeError,
            >((f@, ws@, next as int)),
            Err(e) => frame_at(bytes@, pos as int, index as int, declared) == Err::<
                (FrameModel, Seq<DecodeWarning>, int),
                DecodeError,
            >(e),
        },
{
    let ghost b = bytes@;
    let n = bytes.len();
    let mut warnings: Vec<DecodeWarning> = Vec::new();
    if (declared as usize) < index {
        warnings.push(DecodeWarning::FrameCountExceeded { frame_index: index, declared });
    }
    let head = bytes_between(bytes, pos, n);
    proof {
        assert(head@ == b.subrange(pos as int, n as int));
        lemma_tail_reads(b, pos as int, 0);
        lemma_tail_reads(b, pos as int, 4);
        lemma_tail_reads(b, pos as int, 6);
        lemma_tail_reads(b, pos as int, 8);
        lemma_tail_reads(b, pos as int, 12);
    }
    let magic = read_u16(head, 4);
    if magic != ASEPRITE_MAGIC_FRAMES {
        return Err(DecodeError::BadFrameMagic);
    }
    let size = read_u32(head, 0);
    let old_chunks = read_u16(head, 6);
    let frame_duration = read_u16(head, 8);
    let chunk_count = read_u32(head, 12);
    let start = if n - pos >= 16 {
        pos + 16
    } else {
        n
    };
    let mut chunks: Vec<Chunk> = Vec::new();
    let mut late: Vec<DecodeWarning> = Vec::new();
    let mut p = start;
    let mut i: u32 = 0;
    assert(chunks@.map_values(|c: Chunk| c@) =~= Seq::<ChunkModel>::empty());
    assert(late@ =~= Seq::<DecodeWarning>::empty());
    while i < chunk_count
        invariant
            b == bytes@,
            n == b.len(),
            start == frame_header_end(b, pos as int),
            start <= p <= n,
            0 <= i <= chunk_count,
            pos < n,
            size == le_u32(b, pos as int),
            chunk_count == le_u32(b, pos + 12),
            magic == le_u16(b, pos + 4),
            magic == ASEPRITE_MAGIC_FRAMES,
            frame_chunks(b, start as int, size, i as nat) == Ok::<
                (Seq<ChunkModel>, Seq<DecodeWarning>, int),
                DecodeError,
            >((chunks@.map_values(|c: Chunk| c@), late@, p as int)),
        decreases chunk_count - i,
    {
        let ghost cs = chunks@.map_values(|c: Chunk| c@);
        let ghost ws = late@;
        proof {
            lemma_chunks_step(b, start as int, size, i as nat, cs, ws, p as int);
        }
        if p - start >= size as usize {
            late.push(DecodeWarning::ChunkPastFrameEnd { position: p });
        }
        match decode_chunk(bytes, p) {
            Ok((c, next)) => {
                proof {
                    lemma_chunk_next_in_stream(b, p as int);
                    assert(chunks@.push(c).map_values(|c: Chunk| c@) =~= chunks@.map_values(
                        |c: Chunk| c@,
                    ).push(c@));
                }
                chunks.push(c);
                p = next;
            },
            Err(e) => {
                proof {
                    assert(frame_chunks(b, start as int, size, (i + 1) as nat) == Err::<
                        (Seq<ChunkModel>, Seq<DecodeWarning>, int),
                        DecodeError,
                    >(e));
                    lemma_chunks_error_stays(b, start as int, size, (i + 1) as nat, chunk_count as nat);
                }
                return Err(e);
            },
        }
        i = i + 1;
    }
    warnings.append(&mut late);
    let frame = AsepriteFrame { size, magic, old_chunks, frame_duration, chunk_count, chunks };
    Ok((frame, warnings, p))
}

proof fn lemma_chunks_step(
    b: Seq<u8>,
    start: int,
    size: u32,
    i: nat,
    cs: Seq<ChunkModel>,
    ws: Seq<DecodeWarning>,
    p: int,
)
    requires
        frame_chunks(b, start, size, i) == Ok::<
            (Seq<ChunkModel>, Seq<DecodeWarning>, int),
            DecodeError,
        >((cs, ws, p)),
    ensures
        frame_chunks(b, start, size, i + 1) == match chunk_at(b, p) {
            Err(e) => Err(e),
            Ok((c, next)) => Ok::<(Seq<ChunkModel>, Seq<DecodeWarning>, int), DecodeError>(
                (
                    cs.push(c),
                    if p - start >= size {
                        ws.push(DecodeWarning::ChunkPastFrameEnd { position: p as usize })
                    } else {
                        ws
                    },
                    next,
                ),
            ),
        },
{
}

proof fn lemma_chunk_next_in_stream(b: Seq<u8>, pos: int)
    requires
        0 <= pos <= b.len(),
    ensures
        chunk_at(b, pos) matches Ok((_, next)) ==> pos <= next <= b.len(),
{
}

proof fn lemma_then_decoded(
    fs: Seq<FrameModel>,
    ws: Seq<DecodeWarning>,
    f: FrameModel,
    fw: Seq<DecodeWarning>,
    rest: Result<(Seq<FrameModel>, Seq<DecodeWarning>), DecodeError>,
)
    ensures
        after_decoded(fs, ws, then_frames(f, fw, rest)) == after_decoded(fs.push(f), ws + fw, rest),
{
    if let Ok((fs2, ws2)) = rest {
        assert(fs + (seq![f] + fs2) =~= fs.push(f) + fs2);
        assert(ws + (fw + ws2) =~= (ws + fw) + ws2);
    }
}

/// Decodes a whole file held in `from`, with the warnings met on the way.
pub fn read_with_warnings(from: &[u8]) -> (r: Result<(Aseprite, Vec<DecodeWarning>), DecodeError>)
    ensures
        match r {
            Ok((doc, ws)) => document_of(from@) == Ok::<
                (DocumentModel, Seq<DecodeWarning>),
                DecodeError,
            >((doc@, ws@)),
            Err(e) => document_of(from@) == Err::<(DocumentModel, Seq<DecodeWarning>), DecodeError>(
                e,
            ),
        },
{
    let ghost b = from@;
    let header = match decode_header(from) {
        Ok(h) => h,
        Err(e) => {
            return Err(e);
        },
    };
    let declared = header.frames;
    let n = from.len();
    let mut frames: Vec<AsepriteFrame> = Vec::new();
    let mut warnings: Vec<DecodeWarning> = Vec::new();
    let mut pos: usize = HEADER_LEN;
    let mut index: usize = 0;
    while pos < n
        invariant
            b == from@,
            n == b.len(),
            header_result(b) == Ok::<HeaderModel, DecodeError>(header@),
            declared == header.frames,
            index <= pos,
            HEADER_LEN <= pos,
            frames_from(b, 128, 0, declared) == after_decoded(
                frames@.map_values(|f: AsepriteFrame| f@),
                warnings@,
                frames_from(b, pos as int, index as int, declared),
            ),
        decreases n - pos,
    {
        match decode_frame(from, pos, index, declared) {
            Ok((f, mut fw, next)) => {
                proof {
                    lemma_frame_advances(b, pos as int, index as int, declared);
                    lemma_then_decoded(
                        frames@.map_values(|f: AsepriteFrame| f@),
                        warnings@,
                        f@,
                        fw@,
                        frames_from(b, next as int, index + 1, declared),
                    );
                    assert(frames@.push(f).map_values(|f: AsepriteFrame| f@) =~= frames@.map_values(
                        |f: AsepriteFrame| f@,
                    ).push(f@));
                }
                frames.push(f);
                warnings.append(&mut fw);
                pos = next;
                index = index + 1;
            },
            Err(e) => {
                return Err(e);
            },
        }
    }
    proof {
        assert(frames@.map_values(|f: AsepriteFrame| f@) + Seq::<FrameModel>::empty() =~= frames@.map_values(
            |f: AsepriteFrame| f@,
        ));
        assert(warnings@ + Seq::<DecodeWarning>::empty() =~= warnings@);
    }
    Ok((Aseprite { header, frames }, warnings))
}

/// Decodes a whole file held in `from`.
pub fn read(from: &[u8]) -> (r: Result<Aseprite, DecodeError>)
    ensures
        match r {
            Ok(doc) => document_of(from@) matches Ok((d, _)) && d == doc@,
            Err(e) => document_of(from@) == Err::<(DocumentModel, Seq<DecodeWarning>), DecodeError>(
                e,
            ),
        },
{
    match read_with_warnings(from) {
        Ok((doc, _)) => Ok(doc),
        Err(e) => Err(e),
    }
}

/// A stream shorter than the 128-byte header is rejected as truncated.
pub proof fn lemma_short_stream_rejected(b: Seq<u8>)
    requires
        b.len() < 128,
    ensures
        document_of(b) == Err::<(DocumentModel, Seq<DecodeWarning>), DecodeError>(
            DecodeError::TruncatedHeader,
        ),
{
}

/// A header whose magic number is wrong is rejected, whatever follows it.
pub proof fn lemma_bad_magic_rejected(b: Seq<u8>)
    requires
        b.len() >= 128,
        le_u16(b, 4) != ASEPRITE_MAGIC_HEADER,
    ensures
        document_of(b) == Err::<(DocumentModel, Seq<DecodeWarning>), DecodeError>(
            DecodeError::BadMagic,
        ),
{
}

/// A first frame whose magic number is wrong ends the decode with
/// `BadFrameMagic`, whatever chunk count it declares and whatever its chunks hold.
pub proof fn lemma_bad_frame_magic_rejected(b: Seq<u8>)
    requires
        b.len() > 128,
        le_u16(b, 4) == ASEPRITE_MAGIC_HEADER,
        le_u16(b, 132) != ASEPRITE_MAGIC_FRAMES,
    ensures
        document_of(b) == Err::<(DocumentModel, Seq<DecodeWarning>), DecodeError>(
            DecodeError::BadFrameMagic,
        ),
{
}

} // verus!
