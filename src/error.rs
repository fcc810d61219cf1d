//! What can stop a decode, and what a decode notes and moves past.

use vstd::prelude::*;

verus! {

/// Why a decode failed. All of them but `InvalidText` end the whole decode.
#[derive(Clone, Copy, Debug, PartialEq, Eq, Structural)]
pub enum DecodeError {
    /// Fewer than 128 bytes were there for the file header.
    TruncatedHeader,
    /// The file header's magic number is wrong.
    BadMagic,
    /// A frame header's magic number is wrong.
    BadFrameMagic,
    /// The pixels of a compressed cel did not inflate.
    DecompressionFailed,
    /// The file uses a feature this decoder does not handle (compressed tilemap cels).
    UnsupportedFeature,
    /// A name is not valid UTF-8; the caller may show a placeholder instead.
    InvalidText,
}

/// Something off in the stream that the decode tolerates.
#[derive(Clone, Copy, Debug, PartialEq, Eq, Structural)]
pub enum DecodeWarning {
    /// The frame with this index lies past the frame count that the header declares.
    FrameCountExceeded { frame_index: usize, declared: u16 },
    /// A chunk starts at this position, past the end that its frame declares.
    ChunkPastFrameEnd { position: usize },
}

} // verus!
