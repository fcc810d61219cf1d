//! Decoder for the Aseprite sprite container format: a fixed header, then
//! frames made of self-sized, type-tagged chunks (layers, cels, tags).
//!
//! Every decoder states its result as a spec function of the input bytes;
//! `document::read` gives `document::document_of` of the whole stream.

pub mod bytes;
pub mod error;
pub mod kinds;
pub mod text;
pub mod header;
pub mod layer;
pub mod cel;
pub mod tag;
pub mod chunk;
pub mod document;
