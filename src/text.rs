//! Length-prefixed text fields: a `u16` byte count, then UTF-8 bytes.

use vstd::prelude::*;
use crate::bytes::{clipped, le_u16, read_u16, bytes_between};
use crate::error::DecodeError;

verus! {

#[verifier::external_type_specification]
#[verifier::external_body]
pub struct ExUtf8Error(core::str::Utf8Error);

/// The characters that the bytes spell as UTF-8, or `None` where they are not valid UTF-8.
pub uninterp spec fn utf8_chars(b: Seq<u8>) -> Option<Seq<char>>;

/// Relies on `core::str::from_utf8`: the bytes read as UTF-8, or an error where they are not.
#[verifier::external_body]
fn str_from_utf8(b: &[u8]) -> (r: Result<&str, core::str::Utf8Error>)
    ensures
        match r {
            Ok(s) => utf8_chars(b@) == Some(s@),
            Err(_) => utf8_chars(b@) is None,
        },
{
    core::str::from_utf8(b)
}

pub struct AsepriteString {
    /// The byte count that the field declares.
    pub length: u16,
    /// The text's bytes: as many as declared, fewer where the field is cut short.
    pub data: Vec<u8>,
}

pub struct StringModel {
    pub length: u16,
    pub data: Seq<u8>,
}

impl View for AsepriteString {
    type V = StringModel;

    open spec fn view(&self) -> StringModel {
        StringModel { length: self.length, data: self.data@ }
    }
}

/// The text field held in `field`: its declared length, then up to that many bytes.
pub open spec fn string_of(field: Seq<u8>) -> StringModel {
    let length = le_u16(field, 0);
    StringModel { length, data: clipped(field, 2, 2 + length) }
}

impl AsepriteString {
    /// Reads a text field from the start of `from`.
    pub fn read_from_bytes(from: &[u8]) -> (r: Self)
        ensures
            r@ == string_of(from@),
    {
        let length = read_u16(from, 0);
        let data = vstd::slice::slice_to_vec(bytes_between(from, 2, 2 + length as usize));
        AsepriteString { length, data }
    }

    /// The text, or `InvalidText` where its bytes are not UTF-8.
    pub fn as_str(&self) -> (r: Result<&str, DecodeError>)
        ensures
            match r {
                Ok(s) => utf8_chars(self.data@) == Some(s@),
                Err(e) => e == DecodeError::InvalidText && utf8_chars(self.data@) is None,
            },
    {
        match str_from_utf8(self.data.as_slice()) {
            Ok(s) => Ok(s),
            Err(_) => Err(DecodeError::InvalidText),
        }
    }
}

} // verus!
