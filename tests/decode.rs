use std::io::Write;

use ase_decode::bytes::{read_i16, read_u16, read_u32};
use ase_decode::cel::{decode_cel, decode_cel_with};
use ase_decode::chunk::{decode_chunk, Chunk};
use ase_decode::document::{read, read_with_warnings};
use ase_decode::error::{DecodeError, DecodeWarning};
use ase_decode::header::decode_header;
use ase_decode::kinds::{
    AsepriteBlendMode, AsepriteCelType, AsepriteLayerFlags, AsepriteLayerType, AsepriteTagDirection,
};
use ase_decode::layer::decode_layer;
use ase_decode::tag::decode_tags;
use ase_decode::text::AsepriteString;

fn header(frames: u16, magic: u16) -> Vec<u8> {
    let mut h = vec![0u8; 128];
    h[0..4].copy_from_slice(&1234u32.to_le_bytes());
    h[4..6].copy_from_slice(&magic.to_le_bytes());
    h[6..8].copy_from_slice(&frames.to_le_bytes());
    h[8..10].copy_from_slice(&32u16.to_le_bytes());
    h[10..12].copy_from_slice(&24u16.to_le_bytes());
    h[12..14].copy_from_slice(&32u16.to_le_bytes());
    h[20] = 7;
    h[28] = 3;
    h[32..34].copy_from_slice(&256u16.to_le_bytes());
    h[34] = 1;
    h[35] = 2;
    h[36..38].copy_from_slice(&(-5i16).to_le_bytes());
    h[38..40].copy_from_slice(&6i16.to_le_bytes());
    h[40..42].copy_from_slice(&16u16.to_le_bytes());
    h[42..44].copy_from_slice(&16u16.to_le_bytes());
    h[127] = 9;
    h
}

fn chunk(kind: u16, payload: &[u8]) -> Vec<u8> {
    let mut c = Vec::new();
    c.extend_from_slice(&((6 + payload.len()) as u32).to_le_bytes());
    c.extend_from_slice(&kind.to_le_bytes());
    c.extend_from_slice(payload);
    c
}

fn frame_with(magic: u16, chunk_count: u32, chunks: &[Vec<u8>]) -> Vec<u8> {
    let body: Vec<u8> = chunks.concat();
    let mut f = Vec::new();
    f.extend_from_slice(&((16 + body.len()) as u32).to_le_bytes());
    f.extend_from_slice(&magic.to_le_bytes());
    f.extend_from_slice(&(chunk_count as u16).to_le_bytes());
    f.extend_from_slice(&100u16.to_le_bytes());
    f.extend_from_slice(&[0, 0]);
    f.extend_from_slice(&chunk_count.to_le_bytes());
    f.extend_from_slice(&body);
    f
}

fn frame(chunks: &[Vec<u8>]) -> Vec<u8> {
    frame_with(0xF1FA, chunks.len() as u32, chunks)
}

fn text(s: &[u8]) -> Vec<u8> {
    let mut t = (s.len() as u16).to_le_bytes().to_vec();
    t.extend_from_slice(s);
    t
}

fn layer_payload(kind: u16, name: &[u8], tileset: Option<u32>) -> Vec<u8> {
    let mut p = Vec::new();
    p.extend_from_slice(&0b11u16.to_le_bytes()); // flags
    p.extend_from_slice(&kind.to_le_bytes());
    p.extend_from_slice(&1u16.to_le_bytes()); // child level
    p.extend_from_slice(&[0, 0, 0, 0]);
    p.extend_from_slice(&1u16.to_le_bytes()); // blend: multiply
    p.push(200); // opacity
    p.extend_from_slice(&[0, 0, 0]);
    p.extend_from_slice(&text(name));
    if let Some(t) = tileset {
        p.extend_from_slice(&t.to_le_bytes());
    }
    p
}

fn cel_payload(kind: u16, rest: &[u8]) -> Vec<u8> {
    let mut p = Vec::new();
    p.extend_from_slice(&2u16.to_le_bytes()); // layer index
    p.extend_from_slice(&(-3i16).to_le_bytes());
    p.extend_from_slice(&4i16.to_le_bytes());
    p.push(255);
    p.extend_from_slice(&kind.to_le_bytes());
    p.extend_from_slice(&(-1i16).to_le_bytes());
    p.extend_from_slice(&[0; 5]);
    p.extend_from_slice(rest);
    p
}

fn image(width: u16, height: u16, pixels: &[u8]) -> Vec<u8> {
    let mut r = width.to_le_bytes().to_vec();
    r.extend_from_slice(&height.to_le_bytes());
    r.extend_from_slice(pixels);
    r
}

fn zlib(data: &[u8]) -> Vec<u8> {
    let mut e = flate2::write::ZlibEncoder::new(Vec::new(), flate2::Compression::default());
    e.write_all(data).unwrap();
    e.finish().unwrap()
}

fn tag_record(from: u16, to: u16, dir: u8, name: &[u8]) -> Vec<u8> {
    let mut r = Vec::new();
    r.extend_from_slice(&from.to_le_bytes());
    r.extend_from_slice(&to.to_le_bytes());
    r.push(dir);
    r.extend_from_slice(&2u16.to_le_bytes());
    r.extend_from_slice(&[0; 6]);
    r.extend_from_slice(&[1, 2, 3]);
    r.push(0);
    r.extend_from_slice(&text(name));
    r
}

fn tag_payload(records: &[Vec<u8>]) -> Vec<u8> {
    let mut p = (records.len() as u16).to_le_bytes().to_vec();
    p.extend_from_slice(&[0; 8]);
    for r in records {
        p.extend_from_slice(r);
    }
    p
}

#[test]
fn truncated_stream_fails_with_truncated_header() {
    let mut bytes = header(1, 0xA5E0);
    bytes.truncate(50);
    assert!(matches!(read(&bytes), Err(DecodeError::TruncatedHeader)));
    assert!(matches!(decode_header(&bytes), Err(DecodeError::TruncatedHeader)));
}

#[test]
fn zero_magic_fails_with_bad_magic() {
    let bytes = header(1, 0x0000);
    assert!(matches!(read(&bytes), Err(DecodeError::BadMagic)));
}

#[test]
fn bad_frame_magic_fails_before_any_chunk() {
    let mut bytes = header(1, 0xA5E0);
    // Two declared chunks, the first of which would itself fail to decode.
    let bad_cel = chunk(0x2005, &cel_payload(3, &[]));
    bytes.extend_from_slice(&frame_with(0x1234, 2, &[bad_cel.clone(), bad_cel]));
    assert!(matches!(read(&bytes), Err(DecodeError::BadFrameMagic)));
}

#[test]
fn enumerations_wrap_by_modulo() {
    assert_eq!(AsepriteCelType::from(7u16), AsepriteCelType::CompressedTilemap);
    assert_eq!(AsepriteCelType::from(2u16), AsepriteCelType::CompressedImage);
    assert_eq!(AsepriteLayerType::from(5u16), AsepriteLayerType::Tilemap);
    assert_eq!(AsepriteLayerType::from(3u16), AsepriteLayerType::Normal);
    assert_eq!(AsepriteBlendMode::from(19u16), AsepriteBlendMode::Normal);
    assert_eq!(AsepriteBlendMode::from(18u16), AsepriteBlendMode::Divide);
    assert_eq!(AsepriteBlendMode::from(25u16), AsepriteBlendMode::ColorDodge);
    assert_eq!(AsepriteTagDirection::from(6u8), AsepriteTagDirection::PingPong);
    assert_eq!(AsepriteTagDirection::from(255u8), AsepriteTagDirection::PingPongReverse);
}

#[test]
fn compressed_tilemap_cel_is_unsupported() {
    let mut bytes = header(1, 0xA5E0);
    bytes.extend_from_slice(&frame(&[chunk(0x2005, &cel_payload(3, &[0; 8]))]));
    assert!(matches!(read(&bytes), Err(DecodeError::UnsupportedFeature)));
}

#[test]
fn header_fields_are_read_at_their_offsets() {
    let bytes = header(0, 0xA5E0);
    let doc = read(&bytes).unwrap();
    let h = &doc.header;
    assert_eq!(h.fsize, 1234);
    assert_eq!(h.magic, 0xA5E0);
    assert_eq!((h.width, h.height, h.colour_depth), (32, 24, 32));
    assert_eq!(h.palette_entry, 3);
    assert_eq!(h.colour_count, 256);
    assert_eq!((h.pixel_width, h.pixel_height), (1, 2));
    assert_eq!((h.grid_xpos, h.grid_ypos, h.grid_width, h.grid_height), (-5, 6, 16, 16));
    assert_eq!(h.zero, vec![7, 0, 0, 0, 0, 0, 0, 0]);
    assert_eq!(h.ignore.len(), 3);
    assert_eq!(h.future.len(), 84);
    assert_eq!(h.future[83], 9);
    assert!(doc.frames.is_empty());
}

#[test]
fn header_fields_lay_back_into_the_same_bytes() {
    let bytes = header(3, 0xA5E0);
    let h = decode_header(&bytes).unwrap();
    let mut out = Vec::new();
    out.extend_from_slice(&h.fsize.to_le_bytes());
    out.extend_from_slice(&h.magic.to_le_bytes());
    out.extend_from_slice(&h.frames.to_le_bytes());
    out.extend_from_slice(&h.width.to_le_bytes());
    out.extend_from_slice(&h.height.to_le_bytes());
    out.extend_from_slice(&h.colour_depth.to_le_bytes());
    out.extend_from_slice(&h.flags.to_le_bytes());
    out.extend_from_slice(&h.speed.to_le_bytes());
    out.extend_from_slice(&h.zero);
    out.push(h.palette_entry);
    out.extend_from_slice(&h.ignore);
    out.extend_from_slice(&h.colour_count.to_le_bytes());
    out.push(h.pixel_width);
    out.push(h.pixel_height);
    out.extend_from_slice(&h.grid_xpos.to_le_bytes());
    out.extend_from_slice(&h.grid_ypos.to_le_bytes());
    out.extend_from_slice(&h.grid_width.to_le_bytes());
    out.extend_from_slice(&h.grid_height.to_le_bytes());
    out.extend_from_slice(&h.future);
    assert_eq!(out, bytes);
}

#[test]
fn normal_layer_name_fills_the_rest_of_the_chunk() {
    let span = chunk(0x2004, &layer_payload(0, b"Background", None));
    assert_eq!(span.len(), 22 + (2 + 10));
    let l = decode_layer(&span);
    assert_eq!(l.flags, 3);
    assert_eq!(l.flags & AsepriteLayerFlags::Visible.mask(), 1);
    assert_eq!(AsepriteLayerFlags::Editable.masked(l.flags), 2);
    assert_eq!(AsepriteLayerFlags::Background.masked(l.flags), 0);
    assert_eq!(l.layer_type, AsepriteLayerType::Normal);
    assert_eq!(l.child_level, 1);
    assert_eq!(l.blend_mode, AsepriteBlendMode::Multiply);
    assert_eq!(l.opacity, 200);
    assert_eq!(l.name.length, 10);
    assert_eq!(l.name.as_str().unwrap(), "Background");
    assert!(l.tileset_index.is_none());
}

#[test]
fn tilemap_layer_ends_with_its_tileset_index() {
    let span = chunk(0x2004, &layer_payload(2, b"Tiles", Some(0x01020304)));
    assert_eq!(span.len(), 22 + (2 + 5) + 4);
    let l = decode_layer(&span);
    assert_eq!(l.layer_type, AsepriteLayerType::Tilemap);
    assert_eq!(l.name.as_str().unwrap(), "Tiles");
    assert_eq!(l.name.data.len(), 5);
    assert_eq!(l.tileset_index, Some(0x01020304));
}

#[test]
fn tag_records_are_walked_by_their_own_sizes() {
    let records = vec![
        tag_record(0, 3, 0, b"idle"),
        tag_record(4, 9, 6, b"running fast"),
        tag_record(10, 10, 1, b""),
    ];
    let span = chunk(0x2018, &tag_payload(&records));
    assert_eq!(span.len(), 16 + (19 + 4) + (19 + 12) + (19 + 0));
    let t = decode_tags(&span);
    assert_eq!(t.tag_count, 3);
    assert_eq!(t.tags.len(), 3);
    assert_eq!((t.tags[0].from, t.tags[0].to), (0, 3));
    assert_eq!(t.tags[0].name.as_str().unwrap(), "idle");
    assert_eq!(t.tags[0].direction, AsepriteTagDirection::Forward);
    assert_eq!(t.tags[0].repeat_count, 2);
    assert_eq!((t.tags[1].from, t.tags[1].to), (4, 9));
    assert_eq!(t.tags[1].name.as_str().unwrap(), "running fast");
    assert_eq!(t.tags[1].direction, AsepriteTagDirection::PingPong);
    assert_eq!((t.tags[2].from, t.tags[2].to), (10, 10));
    assert_eq!(t.tags[2].name.as_str().unwrap(), "");
    assert_eq!(t.tags[2].direction, AsepriteTagDirection::Reverse);
}

#[test]
fn tag_records_past_the_chunk_read_as_zero() {
    let records = vec![tag_record(1, 2, 0, b"a")];
    let mut payload = tag_payload(&records);
    payload[0] = 2; // declares one record more than it holds
    let span = chunk(0x2018, &payload);
    let t = decode_tags(&span);
    assert_eq!(t.tags.len(), 2);
    assert_eq!(t.tags[0].name.as_str().unwrap(), "a");
    assert_eq!((t.tags[1].from, t.tags[1].to, t.tags[1].name.length), (0, 0, 0));
    assert!(t.tags[1].name.data.is_empty());
}

#[test]
fn raw_and_compressed_cels_give_the_same_pixels() {
    let pixels: Vec<u8> = (0..64u8).map(|i| i.wrapping_mul(37)).collect();
    let raw_span = chunk(0x2005, &cel_payload(0, &image(4, 4, &pixels)));
    let packed = zlib(&pixels);
    assert_ne!(packed, pixels);
    let packed_span = chunk(0x2005, &cel_payload(2, &image(4, 4, &packed)));
    let raw = decode_cel(&raw_span).unwrap();
    let comp = decode_cel(&packed_span).unwrap();
    assert_eq!(raw.cel_type, AsepriteCelType::Raw);
    assert_eq!(comp.cel_type, AsepriteCelType::CompressedImage);
    assert_eq!(raw.raw_data.as_deref(), Some(&pixels[..]));
    assert_eq!(comp.raw_data, raw.raw_data);
    assert_eq!(comp.compressed_data.as_deref(), Some(&packed[..]));
    assert!(raw.compressed_data.is_none());
    assert_eq!((comp.width, comp.height), (Some(4), Some(4)));
    assert_eq!((raw.layer_index, raw.x_pos, raw.y_pos, raw.z_index), (2, -3, 4, -1));
    assert_eq!(raw.opacity, 255);
}

#[test]
fn cel_takes_the_given_inflated_pixels() {
    let span = chunk(0x2005, &cel_payload(2, &image(1, 2, &[9, 9, 9])));
    let c = decode_cel_with(&span, Some(vec![5, 6, 7, 8])).unwrap();
    assert_eq!(c.raw_data, Some(vec![5, 6, 7, 8]));
    assert_eq!(c.compressed_data, Some(vec![9, 9, 9]));
    assert!(matches!(decode_cel_with(&span, None), Err(DecodeError::DecompressionFailed)));
    let raw = chunk(0x2005, &cel_payload(0, &image(1, 1, &[1, 2, 3, 4])));
    let r = decode_cel_with(&raw, None).unwrap();
    assert_eq!(r.raw_data, Some(vec![1, 2, 3, 4]));
}

#[test]
fn corrupt_compressed_cel_fails_the_decode() {
    let mut bytes = header(1, 0xA5E0);
    let span = chunk(0x2005, &cel_payload(2, &image(2, 2, &[1, 2, 3, 4, 5])));
    bytes.extend_from_slice(&frame(&[span]));
    assert!(matches!(read(&bytes), Err(DecodeError::DecompressionFailed)));
}

#[test]
fn linked_cel_names_its_frame() {
    let span = chunk(0x2005, &cel_payload(1, &7u16.to_le_bytes()));
    let c = decode_cel(&span).unwrap();
    assert_eq!(c.cel_type, AsepriteCelType::Linked);
    assert_eq!(c.linked_to, Some(7));
    assert!(c.raw_data.is_none() && c.width.is_none());
}

#[test]
fn unknown_chunk_keeps_its_bytes() {
    let span = chunk(0x2019, &[1, 2, 3, 4, 5]);
    let mut stream = vec![0xEE; 3];
    stream.extend_from_slice(&span);
    stream.extend_from_slice(&[0xAA; 4]);
    let (c, next) = decode_chunk(&stream, 3).unwrap();
    assert_eq!(next, 3 + span.len());
    assert_eq!(c.name(), "unknown");
    match c {
        Chunk::Unknown(raw) => {
            assert_eq!(raw.size as usize, span.len());
            assert_eq!(raw.chunk_type, 0x2019);
            assert_eq!(raw.data, span);
        }
        _ => panic!("expected an unknown chunk"),
    }
}

#[test]
fn chunk_cut_short_by_the_stream_stops_at_its_end() {
    let mut span = chunk(0x2222, &[1, 2, 3, 4, 5]);
    span.truncate(8);
    let (c, next) = decode_chunk(&span, 0).unwrap();
    assert_eq!(next, 8);
    match c {
        Chunk::Unknown(raw) => {
            assert_eq!(raw.size, 11);
            assert_eq!(raw.data, span);
        }
        _ => panic!("expected an unknown chunk"),
    }
}

#[test]
fn document_with_frames_and_chunks() {
    let mut bytes = header(2, 0xA5E0);
    let layer = chunk(0x2004, &layer_payload(0, b"L1", None));
    let cel = chunk(0x2005, &cel_payload(0, &image(1, 1, &[1, 2, 3, 4])));
    let tags = chunk(0x2018, &tag_payload(&[tag_record(0, 1, 0, b"t")]));
    bytes.extend_from_slice(&frame(&[layer, cel.clone(), tags]));
    bytes.extend_from_slice(&frame(&[cel]));
    let (doc, warnings) = read_with_warnings(&bytes).unwrap();
    assert!(warnings.is_empty());
    assert_eq!(doc.frames.len(), 2);
    let names: Vec<&str> = doc.frames[0].chunks.iter().map(|c| c.name()).collect();
    assert_eq!(names, vec!["layer", "cel", "tag"]);
    assert_eq!(doc.frames[0].chunk_count, 3);
    assert_eq!(doc.frames[0].frame_duration, 100);
    assert_eq!(doc.frames[1].chunks.len(), 1);
    assert_eq!(doc.frames[1].chunks[0].name(), "cel");
}

#[test]
fn extra_frame_is_decoded_with_a_warning() {
    let mut bytes = header(0, 0xA5E0);
    bytes.extend_from_slice(&frame(&[]));
    bytes.extend_from_slice(&frame(&[]));
    let (doc, warnings) = read_with_warnings(&bytes).unwrap();
    assert_eq!(doc.frames.len(), 2);
    assert_eq!(warnings, vec![DecodeWarning::FrameCountExceeded { frame_index: 1, declared: 0 }]);
}

#[test]
fn chunk_past_the_declared_frame_end_is_a_warning() {
    let mut bytes = header(1, 0xA5E0);
    let mut f = frame(&[chunk(0x2222, &[1]), chunk(0x2223, &[2])]);
    f[0..4].copy_from_slice(&7u32.to_le_bytes());
    bytes.extend_from_slice(&f);
    let (doc, warnings) = read_with_warnings(&bytes).unwrap();
    assert_eq!(doc.frames[0].chunks.len(), 2);
    assert_eq!(warnings, vec![DecodeWarning::ChunkPastFrameEnd { position: 128 + 16 + 7 }]);
}

#[test]
fn short_reads_give_zero() {
    assert_eq!(read_u16(&[1], 0), 0);
    assert_eq!(read_u16(&[1, 2], 0), 0x0201);
    assert_eq!(read_u32(&[1, 2, 3], 0), 0);
    assert_eq!(read_u32(&[1, 2, 3, 4], 0), 0x04030201);
    assert_eq!(read_i16(&[0xFE, 0xFF], 0), -2);
    assert_eq!(read_u16(&[1, 2, 3], 2), 0);
}

#[test]
fn text_field_reads_its_declared_length() {
    let s = AsepriteString::read_from_bytes(&[3, 0, b'a', b'b', b'c', b'd']);
    assert_eq!(s.length, 3);
    assert_eq!(s.as_str().unwrap(), "abc");
    let cut = AsepriteString::read_from_bytes(&[5, 0, b'x']);
    assert_eq!(cut.length, 5);
    assert_eq!(cut.as_str().unwrap(), "x");
    let empty = AsepriteString::read_from_bytes(&[]);
    assert_eq!(empty.length, 0);
    assert!(empty.data.is_empty());
}

#[test]
fn invalid_utf8_name_is_invalid_text() {
    let s = AsepriteString::read_from_bytes(&[2, 0, 0xFF, 0xFE]);
    assert!(matches!(s.as_str(), Err(DecodeError::InvalidText)));
}

#[test]
fn labels_name_the_variants() {
    assert_eq!(AsepriteBlendMode::ColorDodge.label(), "Color Dodge");
    assert_eq!(AsepriteBlendMode::Divide.label(), "Divide");
    assert_eq!(AsepriteCelType::CompressedImage.label(), "CompressedImage");
    assert_eq!(AsepriteTagDirection::PingPongReverse.label(), "PingPongReverse");
    assert_eq!(AsepriteLayerFlags::IsReference.mask(), 64);
}
