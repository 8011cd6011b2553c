use qqr::qr::{encode, EncodingError};
use qqr::OutputFormat;

/// Reads the width and height out of a PNG's IHDR chunk.
fn png_dimensions(bytes: &[u8]) -> (u32, u32) {
    assert!(bytes.len() > 24, "PNG too short");
    assert_eq!(&bytes[0..8], &[0x89, b'P', b'N', b'G', b'\r', b'\n', 0x1a, b'\n']);
    assert_eq!(&bytes[12..16], b"IHDR");
    let w = u32::from_be_bytes([bytes[16], bytes[17], bytes[18], bytes[19]]);
    let h = u32::from_be_bytes([bytes[20], bytes[21], bytes[22], bytes[23]]);
    (w, h)
}

#[test]
fn png_is_square_and_at_least_1000() {
    let img = encode("hello world", OutputFormat::PNG).unwrap();
    assert_eq!(img.content_type(), "image/png");
    let (w, h) = png_dimensions(&img.bytes);
    assert_eq!(w, h);
    assert!(w >= 1000);
    // a payload this small fits the smallest symbol: 21 modules plus a
    // 4-module quiet zone on each side = 29, so the next multiple of 29
    // at or past 1000 is 1015
    assert_eq!(w, 1015);
}

#[test]
fn png_dimensions_grow_with_payload() {
    let long = "a".repeat(400);
    let img = encode(&long, OutputFormat::PNG).unwrap();
    let (w, h) = png_dimensions(&img.bytes);
    assert_eq!(w, h);
    assert!(w >= 1000);
}

#[test]
fn svg_uses_only_black_and_white() {
    let img = encode("hello world", OutputFormat::SVG).unwrap();
    assert_eq!(img.content_type(), "image/svg+xml");
    let markup = String::from_utf8(img.bytes.clone()).unwrap();
    assert!(markup.starts_with("<?xml"));
    assert!(markup.contains("#000000"));
    assert!(markup.contains("#ffffff"));
    let colors: Vec<&str> = markup
        .match_indices('#')
        .map(|(i, _)| &markup[i..i + 7])
        .collect();
    assert!(!colors.is_empty());
    for c in colors {
        assert!(c == "#000000" || c == "#ffffff", "unexpected color {c}");
    }
}

#[test]
fn encode_is_deterministic() {
    for format in [OutputFormat::PNG, OutputFormat::SVG] {
        let a = encode("same payload, same bytes", format).unwrap();
        let b = encode("same payload, same bytes", format).unwrap();
        assert_eq!(a.bytes, b.bytes);
        assert_eq!(a.content_type(), b.content_type());
    }
}

#[test]
fn oversized_payload_is_refused() {
    let too_long = "a".repeat(5000);
    match encode(&too_long, OutputFormat::PNG) {
        Err(EncodingError::SymbolConstruction) => {}
        other => panic!("expected a symbol-construction failure, got {:?}", other.map(|i| i.bytes.len())),
    }
}

#[test]
fn png_and_svg_differ() {
    let png = encode("payload", OutputFormat::PNG).unwrap();
    let svg = encode("payload", OutputFormat::SVG).unwrap();
    assert_ne!(png.bytes, svg.bytes);
}
