use oxitext_raster::canvas::ColorGlyphBitmap;
use oxitext_raster::color::render_color_glyph;
use oxitext_raster::detect::{
    detect_color_glyph_type, extract_cbdt_bitmap, extract_raster_glyph, render_cbdt_glyph, ColorGlyphType,
    RasterImageFormat,
};

// A two-glyph TrueType font whose glyph 1 is both a COLRv0 glyph and, in a
// 16 ppem `sbix` strike, a 2x1 RGB PNG image placed at (3, -2).
const SBIX_FONT: &[u8] = &[
    0x00, 0x01, 0x00, 0x00, 0x00, 0x09, 0x00, 0x00, 0x00, 0x00, 0x00, 0x00, 0x43, 0x4f, 0x4c, 0x52,
    0x00, 0x00, 0x00, 0x00, 0x00, 0x00, 0x00, 0x9c, 0x00, 0x00, 0x00, 0x18, 0x43, 0x50, 0x41, 0x4c,
    0x00, 0x00, 0x00, 0x00, 0x00, 0x00, 0x00, 0xb4, 0x00, 0x00, 0x00, 0x12, 0x67, 0x6c, 0x79, 0x66,
    0x00, 0x00, 0x00, 0x00, 0x00, 0x00, 0x00, 0xc8, 0x00, 0x00, 0x00, 0x24, 0x68, 0x65, 0x61, 0x64,
    0x00, 0x00, 0x00, 0x00, 0x00, 0x00, 0x00, 0xec, 0x00, 0x00, 0x00, 0x36, 0x68, 0x68, 0x65, 0x61,
    0x00, 0x00, 0x00, 0x00, 0x00, 0x00, 0x01, 0x24, 0x00, 0x00, 0x00, 0x24, 0x68, 0x6d, 0x74, 0x78,
    0x00, 0x00, 0x00, 0x00, 0x00, 0x00, 0x01, 0x48, 0x00, 0x00, 0x00, 0x08, 0x6c, 0x6f, 0x63, 0x61,
    0x00, 0x00, 0x00, 0x00, 0x00, 0x00, 0x01, 0x50, 0x00, 0x00, 0x00, 0x06, 0x6d, 0x61, 0x78, 0x70,
    0x00, 0x00, 0x00, 0x00, 0x00, 0x00, 0x01, 0x58, 0x00, 0x00, 0x00, 0x06, 0x73, 0x62, 0x69, 0x78,
    0x00, 0x00, 0x00, 0x00, 0x00, 0x00, 0x01, 0x60, 0x00, 0x00, 0x00, 0x6c, 0x00, 0x00, 0x00, 0x01,
    0x00, 0x00, 0x00, 0x0e, 0x00, 0x00, 0x00, 0x14, 0x00, 0x01, 0x00, 0x01, 0x00, 0x00, 0x00, 0x01,
    0x00, 0x00, 0x00, 0x00, 0x00, 0x00, 0x00, 0x01, 0x00, 0x01, 0x00, 0x01, 0x00, 0x00, 0x00, 0x0e,
    0x00, 0x00, 0x00, 0x00, 0xff, 0xff, 0x00, 0x00, 0x00, 0x01, 0x00, 0x00, 0x00, 0x00, 0x03, 0x20,
    0x03, 0x20, 0x00, 0x03, 0x00, 0x00, 0x01, 0x01, 0x01, 0x01, 0x00, 0x00, 0x00, 0x00, 0x03, 0x20,
    0x00, 0x00, 0x00, 0x00, 0x03, 0x20, 0x00, 0x00, 0xfc, 0xe0, 0x00, 0x00, 0x00, 0x01, 0x00, 0x00,
    0x00, 0x01, 0x00, 0x00, 0x00, 0x00, 0x00, 0x00, 0x5f, 0x0f, 0x3c, 0xf5, 0x00, 0x00, 0x03, 0xe8,
    0x00, 0x00, 0x00, 0x00, 0x00, 0x00, 0x00, 0x00, 0x00, 0x00, 0x00, 0x00, 0x00, 0x00, 0x00, 0x00,
    0x00, 0x00, 0x00, 0x00, 0x03, 0x20, 0x03, 0x20, 0x00, 0x00, 0x00, 0x03, 0x00, 0x02, 0x00, 0x00,
    0x00, 0x00, 0x00, 0x00, 0x00, 0x01, 0x00, 0x00, 0x03, 0x20, 0xff, 0x38, 0x00, 0x00, 0x03, 0xe8,
    0x00, 0x00, 0x00, 0x00, 0x03, 0x20, 0x00, 0x01, 0x00, 0x00, 0x00, 0x00, 0x00, 0x00, 0x00, 0x00,
    0x00, 0x00, 0x00, 0x00, 0x00, 0x00, 0x00, 0x02, 0x03, 0xe8, 0x00, 0x00, 0x03, 0xe8, 0x00, 0x00,
    0x00, 0x00, 0x00, 0x12, 0x00, 0x12, 0x00, 0x00, 0x00, 0x00, 0x50, 0x00, 0x00, 0x02, 0x00, 0x00,
    0x00, 0x01, 0x00, 0x01, 0x00, 0x00, 0x00, 0x01, 0x00, 0x00, 0x00, 0x0c, 0x00, 0x10, 0x00, 0x48,
    0x00, 0x00, 0x00, 0x10, 0x00, 0x00, 0x00, 0x10, 0x00, 0x00, 0x00, 0x60, 0x00, 0x03, 0xff, 0xfe,
    0x70, 0x6e, 0x67, 0x20, 0x89, 0x50, 0x4e, 0x47, 0x0d, 0x0a, 0x1a, 0x0a, 0x00, 0x00, 0x00, 0x0d,
    0x49, 0x48, 0x44, 0x52, 0x00, 0x00, 0x00, 0x02, 0x00, 0x00, 0x00, 0x01, 0x08, 0x02, 0x00, 0x00,
    0x00, 0x7b, 0x40, 0xe8, 0xdd, 0x00, 0x00, 0x00, 0x0f, 0x49, 0x44, 0x41, 0x54, 0x78, 0x9c, 0x63,
    0xe0, 0x12, 0x91, 0xd3, 0x30, 0xb2, 0x01, 0x00, 0x02, 0x37, 0x00, 0xd3, 0x5b, 0x56, 0x51, 0xd8,
    0x00, 0x00, 0x00, 0x00, 0x49, 0x45, 0x4e, 0x44, 0xae, 0x42, 0x60, 0x82,
];

#[test]
fn sbix_image_is_extracted_raw() {
    let g = extract_raster_glyph(SBIX_FONT, 1, 16).expect("sbix image");
    assert_eq!(g.format, RasterImageFormat::Png);
    assert_eq!((g.width, g.height, g.pixels_per_em), (2, 1, 16));
    assert_eq!((g.x, g.y), (3, -2));
    assert_eq!(&g.data[..8], &[0x89, 0x50, 0x4e, 0x47, 0x0d, 0x0a, 0x1a, 0x0a]);
    assert!(extract_raster_glyph(SBIX_FONT, 0, 16).is_none());
}

#[test]
fn sbix_png_is_decoded_to_rgba() {
    let b = render_cbdt_glyph(SBIX_FONT, 1, 16).expect("decoded bitmap");
    assert_eq!((b.width, b.height), (2, 1));
    assert_eq!(b.rgba, vec![10, 20, 30, 255, 40, 50, 60, 255]);
    let c = extract_cbdt_bitmap(SBIX_FONT, 1, 16).expect("decoded bitmap");
    assert_eq!((c.width, c.height), (2, 1));
    assert_eq!(c.rgba, b.rgba);
    // the nearest strike serves other sizes too
    assert!(render_cbdt_glyph(SBIX_FONT, 1, 64).is_some());
}

#[test]
fn sbix_takes_priority_in_detection() {
    assert_eq!(detect_color_glyph_type(SBIX_FONT, 1), ColorGlyphType::Sbix);
    assert_eq!(detect_color_glyph_type(SBIX_FONT, 0), ColorGlyphType::NoColor);
}

#[test]
fn embedded_bitmap_wins_over_colr() {
    let fallback = ColorGlyphBitmap { width: 9, height: 9, rgba: vec![] };
    let b = render_color_glyph(SBIX_FONT, 1, 16, move || Some(fallback)).expect("bitmap");
    assert_eq!((b.width, b.height), (2, 1));
}
