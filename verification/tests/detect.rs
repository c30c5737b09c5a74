use oxitext_raster::detect::{
    decode_png_to_bitmap, detect_color_glyph_type, extract_cbdt_bitmap, extract_raster_glyph,
    frame_to_rgba, render_cbdt_glyph, ColorGlyphType, ColorTableFacts, RasterImageFormat, RawRasterGlyph,
};
use oxitext_raster::face::{ImageEncoding, RasterImage};
use oxitext_raster::png_frame::{PngColor, PngFrame};

const RGB_PNG: &[u8] = &[
    0x89, 0x50, 0x4e, 0x47, 0x0d, 0x0a, 0x1a, 0x0a, 0x00, 0x00, 0x00, 0x0d, 0x49, 0x48, 0x44, 0x52,
    0x00, 0x00, 0x00, 0x02, 0x00, 0x00, 0x00, 0x01, 0x08, 0x02, 0x00, 0x00, 0x00, 0x7b, 0x40, 0xe8,
    0xdd, 0x00, 0x00, 0x00, 0x0f, 0x49, 0x44, 0x41, 0x54, 0x78, 0x9c, 0x63, 0xe0, 0x12, 0x91, 0xd3,
    0x30, 0xb2, 0x01, 0x00, 0x02, 0x37, 0x00, 0xd3, 0x5b, 0x56, 0x51, 0xd8, 0x00, 0x00, 0x00, 0x00,
    0x49, 0x45, 0x4e, 0x44, 0xae, 0x42, 0x60, 0x82,
];

const RGBA_PNG: &[u8] = &[
    0x89, 0x50, 0x4e, 0x47, 0x0d, 0x0a, 0x1a, 0x0a, 0x00, 0x00, 0x00, 0x0d, 0x49, 0x48, 0x44, 0x52,
    0x00, 0x00, 0x00, 0x01, 0x00, 0x00, 0x00, 0x01, 0x08, 0x06, 0x00, 0x00, 0x00, 0x1f, 0x15, 0xc4,
    0x89, 0x00, 0x00, 0x00, 0x0d, 0x49, 0x44, 0x41, 0x54, 0x78, 0x9c, 0x63, 0x60, 0x64, 0x62, 0x66,
    0x01, 0x00, 0x00, 0x19, 0x00, 0x0b, 0xe7, 0x5a, 0x46, 0xa4, 0x00, 0x00, 0x00, 0x00, 0x49, 0x45,
    0x4e, 0x44, 0xae, 0x42, 0x60, 0x82,
];

// A minimal TrueType font (head, hhea, maxp, hmtx, loca, glyf; two glyphs).
const PLAIN_FONT: &[u8] = &[
    0x00, 0x01, 0x00, 0x00, 0x00, 0x06, 0x00, 0x00, 0x00, 0x00, 0x00, 0x00, 0x67, 0x6c, 0x79, 0x66,
    0x00, 0x00, 0x00, 0x00, 0x00, 0x00, 0x00, 0x6c, 0x00, 0x00, 0x00, 0x24, 0x68, 0x65, 0x61, 0x64,
    0x00, 0x00, 0x00, 0x00, 0x00, 0x00, 0x00, 0x90, 0x00, 0x00, 0x00, 0x36, 0x68, 0x68, 0x65, 0x61,
    0x00, 0x00, 0x00, 0x00, 0x00, 0x00, 0x00, 0xc8, 0x00, 0x00, 0x00, 0x24, 0x68, 0x6d, 0x74, 0x78,
    0x00, 0x00, 0x00, 0x00, 0x00, 0x00, 0x00, 0xec, 0x00, 0x00, 0x00, 0x08, 0x6c, 0x6f, 0x63, 0x61,
    0x00, 0x00, 0x00, 0x00, 0x00, 0x00, 0x00, 0xf4, 0x00, 0x00, 0x00, 0x06, 0x6d, 0x61, 0x78, 0x70,
    0x00, 0x00, 0x00, 0x00, 0x00, 0x00, 0x00, 0xfc, 0x00, 0x00, 0x00, 0x06, 0x00, 0x01, 0x00, 0x00,
    0x00, 0x00, 0x03, 0x20, 0x03, 0x20, 0x00, 0x03, 0x00, 0x00, 0x01, 0x01, 0x01, 0x01, 0x00, 0x00,
    0x00, 0x00, 0x03, 0x20, 0x00, 0x00, 0x00, 0x00, 0x03, 0x20, 0x00, 0x00, 0xfc, 0xe0, 0x00, 0x00,
    0x00, 0x01, 0x00, 0x00, 0x00, 0x01, 0x00, 0x00, 0x00, 0x00, 0x00, 0x00, 0x5f, 0x0f, 0x3c, 0xf5,
    0x00, 0x00, 0x03, 0xe8, 0x00, 0x00, 0x00, 0x00, 0x00, 0x00, 0x00, 0x00, 0x00, 0x00, 0x00, 0x00,
    0x00, 0x00, 0x00, 0x00, 0x00, 0x00, 0x00, 0x00, 0x03, 0x20, 0x03, 0x20, 0x00, 0x00, 0x00, 0x03,
    0x00, 0x02, 0x00, 0x00, 0x00, 0x00, 0x00, 0x00, 0x00, 0x01, 0x00, 0x00, 0x03, 0x20, 0xff, 0x38,
    0x00, 0x00, 0x03, 0xe8, 0x00, 0x00, 0x00, 0x00, 0x03, 0x20, 0x00, 0x01, 0x00, 0x00, 0x00, 0x00,
    0x00, 0x00, 0x00, 0x00, 0x00, 0x00, 0x00, 0x00, 0x00, 0x00, 0x00, 0x02, 0x03, 0xe8, 0x00, 0x00,
    0x03, 0xe8, 0x00, 0x00, 0x00, 0x00, 0x00, 0x12, 0x00, 0x12, 0x00, 0x00, 0x00, 0x00, 0x50, 0x00,
    0x00, 0x02, 0x00, 0x00,
];

const GRAY_PNG: &[u8] = &[
    0x89, 0x50, 0x4e, 0x47, 0x0d, 0x0a, 0x1a, 0x0a, 0x00, 0x00, 0x00, 0x0d, 0x49, 0x48, 0x44, 0x52,
    0x00, 0x00, 0x00, 0x01, 0x00, 0x00, 0x00, 0x01, 0x08, 0x00, 0x00, 0x00, 0x00, 0x3a, 0x7e, 0x9b,
    0x55, 0x00, 0x00, 0x00, 0x0a, 0x49, 0x44, 0x41, 0x54, 0x78, 0x9c, 0x63, 0x60, 0x07, 0x00, 0x00,
    0x09, 0x00, 0x08, 0x20, 0x23, 0xc3, 0x8c, 0x00, 0x00, 0x00, 0x00, 0x49, 0x45, 0x4e, 0x44, 0xae,
    0x42, 0x60, 0x82,
];

#[test]
fn detect_color_glyph_type_empty_data() {
    let result = detect_color_glyph_type(&[], 0);
    assert_eq!(result, ColorGlyphType::NoColor);
}

#[test]
fn detect_color_glyph_type_invalid_data() {
    let result = detect_color_glyph_type(b"not a font", 0);
    assert_eq!(result, ColorGlyphType::NoColor);
}

#[test]
fn extract_cbdt_bitmap_empty_data() {
    let result = extract_cbdt_bitmap(&[], 0, 16);
    assert!(result.is_none());
}

#[test]
fn color_glyph_type_debug_and_copy() {
    let t = ColorGlyphType::ColrV0;
    let t2 = t;
    assert_eq!(t, t2);
    let _ = format!("{:?}", t);
}

#[test]
fn render_cbdt_glyph_no_cbdt_table_returns_none() {
    // A plain TrueType font without colour bitmap tables: glyph 1 at 16 ppem
    // has no embedded bitmap.
    let result = render_cbdt_glyph(PLAIN_FONT, 1, 16);
    assert!(result.is_none(), "plain TTF should have no CBDT data");
}

#[test]
fn render_cbdt_glyph_empty_data_returns_none() {
    assert!(render_cbdt_glyph(&[], 0, 16).is_none());
}

#[test]
fn render_cbdt_glyph_garbage_data_returns_none() {
    assert!(render_cbdt_glyph(b"not a png, not a font", 0, 16).is_none());
}

#[test]
fn decode_png_to_bitmap_rejects_non_png() {
    assert!(decode_png_to_bitmap(b"not a png").is_none());
}

#[test]
fn decode_png_to_bitmap_decodes_minimal_png() {
    let minimal_rgba_png: &[u8] = &[
        0x89, 0x50, 0x4E, 0x47, 0x0D, 0x0A, 0x1A, 0x0A, // PNG signature
        0x00, 0x00, 0x00, 0x0D, 0x49, 0x48, 0x44, 0x52, // IHDR length + type
        0x00, 0x00, 0x00, 0x01, 0x00, 0x00, 0x00, 0x01, // width=1, height=1
        0x08, 0x06, 0x00, 0x00, 0x00, 0x1F, 0x15, 0xC4, // bitdepth=8, RGBA, CRC
        0x89, 0x00, 0x00, 0x00, 0x0B, 0x49, 0x44, 0x41, // IDAT length + type
        0x54, 0x08, 0xD7, 0x63, 0xF8, 0xCF, 0xC0, 0x00, // IDAT data
        0x00, 0x00, 0x02, 0x00, 0x01, 0xE2, 0x21, 0xBC, // IDAT CRC
        0x33, 0x00, 0x00, 0x00, 0x00, 0x49, 0x45, 0x4E, // IEND length + type
        0x44, 0xAE, 0x42, 0x60, 0x82, // IEND data + CRC
    ];
    match decode_png_to_bitmap(minimal_rgba_png) {
        Some((w, h, rgba)) => {
            assert_eq!(w, 1, "expected width 1");
            assert_eq!(h, 1, "expected height 1");
            assert_eq!(rgba.len(), 4, "1x1 RGBA = 4 bytes");
        }
        None => {
            // Best-effort smoke test: the hand-written bytes may not be a
            // valid PNG.
        }
    }
}

#[test]
fn decode_rgba_png_keeps_samples() {
    let (w, h, rgba) = decode_png_to_bitmap(RGBA_PNG).expect("valid RGBA PNG");
    assert_eq!((w, h), (1, 1));
    assert_eq!(rgba, vec![1, 2, 3, 4]);
}

#[test]
fn decode_rgb_png_adds_opaque_alpha() {
    let (w, h, rgba) = decode_png_to_bitmap(RGB_PNG).expect("valid RGB PNG");
    assert_eq!((w, h), (2, 1));
    assert_eq!(rgba, vec![10, 20, 30, 255, 40, 50, 60, 255]);
}

#[test]
fn decode_gray_png_is_refused() {
    assert!(decode_png_to_bitmap(GRAY_PNG).is_none());
}

#[test]
fn frame_conversion_by_color_type() {
    let frame = |color, frame_len, pixels: Vec<u8>| PngFrame { width: 2, height: 1, color, frame_len, pixels };
    assert_eq!(frame_to_rgba(frame(PngColor::Rgba, 4, vec![1, 2, 3, 4, 9, 9])), Some((2, 1, vec![1, 2, 3, 4])));
    assert_eq!(
        frame_to_rgba(frame(PngColor::Rgb, 6, vec![1, 2, 3, 4, 5, 6, 9])),
        Some((2, 1, vec![1, 2, 3, 255, 4, 5, 6, 255]))
    );
    // A trailing partial sample group is kept and closed with an alpha byte.
    assert_eq!(frame_to_rgba(frame(PngColor::Rgb, 4, vec![1, 2, 3, 4])), Some((2, 1, vec![1, 2, 3, 255, 4, 255])));
    assert_eq!(frame_to_rgba(frame(PngColor::Rgb, 0, vec![])), Some((2, 1, vec![])));
    assert_eq!(frame_to_rgba(frame(PngColor::Grayscale, 2, vec![1, 2])), None);
    assert_eq!(frame_to_rgba(frame(PngColor::Indexed, 2, vec![1, 2])), None);
    assert_eq!(frame_to_rgba(frame(PngColor::GrayscaleAlpha, 2, vec![1, 2])), None);
    assert_eq!(frame_to_rgba(frame(PngColor::Rgba, 8, vec![1, 2, 3, 4])), None);
}

#[test]
fn raw_glyph_from_image_reports_format() {
    let img = RasterImage { x: -1, y: 2, width: 3, height: 4, pixels_per_em: 16, format: ImageEncoding::Png, data: vec![5, 6] };
    let g = RawRasterGlyph::from_image(img);
    assert_eq!(g.format, RasterImageFormat::Png);
    assert_eq!((g.x, g.y, g.width, g.height, g.pixels_per_em), (-1, 2, 3, 4, 16));
    assert_eq!(g.data, vec![5, 6]);
    let img = RasterImage { x: 0, y: 0, width: 1, height: 1, pixels_per_em: 8, format: ImageEncoding::BitmapGray8, data: vec![] };
    assert_eq!(RawRasterGlyph::from_image(img).format, RasterImageFormat::Unknown);
}

#[test]
fn extract_raster_glyph_rejects_garbage() {
    assert!(extract_raster_glyph(&[], 0, 16).is_none());
    assert!(extract_raster_glyph(b"definitely not a font", 3, 16).is_none());
}

fn facts(sbix: bool, svg: bool, cbdt: bool, in_colr: bool, colr_v0: bool) -> ColorTableFacts {
    ColorTableFacts {
        has_sbix: sbix,
        has_svg: svg,
        has_cbdt: cbdt,
        has_bdat: false,
        has_ebdt: false,
        is_color_glyph: in_colr,
        in_colr,
        colr_v0,
    }
}

#[test]
fn classification_follows_priority() {
    assert_eq!(ColorGlyphType::classify(None), ColorGlyphType::NoColor);
    assert_eq!(ColorGlyphType::classify(Some(facts(true, true, true, true, true))), ColorGlyphType::Sbix);
    assert_eq!(ColorGlyphType::classify(Some(facts(false, true, true, true, true))), ColorGlyphType::Svg);
    assert_eq!(ColorGlyphType::classify(Some(facts(false, false, true, true, true))), ColorGlyphType::EmbeddedBitmap);
    assert_eq!(ColorGlyphType::classify(Some(facts(false, false, false, true, true))), ColorGlyphType::ColrV0);
    assert_eq!(ColorGlyphType::classify(Some(facts(false, false, false, true, false))), ColorGlyphType::ColrV1);
    let mut bdat_only = facts(false, false, false, true, true);
    bdat_only.has_bdat = true;
    assert_eq!(ColorGlyphType::classify(Some(bdat_only)), ColorGlyphType::EmbeddedBitmap);
}

#[test]
fn colr_branch_reads_the_colr_table() {
    let mut f = facts(false, false, false, false, true);
    f.is_color_glyph = true;
    assert_eq!(ColorGlyphType::classify(Some(f)), ColorGlyphType::NoColor);
    let mut g = facts(true, false, false, false, false);
    g.is_color_glyph = true;
    assert_eq!(ColorGlyphType::classify(Some(g)), ColorGlyphType::Sbix);
}

#[test]
fn classification_needs_colr_glyph() {
    assert_eq!(ColorGlyphType::classify(Some(facts(true, true, true, false, true))), ColorGlyphType::NoColor);
    assert_eq!(ColorGlyphType::classify(Some(facts(false, false, false, false, false))), ColorGlyphType::NoColor);
}
