//! Colour-glyph type detection and embedded-bitmap extraction.
//!
//! [`ColorGlyphType`] says which colour-glyph representation a font offers
//! for a glyph; [`extract_raster_glyph`] hands out the raw encoded image of a
//! glyph from any raster table (CBDT, sbix, ...), and [`extract_cbdt_bitmap`]
//! / [`render_cbdt_glyph`] decode PNG-encoded embedded bitmaps to RGBA.

use vstd::prelude::*;
use crate::canvas::ColorGlyphBitmap;
use crate::face::{
    face_colr_has_glyph, face_colr_is_v0, face_has_bdat, face_has_cbdt, face_has_ebdt,
    face_has_sbix, face_has_svg, face_parses, face_raster_image, ImageEncoding, parse_face,
    RasterImage, RasterImageView,
};
use crate::png_frame::{decode_first_frame, png_first_frame, PngColor, PngFrame, PngFrameView};

verus! {

/// Raster image format tag reported by the font table.
///
/// Only [`Png`][Self::Png] is commonly used in practice (sbix always uses
/// PNG; CBDT/CBLC formats 17/18/19 embed PNG).  Other formats store raw
/// bitmap data; those map to [`Unknown`][Self::Unknown].
#[derive(Debug, Clone, Copy, PartialEq, Eq, Structural)]
pub enum RasterImageFormat {
    /// PNG-encoded image.
    Png,
    /// JPEG-encoded image (not reported by the font parser).
    Jpeg,
    /// TIFF-encoded image (not reported by the font parser).
    Tiff,
    /// Any other format (raw bitmap, packed mono, etc.).
    Unknown,
}

/// Raw rasterized glyph image extracted from a font table (CBDT, sbix, ...).
///
/// Holds the encoded bytes along with the image metadata; the caller decodes
/// the bytes according to [`format`][Self::format].
#[derive(Debug, Clone)]
pub struct RawRasterGlyph {
    /// Encoded image bytes.
    pub data: Vec<u8>,
    /// Image format as reported by the font table.
    pub format: RasterImageFormat,
    /// Image width in pixels (from the font table).
    pub width: u16,
    /// Image height in pixels (from the font table).
    pub height: u16,
    /// X bearing from the font origin.
    pub x: i16,
    /// Y bearing from the font origin.
    pub y: i16,
    /// Pixels per em of this strike.
    pub pixels_per_em: u16,
}

/// The format tag that an image encoding is reported as.
pub open spec fn format_of(encoding: ImageEncoding) -> RasterImageFormat {
    if encoding == ImageEncoding::Png {
        RasterImageFormat::Png
    } else {
        RasterImageFormat::Unknown
    }
}

/// `glyph` carries the fields of raster image `img`, with its format
/// reported by [`format_of`].
pub open spec fn raw_glyph_matches(glyph: RawRasterGlyph, img: RasterImageView) -> bool {
    &&& glyph.x == img.0
    &&& glyph.y == img.1
    &&& glyph.width == img.2
    &&& glyph.height == img.3
    &&& glyph.pixels_per_em == img.4
    &&& glyph.format == format_of(img.5)
    &&& glyph.data@ == img.6
}

/// The raster image of `glyph` at the strike closest to `ppem`, if the font
/// parses and has one.
pub open spec fn spec_raster_image(face: Seq<u8>, glyph: u16, ppem: u16) -> Option<RasterImageView> {
    if face_parses(face) {
        face_raster_image(face, glyph, ppem)
    } else {
        None
    }
}

impl RawRasterGlyph {
    /// The raw glyph of an encoded raster image: the fields are kept and the
    /// encoding is reported as PNG or unknown.
    pub fn from_image(img: RasterImage) -> (r: RawRasterGlyph)
        ensures
            raw_glyph_matches(r, img@),
    {
        let format = match img.format {
            ImageEncoding::Png => RasterImageFormat::Png,
            _ => RasterImageFormat::Unknown,
        };
        RawRasterGlyph {
            data: img.data,
            format,
            width: img.width,
            height: img.height,
            x: img.x,
            y: img.y,
            pixels_per_em: img.pixels_per_em,
        }
    }
}

/// Extract the raw raster glyph image for `glyph_id` at the available strike
/// closest to `ppem` from any supported font table (sbix, bdat, EBDT, CBDT).
///
/// Returns the encoded bytes without decoding them, or `None` if the font
/// cannot be parsed or has no raster image for the glyph at that size.
pub fn extract_raster_glyph(face_data: &[u8], glyph_id: u16, ppem: u16) -> (r: Option<RawRasterGlyph>)
    ensures
        match (r, spec_raster_image(face_data@, glyph_id, ppem)) {
            (Some(g), Some(img)) => raw_glyph_matches(g, img),
            (None, None) => true,
            _ => false,
        },
{
    let face = match parse_face(face_data) {
        Some(f) => f,
        None => return None,
    };
    match face.glyph_raster_image(glyph_id, ppem) {
        Some(img) => Some(RawRasterGlyph::from_image(img)),
        None => None,
    }
}

/// The colour glyph format available for a given glyph in a font.
///
/// Priority order follows the OpenType recommendation:
/// `Sbix` > `Svg` > `EmbeddedBitmap` (CBDT/CBLC) > `ColrV1` > `ColrV0`.
#[derive(Debug, Clone, Copy, PartialEq, Eq, Structural)]
pub enum ColorGlyphType {
    /// No colour data; greyscale rasterization only.
    NoColor,
    /// COLRv0: simple per-layer solid-coloured outlines.
    ColrV0,
    /// COLRv1: gradients, transforms, and composite modes.
    ColrV1,
    /// Embedded bitmap (CBDT/CBLC, bdat/bloc or EBDT/EBLC tables).
    EmbeddedBitmap,
    /// Apple `sbix` table.
    Sbix,
    /// OpenType `SVG ` table.
    Svg,
}

/// What a parsed font says about its colour tables and one of its glyphs.
#[derive(Debug, Clone, Copy, PartialEq, Eq, Structural)]
pub struct ColorTableFacts {
    /// The font has an `sbix` table.
    pub has_sbix: bool,
    /// The font has an `SVG ` table.
    pub has_svg: bool,
    /// The font has `CBLC`+`CBDT` tables.
    pub has_cbdt: bool,
    /// The font has `bloc`+`bdat` tables.
    pub has_bdat: bool,
    /// The font has `EBLC`+`EBDT` tables.
    pub has_ebdt: bool,
    /// The font reports the glyph as a colour glyph.
    pub is_color_glyph: bool,
    /// The font has a `COLR` table that defines the glyph.
    pub in_colr: bool,
    /// The font's `COLR` table has version 0.
    pub colr_v0: bool,
}

/// The colour glyph type of a font that parses with `facts` (`None` for a
/// font that does not parse).
pub open spec fn spec_classify(facts: Option<ColorTableFacts>) -> ColorGlyphType {
    match facts {
        None => ColorGlyphType::NoColor,
        Some(f) => if f.has_sbix && f.is_color_glyph {
            ColorGlyphType::Sbix
        } else if f.has_svg && f.is_color_glyph {
            ColorGlyphType::Svg
        } else if (f.has_cbdt || f.has_bdat || f.has_ebdt) && f.is_color_glyph {
            ColorGlyphType::EmbeddedBitmap
        } else if f.in_colr {
            if f.colr_v0 {
                ColorGlyphType::ColrV0
            } else {
                ColorGlyphType::ColrV1
            }
        } else {
            ColorGlyphType::NoColor
        },
    }
}

/// The colour-table facts of `glyph` in the font `face`, if it parses.
pub open spec fn spec_facts(face: Seq<u8>, glyph: u16) -> Option<ColorTableFacts> {
    if face_parses(face) {
        Some(ColorTableFacts {
            has_sbix: face_has_sbix(face),
            has_svg: face_has_svg(face),
            has_cbdt: face_has_cbdt(face),
            has_bdat: face_has_bdat(face),
            has_ebdt: face_has_ebdt(face),
            is_color_glyph: face_colr_has_glyph(face, glyph),
            in_colr: face_colr_has_glyph(face, glyph),
            colr_v0: face_colr_is_v0(face),
        })
    } else {
        None
    }
}

impl ColorGlyphType {
    /// Classify a glyph from the facts about its font's colour tables,
    /// checking the tables in priority order (sbix, SVG, embedded bitmaps,
    /// COLR).  A glyph counts as coloured by the first three only when the
    /// font reports it as a colour glyph.
    pub fn classify(facts: Option<ColorTableFacts>) -> (r: ColorGlyphType)
        ensures
            r == spec_classify(facts),
            facts is None ==> r == ColorGlyphType::NoColor,
            r != ColorGlyphType::NoColor ==> (facts matches Some(f) && (f.is_color_glyph || f.in_colr)),
    {
        let f = match facts {
            Some(f) => f,
            None => return ColorGlyphType::NoColor,
        };
        if f.has_sbix {
            if f.is_color_glyph {
                return ColorGlyphType::Sbix;
            }
        }
        if f.has_svg && f.is_color_glyph {
            return ColorGlyphType::Svg;
        }
        if (f.has_cbdt || f.has_bdat || f.has_ebdt) && f.is_color_glyph {
            return ColorGlyphType::EmbeddedBitmap;
        }
        if f.in_colr {
            if f.colr_v0 {
                return ColorGlyphType::ColrV0;
            }
            return ColorGlyphType::ColrV1;
        }
        ColorGlyphType::NoColor
    }
}

/// Detect which colour glyph format is available for `glyph_id` in
/// `face_data`, inspecting the tables in priority order (sbix, SVG,
/// CBDT/CBLC, COLR).  Returns [`ColorGlyphType::NoColor`] when the font cannot
/// be parsed or the glyph has no colour data.
pub fn detect_color_glyph_type(face_data: &[u8], glyph_id: u16) -> (r: ColorGlyphType)
    ensures
        r == spec_classify(spec_facts(face_data@, glyph_id)),
        !face_parses(face_data@) ==> r == ColorGlyphType::NoColor,
        r != ColorGlyphType::NoColor ==> face_colr_has_glyph(face_data@, glyph_id),
{
    let face = match parse_face(face_data) {
        Some(f) => f,
        None => return ColorGlyphType::classify(None),
    };
    let facts = ColorTableFacts {
        has_sbix: face.has_sbix(),
        has_svg: face.has_svg(),
        has_cbdt: face.has_cbdt(),
        has_bdat: face.has_bdat(),
        has_ebdt: face.has_ebdt(),
        is_color_glyph: face.is_color_glyph(glyph_id),
        in_colr: face.colr_contains(glyph_id),
        colr_v0: face.colr_is_simple(),
    };
    ColorGlyphType::classify(Some(facts))
}

/// Detection reads the font's own tables in priority order: for a font that
/// parses and a glyph its COLR table defines, an `sbix` table gives `Sbix`;
/// otherwise an `SVG ` table gives `Svg`; otherwise CBDT, bdat or EBDT
/// tables give `EmbeddedBitmap`; otherwise the COLR version decides between
/// `ColrV0` and `ColrV1`.  A glyph outside the COLR table, or a font that
/// does not parse, has no colour.
pub proof fn lemma_detection_reads_own_tables(face: Seq<u8>, glyph: u16)
    ensures
        ({
            let t = spec_classify(spec_facts(face, glyph));
            let colour = face_parses(face) && face_colr_has_glyph(face, glyph);
            let bitmaps = face_has_cbdt(face) || face_has_bdat(face) || face_has_ebdt(face);
            &&& !colour ==> t == ColorGlyphType::NoColor
            &&& colour && face_has_sbix(face) ==> t == ColorGlyphType::Sbix
            &&& colour && !face_has_sbix(face) && face_has_svg(face) ==> t == ColorGlyphType::Svg
            &&& colour && !face_has_sbix(face) && !face_has_svg(face) && bitmaps ==> t
                == ColorGlyphType::EmbeddedBitmap
            &&& colour && !face_has_sbix(face) && !face_has_svg(face) && !bitmaps ==> t == (if face_colr_is_v0(
                face,
            ) {
                ColorGlyphType::ColrV0
            } else {
                ColorGlyphType::ColrV1
            })
        }),
{
}

/// The raster image handed out for a glyph is the one the font reports for
/// the requested size, and the embedded bitmap is the PNG decoding of that
/// very image: for a font that parses, asking at `ppem` gives
/// `face_raster_image(face, glyph, ppem)`, and a PNG image decodes to what
/// the PNG decoder reads from its bytes (converted to RGBA).  A font that
/// does not parse has neither.
pub proof fn lemma_raster_image_is_requested_strike(face: Seq<u8>, glyph: u16, ppem: u16)
    ensures
        face_parses(face) ==> spec_raster_image(face, glyph, ppem) == face_raster_image(face, glyph, ppem),
        !face_parses(face) ==> spec_raster_image(face, glyph, ppem) is None && spec_embedded_bitmap(
            face,
            glyph,
            ppem,
        ) is None,
        face_parses(face) ==> spec_embedded_bitmap(face, glyph, ppem) == match face_raster_image(face, glyph, ppem) {
            Some(img) => if img.5 == ImageEncoding::Png {
                match png_first_frame(img.6) {
                    Some(frame) => spec_frame_to_rgba(frame),
                    None => None,
                }
            } else {
                None
            },
            None => None,
        },
{
}

/// The bytes that `chunks(3)` of `s`, each followed by an opaque alpha byte,
/// add up to: RGB samples widened to RGBA.
pub open spec fn rgb_to_rgba(s: Seq<u8>) -> Seq<u8>
    decreases s.len(),
{
    if s.len() == 0 {
        Seq::empty()
    } else if s.len() <= 3 {
        s.push(255u8)
    } else {
        s.take(3).push(255u8) + rgb_to_rgba(s.skip(3))
    }
}

/// The first `n` bytes of `buf`, widened from RGB to RGBA.
fn expand_rgb(buf: &Vec<u8>, n: usize) -> (r: Vec<u8>)
    requires
        n <= buf@.len(),
    ensures
        r@ == rgb_to_rgba(buf@.take(n as int)),
{
    let ghost s = buf@.take(n as int);
    let mut out: Vec<u8> = Vec::new();
    let mut i: usize = 0;
    assert(s.skip(0) =~= s);
    while i < n
        invariant
            i <= n,
            n <= buf@.len(),
            s == buf@.take(n as int),
            rgb_to_rgba(s) == out@ + rgb_to_rgba(s.skip(i as int)),
        decreases n - i,
    {
        let end: usize = if n - i <= 3 { n } else { i + 3 };
        let ghost before = out@;
        let mut j: usize = i;
        while j < end
            invariant
                i <= j <= end,
                end <= n,
                n <= buf@.len(),
                s == buf@.take(n as int),
                out@ == before + s.subrange(i as int, j as int),
            decreases end - j,
        {
            out.push(buf[j]);
            assert(s.subrange(i as int, j + 1) =~= s.subrange(i as int, j as int).push(s[j as int]));
            j = j + 1;
        }
        out.push(255u8);
        let ghost rest = s.skip(i as int);
        if n - i <= 3 {
            assert(rest =~= s.subrange(i as int, n as int));
            assert(s.skip(n as int) =~= Seq::<u8>::empty());
        } else {
            assert(rest.take(3) =~= s.subrange(i as int, i + 3));
            assert(rest.skip(3) =~= s.skip(i + 3));
        }
        i = end;
        assert(rgb_to_rgba(s) == out@ + rgb_to_rgba(s.skip(i as int)));
    }
    assert(s.skip(n as int) =~= Seq::<u8>::empty());
    assert(out@ =~= out@ + Seq::<u8>::empty());
    out
}

/// `(width, height, rgba)` of the frame `frame`, converted to RGBA: RGBA
/// frames are kept as decoded, RGB frames get an opaque alpha byte after each
/// sample triple, and every other colour type is refused.
pub open spec fn spec_frame_to_rgba(frame: PngFrameView) -> Option<(u32, u32, Seq<u8>)> {
    let (width, height, color, frame_len, pixels) = frame;
    if frame_len > pixels.len() {
        None
    } else if color == PngColor::Rgba {
        Some((width, height, pixels.take(frame_len as int)))
    } else if color == PngColor::Rgb {
        Some((width, height, rgb_to_rgba(pixels.take(frame_len as int))))
    } else {
        None
    }
}

/// `(width, height, rgba)` decoded from the PNG bytes `data`.
pub open spec fn spec_decode_png(data: Seq<u8>) -> Option<(u32, u32, Seq<u8>)> {
    match png_first_frame(data) {
        Some(frame) => spec_frame_to_rgba(frame),
        None => None,
    }
}

/// Convert a decoded PNG frame into `(width, height, rgba_bytes)`.
///
/// Only RGB and RGBA frames are handled (indexed and greyscale modes are rare
/// in colour fonts); a frame whose recorded size exceeds its buffer is
/// refused too.
pub fn frame_to_rgba(frame: PngFrame) -> (r: Option<(u32, u32, Vec<u8>)>)
    ensures
        match (r, spec_frame_to_rgba(frame@)) {
            (Some((w, h, rgba)), Some((sw, sh, srgba))) => w == sw && h == sh && rgba@ == srgba,
            (None, None) => true,
            _ => false,
        },
{
    let PngFrame { width, height, color, frame_len, pixels } = frame;
    if frame_len > pixels.len() {
        return None;
    }
    match color {
        PngColor::Rgba => {
            let mut rgba = pixels;
            rgba.truncate(frame_len);
            Some((width, height, rgba))
        },
        PngColor::Rgb => Some((width, height, expand_rgb(&pixels, frame_len))),
        _ => None,
    }
}

/// Decode PNG bytes into `(width, height, rgba_bytes)`.
///
/// Returns `None` if the data is not a PNG the decoder accepts or its colour
/// type is neither RGB nor RGBA.
pub fn decode_png_to_bitmap(data: &[u8]) -> (r: Option<(u32, u32, Vec<u8>)>)
    ensures
        match (r, spec_decode_png(data@)) {
            (Some((w, h, rgba)), Some((sw, sh, srgba))) => w == sw && h == sh && rgba@ == srgba,
            (None, None) => true,
            _ => false,
        },
{
    match decode_first_frame(data) {
        Some(frame) => frame_to_rgba(frame),
        None => None,
    }
}

/// A decoded colour bitmap: `width x height` RGBA pixels.
#[derive(Debug, Clone)]
pub struct ColorBitmap {
    /// Width in pixels.
    pub width: u32,
    /// Height in pixels.
    pub height: u32,
    /// Pixel data in RGBA order.
    pub rgba: Vec<u8>,
}

/// The decoded embedded bitmap of `glyph` at the strike closest to `ppem`:
/// the glyph's raster image, if it is PNG-encoded, decoded to RGBA.
pub open spec fn spec_embedded_bitmap(face: Seq<u8>, glyph: u16, ppem: u16) -> Option<(u32, u32, Seq<u8>)> {
    match spec_raster_image(face, glyph, ppem) {
        Some(img) => if img.5 == ImageEncoding::Png {
            spec_decode_png(img.6)
        } else {
            None
        },
        None => None,
    }
}

/// Locate the raster image of `glyph` at the strike closest to `ppem` and
/// decode it if it is PNG-encoded.
fn decoded_raster_image(face_data: &[u8], glyph: u16, ppem: u16) -> (r: Option<(u32, u32, Vec<u8>)>)
    ensures
        match (r, spec_embedded_bitmap(face_data@, glyph, ppem)) {
            (Some((w, h, rgba)), Some((sw, sh, srgba))) => w == sw && h == sh && rgba@ == srgba,
            (None, None) => true,
            _ => false,
        },
{
    let face = match parse_face(face_data) {
        Some(f) => f,
        None => return None,
    };
    let img = match face.glyph_raster_image(glyph, ppem) {
        Some(img) => img,
        None => return None,
    };
    match img.format {
        ImageEncoding::Png => decode_png_to_bitmap(img.data.as_slice()),
        // Raw bitmap formats need CBLC size metrics; they are not decoded.
        _ => None,
    }
}

/// Extract and decode a pre-rasterized PNG bitmap for `glyph_id` from the
/// font's embedded-bitmap tables at the strike closest to `target_ppem`.
///
/// Returns `None` if the font does not parse, has no raster image for the
/// glyph, the image is not PNG-encoded, or the PNG cannot be decoded to RGB
/// or RGBA.
pub fn extract_cbdt_bitmap(face_data: &[u8], glyph_id: u16, target_ppem: u8) -> (r: Option<ColorBitmap>)
    ensures
        match (r, spec_embedded_bitmap(face_data@, glyph_id, target_ppem as u16)) {
            (Some(b), Some((w, h, rgba))) => b.width == w && b.height == h && b.rgba@ == rgba,
            (None, None) => true,
            _ => false,
        },
{
    match decoded_raster_image(face_data, glyph_id, target_ppem as u16) {
        Some((width, height, rgba)) => Some(ColorBitmap { width, height, rgba }),
        None => None,
    }
}

/// Render a CBDT/CBLC (or sbix) colour bitmap glyph at the strike closest to
/// `px_size`, returning the decoded RGBA bitmap.
///
/// Returns `None` if the font has no PNG-encoded embedded bitmap for the
/// glyph or it cannot be decoded.
pub fn render_cbdt_glyph(face_data: &[u8], glyph_id: u16, px_size: u16) -> (r: Option<ColorGlyphBitmap>)
    ensures
        match (r, spec_embedded_bitmap(face_data@, glyph_id, px_size)) {
            (Some(b), Some((w, h, rgba))) => b.width == w && b.height == h && b.rgba@ == rgba,
            (None, None) => true,
            _ => false,
        },
{
    match decoded_raster_image(face_data, glyph_id, px_size) {
        Some((width, height, rgba)) => Some(ColorGlyphBitmap { width, height, rgba }),
        None => None,
    }
}

} // verus!
