//! Parsed OpenType faces (backed by ttf-parser) and the facts about their
//! colour-glyph tables that the detection and extraction logic reads.
//!
//! Every fact is named after the bytes the face was parsed from, since
//! ttf-parser computes each of them from those bytes alone.

use vstd::prelude::*;
use ttf_parser::GlyphId;
use ttf_parser::RasterImageFormat as F;
use crate::face::ImageEncoding as E;

verus! {

/// `ttf_parser::Face`, a parsed OpenType face; opaque to the proofs.
#[verifier::external_type_specification]
#[verifier::external_body]
pub struct ExTtfFace<'a>(ttf_parser::Face<'a>);

/// Whether `ttf_parser::Face::parse(data, 0)` succeeds.
pub uninterp spec fn face_parses(data: Seq<u8>) -> bool;

/// Whether the face parsed from `data` has a usable `sbix` table.
pub uninterp spec fn face_has_sbix(data: Seq<u8>) -> bool;

/// Whether the face parsed from `data` has a usable `SVG ` table.
pub uninterp spec fn face_has_svg(data: Seq<u8>) -> bool;

/// Whether the face parsed from `data` has usable `CBLC`+`CBDT` tables.
pub uninterp spec fn face_has_cbdt(data: Seq<u8>) -> bool;

/// Whether the face parsed from `data` has usable `bloc`+`bdat` tables.
pub uninterp spec fn face_has_bdat(data: Seq<u8>) -> bool;

/// Whether the face parsed from `data` has usable `EBLC`+`EBDT` tables.
pub uninterp spec fn face_has_ebdt(data: Seq<u8>) -> bool;

/// Whether the face parsed from `data` has a usable `COLR` table that
/// defines `glyph`.
pub uninterp spec fn face_colr_has_glyph(data: Seq<u8>, glyph: u16) -> bool;

/// Whether the face parsed from `data` has a usable `COLR` table of
/// version 0.
pub uninterp spec fn face_colr_is_v0(data: Seq<u8>) -> bool;

/// The raster image that `Face::glyph_raster_image(glyph, ppem)` returns for
/// the face parsed from `data`: `(x, y, width, height, pixels_per_em, format,
/// data)`.
pub uninterp spec fn face_raster_image(data: Seq<u8>, glyph: u16, ppem: u16) -> Option<RasterImageView>;

/// The encodings a raster glyph image can have (those that ttf-parser
/// reports).
#[derive(Clone, Copy, Debug, PartialEq, Eq, Structural)]
pub enum ImageEncoding {
    Png,
    BitmapMono,
    BitmapMonoPacked,
    BitmapGray2,
    BitmapGray2Packed,
    BitmapGray4,
    BitmapGray4Packed,
    BitmapGray8,
    BitmapPremulBgra32,
}

/// An encoded raster glyph image as stored in the font.
pub struct RasterImage {
    /// Horizontal offset.
    pub x: i16,
    /// Vertical offset.
    pub y: i16,
    /// Image width as recorded in the font.
    pub width: u16,
    /// Image height as recorded in the font.
    pub height: u16,
    /// Pixels per em of the selected strike.
    pub pixels_per_em: u16,
    /// How `data` is encoded.
    pub format: ImageEncoding,
    /// The encoded image.
    pub data: Vec<u8>,
}

/// `(x, y, width, height, pixels_per_em, format, data)` of a raster image.
pub type RasterImageView = (i16, i16, u16, u16, u16, ImageEncoding, Seq<u8>);

impl View for RasterImage {
    type V = RasterImageView;

    open spec fn view(&self) -> RasterImageView {
        (self.x, self.y, self.width, self.height, self.pixels_per_em, self.format, self.data@)
    }
}

/// A face parsed by ttf-parser, together with (as its view) the bytes that
/// it was parsed from.
pub struct ParsedFace<'a> {
    face: ttf_parser::Face<'a>,
    source: Ghost<Seq<u8>>,
}

impl<'a> View for ParsedFace<'a> {
    type V = Seq<u8>;

    closed spec fn view(&self) -> Seq<u8> {
        self.source@
    }
}

/// `ttf_parser::Face::parse(data, 0)`.
///
/// Trusted: succeeds exactly where `face_parses` holds; the face remembers
/// the bytes it was parsed from.
#[verifier::external_body]
pub(crate) fn parse_face<'a>(data: &'a [u8]) -> (r: Option<ParsedFace<'a>>)
    ensures
        r.is_some() == face_parses(data@),
        r matches Some(f) ==> f@ == data@,
{
    match ttf_parser::Face::parse(data, 0) {
        Ok(face) => Some(ParsedFace { face, source: Ghost(data@) }),
        Err(_) => None,
    }
}

impl<'a> ParsedFace<'a> {
    /// `face.tables().sbix.is_some()`.
    #[verifier::external_body]
    pub(crate) fn has_sbix(&self) -> (r: bool)
        ensures
            r == face_has_sbix(self@),
    {
        self.face.tables().sbix.is_some()
    }

    /// `face.tables().svg.is_some()`.
    #[verifier::external_body]
    pub(crate) fn has_svg(&self) -> (r: bool)
        ensures
            r == face_has_svg(self@),
    {
        self.face.tables().svg.is_some()
    }

    /// `face.tables().cbdt.is_some()`.
    #[verifier::external_body]
    pub(crate) fn has_cbdt(&self) -> (r: bool)
        ensures
            r == face_has_cbdt(self@),
    {
        self.face.tables().cbdt.is_some()
    }

    /// `face.tables().bdat.is_some()`.
    #[verifier::external_body]
    pub(crate) fn has_bdat(&self) -> (r: bool)
        ensures
            r == face_has_bdat(self@),
    {
        self.face.tables().bdat.is_some()
    }

    /// `face.tables().ebdt.is_some()`.
    #[verifier::external_body]
    pub(crate) fn has_ebdt(&self) -> (r: bool)
        ensures
            r == face_has_ebdt(self@),
    {
        self.face.tables().ebdt.is_some()
    }

    /// `face.is_color_glyph(glyph)`.
    ///
    /// Trusted: ttf-parser defines it as "the COLR table exists and contains
    /// the glyph", the fact that `face_colr_has_glyph` names.
    #[verifier::external_body]
    pub(crate) fn is_color_glyph(&self, glyph: u16) -> (r: bool)
        ensures
            r == face_colr_has_glyph(self@, glyph),
    {
        self.face.is_color_glyph(GlyphId(glyph))
    }

    /// `face.tables().colr` then `Table::contains(glyph)`: whether the COLR
    /// table exists and defines `glyph`.
    #[verifier::external_body]
    pub(crate) fn colr_contains(&self, glyph: u16) -> (r: bool)
        ensures
            r == face_colr_has_glyph(self@, glyph),
    {
        match self.face.tables().colr {
            Some(colr) => colr.contains(GlyphId(glyph)),
            None => false,
        }
    }

    /// `face.tables().colr` then `Table::is_simple()`: whether the COLR
    /// table exists and has version 0.
    #[verifier::external_body]
    pub(crate) fn colr_is_simple(&self) -> (r: bool)
        ensures
            r == face_colr_is_v0(self@),
    {
        match self.face.tables().colr {
            Some(colr) => colr.is_simple(),
            None => false,
        }
    }

    /// `face.glyph_raster_image(glyph, ppem)`, with the image bytes copied.
    ///
    /// Trusted: the image, or its absence, is the one `face_raster_image`
    /// names; the fields are moved over unchanged.
    #[verifier::external_body]
    pub(crate) fn glyph_raster_image(&self, glyph: u16, ppem: u16) -> (r: Option<RasterImage>)
        ensures
            match (r, face_raster_image(self@, glyph, ppem)) {
                (Some(img), Some(named)) => img@ == named,
                (None, None) => true,
                _ => false,
            },
    {
        let img = match self.face.glyph_raster_image(GlyphId(glyph), ppem) {
            Some(img) => img,
            None => return None,
        };
        let format = match img.format {
            F::PNG => E::Png, F::BitmapMono => E::BitmapMono, F::BitmapMonoPacked => E::BitmapMonoPacked,
            F::BitmapGray2 => E::BitmapGray2, F::BitmapGray2Packed => E::BitmapGray2Packed,
            F::BitmapGray4 => E::BitmapGray4, F::BitmapGray4Packed => E::BitmapGray4Packed,
            F::BitmapGray8 => E::BitmapGray8, F::BitmapPremulBgra32 => E::BitmapPremulBgra32,
        };
        let (x, y, width, height, pixels_per_em) = (img.x, img.y, img.width, img.height, img.pixels_per_em);
        Some(RasterImage { x, y, width, height, pixels_per_em, format, data: img.data.to_vec() })
    }
}

} // verus!
