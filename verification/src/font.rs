//! Parsed outline fonts (backed by fontdue) and the glyph coverage masks that
//! they rasterize.

use vstd::prelude::*;

verus! {

/// `fontdue::Font`, a parsed font; opaque to the proofs.
#[verifier::external_type_specification]
#[verifier::external_body]
pub struct ExFontdueFont(fontdue::Font);

/// Whether `fontdue::Font::from_bytes` with default settings accepts `data`.
pub uninterp spec fn fontdue_parses(data: Seq<u8>) -> bool;

/// The number of glyphs of the font that fontdue parses from `data`.
pub uninterp spec fn fontdue_glyph_count(data: Seq<u8>) -> u16;

/// A font parsed by fontdue, together with (as its view) the bytes that it
/// was parsed from.
pub struct LoadedFont {
    font: fontdue::Font,
    source: Ghost<Seq<u8>>,
}

impl View for LoadedFont {
    type V = Seq<u8>;

    closed spec fn view(&self) -> Seq<u8> {
        self.source@
    }
}

impl Clone for LoadedFont {
    /// `fontdue::Font::clone`, a deep copy of the parsed font.
    ///
    /// Trusted: the copy stands for the same font bytes.
    #[verifier::external_body]
    fn clone(&self) -> (r: Self)
        ensures
            r@ == self@,
    {
        LoadedFont { font: self.font.clone(), source: Ghost(self.source@) }
    }
}

/// A glyph coverage mask: `height` rows of `width` coverage bytes (0 = no
/// coverage, 255 = full coverage), top row first, placed `xmin` pixels right
/// of the pen and with its bottom edge `ymin` pixels above the baseline.
pub struct GlyphMask {
    /// Left edge relative to the pen position.
    pub xmin: i32,
    /// Bottom edge relative to the baseline (positive = above).
    pub ymin: i32,
    /// Width in pixels.
    pub width: usize,
    /// Height in pixels.
    pub height: usize,
    /// Row-major coverage, `width * height` bytes.
    pub coverage: Vec<u8>,
}

impl GlyphMask {
    /// The coverage buffer holds exactly one byte per mask pixel.
    pub open spec fn wf(&self) -> bool {
        self.coverage@.len() == self.width * self.height
    }
}

/// A mask as fontdue rasterized it, together with the font bytes, glyph index
/// and pixel size it was drawn from.  Only [`LoadedFont::rasterize_indexed`]
/// makes one.
pub struct DrawnMask {
    mask: GlyphMask,
    origin: Ghost<(Seq<u8>, u16, u32)>,
}

impl DrawnMask {
    /// The mask.
    pub closed spec fn mask(&self) -> GlyphMask {
        self.mask
    }

    /// The mask was rasterized for glyph `glyph` of the font parsed from
    /// `font` at `px` pixels per em.
    pub closed spec fn drawn_from(&self, font: Seq<u8>, glyph: u16, px: u32) -> bool {
        self.origin@ == (font, glyph, px)
    }

    /// Hand out the mask.
    pub fn into_mask(self) -> (r: GlyphMask)
        ensures
            r == self.mask(),
    {
        self.mask
    }
}

/// `fontdue::Font::from_bytes(data, FontSettings::default())`.
///
/// Trusted: the call succeeds exactly on the bytes that `fontdue_parses`
/// names, and the font is remembered together with those bytes.
#[verifier::external_body]
fn fontdue_from_bytes(data: &[u8]) -> (r: Option<LoadedFont>)
    ensures
        r.is_some() == fontdue_parses(data@),
        r matches Some(f) ==> f@ == data@,
{
    match fontdue::Font::from_bytes(data, fontdue::FontSettings::default()) {
        Ok(font) => Some(LoadedFont { font, source: Ghost(data@) }),
        Err(_) => None,
    }
}

impl LoadedFont {
    /// Parse `data` with fontdue's default settings; `None` where fontdue
    /// rejects it.
    pub fn from_bytes(data: &[u8]) -> (r: Option<LoadedFont>)
        ensures
            r.is_some() == fontdue_parses(data@),
            r matches Some(f) ==> f@ == data@,
    {
        fontdue_from_bytes(data)
    }

    /// `fontdue::Font::glyph_count`.
    ///
    /// Trusted: the count is a function of the font's bytes.
    #[verifier::external_body]
    pub(crate) fn glyph_count(&self) -> (r: u16)
        ensures
            r == fontdue_glyph_count(self@),
    {
        self.font.glyph_count()
    }

    /// `fontdue::Font::rasterize_indexed(index, px)` at `px` pixels per em.
    ///
    /// Trusted: fontdue returns a coverage vector of exactly `width * height`
    /// bytes (an empty mask when `px` is 0).  It indexes its glyph table with
    /// `index` whenever `px > 0`, which panics past the glyph count, hence the
    /// precondition.  The result records the font bytes, glyph and size it was
    /// drawn from.  Nothing is claimed about the coverage values or the
    /// placement, which come from floating-point rasterization and may differ
    /// from one machine to another.
    #[verifier::external_body]
    pub(crate) fn rasterize_indexed(&self, index: u16, px: u32) -> (r: DrawnMask)
        requires
            px == 0 || index < fontdue_glyph_count(self@),
        ensures
            r.mask().wf(),
            px == 0 ==> r.mask().width == 0 && r.mask().height == 0,
            r.drawn_from(self@, index, px),
    {
        let (m, coverage) = self.font.rasterize_indexed(index, px as _);
        let mask = GlyphMask { xmin: m.xmin, ymin: m.ymin, width: m.width, height: m.height, coverage };
        DrawnMask { mask, origin: Ghost((self.source@, index, px)) }
    }

    /// The fontdue font that this value holds: the one parsed from `self@`.
    pub closed spec fn held_font(&self) -> fontdue::Font {
        self.font
    }

    /// Hand out the fontdue font.
    pub fn into_fontdue(self) -> (r: fontdue::Font)
        ensures
            r == self.held_font(),
    {
        self.font
    }
}

} // verus!
