//! COLR colour-glyph painting.
//!
//! The COLR table of a font is walked by its parser, which reports a stream of
//! painting events: "outline glyph `g`" followed by "paint the stored outline".
//! [`ColrV0Painter`] is the state machine that consumes that stream for
//! COLRv0 glyphs: each solid paint composites the pending layer glyph, in the
//! layer's colour, onto the canvas; gradient paints (a COLRv1 feature) are
//! ignored and a paint without a pending outline draws nothing.
//! [`ColrV1Painter`] does the same for COLRv1 glyphs and also composites
//! gradients, whose colour at each mask pixel its caller supplies.

use vstd::prelude::*;
use crate::canvas::{
    composite_spec, layer_painted, mask_top, transparent, ColorGlyphBitmap, GlyphCanvas, MaskFill, Rgba,
};
use crate::detect::{render_cbdt_glyph, spec_embedded_bitmap};
use crate::face::{face_colr_has_glyph, face_parses, parse_face};
use crate::font::{fontdue_parses, DrawnMask, GlyphMask, LoadedFont};

verus! {

/// The paint that a COLR walk applies to the stored outline.
#[derive(Clone, Copy, Debug, PartialEq, Eq, Structural)]
pub enum PaintKind {
    /// A solid colour (a palette entry, or the foreground colour).
    Solid(Rgba),
    /// A linear, radial or sweep gradient.
    Gradient,
}

/// Painter state for compositing COLRv0 layers.
pub struct ColrV0Painter<'a> {
    canvas: GlyphCanvas<'a>,
    /// Glyph stored by `outline_glyph`, consumed by the next `paint`.
    pending_glyph: Option<u16>,
}

impl<'a> ColrV0Painter<'a> {
    /// The canvas being painted.
    pub closed spec fn spec_canvas(&self) -> GlyphCanvas<'a> {
        self.canvas
    }

    /// The glyph waiting for its paint, if any.
    pub closed spec fn spec_pending(&self) -> Option<u16> {
        self.pending_glyph
    }

    /// The painter's canvas is well formed.
    pub open spec fn wf(&self) -> bool {
        self.spec_canvas().wf()
    }

    /// Whether `paint` may be applied next: a solid paint rasterizes the
    /// pending glyph, which must then exist in the font.
    pub open spec fn spec_paint_ok(&self, paint: PaintKind) -> bool {
        match (self.spec_pending(), paint) {
            (Some(g), PaintKind::Solid(_)) => self.spec_canvas().spec_can_rasterize(g),
            _ => true,
        }
    }

    /// A painter over a transparent `width x height` canvas, rendering at
    /// `height` pixels per em with `font`.
    pub fn new(font: &'a LoadedFont, width: u32, height: u32) -> (r: Self)
        requires
            width * height * 4 <= u32::MAX,
        ensures
            r.wf(),
            r.spec_pending() is None,
            r.spec_canvas().spec_width() == width,
            r.spec_canvas().spec_height() == height,
            r.spec_canvas().spec_font() == font@,
            r.spec_canvas().pixels() == transparent(width * height * 4),
    {
        ColrV0Painter { canvas: GlyphCanvas::new(font, width, height), pending_glyph: None }
    }

    /// Store the outline of `glyph_id` for the next paint.
    pub fn outline_glyph(&mut self, glyph_id: u16)
        ensures
            final(self).spec_pending() == Some(glyph_id),
            final(self).spec_canvas() == old(self).spec_canvas(),
    {
        self.pending_glyph = Some(glyph_id);
    }

    /// Whether `paint` may be applied next (see [`Self::spec_paint_ok`]).
    pub fn paint_ok(&self, paint: &PaintKind) -> (r: bool)
        ensures
            r == self.spec_paint_ok(*paint),
    {
        match (self.pending_glyph, paint) {
            (Some(g), PaintKind::Solid(_)) => self.canvas.can_rasterize(g),
            _ => true,
        }
    }

    /// `after` is `before` once `paint` has been applied: the pending glyph
    /// is consumed; a solid paint of a pending glyph composites that glyph,
    /// rasterized at the canvas height, in the paint's colour; anything else
    /// leaves the canvas as it was.
    pub open spec fn spec_painted(before: Self, paint: PaintKind, after: Self) -> bool {
        let (b, a) = (before.spec_canvas(), after.spec_canvas());
        &&& after.wf()
        &&& after.spec_pending() is None
        &&& a.spec_width() == b.spec_width()
        &&& a.spec_height() == b.spec_height()
        &&& a.spec_font() == b.spec_font()
        &&& match (before.spec_pending(), paint) {
            (Some(g), PaintKind::Solid(c)) => layer_painted(
                b.pixels(),
                a.pixels(),
                b.spec_width() as int,
                b.spec_height(),
                b.spec_font(),
                g,
                c,
            ),
            _ => a.pixels() == b.pixels(),
        }
    }

    /// Paint the stored outline.  A solid paint composites the pending glyph
    /// in its colour; a gradient, or a paint with no pending glyph, leaves the
    /// canvas as it was.  Either way the pending glyph is consumed.
    pub fn paint(&mut self, paint: &PaintKind)
        requires
            old(self).wf(),
            old(self).spec_paint_ok(*paint),
        ensures
            Self::spec_painted(*old(self), *paint, *final(self)),
    {
        let pending = self.pending_glyph;
        self.pending_glyph = None;
        if let Some(gid) = pending {
            if let PaintKind::Solid(color) = paint {
                self.canvas.composite_layer(gid, *color);
            }
        }
    }

    /// Apply `paint` if it may be applied (see [`Self::spec_paint_ok`]) and
    /// return `true`; otherwise return `false` and leave the painter as it
    /// was.
    pub fn try_paint(&mut self, paint: &PaintKind) -> (r: bool)
        requires
            old(self).wf(),
        ensures
            r == old(self).spec_paint_ok(*paint),
            r ==> Self::spec_painted(*old(self), *paint, *final(self)),
            !r ==> *final(self) == *old(self),
    {
        if self.paint_ok(paint) {
            self.paint(paint);
            true
        } else {
            false
        }
    }

    /// The composited bitmap: `width x height` pixels, `width * height * 4`
    /// RGBA bytes.
    pub fn finish(self) -> (r: ColorGlyphBitmap)
        requires
            self.wf(),
        ensures
            r.width == self.spec_canvas().spec_width(),
            r.height == self.spec_canvas().spec_height(),
            r.rgba@ == self.spec_canvas().pixels(),
            r.rgba@.len() == r.width * r.height * 4,
    {
        self.canvas.into_bitmap()
    }
}

/// Painter state for COLRv1 glyphs: solid paints composite the pending
/// glyph like COLRv0 layers; a gradient paint rasterizes the pending glyph
/// ([`Self::begin_gradient`]), lets the caller colour each mask pixel, and
/// composites the result ([`Self::composite_gradient`]).
pub struct ColrV1Painter<'a> {
    canvas: GlyphCanvas<'a>,
    /// Glyph stored by `outline_glyph`, consumed by the next paint.
    pending_glyph: Option<u16>,
}

impl<'a> ColrV1Painter<'a> {
    /// The canvas being painted.
    pub closed spec fn spec_canvas(&self) -> GlyphCanvas<'a> {
        self.canvas
    }

    /// The glyph waiting for its paint, if any.
    pub closed spec fn spec_pending(&self) -> Option<u16> {
        self.pending_glyph
    }

    /// The painter's canvas is well formed.
    pub open spec fn wf(&self) -> bool {
        self.spec_canvas().wf()
    }

    /// Whether the next paint may rasterize the pending glyph.
    pub open spec fn spec_pending_ok(&self) -> bool {
        match self.spec_pending() {
            Some(g) => self.spec_canvas().spec_can_rasterize(g),
            None => true,
        }
    }

    /// A painter over a transparent `width x height` canvas, rendering at
    /// `height` pixels per em with `font`.
    pub fn new(font: &'a LoadedFont, width: u32, height: u32) -> (r: Self)
        requires
            width * height * 4 <= u32::MAX,
        ensures
            r.wf(),
            r.spec_pending() is None,
            r.spec_canvas().spec_width() == width,
            r.spec_canvas().spec_height() == height,
            r.spec_canvas().spec_font() == font@,
            r.spec_canvas().pixels() == transparent(width * height * 4),
    {
        ColrV1Painter { canvas: GlyphCanvas::new(font, width, height), pending_glyph: None }
    }

    /// Store the outline of `glyph_id` for the next paint.
    pub fn outline_glyph(&mut self, glyph_id: u16)
        ensures
            final(self).spec_pending() == Some(glyph_id),
            final(self).spec_canvas() == old(self).spec_canvas(),
    {
        self.pending_glyph = Some(glyph_id);
    }

    /// Whether the next paint may rasterize the pending glyph.
    pub fn pending_ok(&self) -> (r: bool)
        ensures
            r == self.spec_pending_ok(),
    {
        match self.pending_glyph {
            Some(g) => self.canvas.can_rasterize(g),
            None => true,
        }
    }

    /// `after` is `before` once the pending glyph has been painted in the
    /// solid colour `color`: the pending glyph is consumed and, if there was
    /// one, composited, rasterized at the canvas height, in `color`; without
    /// one the canvas is as it was.
    pub open spec fn spec_painted_solid(before: Self, color: Rgba, after: Self) -> bool {
        let (b, a) = (before.spec_canvas(), after.spec_canvas());
        &&& after.wf()
        &&& after.spec_pending() is None
        &&& a.spec_width() == b.spec_width()
        &&& a.spec_height() == b.spec_height()
        &&& a.spec_font() == b.spec_font()
        &&& match before.spec_pending() {
            Some(g) => layer_painted(
                b.pixels(),
                a.pixels(),
                b.spec_width() as int,
                b.spec_height(),
                b.spec_font(),
                g,
                color,
            ),
            None => a.pixels() == b.pixels(),
        }
    }

    /// Paint the pending glyph in a solid colour (nothing without a pending
    /// glyph); the pending glyph is consumed.
    pub fn paint_solid(&mut self, color: Rgba)
        requires
            old(self).wf(),
            old(self).spec_pending_ok(),
        ensures
            Self::spec_painted_solid(*old(self), color, *final(self)),
    {
        let pending = self.pending_glyph;
        self.pending_glyph = None;
        if let Some(gid) = pending {
            self.canvas.composite_layer(gid, color);
        }
    }

    /// Paint the pending glyph in `color` if it may be rasterized (see
    /// [`Self::spec_pending_ok`]) and return `true`; otherwise return `false`
    /// and leave the painter as it was.
    pub fn try_paint_solid(&mut self, color: Rgba) -> (r: bool)
        requires
            old(self).wf(),
        ensures
            r == old(self).spec_pending_ok(),
            r ==> Self::spec_painted_solid(*old(self), color, *final(self)),
            !r ==> *final(self) == *old(self),
    {
        if self.pending_ok() {
            self.paint_solid(color);
            true
        } else {
            false
        }
    }

    /// Start a gradient paint: consume the pending glyph and rasterize it at
    /// the canvas height.  `None` when there is nothing to paint: no pending
    /// glyph, or a mask without pixels; otherwise that mask.
    pub fn begin_gradient(&mut self) -> (r: Option<GlyphMask>)
        requires
            old(self).wf(),
            old(self).spec_pending_ok(),
        ensures
            final(self).wf(),
            final(self).spec_pending() is None,
            final(self).spec_canvas() == old(self).spec_canvas(),
            match old(self).spec_pending() {
                None => r is None,
                Some(g) => exists|d: DrawnMask|
                    #[trigger] d.drawn_from(
                        old(self).spec_canvas().spec_font(),
                        g,
                        old(self).spec_canvas().spec_height(),
                    ) && d.mask().wf() && if d.mask().width == 0 || d.mask().height == 0 {
                        r is None
                    } else {
                        r == Some(d.mask())
                    },
            },
    {
        let pending = self.pending_glyph;
        self.pending_glyph = None;
        match pending {
            Some(gid) => {
                let drawn = self.canvas.rasterize(gid);
                let ghost d = drawn;
                let mask = drawn.into_mask();
                assert(d.drawn_from(self.canvas.spec_font(), gid, self.canvas.spec_height()));
                if mask.width == 0 || mask.height == 0 {
                    None
                } else {
                    Some(mask)
                }
            },
            None => None,
        }
    }

    /// Where pixel `(0, 0)` of `mask` lands on the canvas.
    pub fn mask_origin(&self, mask: &GlyphMask) -> (r: (i128, i128))
        ensures
            r.0 == mask.xmin,
            r.1 == mask_top(self.spec_canvas().spec_height() as int, *mask),
    {
        self.canvas.mask_origin(mask)
    }

    /// Finish a gradient paint: composite `mask`, mask pixel `k` coloured
    /// `colors[k]`.
    pub fn composite_gradient(&mut self, mask: &GlyphMask, colors: Vec<Rgba>)
        requires
            old(self).wf(),
            mask.wf(),
            colors@.len() == mask.width * mask.height,
        ensures
            final(self).wf(),
            final(self).spec_pending() == old(self).spec_pending(),
            final(self).spec_canvas().spec_width() == old(self).spec_canvas().spec_width(),
            final(self).spec_canvas().spec_height() == old(self).spec_canvas().spec_height(),
            final(self).spec_canvas().spec_font() == old(self).spec_canvas().spec_font(),
            final(self).spec_canvas().pixels() == composite_spec(
                old(self).spec_canvas().pixels(),
                old(self).spec_canvas().spec_width() as int,
                old(self).spec_canvas().spec_height() as int,
                *mask,
                MaskFill::PerPixel(colors),
            ),
    {
        let fill = MaskFill::PerPixel(colors);
        self.canvas.composite(mask, &fill);
    }

    /// The composited bitmap: `width x height` pixels, `width * height * 4`
    /// RGBA bytes.
    pub fn finish(self) -> (r: ColorGlyphBitmap)
        requires
            self.wf(),
        ensures
            r.width == self.spec_canvas().spec_width(),
            r.height == self.spec_canvas().spec_height(),
            r.rgba@ == self.spec_canvas().pixels(),
            r.rgba@.len() == r.width * r.height * 4,
    {
        self.canvas.into_bitmap()
    }
}

/// A solid COLRv1 paint composites like a COLRv0 layer: from the same canvas
/// and pending glyph, both painters consume the glyph and leave canvases of
/// the same size and font, each the old canvas with that glyph, rasterized at
/// the canvas height, composited in the paint's colour (or, without a pending
/// glyph, both leave the canvas as it was).
pub proof fn lemma_solid_paints_agree<'a>(
    p0: ColrV0Painter<'a>,
    q0: ColrV0Painter<'a>,
    p1: ColrV1Painter<'a>,
    q1: ColrV1Painter<'a>,
    color: Rgba,
)
    requires
        p0.spec_canvas() == p1.spec_canvas(),
        p0.spec_pending() == p1.spec_pending(),
        ColrV0Painter::spec_painted(p0, PaintKind::Solid(color), q0),
        ColrV1Painter::spec_painted_solid(p1, color, q1),
    ensures
        q0.spec_pending() == q1.spec_pending(),
        q0.spec_canvas().spec_width() == q1.spec_canvas().spec_width(),
        q0.spec_canvas().spec_height() == q1.spec_canvas().spec_height(),
        q0.spec_canvas().spec_font() == q1.spec_canvas().spec_font(),
        ({
            let c = p0.spec_canvas();
            match p0.spec_pending() {
                Some(g) => {
                    &&& layer_painted(c.pixels(), q0.spec_canvas().pixels(), c.spec_width() as int, c.spec_height(), c.spec_font(), g, color)
                    &&& layer_painted(c.pixels(), q1.spec_canvas().pixels(), c.spec_width() as int, c.spec_height(), c.spec_font(), g, color)
                },
                None => q0.spec_canvas().pixels() == q1.spec_canvas().pixels(),
            }
        }),
{
}

/// Prepare to paint COLR glyph `base_glyph` of the font `face_data`: the
/// font, parsed by fontdue for rasterizing the layers, if the face parses,
/// its COLR table defines the glyph and fontdue accepts the font; `None`
/// otherwise.
pub fn colr_glyph_font(face_data: &[u8], base_glyph: u16) -> (r: Option<LoadedFont>)
    ensures
        r.is_some() == (face_parses(face_data@) && face_colr_has_glyph(face_data@, base_glyph)
            && fontdue_parses(face_data@)),
        r matches Some(f) ==> f@ == face_data@,
{
    let face = match parse_face(face_data) {
        Some(f) => f,
        None => return None,
    };
    if !face.colr_contains(base_glyph) {
        return None;
    }
    LoadedFont::from_bytes(face_data)
}

/// The pixels-per-em at which embedded bitmaps are looked up for a glyph
/// rendered `height` pixels tall: `height`, saturated to `u16::MAX`.
pub open spec fn spec_bitmap_ppem(height: u32) -> u16 {
    if height <= u16::MAX {
        height as u16
    } else {
        u16::MAX
    }
}

/// `u16::try_from(height).unwrap_or(u16::MAX)`.
pub fn bitmap_ppem(height: u32) -> (r: u16)
    ensures
        r == spec_bitmap_ppem(height),
{
    if height <= 0xffff {
        height as u16
    } else {
        0xffff
    }
}

/// Render the best available colour representation of a glyph.
///
/// Priority order: an embedded PNG bitmap (CBDT/CBLC or sbix) at the strike
/// closest to `height` pixels per em, decoded to RGBA; otherwise whatever
/// `colr` returns: the glyph as painted from the font's COLR table (`None`
/// where the glyph has no COLR data or the font cannot be parsed).  `colr`
/// is only called when there is no embedded bitmap.
pub fn render_color_glyph<F: FnOnce() -> Option<ColorGlyphBitmap>>(
    face_data: &[u8],
    glyph_id: u16,
    height: u32,
    colr: F,
) -> (r: Option<ColorGlyphBitmap>)
    requires
        colr.requires(()),
    ensures
        match spec_embedded_bitmap(face_data@, glyph_id, spec_bitmap_ppem(height)) {
            Some((w, h, rgba)) => r matches Some(b) && b.width == w && b.height == h && b.rgba@ == rgba,
            None => colr.ensures((), r),
        },
{
    let ppem = bitmap_ppem(height);
    match render_cbdt_glyph(face_data, glyph_id, ppem) {
        Some(bitmap) => Some(bitmap),
        None => colr(),
    }
}

} // verus!
