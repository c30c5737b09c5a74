//! Compositing glyph coverage masks into an RGBA accumulation buffer.
//!
//! A canvas of `width x height` pixels holds straight RGBA bytes, row by row.
//! A glyph is rendered at `height` pixels per em with its baseline 80 % of
//! the way down the canvas; every pixel of the glyph mask that has non-zero
//! coverage and falls inside the canvas is blended "source over" the canvas
//! with the paint colour, its alpha scaled by the coverage.

use vstd::prelude::*;
use crate::blend::{
    lemma_opaque_source_replaces, lemma_over_transparent_shows_source, lemma_transparent_source_keeps,
    over_pixel, porter_duff_over,
};
use crate::font::{fontdue_glyph_count, DrawnMask, GlyphMask, LoadedFont};

verus! {

/// An RGBA colour, 8 bits per channel, straight alpha.
#[derive(Clone, Copy, Debug, PartialEq, Eq, Structural)]
pub struct Rgba {
    pub red: u8,
    pub green: u8,
    pub blue: u8,
    pub alpha: u8,
}

/// What colours a glyph mask is painted with: one colour everywhere, or one
/// colour per mask pixel (row-major, as the coverage).
pub enum MaskFill {
    /// A solid colour.
    Solid(Rgba),
    /// A colour per mask pixel, for gradients.
    PerPixel(Vec<Rgba>),
}

/// An RGBA bitmap produced by compositing colour-glyph layers.
#[derive(Debug, Clone)]
pub struct ColorGlyphBitmap {
    /// Width in pixels.
    pub width: u32,
    /// Height in pixels.
    pub height: u32,
    /// Pixel data in RGBA order: `width * height * 4` bytes.
    pub rgba: Vec<u8>,
}

/// The colour that `fill` gives mask pixel `k`.
pub open spec fn fill_color(fill: MaskFill, k: int) -> Rgba {
    match fill {
        MaskFill::Solid(c) => c,
        MaskFill::PerPixel(v) => v@[k],
    }
}

/// A fill supplies a colour for every pixel of a mask of `n` pixels.
pub open spec fn fill_fits(fill: MaskFill, n: int) -> bool {
    match fill {
        MaskFill::Solid(_) => true,
        MaskFill::PerPixel(v) => v@.len() == n,
    }
}

/// The alpha with which a pixel of coverage `cov` is painted in a colour of
/// alpha `alpha`.
pub open spec fn effective_alpha(cov: u8, alpha: u8) -> u8 {
    ((cov as int * alpha as int) / 255) as u8
}

/// The row of the canvas (`canvas_height` pixels tall) on which the top row
/// of mask `m` lands: the baseline sits at `canvas_height * 4 / 5`.
pub open spec fn mask_top(canvas_height: int, m: GlyphMask) -> int {
    canvas_height * 4 / 5 - m.height - m.ymin
}

/// `(r, c)` comes before `(lr, lc)` in row-major order.
pub open spec fn lex_before(r: int, c: int, lr: int, lc: int) -> bool {
    r < lr || (r == lr && c < lc)
}

/// Channel `ch` of canvas pixel `p` after compositing colour `c` with alpha
/// `a` over it.
pub open spec fn blended_byte(old: Seq<u8>, p: int, ch: int, c: Rgba, a: u8) -> u8 {
    let px = over_pixel((old[4 * p], old[4 * p + 1], old[4 * p + 2], old[4 * p + 3]), c.red, c.green, c.blue, a);
    (if ch == 0 {
        px.0
    } else if ch == 1 {
        px.1
    } else if ch == 2 {
        px.2
    } else {
        px.3
    }) as u8
}

/// Byte `i` of a canvas of `width` x `height` pixels, initially `old`, after
/// the pixels of `m` before mask position `(lr, lc)` (row-major) have been
/// composited with `fill`.
pub open spec fn composite_byte(
    old: Seq<u8>,
    width: int,
    height: int,
    m: GlyphMask,
    fill: MaskFill,
    lr: int,
    lc: int,
    i: int,
) -> u8 {
    let p = i / 4;
    let row = p / width - mask_top(height, m);
    let col = p % width - m.xmin;
    let k = row * m.width + col;
    if 0 <= row < m.height && 0 <= col < m.width && lex_before(row, col, lr, lc)
        && m.coverage@[k] != 0 {
        blended_byte(old, p, i % 4, fill_color(fill, k), effective_alpha(m.coverage@[k], fill_color(fill, k).alpha))
    } else {
        old[i]
    }
}

/// The canvas `old` after compositing all of mask `m` with `fill`.
pub open spec fn composite_spec(old: Seq<u8>, width: int, height: int, m: GlyphMask, fill: MaskFill) -> Seq<u8> {
    Seq::new(old.len(), |i: int| composite_byte(old, width, height, m, fill, m.height as int, 0, i))
}

/// `new` is the canvas `old` (`width` pixels wide, glyphs rendered at
/// `height` pixels per em) after glyph `glyph` of the font parsed from `font`
/// has been rasterized at `height` pixels per em and composited in the solid
/// colour `color`.
pub open spec fn layer_painted(
    old: Seq<u8>,
    new: Seq<u8>,
    width: int,
    height: u32,
    font: Seq<u8>,
    glyph: u16,
    color: Rgba,
) -> bool {
    exists|d: DrawnMask|
        #[trigger] d.drawn_from(font, glyph, height) && {
            let m = d.mask();
            &&& m.wf()
            &&& height == 0 ==> m.width == 0 && m.height == 0
            &&& new == composite_spec(old, width, height as int, m, MaskFill::Solid(color))
        }
}

/// A transparent canvas of `n` bytes.
pub open spec fn transparent(n: int) -> Seq<u8> {
    Seq::new(n as nat, |i: int| 0u8)
}

/// Pixel `p = y * width + x` of a canvas lies in row `y` and column `x`.
proof fn lemma_pixel_coords(p: int, width: int, x: int, y: int)
    requires
        width > 0,
        0 <= x < width,
        p == y * width + x,
    ensures
        p / width == y,
        p % width == x,
{
    vstd::arithmetic::div_mod::lemma_fundamental_div_mod_converse(p, width, y, x);
}

/// Every pixel index decomposes into its row and column.
proof fn lemma_pixel_split(p: int, width: int)
    requires
        width > 0,
        p >= 0,
    ensures
        p == (p / width) * width + p % width,
        0 <= p % width < width,
        p / width >= 0,
{
    vstd::arithmetic::div_mod::lemma_fundamental_div_mod(p, width);
    vstd::arithmetic::div_mod::lemma_mod_pos_bound(p, width);
    vstd::arithmetic::div_mod::lemma_div_pos_is_pos(p, width);
    assert(width * (p / width) == (p / width) * width) by (nonlinear_arith);
}

/// Composite source `(sr, sg, sb, sa)` over the pixel at bytes
/// `idx..idx + 4` of `accum`.
fn blend_pixel_at(accum: &mut Vec<u8>, idx: usize, sr: u8, sg: u8, sb: u8, sa: u8)
    requires
        idx + 4 <= old(accum)@.len(),
    ensures
        final(accum)@.len() == old(accum)@.len(),
        ({
            let px = over_pixel(
                (old(accum)@[idx as int], old(accum)@[idx + 1], old(accum)@[idx + 2], old(accum)@[idx + 3]),
                sr,
                sg,
                sb,
                sa,
            );
            &&& final(accum)@[idx as int] == px.0
            &&& final(accum)@[idx + 1] == px.1
            &&& final(accum)@[idx + 2] == px.2
            &&& final(accum)@[idx + 3] == px.3
        }),
        forall|i: int|
            0 <= i < old(accum)@.len() && !(idx <= i < idx + 4) ==> final(accum)@[i] == old(accum)@[i],
{
    let len: usize = accum.len();
    assert(idx + 3 < len);
    let mut px: [u8; 4] = [accum[idx], accum[idx + 1], accum[idx + 2], accum[idx + 3]];
    porter_duff_over(&mut px, sr, sg, sb, sa);
    accum.set(idx, px[0]);
    accum.set(idx + 1, px[1]);
    accum.set(idx + 2, px[2]);
    accum.set(idx + 3, px[3]);
}

/// Composite `mask` over the canvas `accum` (`width` x `height` RGBA
/// pixels), painting mask pixel `k` with `fill_color(fill, k)`.
pub fn composite_mask(accum: &mut Vec<u8>, width: u32, height: u32, mask: &GlyphMask, fill: &MaskFill)
    requires
        old(accum)@.len() == width * height * 4,
        mask.wf(),
        fill_fits(*fill, mask.width * mask.height),
    ensures
        final(accum)@ == composite_spec(old(accum)@, width as int, height as int, *mask, *fill),
{
    let ghost old_accum = accum@;
    let ghost w = width as int;
    let ghost h = height as int;
    if width == 0 {
        // An empty canvas has no pixel to paint.
        assert(accum@ =~= composite_spec(old_accum, w, h, *mask, *fill));
        return;
    }
    let accum_len: usize = accum.len();
    let coverage_len: usize = mask.coverage.len();
    let top: i128 = (height as i128) * 4 / 5 - (mask.height as i128) - (mask.ymin as i128);
    let mut row: usize = 0;
    while row < mask.height
        invariant
            0 <= row <= mask.height,
            width > 0,
            mask.wf(),
            fill_fits(*fill, mask.width * mask.height),
            top == mask_top(h, *mask),
            w == width,
            h == height,
            old_accum.len() == w * h * 4,
            accum@.len() == old_accum.len(),
            accum_len == old_accum.len(),
            coverage_len == mask.coverage@.len(),
            forall|i: int|
                0 <= i < old_accum.len() ==> #[trigger] accum@[i] == composite_byte(
                    old_accum, w, h, *mask, *fill, row as int, 0, i),
        decreases mask.height - row,
    {
        let mut col: usize = 0;
        while col < mask.width
            invariant
                0 <= row < mask.height,
                0 <= col <= mask.width,
                width > 0,
                mask.wf(),
                fill_fits(*fill, mask.width * mask.height),
                top == mask_top(h, *mask),
                w == width,
                h == height,
                old_accum.len() == w * h * 4,
                accum@.len() == old_accum.len(),
                accum_len == old_accum.len(),
                coverage_len == mask.coverage@.len(),
                forall|i: int|
                    0 <= i < old_accum.len() ==> #[trigger] accum@[i] == composite_byte(
                        old_accum, w, h, *mask, *fill, row as int, col as int, i),
            decreases mask.width - col,
        {
            let dst_x: i128 = (mask.xmin as i128) + (col as i128);
            let dst_y: i128 = top + (row as i128);
            let ghost k = row * mask.width + col;
            assert(0 <= k < mask.width * mask.height) by (nonlinear_arith)
                requires 0 <= row < mask.height, 0 <= col < mask.width, k == row * mask.width + col;
            if dst_x < 0 || dst_y < 0 || dst_x >= width as i128 || dst_y >= height as i128 {
                proof {
                    assert forall|i: int| 0 <= i < old_accum.len() implies
                        #[trigger] accum@[i] == composite_byte(old_accum, w, h, *mask, *fill, row as int, col + 1, i) by {
                        let p = i / 4;
                        lemma_pixel_split(p, w);
                        let prow = p / w - mask_top(h, *mask);
                        let pcol = p % w - mask.xmin;
                        if prow == row && pcol == col {
                            assert(p / w == dst_y && p % w == dst_x);
                            assert(p < w * h) by (nonlinear_arith)
                                requires 0 <= i < w * h * 4, p == i / 4;
                            assert(p / w < h) by (nonlinear_arith)
                                requires p < w * h, p >= 0, w > 0, p == (p / w) * w + p % w, 0 <= p % w < w;
                        }
                    }
                }
            } else {
                assert(row * mask.width <= k) by (nonlinear_arith)
                    requires k == row * mask.width + col, col >= 0;
                assert(k < coverage_len);
                let k_exec: usize = row * mask.width + col;
                let cov: u8 = mask.coverage[k_exec];
                if cov != 0 {
                    let color: Rgba = match fill {
                        MaskFill::Solid(c) => *c,
                        MaskFill::PerPixel(v) => v[k_exec],
                    };
                    assert((cov as u32 * color.alpha as u32) / 255 <= 255) by (nonlinear_arith)
                        requires cov <= 255, color.alpha <= 255;
                    let eff: u8 = ((cov as u32 * color.alpha as u32) / 255) as u8;
                    assert(0 <= dst_y * (width as i128) <= 0xffff_ffff * 0xffff_ffff) by (nonlinear_arith)
                        requires 0 <= dst_y < h, h == height, height <= 0xffff_ffff, width <= 0xffff_ffff;
                    let p_exec: i128 = dst_y * (width as i128) + dst_x;
                    let ghost p = p_exec as int;
                    assert(0 <= p < w * h) by (nonlinear_arith)
                        requires 0 <= dst_x < w, 0 <= dst_y < h, p == dst_y * w + dst_x;
                    assert(p * 4 + 4 <= w * h * 4) by (nonlinear_arith)
                        requires p < w * h;
                    let idx: usize = (p_exec as usize) * 4;
                    let ghost before = accum@;
                    blend_pixel_at(accum, idx, color.red, color.green, color.blue, eff);
                    proof {
                        lemma_pixel_coords(p, w, dst_x as int, dst_y as int);
                        assert forall|i: int| 0 <= i < old_accum.len() implies
                            #[trigger] accum@[i] == composite_byte(old_accum, w, h, *mask, *fill, row as int, col + 1, i) by {
                            let q = i / 4;
                            lemma_pixel_split(q, w);
                            if idx <= i < idx + 4 {
                                assert(q == p);
                                assert(before[i] == old_accum[i]);
                                assert(before[4 * p] == old_accum[4 * p]);
                                assert(before[4 * p + 1] == old_accum[4 * p + 1]);
                                assert(before[4 * p + 2] == old_accum[4 * p + 2]);
                                assert(before[4 * p + 3] == old_accum[4 * p + 3]);
                            } else {
                                let qrow = q / w - mask_top(h, *mask);
                                let qcol = q % w - mask.xmin;
                                if qrow == row && qcol == col {
                                    assert(q == p);
                                }
                                assert(before[i] == composite_byte(old_accum, w, h, *mask, *fill, row as int, col as int, i));
                            }
                        }
                    }
                } else {
                    proof {
                        assert forall|i: int| 0 <= i < old_accum.len() implies
                            #[trigger] accum@[i] == composite_byte(old_accum, w, h, *mask, *fill, row as int, col + 1, i) by {
                            let p = i / 4;
                            lemma_pixel_split(p, w);
                        }
                    }
                }
            }
            col = col + 1;
        }
        proof {
            assert forall|i: int| 0 <= i < old_accum.len() implies
                #[trigger] accum@[i] == composite_byte(old_accum, w, h, *mask, *fill, row + 1, 0, i) by {
                let p = i / 4;
                lemma_pixel_split(p, w);
            }
        }
        row = row + 1;
    }
    assert(accum@ =~= composite_spec(old_accum, w, h, *mask, *fill));
}

/// A mask without coverage anywhere leaves the canvas unchanged.
pub proof fn lemma_blank_mask_keeps_canvas(old: Seq<u8>, width: int, height: int, m: GlyphMask, fill: MaskFill)
    requires
        m.wf(),
        forall|k: int| 0 <= k < m.coverage@.len() ==> m.coverage@[k] == 0,
    ensures
        composite_spec(old, width, height, m, fill) == old,
{
    assert forall|i: int| 0 <= i < old.len() implies
        #[trigger] composite_spec(old, width, height, m, fill)[i] == old[i] by {
        let p = i / 4;
        let row = p / width - mask_top(height, m);
        let col = p % width - m.xmin;
        if 0 <= row < m.height && 0 <= col < m.width {
            assert(0 <= row * m.width + col < m.width * m.height) by (nonlinear_arith)
                requires 0 <= row < m.height, 0 <= col < m.width;
        }
    }
    assert(composite_spec(old, width, height, m, fill) =~= old);
}

/// Painting in a fully transparent colour leaves the canvas unchanged.
pub proof fn lemma_transparent_paint_keeps_canvas(old: Seq<u8>, width: int, height: int, m: GlyphMask, c: Rgba)
    requires
        c.alpha == 0,
        old.len() % 4 == 0,
    ensures
        composite_spec(old, width, height, m, MaskFill::Solid(c)) == old,
{
    assert forall|i: int| 0 <= i < old.len() implies
        #[trigger] composite_spec(old, width, height, m, MaskFill::Solid(c))[i] == old[i] by {
        let p = i / 4;
        assert(4 * p + 3 < old.len());
        let k = (p / width - mask_top(height, m)) * m.width + (p % width - m.xmin);
        assert(effective_alpha(m.coverage@[k], 0) == 0);
        lemma_transparent_source_keeps((old[4 * p], old[4 * p + 1], old[4 * p + 2], old[4 * p + 3]), c.red, c.green, c.blue);
        assert(i == 4 * p + i % 4);
    }
    assert(composite_spec(old, width, height, m, MaskFill::Solid(c)) =~= old);
}

/// Where a mask has full coverage, an opaque colour replaces the canvas
/// pixel: byte `i` of a covered pixel becomes the colour's channel `i % 4`
/// (alpha 255).
pub proof fn lemma_opaque_paint_replaces(
    old: Seq<u8>,
    width: int,
    height: int,
    m: GlyphMask,
    c: Rgba,
    i: int,
)
    requires
        c.alpha == 255,
        0 <= i < old.len(),
        old.len() % 4 == 0,
        0 <= (i / 4) / width - mask_top(height, m) < m.height,
        0 <= (i / 4) % width - m.xmin < m.width,
        m.coverage@[((i / 4) / width - mask_top(height, m)) * m.width + ((i / 4) % width - m.xmin)] == 255,
    ensures
        composite_spec(old, width, height, m, MaskFill::Solid(c))[i] == (if i % 4 == 0 {
            c.red
        } else if i % 4 == 1 {
            c.green
        } else if i % 4 == 2 {
            c.blue
        } else {
            255u8
        }),
{
    let p = i / 4;
    assert(4 * p + 3 < old.len());
    assert(effective_alpha(255, 255) == 255);
    lemma_opaque_source_replaces((old[4 * p], old[4 * p + 1], old[4 * p + 2], old[4 * p + 3]), c.red, c.green, c.blue);
}

/// Painting a solid colour `c` on a transparent canvas: the canvas pixel
/// `(x, y)` under a mask pixel of coverage `cov` gets alpha
/// `cov * c.alpha / 255` (so never more than the colour's alpha, and exactly
/// the colour's alpha under full coverage) and, wherever that alpha is not
/// zero, exactly the colour's red, green and blue.
pub proof fn lemma_solid_paint_on_transparent(
    width: int,
    height: int,
    m: GlyphMask,
    c: Rgba,
    x: int,
    y: int,
)
    requires
        m.wf(),
        0 <= x < width,
        0 <= y < height,
        0 <= y - mask_top(height, m) < m.height,
        0 <= x - m.xmin < m.width,
    ensures
        ({
            let new = composite_spec(transparent(width * height * 4), width, height, m, MaskFill::Solid(c));
            let p = y * width + x;
            let cov = m.coverage@[(y - mask_top(height, m)) * m.width + (x - m.xmin)];
            &&& new[4 * p + 3] == (cov as int * c.alpha as int) / 255
            &&& new[4 * p + 3] <= c.alpha
            &&& cov == 255 ==> new[4 * p + 3] == c.alpha
            &&& new[4 * p + 3] > 0 ==> new[4 * p] == c.red && new[4 * p + 1] == c.green && new[4 * p + 2] == c.blue
        }),
{
    let old = transparent(width * height * 4);
    let p = y * width + x;
    let row = y - mask_top(height, m);
    let col = x - m.xmin;
    let k = row * m.width + col;
    let cov = m.coverage@[k];
    lemma_pixel_coords(p, width, x, y);
    assert(0 <= k < m.width * m.height) by (nonlinear_arith)
        requires 0 <= row < m.height, 0 <= col < m.width, k == row * m.width + col;
    assert(0 <= p < width * height) by (nonlinear_arith)
        requires 0 <= x < width, 0 <= y < height, p == y * width + x;
    assert(4 * p + 3 < width * height * 4);
    assert((cov as int * c.alpha as int) / 255 <= c.alpha) by (nonlinear_arith)
        requires 0 <= cov <= 255, 0 <= c.alpha <= 255;
    assert((255 * c.alpha as int) / 255 == c.alpha) by (nonlinear_arith);
    let eff = effective_alpha(cov, c.alpha);
    assert(eff == (cov as int * c.alpha as int) / 255);
    lemma_over_transparent_shows_source(0, 0, 0, c.red, c.green, c.blue, eff);
    let fill = MaskFill::Solid(c);
    let new = composite_spec(old, width, height, m, fill);
    assert((4 * p) / 4 == p && (4 * p) % 4 == 0);
    assert((4 * p + 1) / 4 == p && (4 * p + 1) % 4 == 1);
    assert((4 * p + 2) / 4 == p && (4 * p + 2) % 4 == 2);
    assert((4 * p + 3) / 4 == p && (4 * p + 3) % 4 == 3);
    assert(old[4 * p] == 0 && old[4 * p + 1] == 0 && old[4 * p + 2] == 0 && old[4 * p + 3] == 0);
    assert(new[4 * p] == composite_byte(old, width, height, m, fill, m.height as int, 0, 4 * p));
    assert(new[4 * p + 1] == composite_byte(old, width, height, m, fill, m.height as int, 0, 4 * p + 1));
    assert(new[4 * p + 2] == composite_byte(old, width, height, m, fill, m.height as int, 0, 4 * p + 2));
    assert(new[4 * p + 3] == composite_byte(old, width, height, m, fill, m.height as int, 0, 4 * p + 3));
    if cov == 0 {
        assert((0 * c.alpha as int) / 255 == 0);
    }
}

/// A per-pixel fill that gives every mask pixel the same colour `c`
/// composites exactly like the solid fill `c`.
pub proof fn lemma_uniform_fill_is_solid(old: Seq<u8>, width: int, height: int, m: GlyphMask, v: Vec<Rgba>, c: Rgba)
    requires
        m.wf(),
        v@.len() == m.width * m.height,
        forall|k: int| 0 <= k < v@.len() ==> v@[k] == c,
    ensures
        composite_spec(old, width, height, m, MaskFill::PerPixel(v)) == composite_spec(
            old,
            width,
            height,
            m,
            MaskFill::Solid(c),
        ),
{
    assert forall|i: int| 0 <= i < old.len() implies
        #[trigger] composite_spec(old, width, height, m, MaskFill::PerPixel(v))[i]
            == composite_spec(old, width, height, m, MaskFill::Solid(c))[i] by {
        let p = i / 4;
        let row = p / width - mask_top(height, m);
        let col = p % width - m.xmin;
        if 0 <= row < m.height && 0 <= col < m.width {
            assert(0 <= row * m.width + col < m.width * m.height) by (nonlinear_arith)
                requires 0 <= row < m.height, 0 <= col < m.width;
        }
    }
    assert(composite_spec(old, width, height, m, MaskFill::PerPixel(v)) =~= composite_spec(
        old,
        width,
        height,
        m,
        MaskFill::Solid(c),
    ));
}

/// A transparent RGBA canvas of `width x height` pixels on which glyphs of
/// one font are composited, rendered at `height` pixels per em.
pub struct GlyphCanvas<'a> {
    font: &'a LoadedFont,
    width: u32,
    height: u32,
    accum: Vec<u8>,
}

impl<'a> GlyphCanvas<'a> {
    /// The canvas bytes, RGBA row by row.
    pub closed spec fn pixels(&self) -> Seq<u8> {
        self.accum@
    }

    /// Canvas width in pixels.
    pub closed spec fn spec_width(&self) -> u32 {
        self.width
    }

    /// Canvas height in pixels (and the size at which glyphs are rendered).
    pub closed spec fn spec_height(&self) -> u32 {
        self.height
    }

    /// The font whose glyphs are composited.
    pub closed spec fn spec_font(&self) -> Seq<u8> {
        self.font@
    }

    /// The canvas holds four bytes per pixel.
    pub closed spec fn wf(&self) -> bool {
        self.accum@.len() == self.width * self.height * 4
    }

    /// Whether rasterizing `glyph` at the canvas size is defined: at size 0
    /// nothing is rasterized, otherwise the glyph must exist in the font.
    pub open spec fn spec_can_rasterize(&self, glyph: u16) -> bool {
        self.spec_height() == 0 || glyph < fontdue_glyph_count(self.spec_font())
    }

    /// A transparent canvas; `width * height * 4` must fit in a `u32`.
    pub fn new(font: &'a LoadedFont, width: u32, height: u32) -> (r: Self)
        requires
            width * height * 4 <= u32::MAX,
        ensures
            r.wf(),
            r.spec_width() == width,
            r.spec_height() == height,
            r.spec_font() == font@,
            r.pixels() == transparent(width * height * 4),
    {
        assert(width * height <= u32::MAX) by (nonlinear_arith)
            requires width * height * 4 <= u32::MAX;
        let n: u32 = width * height * 4;
        let accum: Vec<u8> = vec![0u8; n as usize];
        let r = GlyphCanvas { font, width, height, accum };
        assert(r.accum@ =~= transparent(width * height * 4));
        r
    }

    /// Whether `glyph` can be rasterized at the canvas size.
    pub fn can_rasterize(&self, glyph: u16) -> (r: bool)
        ensures
            r == self.spec_can_rasterize(glyph),
    {
        self.height == 0 || glyph < self.font.glyph_count()
    }

    /// Where mask pixel `(0, 0)` lands on the canvas: `(x, y)` of the mask's
    /// top-left corner, with the baseline at `height * 4 / 5`.
    pub fn mask_origin(&self, mask: &GlyphMask) -> (r: (i128, i128))
        ensures
            r.0 == mask.xmin,
            r.1 == mask_top(self.spec_height() as int, *mask),
    {
        let top: i128 = (self.height as i128) * 4 / 5 - (mask.height as i128) - (mask.ymin as i128);
        (mask.xmin as i128, top)
    }

    /// The coverage mask of `glyph` at `height` pixels per em.
    pub fn rasterize(&self, glyph: u16) -> (r: DrawnMask)
        requires
            self.spec_can_rasterize(glyph),
        ensures
            r.mask().wf(),
            r.drawn_from(self.spec_font(), glyph, self.spec_height()),
            self.spec_height() == 0 ==> r.mask().width == 0 && r.mask().height == 0,
    {
        self.font.rasterize_indexed(glyph, self.height)
    }

    /// Composite `mask` with `fill` over the canvas.
    pub fn composite(&mut self, mask: &GlyphMask, fill: &MaskFill)
        requires
            old(self).wf(),
            mask.wf(),
            fill_fits(*fill, mask.width * mask.height),
        ensures
            final(self).wf(),
            final(self).spec_width() == old(self).spec_width(),
            final(self).spec_height() == old(self).spec_height(),
            final(self).spec_font() == old(self).spec_font(),
            final(self).pixels() == composite_spec(
                old(self).pixels(),
                old(self).spec_width() as int,
                old(self).spec_height() as int,
                *mask,
                *fill,
            ),
    {
        composite_mask(&mut self.accum, self.width, self.height, mask, fill);
    }

    /// Rasterize `glyph` at the canvas size and composite it "source over"
    /// in the solid colour `color`.
    pub fn composite_layer(&mut self, glyph: u16, color: Rgba)
        requires
            old(self).wf(),
            old(self).spec_can_rasterize(glyph),
        ensures
            final(self).wf(),
            final(self).spec_width() == old(self).spec_width(),
            final(self).spec_height() == old(self).spec_height(),
            final(self).spec_font() == old(self).spec_font(),
            layer_painted(
                old(self).pixels(),
                final(self).pixels(),
                old(self).spec_width() as int,
                old(self).spec_height(),
                old(self).spec_font(),
                glyph,
                color,
            ),
    {
        let drawn = self.rasterize(glyph);
        let ghost d = drawn;
        let mask = drawn.into_mask();
        let fill = MaskFill::Solid(color);
        self.composite(&mask, &fill);
        assert(d.drawn_from(old(self).spec_font(), glyph, old(self).spec_height()));
    }

    /// The finished bitmap.
    pub fn into_bitmap(self) -> (r: ColorGlyphBitmap)
        ensures
            r.width == self.spec_width(),
            r.height == self.spec_height(),
            r.rgba@ == self.pixels(),
            self.wf() ==> r.rgba@.len() == r.width * r.height * 4,
    {
        ColorGlyphBitmap { width: self.width, height: self.height, rgba: self.accum }
    }
}

} // verus!
