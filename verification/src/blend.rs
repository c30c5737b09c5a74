//! Porter-Duff "source over" compositing of straight (non-premultiplied)
//! 8-bit RGBA pixels.
//!
//! With `a_s = sa / 255` and `a_d = da / 255` the composite is
//!
//! ```text
//! a_out = a_s + a_d (1 - a_s)
//! c_out = (c_s a_s + c_d a_d (1 - a_s)) / a_out
//! ```
//!
//! and every channel is scaled back to `0..=255` and rounded half up.  All of
//! it is computed with exact integer arithmetic.

use vstd::prelude::*;

verus! {

/// `n / d` rounded to the nearest integer, halves rounded up (`n >= 0`, `d > 0`).
pub open spec fn round_div(n: int, d: int) -> int {
    (2 * n + d) / (2 * d)
}

/// `255^2 * a_out` for source alpha `sa` over destination alpha `da`.
pub open spec fn over_weight(sa: int, da: int) -> int {
    sa * 255 + da * (255 - sa)
}

/// The composite alpha channel.
pub open spec fn over_alpha(sa: int, da: int) -> int {
    round_div(over_weight(sa, da), 255)
}

/// A composite colour channel: source channel `s` with alpha `sa` over
/// destination channel `d` with alpha `da` (meaningful when the weight is
/// positive, that is unless both alphas are 0).
pub open spec fn over_channel(s: int, d: int, sa: int, da: int) -> int {
    round_div(s * sa * 255 + d * da * (255 - sa), over_weight(sa, da))
}

/// The pixel `(r, g, b, a)` after compositing source `(sr, sg, sb, sa)` over
/// it.  A fully transparent source over a fully transparent pixel leaves the
/// pixel as it was.
pub open spec fn over_pixel(dst: (u8, u8, u8, u8), sr: u8, sg: u8, sb: u8, sa: u8) -> (int, int, int, int) {
    let (dr, dg, db, da) = dst;
    if sa == 0 && da == 0 {
        (dr as int, dg as int, db as int, da as int)
    } else {
        (
            over_channel(sr as int, dr as int, sa as int, da as int),
            over_channel(sg as int, dg as int, sa as int, da as int),
            over_channel(sb as int, db as int, sa as int, da as int),
            over_alpha(sa as int, da as int),
        )
    }
}

proof fn lemma_channel_bounds(s: int, d: int, sa: int, da: int)
    requires
        0 <= s <= 255,
        0 <= d <= 255,
        0 <= sa <= 255,
        0 <= da <= 255,
        !(sa == 0 && da == 0),
    ensures
        0 < over_weight(sa, da) <= 65025,
        0 <= s * sa * 255 + d * da * (255 - sa) <= 255 * over_weight(sa, da),
        0 <= over_channel(s, d, sa, da) <= 255,
{
    assert(0 <= sa * 255) by (nonlinear_arith)
        requires 0 <= sa <= 255;
    assert(0 <= da * (255 - sa) <= 255 * (255 - sa)) by (nonlinear_arith)
        requires 0 <= da <= 255, 0 <= sa <= 255;
    assert(over_weight(sa, da) > 0) by (nonlinear_arith)
        requires 0 <= sa <= 255, 0 <= da <= 255, !(sa == 0 && da == 0),
            over_weight(sa, da) == sa * 255 + da * (255 - sa);
    assert(0 <= s * sa * 255 <= 255 * (sa * 255)) by (nonlinear_arith)
        requires 0 <= s <= 255, 0 <= sa <= 255;
    assert(0 <= d * da * (255 - sa) <= 255 * (da * (255 - sa))) by (nonlinear_arith)
        requires 0 <= d <= 255, 0 <= da <= 255, 0 <= sa <= 255;
    let n = s * sa * 255 + d * da * (255 - sa);
    let w = over_weight(sa, da);
    assert((2 * n + w) / (2 * w) <= 255) by (nonlinear_arith)
        requires 0 <= n <= 255 * w, w > 0;
    assert((2 * n + w) / (2 * w) >= 0) by (nonlinear_arith)
        requires 0 <= n, w > 0;
}

proof fn lemma_alpha_bounds(sa: int, da: int)
    requires
        0 <= sa <= 255,
        0 <= da <= 255,
    ensures
        sa <= over_alpha(sa, da) <= 255,
        da <= over_alpha(sa, da),
{
    let w = over_weight(sa, da);
    assert(255 * sa <= w <= 65025 && 255 * da <= w) by (nonlinear_arith)
        requires 0 <= sa <= 255, 0 <= da <= 255, w == sa * 255 + da * (255 - sa);
    assert(sa <= (2 * w + 255) / 510 <= 255) by (nonlinear_arith)
        requires 0 <= sa, 255 * sa <= w <= 65025;
    assert(da <= (2 * w + 255) / 510) by (nonlinear_arith)
        requires 0 <= da, 255 * da <= w;
}

/// Compositing a fully opaque source replaces the pixel with the source
/// colour at full opacity, whatever the pixel held.
pub proof fn lemma_opaque_source_replaces(dst: (u8, u8, u8, u8), sr: u8, sg: u8, sb: u8)
    ensures
        over_pixel(dst, sr, sg, sb, 255) == (sr as int, sg as int, sb as int, 255int),
{
    let (dr, dg, db, da) = dst;
    assert forall|s: int, d: int| 0 <= s <= 255 && 0 <= d <= 255 implies
        #[trigger] over_channel(s, d, 255, da as int) == s by {
        assert(over_weight(255, da as int) == 65025);
        assert(s * 255 * 255 + d * (da as int) * (255 - 255) == s * 65025) by (nonlinear_arith);
        assert((2 * (s * 65025) + 65025) / 130050int == s) by (nonlinear_arith)
            requires 0 <= s <= 255;
    }
    assert(over_channel(sr as int, dr as int, 255, da as int) == sr);
    assert(over_channel(sg as int, dg as int, 255, da as int) == sg);
    assert(over_channel(sb as int, db as int, 255, da as int) == sb);
    assert(over_weight(255, da as int) == 65025);
    assert((2 * 65025int + 255) / 510int == 255) by (nonlinear_arith);
    assert(over_alpha(255, da as int) == 255);
}

/// Compositing a fully transparent source leaves the pixel unchanged.
pub proof fn lemma_transparent_source_keeps(dst: (u8, u8, u8, u8), sr: u8, sg: u8, sb: u8)
    ensures
        over_pixel(dst, sr, sg, sb, 0) == (dst.0 as int, dst.1 as int, dst.2 as int, dst.3 as int),
{
    let (dr, dg, db, da) = dst;
    if da != 0 {
        let a = da as int;
        assert(over_weight(0, a) == a * 255);
        assert forall|s: int, d: int| 0 <= d <= 255 implies
            #[trigger] over_channel(s, d, 0, a) == d by {
            assert(s * 0 * 255 + d * a * (255 - 0) == d * (a * 255)) by (nonlinear_arith);
            assert((2 * (d * (a * 255)) + a * 255) / (2 * (a * 255)) == d) by (nonlinear_arith)
                requires 0 <= d <= 255, 0 < a <= 255;
        }
        assert(over_channel(sr as int, dr as int, 0, a) == dr);
        assert(over_channel(sg as int, dg as int, 0, a) == dg);
        assert(over_channel(sb as int, db as int, 0, a) == db);
        assert((2 * (a * 255) + 255) / 510 == a) by (nonlinear_arith)
            requires 0 < a <= 255;
    }
}

/// Over a fully transparent pixel the source shows exactly as it is: its
/// colour and its alpha (a fully transparent source leaves the pixel empty).
pub proof fn lemma_over_transparent_shows_source(dr: u8, dg: u8, db: u8, sr: u8, sg: u8, sb: u8, sa: u8)
    ensures
        over_pixel((dr, dg, db, 0u8), sr, sg, sb, sa).3 == sa as int,
        sa > 0 ==> over_pixel((dr, dg, db, 0u8), sr, sg, sb, sa) == (sr as int, sg as int, sb as int, sa as int),
{
    if sa > 0 {
        let a = sa as int;
        assert(over_weight(a, 0) == a * 255);
        assert forall|s: int, d: int| 0 <= s <= 255 implies #[trigger] over_channel(s, d, a, 0) == s by {
            assert(s * a * 255 + d * 0 * (255 - a) == s * (a * 255)) by (nonlinear_arith);
            assert((2 * (s * (a * 255)) + a * 255) / (2 * (a * 255)) == s) by (nonlinear_arith)
                requires 0 <= s <= 255, 0 < a <= 255;
        }
        assert(over_channel(sr as int, dr as int, a, 0) == sr);
        assert(over_channel(sg as int, dg as int, a, 0) == sg);
        assert(over_channel(sb as int, db as int, a, 0) == sb);
        assert((2 * (a * 255) + 255) / 510 == a) by (nonlinear_arith)
            requires 0 < a <= 255;
    }
}

/// "Source over" never makes a pixel more transparent than either input:
/// the composite alpha lies between `max(sa, da)` and 255.
pub proof fn lemma_over_alpha_dominates(dst: (u8, u8, u8, u8), sr: u8, sg: u8, sb: u8, sa: u8)
    ensures
        sa as int <= over_pixel(dst, sr, sg, sb, sa).3 <= 255,
        dst.3 as int <= over_pixel(dst, sr, sg, sb, sa).3,
{
    lemma_alpha_bounds(sa as int, dst.3 as int);
}

/// Every composite channel stays within `0..=255`.
pub proof fn lemma_over_in_range(dst: (u8, u8, u8, u8), sr: u8, sg: u8, sb: u8, sa: u8)
    ensures
        0 <= over_pixel(dst, sr, sg, sb, sa).0 <= 255,
        0 <= over_pixel(dst, sr, sg, sb, sa).1 <= 255,
        0 <= over_pixel(dst, sr, sg, sb, sa).2 <= 255,
        0 <= over_pixel(dst, sr, sg, sb, sa).3 <= 255,
{
    let (dr, dg, db, da) = dst;
    lemma_alpha_bounds(sa as int, da as int);
    if !(sa == 0 && da == 0) {
        lemma_channel_bounds(sr as int, dr as int, sa as int, da as int);
        lemma_channel_bounds(sg as int, dg as int, sa as int, da as int);
        lemma_channel_bounds(sb as int, db as int, sa as int, da as int);
    }
}

/// One composite colour channel, computed exactly.
fn blend_channel(s: u8, d: u8, sa: u8, da: u8) -> (r: u8)
    requires
        !(sa == 0 && da == 0),
    ensures
        r as int == over_channel(s as int, d as int, sa as int, da as int),
{
    proof {
        lemma_channel_bounds(s as int, d as int, sa as int, da as int);
    }
    let s32: u32 = s as u32;
    let d32: u32 = d as u32;
    let sa32: u32 = sa as u32;
    let da32: u32 = da as u32;
    assert(s32 * sa32 <= 65025) by (nonlinear_arith)
        requires s32 <= 255, sa32 <= 255;
    assert(s32 * sa32 * 255 <= 16581375) by (nonlinear_arith)
        requires s32 * sa32 <= 65025;
    assert(d32 * da32 <= 65025) by (nonlinear_arith)
        requires d32 <= 255, da32 <= 255;
    assert(d32 * da32 * (255 - sa32) <= 16581375) by (nonlinear_arith)
        requires d32 * da32 <= 65025, sa32 <= 255;
    assert(da32 * (255 - sa32) <= 65025) by (nonlinear_arith)
        requires da32 <= 255, sa32 <= 255;
    let num: u32 = s32 * sa32 * 255 + d32 * da32 * (255 - sa32);
    let den: u32 = sa32 * 255 + da32 * (255 - sa32);
    let q: u32 = (2 * num + den) / (2 * den);
    q as u8
}

/// The composite alpha channel, computed exactly.
fn blend_alpha(sa: u8, da: u8) -> (r: u8)
    ensures
        r as int == over_alpha(sa as int, da as int),
{
    proof {
        lemma_alpha_bounds(sa as int, da as int);
    }
    let sa32: u32 = sa as u32;
    let da32: u32 = da as u32;
    assert(da32 * (255 - sa32) <= 65025) by (nonlinear_arith)
        requires da32 <= 255, sa32 <= 255;
    let w: u32 = sa32 * 255 + da32 * (255 - sa32);
    let q: u32 = (2 * w + 255) / 510;
    q as u8
}

/// In-place Porter-Duff "source over" composite.
///
/// Blends source `(sr, sg, sb, sa)` over the RGBA pixel `dst[0..4]`; bytes
/// past the fourth are left alone.
pub fn porter_duff_over(dst: &mut [u8], sr: u8, sg: u8, sb: u8, sa: u8)
    requires
        old(dst)@.len() >= 4,
    ensures
        final(dst)@.len() == old(dst)@.len(),
        ({
            let (r, g, b, a) = over_pixel(
                (old(dst)@[0], old(dst)@[1], old(dst)@[2], old(dst)@[3]),
                sr,
                sg,
                sb,
                sa,
            );
            &&& final(dst)@[0] == r
            &&& final(dst)@[1] == g
            &&& final(dst)@[2] == b
            &&& final(dst)@[3] == a
        }),
        forall|i: int| 4 <= i < old(dst)@.len() ==> final(dst)@[i] == old(dst)@[i],
{
    let da: u8 = dst[3];
    if sa == 0 && da == 0 {
        return;
    }
    let r: u8 = blend_channel(sr, dst[0], sa, da);
    let g: u8 = blend_channel(sg, dst[1], sa, da);
    let b: u8 = blend_channel(sb, dst[2], sa, da);
    let a: u8 = blend_alpha(sa, da);
    dst[0] = r;
    dst[1] = g;
    dst[2] = b;
    dst[3] = a;
}

} // verus!
