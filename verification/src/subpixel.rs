//! Subpixel pen-positioning support.
//!
//! A fractional X (or Y) pen position is quantised into one of a small number
//! of evenly spaced buckets; [`SubpixelCacheKey`] adds that bucket to the usual
//! `(glyph_id, size)` key so that glyphs rasterized at different subpixel
//! origins are stored separately.
//!
//! The floating-point front ends (`from_float`, `as_float`, ...) stand beside
//! the application code; this module holds the integer stage that every one
//! of them ends in.

use vstd::prelude::*;

verus! {

/// Quantised fractional pen position: a bucket index in `0..16`.
///
/// With the default quarter-pixel resolution ([`SubpixelOffset::N`] buckets)
/// the index is in `0..4` and stands for 0.00, 0.25, 0.50 or 0.75 px.
#[derive(Clone, Copy, Debug, PartialEq, Eq, Structural, Hash)]
pub struct SubpixelOffset(u8);

/// Euclidean remainder of `a` by a positive `n`.
pub open spec fn euclid_mod(a: int, n: int) -> int {
    a % n
}

impl SubpixelOffset {
    /// Number of buckets of the default (quarter-pixel) resolution.
    pub const N: u8 = 4;

    /// The bucket index as a mathematical integer.
    pub closed spec fn index(self) -> int {
        self.0 as int
    }

    /// Every offset that the constructors produce has an index below 16.
    pub closed spec fn wf(self) -> bool {
        self.0 < 16
    }

    /// Build an offset from `floor(fract(frac) * N)`, the quantised fractional
    /// part of a pen position.
    ///
    /// `fract` keeps the sign of its argument, so the quantised value may be
    /// negative; it is taken modulo `N` (Euclidean), which maps a position of
    /// `-0.25` px to bucket 3, as `-0.25 = -1 + 0.75`.
    pub fn from_quantized(quantized: i32) -> (r: Self)
        ensures
            r.index() == euclid_mod(quantized as int, Self::N as int),
            r.index() < Self::N,
            r.wf(),
    {
        let n: i32 = Self::N as i32;
        let mut b: i32 = quantized % n;
        if b < 0 {
            b = b + n;
        }
        let bucket: u8 = b as u8;
        let top: u8 = Self::N - 1;
        let clamped: u8 = if bucket < top { bucket } else { top };
        SubpixelOffset(clamped)
    }

    /// Build an offset from `round(frac.rem_euclid(1.0) * count)`, reduced
    /// modulo the bucket count of `buckets` (so that a fraction that rounds up
    /// to a whole pixel wraps to bucket 0).
    pub fn from_rounded(rounded: u32, buckets: SubpixelBuckets) -> (r: Self)
        ensures
            r.index() == rounded as int % buckets.spec_count() as int,
            r.index() < buckets.spec_count(),
            r.wf(),
    {
        let n: u32 = buckets.count();
        let idx: u32 = rounded % n;
        SubpixelOffset(idx as u8)
    }

    /// Returns the raw bucket index (`0 <= index < N` for the default
    /// resolution).
    #[inline]
    pub fn bucket(self) -> (r: u8)
        ensures
            r as int == self.index(),
    {
        self.0
    }
}

/// Shifting a quantised pen position by a whole pixel (`N` buckets) does
/// not change its bucket, so only the fractional part of a position counts.
pub proof fn lemma_whole_pixel_shift_keeps_bucket(quantized: int)
    ensures
        euclid_mod(quantized + SubpixelOffset::N, SubpixelOffset::N as int) == euclid_mod(
            quantized,
            SubpixelOffset::N as int,
        ),
{
    vstd::arithmetic::div_mod::lemma_mod_add_multiples_vanish(quantized, 4);
}

impl Default for SubpixelOffset {
    /// Bucket 0: no fractional offset.
    fn default() -> (r: Self)
        ensures
            r.index() == 0,
    {
        SubpixelOffset(0)
    }
}

/// A cache key for rasterised glyphs that incorporates subpixel positioning.
///
/// Including the fractional pen position in the key ensures that glyphs
/// rasterized at different subpixel origins produce distinct entries.
#[derive(Clone, Copy, Debug, PartialEq, Eq, Structural, Hash)]
pub struct SubpixelCacheKey {
    /// Glyph ID within the font.
    pub glyph_id: u16,
    /// Pixel size multiplied by 64 (fixed point), so that keys compare as
    /// integers while keeping sub-pixel size differences.
    pub px_size_times_64: u32,
    /// Quantised fractional X offset bucket.
    pub subpixel: SubpixelOffset,
}

/// Configurable bucket count for subpixel pen-position quantization.
///
/// The default is [`SubpixelBuckets::Four`] (quarter-pixel), which matches
/// [`SubpixelOffset::N`].
#[derive(Debug, Clone, Copy, PartialEq, Eq, Structural)]
pub enum SubpixelBuckets {
    /// Quarter-pixel precision: 4 buckets (0.00, 0.25, 0.50, 0.75).
    Four,
    /// Eighth-pixel precision: 8 buckets.
    Eight,
    /// Sixteenth-pixel precision: 16 buckets.
    Sixteen,
}

impl SubpixelBuckets {
    /// The bucket count of each variant.
    pub open spec fn spec_count(self) -> nat {
        match self {
            SubpixelBuckets::Four => 4,
            SubpixelBuckets::Eight => 8,
            SubpixelBuckets::Sixteen => 16,
        }
    }

    /// The integer bucket count corresponding to this variant.
    pub fn count(self) -> (r: u32)
        ensures
            r == self.spec_count(),
    {
        match self {
            SubpixelBuckets::Four => 4,
            SubpixelBuckets::Eight => 8,
            SubpixelBuckets::Sixteen => 16,
        }
    }
}

impl Default for SubpixelBuckets {
    /// Quarter-pixel precision.
    fn default() -> (r: Self)
        ensures
            r == SubpixelBuckets::Four,
    {
        SubpixelBuckets::Four
    }
}

/// A 2-D subpixel pen position combining independent X and Y fractional
/// offsets (for example for vertical CJK text).
#[derive(Debug, Clone, Copy, PartialEq, Eq, Structural, Hash)]
pub struct SubpixelOffsetXY {
    /// Fractional X-axis pen offset.
    pub x: SubpixelOffset,
    /// Fractional Y-axis pen offset.
    pub y: SubpixelOffset,
}

impl Default for SubpixelOffsetXY {
    /// No fractional offset on either axis.
    fn default() -> (r: Self)
        ensures
            r.x.index() == 0,
            r.y.index() == 0,
    {
        SubpixelOffsetXY { x: SubpixelOffset(0), y: SubpixelOffset(0) }
    }
}

} // verus!
