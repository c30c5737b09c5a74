//! Verified core of a glyph rasterization toolkit: subpixel pen-position
//! quantisation, Porter-Duff compositing of glyph coverage masks, colour-glyph
//! table classification, embedded-bitmap extraction and a per-font cache.

pub mod subpixel;
pub mod blend;
pub mod font;
pub mod canvas;
pub mod color;
pub mod face;
pub mod png_frame;
pub mod detect;
pub mod tl_cache;

pub use canvas::{ColorGlyphBitmap, Rgba};
pub use detect::{
    decode_png_to_bitmap, detect_color_glyph_type, extract_cbdt_bitmap, extract_raster_glyph,
    render_cbdt_glyph, ColorBitmap, ColorGlyphType, RasterImageFormat, RawRasterGlyph,
};
pub use subpixel::{SubpixelBuckets, SubpixelCacheKey, SubpixelOffset, SubpixelOffsetXY};
pub use tl_cache::{font_data_key, FontCache};
