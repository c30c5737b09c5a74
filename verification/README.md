# oxitext-raster

Colour-glyph rendering and subpixel glyph positioning for a text pipeline,
with its core written in Verus and proved against its contracts.

* `src/` — the verified library:
  * `blend` — exact-integer Porter-Duff "source over" of RGBA pixels, with
    the laws of the operator (opaque source replaces, transparent source keeps,
    alpha never drops).
  * `canvas` — compositing glyph coverage masks onto an RGBA canvas, the
    glyph placed on a baseline 80 % down the canvas.
  * `color` — the COLRv0 painter state machine, the setup of a COLR render
    and the priority between embedded bitmaps and COLR outlines.
  * `detect` — colour-glyph type detection, raw raster-image extraction and
    PNG decoding of embedded bitmaps.
  * `subpixel` — bucket arithmetic of quantised pen positions and cache keys.
  * `tl_cache` — the FNV-1a font key and a bounded LRU cache of parsed fonts.
  * `font`, `face`, `png_frame` — the thin, trusted boundary to fontdue,
    ttf-parser and png.
* `app/` — the parts that stay outside the proofs: the ttf-parser `Painter`
  implementations that drive a COLR walk, floating-point gradient colours and
  subpixel quantisation, ab_glyph subpixel rasterization, and the
  thread-local font cache.
* `tests/` — unit and scenario tests, including small fonts assembled byte by
  byte.
