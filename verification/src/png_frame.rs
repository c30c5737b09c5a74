//! Decoding the first frame of a PNG image (backed by the png crate).

use vstd::prelude::*;

verus! {

/// The colour types a decoded PNG frame can have.
#[derive(Clone, Copy, Debug, PartialEq, Eq, Structural)]
pub enum PngColor {
    Grayscale,
    Rgb,
    Indexed,
    GrayscaleAlpha,
    Rgba,
}

/// A decoded PNG frame as the png crate hands it out.
pub struct PngFrame {
    /// Frame width in pixels.
    pub width: u32,
    /// Frame height in pixels.
    pub height: u32,
    /// Colour type of the decoded samples.
    pub color: PngColor,
    /// Number of leading bytes of `pixels` that hold the frame.
    pub frame_len: usize,
    /// The output buffer the frame was decoded into.
    pub pixels: Vec<u8>,
}

/// `(width, height, color, frame_len, pixels)` of a decoded frame.
pub type PngFrameView = (u32, u32, PngColor, usize, Seq<u8>);

impl View for PngFrame {
    type V = PngFrameView;

    open spec fn view(&self) -> PngFrameView {
        (self.width, self.height, self.color, self.frame_len, self.pixels@)
    }
}

/// The first frame that the png crate decodes from `data`, if any.
pub uninterp spec fn png_first_frame(data: Seq<u8>) -> Option<PngFrameView>;

/// `png::Decoder::new(Cursor::new(data))`, then `read_info`,
/// `output_buffer_size`, and `next_frame` into a zeroed buffer of that size.
///
/// Trusted: the frame, or its absence (when any of these steps fails), is the
/// one `png_first_frame` names; `frame_len` is the frame's
/// `OutputInfo::buffer_size()` and `pixels` the whole output buffer.
#[verifier::external_body]
pub(crate) fn decode_first_frame(data: &[u8]) -> (r: Option<PngFrame>)
    ensures
        match (r, png_first_frame(data@)) {
            (Some(f), Some(named)) => f@ == named,
            (None, None) => true,
            _ => false,
        },
{
    let mut reader = png::Decoder::new(std::io::Cursor::new(data)).read_info().ok()?;
    let mut pixels = vec![0u8; reader.output_buffer_size()?];
    let info = reader.next_frame(&mut pixels).ok()?;
    let color = match info.color_type {
        png::ColorType::Grayscale => PngColor::Grayscale,
        png::ColorType::Rgb => PngColor::Rgb,
        png::ColorType::Indexed => PngColor::Indexed,
        png::ColorType::GrayscaleAlpha => PngColor::GrayscaleAlpha,
        png::ColorType::Rgba => PngColor::Rgba,
    };
    Some(PngFrame { width: info.width, height: info.height, color, frame_len: info.buffer_size(), pixels })
}

} // verus!
