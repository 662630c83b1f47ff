use vstd::prelude::*;

verus! {

/// The first frame of a PNG image as the decoder hands it out: width,
/// height, per-channel bit depth and the pixel buffer.
pub struct PngFrame {
    pub width: u32,
    pub height: u32,
    pub bit_depth: u32,
    pub pixels: Vec<u8>,
}

/// The first frame that decoding a PNG byte string gives (width, height,
/// bit depth, pixel buffer), or none when decoding fails.
pub uninterp spec fn png_first_frame(bytes: Seq<u8>) -> Option<(u32, u32, u32, Seq<u8>)>;

/// Decodes the first frame of a PNG byte string with `png::Decoder`:
/// `read_info`, a buffer of `output_buffer_size` bytes, `next_frame`. The
/// result is the name `png_first_frame` of the bytes.
#[verifier::external_body]
fn decode_png(bytes: &[u8]) -> (r: Option<PngFrame>)
    ensures
        r matches Some(f) ==> png_first_frame(bytes@) == Some((f.width, f.height, f.bit_depth, f.pixels@)),
        r is None <==> png_first_frame(bytes@) is None,
{
    let mut reader = png::Decoder::new(bytes).read_info().ok()?;
    let mut pixels = vec![0u8; reader.output_buffer_size()];
    let info = reader.next_frame(&mut pixels).ok()?;
    Some(PngFrame { width: info.width, height: info.height, bit_depth: info.bit_depth as u32, pixels })
}

/// A decoded 2D image.
pub struct Image2D {
    pub width: u32,
    pub height: u32,
    /// Per-channel bit depth that the decoder reports.
    pub channels: u32,
    pub pixels: Vec<u8>,
}

impl Image2D {
    /// Builds the image from a decoded frame.
    pub fn from_frame(frame: PngFrame) -> (r: Image2D)
        ensures
            r.width == frame.width,
            r.height == frame.height,
            r.channels == frame.bit_depth,
            r.pixels@ == frame.pixels@,
    {
        Image2D { width: frame.width, height: frame.height, channels: frame.bit_depth, pixels: frame.pixels }
    }

    /// Decodes a PNG image from its bytes; none when they are not a PNG the
    /// decoder accepts.
    pub fn from_png(bytes: &[u8]) -> (r: Option<Image2D>)
        ensures
            r is None <==> png_first_frame(bytes@) is None,
            r matches Some(img) ==> png_first_frame(bytes@) == Some((img.width, img.height, img.channels, img.pixels@)),
    {
        match decode_png(bytes) {
            Some(frame) => Some(Image2D::from_frame(frame)),
            None => None,
        }
    }
}

} // verus!
