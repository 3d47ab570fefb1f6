//! Assembly of raw scan bytes into a typed raster image.

use crate::parameters::{channels_of, SANE_FRAME_GRAY, SANE_FRAME_RGB};
use crate::status::Error;
use vstd::prelude::*;

verus! {

/// An `image::ImageBuffer` of 8-bit grayscale pixels over a `Vec<u8>`.
#[verifier::external_body]
#[derive(Debug)]
pub struct GrayBuffer {
    inner: ::image::ImageBuffer<::image::Luma<u8>, Vec<u8>>,
}

/// An `image::ImageBuffer` of 8-bit RGB pixels over a `Vec<u8>`.
#[verifier::external_body]
#[derive(Debug)]
pub struct RgbBuffer {
    inner: ::image::ImageBuffer<::image::Rgb<u8>, Vec<u8>>,
}

/// The samples that a grayscale buffer holds, row by row.
pub uninterp spec fn gray_samples(buffer: GrayBuffer) -> Seq<u8>;

/// The width and the height of a grayscale buffer, in pixels.
pub uninterp spec fn gray_size(buffer: GrayBuffer) -> (u32, u32);

/// The samples that an RGB buffer holds, row by row, three to a pixel.
pub uninterp spec fn rgb_samples(buffer: RgbBuffer) -> Seq<u8>;

/// The width and the height of an RGB buffer, in pixels.
pub uninterp spec fn rgb_size(buffer: RgbBuffer) -> (u32, u32);

impl GrayBuffer {
    /// `image::ImageBuffer::from_raw` with one sample per pixel. It accepts a
    /// buffer of at least `width * height` samples, and the image then has
    /// that size and keeps the buffer as it is. A width always fits in a
    /// `usize`, so nothing is refused for the width alone.
    #[verifier::external_body]
    fn from_raw(width: u32, height: u32, samples: Vec<u8>) -> (buffer: Option<GrayBuffer>)
        ensures
            buffer is Some <==> width * height <= samples@.len(),
            buffer matches Some(b) ==> gray_size(b) == (width, height) && gray_samples(b)
                == samples@,
    {
        match ::image::ImageBuffer::from_raw(width, height, samples) {
            Some(inner) => Some(GrayBuffer { inner }),
            None => None,
        }
    }

    /// `image::ImageBuffer::dimensions`: the width and the height.
    #[verifier::external_body]
    fn dimensions(&self) -> (size: (u32, u32))
        ensures
            size == gray_size(*self),
    {
        self.inner.dimensions()
    }

    /// `image::ImageBuffer::into_raw`: the samples that the image was made of.
    #[verifier::external_body]
    fn into_raw(self) -> (samples: Vec<u8>)
        ensures
            samples@ == gray_samples(self),
    {
        self.inner.into_raw()
    }
}

impl RgbBuffer {
    /// `image::ImageBuffer::from_raw` with three samples per pixel. It
    /// multiplies three by the width first, and refuses where that alone does
    /// not fit in a `usize`, whatever the height. Otherwise it accepts a
    /// buffer of at least `3 * width * height` samples, and the image then has
    /// that size and keeps the buffer as it is.
    #[verifier::external_body]
    fn from_raw(width: u32, height: u32, samples: Vec<u8>) -> (buffer: Option<RgbBuffer>)
        ensures
            buffer is Some <==> (3 * width <= usize::MAX && 3 * width * height
                <= samples@.len()),
            buffer matches Some(b) ==> rgb_size(b) == (width, height) && rgb_samples(b)
                == samples@,
    {
        match ::image::ImageBuffer::from_raw(width, height, samples) {
            Some(inner) => Some(RgbBuffer { inner }),
            None => None,
        }
    }

    /// `image::ImageBuffer::dimensions`: the width and the height.
    #[verifier::external_body]
    fn dimensions(&self) -> (size: (u32, u32))
        ensures
            size == rgb_size(*self),
    {
        self.inner.dimensions()
    }

    /// `image::ImageBuffer::into_raw`: the samples that the image was made of.
    #[verifier::external_body]
    fn into_raw(self) -> (samples: Vec<u8>)
        ensures
            samples@ == rgb_samples(self),
    {
        self.inner.into_raw()
    }
}

/// A decoded raster, tagged by its sample layout.
#[derive(Debug)]
pub enum Image {
    Rgb8(RgbBuffer),
    Gray8(GrayBuffer),
}

impl Image {
    /// Samples per pixel.
    pub open spec fn channels(self) -> nat {
        match self {
            Image::Rgb8(_) => 3,
            Image::Gray8(_) => 1,
        }
    }

    /// Width and height in pixels.
    pub open spec fn size(self) -> (u32, u32) {
        match self {
            Image::Rgb8(b) => rgb_size(b),
            Image::Gray8(b) => gray_size(b),
        }
    }

    /// The samples, row by row, pixel by pixel.
    pub open spec fn samples(self) -> Seq<u8> {
        match self {
            Image::Rgb8(b) => rgb_samples(b),
            Image::Gray8(b) => gray_samples(b),
        }
    }

    pub fn width(&self) -> (width: u32)
        ensures
            width == self.size().0,
    {
        match self {
            Image::Rgb8(b) => b.dimensions().0,
            Image::Gray8(b) => b.dimensions().0,
        }
    }

    pub fn height(&self) -> (height: u32)
        ensures
            height == self.size().1,
    {
        match self {
            Image::Rgb8(b) => b.dimensions().1,
            Image::Gray8(b) => b.dimensions().1,
        }
    }

    pub fn channel_count(&self) -> (count: usize)
        ensures
            count == self.channels(),
    {
        match self {
            Image::Rgb8(_) => 3,
            Image::Gray8(_) => 1,
        }
    }

    /// Gives the samples back, in the order in which they were assembled.
    pub fn into_raw(self) -> (samples: Vec<u8>)
        ensures
            samples@ == self.samples(),
    {
        match self {
            Image::Rgb8(b) => b.into_raw(),
            Image::Gray8(b) => b.into_raw(),
        }
    }
}

/// Whether an image of this format and depth can be assembled: gray or RGB,
/// at eight bits per sample.
pub open spec fn supported(format: u32, depth: i32) -> bool {
    (format == SANE_FRAME_GRAY || format == SANE_FRAME_RGB) && depth == 8
}

/// Whether the samples of one line can be counted in a `usize`. On a machine
/// whose `usize` has 32 bits, a line of RGB pixels can be too wide for that.
pub open spec fn line_fits(format: u32, pixels_per_line: i32) -> bool {
    channels_of(format).unwrap() * pixels_per_line <= usize::MAX
}

/// What assembling gives: the error, or nothing where an image is owed.
pub open spec fn assembly_error(
    format: u32,
    depth: i32,
    pixels_per_line: i32,
    lines: i32,
    raw: Seq<u8>,
) -> Option<Error> {
    if !supported(format, depth) {
        Some(Error::Unsupported)
    } else if pixels_per_line < 0 || lines < 0 || !line_fits(format, pixels_per_line)
        || raw.len() != pixels_per_line * lines * channels_of(format).unwrap() {
        Some(Error::BadLength)
    } else {
        None
    }
}

/// Makes an image of `pixels_per_line` by `lines` pixels from raw samples.
///
/// Only gray and RGB at eight bits are assembled; any other format or depth is
/// `Error::Unsupported`. The samples must be exactly as many as the pixels
/// need, else the result is `Error::BadLength`. That is also the result for a
/// line whose samples cannot be counted in a `usize`, even where the image has
/// no lines. The image keeps the samples in their order.
pub fn assemble(format: u32, depth: i32, pixels_per_line: i32, lines: i32, raw: Vec<u8>) -> (r:
    Result<Image, Error>)
    ensures
        r matches Err(e) ==> assembly_error(format, depth, pixels_per_line, lines, raw@) == Some(
            e,
        ),
        r matches Ok(image) ==> {
            &&& assembly_error(format, depth, pixels_per_line, lines, raw@) is None
            &&& image.size() == (pixels_per_line as u32, lines as u32)
            &&& image.samples() == raw@
            &&& image.channels() == channels_of(format).unwrap()
            &&& (image is Gray8 <==> format == SANE_FRAME_GRAY)
        },
{
    if depth != 8 || (format != SANE_FRAME_GRAY && format != SANE_FRAME_RGB) {
        return Err(Error::Unsupported);
    }
    if pixels_per_line < 0 || lines < 0 {
        return Err(Error::BadLength);
    }
    let width: u32 = pixels_per_line as u32;
    let height: u32 = lines as u32;
    let channels: u64 = if format == SANE_FRAME_GRAY {
        1
    } else {
        3
    };
    assert(width * height <= 0x8000_0000 * 0x8000_0000) by (nonlinear_arith)
        requires
            0 <= width <= 0x8000_0000,
            0 <= height <= 0x8000_0000,
    ;
    if (width as u64) * channels > usize::MAX as u64 {
        return Err(Error::BadLength);
    }
    let pixels: u64 = (width as u64) * (height as u64);
    let needed: u64 = pixels * channels;
    if raw.len() as u64 != needed {
        return Err(Error::BadLength);
    }
    assert(3 * width * height == width * height * 3) by (nonlinear_arith);
    assert(pixels_per_line * lines * 3 == width * height * 3) by (nonlinear_arith)
        requires
            pixels_per_line == width,
            lines == height,
    ;
    assert(pixels_per_line * lines * 1 == width * height) by (nonlinear_arith)
        requires
            pixels_per_line == width,
            lines == height,
    ;
    if format == SANE_FRAME_GRAY {
        match GrayBuffer::from_raw(width, height, raw) {
            Some(buffer) => Ok(Image::Gray8(buffer)),
            None => Err(Error::BadLength),
        }
    } else {
        match RgbBuffer::from_raw(width, height, raw) {
            Some(buffer) => Ok(Image::Rgb8(buffer)),
            None => Err(Error::BadLength),
        }
    }
}

} // verus!
