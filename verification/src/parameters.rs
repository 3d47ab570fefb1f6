//! The geometry and format of the image that a scan will deliver.

use crate::status::Error;
use vstd::prelude::*;

verus! {

pub const SANE_FRAME_GRAY: u32 = 0;

pub const SANE_FRAME_RGB: u32 = 1;

pub const SANE_FRAME_RED: u32 = 2;

pub const SANE_FRAME_GREEN: u32 = 3;

pub const SANE_FRAME_BLUE: u32 = 4;

/// The samples per pixel of a frame format: one for gray, three for RGB. The
/// formats that carry one colour plane of several have no count here.
pub open spec fn channels_of(format: u32) -> Option<nat> {
    if format == SANE_FRAME_GRAY {
        Some(1nat)
    } else if format == SANE_FRAME_RGB {
        Some(3nat)
    } else {
        None
    }
}

/// The samples per pixel of a frame format, where it has a count.
pub fn channel_count(format: u32) -> (count: Option<usize>)
    ensures
        count is Some <==> channels_of(format) is Some,
        count matches Some(c) ==> channels_of(format) == Some(c as nat),
{
    if format == SANE_FRAME_GRAY {
        Some(1)
    } else if format == SANE_FRAME_RGB {
        Some(3)
    } else {
        None
    }
}

/// What the backend says of the image to come. `lines` is negative while the
/// backend does not know the height yet.
#[derive(Clone, Copy, Debug, PartialEq, Eq, Structural)]
pub struct Parameters {
    pub format: u32,
    pub last_frame: i32,
    pub bytes_per_line: i32,
    pub pixels_per_line: i32,
    pub lines: i32,
    pub depth: i32,
}

impl Parameters {
    /// Whether every number that the byte count is made of is known and not
    /// negative.
    pub open spec fn measurable(self) -> bool {
        self.bytes_per_line >= 0 && self.lines >= 0 && self.depth >= 0
    }

    /// The bytes that one pass delivers: bytes per line, times lines, times
    /// whole bytes per sample, times samples per pixel.
    pub open spec fn byte_count(self) -> int
        recommends
            self.measurable(),
            channels_of(self.format) is Some,
    {
        self.bytes_per_line * self.lines * (self.depth / 8) * channels_of(self.format).unwrap()
    }

    /// The byte count as a length in memory, or why there is none: the format
    /// has no channel count, a number is negative, or the count is too large.
    pub open spec fn size_outcome(self) -> Result<usize, Error> {
        if channels_of(self.format) is None {
            Err(Error::Unsupported)
        } else if !self.measurable() || self.byte_count() > usize::MAX {
            Err(Error::BadLength)
        } else {
            Ok(self.byte_count() as usize)
        }
    }

    pub fn format(&self) -> (format: u32)
        ensures
            format == self.format,
    {
        self.format
    }

    pub fn last_frame(&self) -> (last_frame: i32)
        ensures
            last_frame == self.last_frame,
    {
        self.last_frame
    }

    pub fn bytes_per_line(&self) -> (bytes_per_line: i32)
        ensures
            bytes_per_line == self.bytes_per_line,
    {
        self.bytes_per_line
    }

    pub fn pixels_per_line(&self) -> (pixels_per_line: i32)
        ensures
            pixels_per_line == self.pixels_per_line,
    {
        self.pixels_per_line
    }

    pub fn lines(&self) -> (lines: i32)
        ensures
            lines == self.lines,
    {
        self.lines
    }

    pub fn depth(&self) -> (depth: i32)
        ensures
            depth == self.depth,
    {
        self.depth
    }

    /// The number of bytes that a pass with these parameters delivers.
    pub fn expected_size(&self) -> (size: Result<usize, Error>)
        ensures
            size == self.size_outcome(),
    {
        let channels: u128 = match channel_count(self.format) {
            Some(c) => c as u128,
            None => {
                return Err(Error::Unsupported);
            },
        };
        if self.bytes_per_line < 0 || self.lines < 0 || self.depth < 0 {
            return Err(Error::BadLength);
        }
        let width: u128 = self.bytes_per_line as u128;
        let height: u128 = self.lines as u128;
        let sample: u128 = (self.depth / 8) as u128;
        assert(width * height <= 0x8000_0000 * 0x8000_0000) by (nonlinear_arith)
            requires
                0 <= width <= 0x8000_0000,
                0 <= height <= 0x8000_0000,
        ;
        let area: u128 = width * height;
        assert(area * sample <= 0x4000_0000_0000_0000 * 0x1000_0000) by (nonlinear_arith)
            requires
                0 <= area <= 0x4000_0000_0000_0000,
                0 <= sample <= 0x1000_0000,
        ;
        let volume: u128 = area * sample;
        assert(volume * channels <= 0x400_0000_0000_0000_0000_0000 * 3) by (nonlinear_arith)
            requires
                0 <= volume <= 0x400_0000_0000_0000_0000_0000,
                0 <= channels <= 3,
        ;
        let total: u128 = volume * channels;
        assert(total == self.byte_count());
        if total > usize::MAX as u128 {
            Err(Error::BadLength)
        } else {
            Ok(total as usize)
        }
    }
}

} // verus!
