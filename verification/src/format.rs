//! Pixel encodings and the description of a configured stream.

use vstd::prelude::*;
use crate::geometry::Size;

verus! {

/// How the raw bytes of a frame are laid out.
#[derive(Clone, Copy, Debug, PartialEq, Eq, Structural)]
pub enum SourceEncoding {
    /// Three bytes per pixel: blue, green, red.
    Bgr,
    /// Three bytes per pixel: red, green, blue.
    Rgb,
    /// Packed 4:2:2: luma for every pixel, chroma for every other one.
    Yuyv,
    /// One compressed image per frame.
    Mjpeg,
}

impl SourceEncoding {
    /// The name by which the encoding's converter is asked for.
    pub open spec fn spec_name(self) -> Seq<char> {
        match self {
            SourceEncoding::Bgr => "bgr"@,
            SourceEncoding::Rgb => "rgb"@,
            SourceEncoding::Yuyv => "yuyv"@,
            SourceEncoding::Mjpeg => "mjpeg"@,
        }
    }

    /// The name of the device pixel format that carries the encoding.
    pub open spec fn spec_pixel_format_name(self) -> Seq<char> {
        match self {
            SourceEncoding::Bgr => "BGR888"@,
            SourceEncoding::Rgb => "RGB888"@,
            SourceEncoding::Yuyv => "YUYV"@,
            SourceEncoding::Mjpeg => "MJPEG"@,
        }
    }

    /// The name by which the encoding's converter is asked for.
    pub fn name(&self) -> (name: &'static str)
        ensures
            name@ == self.spec_name(),
    {
        match self {
            SourceEncoding::Bgr => "bgr",
            SourceEncoding::Rgb => "rgb",
            SourceEncoding::Yuyv => "yuyv",
            SourceEncoding::Mjpeg => "mjpeg",
        }
    }

    /// The name of the device pixel format that carries the encoding.
    pub fn pixel_format_name(&self) -> (name: &'static str)
        ensures
            name@ == self.spec_pixel_format_name(),
    {
        match self {
            SourceEncoding::Bgr => "BGR888",
            SourceEncoding::Rgb => "RGB888",
            SourceEncoding::Yuyv => "YUYV",
            SourceEncoding::Mjpeg => "MJPEG",
        }
    }

    /// Whether frames of this encoding are compressed.
    pub open spec fn is_compressed(self) -> bool {
        self == SourceEncoding::Mjpeg
    }
}

/// How the transport is to read a converted frame.
#[derive(Clone, Copy, Debug, PartialEq, Eq, Structural)]
pub enum VideoType {
    /// Blue, green, red, padding.
    Bgrx,
    /// Red, green, blue, padding.
    Rgbx,
}

/// The value range of luma and chroma samples.
#[derive(Clone, Copy, Debug, PartialEq, Eq, Structural)]
pub enum ColorRange {
    Full,
    Limited,
}

/// The matrix that relates luma and chroma to red, green and blue.
#[derive(Clone, Copy, Debug, PartialEq, Eq, Structural)]
pub enum ColorMatrix {
    Bt601,
    Bt709,
    Bt2020,
}

/// A device pixel format: a four-character code and a layout modifier.
#[derive(Clone, Copy, Debug, PartialEq, Eq, Structural)]
pub struct PixelFormat {
    pub fourcc: u32,
    pub modifier: u64,
}

/// What a converter reports about the frame it has just produced.
#[derive(Clone, Copy, Debug, PartialEq, Eq, Structural)]
pub struct FrameInfo {
    pub video_type: VideoType,
    /// Bytes per output row.
    pub stride: u32,
    /// Bytes of the destination that hold the frame.
    pub bytes_used: usize,
}

/// The stream as the device has agreed to deliver it.
#[derive(Clone, Copy, Debug, PartialEq, Eq, Structural)]
pub struct StreamConfiguration {
    pub encoding: SourceEncoding,
    pub size: Size,
    /// Bytes per source row, as the device reports it.
    pub stride: u32,
    pub range: Option<ColorRange>,
}

impl StreamConfiguration {
    /// The range that conversion works with: the configured one, and
    /// limited range where the device names none.
    pub open spec fn effective_range(self) -> ColorRange {
        match self.range {
            Some(range) => range,
            None => ColorRange::Limited,
        }
    }

    /// The range that conversion works with.
    pub fn range_or_default(&self) -> (range: ColorRange)
        ensures
            range == self.effective_range(),
    {
        match self.range {
            Some(range) => range,
            None => ColorRange::Limited,
        }
    }
}

} // verus!
