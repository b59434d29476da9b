//! The canonical output layout: four bytes per pixel, rows packed without
//! gaps, the fourth byte of every pixel a constant.

use vstd::prelude::*;
use crate::error::ConversionError;
use crate::format::{FrameInfo, VideoType};
use crate::geometry::Size;

verus! {

/// Byte `c` of canonical pixel `pixel`.
pub open spec fn channel(buf: Seq<u8>, pixel: int, c: int) -> u8 {
    buf[4 * pixel + c]
}

/// Byte `c` of pixel `pixel` in a source of three bytes per pixel.
pub open spec fn source_channel(src: Seq<u8>, pixel: int, c: int) -> u8 {
    src[3 * pixel + c]
}

/// `dst` after `pixels` three-byte pixels of `src` have been written over
/// its head: each pixel keeps its three bytes in their order and gains a
/// fourth byte of 255; what lies behind the frame stays as it was.
pub open spec fn padded(src: Seq<u8>, dst: Seq<u8>, pixels: int) -> Seq<u8> {
    Seq::new(
        dst.len(),
        |i: int|
            if i < 4 * pixels {
                if i % 4 == 3 {
                    255u8
                } else {
                    src[3 * (i / 4) + i % 4]
                }
            } else {
                dst[i]
            },
    )
}

/// Whether the fourth byte of each of the first `pixels` pixels is 255.
pub open spec fn is_opaque(buf: Seq<u8>, pixels: int) -> bool {
    forall|p: int| 0 <= p < pixels ==> #[trigger] channel(buf, p, 3) == 255
}

/// Whether `a` and `b` have one length and agree from index `start` on.
pub open spec fn same_from(a: Seq<u8>, b: Seq<u8>, start: int) -> bool {
    &&& a.len() == b.len()
    &&& forall|i: int| start <= i < a.len() ==> #[trigger] a[i] == b[i]
}

/// Row length and frame length of the canonical output for one size.
#[derive(Clone, Copy, Debug, PartialEq, Eq, Structural)]
pub struct Layout {
    pub stride: u32,
    pub len: usize,
}

/// The canonical layout of a frame of `size`, or the reason why it has
/// none: `EmptyFrame` where it holds no pixel, `GeometryOverflow` where a
/// row exceeds `u32` or the frame exceeds `usize`.
pub open spec fn spec_layout(size: Size) -> Result<Layout, ConversionError> {
    if size.width == 0 || size.height == 0 {
        Err(ConversionError::EmptyFrame)
    } else if size.canonical_stride() > u32::MAX || size.canonical_len() > usize::MAX {
        Err(ConversionError::GeometryOverflow)
    } else {
        Ok(Layout { stride: size.canonical_stride() as u32, len: size.canonical_len() as usize })
    }
}

pub fn layout(size: &Size) -> (r: Result<Layout, ConversionError>)
    ensures
        r == spec_layout(*size),
{
    if size.is_empty() {
        return Err(ConversionError::EmptyFrame);
    }
    proof {
        crate::geometry::canonical_len_is_four_per_pixel(*size);
    }
    match (size.checked_canonical_stride(), size.checked_len(4)) {
        (Some(stride), Some(len)) => Ok(Layout { stride, len }),
        _ => Err(ConversionError::GeometryOverflow),
    }
}

impl Layout {
    /// The description of a frame of this layout whose pixels read as
    /// `video_type` says.
    pub open spec fn spec_frame_info(self, video_type: VideoType) -> FrameInfo {
        FrameInfo { video_type, stride: self.stride, bytes_used: self.len }
    }

    /// The description of a frame of this layout whose pixels read as
    /// `video_type` says.
    pub fn frame_info(&self, video_type: VideoType) -> (info: FrameInfo)
        ensures
            info == self.spec_frame_info(video_type),
    {
        FrameInfo { video_type, stride: self.stride, bytes_used: self.len }
    }
}

/// What a conversion returns once the pixel routine has reported
/// `outcome`: the description of the frame where the routine succeeded,
/// and `Rejected` where it refused the frame.
pub fn concluded(outcome: Result<(), yuvutils_rs::YuvError>, info: FrameInfo) -> (r: Result<
    FrameInfo,
    ConversionError,
>)
    ensures
        r == match outcome {
            Ok(_) => Ok::<FrameInfo, ConversionError>(info),
            Err(_) => Err(ConversionError::Rejected),
        },
{
    match outcome {
        Ok(()) => Ok(info),
        Err(_) => Err(ConversionError::Rejected),
    }
}

/// Every pixel of a padded frame carries the three source bytes and the
/// constant fourth byte, and the bytes behind the frame are untouched.
pub proof fn padded_pixels(src: Seq<u8>, dst: Seq<u8>, pixels: int)
    requires
        0 <= pixels,
        4 * pixels <= dst.len(),
    ensures
        padded(src, dst, pixels).len() == dst.len(),
        forall|p: int, c: int|
            0 <= p < pixels && 0 <= c < 3 ==> #[trigger] channel(padded(src, dst, pixels), p, c)
                == source_channel(src, p, c),
        is_opaque(padded(src, dst, pixels), pixels),
        same_from(padded(src, dst, pixels), dst, 4 * pixels),
{
}

/// A source of nothing but zero bytes converts to pixels whose three
/// colour bytes are zero and whose fourth byte is 255.
pub proof fn zero_source_is_opaque_black(src: Seq<u8>, dst: Seq<u8>, pixels: int)
    requires
        0 <= pixels,
        3 * pixels <= src.len(),
        4 * pixels <= dst.len(),
        forall|i: int| 0 <= i < src.len() ==> src[i] == 0,
    ensures
        forall|p: int|
            0 <= p < pixels ==> {
                &&& #[trigger] channel(padded(src, dst, pixels), p, 0) == 0
                &&& channel(padded(src, dst, pixels), p, 1) == 0
                &&& channel(padded(src, dst, pixels), p, 2) == 0
                &&& channel(padded(src, dst, pixels), p, 3) == 255
            },
{
    padded_pixels(src, dst, pixels);
}

/// The frame that conversion writes depends on the source alone: two
/// destinations receive the same bytes, whatever they held before.
pub proof fn padded_frame_ignores_destination(
    src: Seq<u8>,
    first: Seq<u8>,
    second: Seq<u8>,
    pixels: int,
)
    requires
        0 <= pixels,
        4 * pixels <= first.len(),
        4 * pixels <= second.len(),
    ensures
        padded(src, first, pixels).subrange(0, 4 * pixels) == padded(
            src,
            second,
            pixels,
        ).subrange(0, 4 * pixels),
{
    assert(padded(src, first, pixels).subrange(0, 4 * pixels) =~= padded(
        src,
        second,
        pixels,
    ).subrange(0, 4 * pixels));
}

} // verus!
