//! The converter for compressed sources. Decoding is the caller's part:
//! the converter takes the decoder's output and places it in the
//! destination.

use vstd::prelude::*;
use crate::error::ConversionError;
use crate::format::{FrameInfo, StreamConfiguration, VideoType};
use crate::geometry::Size;
use crate::negotiate::{supports_configuration, ProbeReply};

verus! {

/// `copy_from_slice` of the standard library's slices. It panics where
/// the two lengths differ, which `requires` leaves out; with both slices
/// of one length the destination ends up holding the source's elements.
pub assume_specification<T>[ <[T]>::copy_from_slice ](dst: &mut [T], src: &[T]) where T: Copy
    requires
        old(dst)@.len() == src@.len(),
    ensures
        final(dst)@ == src@,
;

/// What placing a decoded frame in a destination of `target_len` bytes
/// returns. `decoded` is `None` where the payload could not be decoded.
pub open spec fn mjpeg_outcome(size: Size, decoded: Option<Seq<u8>>, target_len: nat) -> Result<
    FrameInfo,
    ConversionError,
> {
    match decoded {
        None => Err(ConversionError::Corrupt),
        Some(pixels) => if size.canonical_stride() > u32::MAX {
            Err(ConversionError::GeometryOverflow)
        } else if pixels.len() > target_len {
            Err(
                ConversionError::DestinationTooShort {
                    expected: pixels.len() as usize,
                    received: target_len as usize,
                },
            )
        } else {
            Ok(
                FrameInfo {
                    video_type: VideoType::Rgbx,
                    stride: size.canonical_stride() as u32,
                    bytes_used: pixels.len() as usize,
                },
            )
        },
    }
}

/// The views of an optional slice.
pub open spec fn decoded_view(decoded: Option<&[u8]>) -> Option<Seq<u8>> {
    match decoded {
        Some(pixels) => Some(pixels@),
        None => None,
    }
}

/// Places decoded `Rgbx` pixels in the destination.
#[derive(Clone, Copy, Debug, PartialEq, Eq, Structural)]
pub struct MjpegStream;

impl MjpegStream {
    /// The name by which the converter is asked for.
    pub fn name(&self) -> (name: &'static str)
        ensures
            name@ == "mjpeg"@,
    {
        "mjpeg"
    }

    /// The name of the device pixel format that the converter reads.
    pub fn pixel_format_name(&self) -> (name: &'static str)
        ensures
            name@ == "MJPEG"@,
    {
        "MJPEG"
    }

    /// Whether the device, asked for this converter's format, kept it.
    pub fn is_supported(&self, reply: &ProbeReply) -> (supported: bool)
        ensures
            supported == reply.accepted(),
    {
        supports_configuration(reply)
    }

    /// Places one decoded frame at the head of `target_buffer`. `decoded`
    /// holds the pixels that the decoder produced, four bytes each, or
    /// `None` where it could not decode the payload. A decoded frame may
    /// be shorter than the destination; what lies behind it stays.
    pub fn convert_frame(
        &self,
        cfg: &StreamConfiguration,
        decoded: Option<&[u8]>,
        target_buffer: &mut [u8],
    ) -> (r: Result<FrameInfo, ConversionError>)
        ensures
            r == mjpeg_outcome(cfg.size, decoded_view(decoded), old(target_buffer)@.len()),
            r is Ok ==> final(target_buffer)@ == decoded->0@ + old(target_buffer)@.subrange(
                decoded->0@.len() as int,
                old(target_buffer)@.len() as int,
            ),
            r is Err ==> final(target_buffer)@ == old(target_buffer)@,
    {
        let pixels = match decoded {
            Some(pixels) => pixels,
            None => {
                return Err(ConversionError::Corrupt);
            },
        };
        let stride: u32 = match cfg.size.checked_canonical_stride() {
            Some(stride) => stride,
            None => {
                return Err(ConversionError::GeometryOverflow);
            },
        };
        if pixels.len() > target_buffer.len() {
            return Err(
                ConversionError::DestinationTooShort {
                    expected: pixels.len(),
                    received: target_buffer.len(),
                },
            );
        }
        let (head, _tail) = target_buffer.split_at_mut(pixels.len());
        head.copy_from_slice(pixels);
        Ok(FrameInfo { video_type: VideoType::Rgbx, stride, bytes_used: pixels.len() })
    }
}

} // verus!
