//! Conversion of sources that hold three bytes per pixel, rows packed
//! without gaps, into the canonical layout.

use vstd::prelude::*;
use crate::canonical::{concluded, layout, padded, spec_layout};
use crate::error::ConversionError;
use crate::format::{FrameInfo, VideoType};
use crate::geometry::Size;

verus! {

/// Bytes per pixel of a packed three-channel source.
pub const SOURCE_BYTES_PER_PIXEL: u32 = 3;

/// What converting a three-byte source of `frame_len` bytes into a
/// destination of `target_len` bytes returns. The checks come in this
/// order: the frame must have a canonical layout, the source must hold
/// the whole frame, and the destination must have room for it.
pub open spec fn packed_outcome(
    size: Size,
    video_type: VideoType,
    frame_len: nat,
    target_len: nat,
) -> Result<FrameInfo, ConversionError> {
    match spec_layout(size) {
        Err(e) => Err(e),
        Ok(canonical) => if frame_len < size.packed_len(3) {
            Err(
                ConversionError::SourceTooShort {
                    expected: size.packed_len(3) as usize,
                    received: frame_len as usize,
                },
            )
        } else if target_len < canonical.len {
            Err(
                ConversionError::DestinationTooShort {
                    expected: canonical.len,
                    received: target_len as usize,
                },
            )
        } else {
            Ok(FrameInfo { video_type, stride: canonical.stride, bytes_used: canonical.len })
        },
    }
}

/// Converts one packed three-byte frame. `order` names the byte order of
/// the source, which the output keeps: `Rgbx` for red first, `Bgrx` for
/// blue first.
pub fn expand(order: VideoType, size: &Size, frame: &[u8], target: &mut [u8]) -> (r: Result<
    FrameInfo,
    ConversionError,
>)
    ensures
        r == packed_outcome(*size, order, frame@.len(), old(target)@.len()),
        r is Ok ==> final(target)@ == padded(frame@, old(target)@, size.pixels()),
        r is Err ==> final(target)@ == old(target)@,
{
    let canonical = match layout(size) {
        Ok(canonical) => canonical,
        Err(e) => {
            return Err(e);
        },
    };
    proof {
        // A three-byte frame is no longer than the canonical one, which fits.
        crate::geometry::canonical_len_is_four_per_pixel(*size);
        assert(size.packed_len(3) == (3 * size.width) * size.height) by (nonlinear_arith)
            requires
                size.packed_len(3) == 3 * (size.width * size.height),
        ;
        assert(size.canonical_len() == (4 * size.width) * size.height) by (nonlinear_arith)
            requires
                size.canonical_len() == size.height * (size.width * 4),
        ;
    }
    let source_stride: u32 = SOURCE_BYTES_PER_PIXEL * size.width;
    let source_len: usize = (source_stride as usize) * (size.height as usize);
    if frame.len() < source_len {
        return Err(ConversionError::SourceTooShort { expected: source_len, received: frame.len() });
    }
    if target.len() < canonical.len {
        return Err(
            ConversionError::DestinationTooShort {
                expected: canonical.len,
                received: target.len(),
            },
        );
    }
    let source = &frame[0..source_len];
    let outcome = match order {
        VideoType::Rgbx => yuvutils_rs::rgb_to_rgba(
            source,
            source_stride,
            target,
            canonical.stride,
            size.width,
            size.height,
        ),
        VideoType::Bgrx => yuvutils_rs::bgr_to_bgra(
            source,
            source_stride,
            target,
            canonical.stride,
            size.width,
            size.height,
        ),
    };
    concluded(outcome, canonical.frame_info(order))
}

} // verus!
