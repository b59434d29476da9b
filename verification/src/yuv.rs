//! The pixel routines of the `yuvutils_rs` crate, as this library uses
//! them. Nothing here is proved: each contract records what the routine's
//! source shows for the inputs that the contract admits.

use vstd::prelude::*;
use crate::canonical::{is_opaque, padded, same_from};
use crate::format::{ColorMatrix, ColorRange, StreamConfiguration};

verus! {

/// The error type of `yuvutils_rs`; its contents are not looked into.
#[verifier::external_type_specification]
#[verifier::external_body]
pub struct ExYuvError(yuvutils_rs::YuvError);

/// Bytes in one row of `width` pixels of packed 4:2:2 data: two per pixel,
/// with an odd width rounded up to the next even one.
pub open spec fn yuyv_row_len(width: u32) -> int {
    2 * (width + width % 2)
}

/// `yuvutils_rs::rgb_to_rgba`, for a source of exactly `height` rows of
/// `width` three-byte pixels without gaps and a destination with room for
/// as many four-byte pixels. On such input the routine reports success,
/// copies the three bytes of every pixel in order, writes 255 as the
/// fourth, and leaves the destination behind the frame alone.
pub assume_specification[ yuvutils_rs::rgb_to_rgba ](
    src: &[u8],
    src_stride: u32,
    dst: &mut [u8],
    dst_stride: u32,
    width: u32,
    height: u32,
) -> (r: Result<(), yuvutils_rs::YuvError>)
    requires
        width > 0,
        height > 0,
        src_stride == 3 * width,
        dst_stride == 4 * width,
        src@.len() == src_stride * height,
        old(dst)@.len() >= dst_stride * height,
    ensures
        r is Ok,
        final(dst)@ == padded(src@, old(dst)@, width * height),
;

/// `yuvutils_rs::bgr_to_bgra`, under the same conditions and with the same
/// effect as `rgb_to_rgba`: both keep the byte order of the source.
pub assume_specification[ yuvutils_rs::bgr_to_bgra ](
    src: &[u8],
    src_stride: u32,
    dst: &mut [u8],
    dst_stride: u32,
    width: u32,
    height: u32,
) -> (r: Result<(), yuvutils_rs::YuvError>)
    requires
        width > 0,
        height > 0,
        src_stride == 3 * width,
        dst_stride == 4 * width,
        src@.len() == src_stride * height,
        old(dst)@.len() >= dst_stride * height,
    ensures
        r is Ok,
        final(dst)@ == padded(src@, old(dst)@, width * height),
;

/// `yuvutils_rs::yuyv422_to_rgba`, called as the converter of packed
/// luma-chroma frames is to call it: with width, height and source stride
/// of the configuration, in the configuration's effective range and with
/// the BT.709 matrix. `requires` admits no other call.
///
/// For a source of exactly `height` packed rows and a destination with
/// room for the frame, the routine reports success, writes 255 as the
/// fourth byte of every pixel and leaves the destination behind the frame
/// alone. The colour bytes are computed in fixed-point arithmetic that
/// differs between the processor-specific paths of the routine, so
/// nothing is claimed of them.
#[verifier::external_body]
pub(crate) fn yuyv422_to_rgba(
    cfg: &StreamConfiguration,
    yuy: &[u8],
    rgba: &mut [u8],
    rgba_stride: u32,
    range: ColorRange,
    matrix: ColorMatrix,
) -> (r: Result<(), yuvutils_rs::YuvError>)
    requires
        cfg.size.width > 0,
        cfg.size.height > 0,
        cfg.stride == yuyv_row_len(cfg.size.width),
        rgba_stride == 4 * cfg.size.width,
        yuy@.len() == cfg.stride * cfg.size.height,
        old(rgba)@.len() >= rgba_stride * cfg.size.height,
        range == cfg.effective_range(),
        matrix == ColorMatrix::Bt709,
    ensures
        r is Ok,
        is_opaque(final(rgba)@, cfg.size.width * cfg.size.height),
        same_from(final(rgba)@, old(rgba)@, 4 * (cfg.size.width * cfg.size.height)),
{
    let width: u32 = cfg.size.width;
    let height: u32 = cfg.size.height;
    let image = yuvutils_rs::YuvPackedImage { yuy, yuy_stride: cfg.stride, width, height };
    let range = match range {
        ColorRange::Full => yuvutils_rs::YuvRange::Full,
        ColorRange::Limited => yuvutils_rs::YuvRange::Limited,
    };
    let matrix = match matrix {
        ColorMatrix::Bt601 => yuvutils_rs::YuvStandardMatrix::Bt601,
        ColorMatrix::Bt709 => yuvutils_rs::YuvStandardMatrix::Bt709,
        ColorMatrix::Bt2020 => yuvutils_rs::YuvStandardMatrix::Bt2020,
    };
    yuvutils_rs::yuyv422_to_rgba(&image, rgba, rgba_stride, range, matrix)
}

} // verus!
