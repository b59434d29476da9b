//! The converter for packed 4:2:2 luma-chroma sources.

use vstd::prelude::*;
use crate::canonical::{concluded, is_opaque, layout, same_from, spec_layout};
use crate::error::ConversionError;
use crate::format::{ColorMatrix, FrameInfo, StreamConfiguration, VideoType};
use crate::negotiate::{supports_configuration, ProbeReply};
use crate::yuv::{yuyv422_to_rgba, yuyv_row_len};

verus! {

/// What converting a packed 4:2:2 source of `frame_len` bytes into a
/// destination of `target_len` bytes returns. The checks come in this
/// order: the frame must have a canonical layout, the device's stride
/// must be that of rows packed without gaps, the source must hold the
/// whole frame, and the destination must have room for it.
pub open spec fn yuyv_outcome(cfg: StreamConfiguration, frame_len: nat, target_len: nat) -> Result<
    FrameInfo,
    ConversionError,
> {
    match spec_layout(cfg.size) {
        Err(e) => Err(e),
        Ok(canonical) => if cfg.stride != yuyv_row_len(cfg.size.width) {
            Err(
                ConversionError::StrideMismatch {
                    packed: yuyv_row_len(cfg.size.width) as u32,
                    reported: cfg.stride,
                },
            )
        } else if frame_len < yuyv_row_len(cfg.size.width) * cfg.size.height {
            Err(
                ConversionError::SourceTooShort {
                    expected: (yuyv_row_len(cfg.size.width) * cfg.size.height) as usize,
                    received: frame_len as usize,
                },
            )
        } else if target_len < canonical.len {
            Err(
                ConversionError::DestinationTooShort {
                    expected: canonical.len,
                    received: target_len as usize,
                },
            )
        } else {
            Ok(
                FrameInfo {
                    video_type: VideoType::Rgbx,
                    stride: canonical.stride,
                    bytes_used: canonical.len,
                },
            )
        },
    }
}

/// Converts packed luma-chroma pixels to `Rgbx`.
#[derive(Clone, Copy, Debug, PartialEq, Eq, Structural)]
pub struct YuyvStream;

impl YuyvStream {
    /// The name by which the converter is asked for.
    pub fn name(&self) -> (name: &'static str)
        ensures
            name@ == "yuyv"@,
    {
        "yuyv"
    }

    /// The name of the device pixel format that the converter reads.
    pub fn pixel_format_name(&self) -> (name: &'static str)
        ensures
            name@ == "YUYV"@,
    {
        "YUYV"
    }

    /// The colour matrix that every conversion uses.
    pub fn matrix(&self) -> (matrix: ColorMatrix)
        ensures
            matrix == ColorMatrix::Bt709,
    {
        ColorMatrix::Bt709
    }

    /// Whether the device, asked for this converter's format, kept it.
    pub fn is_supported(&self, reply: &ProbeReply) -> (supported: bool)
        ensures
            supported == reply.accepted(),
    {
        supports_configuration(reply)
    }

    /// Converts one frame into `target_buffer`, in the range that the
    /// configuration names (limited range where it names none). The frame
    /// is read from the head of `frame`; bytes behind it are ignored.
    ///
    /// On success every pixel of the frame has been written and its
    /// fourth byte is 255; the colour bytes are those of the conversion
    /// routine and are not described here.
    pub fn capture_frame(
        &self,
        cfg: &StreamConfiguration,
        frame: &[u8],
        target_buffer: &mut [u8],
    ) -> (r: Result<FrameInfo, ConversionError>)
        ensures
            r == yuyv_outcome(*cfg, frame@.len(), old(target_buffer)@.len()),
            r is Ok ==> is_opaque(final(target_buffer)@, cfg.size.pixels()),
            r is Ok ==> same_from(
                final(target_buffer)@,
                old(target_buffer)@,
                cfg.size.canonical_len(),
            ),
            r is Err ==> final(target_buffer)@ == old(target_buffer)@,
    {
        let canonical = match layout(&cfg.size) {
            Ok(canonical) => canonical,
            Err(e) => {
                return Err(e);
            },
        };
        let width: u32 = cfg.size.width;
        let height: u32 = cfg.size.height;
        proof {
            // A packed row is no longer than a canonical one, so the
            // source frame is no longer than the canonical one, which fits.
            crate::geometry::canonical_len_is_four_per_pixel(cfg.size);
            assert(yuyv_row_len(width) * height <= (4 * width) * height) by (nonlinear_arith)
                requires
                    0 <= yuyv_row_len(width) <= 4 * width,
            ;
            assert(cfg.size.canonical_len() == (4 * width) * height) by (nonlinear_arith)
                requires
                    cfg.size.canonical_len() == height * (width * 4),
            ;
            assert(cfg.size.canonical_len() == 4 * (width * height)) by (nonlinear_arith)
                requires
                    cfg.size.canonical_len() == height * (width * 4),
            ;
        }
        let row: u32 = 2 * (width + width % 2);
        if cfg.stride != row {
            return Err(ConversionError::StrideMismatch { packed: row, reported: cfg.stride });
        }
        let source_len: usize = (row as usize) * (height as usize);
        if frame.len() < source_len {
            return Err(
                ConversionError::SourceTooShort { expected: source_len, received: frame.len() },
            );
        }
        if target_buffer.len() < canonical.len {
            return Err(
                ConversionError::DestinationTooShort {
                    expected: canonical.len,
                    received: target_buffer.len(),
                },
            );
        }
        let source = &frame[0..source_len];
        let outcome = yuyv422_to_rgba(
            cfg,
            source,
            target_buffer,
            canonical.stride,
            cfg.range_or_default(),
            self.matrix(),
        );
        concluded(outcome, canonical.frame_info(VideoType::Rgbx))
    }
}

} // verus!
