//! The converter for packed blue-green-red sources.

use vstd::prelude::*;
use crate::canonical::padded;
use crate::error::ConversionError;
use crate::format::{FrameInfo, StreamConfiguration, VideoType};
use crate::negotiate::{supports_configuration, ProbeReply};
use crate::packed::{expand, packed_outcome};

verus! {

/// Converts three-byte blue-green-red pixels to `Bgrx`.
#[derive(Clone, Copy, Debug, PartialEq, Eq, Structural)]
pub struct BgrStream;

impl BgrStream {
    /// The name by which the converter is asked for.
    pub fn name(&self) -> (name: &'static str)
        ensures
            name@ == "bgr"@,
    {
        "bgr"
    }

    /// The name of the device pixel format that the converter reads.
    pub fn pixel_format_name(&self) -> (name: &'static str)
        ensures
            name@ == "BGR888"@,
    {
        "BGR888"
    }

    /// Whether the device, asked for this converter's format, kept it.
    pub fn is_supported(&self, reply: &ProbeReply) -> (supported: bool)
        ensures
            supported == reply.accepted(),
    {
        supports_configuration(reply)
    }

    /// Converts one frame into `target_buffer`. The frame is read from
    /// the head of `frame`; bytes behind it are ignored.
    pub fn convert_frame(
        &self,
        cfg: &StreamConfiguration,
        frame: &[u8],
        target_buffer: &mut [u8],
    ) -> (r: Result<FrameInfo, ConversionError>)
        ensures
            r == packed_outcome(
                cfg.size,
                VideoType::Bgrx,
                frame@.len(),
                old(target_buffer)@.len(),
            ),
            r is Ok ==> final(target_buffer)@ == padded(
                frame@,
                old(target_buffer)@,
                cfg.size.pixels(),
            ),
            r is Err ==> final(target_buffer)@ == old(target_buffer)@,
    {
        expand(VideoType::Bgrx, &cfg.size, frame, target_buffer)
    }
}

} // verus!
