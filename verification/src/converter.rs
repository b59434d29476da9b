//! The registry of converters: one for each source encoding, behind one
//! entry point that picks the converter by the configured encoding.

use vstd::prelude::*;
use crate::bgr::BgrStream;
use crate::canonical::{channel, is_opaque, padded, same_from, zero_source_is_opaque_black};
use crate::error::ConversionError;
use crate::format::{FrameInfo, SourceEncoding, StreamConfiguration, VideoType};
use crate::mjpeg::{mjpeg_outcome, MjpegStream};
use crate::packed::packed_outcome;
use crate::rgb::RgbStream;
use crate::yuyv::{yuyv_outcome, YuyvStream};

verus! {

/// What converting `frame` into a destination of `target_len` bytes
/// returns under `cfg`.
pub open spec fn outcome(cfg: StreamConfiguration, frame: Seq<u8>, target_len: nat) -> Result<
    FrameInfo,
    ConversionError,
> {
    match cfg.encoding {
        SourceEncoding::Bgr => packed_outcome(cfg.size, VideoType::Bgrx, frame.len(), target_len),
        SourceEncoding::Rgb => packed_outcome(cfg.size, VideoType::Rgbx, frame.len(), target_len),
        SourceEncoding::Yuyv => yuyv_outcome(cfg, frame.len(), target_len),
        SourceEncoding::Mjpeg => mjpeg_outcome(cfg.size, Some(frame), target_len),
    }
}

/// How a successful conversion of `frame` under `cfg` relates the
/// destination `after` the call to the destination `before` it.
pub open spec fn written(
    cfg: StreamConfiguration,
    frame: Seq<u8>,
    before: Seq<u8>,
    after: Seq<u8>,
) -> bool {
    match cfg.encoding {
        SourceEncoding::Bgr | SourceEncoding::Rgb => after == padded(
            frame,
            before,
            cfg.size.pixels(),
        ),
        SourceEncoding::Yuyv => {
            &&& is_opaque(after, cfg.size.pixels())
            &&& same_from(after, before, cfg.size.canonical_len())
        },
        SourceEncoding::Mjpeg => after == frame + before.subrange(
            frame.len() as int,
            before.len() as int,
        ),
    }
}

/// Converts one frame with the converter of the configured encoding. For
/// the compressed encoding `frame` holds the pixels that the decoder
/// produced.
pub fn convert(cfg: &StreamConfiguration, frame: &[u8], target: &mut [u8]) -> (r: Result<
    FrameInfo,
    ConversionError,
>)
    ensures
        r == outcome(*cfg, frame@, old(target)@.len()),
        r is Ok ==> written(*cfg, frame@, old(target)@, final(target)@),
        r is Err ==> final(target)@ == old(target)@,
{
    match cfg.encoding {
        SourceEncoding::Bgr => BgrStream.convert_frame(cfg, frame, target),
        SourceEncoding::Rgb => RgbStream.capture_frame(cfg, frame, target),
        SourceEncoding::Yuyv => YuyvStream.capture_frame(cfg, frame, target),
        SourceEncoding::Mjpeg => MjpegStream.convert_frame(cfg, Some(frame), target),
    }
}

/// A frame of an encoding that is not compressed comes out with rows of
/// four bytes per pixel and fills exactly `height` such rows.
pub proof fn uncompressed_frame_has_canonical_len(
    cfg: StreamConfiguration,
    frame: Seq<u8>,
    target_len: nat,
)
    requires
        !cfg.encoding.is_compressed(),
        outcome(cfg, frame, target_len) is Ok,
    ensures
        outcome(cfg, frame, target_len)->Ok_0.stride == cfg.size.width * 4,
        outcome(cfg, frame, target_len)->Ok_0.bytes_used == cfg.size.height * (cfg.size.width
            * 4),
        outcome(cfg, frame, target_len)->Ok_0.bytes_used <= target_len,
{
}

/// A decoded frame of the compressed encoding may fill less than the
/// destination, and never more.
pub proof fn compressed_frame_fits(cfg: StreamConfiguration, frame: Seq<u8>, target_len: nat)
    requires
        cfg.encoding.is_compressed(),
        target_len <= usize::MAX,
        outcome(cfg, frame, target_len) is Ok,
    ensures
        outcome(cfg, frame, target_len)->Ok_0.bytes_used == frame.len(),
        outcome(cfg, frame, target_len)->Ok_0.bytes_used <= target_len,
{
}

/// A successful conversion never changes the size of the destination.
pub proof fn conversion_keeps_len(
    cfg: StreamConfiguration,
    frame: Seq<u8>,
    before: Seq<u8>,
    after: Seq<u8>,
)
    requires
        outcome(cfg, frame, before.len()) is Ok,
        written(cfg, frame, before, after),
    ensures
        after.len() == before.len(),
{
}

/// A frame of zero bytes of an uncompressed encoding converts to pixels
/// whose fourth byte is 255. Where the source holds three colour bytes
/// per pixel, the colour bytes of the output are zero as well.
pub proof fn zero_frame_is_opaque(
    cfg: StreamConfiguration,
    frame: Seq<u8>,
    before: Seq<u8>,
    after: Seq<u8>,
)
    requires
        !cfg.encoding.is_compressed(),
        forall|i: int| 0 <= i < frame.len() ==> frame[i] == 0,
        outcome(cfg, frame, before.len()) is Ok,
        written(cfg, frame, before, after),
    ensures
        is_opaque(after, cfg.size.pixels()),
        cfg.encoding != SourceEncoding::Yuyv ==> forall|p: int, c: int|
            0 <= p < cfg.size.pixels() && 0 <= c < 3 ==> #[trigger] channel(after, p, c) == 0,
{
    crate::geometry::canonical_len_is_four_per_pixel(cfg.size);
    if cfg.encoding != SourceEncoding::Yuyv {
        let pixels = cfg.size.pixels();
        assert(0 <= pixels) by (nonlinear_arith)
            requires
                pixels == cfg.size.width * cfg.size.height,
        ;
        zero_source_is_opaque_black(frame, before, pixels);
    }
}

/// Converting one source twice, into destinations that may differ, gives
/// the same frame bytes both times. This holds of every encoding whose
/// output this library describes byte for byte, which leaves out the
/// packed luma-chroma encoding.
pub proof fn conversion_is_repeatable(
    cfg: StreamConfiguration,
    frame: Seq<u8>,
    first_before: Seq<u8>,
    first_after: Seq<u8>,
    second_before: Seq<u8>,
    second_after: Seq<u8>,
)
    requires
        cfg.encoding != SourceEncoding::Yuyv,
        outcome(cfg, frame, first_before.len()) is Ok,
        outcome(cfg, frame, second_before.len()) is Ok,
        written(cfg, frame, first_before, first_after),
        written(cfg, frame, second_before, second_after),
    ensures
        outcome(cfg, frame, first_before.len()) == outcome(cfg, frame, second_before.len()),
        first_after.subrange(0, outcome(cfg, frame, first_before.len())->Ok_0.bytes_used as int)
            == second_after.subrange(
            0,
            outcome(cfg, frame, first_before.len())->Ok_0.bytes_used as int,
        ),
{
    crate::geometry::canonical_len_is_four_per_pixel(cfg.size);
}

} // verus!
