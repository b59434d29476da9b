//! The description of a converted frame that the transport needs: its
//! geometry, its rate and how its bytes are to be read.

use vstd::prelude::*;
use crate::format::{FrameInfo, VideoType};
use crate::geometry::Size;

verus! {

/// How the lines of a frame follow each other in time.
#[derive(Clone, Copy, Debug, PartialEq, Eq, Structural)]
pub enum FrameFormat {
    /// All lines belong to one moment.
    Progressive,
    /// Two fields in one frame, the upper one first.
    Interleaved,
    /// The upper field alone.
    Field0,
    /// The lower field alone.
    Field1,
}

/// One frame as the transport takes it, without its bytes.
#[derive(Clone, Copy, Debug, PartialEq, Eq, Structural)]
pub struct VideoFrame {
    pub width: i32,
    pub height: i32,
    pub video_type: VideoType,
    pub frame_rate_numerator: i32,
    pub frame_rate_denominator: i32,
    pub frame_format: FrameFormat,
    pub timecode: i64,
    pub stride: i32,
}

/// The value of a 32-bit unsigned number when its bits are read as a
/// signed one: itself up to `i32::MAX`, and `2^32` less above.
pub open spec fn reinterpreted(value: u32) -> int {
    if value <= i32::MAX {
        value as int
    } else {
        value - 0x1_0000_0000
    }
}

/// Reads the bits of `value` as a signed number.
pub fn reinterpret(value: u32) -> (signed: i32)
    ensures
        signed == reinterpreted(value),
{
    assert(value <= 0x7fff_ffffu32 ==> (value as i32) == value) by (bit_vector);
    assert(value > 0x7fff_ffffu32 ==> (value as i32) == value - 0x1_0000_0000) by (bit_vector);
    value as i32
}

/// The part of every frame's description that stays the same from frame
/// to frame: the geometry and the rate.
#[derive(Clone, Copy, Debug, PartialEq, Eq, Structural)]
pub struct Transmitter {
    pub width: i32,
    pub height: i32,
    pub fps: i32,
}

impl Transmitter {
    /// A transmitter for frames of `size` at `fps` frames per second.
    pub fn new(size: Size, fps: u32) -> (transmitter: Transmitter)
        ensures
            transmitter.width == reinterpreted(size.width),
            transmitter.height == reinterpreted(size.height),
            transmitter.fps == reinterpreted(fps),
    {
        Transmitter {
            width: reinterpret(size.width),
            height: reinterpret(size.height),
            fps: reinterpret(fps),
        }
    }

    /// The description of the frame that `info` reports.
    pub open spec fn spec_describe(self, info: FrameInfo) -> VideoFrame {
        VideoFrame {
            width: self.width,
            height: self.height,
            video_type: info.video_type,
            frame_rate_numerator: self.fps,
            frame_rate_denominator: 1,
            frame_format: FrameFormat::Progressive,
            timecode: 0,
            stride: reinterpreted(info.stride) as i32,
        }
    }

    /// Describes a converted frame for the transport: a progressive frame
    /// of the transmitter's geometry, at its rate over one, with no
    /// timecode, read as `info` says.
    pub fn describe(&self, info: &FrameInfo) -> (frame: VideoFrame)
        ensures
            frame == self.spec_describe(*info),
    {
        VideoFrame {
            width: self.width,
            height: self.height,
            video_type: info.video_type,
            frame_rate_numerator: self.fps,
            frame_rate_denominator: 1,
            frame_format: FrameFormat::Progressive,
            timecode: 0,
            stride: reinterpret(info.stride),
        }
    }
}

} // verus!
