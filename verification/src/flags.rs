//! The settings that the command line carries.

use vstd::prelude::*;
use crate::geometry::Size;
use crate::negotiate::{lowercased, Negotiator, Preference};
use crate::transmit::{reinterpreted, Transmitter};

verus! {

/// The frame width that is asked for where none is given.
pub const DEFAULT_WIDTH: u32 = 1920;

/// The frame height that is asked for where none is given.
pub const DEFAULT_HEIGHT: u32 = 1080;

/// The frame rate that is announced where none is given.
pub const DEFAULT_FPS: u32 = 60;

/// What the user asked for.
#[derive(Clone, Debug)]
pub struct Flags {
    /// The frame width to ask the device for.
    pub width: u32,
    /// The frame height to ask the device for.
    pub height: u32,
    /// The frame rate to announce to the transport.
    pub fps: u32,
    /// The name under which the stream is announced.
    pub name: Option<String>,
    /// The name of the one converter to negotiate with.
    pub format: Option<String>,
}

impl Default for Flags {
    fn default() -> (flags: Flags)
        ensures
            flags.width == 1920,
            flags.height == 1080,
            flags.fps == 60,
            flags.name is None,
            flags.format is None,
    {
        Flags {
            width: DEFAULT_WIDTH,
            height: DEFAULT_HEIGHT,
            fps: DEFAULT_FPS,
            name: None,
            format: None,
        }
    }
}

impl Flags {
    /// The frame size to constrain the negotiated configuration to.
    pub fn size(&self) -> (size: Size)
        ensures
            size.width == self.width,
            size.height == self.height,
    {
        Size { width: self.width, height: self.height }
    }

    /// The negotiation that the flags call for: over every candidate
    /// where no format is named, else over the candidate whose name is
    /// the lower-case form of the format.
    pub fn negotiator(&self) -> (negotiator: Negotiator)
        ensures
            negotiator == Negotiator::initial(
                Preference::spec_for_name(
                    match self.format {
                        Some(name) => Some(lowercased(name@)),
                        None => None,
                    },
                ),
            ),
    {
        match &self.format {
            Some(name) => Negotiator::new(Some(name.as_str())),
            None => Negotiator::new(None),
        }
    }

    /// The transmitter for frames of `size`, which is the size that the
    /// device settled on, at the rate that the flags name.
    pub fn transmitter(&self, size: Size) -> (transmitter: Transmitter)
        ensures
            transmitter.width == reinterpreted(size.width),
            transmitter.height == reinterpreted(size.height),
            transmitter.fps == reinterpreted(self.fps),
    {
        Transmitter::new(size, self.fps)
    }
}

} // verus!
