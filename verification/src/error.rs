//! The failures that the pipeline reports.

use vstd::prelude::*;

verus! {

/// Why a single frame could not be converted.
#[derive(Clone, Copy, Debug, PartialEq, Eq, Structural)]
pub enum ConversionError {
    /// The configured frame has no pixels.
    EmptyFrame,
    /// A row or the whole frame is larger than the machine can address.
    GeometryOverflow,
    /// The source rows are not packed the way the converter needs them.
    StrideMismatch { packed: u32, reported: u32 },
    /// The source holds fewer bytes than one frame takes.
    SourceTooShort { expected: usize, received: usize },
    /// The destination cannot hold the converted frame.
    DestinationTooShort { expected: usize, received: usize },
    /// The compressed payload could not be decoded.
    Corrupt,
    /// The conversion routine refused the frame.
    Rejected,
}

/// Why the pipeline as a whole stops.
#[derive(Clone, Copy, Debug, PartialEq, Eq, Structural)]
pub enum CaptureError {
    /// No converter's encoding is both asked for and offered by the device.
    NoSupportedFormat,
    /// The device rejected the configuration outright.
    ConfigurationInvalid,
    /// A frame failed to convert.
    Conversion(ConversionError),
    /// No request completed within the timeout window.
    CaptureTimeout,
    /// The device completed a request that was not in flight.
    UnexpectedRequest,
}

impl CaptureError {
    /// The text under which the failure is reported.
    pub open spec fn spec_message(self) -> Seq<char> {
        match self {
            CaptureError::NoSupportedFormat => "No supported stream format found"@,
            CaptureError::ConfigurationInvalid => "Error validating camera configuration"@,
            CaptureError::Conversion(_) => "Unable to convert frame"@,
            CaptureError::CaptureTimeout => "Timed out waiting for a frame"@,
            CaptureError::UnexpectedRequest => "Unexpected capture request completed"@,
        }
    }

    /// The text under which the failure is reported.
    pub fn message(&self) -> (text: &'static str)
        ensures
            text@ == self.spec_message(),
    {
        match self {
            CaptureError::NoSupportedFormat => "No supported stream format found",
            CaptureError::ConfigurationInvalid => "Error validating camera configuration",
            CaptureError::Conversion(_) => "Unable to convert frame",
            CaptureError::CaptureTimeout => "Timed out waiting for a frame",
            CaptureError::UnexpectedRequest => "Unexpected capture request completed",
        }
    }
}

} // verus!
