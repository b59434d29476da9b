//! Frame acquisition and conversion for a camera-to-network video bridge.
//!
//! A camera delivers raw frames in one of several pixel encodings. This
//! library negotiates the encoding, converts every frame into a packed
//! 32-bit-per-pixel buffer, keeps two such buffers in alternation, tracks
//! the capture requests that cycle through the device, and describes each
//! converted frame for the transport that sends it on.

pub mod geometry;
pub mod error;
pub mod format;
pub mod canonical;
pub mod yuv;
pub mod packed;
pub mod rgb;
pub mod bgr;
pub mod yuyv;
pub mod mjpeg;
pub mod converter;
pub mod negotiate;
pub mod buffer;
pub mod request;
pub mod capture;
pub mod transmit;
pub mod flags;
