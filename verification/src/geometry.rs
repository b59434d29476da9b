//! Frame dimensions and the byte counts that follow from them.

use vstd::prelude::*;

verus! {

/// Bytes per pixel of the canonical output format.
pub const CANONICAL_BYTES_PER_PIXEL: u32 = 4;

/// Width and height of a frame, in pixels.
#[derive(Clone, Copy, Debug, PartialEq, Eq, Structural)]
pub struct Size {
    pub width: u32,
    pub height: u32,
}

impl Size {
    /// Number of pixels in a frame of this size.
    pub open spec fn pixels(self) -> int {
        self.width * self.height
    }

    /// Bytes in one canonical row: four per pixel.
    pub open spec fn canonical_stride(self) -> int {
        self.width * 4
    }

    /// Bytes in a whole canonical frame: `height` rows of `width * 4` bytes.
    pub open spec fn canonical_len(self) -> int {
        self.height * (self.width * 4)
    }

    /// Bytes in a frame that is packed with `unit` bytes per pixel.
    pub open spec fn packed_len(self, unit: int) -> int {
        unit * self.pixels()
    }

    /// A size of `width` by `height` pixels.
    pub fn new(width: u32, height: u32) -> (size: Size)
        ensures
            size.width == width,
            size.height == height,
    {
        Size { width, height }
    }

    /// Whether the frame holds no pixel at all.
    pub fn is_empty(&self) -> (empty: bool)
        ensures
            empty == (self.width == 0 || self.height == 0),
    {
        self.width == 0 || self.height == 0
    }

    /// The byte count of a frame with `unit` bytes per pixel, or `None`
    /// where that count does not fit in `usize`.
    pub fn checked_len(&self, unit: u32) -> (len: Option<usize>)
        ensures
            len is Some <==> self.packed_len(unit as int) <= usize::MAX,
            len is Some ==> len->0 == self.packed_len(unit as int),
    {
        assert(self.width * self.height <= 0xffff_ffff * 0xffff_ffff) by (nonlinear_arith)
            requires
                self.width <= 0xffff_ffff,
                self.height <= 0xffff_ffff,
        ;
        let pixels: u64 = (self.width as u64) * (self.height as u64);
        assert(pixels * unit <= 0xffff_ffff_ffff_ffff * 0xffff_ffff) by (nonlinear_arith)
            requires
                pixels <= 0xffff_ffff_ffff_ffff,
                unit <= 0xffff_ffff,
        ;
        let bytes: u128 = (pixels as u128) * (unit as u128);
        assert(bytes == self.packed_len(unit as int)) by (nonlinear_arith)
            requires
                pixels == self.width * self.height,
                bytes == pixels * unit,
                self.packed_len(unit as int) == unit * (self.width * self.height),
        ;
        if bytes <= usize::MAX as u128 {
            Some(bytes as usize)
        } else {
            None
        }
    }

    /// The canonical row length, or `None` where it does not fit in `u32`.
    pub fn checked_canonical_stride(&self) -> (stride: Option<u32>)
        ensures
            stride is Some <==> self.canonical_stride() <= u32::MAX,
            stride is Some ==> stride->0 == self.canonical_stride(),
    {
        self.width.checked_mul(CANONICAL_BYTES_PER_PIXEL)
    }
}

/// The canonical frame length is four bytes for every pixel.
pub proof fn canonical_len_is_four_per_pixel(size: Size)
    ensures
        size.canonical_len() == size.packed_len(4),
        size.canonical_len() == size.height * size.canonical_stride(),
{
    assert(size.height * (size.width * 4) == 4 * (size.width * size.height))
        by (nonlinear_arith);
}

} // verus!
