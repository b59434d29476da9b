//! Two alternating output regions for converted frames.
//!
//! One region is current: it holds the frame that was converted last, and
//! is what the buffer dereferences to for reading. The other is next: the
//! frame in progress is written into it, and it is what the buffer
//! dereferences to for writing. `swap` exchanges the two roles, so that a
//! frame written through the mutable dereference is read through the
//! shared one after the next swap, and not before.

use std::ops::{Deref, DerefMut};
use vstd::prelude::*;
use crate::geometry::Size;

verus! {

/// What a double buffer holds: the bytes of its two regions, and which of
/// them is current.
pub struct Regions {
    pub a: Seq<u8>,
    pub b: Seq<u8>,
    pub a_is_current: bool,
}

impl Regions {
    /// The region that may be read.
    pub open spec fn current(self) -> Seq<u8> {
        if self.a_is_current {
            self.a
        } else {
            self.b
        }
    }

    /// The region that is written next.
    pub open spec fn next(self) -> Seq<u8> {
        if self.a_is_current {
            self.b
        } else {
            self.a
        }
    }

    /// The regions with the roles exchanged.
    pub open spec fn swapped(self) -> Regions {
        Regions { a: self.a, b: self.b, a_is_current: !self.a_is_current }
    }

    /// The regions after `n` exchanges.
    pub open spec fn after_swaps(self, n: nat) -> Regions
        decreases n,
    {
        if n == 0 {
            self
        } else {
            self.after_swaps((n - 1) as nat).swapped()
        }
    }

    /// The regions with `bytes` in place of the next region.
    pub open spec fn with_next(self, bytes: Seq<u8>) -> Regions {
        if self.a_is_current {
            Regions { a: self.a, b: bytes, a_is_current: true }
        } else {
            Regions { a: bytes, b: self.b, a_is_current: false }
        }
    }

    /// The regions with `bytes` in place of the current region.
    pub open spec fn with_current(self, bytes: Seq<u8>) -> Regions {
        if self.a_is_current {
            Regions { a: bytes, b: self.b, a_is_current: true }
        } else {
            Regions { a: self.a, b: bytes, a_is_current: false }
        }
    }

    /// Both regions have one size.
    pub open spec fn balanced(self) -> bool {
        self.a.len() == self.b.len()
    }
}

/// A sequence of `len` zero bytes.
pub open spec fn zeroed(len: nat) -> Seq<u8> {
    Seq::new(len, |i: int| 0u8)
}

/// A pair of equally sized byte regions, one of which is current.
pub struct DoubleBuffer {
    buffer_a: Vec<u8>,
    buffer_b: Vec<u8>,
    index: usize,
}

impl View for DoubleBuffer {
    type V = Regions;

    closed spec fn view(&self) -> Regions {
        Regions { a: self.buffer_a@, b: self.buffer_b@, a_is_current: self.index % 2 == 0 }
    }
}

impl DoubleBuffer {
    /// Two zeroed regions of the canonical frame length of `size`, the
    /// first of them current.
    pub fn new(size: Size) -> (buffer: DoubleBuffer)
        requires
            size.canonical_len() <= usize::MAX,
        ensures
            buffer@.a == zeroed(size.canonical_len() as nat),
            buffer@.b == zeroed(size.canonical_len() as nat),
            buffer@.a_is_current,
    {
        proof {
            crate::geometry::canonical_len_is_four_per_pixel(size);
        }
        let len: usize = (size.width as usize) * (size.height as usize) * 4;
        DoubleBuffer { buffer_a: vec![0u8; len], buffer_b: vec![0u8; len], index: 0 }
    }

    /// Exchanges the roles of the two regions. Their bytes stay.
    pub fn swap(&mut self)
        ensures
            final(self)@ == old(self)@.swapped(),
    {
        self.index = self.index.wrapping_add(1);
    }

    /// The current region, for a transport that asks for exclusive access
    /// to the frame it sends. This is not the view to convert into: the
    /// next region is out of reach of the borrow and keeps its bytes.
    pub fn current_mut(&mut self) -> (bytes: &mut [u8])
        ensures
            bytes@ == old(self)@.current(),
            final(self)@ == old(self)@.with_current(final(bytes)@),
    {
        if self.index % 2 == 0 {
            self.buffer_a.as_mut_slice()
        } else {
            self.buffer_b.as_mut_slice()
        }
    }
}

impl Deref for DoubleBuffer {
    type Target = [u8];

    /// The current region, for reading.
    fn deref(&self) -> (bytes: &[u8])
        ensures
            bytes@ == self@.current(),
    {
        if self.index % 2 == 0 {
            self.buffer_a.as_slice()
        } else {
            self.buffer_b.as_slice()
        }
    }
}

impl DerefMut for DoubleBuffer {
    /// The next region, for writing: the one that `deref` does not return.
    /// The current region is out of reach of the borrow and keeps its
    /// bytes, so what `deref` returns does not change before the next swap.
    fn deref_mut(&mut self) -> (bytes: &mut [u8])
        ensures
            bytes@ == old(self)@.next(),
            final(self)@ == old(self)@.with_next(final(bytes)@),
    {
        if self.index % 2 == 0 {
            self.buffer_b.as_mut_slice()
        } else {
            self.buffer_a.as_mut_slice()
        }
    }
}

/// After `n` exchanges the first region is current when `n` is even and
/// the second when `n` is odd, given that the first was current at the
/// start; exchanges never touch the bytes.
pub proof fn swaps_alternate(regions: Regions, n: nat)
    ensures
        regions.after_swaps(n).a == regions.a,
        regions.after_swaps(n).b == regions.b,
        regions.after_swaps(n).a_is_current == (regions.a_is_current == (n % 2 == 0)),
        regions.a_is_current ==> regions.after_swaps(n).current() == if n % 2 == 0 {
            regions.a
        } else {
            regions.b
        },
    decreases n,
{
    if n > 0 {
        swaps_alternate(regions, (n - 1) as nat);
    }
}

/// Writing the next region leaves the current one as it was, and writing
/// the current region leaves the next one as it was.
pub proof fn regions_are_written_apart(regions: Regions, bytes: Seq<u8>)
    ensures
        regions.with_next(bytes).current() == regions.current(),
        regions.with_next(bytes).next() == bytes,
        regions.with_current(bytes).next() == regions.next(),
        regions.with_current(bytes).current() == bytes,
{
}

/// What is written into the next region is what is read after one swap,
/// and the region that was read before is the one to write next.
pub proof fn written_frame_is_current_after_swap(regions: Regions, bytes: Seq<u8>)
    ensures
        regions.with_next(bytes).swapped().current() == bytes,
        regions.with_next(bytes).swapped().next() == regions.current(),
{
}

/// Two exchanges in a row restore the roles.
pub proof fn swap_twice_restores(regions: Regions)
    ensures
        regions.swapped().swapped() == regions,
        regions.swapped().current() == regions.next(),
        regions.swapped().next() == regions.current(),
{
}

} // verus!
