//! A ROM backing store: a byte array covering an inclusive address range,
//! meant to be filled with an image once and then only read.

use vstd::prelude::*;

use crate::bus::{BusDevice, DevView};
use crate::ram::zeroed_bytes;

verus! {

/// A ROM region covering the inclusive range `start` to `end`. The image is
/// placed into `data` before the region is put on the bus; the bus itself
/// enforces no read-only policy beyond what the surrounding program does.
pub struct Rom {
    /// The backing bytes; index i backs address start + i.
    pub data: Vec<u8>,
    /// The first address of the region.
    pub start: u16,
    /// The last address of the region.
    pub end: u16,
}

impl Rom {
    /// Creates a ROM region covering `start` to `end` inclusive, zeroed.
    pub fn new(start: u16, end: u16) -> (r: Rom)
        requires
            start <= end,
        ensures
            r.start == start,
            r.end == end,
            r.data@.len() == end - start + 1,
            forall|i: int| 0 <= i < r.data@.len() ==> r.data@[i] == 0u8,
    {
        Rom { data: zeroed_bytes((end - start) as usize + 1), start, end }
    }

    /// Turns the region into a memory device for the bus.
    pub fn into_device(self) -> (r: BusDevice)
        ensures
            r@ == (DevView { start: self.start, end: self.end, memory: true, data: self.data@ }),
    {
        BusDevice::new_memory(self.start, self.end, self.data)
    }
}

} // verus!
