//! A plain RAM backing store: a zero-initialized byte array covering an
//! inclusive address range.

use vstd::prelude::*;

use crate::bus::{BusDevice, DevView};

verus! {

/// A RAM region: readable and writable memory covering the inclusive range
/// `start` to `end`.
pub struct Ram {
    /// The backing bytes; index i backs address start + i.
    pub data: Vec<u8>,
    /// The first address of the region.
    pub start: u16,
    /// The last address of the region.
    pub end: u16,
}

impl Ram {
    /// Creates a RAM region covering `start` to `end` inclusive, zeroed.
    pub fn new(start: u16, end: u16) -> (r: Ram)
        requires
            start <= end,
        ensures
            r.start == start,
            r.end == end,
            r.data@.len() == end - start + 1,
            forall|i: int| 0 <= i < r.data@.len() ==> r.data@[i] == 0u8,
    {
        Ram { data: zeroed_bytes((end - start) as usize + 1), start, end }
    }

    /// Turns the region into a memory device for the bus.
    pub fn into_device(self) -> (r: BusDevice)
        ensures
            r@ == (DevView { start: self.start, end: self.end, memory: true, data: self.data@ }),
    {
        BusDevice::new_memory(self.start, self.end, self.data)
    }
}

/// Builds a vector of `n` zero bytes.
pub fn zeroed_bytes(n: usize) -> (r: Vec<u8>)
    ensures
        r@.len() == n,
        forall|i: int| 0 <= i < n ==> r@[i] == 0u8,
{
    let mut data: Vec<u8> = Vec::new();
    while data.len() < n
        invariant
            data@.len() <= n,
            forall|i: int| 0 <= i < data@.len() ==> data@[i] == 0u8,
        decreases n - data@.len(),
    {
        data.push(0);
    }
    data
}

} // verus!
