//! The LED demo peripheral: a write-triggered bit display.
//!
//! The device owns three addresses. Writing 0xFF to the last one enables
//! it; once enabled, every write to the first address asks for the written
//! byte to be displayed. The display itself is I/O and belongs to the
//! program around the library; this type only decides, and states in its
//! contract, when a byte is to be shown.

use vstd::prelude::*;

verus! {

/// The LED demo peripheral's state.
pub struct Blink8 {
    /// True once the device has been enabled by its magic write.
    pub enabled: bool,
    /// The first address the device owns.
    pub start: u16,
    /// The last address the device owns; writing 0xFF here enables it.
    pub end: u16,
}

impl Blink8 {
    /// Creates a disabled device owning addresses 0x8000 to 0x8002.
    pub fn new() -> (r: Blink8)
        ensures
            r.enabled == false,
            r.start == 0x8000u16,
            r.end == 0x8002u16,
    {
        Blink8 { enabled: false, start: 0x8000, end: 0x8002 }
    }

    /// The device is I/O, not memory.
    pub fn is_memory(&self) -> (r: bool)
        ensures
            r == false,
    {
        false
    }

    /// The device is write-only; every read yields 0xFF.
    pub fn read(&self, _address: u16) -> (r: u8)
        ensures
            r == 0xFFu8,
    {
        0xFF
    }

    /// Handles a write: a write of 0xFF to the last owned address enables
    /// the device, and a write to the first owned address of an enabled
    /// device returns the byte to be displayed.
    pub fn write(&mut self, address: u16, value: u8) -> (display: Option<u8>)
        ensures
            final(self).start == old(self).start,
            final(self).end == old(self).end,
            final(self).enabled == (old(self).enabled || (address == old(self).end && value
                == 0xFF)),
            display == if address == old(self).start && final(self).enabled {
                Some(value)
            } else {
                Option::<u8>::None
            },
    {
        if address == self.end && value == 0xFF {
            self.enabled = true;
        }
        if address == self.start && self.enabled {
            Some(value)
        } else {
            None
        }
    }

    /// Disables the device.
    pub fn reset(&mut self)
        ensures
            final(self).enabled == false,
            final(self).start == old(self).start,
            final(self).end == old(self).end,
    {
        self.enabled = false;
    }

    /// The first address the device owns.
    pub fn start_address(&self) -> (r: u16)
        ensures
            r == self.start,
    {
        self.start
    }

    /// The last address the device owns.
    pub fn end_address(&self) -> (r: u16)
        ensures
            r == self.end,
    {
        self.end
    }
}

} // verus!
