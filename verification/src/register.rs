//! The CPU register file primitives: 8-bit and 16-bit registers.
//!
//! All registers wrap modulo their bit width; the arithmetic helpers here
//! therefore never overflow or panic.

use vstd::prelude::*;

verus! {

/// An 8-bit register.
#[derive(Clone, Copy)]
pub struct Register8 {
    /// The value held in the register.
    pub value: u8,
}

impl View for Register8 {
    type V = u8;

    open spec fn view(&self) -> u8 {
        self.value
    }
}

impl Register8 {
    /// Creates a register holding 0.
    pub fn new() -> (r: Register8)
        ensures
            r@ == 0u8,
    {
        Register8 { value: 0 }
    }

    /// Returns the value held in the register.
    pub fn get(&self) -> (r: u8)
        ensures
            r == self@,
    {
        self.value
    }

    /// Stores `value` in the register.
    pub fn set(&mut self, value: u8)
        ensures
            final(self)@ == value,
    {
        self.value = value;
    }

    /// Clears every bit of the register that is set in `value`.
    pub fn remove(&mut self, value: u8)
        ensures
            final(self)@ == (old(self)@ & !value),
    {
        self.value = self.value & !value;
    }

    /// Returns true iff the register and `value` share a set bit.
    pub fn contains(&self, value: u8) -> (r: bool)
        ensures
            r == ((self@ & value) != 0),
    {
        self.value & value != 0
    }

    /// Adds `value` to the register, wrapping modulo 256.
    pub fn add_assign(&mut self, value: u8)
        ensures
            final(self)@ == old(self)@.wrapping_add(value),
    {
        self.value = self.value.wrapping_add(value);
    }

    /// Subtracts `value` from the register, wrapping modulo 256.
    pub fn sub_assign(&mut self, value: u8)
        ensures
            final(self)@ == old(self)@.wrapping_sub(value),
    {
        self.value = self.value.wrapping_sub(value);
    }
}

/// A 16-bit register.
#[derive(Clone, Copy)]
pub struct Register16 {
    /// The value held in the register.
    pub value: u16,
}

impl View for Register16 {
    type V = u16;

    open spec fn view(&self) -> u16 {
        self.value
    }
}

impl Register16 {
    /// Creates a register holding 0.
    pub fn new() -> (r: Register16)
        ensures
            r@ == 0u16,
    {
        Register16 { value: 0 }
    }

    /// Returns the value held in the register.
    pub fn get(&self) -> (r: u16)
        ensures
            r == self@,
    {
        self.value
    }

    /// Stores `value` in the register.
    pub fn set(&mut self, value: u16)
        ensures
            final(self)@ == value,
    {
        self.value = value;
    }

    /// Adds `value` to the register, wrapping modulo 65536.
    pub fn add_assign(&mut self, value: u16)
        ensures
            final(self)@ == old(self)@.wrapping_add(value),
    {
        self.value = self.value.wrapping_add(value);
    }
}

} // verus!
