//! The processor status flags, represented as named bit masks over a plain
//! 8-bit integer, together with the spec-level helpers the contracts use to
//! describe flag updates.

use vstd::prelude::*;

verus! {

/// Carry flag: set when an arithmetic operation carries or borrows out.
pub const FLAG_CARRY: u8 = 0x01;

/// Zero flag: set when the result of an operation is zero.
pub const FLAG_ZERO: u8 = 0x02;

/// Interrupt-disable flag: set to mask IRQ interrupts.
pub const FLAG_INTERRUPT_DISABLE: u8 = 0x04;

/// Decimal-mode flag: selects BCD arithmetic on original hardware.
pub const FLAG_DECIMAL_MODE: u8 = 0x08;

/// Break flag: reported set in status bytes pushed by BRK and PHP.
pub const FLAG_BREAK: u8 = 0x10;

/// Unused flag: architecturally always reported as set.
pub const FLAG_UNUSED: u8 = 0x20;

/// Overflow flag: set on signed overflow of an arithmetic operation.
pub const FLAG_OVERFLOW: u8 = 0x40;

/// Negative flag: set when bit 7 of a result is set.
pub const FLAG_NEGATIVE: u8 = 0x80;

/// True iff `flag` is set in the status byte `p`.
pub open spec fn spec_has_flag(p: u8, flag: u8) -> bool {
    p & flag != 0
}

/// The status byte `p` with `flag` set or cleared according to `value`.
pub open spec fn spec_apply_flag(p: u8, flag: u8, value: bool) -> u8 {
    if value {
        p | flag
    } else {
        p & !flag
    }
}

/// The status byte `p` after the zero and negative flags have been updated
/// for the result value `v`: zero iff `v` is 0, negative iff bit 7 of `v`
/// is set.
pub open spec fn spec_update_zn(p: u8, v: u8) -> u8 {
    spec_apply_flag(spec_apply_flag(p, FLAG_ZERO, v == 0), FLAG_NEGATIVE, v & 0x80 != 0)
}

} // verus!
