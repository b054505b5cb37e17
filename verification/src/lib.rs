//! A verified emulator core for the 6502-class 8-bit microprocessor.
//!
//! The crate models the register file, the status-flag semantics, the full
//! 256-entry opcode space, the instruction-relative addressing modes, and a
//! shared address bus that routes every memory access to the owning device.
//! Every executable function carries a contract stating its effect over a
//! mathematical view of the machine state.

pub mod addressing;
pub mod blink8;
pub mod bus;
pub mod cpu;
pub mod flags;
pub mod instructions;
pub mod opcodes;
pub mod ram;
pub mod register;
pub mod rom;
