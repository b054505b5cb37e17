//! The addressing modes of the instruction set.
//!
//! Each mode decides how the operand bytes following an opcode are turned
//! into an effective address (or an implied accumulator operand), how far
//! the program counter advances, and whether the access owes an extra cycle
//! for crossing a page boundary. The resolver itself operates on the CPU
//! state and lives in [`crate::cpu`].

use vstd::prelude::*;

use crate::bus::bus_read;
use crate::cpu::{Cpu, CpuState};

verus! {

/// The addressing-mode tags of the instruction set.
#[derive(Clone, Copy, Debug, PartialEq, Eq, Structural)]
pub enum AddressingMode {
    /// No memory operand; the accumulator value is the operand.
    Implied,
    /// The operand byte is at the program counter itself.
    Immediate,
    /// A 16-bit operand names the effective address.
    Absolute,
    /// A 16-bit operand plus the X register names the effective address.
    AbsoluteX,
    /// A 16-bit operand plus the Y register names the effective address.
    AbsoluteY,
    /// A 16-bit pointer is read, then the effective address is read through
    /// it, reproducing the hardware page-wrap bug when the pointer's low
    /// byte is 0xFF.
    Indirect,
    /// A zero-page pointer offset by X (wrapping within page zero) is
    /// dereferenced for the effective address.
    IndexedIndirect,
    /// A zero-page pointer is dereferenced, then the Y register is added to
    /// the resulting base address.
    IndirectIndexed,
    /// A signed 8-bit displacement for branch instructions.
    Relative,
    /// A single operand byte names an address within page zero.
    ZeroPage,
    /// A single operand byte plus X, wrapping within page zero.
    ZeroPageX,
    /// A single operand byte plus Y, wrapping within page zero.
    ZeroPageY,
}

/// The effect of resolving addressing mode `mode` in state `s`: the new
/// state (effective address or latched operand computed, program counter
/// advanced past the operand bytes) and whether the access owes an extra
/// cycle for crossing a page boundary.
pub open spec fn resolve_effect(s: CpuState, mode: AddressingMode) -> (CpuState, bool) {
    match mode {
        AddressingMode::Implied => (CpuState { fetched_data: s.a, ..s }, false),
        AddressingMode::Immediate => (
            CpuState { address_absolute: s.pc, pc: s.pc.wrapping_add(1), ..s },
            false,
        ),
        AddressingMode::Absolute => {
            let lo = bus_read(s.bus, s.pc);
            let hi = bus_read(s.bus, s.pc.wrapping_add(1));
            let address = ((hi as u16) * 256 + (lo as u16)) as u16;
            (CpuState { address_absolute: address, pc: s.pc.wrapping_add(2), ..s }, false)
        },
        AddressingMode::AbsoluteX => {
            let lo = bus_read(s.bus, s.pc);
            let hi = bus_read(s.bus, s.pc.wrapping_add(1));
            let base = ((hi as u16) * 256 + (lo as u16)) as u16;
            let address = base.wrapping_add(s.x as u16);
            (
                CpuState { address_absolute: address, pc: s.pc.wrapping_add(2), ..s },
                address & 0xFF00 != base & 0xFF00,
            )
        },
        AddressingMode::AbsoluteY => {
            let lo = bus_read(s.bus, s.pc);
            let hi = bus_read(s.bus, s.pc.wrapping_add(1));
            let base = ((hi as u16) * 256 + (lo as u16)) as u16;
            let address = base.wrapping_add(s.y as u16);
            (
                CpuState { address_absolute: address, pc: s.pc.wrapping_add(2), ..s },
                address & 0xFF00 != base & 0xFF00,
            )
        },
        AddressingMode::Indirect => {
            let ptr_lo = bus_read(s.bus, s.pc);
            let ptr_hi = bus_read(s.bus, s.pc.wrapping_add(1));
            let ptr = ((ptr_hi as u16) * 256 + (ptr_lo as u16)) as u16;
            let target_lo = bus_read(s.bus, ptr);
            let target_hi = if ptr_lo == 0xFF {
                bus_read(s.bus, ptr & 0xFF00)
            } else {
                bus_read(s.bus, (ptr + 1) as u16)
            };
            let address = ((target_hi as u16) * 256 + (target_lo as u16)) as u16;
            (CpuState { address_absolute: address, pc: s.pc.wrapping_add(2), ..s }, false)
        },
        AddressingMode::IndexedIndirect => {
            let operand = bus_read(s.bus, s.pc);
            let lo_pointer = ((operand as u16 + s.x as u16) % 256) as u16;
            let hi_pointer = ((operand as u16 + s.x as u16 + 1) % 256) as u16;
            let lo = bus_read(s.bus, lo_pointer);
            let hi = bus_read(s.bus, hi_pointer);
            let address = ((hi as u16) * 256 + (lo as u16)) as u16;
            (CpuState { address_absolute: address, pc: s.pc.wrapping_add(1), ..s }, false)
        },
        AddressingMode::IndirectIndexed => {
            let operand = bus_read(s.bus, s.pc);
            let lo = bus_read(s.bus, operand as u16);
            let hi = bus_read(s.bus, (operand as u16 + 1) as u16);
            let base = ((hi as u16) * 256 + (lo as u16)) as u16;
            let address = base.wrapping_add(s.y as u16);
            (
                CpuState { address_absolute: address, pc: s.pc.wrapping_add(1), ..s },
                address & 0xFF00 != base & 0xFF00,
            )
        },
        AddressingMode::Relative => {
            let displacement = bus_read(s.bus, s.pc) as u16;
            let relative = if displacement & 0x80 != 0 {
                displacement | 0xFF00
            } else {
                displacement
            };
            (CpuState { address_relative: relative, pc: s.pc.wrapping_add(1), ..s }, false)
        },
        AddressingMode::ZeroPage => {
            let address = bus_read(s.bus, s.pc) as u16;
            (CpuState { address_absolute: address, pc: s.pc.wrapping_add(1), ..s }, false)
        },
        AddressingMode::ZeroPageX => {
            let address = ((bus_read(s.bus, s.pc) as u16 + s.x as u16) % 256) as u16;
            (
                CpuState { address_absolute: address, pc: s.pc.wrapping_add(1), ..s },
                false,
            )
        },
        AddressingMode::ZeroPageY => {
            let address = ((bus_read(s.bus, s.pc) as u16 + s.y as u16) % 256) as u16;
            (
                CpuState { address_absolute: address, pc: s.pc.wrapping_add(1), ..s },
                false,
            )
        },
    }
}

impl AddressingMode {
    /// Resolves this addressing mode on `cpu`: computes the effective
    /// address (or latches the accumulator for the implied mode), advances
    /// the program counter past the operand bytes, and reports whether the
    /// access owes an extra cycle for crossing a page boundary.
    pub fn execute(&self, cpu: &mut Cpu) -> (extra: bool)
        ensures
            final(cpu)@ == resolve_effect(old(cpu)@, *self).0,
            extra == resolve_effect(old(cpu)@, *self).1,
    {
        match self {
            AddressingMode::Implied => {
                cpu.fetched_data = cpu.a.get();
                assert(cpu@ =~= resolve_effect(old(cpu)@, *self).0);
                false
            },
            AddressingMode::Immediate => {
                cpu.address_absolute = cpu.pc.get();
                cpu.pc.add_assign(1);
                assert(cpu@ =~= resolve_effect(old(cpu)@, *self).0);
                false
            },
            AddressingMode::Absolute => {
                let lo = cpu.read8(cpu.pc.get());
                let hi = cpu.read8(cpu.pc.get().wrapping_add(1));
                cpu.address_absolute = (hi as u16) * 256 + (lo as u16);
                cpu.pc.add_assign(2);
                assert(cpu@ =~= resolve_effect(old(cpu)@, *self).0);
                false
            },
            AddressingMode::AbsoluteX => {
                let lo = cpu.read8(cpu.pc.get());
                let hi = cpu.read8(cpu.pc.get().wrapping_add(1));
                let base = (hi as u16) * 256 + (lo as u16);
                let address = base.wrapping_add(cpu.x.get() as u16);
                cpu.address_absolute = address;
                cpu.pc.add_assign(2);
                assert(cpu@ =~= resolve_effect(old(cpu)@, *self).0);
                address & 0xFF00 != base & 0xFF00
            },
            AddressingMode::AbsoluteY => {
                let lo = cpu.read8(cpu.pc.get());
                let hi = cpu.read8(cpu.pc.get().wrapping_add(1));
                let base = (hi as u16) * 256 + (lo as u16);
                let address = base.wrapping_add(cpu.y.get() as u16);
                cpu.address_absolute = address;
                cpu.pc.add_assign(2);
                assert(cpu@ =~= resolve_effect(old(cpu)@, *self).0);
                address & 0xFF00 != base & 0xFF00
            },
            AddressingMode::Indirect => {
                let ptr_lo = cpu.read8(cpu.pc.get());
                let ptr_hi = cpu.read8(cpu.pc.get().wrapping_add(1));
                let ptr = (ptr_hi as u16) * 256 + (ptr_lo as u16);
                let target_lo = cpu.read8(ptr);
                let target_hi = if ptr_lo == 0xFF {
                    // The hardware bug: the pointer's high byte is fetched
                    // from the start of the pointer's own page, not from the
                    // next page.
                    cpu.read8(ptr & 0xFF00)
                } else {
                    cpu.read8(ptr + 1)
                };
                cpu.address_absolute = (target_hi as u16) * 256 + (target_lo as u16);
                cpu.pc.add_assign(2);
                assert(cpu@ =~= resolve_effect(old(cpu)@, *self).0);
                false
            },
            AddressingMode::IndexedIndirect => {
                let operand = cpu.read8(cpu.pc.get());
                let lo_pointer = (operand as u16 + cpu.x.get() as u16) % 256;
                let hi_pointer = (operand as u16 + cpu.x.get() as u16 + 1) % 256;
                let lo = cpu.read8(lo_pointer);
                let hi = cpu.read8(hi_pointer);
                cpu.address_absolute = (hi as u16) * 256 + (lo as u16);
                cpu.pc.add_assign(1);
                assert(cpu@ =~= resolve_effect(old(cpu)@, *self).0);
                false
            },
            AddressingMode::IndirectIndexed => {
                let operand = cpu.read8(cpu.pc.get());
                let lo = cpu.read8(operand as u16);
                let hi = cpu.read8(operand as u16 + 1);
                let base = (hi as u16) * 256 + (lo as u16);
                let address = base.wrapping_add(cpu.y.get() as u16);
                cpu.address_absolute = address;
                cpu.pc.add_assign(1);
                assert(cpu@ =~= resolve_effect(old(cpu)@, *self).0);
                address & 0xFF00 != base & 0xFF00
            },
            AddressingMode::Relative => {
                let displacement = cpu.read8(cpu.pc.get()) as u16;
                let relative = if displacement & 0x80 != 0 {
                    displacement | 0xFF00
                } else {
                    displacement
                };
                cpu.address_relative = relative;
                cpu.pc.add_assign(1);
                assert(cpu@ =~= resolve_effect(old(cpu)@, *self).0);
                false
            },
            AddressingMode::ZeroPage => {
                cpu.address_absolute = cpu.read8(cpu.pc.get()) as u16;
                cpu.pc.add_assign(1);
                assert(cpu@ =~= resolve_effect(old(cpu)@, *self).0);
                false
            },
            AddressingMode::ZeroPageX => {
                cpu.address_absolute = (cpu.read8(cpu.pc.get()) as u16 + cpu.x.get() as u16) % 256;
                cpu.pc.add_assign(1);
                assert(cpu@ =~= resolve_effect(old(cpu)@, *self).0);
                false
            },
            AddressingMode::ZeroPageY => {
                cpu.address_absolute = (cpu.read8(cpu.pc.get()) as u16 + cpu.y.get() as u16) % 256;
                cpu.pc.add_assign(1);
                assert(cpu@ =~= resolve_effect(old(cpu)@, *self).0);
                false
            },
        }
    }
}

} // verus!
