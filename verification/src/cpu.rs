//! The CPU core: the register file, the transient execution state, the
//! stack and interrupt machinery, and the cycle-level clock.
//!
//! Every mutating operation is specified by a spec-level effect function
//! over [`CpuState`], the mathematical view of the whole machine (registers,
//! transient state, and the bus contents). The effect functions compose, so
//! [`Cpu::clock`] carries an exact contract for a full
//! fetch-decode-execute step.

use vstd::prelude::*;
use vstd::string::StringExecFns;
use vstd::string::StrSliceExecFns;

use crate::addressing::AddressingMode;
use crate::bus::{DevView, MainBus, bus_read, bus_read16, bus_write};
use crate::flags::{
    FLAG_BREAK,
    FLAG_CARRY,
    FLAG_DECIMAL_MODE,
    FLAG_INTERRUPT_DISABLE,
    FLAG_NEGATIVE,
    FLAG_OVERFLOW,
    FLAG_UNUSED,
    FLAG_ZERO,
    spec_apply_flag,
    spec_has_flag,
    spec_update_zn,
};
use crate::opcodes::spec_cycles;
use crate::register::{Register16, Register8};

verus! {

/// The address of the non-maskable-interrupt vector.
pub const NMI_VECTOR: u16 = 0xFFFA;

/// The address of the reset vector.
pub const RESET_VECTOR: u16 = 0xFFFC;

/// The address of the interrupt-request vector.
pub const IRQ_VECTOR: u16 = 0xFFFE;

/// The mathematical view of the whole machine: the register file, the
/// transient per-instruction state, and the contents of the bus.
#[verifier::ext_equal]
pub ghost struct CpuState {
    /// The accumulator.
    pub a: u8,
    /// The X index register.
    pub x: u8,
    /// The Y index register.
    pub y: u8,
    /// The processor status flags.
    pub p: u8,
    /// The stack pointer (an offset into page 0x0100-0x01FF).
    pub sp: u8,
    /// The program counter.
    pub pc: u16,
    /// Cycles remaining in the instruction under execution.
    pub cycles: u8,
    /// The effective address computed by the addressing mode.
    pub address_absolute: u16,
    /// The sign-extended branch displacement.
    pub address_relative: u16,
    /// The addressing mode of the instruction under execution.
    pub address_mode: AddressingMode,
    /// The opcode of the instruction under execution.
    pub opcode: u8,
    /// The operand byte fetched for the instruction under execution.
    pub fetched_data: u8,
    /// Whether illegal opcodes execute their documented composite effect.
    pub enable_illegal_opcodes: bool,
    /// How many illegal opcodes have been fetched while their execution
    /// was disabled; each was treated as a no-op of its nominal length.
    pub illegal_opcode_count: u64,
    /// True once a KIL opcode has locked the processor up.
    pub jammed: bool,
    /// The devices on the bus.
    pub bus: Seq<DevView>,
}

/// The state after a byte write on the bus.
pub open spec fn write8_effect(s: CpuState, address: u16, value: u8) -> CpuState {
    CpuState { bus: bus_write(s.bus, address, value), ..s }
}

/// The state after a little-endian 16-bit write: the low byte at `address`,
/// the high byte at `address + 1` (wrapping).
pub open spec fn write16_effect(s: CpuState, address: u16, value: u16) -> CpuState {
    write8_effect(
        write8_effect(s, address, (value & 0xFF) as u8),
        address.wrapping_add(1),
        ((value >> 8) & 0xFF) as u8,
    )
}

/// The state after one byte is pushed: the byte lands in the stack page at
/// 0x0100 + SP and SP decrements, wrapping within the page.
pub open spec fn push_effect(s: CpuState, value: u8) -> CpuState {
    CpuState {
        bus: bus_write(s.bus, (0x100 + s.sp as u16) as u16, value),
        sp: s.sp.wrapping_sub(1),
        ..s
    }
}

/// The state after a 16-bit push: high byte first, then low byte.
pub open spec fn push_word_effect(s: CpuState, value: u16) -> CpuState {
    push_effect(push_effect(s, ((value >> 8) & 0xFF) as u8), (value & 0xFF) as u8)
}

/// The state after one byte is popped: SP increments (wrapping within the
/// page) and the byte at 0x0100 + SP is read.
pub open spec fn pop_state(s: CpuState) -> CpuState {
    CpuState { sp: s.sp.wrapping_add(1), ..s }
}

/// The byte a pop returns.
pub open spec fn pop_value(s: CpuState) -> u8 {
    bus_read(s.bus, (0x100 + s.sp.wrapping_add(1) as u16) as u16)
}

/// The state after a 16-bit pop (low byte first, then high byte).
pub open spec fn pop_word_state(s: CpuState) -> CpuState {
    pop_state(pop_state(s))
}

/// The 16-bit value a 16-bit pop returns.
pub open spec fn pop_word_value(s: CpuState) -> u16 {
    (pop_value(pop_state(s)) as u16) << 8 | pop_value(s) as u16
}

/// The state after the operand fetch: outside the implied mode the operand
/// byte is read from the effective address; in the implied mode the
/// previously latched byte stands.
pub open spec fn fetch_effect(s: CpuState) -> CpuState {
    if s.address_mode != AddressingMode::Implied {
        CpuState { fetched_data: bus_read(s.bus, s.address_absolute), ..s }
    } else {
        s
    }
}

/// The state after an instruction result is stored: to the accumulator in
/// the implied mode, to the effective address otherwise.
pub open spec fn store_result_effect(s: CpuState, value: u8) -> CpuState {
    if s.address_mode == AddressingMode::Implied {
        CpuState { a: value, ..s }
    } else {
        write8_effect(s, s.address_absolute, value)
    }
}

/// The state after interrupt servicing: the return address is pushed (high
/// byte then low byte), Break is cleared then Break and Unused are set, the
/// status is pushed, InterruptDisable is set, the handler address is loaded
/// from `vector`, and the fixed 7-cycle cost is charged.
pub open spec fn interrupt_effect(s: CpuState, vector: u16) -> CpuState {
    let s1 = push_word_effect(s, s.pc);
    let p1 = spec_apply_flag(
        spec_apply_flag(spec_apply_flag(s1.p, FLAG_BREAK, false), FLAG_UNUSED, true),
        FLAG_BREAK,
        true,
    );
    let s2 = push_effect(CpuState { p: p1, ..s1 }, p1);
    CpuState {
        p: spec_apply_flag(s2.p, FLAG_INTERRUPT_DISABLE, true),
        pc: bus_read16(s2.bus, vector),
        cycles: 7,
        ..s2
    }
}

/// The state established by a reset: registers to their architectural
/// values, flags to Unused with InterruptDisable, SP to 0xFD, PC to the
/// 16-bit value at the reset vector, and a drained cycle counter so the
/// next tick begins a fetch.
pub open spec fn reset_effect(s: CpuState) -> CpuState {
    CpuState {
        a: 0,
        x: 0,
        y: 0,
        p: FLAG_UNUSED | FLAG_INTERRUPT_DISABLE,
        sp: 0xFD,
        pc: bus_read16(s.bus, RESET_VECTOR),
        cycles: 0,
        ..s
    }
}

/// The status string (NV-BDIZC, uppercase for a set flag) for flags `p`.
pub open spec fn spec_status_chars(p: u8) -> Seq<char> {
    "STATUS: "@ + (if spec_has_flag(p, FLAG_NEGATIVE) {
        "N"@
    } else {
        "n"@
    }) + (if spec_has_flag(p, FLAG_OVERFLOW) {
        "V"@
    } else {
        "v"@
    }) + "-"@ + (if spec_has_flag(p, FLAG_BREAK) {
        "B"@
    } else {
        "b"@
    }) + (if spec_has_flag(p, FLAG_DECIMAL_MODE) {
        "D"@
    } else {
        "d"@
    }) + (if spec_has_flag(p, FLAG_INTERRUPT_DISABLE) {
        "I"@
    } else {
        "i"@
    }) + (if spec_has_flag(p, FLAG_ZERO) {
        "Z"@
    } else {
        "z"@
    }) + (if spec_has_flag(p, FLAG_CARRY) {
        "C"@
    } else {
        "c"@
    })
}

/// Pushing a 16-bit value and immediately popping it returns the original
/// value, and the stack pointer returns to its pre-push value. This holds
/// whenever the two stack-page addresses the push uses are backed by a
/// device, so that the pushed bytes stick.
pub proof fn lemma_stack_round_trip(s: CpuState, value: u16)
    requires
        crate::bus::bus_backed(s.bus, (0x100 + s.sp as u16) as u16),
        crate::bus::bus_backed(s.bus, (0x100 + s.sp.wrapping_sub(1) as u16) as u16),
    ensures
        pop_word_value(push_word_effect(s, value)) == value,
        pop_word_state(push_word_effect(s, value)).sp == s.sp,
{
    let hi = ((value >> 8) & 0xFF) as u8;
    let lo = (value & 0xFF) as u8;
    let addr_hi = (0x100 + s.sp as u16) as u16;
    let addr_lo = (0x100 + s.sp.wrapping_sub(1) as u16) as u16;
    let bus1 = crate::bus::bus_write(s.bus, addr_hi, hi);
    let bus2 = crate::bus::bus_write(bus1, addr_lo, lo);
    assert(addr_hi != addr_lo);
    crate::bus::lemma_write_preserves_backed(s.bus, addr_hi, hi, addr_lo);
    crate::bus::lemma_read_after_write(bus1, addr_lo, lo);
    crate::bus::lemma_read_frame(bus1, addr_lo, lo, addr_hi);
    crate::bus::lemma_read_after_write(s.bus, addr_hi, hi);
    assert(pop_word_value(push_word_effect(s, value)) == ((hi as u16) << 8 | lo as u16));
    assert((hi as u16) << 8 | lo as u16 == value) by (bit_vector)
        requires
            hi == ((value >> 8) & 0xFF) as u8,
            lo == (value & 0xFF) as u8,
    ;
}

/// The effect of entering addressing mode `mode`: the mode is latched and
/// resolved, and the reported page-crossing extra cycle becomes a count.
pub open spec fn exec_mode_effect(s: CpuState, mode: AddressingMode) -> (CpuState, u8) {
    let r = crate::addressing::resolve_effect(CpuState { address_mode: mode, ..s }, mode);
    (r.0, if r.1 {
        1u8
    } else {
        0u8
    })
}

/// The 6502-class CPU core, owning the bus it is connected to.
pub struct Cpu {
    /// The main bus every memory access is routed through.
    pub bus: MainBus,
    /// The accumulator.
    pub a: Register8,
    /// The X index register.
    pub x: Register8,
    /// The Y index register.
    pub y: Register8,
    /// The processor status flags.
    pub p: Register8,
    /// The stack pointer.
    pub sp: Register8,
    /// The program counter.
    pub pc: Register16,
    /// Cycles remaining in the instruction under execution.
    pub cycles: u8,
    /// The effective address computed by the addressing mode.
    pub address_absolute: u16,
    /// The sign-extended branch displacement.
    pub address_relative: u16,
    /// The addressing mode of the instruction under execution.
    pub address_mode: AddressingMode,
    /// The opcode of the instruction under execution.
    pub opcode: u8,
    /// The operand byte fetched for the instruction under execution.
    pub fetched_data: u8,
    /// Whether illegal opcodes execute their documented composite effect.
    pub enable_illegal_opcodes: bool,
    /// How many illegal opcodes have been fetched while their execution
    /// was disabled; each was treated as a no-op of its nominal length.
    pub illegal_opcode_count: u64,
    /// True once a KIL opcode has locked the processor up.
    pub jammed: bool,
}

impl View for Cpu {
    type V = CpuState;

    open spec fn view(&self) -> CpuState {
        CpuState {
            a: self.a@,
            x: self.x@,
            y: self.y@,
            p: self.p@,
            sp: self.sp@,
            pc: self.pc@,
            cycles: self.cycles,
            address_absolute: self.address_absolute,
            address_relative: self.address_relative,
            address_mode: self.address_mode,
            opcode: self.opcode,
            fetched_data: self.fetched_data,
            enable_illegal_opcodes: self.enable_illegal_opcodes,
            illegal_opcode_count: self.illegal_opcode_count,
            jammed: self.jammed,
            bus: self.bus@,
        }
    }
}

impl Cpu {
    /// Creates a CPU connected to `bus`, with every register and transient
    /// field zeroed and illegal opcodes disabled.
    pub fn new(bus: MainBus) -> (r: Cpu)
        ensures
            r@ == (CpuState {
                a: 0,
                x: 0,
                y: 0,
                p: 0,
                sp: 0,
                pc: 0,
                cycles: 0,
                address_absolute: 0,
                address_relative: 0,
                address_mode: AddressingMode::Implied,
                opcode: 0,
                fetched_data: 0,
                enable_illegal_opcodes: false,
                illegal_opcode_count: 0,
                jammed: false,
                bus: bus@,
            }),
    {
        Cpu {
            bus,
            a: Register8::new(),
            x: Register8::new(),
            y: Register8::new(),
            p: Register8::new(),
            sp: Register8::new(),
            pc: Register16::new(),
            cycles: 0,
            address_absolute: 0,
            address_relative: 0,
            address_mode: AddressingMode::Implied,
            opcode: 0,
            fetched_data: 0,
            enable_illegal_opcodes: false,
            illegal_opcode_count: 0,
            jammed: false,
        }
    }

    /// Replaces the bus the CPU is connected to.
    pub fn connect_bus(&mut self, bus: MainBus)
        ensures
            final(self)@ == (CpuState { bus: bus@, ..old(self)@ }),
    {
        self.bus = bus;
    }

    /// Resets the CPU to its architectural power-on state: A, X and Y to 0,
    /// the flags to Unused with InterruptDisable, SP to 0xFD, PC to the
    /// value stored at the reset vector, and the cycle counter drained.
    pub fn reset(&mut self)
        ensures
            final(self)@ == reset_effect(old(self)@),
    {
        self.a.set(0x00);
        self.x.set(0x00);
        self.y.set(0x00);
        self.p.set(FLAG_UNUSED | FLAG_INTERRUPT_DISABLE);
        self.sp.set(0xFD);
        let v = self.read16(RESET_VECTOR);
        self.pc.set(v);
        self.cycles = 0;
        assert(self@ =~= reset_effect(old(self)@));
    }

    /// Reads the byte at `address` on the bus.
    pub fn read8(&self, address: u16) -> (r: u8)
        ensures
            r == bus_read(self@.bus, address),
    {
        self.bus.read(address)
    }

    /// Writes `value` to `address` on the bus.
    pub fn write8(&mut self, address: u16, value: u8)
        ensures
            final(self)@ == write8_effect(old(self)@, address, value),
    {
        self.bus.write(address, value);
        assert(self@ =~= write8_effect(old(self)@, address, value));
    }

    /// Reads the little-endian 16-bit value at `address` and `address + 1`
    /// (the second address wrapping modulo 65536).
    pub fn read16(&self, address: u16) -> (r: u16)
        ensures
            r == bus_read16(self@.bus, address),
    {
        let low = self.read8(address) as u16;
        let high = self.read8(address.wrapping_add(1)) as u16;
        (high << 8) | low
    }

    /// Writes the little-endian 16-bit `value` to `address` and
    /// `address + 1` (the second address wrapping modulo 65536).
    pub fn write16(&mut self, address: u16, value: u16)
        ensures
            final(self)@ == write16_effect(old(self)@, address, value),
    {
        self.write8(address, (value & 0xFF) as u8);
        self.write8(address.wrapping_add(1), ((value >> 8) & 0xFF) as u8);
    }

    /// Sets (`value` true) or clears (`value` false) the flag bits of
    /// `flag` in the status register.
    pub fn set_flag(&mut self, flag: u8, value: bool)
        ensures
            final(self)@ == (CpuState { p: spec_apply_flag(old(self)@.p, flag, value), ..old(self)@ }),
    {
        if value {
            let p = self.p.get();
            self.p.set(p | flag);
        } else {
            self.p.remove(flag);
        }
        assert(self@ =~= (CpuState { p: spec_apply_flag(old(self)@.p, flag, value), ..old(self)@ }));
    }

    /// Returns true iff any flag bit of `flag` is set in the status
    /// register.
    pub fn get_flag(&self, flag: u8) -> (r: bool)
        ensures
            r == spec_has_flag(self@.p, flag),
    {
        self.p.contains(flag)
    }

    /// Increments the stack pointer, wrapping within 0x00-0xFF so the stack
    /// never leaves its page.
    pub fn increment_sp(&mut self)
        ensures
            final(self)@ == (CpuState { sp: old(self)@.sp.wrapping_add(1), ..old(self)@ }),
    {
        self.sp.add_assign(1);
        assert(self@ =~= (CpuState { sp: old(self)@.sp.wrapping_add(1), ..old(self)@ }));
    }

    /// Decrements the stack pointer, wrapping within 0x00-0xFF so the stack
    /// never leaves its page.
    pub fn decrement_sp(&mut self)
        ensures
            final(self)@ == (CpuState { sp: old(self)@.sp.wrapping_sub(1), ..old(self)@ }),
    {
        self.sp.sub_assign(1);
        assert(self@ =~= (CpuState { sp: old(self)@.sp.wrapping_sub(1), ..old(self)@ }));
    }

    /// Turns execution of illegal opcodes' documented composite effects on
    /// or off.
    pub fn set_illegal_opcodes(&mut self, value: bool)
        ensures
            final(self)@ == (CpuState { enable_illegal_opcodes: value, ..old(self)@ }),
    {
        self.enable_illegal_opcodes = value;
        assert(self@ =~= (CpuState { enable_illegal_opcodes: value, ..old(self)@ }));
    }

    /// Renders the status register as "STATUS: " followed by NV-BDIZC, an
    /// uppercase letter for each set flag.
    pub fn get_status_string(&self) -> (r: String)
        ensures
            r@ == spec_status_chars(self@.p),
    {
        let mut status = String::from_str("STATUS: ");
        status.append(if self.get_flag(FLAG_NEGATIVE) {
            "N"
        } else {
            "n"
        });
        status.append(if self.get_flag(FLAG_OVERFLOW) {
            "V"
        } else {
            "v"
        });
        status.append("-");
        status.append(if self.get_flag(FLAG_BREAK) {
            "B"
        } else {
            "b"
        });
        status.append(if self.get_flag(FLAG_DECIMAL_MODE) {
            "D"
        } else {
            "d"
        });
        status.append(if self.get_flag(FLAG_INTERRUPT_DISABLE) {
            "I"
        } else {
            "i"
        });
        status.append(if self.get_flag(FLAG_ZERO) {
            "Z"
        } else {
            "z"
        });
        status.append(if self.get_flag(FLAG_CARRY) {
            "C"
        } else {
            "c"
        });
        status
    }

    /// Latches the operand byte: outside the implied mode it is read from
    /// the effective address; in the implied mode the byte latched by the
    /// addressing resolver stands.
    pub fn fetch(&mut self) -> (r: u8)
        ensures
            final(self)@ == fetch_effect(old(self)@),
            r == final(self)@.fetched_data,
    {
        if !matches!(self.address_mode, AddressingMode::Implied) {
            self.fetched_data = self.read8(self.address_absolute);
        }
        assert(self@ =~= fetch_effect(old(self)@));
        self.fetched_data
    }

    /// Pushes `value` onto the stack page and decrements SP.
    pub fn push(&mut self, value: u8)
        ensures
            final(self)@ == push_effect(old(self)@, value),
    {
        let address = 0x100u16 + self.sp.get() as u16;
        self.write8(address, value);
        self.decrement_sp();
        assert(self@ =~= push_effect(old(self)@, value));
    }

    /// Pushes the 16-bit `value` onto the stack, high byte first.
    pub fn push_word(&mut self, value: u16)
        ensures
            final(self)@ == push_word_effect(old(self)@, value),
    {
        self.push(((value >> 8) & 0xFF) as u8);
        self.push((value & 0xFF) as u8);
    }

    /// Increments SP and pops one byte from the stack page.
    pub fn pop(&mut self) -> (r: u8)
        ensures
            final(self)@ == pop_state(old(self)@),
            r == pop_value(old(self)@),
    {
        self.increment_sp();
        let r = self.read8(0x100u16 + self.sp.get() as u16);
        assert(self@ =~= pop_state(old(self)@));
        r
    }

    /// Pops a 16-bit value from the stack, low byte first.
    pub fn pop_word(&mut self) -> (r: u16)
        ensures
            final(self)@ == pop_word_state(old(self)@),
            r == pop_word_value(old(self)@),
    {
        let lo = self.pop() as u16;
        let hi = self.pop() as u16;
        (hi << 8) | lo
    }

    /// Updates the zero and negative flags for the result `value`.
    pub fn set_zn_flags(&mut self, value: u8)
        ensures
            final(self)@ == (CpuState { p: spec_update_zn(old(self)@.p, value), ..old(self)@ }),
    {
        self.set_flag(FLAG_ZERO, value == 0);
        self.set_flag(FLAG_NEGATIVE, value & 0x80 != 0);
    }

    /// Returns the base cycle count of `opcode` from the descriptor table.
    pub fn get_cycles(&self, opcode: u8) -> (r: u8)
        ensures
            r == spec_cycles(opcode),
    {
        crate::opcodes::get_cycles(opcode)
    }

    /// Latches `mode` as the current addressing mode and resolves it,
    /// returning 1 when the access owes a page-crossing extra cycle and 0
    /// otherwise.
    pub fn execute_addr_mode(&mut self, mode: AddressingMode) -> (extra: u8)
        ensures
            final(self)@ == exec_mode_effect(old(self)@, mode).0,
            extra == exec_mode_effect(old(self)@, mode).1,
            final(self)@.cycles == old(self)@.cycles,
            extra <= 1,
    {
        self.address_mode = mode;
        proof {
            assert(self@ =~= (CpuState { address_mode: mode, ..old(self)@ }));
        }
        let owes_extra = mode.execute(self);
        if owes_extra {
            1
        } else {
            0
        }
    }

    /// Services an interrupt through `vector`: pushes the return address
    /// and the status (with Break and Unused set), sets InterruptDisable,
    /// vectors, and charges the fixed 7-cycle cost.
    pub fn do_interrupt(&mut self, vector: u16)
        ensures
            final(self)@ == interrupt_effect(old(self)@, vector),
    {
        let pc = self.pc.get();
        self.push_word(pc);
        self.set_flag(FLAG_BREAK, false);
        self.set_flag(FLAG_UNUSED, true);
        self.set_flag(FLAG_BREAK, true);
        let p = self.p.get();
        self.push(p);
        self.set_flag(FLAG_INTERRUPT_DISABLE, true);
        let target = self.read16(vector);
        self.pc.set(target);
        self.cycles = 7;
        assert(self@ =~= interrupt_effect(old(self)@, vector));
    }

    /// Raises a maskable interrupt request: serviced through the IRQ vector
    /// unless InterruptDisable is set, in which case nothing happens.
    pub fn irq(&mut self)
        ensures
            final(self)@ == if spec_has_flag(old(self)@.p, FLAG_INTERRUPT_DISABLE) {
                old(self)@
            } else {
                interrupt_effect(old(self)@, IRQ_VECTOR)
            },
    {
        if !self.get_flag(FLAG_INTERRUPT_DISABLE) {
            self.do_interrupt(IRQ_VECTOR);
        }
    }

    /// Raises a non-maskable interrupt: always serviced, through the NMI
    /// vector.
    pub fn nmi(&mut self)
        ensures
            final(self)@ == interrupt_effect(old(self)@, NMI_VECTOR),
    {
        self.do_interrupt(NMI_VECTOR);
    }

    /// Returns the register named "A", "X", "Y" or "SP". Any other name is
    /// a usage error and is excluded by the precondition.
    pub fn get_register(&self, register: &str) -> (r: u8)
        requires
            register@ == "A"@ || register@ == "X"@ || register@ == "Y"@ || register@ == "SP"@,
        ensures
            register@ == "A"@ ==> r == self@.a,
            register@ == "X"@ ==> r == self@.x,
            register@ == "Y"@ ==> r == self@.y,
            register@ == "SP"@ ==> r == self@.sp,
    {
        proof {
            reveal_strlit("A");
            reveal_strlit("X");
            reveal_strlit("Y");
            reveal_strlit("SP");
        }
        let n = register.unicode_len();
        if n == 1 {
            let c = register.get_char(0);
            if c == 'A' {
                self.a.get()
            } else if c == 'X' {
                self.x.get()
            } else {
                self.y.get()
            }
        } else {
            self.sp.get()
        }
    }
}

} // verus!
