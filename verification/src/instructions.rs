//! The per-instruction semantic handlers, the dispatcher that routes an
//! opcode to its handler, and the cycle-level clock.
//!
//! Each handler has a spec-level step function giving its exact effect on
//! the machine state together with the extra cycles it charges beyond the
//! base-plus-addressing total (nonzero only for taken branches). The clock
//! composes the table lookup, the addressing resolver and the handler into
//! one exact contract for a full instruction step.

use vstd::prelude::*;

use crate::addressing::AddressingMode;
use crate::bus::bus_read;
use crate::cpu::{
    Cpu,
    CpuState,
    IRQ_VECTOR,
    exec_mode_effect,
    fetch_effect,
    pop_state,
    pop_value,
    pop_word_state,
    pop_word_value,
    push_effect,
    push_word_effect,
    store_result_effect,
    write8_effect,
};
use crate::flags::{
    FLAG_BREAK,
    FLAG_CARRY,
    FLAG_DECIMAL_MODE,
    FLAG_INTERRUPT_DISABLE,
    FLAG_NEGATIVE,
    FLAG_OVERFLOW,
    FLAG_UNUSED,
    FLAG_ZERO,
    spec_apply_flag,
    spec_has_flag,
    spec_update_zn,
};
use crate::opcodes::{Mnemonic, lookup, spec_addr_mode, spec_cycles, spec_illegal, spec_mnemonic};

verus! {

/// Stores an instruction result: to the accumulator in the implied mode,
/// to the effective address otherwise.
pub fn store_result(cpu: &mut Cpu, value: u8)
    ensures
        final(cpu)@ == store_result_effect(old(cpu)@, value),
{
    if matches!(cpu.address_mode, AddressingMode::Implied) {
        cpu.a.set(value);
    } else {
        let address = cpu.address_absolute;
        cpu.write8(address, value);
    }
    assert(cpu@ =~= store_result_effect(old(cpu)@, value));
}

/// The effect of a branch: when `condition` holds the program counter moves
/// by the sign-extended displacement and one extra cycle is charged, plus
/// one more if the branch crosses a page boundary; otherwise nothing
/// happens and no extra cycle is charged.
pub open spec fn branch_effect(s: CpuState, condition: bool) -> (CpuState, u8) {
    if condition {
        let target = s.pc.wrapping_add(s.address_relative);
        (
            CpuState { pc: target, ..s },
            if target & 0xFF00 != s.pc & 0xFF00 {
                2
            } else {
                1
            },
        )
    } else {
        (s, 0)
    }
}

/// Takes the branch when `condition` holds, charging the extra cycles a
/// taken branch owes.
pub fn branch_on(cpu: &mut Cpu, condition: bool) -> (extra: u8)
    ensures
        final(cpu)@ == branch_effect(old(cpu)@, condition).0,
        extra == branch_effect(old(cpu)@, condition).1,
{
    if condition {
        let pc = cpu.pc.get();
        let target = pc.wrapping_add(cpu.address_relative);
        let extra: u8 = if target & 0xFF00 != pc & 0xFF00 {
            2
        } else {
            1
        };
        cpu.pc.set(target);
        assert(cpu@ =~= branch_effect(old(cpu)@, condition).0);
        extra
    } else {
        0
    }
}

/// The effect of LDA: loads the operand into the accumulator and updates the
/// zero and negative flags.
pub open spec fn step_lda(s0: CpuState) -> (CpuState, u8) {
    let s = fetch_effect(s0);
    (CpuState { a: s.fetched_data, p: spec_update_zn(s.p, s.fetched_data), ..s }, 0)
}

/// LDA. Loads the operand into the accumulator and updates the zero and
/// negative flags.
pub fn lda(cpu: &mut Cpu) -> (extra: u8)
    ensures
        final(cpu)@ == step_lda(old(cpu)@).0,
        extra == step_lda(old(cpu)@).1,
        final(cpu)@.cycles == old(cpu)@.cycles,
        extra <= 2,
{
    cpu.fetch();
    let value = cpu.fetched_data;
    cpu.a.set(value);
    cpu.set_zn_flags(value);
    assert(cpu@ =~= step_lda(old(cpu)@).0);
    0
}

/// The effect of LDX: loads the operand into the X register and updates the
/// zero and negative flags.
pub open spec fn step_ldx(s0: CpuState) -> (CpuState, u8) {
    let s = fetch_effect(s0);
    (CpuState { x: s.fetched_data, p: spec_update_zn(s.p, s.fetched_data), ..s }, 0)
}

/// LDX. Loads the operand into the X register and updates the zero and negative
/// flags.
pub fn ldx(cpu: &mut Cpu) -> (extra: u8)
    ensures
        final(cpu)@ == step_ldx(old(cpu)@).0,
        extra == step_ldx(old(cpu)@).1,
        final(cpu)@.cycles == old(cpu)@.cycles,
        extra <= 2,
{
    cpu.fetch();
    let value = cpu.fetched_data;
    cpu.x.set(value);
    cpu.set_zn_flags(value);
    assert(cpu@ =~= step_ldx(old(cpu)@).0);
    0
}

/// The effect of LDY: loads the operand into the Y register and updates the
/// zero and negative flags.
pub open spec fn step_ldy(s0: CpuState) -> (CpuState, u8) {
    let s = fetch_effect(s0);
    (CpuState { y: s.fetched_data, p: spec_update_zn(s.p, s.fetched_data), ..s }, 0)
}

/// LDY. Loads the operand into the Y register and updates the zero and negative
/// flags.
pub fn ldy(cpu: &mut Cpu) -> (extra: u8)
    ensures
        final(cpu)@ == step_ldy(old(cpu)@).0,
        extra == step_ldy(old(cpu)@).1,
        final(cpu)@.cycles == old(cpu)@.cycles,
        extra <= 2,
{
    cpu.fetch();
    let value = cpu.fetched_data;
    cpu.y.set(value);
    cpu.set_zn_flags(value);
    assert(cpu@ =~= step_ldy(old(cpu)@).0);
    0
}

/// The effect of STA: stores the accumulator to the effective address. No flags
/// are touched.
pub open spec fn step_sta(s0: CpuState) -> (CpuState, u8) {
    (write8_effect(s0, s0.address_absolute, s0.a), 0)
}

/// STA. Stores the accumulator to the effective address. No flags are touched.
pub fn sta(cpu: &mut Cpu) -> (extra: u8)
    ensures
        final(cpu)@ == step_sta(old(cpu)@).0,
        extra == step_sta(old(cpu)@).1,
        final(cpu)@.cycles == old(cpu)@.cycles,
        extra <= 2,
{
    let address = cpu.address_absolute;
    let value = cpu.a.get();
    cpu.write8(address, value);
    assert(cpu@ =~= step_sta(old(cpu)@).0);
    0
}

/// The effect of STX: stores the X register to the effective address. No flags
/// are touched.
pub open spec fn step_stx(s0: CpuState) -> (CpuState, u8) {
    (write8_effect(s0, s0.address_absolute, s0.x), 0)
}

/// STX. Stores the X register to the effective address. No flags are touched.
pub fn stx(cpu: &mut Cpu) -> (extra: u8)
    ensures
        final(cpu)@ == step_stx(old(cpu)@).0,
        extra == step_stx(old(cpu)@).1,
        final(cpu)@.cycles == old(cpu)@.cycles,
        extra <= 2,
{
    let address = cpu.address_absolute;
    let value = cpu.x.get();
    cpu.write8(address, value);
    assert(cpu@ =~= step_stx(old(cpu)@).0);
    0
}

/// The effect of STY: stores the Y register to the effective address. No flags
/// are touched.
pub open spec fn step_sty(s0: CpuState) -> (CpuState, u8) {
    (write8_effect(s0, s0.address_absolute, s0.y), 0)
}

/// STY. Stores the Y register to the effective address. No flags are touched.
pub fn sty(cpu: &mut Cpu) -> (extra: u8)
    ensures
        final(cpu)@ == step_sty(old(cpu)@).0,
        extra == step_sty(old(cpu)@).1,
        final(cpu)@.cycles == old(cpu)@.cycles,
        extra <= 2,
{
    let address = cpu.address_absolute;
    let value = cpu.y.get();
    cpu.write8(address, value);
    assert(cpu@ =~= step_sty(old(cpu)@).0);
    0
}

/// The effect of AND: bitwise AND of the accumulator with the operand; updates
/// the zero and negative flags.
pub open spec fn step_and(s0: CpuState) -> (CpuState, u8) {
    let s = fetch_effect(s0);
    let result = s.a & s.fetched_data;
    (CpuState { a: result, p: spec_update_zn(s.p, result), ..s }, 0)
}

/// AND. Bitwise AND of the accumulator with the operand; updates the zero and
/// negative flags.
pub fn and(cpu: &mut Cpu) -> (extra: u8)
    ensures
        final(cpu)@ == step_and(old(cpu)@).0,
        extra == step_and(old(cpu)@).1,
        final(cpu)@.cycles == old(cpu)@.cycles,
        extra <= 2,
{
    cpu.fetch();
    let result = cpu.a.get() & cpu.fetched_data;
    cpu.a.set(result);
    cpu.set_zn_flags(result);
    assert(cpu@ =~= step_and(old(cpu)@).0);
    0
}

/// The effect of ORA: bitwise OR of the accumulator with the operand; updates
/// the zero and negative flags.
pub open spec fn step_ora(s0: CpuState) -> (CpuState, u8) {
    let s = fetch_effect(s0);
    let result = s.a | s.fetched_data;
    (CpuState { a: result, p: spec_update_zn(s.p, result), ..s }, 0)
}

/// ORA. Bitwise OR of the accumulator with the operand; updates the zero and
/// negative flags.
pub fn ora(cpu: &mut Cpu) -> (extra: u8)
    ensures
        final(cpu)@ == step_ora(old(cpu)@).0,
        extra == step_ora(old(cpu)@).1,
        final(cpu)@.cycles == old(cpu)@.cycles,
        extra <= 2,
{
    cpu.fetch();
    let result = cpu.a.get() | cpu.fetched_data;
    cpu.a.set(result);
    cpu.set_zn_flags(result);
    assert(cpu@ =~= step_ora(old(cpu)@).0);
    0
}

/// The effect of EOR: bitwise exclusive-OR of the accumulator with the operand;
/// updates the zero and negative flags.
pub open spec fn step_eor(s0: CpuState) -> (CpuState, u8) {
    let s = fetch_effect(s0);
    let result = s.a ^ s.fetched_data;
    (CpuState { a: result, p: spec_update_zn(s.p, result), ..s }, 0)
}

/// EOR. Bitwise exclusive-OR of the accumulator with the operand; updates the
/// zero and negative flags.
pub fn eor(cpu: &mut Cpu) -> (extra: u8)
    ensures
        final(cpu)@ == step_eor(old(cpu)@).0,
        extra == step_eor(old(cpu)@).1,
        final(cpu)@.cycles == old(cpu)@.cycles,
        extra <= 2,
{
    cpu.fetch();
    let result = cpu.a.get() ^ cpu.fetched_data;
    cpu.a.set(result);
    cpu.set_zn_flags(result);
    assert(cpu@ =~= step_eor(old(cpu)@).0);
    0
}

/// The effect of ADC: adds the operand and the carry to the accumulator,
/// setting carry on unsigned overflow and overflow on signed overflow, then the
/// zero and negative flags.
pub open spec fn step_adc(s0: CpuState) -> (CpuState, u8) {
    let s = fetch_effect(s0);
    let carry_in: u16 = if spec_has_flag(s.p, FLAG_CARRY) { 1 } else { 0 };
    let sum = (s.a as u16 + s.fetched_data as u16 + carry_in) as u16;
    let result = (sum % 256) as u8;
    let p1 = spec_apply_flag(s.p, FLAG_CARRY, sum > 0xFF);
    let p2 = spec_apply_flag(p1, FLAG_OVERFLOW, !(s.a ^ s.fetched_data) & (s.a ^ result) & 0x80 != 0);
    (CpuState { a: result, p: spec_update_zn(p2, result), ..s }, 0)
}

/// ADC. Adds the operand and the carry to the accumulator, setting carry on
/// unsigned overflow and overflow on signed overflow, then the zero and
/// negative flags. Decimal (BCD) mode is not supported: the decimal-mode
/// flag can be set and cleared but never alters the arithmetic.
pub fn adc(cpu: &mut Cpu) -> (extra: u8)
    ensures
        final(cpu)@ == step_adc(old(cpu)@).0,
        extra == step_adc(old(cpu)@).1,
        final(cpu)@.cycles == old(cpu)@.cycles,
        extra <= 2,
{
    cpu.fetch();
    let a = cpu.a.get();
    let operand = cpu.fetched_data;
    let carry_in: u16 = if cpu.get_flag(FLAG_CARRY) { 1 } else { 0 };
    let sum: u16 = a as u16 + operand as u16 + carry_in;
    let result: u8 = (sum % 256) as u8;
    cpu.set_flag(FLAG_CARRY, sum > 0xFF);
    cpu.set_flag(FLAG_OVERFLOW, !(a ^ operand) & (a ^ result) & 0x80 != 0);
    cpu.a.set(result);
    cpu.set_zn_flags(result);
    assert(cpu@ =~= step_adc(old(cpu)@).0);
    0
}

/// The effect of SBC: subtracts the operand with borrow from the accumulator by
/// adding its complement; flags as for addition.
pub open spec fn step_sbc(s0: CpuState) -> (CpuState, u8) {
    let s = fetch_effect(s0);
    let operand = s.fetched_data ^ 0xFF;
    let carry_in: u16 = if spec_has_flag(s.p, FLAG_CARRY) { 1 } else { 0 };
    let sum = (s.a as u16 + operand as u16 + carry_in) as u16;
    let result = (sum % 256) as u8;
    let p1 = spec_apply_flag(s.p, FLAG_CARRY, sum > 0xFF);
    let p2 = spec_apply_flag(p1, FLAG_OVERFLOW, !(s.a ^ operand) & (s.a ^ result) & 0x80 != 0);
    (CpuState { a: result, p: spec_update_zn(p2, result), ..s }, 0)
}

/// SBC. Subtracts the operand with borrow from the accumulator by adding
/// its complement; flags as for addition. Decimal (BCD) mode is not
/// supported: the decimal-mode flag never alters the arithmetic.
pub fn sbc(cpu: &mut Cpu) -> (extra: u8)
    ensures
        final(cpu)@ == step_sbc(old(cpu)@).0,
        extra == step_sbc(old(cpu)@).1,
        final(cpu)@.cycles == old(cpu)@.cycles,
        extra <= 2,
{
    cpu.fetch();
    let a = cpu.a.get();
    let operand = cpu.fetched_data ^ 0xFF;
    let carry_in: u16 = if cpu.get_flag(FLAG_CARRY) { 1 } else { 0 };
    let sum: u16 = a as u16 + operand as u16 + carry_in;
    let result: u8 = (sum % 256) as u8;
    cpu.set_flag(FLAG_CARRY, sum > 0xFF);
    cpu.set_flag(FLAG_OVERFLOW, !(a ^ operand) & (a ^ result) & 0x80 != 0);
    cpu.a.set(result);
    cpu.set_zn_flags(result);
    assert(cpu@ =~= step_sbc(old(cpu)@).0);
    0
}

/// The effect of ASL: shifts the operand left one bit; the carry receives bit
/// 7, the zero and negative flags follow the result, which is stored back
/// (accumulator or memory).
pub open spec fn step_asl(s0: CpuState) -> (CpuState, u8) {
    let s = fetch_effect(s0);
    let result = s.fetched_data << 1u8;
    let p1 = spec_apply_flag(s.p, FLAG_CARRY, s.fetched_data & 0x80 != 0);
    (store_result_effect(CpuState { p: spec_update_zn(p1, result), ..s }, result), 0)
}

/// ASL. Shifts the operand left one bit; the carry receives bit 7, the zero and
/// negative flags follow the result, which is stored back (accumulator or
/// memory).
pub fn asl(cpu: &mut Cpu) -> (extra: u8)
    ensures
        final(cpu)@ == step_asl(old(cpu)@).0,
        extra == step_asl(old(cpu)@).1,
        final(cpu)@.cycles == old(cpu)@.cycles,
        extra <= 2,
{
    cpu.fetch();
    let operand = cpu.fetched_data;
    let result = operand << 1u8;
    cpu.set_flag(FLAG_CARRY, operand & 0x80 != 0);
    cpu.set_zn_flags(result);
    store_result(cpu, result);
    assert(cpu@ =~= step_asl(old(cpu)@).0);
    0
}

/// The effect of LSR: shifts the operand right one bit; the carry receives bit
/// 0, the zero and negative flags follow the result, which is stored back
/// (accumulator or memory).
pub open spec fn step_lsr(s0: CpuState) -> (CpuState, u8) {
    let s = fetch_effect(s0);
    let result = s.fetched_data >> 1u8;
    let p1 = spec_apply_flag(s.p, FLAG_CARRY, s.fetched_data & 0x01 != 0);
    (store_result_effect(CpuState { p: spec_update_zn(p1, result), ..s }, result), 0)
}

/// LSR. Shifts the operand right one bit; the carry receives bit 0, the zero
/// and negative flags follow the result, which is stored back (accumulator or
/// memory).
pub fn lsr(cpu: &mut Cpu) -> (extra: u8)
    ensures
        final(cpu)@ == step_lsr(old(cpu)@).0,
        extra == step_lsr(old(cpu)@).1,
        final(cpu)@.cycles == old(cpu)@.cycles,
        extra <= 2,
{
    cpu.fetch();
    let operand = cpu.fetched_data;
    let result = operand >> 1u8;
    cpu.set_flag(FLAG_CARRY, operand & 0x01 != 0);
    cpu.set_zn_flags(result);
    store_result(cpu, result);
    assert(cpu@ =~= step_lsr(old(cpu)@).0);
    0
}

/// The effect of ROL: rotates the operand left through the carry: the old carry
/// enters bit 0 and bit 7 leaves into the carry. Zero and negative follow the
/// result, which is stored back.
pub open spec fn step_rol(s0: CpuState) -> (CpuState, u8) {
    let s = fetch_effect(s0);
    let carry_in: u8 = if spec_has_flag(s.p, FLAG_CARRY) { 1 } else { 0 };
    let result = (s.fetched_data << 1u8) | carry_in;
    let p1 = spec_apply_flag(s.p, FLAG_CARRY, s.fetched_data & 0x80 != 0);
    (store_result_effect(CpuState { p: spec_update_zn(p1, result), ..s }, result), 0)
}

/// ROL. Rotates the operand left through the carry: the old carry enters bit 0
/// and bit 7 leaves into the carry. Zero and negative follow the result, which
/// is stored back.
pub fn rol(cpu: &mut Cpu) -> (extra: u8)
    ensures
        final(cpu)@ == step_rol(old(cpu)@).0,
        extra == step_rol(old(cpu)@).1,
        final(cpu)@.cycles == old(cpu)@.cycles,
        extra <= 2,
{
    cpu.fetch();
    let operand = cpu.fetched_data;
    let carry_in: u8 = if cpu.get_flag(FLAG_CARRY) { 1 } else { 0 };
    let result = (operand << 1u8) | carry_in;
    cpu.set_flag(FLAG_CARRY, operand & 0x80 != 0);
    cpu.set_zn_flags(result);
    store_result(cpu, result);
    assert(cpu@ =~= step_rol(old(cpu)@).0);
    0
}

/// The effect of ROR: rotates the operand right through the carry: the old
/// carry enters bit 7 and bit 0 leaves into the carry. Zero and negative follow
/// the result, which is stored back.
pub open spec fn step_ror(s0: CpuState) -> (CpuState, u8) {
    let s = fetch_effect(s0);
    let carry_in: u8 = if spec_has_flag(s.p, FLAG_CARRY) { 1 } else { 0 };
    let result = (s.fetched_data >> 1u8) | (carry_in << 7u8);
    let p1 = spec_apply_flag(s.p, FLAG_CARRY, s.fetched_data & 0x01 != 0);
    (store_result_effect(CpuState { p: spec_update_zn(p1, result), ..s }, result), 0)
}

/// ROR. Rotates the operand right through the carry: the old carry enters bit 7
/// and bit 0 leaves into the carry. Zero and negative follow the result, which
/// is stored back.
pub fn ror(cpu: &mut Cpu) -> (extra: u8)
    ensures
        final(cpu)@ == step_ror(old(cpu)@).0,
        extra == step_ror(old(cpu)@).1,
        final(cpu)@.cycles == old(cpu)@.cycles,
        extra <= 2,
{
    cpu.fetch();
    let operand = cpu.fetched_data;
    let carry_in: u8 = if cpu.get_flag(FLAG_CARRY) { 1 } else { 0 };
    let result = (operand >> 1u8) | (carry_in << 7u8);
    cpu.set_flag(FLAG_CARRY, operand & 0x01 != 0);
    cpu.set_zn_flags(result);
    store_result(cpu, result);
    assert(cpu@ =~= step_ror(old(cpu)@).0);
    0
}

/// The effect of RORA: rotates the accumulator right through the carry; this is
/// the accumulator-only rotate bound to opcode 0x6A.
pub open spec fn step_ror_a(s0: CpuState) -> (CpuState, u8) {
    let s = fetch_effect(s0);
    let carry_in: u8 = if spec_has_flag(s.p, FLAG_CARRY) { 1 } else { 0 };
    let result = (s.fetched_data >> 1u8) | (carry_in << 7u8);
    let p1 = spec_apply_flag(s.p, FLAG_CARRY, s.fetched_data & 0x01 != 0);
    (CpuState { a: result, p: spec_update_zn(p1, result), ..s }, 0)
}

/// RORA. Rotates the accumulator right through the carry; this is the
/// accumulator-only rotate bound to opcode 0x6A.
pub fn ror_a(cpu: &mut Cpu) -> (extra: u8)
    ensures
        final(cpu)@ == step_ror_a(old(cpu)@).0,
        extra == step_ror_a(old(cpu)@).1,
        final(cpu)@.cycles == old(cpu)@.cycles,
        extra <= 2,
{
    let operand = cpu.fetch();
    let carry_in: u8 = if cpu.get_flag(FLAG_CARRY) { 1 } else { 0 };
    let result = (operand >> 1u8) | (carry_in << 7u8);
    cpu.set_flag(FLAG_CARRY, operand & 0x01 != 0);
    cpu.set_zn_flags(result);
    cpu.a.set(result);
    assert(cpu@ =~= step_ror_a(old(cpu)@).0);
    0
}

/// The effect of CMP: compares the accumulator with the operand: carry iff
/// register >= operand (unsigned), zero and negative on the subtraction result.
/// Nothing is stored.
pub open spec fn step_cmp(s0: CpuState) -> (CpuState, u8) {
    let s = fetch_effect(s0);
    let result = s.a.wrapping_sub(s.fetched_data);
    let p1 = spec_apply_flag(s.p, FLAG_CARRY, s.a >= s.fetched_data);
    (CpuState { p: spec_update_zn(p1, result), ..s }, 0)
}

/// CMP. Compares the accumulator with the operand: carry iff register >=
/// operand (unsigned), zero and negative on the subtraction result. Nothing is
/// stored.
pub fn cmp(cpu: &mut Cpu) -> (extra: u8)
    ensures
        final(cpu)@ == step_cmp(old(cpu)@).0,
        extra == step_cmp(old(cpu)@).1,
        final(cpu)@.cycles == old(cpu)@.cycles,
        extra <= 2,
{
    cpu.fetch();
    let reg = cpu.a.get();
    let operand = cpu.fetched_data;
    let result = reg.wrapping_sub(operand);
    cpu.set_flag(FLAG_CARRY, reg >= operand);
    cpu.set_zn_flags(result);
    assert(cpu@ =~= step_cmp(old(cpu)@).0);
    0
}

/// The effect of CPX: compares the X register with the operand: carry iff
/// register >= operand (unsigned), zero and negative on the subtraction result.
/// Nothing is stored.
pub open spec fn step_cpx(s0: CpuState) -> (CpuState, u8) {
    let s = fetch_effect(s0);
    let result = s.x.wrapping_sub(s.fetched_data);
    let p1 = spec_apply_flag(s.p, FLAG_CARRY, s.x >= s.fetched_data);
    (CpuState { p: spec_update_zn(p1, result), ..s }, 0)
}

/// CPX. Compares the X register with the operand: carry iff register >= operand
/// (unsigned), zero and negative on the subtraction result. Nothing is stored.
pub fn cpx(cpu: &mut Cpu) -> (extra: u8)
    ensures
        final(cpu)@ == step_cpx(old(cpu)@).0,
        extra == step_cpx(old(cpu)@).1,
        final(cpu)@.cycles == old(cpu)@.cycles,
        extra <= 2,
{
    cpu.fetch();
    let reg = cpu.x.get();
    let operand = cpu.fetched_data;
    let result = reg.wrapping_sub(operand);
    cpu.set_flag(FLAG_CARRY, reg >= operand);
    cpu.set_zn_flags(result);
    assert(cpu@ =~= step_cpx(old(cpu)@).0);
    0
}

/// The effect of CPY: compares the Y register with the operand: carry iff
/// register >= operand (unsigned), zero and negative on the subtraction result.
/// Nothing is stored.
pub open spec fn step_cpy(s0: CpuState) -> (CpuState, u8) {
    let s = fetch_effect(s0);
    let result = s.y.wrapping_sub(s.fetched_data);
    let p1 = spec_apply_flag(s.p, FLAG_CARRY, s.y >= s.fetched_data);
    (CpuState { p: spec_update_zn(p1, result), ..s }, 0)
}

/// CPY. Compares the Y register with the operand: carry iff register >= operand
/// (unsigned), zero and negative on the subtraction result. Nothing is stored.
pub fn cpy(cpu: &mut Cpu) -> (extra: u8)
    ensures
        final(cpu)@ == step_cpy(old(cpu)@).0,
        extra == step_cpy(old(cpu)@).1,
        final(cpu)@.cycles == old(cpu)@.cycles,
        extra <= 2,
{
    cpu.fetch();
    let reg = cpu.y.get();
    let operand = cpu.fetched_data;
    let result = reg.wrapping_sub(operand);
    cpu.set_flag(FLAG_CARRY, reg >= operand);
    cpu.set_zn_flags(result);
    assert(cpu@ =~= step_cpy(old(cpu)@).0);
    0
}

/// The effect of BIT: tests the operand against the accumulator: zero iff the
/// AND is zero; negative and overflow copy bits 7 and 6 of the operand.
pub open spec fn step_bit(s0: CpuState) -> (CpuState, u8) {
    let s = fetch_effect(s0);
    let p1 = spec_apply_flag(s.p, FLAG_ZERO, s.a & s.fetched_data == 0);
    let p2 = spec_apply_flag(p1, FLAG_NEGATIVE, s.fetched_data & 0x80 != 0);
    (CpuState { p: spec_apply_flag(p2, FLAG_OVERFLOW, s.fetched_data & 0x40 != 0), ..s }, 0)
}

/// BIT. Tests the operand against the accumulator: zero iff the AND is zero;
/// negative and overflow copy bits 7 and 6 of the operand.
pub fn bit(cpu: &mut Cpu) -> (extra: u8)
    ensures
        final(cpu)@ == step_bit(old(cpu)@).0,
        extra == step_bit(old(cpu)@).1,
        final(cpu)@.cycles == old(cpu)@.cycles,
        extra <= 2,
{
    cpu.fetch();
    let a = cpu.a.get();
    let operand = cpu.fetched_data;
    cpu.set_flag(FLAG_ZERO, a & operand == 0);
    cpu.set_flag(FLAG_NEGATIVE, operand & 0x80 != 0);
    cpu.set_flag(FLAG_OVERFLOW, operand & 0x40 != 0);
    assert(cpu@ =~= step_bit(old(cpu)@).0);
    0
}

/// The effect of BCC: branches when the carry flag is clear.
pub open spec fn step_bcc(s0: CpuState) -> (CpuState, u8) {
    branch_effect(s0, !spec_has_flag(s0.p, FLAG_CARRY))
}

/// BCC. Branches when the carry flag is clear.
pub fn bcc(cpu: &mut Cpu) -> (extra: u8)
    ensures
        final(cpu)@ == step_bcc(old(cpu)@).0,
        extra == step_bcc(old(cpu)@).1,
        final(cpu)@.cycles == old(cpu)@.cycles,
        extra <= 2,
{
    let condition = !cpu.get_flag(FLAG_CARRY);
    return branch_on(cpu, condition);
}

/// The effect of BCS: branches when the carry flag is set.
pub open spec fn step_bcs(s0: CpuState) -> (CpuState, u8) {
    branch_effect(s0, spec_has_flag(s0.p, FLAG_CARRY))
}

/// BCS. Branches when the carry flag is set.
pub fn bcs(cpu: &mut Cpu) -> (extra: u8)
    ensures
        final(cpu)@ == step_bcs(old(cpu)@).0,
        extra == step_bcs(old(cpu)@).1,
        final(cpu)@.cycles == old(cpu)@.cycles,
        extra <= 2,
{
    let condition = cpu.get_flag(FLAG_CARRY);
    return branch_on(cpu, condition);
}

/// The effect of BEQ: branches when the zero flag is set.
pub open spec fn step_beq(s0: CpuState) -> (CpuState, u8) {
    branch_effect(s0, spec_has_flag(s0.p, FLAG_ZERO))
}

/// BEQ. Branches when the zero flag is set.
pub fn beq(cpu: &mut Cpu) -> (extra: u8)
    ensures
        final(cpu)@ == step_beq(old(cpu)@).0,
        extra == step_beq(old(cpu)@).1,
        final(cpu)@.cycles == old(cpu)@.cycles,
        extra <= 2,
{
    let condition = cpu.get_flag(FLAG_ZERO);
    return branch_on(cpu, condition);
}

/// The effect of BNE: branches when the zero flag is clear.
pub open spec fn step_bne(s0: CpuState) -> (CpuState, u8) {
    branch_effect(s0, !spec_has_flag(s0.p, FLAG_ZERO))
}

/// BNE. Branches when the zero flag is clear.
pub fn bne(cpu: &mut Cpu) -> (extra: u8)
    ensures
        final(cpu)@ == step_bne(old(cpu)@).0,
        extra == step_bne(old(cpu)@).1,
        final(cpu)@.cycles == old(cpu)@.cycles,
        extra <= 2,
{
    let condition = !cpu.get_flag(FLAG_ZERO);
    return branch_on(cpu, condition);
}

/// The effect of BMI: branches when the negative flag is set.
pub open spec fn step_bmi(s0: CpuState) -> (CpuState, u8) {
    branch_effect(s0, spec_has_flag(s0.p, FLAG_NEGATIVE))
}

/// BMI. Branches when the negative flag is set.
pub fn bmi(cpu: &mut Cpu) -> (extra: u8)
    ensures
        final(cpu)@ == step_bmi(old(cpu)@).0,
        extra == step_bmi(old(cpu)@).1,
        final(cpu)@.cycles == old(cpu)@.cycles,
        extra <= 2,
{
    let condition = cpu.get_flag(FLAG_NEGATIVE);
    return branch_on(cpu, condition);
}

/// The effect of BPL: branches when the negative flag is clear.
pub open spec fn step_bpl(s0: CpuState) -> (CpuState, u8) {
    branch_effect(s0, !spec_has_flag(s0.p, FLAG_NEGATIVE))
}

/// BPL. Branches when the negative flag is clear.
pub fn bpl(cpu: &mut Cpu) -> (extra: u8)
    ensures
        final(cpu)@ == step_bpl(old(cpu)@).0,
        extra == step_bpl(old(cpu)@).1,
        final(cpu)@.cycles == old(cpu)@.cycles,
        extra <= 2,
{
    let condition = !cpu.get_flag(FLAG_NEGATIVE);
    return branch_on(cpu, condition);
}

/// The effect of BVC: branches when the overflow flag is clear.
pub open spec fn step_bvc(s0: CpuState) -> (CpuState, u8) {
    branch_effect(s0, !spec_has_flag(s0.p, FLAG_OVERFLOW))
}

/// BVC. Branches when the overflow flag is clear.
pub fn bvc(cpu: &mut Cpu) -> (extra: u8)
    ensures
        final(cpu)@ == step_bvc(old(cpu)@).0,
        extra == step_bvc(old(cpu)@).1,
        final(cpu)@.cycles == old(cpu)@.cycles,
        extra <= 2,
{
    let condition = !cpu.get_flag(FLAG_OVERFLOW);
    return branch_on(cpu, condition);
}

/// The effect of BVS: branches when the overflow flag is set.
pub open spec fn step_bvs(s0: CpuState) -> (CpuState, u8) {
    branch_effect(s0, spec_has_flag(s0.p, FLAG_OVERFLOW))
}

/// BVS. Branches when the overflow flag is set.
pub fn bvs(cpu: &mut Cpu) -> (extra: u8)
    ensures
        final(cpu)@ == step_bvs(old(cpu)@).0,
        extra == step_bvs(old(cpu)@).1,
        final(cpu)@.cycles == old(cpu)@.cycles,
        extra <= 2,
{
    let condition = cpu.get_flag(FLAG_OVERFLOW);
    return branch_on(cpu, condition);
}

/// The effect of JMP: jumps: sets the program counter to the resolved effective
/// address.
pub open spec fn step_jmp(s0: CpuState) -> (CpuState, u8) {
    (CpuState { pc: s0.address_absolute, ..s0 }, 0)
}

/// JMP. Jumps: sets the program counter to the resolved effective address.
pub fn jmp(cpu: &mut Cpu) -> (extra: u8)
    ensures
        final(cpu)@ == step_jmp(old(cpu)@).0,
        extra == step_jmp(old(cpu)@).1,
        final(cpu)@.cycles == old(cpu)@.cycles,
        extra <= 2,
{
    let target = cpu.address_absolute;
    cpu.pc.set(target);
    assert(cpu@ =~= step_jmp(old(cpu)@).0);
    0
}

/// The effect of JSR: jumps to a subroutine: pushes the return address minus
/// one (high byte first) and jumps to the effective address.
pub open spec fn step_jsr(s0: CpuState) -> (CpuState, u8) {
    let s1 = push_word_effect(s0, s0.pc.wrapping_sub(1));
    (CpuState { pc: s1.address_absolute, ..s1 }, 0)
}

/// JSR. Jumps to a subroutine: pushes the return address minus one (high byte
/// first) and jumps to the effective address.
pub fn jsr(cpu: &mut Cpu) -> (extra: u8)
    ensures
        final(cpu)@ == step_jsr(old(cpu)@).0,
        extra == step_jsr(old(cpu)@).1,
        final(cpu)@.cycles == old(cpu)@.cycles,
        extra <= 2,
{
    let ret = cpu.pc.get().wrapping_sub(1);
    cpu.push_word(ret);
    let target = cpu.address_absolute;
    cpu.pc.set(target);
    assert(cpu@ =~= step_jsr(old(cpu)@).0);
    0
}

/// The effect of RTS: returns from a subroutine: pops the return address and
/// increments it.
pub open spec fn step_rts(s0: CpuState) -> (CpuState, u8) {
    let s1 = pop_word_state(s0);
    (CpuState { pc: pop_word_value(s0).wrapping_add(1), ..s1 }, 0)
}

/// RTS. Returns from a subroutine: pops the return address and increments it.
pub fn rts(cpu: &mut Cpu) -> (extra: u8)
    ensures
        final(cpu)@ == step_rts(old(cpu)@).0,
        extra == step_rts(old(cpu)@).1,
        final(cpu)@.cycles == old(cpu)@.cycles,
        extra <= 2,
{
    let ret = cpu.pop_word();
    cpu.pc.set(ret.wrapping_add(1));
    assert(cpu@ =~= step_rts(old(cpu)@).0);
    0
}

/// The effect of BRK: forces an interrupt: pushes the program counter and the
/// status (with Break and Unused set), sets InterruptDisable, and vectors
/// through the IRQ vector.
pub open spec fn step_brk(s0: CpuState) -> (CpuState, u8) {
    let s1 = push_word_effect(s0, s0.pc);
    let p1 = spec_apply_flag(
        spec_apply_flag(spec_apply_flag(s1.p, FLAG_BREAK, false), FLAG_UNUSED, true),
        FLAG_BREAK,
        true,
    );
    let s2 = push_effect(CpuState { p: p1, ..s1 }, p1);
    (
        CpuState {
            p: spec_apply_flag(s2.p, FLAG_INTERRUPT_DISABLE, true),
            pc: ((bus_read(s2.bus, IRQ_VECTOR.wrapping_add(1)) as u16) * 256 + (bus_read(
                s2.bus,
                IRQ_VECTOR,
            ) as u16)) as u16,
            ..s2
        },
        0,
    )
}

/// BRK. Forces an interrupt: pushes the program counter and the status (with
/// Break and Unused set), sets InterruptDisable, and vectors through the IRQ
/// vector.
pub fn brk(cpu: &mut Cpu) -> (extra: u8)
    ensures
        final(cpu)@ == step_brk(old(cpu)@).0,
        extra == step_brk(old(cpu)@).1,
        final(cpu)@.cycles == old(cpu)@.cycles,
        extra <= 2,
{
    let pc = cpu.pc.get();
    cpu.push_word(pc);
    cpu.set_flag(FLAG_BREAK, false);
    cpu.set_flag(FLAG_UNUSED, true);
    cpu.set_flag(FLAG_BREAK, true);
    let p = cpu.p.get();
    cpu.push(p);
    cpu.set_flag(FLAG_INTERRUPT_DISABLE, true);
    let lo = cpu.read8(IRQ_VECTOR);
    let hi = cpu.read8(IRQ_VECTOR.wrapping_add(1));
    cpu.pc.set((hi as u16) * 256 + (lo as u16));
    assert(cpu@ =~= step_brk(old(cpu)@).0);
    0
}

/// The effect of RTI: returns from an interrupt: pops the status (Break
/// cleared, Unused set) and then the program counter.
pub open spec fn step_rti(s0: CpuState) -> (CpuState, u8) {
    let p0 = pop_value(s0);
    let s1 = pop_state(s0);
    let p1 = spec_apply_flag(spec_apply_flag(p0, FLAG_BREAK, false), FLAG_UNUSED, true);
    let s2 = pop_word_state(s1);
    (CpuState { p: p1, pc: pop_word_value(s1), ..s2 }, 0)
}

/// RTI. Returns from an interrupt: pops the status (Break cleared, Unused set)
/// and then the program counter.
pub fn rti(cpu: &mut Cpu) -> (extra: u8)
    ensures
        final(cpu)@ == step_rti(old(cpu)@).0,
        extra == step_rti(old(cpu)@).1,
        final(cpu)@.cycles == old(cpu)@.cycles,
        extra <= 2,
{
    let p0 = cpu.pop();
    cpu.p.set(p0);
    cpu.set_flag(FLAG_BREAK, false);
    cpu.set_flag(FLAG_UNUSED, true);
    let ret = cpu.pop_word();
    cpu.pc.set(ret);
    assert(cpu@ =~= step_rti(old(cpu)@).0);
    0
}

/// The effect of PHA: pushes the accumulator onto the stack.
pub open spec fn step_pha(s0: CpuState) -> (CpuState, u8) {
    (push_effect(s0, s0.a), 0)
}

/// PHA. Pushes the accumulator onto the stack.
pub fn pha(cpu: &mut Cpu) -> (extra: u8)
    ensures
        final(cpu)@ == step_pha(old(cpu)@).0,
        extra == step_pha(old(cpu)@).1,
        final(cpu)@.cycles == old(cpu)@.cycles,
        extra <= 2,
{
    let a = cpu.a.get();
    cpu.push(a);
    assert(cpu@ =~= step_pha(old(cpu)@).0);
    0
}

/// The effect of PHP: pushes the status onto the stack, always reporting Break
/// and Unused as set; the live flags are unchanged.
pub open spec fn step_php(s0: CpuState) -> (CpuState, u8) {
    (push_effect(s0, s0.p | FLAG_BREAK | FLAG_UNUSED), 0)
}

/// PHP. Pushes the status onto the stack, always reporting Break and Unused as
/// set; the live flags are unchanged.
pub fn php(cpu: &mut Cpu) -> (extra: u8)
    ensures
        final(cpu)@ == step_php(old(cpu)@).0,
        extra == step_php(old(cpu)@).1,
        final(cpu)@.cycles == old(cpu)@.cycles,
        extra <= 2,
{
    let p = cpu.p.get();
    cpu.push(p | FLAG_BREAK | FLAG_UNUSED);
    assert(cpu@ =~= step_php(old(cpu)@).0);
    0
}

/// The effect of PLA: pops the accumulator from the stack and updates the zero
/// and negative flags.
pub open spec fn step_pla(s0: CpuState) -> (CpuState, u8) {
    let value = pop_value(s0);
    let s1 = pop_state(s0);
    (CpuState { a: value, p: spec_update_zn(s1.p, value), ..s1 }, 0)
}

/// PLA. Pops the accumulator from the stack and updates the zero and negative
/// flags.
pub fn pla(cpu: &mut Cpu) -> (extra: u8)
    ensures
        final(cpu)@ == step_pla(old(cpu)@).0,
        extra == step_pla(old(cpu)@).1,
        final(cpu)@.cycles == old(cpu)@.cycles,
        extra <= 2,
{
    let value = cpu.pop();
    cpu.a.set(value);
    cpu.set_zn_flags(value);
    assert(cpu@ =~= step_pla(old(cpu)@).0);
    0
}

/// The effect of PLP: pops the status from the stack; the pulled Break bit is
/// discarded and Unused is reported set, as the hardware does.
pub open spec fn step_plp(s0: CpuState) -> (CpuState, u8) {
    let value = pop_value(s0);
    let s1 = pop_state(s0);
    (
        CpuState {
            p: spec_apply_flag(spec_apply_flag(value, FLAG_BREAK, false), FLAG_UNUSED, true),
            ..s1
        },
        0,
    )
}

/// PLP. Pops the status from the stack; the pulled Break bit is discarded and
/// Unused is reported set, as the hardware does.
pub fn plp(cpu: &mut Cpu) -> (extra: u8)
    ensures
        final(cpu)@ == step_plp(old(cpu)@).0,
        extra == step_plp(old(cpu)@).1,
        final(cpu)@.cycles == old(cpu)@.cycles,
        extra <= 2,
{
    let value = cpu.pop();
    cpu.p.set(value);
    cpu.set_flag(FLAG_BREAK, false);
    cpu.set_flag(FLAG_UNUSED, true);
    assert(cpu@ =~= step_plp(old(cpu)@).0);
    0
}

/// The effect of CLC: clears the carry flag. No other flag or register is
/// touched.
pub open spec fn step_clc(s0: CpuState) -> (CpuState, u8) {
    (CpuState { p: spec_apply_flag(s0.p, FLAG_CARRY, false), ..s0 }, 0)
}

/// CLC. Clears the carry flag. No other flag or register is touched.
pub fn clc(cpu: &mut Cpu) -> (extra: u8)
    ensures
        final(cpu)@ == step_clc(old(cpu)@).0,
        extra == step_clc(old(cpu)@).1,
        final(cpu)@.cycles == old(cpu)@.cycles,
        extra <= 2,
{
    cpu.set_flag(FLAG_CARRY, false);
    assert(cpu@ =~= step_clc(old(cpu)@).0);
    0
}

/// The effect of SEC: sets the carry flag. No other flag or register is
/// touched.
pub open spec fn step_sec(s0: CpuState) -> (CpuState, u8) {
    (CpuState { p: spec_apply_flag(s0.p, FLAG_CARRY, true), ..s0 }, 0)
}

/// SEC. Sets the carry flag. No other flag or register is touched.
pub fn sec(cpu: &mut Cpu) -> (extra: u8)
    ensures
        final(cpu)@ == step_sec(old(cpu)@).0,
        extra == step_sec(old(cpu)@).1,
        final(cpu)@.cycles == old(cpu)@.cycles,
        extra <= 2,
{
    cpu.set_flag(FLAG_CARRY, true);
    assert(cpu@ =~= step_sec(old(cpu)@).0);
    0
}

/// The effect of CLI: clears the interrupt-disable flag. No other flag or
/// register is touched.
pub open spec fn step_cli(s0: CpuState) -> (CpuState, u8) {
    (CpuState { p: spec_apply_flag(s0.p, FLAG_INTERRUPT_DISABLE, false), ..s0 }, 0)
}

/// CLI. Clears the interrupt-disable flag. No other flag or register is
/// touched.
pub fn cli(cpu: &mut Cpu) -> (extra: u8)
    ensures
        final(cpu)@ == step_cli(old(cpu)@).0,
        extra == step_cli(old(cpu)@).1,
        final(cpu)@.cycles == old(cpu)@.cycles,
        extra <= 2,
{
    cpu.set_flag(FLAG_INTERRUPT_DISABLE, false);
    assert(cpu@ =~= step_cli(old(cpu)@).0);
    0
}

/// The effect of SEI: sets the interrupt-disable flag. No other flag or
/// register is touched.
pub open spec fn step_sei(s0: CpuState) -> (CpuState, u8) {
    (CpuState { p: spec_apply_flag(s0.p, FLAG_INTERRUPT_DISABLE, true), ..s0 }, 0)
}

/// SEI. Sets the interrupt-disable flag. No other flag or register is touched.
pub fn sei(cpu: &mut Cpu) -> (extra: u8)
    ensures
        final(cpu)@ == step_sei(old(cpu)@).0,
        extra == step_sei(old(cpu)@).1,
        final(cpu)@.cycles == old(cpu)@.cycles,
        extra <= 2,
{
    cpu.set_flag(FLAG_INTERRUPT_DISABLE, true);
    assert(cpu@ =~= step_sei(old(cpu)@).0);
    0
}

/// The effect of CLD: clears the decimal-mode flag. No other flag or register
/// is touched.
pub open spec fn step_cld(s0: CpuState) -> (CpuState, u8) {
    (CpuState { p: spec_apply_flag(s0.p, FLAG_DECIMAL_MODE, false), ..s0 }, 0)
}

/// CLD. Clears the decimal-mode flag. No other flag or register is touched.
pub fn cld(cpu: &mut Cpu) -> (extra: u8)
    ensures
        final(cpu)@ == step_cld(old(cpu)@).0,
        extra == step_cld(old(cpu)@).1,
        final(cpu)@.cycles == old(cpu)@.cycles,
        extra <= 2,
{
    cpu.set_flag(FLAG_DECIMAL_MODE, false);
    assert(cpu@ =~= step_cld(old(cpu)@).0);
    0
}

/// The effect of SED: sets the decimal-mode flag. No other flag or register is
/// touched.
pub open spec fn step_sed(s0: CpuState) -> (CpuState, u8) {
    (CpuState { p: spec_apply_flag(s0.p, FLAG_DECIMAL_MODE, true), ..s0 }, 0)
}

/// SED. Sets the decimal-mode flag. No other flag or register is touched.
pub fn sed(cpu: &mut Cpu) -> (extra: u8)
    ensures
        final(cpu)@ == step_sed(old(cpu)@).0,
        extra == step_sed(old(cpu)@).1,
        final(cpu)@.cycles == old(cpu)@.cycles,
        extra <= 2,
{
    cpu.set_flag(FLAG_DECIMAL_MODE, true);
    assert(cpu@ =~= step_sed(old(cpu)@).0);
    0
}

/// The effect of CLV: clears the overflow flag. No other flag or register is
/// touched.
pub open spec fn step_clv(s0: CpuState) -> (CpuState, u8) {
    (CpuState { p: spec_apply_flag(s0.p, FLAG_OVERFLOW, false), ..s0 }, 0)
}

/// CLV. Clears the overflow flag. No other flag or register is touched.
pub fn clv(cpu: &mut Cpu) -> (extra: u8)
    ensures
        final(cpu)@ == step_clv(old(cpu)@).0,
        extra == step_clv(old(cpu)@).1,
        final(cpu)@.cycles == old(cpu)@.cycles,
        extra <= 2,
{
    cpu.set_flag(FLAG_OVERFLOW, false);
    assert(cpu@ =~= step_clv(old(cpu)@).0);
    0
}

/// The effect of TAX: copies the accumulator to the X register and updates the
/// zero and negative flags.
pub open spec fn step_tax(s0: CpuState) -> (CpuState, u8) {
    (CpuState { x: s0.a, p: spec_update_zn(s0.p, s0.a), ..s0 }, 0)
}

/// TAX. Copies the accumulator to the X register and updates the zero and
/// negative flags.
pub fn tax(cpu: &mut Cpu) -> (extra: u8)
    ensures
        final(cpu)@ == step_tax(old(cpu)@).0,
        extra == step_tax(old(cpu)@).1,
        final(cpu)@.cycles == old(cpu)@.cycles,
        extra <= 2,
{
    let value = cpu.a.get();
    cpu.x.set(value);
    cpu.set_zn_flags(value);
    assert(cpu@ =~= step_tax(old(cpu)@).0);
    0
}

/// The effect of TAY: copies the accumulator to the Y register and updates the
/// zero and negative flags.
pub open spec fn step_tay(s0: CpuState) -> (CpuState, u8) {
    (CpuState { y: s0.a, p: spec_update_zn(s0.p, s0.a), ..s0 }, 0)
}

/// TAY. Copies the accumulator to the Y register and updates the zero and
/// negative flags.
pub fn tay(cpu: &mut Cpu) -> (extra: u8)
    ensures
        final(cpu)@ == step_tay(old(cpu)@).0,
        extra == step_tay(old(cpu)@).1,
        final(cpu)@.cycles == old(cpu)@.cycles,
        extra <= 2,
{
    let value = cpu.a.get();
    cpu.y.set(value);
    cpu.set_zn_flags(value);
    assert(cpu@ =~= step_tay(old(cpu)@).0);
    0
}

/// The effect of TXA: copies the X register to the accumulator and updates the
/// zero and negative flags.
pub open spec fn step_txa(s0: CpuState) -> (CpuState, u8) {
    (CpuState { a: s0.x, p: spec_update_zn(s0.p, s0.x), ..s0 }, 0)
}

/// TXA. Copies the X register to the accumulator and updates the zero and
/// negative flags.
pub fn txa(cpu: &mut Cpu) -> (extra: u8)
    ensures
        final(cpu)@ == step_txa(old(cpu)@).0,
        extra == step_txa(old(cpu)@).1,
        final(cpu)@.cycles == old(cpu)@.cycles,
        extra <= 2,
{
    let value = cpu.x.get();
    cpu.a.set(value);
    cpu.set_zn_flags(value);
    assert(cpu@ =~= step_txa(old(cpu)@).0);
    0
}

/// The effect of TYA: copies the Y register to the accumulator and updates the
/// zero and negative flags.
pub open spec fn step_tya(s0: CpuState) -> (CpuState, u8) {
    (CpuState { a: s0.y, p: spec_update_zn(s0.p, s0.y), ..s0 }, 0)
}

/// TYA. Copies the Y register to the accumulator and updates the zero and
/// negative flags.
pub fn tya(cpu: &mut Cpu) -> (extra: u8)
    ensures
        final(cpu)@ == step_tya(old(cpu)@).0,
        extra == step_tya(old(cpu)@).1,
        final(cpu)@.cycles == old(cpu)@.cycles,
        extra <= 2,
{
    let value = cpu.y.get();
    cpu.a.set(value);
    cpu.set_zn_flags(value);
    assert(cpu@ =~= step_tya(old(cpu)@).0);
    0
}

/// The effect of TSX: copies the stack pointer to the X register and updates
/// the zero and negative flags.
pub open spec fn step_tsx(s0: CpuState) -> (CpuState, u8) {
    (CpuState { x: s0.sp, p: spec_update_zn(s0.p, s0.sp), ..s0 }, 0)
}

/// TSX. Copies the stack pointer to the X register and updates the zero and
/// negative flags.
pub fn tsx(cpu: &mut Cpu) -> (extra: u8)
    ensures
        final(cpu)@ == step_tsx(old(cpu)@).0,
        extra == step_tsx(old(cpu)@).1,
        final(cpu)@.cycles == old(cpu)@.cycles,
        extra <= 2,
{
    let value = cpu.sp.get();
    cpu.x.set(value);
    cpu.set_zn_flags(value);
    assert(cpu@ =~= step_tsx(old(cpu)@).0);
    0
}

/// The effect of TXS: copies the X register to the stack pointer; no flags are
/// touched.
pub open spec fn step_txs(s0: CpuState) -> (CpuState, u8) {
    (CpuState { sp: s0.x, ..s0 }, 0)
}

/// TXS. Copies the X register to the stack pointer; no flags are touched.
pub fn txs(cpu: &mut Cpu) -> (extra: u8)
    ensures
        final(cpu)@ == step_txs(old(cpu)@).0,
        extra == step_txs(old(cpu)@).1,
        final(cpu)@.cycles == old(cpu)@.cycles,
        extra <= 2,
{
    let value = cpu.x.get();
    cpu.sp.set(value);
    assert(cpu@ =~= step_txs(old(cpu)@).0);
    0
}

/// The effect of INC: increments the byte at the effective address, wrapping
/// modulo 256, and updates the zero and negative flags.
pub open spec fn step_inc(s0: CpuState) -> (CpuState, u8) {
    let s = fetch_effect(s0);
    let result = s.fetched_data.wrapping_add(1);
    (write8_effect(CpuState { p: spec_update_zn(s.p, result), ..s }, s.address_absolute, result), 0)
}

/// INC. Increments the byte at the effective address, wrapping modulo 256, and
/// updates the zero and negative flags.
pub fn inc(cpu: &mut Cpu) -> (extra: u8)
    ensures
        final(cpu)@ == step_inc(old(cpu)@).0,
        extra == step_inc(old(cpu)@).1,
        final(cpu)@.cycles == old(cpu)@.cycles,
        extra <= 2,
{
    cpu.fetch();
    let result = cpu.fetched_data.wrapping_add(1);
    cpu.set_zn_flags(result);
    let address = cpu.address_absolute;
    cpu.write8(address, result);
    assert(cpu@ =~= step_inc(old(cpu)@).0);
    0
}

/// The effect of DEC: decrements the byte at the effective address, wrapping
/// modulo 256, and updates the zero and negative flags.
pub open spec fn step_dec(s0: CpuState) -> (CpuState, u8) {
    let s = fetch_effect(s0);
    let result = s.fetched_data.wrapping_sub(1);
    (write8_effect(CpuState { p: spec_update_zn(s.p, result), ..s }, s.address_absolute, result), 0)
}

/// DEC. Decrements the byte at the effective address, wrapping modulo 256, and
/// updates the zero and negative flags.
pub fn dec(cpu: &mut Cpu) -> (extra: u8)
    ensures
        final(cpu)@ == step_dec(old(cpu)@).0,
        extra == step_dec(old(cpu)@).1,
        final(cpu)@.cycles == old(cpu)@.cycles,
        extra <= 2,
{
    cpu.fetch();
    let result = cpu.fetched_data.wrapping_sub(1);
    cpu.set_zn_flags(result);
    let address = cpu.address_absolute;
    cpu.write8(address, result);
    assert(cpu@ =~= step_dec(old(cpu)@).0);
    0
}

/// The effect of INX: increments the X register, wrapping modulo 256, and
/// updates the zero and negative flags.
pub open spec fn step_inx(s0: CpuState) -> (CpuState, u8) {
    let result = s0.x.wrapping_add(1);
    (CpuState { x: result, p: spec_update_zn(s0.p, result), ..s0 }, 0)
}

/// INX. Increments the X register, wrapping modulo 256, and updates the zero
/// and negative flags.
pub fn inx(cpu: &mut Cpu) -> (extra: u8)
    ensures
        final(cpu)@ == step_inx(old(cpu)@).0,
        extra == step_inx(old(cpu)@).1,
        final(cpu)@.cycles == old(cpu)@.cycles,
        extra <= 2,
{
    let result = cpu.x.get().wrapping_add(1);
    cpu.x.set(result);
    cpu.set_zn_flags(result);
    assert(cpu@ =~= step_inx(old(cpu)@).0);
    0
}

/// The effect of INY: increments the Y register, wrapping modulo 256, and
/// updates the zero and negative flags.
pub open spec fn step_iny(s0: CpuState) -> (CpuState, u8) {
    let result = s0.y.wrapping_add(1);
    (CpuState { y: result, p: spec_update_zn(s0.p, result), ..s0 }, 0)
}

/// INY. Increments the Y register, wrapping modulo 256, and updates the zero
/// and negative flags.
pub fn iny(cpu: &mut Cpu) -> (extra: u8)
    ensures
        final(cpu)@ == step_iny(old(cpu)@).0,
        extra == step_iny(old(cpu)@).1,
        final(cpu)@.cycles == old(cpu)@.cycles,
        extra <= 2,
{
    let result = cpu.y.get().wrapping_add(1);
    cpu.y.set(result);
    cpu.set_zn_flags(result);
    assert(cpu@ =~= step_iny(old(cpu)@).0);
    0
}

/// The effect of DEX: decrements the X register, wrapping modulo 256, and
/// updates the zero and negative flags.
pub open spec fn step_dex(s0: CpuState) -> (CpuState, u8) {
    let result = s0.x.wrapping_sub(1);
    (CpuState { x: result, p: spec_update_zn(s0.p, result), ..s0 }, 0)
}

/// DEX. Decrements the X register, wrapping modulo 256, and updates the zero
/// and negative flags.
pub fn dex(cpu: &mut Cpu) -> (extra: u8)
    ensures
        final(cpu)@ == step_dex(old(cpu)@).0,
        extra == step_dex(old(cpu)@).1,
        final(cpu)@.cycles == old(cpu)@.cycles,
        extra <= 2,
{
    let result = cpu.x.get().wrapping_sub(1);
    cpu.x.set(result);
    cpu.set_zn_flags(result);
    assert(cpu@ =~= step_dex(old(cpu)@).0);
    0
}

/// The effect of DEY: decrements the Y register, wrapping modulo 256, and
/// updates the zero and negative flags.
pub open spec fn step_dey(s0: CpuState) -> (CpuState, u8) {
    let result = s0.y.wrapping_sub(1);
    (CpuState { y: result, p: spec_update_zn(s0.p, result), ..s0 }, 0)
}

/// DEY. Decrements the Y register, wrapping modulo 256, and updates the zero
/// and negative flags.
pub fn dey(cpu: &mut Cpu) -> (extra: u8)
    ensures
        final(cpu)@ == step_dey(old(cpu)@).0,
        extra == step_dey(old(cpu)@).1,
        final(cpu)@.cycles == old(cpu)@.cycles,
        extra <= 2,
{
    let result = cpu.y.get().wrapping_sub(1);
    cpu.y.set(result);
    cpu.set_zn_flags(result);
    assert(cpu@ =~= step_dey(old(cpu)@).0);
    0
}

/// The effect of NOP: does nothing.
pub open spec fn step_nop(s0: CpuState) -> (CpuState, u8) {
    (s0, 0)
}

/// NOP. Does nothing.
pub fn nop(cpu: &mut Cpu) -> (extra: u8)
    ensures
        final(cpu)@ == step_nop(old(cpu)@).0,
        extra == step_nop(old(cpu)@).1,
        final(cpu)@.cycles == old(cpu)@.cycles,
        extra <= 2,
{
    assert(cpu@ =~= step_nop(old(cpu)@).0);
    0
}

/// The effect of SLO: illegal composite: shift the memory operand left (carry
/// from bit 7), then OR it into the accumulator; zero and negative follow the
/// accumulator.
pub open spec fn step_slo(s0: CpuState) -> (CpuState, u8) {
    let s = fetch_effect(s0);
    let shifted = s.fetched_data << 1u8;
    let result = s.a | shifted;
    let p1 = spec_apply_flag(s.p, FLAG_CARRY, s.fetched_data & 0x80 != 0);
    (
        write8_effect(
            CpuState { a: result, p: spec_update_zn(p1, result), ..s },
            s.address_absolute,
            shifted,
        ),
        0,
    )
}

/// SLO. Illegal composite: shift the memory operand left (carry from bit 7),
/// then OR it into the accumulator; zero and negative follow the accumulator.
pub fn slo(cpu: &mut Cpu) -> (extra: u8)
    ensures
        final(cpu)@ == step_slo(old(cpu)@).0,
        extra == step_slo(old(cpu)@).1,
        final(cpu)@.cycles == old(cpu)@.cycles,
        extra <= 2,
{
    cpu.fetch();
    let operand = cpu.fetched_data;
    let shifted = operand << 1u8;
    let result = cpu.a.get() | shifted;
    cpu.set_flag(FLAG_CARRY, operand & 0x80 != 0);
    cpu.a.set(result);
    cpu.set_zn_flags(result);
    let address = cpu.address_absolute;
    cpu.write8(address, shifted);
    assert(cpu@ =~= step_slo(old(cpu)@).0);
    0
}

/// The effect of RLA: illegal composite: rotate the memory operand left through
/// the carry, then AND it into the accumulator; zero and negative follow the
/// accumulator.
pub open spec fn step_rla(s0: CpuState) -> (CpuState, u8) {
    let s = fetch_effect(s0);
    let carry_in: u8 = if spec_has_flag(s.p, FLAG_CARRY) { 1 } else { 0 };
    let rotated = (s.fetched_data << 1u8) | carry_in;
    let result = s.a & rotated;
    let p1 = spec_apply_flag(s.p, FLAG_CARRY, s.fetched_data & 0x80 != 0);
    (
        write8_effect(
            CpuState { a: result, p: spec_update_zn(p1, result), ..s },
            s.address_absolute,
            rotated,
        ),
        0,
    )
}

/// RLA. Illegal composite: rotate the memory operand left through the carry,
/// then AND it into the accumulator; zero and negative follow the accumulator.
pub fn rla(cpu: &mut Cpu) -> (extra: u8)
    ensures
        final(cpu)@ == step_rla(old(cpu)@).0,
        extra == step_rla(old(cpu)@).1,
        final(cpu)@.cycles == old(cpu)@.cycles,
        extra <= 2,
{
    cpu.fetch();
    let operand = cpu.fetched_data;
    let carry_in: u8 = if cpu.get_flag(FLAG_CARRY) { 1 } else { 0 };
    let rotated = (operand << 1u8) | carry_in;
    let result = cpu.a.get() & rotated;
    cpu.set_flag(FLAG_CARRY, operand & 0x80 != 0);
    cpu.a.set(result);
    cpu.set_zn_flags(result);
    let address = cpu.address_absolute;
    cpu.write8(address, rotated);
    assert(cpu@ =~= step_rla(old(cpu)@).0);
    0
}

/// The effect of SRE: illegal composite: shift the memory operand right (carry
/// from bit 0), then exclusive-OR it into the accumulator; zero and negative
/// follow the accumulator.
pub open spec fn step_sre(s0: CpuState) -> (CpuState, u8) {
    let s = fetch_effect(s0);
    let shifted = s.fetched_data >> 1u8;
    let result = s.a ^ shifted;
    let p1 = spec_apply_flag(s.p, FLAG_CARRY, s.fetched_data & 0x01 != 0);
    (
        write8_effect(
            CpuState { a: result, p: spec_update_zn(p1, result), ..s },
            s.address_absolute,
            shifted,
        ),
        0,
    )
}

/// SRE. Illegal composite: shift the memory operand right (carry from bit 0),
/// then exclusive-OR it into the accumulator; zero and negative follow the
/// accumulator.
pub fn sre(cpu: &mut Cpu) -> (extra: u8)
    ensures
        final(cpu)@ == step_sre(old(cpu)@).0,
        extra == step_sre(old(cpu)@).1,
        final(cpu)@.cycles == old(cpu)@.cycles,
        extra <= 2,
{
    cpu.fetch();
    let operand = cpu.fetched_data;
    let shifted = operand >> 1u8;
    let result = cpu.a.get() ^ shifted;
    cpu.set_flag(FLAG_CARRY, operand & 0x01 != 0);
    cpu.a.set(result);
    cpu.set_zn_flags(result);
    let address = cpu.address_absolute;
    cpu.write8(address, shifted);
    assert(cpu@ =~= step_sre(old(cpu)@).0);
    0
}

/// The effect of RRA: illegal composite: rotate the memory operand right
/// through the carry, then add it (with the carry the rotate produced) to the
/// accumulator, with full addition flags.
pub open spec fn step_rra(s0: CpuState) -> (CpuState, u8) {
    let s = fetch_effect(s0);
    let carry_in: u8 = if spec_has_flag(s.p, FLAG_CARRY) { 1 } else { 0 };
    let rotated = (s.fetched_data >> 1u8) | (carry_in << 7u8);
    let mid_carry: u16 = if s.fetched_data & 0x01 != 0 { 1 } else { 0 };
    let sum = (s.a as u16 + rotated as u16 + mid_carry) as u16;
    let result = (sum % 256) as u8;
    let p1 = spec_apply_flag(s.p, FLAG_CARRY, sum > 0xFF);
    let p2 = spec_apply_flag(p1, FLAG_OVERFLOW, !(s.a ^ rotated) & (s.a ^ result) & 0x80 != 0);
    (
        write8_effect(
            CpuState { a: result, p: spec_update_zn(p2, result), ..s },
            s.address_absolute,
            rotated,
        ),
        0,
    )
}

/// RRA. Illegal composite: rotate the memory operand right through the carry,
/// then add it (with the carry the rotate produced) to the accumulator, with
/// full addition flags.
pub fn rra(cpu: &mut Cpu) -> (extra: u8)
    ensures
        final(cpu)@ == step_rra(old(cpu)@).0,
        extra == step_rra(old(cpu)@).1,
        final(cpu)@.cycles == old(cpu)@.cycles,
        extra <= 2,
{
    cpu.fetch();
    let operand = cpu.fetched_data;
    let a = cpu.a.get();
    let carry_in: u8 = if cpu.get_flag(FLAG_CARRY) { 1 } else { 0 };
    let rotated = (operand >> 1u8) | (carry_in << 7u8);
    let mid_carry: u16 = if operand & 0x01 != 0 { 1 } else { 0 };
    let sum: u16 = a as u16 + rotated as u16 + mid_carry;
    let result: u8 = (sum % 256) as u8;
    cpu.set_flag(FLAG_CARRY, sum > 0xFF);
    cpu.set_flag(FLAG_OVERFLOW, !(a ^ rotated) & (a ^ result) & 0x80 != 0);
    cpu.a.set(result);
    cpu.set_zn_flags(result);
    let address = cpu.address_absolute;
    cpu.write8(address, rotated);
    assert(cpu@ =~= step_rra(old(cpu)@).0);
    0
}

/// The effect of SAX: illegal composite: stores the AND of the accumulator and
/// the X register; no flags are touched.
pub open spec fn step_sax(s0: CpuState) -> (CpuState, u8) {
    (write8_effect(s0, s0.address_absolute, s0.a & s0.x), 0)
}

/// SAX. Illegal composite: stores the AND of the accumulator and the X
/// register; no flags are touched.
pub fn sax(cpu: &mut Cpu) -> (extra: u8)
    ensures
        final(cpu)@ == step_sax(old(cpu)@).0,
        extra == step_sax(old(cpu)@).1,
        final(cpu)@.cycles == old(cpu)@.cycles,
        extra <= 2,
{
    let value = cpu.a.get() & cpu.x.get();
    let address = cpu.address_absolute;
    cpu.write8(address, value);
    assert(cpu@ =~= step_sax(old(cpu)@).0);
    0
}

/// The effect of LAX: illegal composite: loads the operand into both the
/// accumulator and the X register, updating the zero and negative flags.
pub open spec fn step_lax(s0: CpuState) -> (CpuState, u8) {
    let s = fetch_effect(s0);
    (
        CpuState {
            a: s.fetched_data,
            x: s.fetched_data,
            p: spec_update_zn(s.p, s.fetched_data),
            ..s
        },
        0,
    )
}

/// LAX. Illegal composite: loads the operand into both the accumulator and the
/// X register, updating the zero and negative flags.
pub fn lax(cpu: &mut Cpu) -> (extra: u8)
    ensures
        final(cpu)@ == step_lax(old(cpu)@).0,
        extra == step_lax(old(cpu)@).1,
        final(cpu)@.cycles == old(cpu)@.cycles,
        extra <= 2,
{
    cpu.fetch();
    let value = cpu.fetched_data;
    cpu.a.set(value);
    cpu.x.set(value);
    cpu.set_zn_flags(value);
    assert(cpu@ =~= step_lax(old(cpu)@).0);
    0
}

/// The effect of DCP: illegal composite: decrements the memory operand, then
/// compares the accumulator with the result.
pub open spec fn step_dcp(s0: CpuState) -> (CpuState, u8) {
    let s = fetch_effect(s0);
    let decremented = s.fetched_data.wrapping_sub(1);
    let result = s.a.wrapping_sub(decremented);
    let p1 = spec_apply_flag(s.p, FLAG_CARRY, s.a >= decremented);
    (
        write8_effect(
            CpuState { p: spec_update_zn(p1, result), ..s },
            s.address_absolute,
            decremented,
        ),
        0,
    )
}

/// DCP. Illegal composite: decrements the memory operand, then compares the
/// accumulator with the result.
pub fn dcp(cpu: &mut Cpu) -> (extra: u8)
    ensures
        final(cpu)@ == step_dcp(old(cpu)@).0,
        extra == step_dcp(old(cpu)@).1,
        final(cpu)@.cycles == old(cpu)@.cycles,
        extra <= 2,
{
    cpu.fetch();
    let decremented = cpu.fetched_data.wrapping_sub(1);
    let a = cpu.a.get();
    let result = a.wrapping_sub(decremented);
    cpu.set_flag(FLAG_CARRY, a >= decremented);
    cpu.set_zn_flags(result);
    let address = cpu.address_absolute;
    cpu.write8(address, decremented);
    assert(cpu@ =~= step_dcp(old(cpu)@).0);
    0
}

/// The effect of ISC: illegal composite: increments the memory operand, then
/// subtracts it with borrow from the accumulator, with full subtraction flags.
pub open spec fn step_isc(s0: CpuState) -> (CpuState, u8) {
    let s = fetch_effect(s0);
    let incremented = s.fetched_data.wrapping_add(1);
    let operand = incremented ^ 0xFF;
    let carry_in: u16 = if spec_has_flag(s.p, FLAG_CARRY) { 1 } else { 0 };
    let sum = (s.a as u16 + operand as u16 + carry_in) as u16;
    let result = (sum % 256) as u8;
    let p1 = spec_apply_flag(s.p, FLAG_CARRY, sum > 0xFF);
    let p2 = spec_apply_flag(p1, FLAG_OVERFLOW, !(s.a ^ operand) & (s.a ^ result) & 0x80 != 0);
    (
        write8_effect(
            CpuState { a: result, p: spec_update_zn(p2, result), ..s },
            s.address_absolute,
            incremented,
        ),
        0,
    )
}

/// ISC. Illegal composite: increments the memory operand, then subtracts it
/// with borrow from the accumulator, with full subtraction flags.
pub fn isc(cpu: &mut Cpu) -> (extra: u8)
    ensures
        final(cpu)@ == step_isc(old(cpu)@).0,
        extra == step_isc(old(cpu)@).1,
        final(cpu)@.cycles == old(cpu)@.cycles,
        extra <= 2,
{
    cpu.fetch();
    let incremented = cpu.fetched_data.wrapping_add(1);
    let a = cpu.a.get();
    let operand = incremented ^ 0xFF;
    let carry_in: u16 = if cpu.get_flag(FLAG_CARRY) { 1 } else { 0 };
    let sum: u16 = a as u16 + operand as u16 + carry_in;
    let result: u8 = (sum % 256) as u8;
    cpu.set_flag(FLAG_CARRY, sum > 0xFF);
    cpu.set_flag(FLAG_OVERFLOW, !(a ^ operand) & (a ^ result) & 0x80 != 0);
    cpu.a.set(result);
    cpu.set_zn_flags(result);
    let address = cpu.address_absolute;
    cpu.write8(address, incremented);
    assert(cpu@ =~= step_isc(old(cpu)@).0);
    0
}

/// The effect of ANC: illegal composite: ANDs the operand into the accumulator,
/// then copies the negative flag into the carry.
pub open spec fn step_anc(s0: CpuState) -> (CpuState, u8) {
    let s = fetch_effect(s0);
    let result = s.a & s.fetched_data;
    let p1 = spec_update_zn(s.p, result);
    (CpuState { a: result, p: spec_apply_flag(p1, FLAG_CARRY, result & 0x80 != 0), ..s }, 0)
}

/// ANC. Illegal composite: ANDs the operand into the accumulator, then copies
/// the negative flag into the carry.
pub fn anc(cpu: &mut Cpu) -> (extra: u8)
    ensures
        final(cpu)@ == step_anc(old(cpu)@).0,
        extra == step_anc(old(cpu)@).1,
        final(cpu)@.cycles == old(cpu)@.cycles,
        extra <= 2,
{
    cpu.fetch();
    let result = cpu.a.get() & cpu.fetched_data;
    cpu.a.set(result);
    cpu.set_zn_flags(result);
    cpu.set_flag(FLAG_CARRY, result & 0x80 != 0);
    assert(cpu@ =~= step_anc(old(cpu)@).0);
    0
}

/// The effect of ALR: illegal composite: ANDs the operand into the accumulator,
/// then shifts the accumulator right; the carry receives the bit shifted out.
pub open spec fn step_alr(s0: CpuState) -> (CpuState, u8) {
    let s = fetch_effect(s0);
    let masked = s.a & s.fetched_data;
    let result = masked >> 1u8;
    let p1 = spec_apply_flag(s.p, FLAG_CARRY, masked & 0x01 != 0);
    (CpuState { a: result, p: spec_update_zn(p1, result), ..s }, 0)
}

/// ALR. Illegal composite: ANDs the operand into the accumulator, then shifts
/// the accumulator right; the carry receives the bit shifted out.
pub fn alr(cpu: &mut Cpu) -> (extra: u8)
    ensures
        final(cpu)@ == step_alr(old(cpu)@).0,
        extra == step_alr(old(cpu)@).1,
        final(cpu)@.cycles == old(cpu)@.cycles,
        extra <= 2,
{
    cpu.fetch();
    let masked = cpu.a.get() & cpu.fetched_data;
    let result = masked >> 1u8;
    cpu.set_flag(FLAG_CARRY, masked & 0x01 != 0);
    cpu.a.set(result);
    cpu.set_zn_flags(result);
    assert(cpu@ =~= step_alr(old(cpu)@).0);
    0
}

/// The effect of ARR: illegal composite: ANDs the operand into the accumulator
/// and rotates it right through the carry; the carry copies bit 6 of the result
/// and overflow the exclusive-OR of bits 6 and 5.
pub open spec fn step_arr(s0: CpuState) -> (CpuState, u8) {
    let s = fetch_effect(s0);
    let carry_in: u8 = if spec_has_flag(s.p, FLAG_CARRY) { 1 } else { 0 };
    let masked = s.a & s.fetched_data;
    let result = (masked >> 1u8) | (carry_in << 7u8);
    let p1 = spec_update_zn(s.p, result);
    let p2 = spec_apply_flag(p1, FLAG_CARRY, result & 0x40 != 0);
    (
        CpuState {
            a: result,
            p: spec_apply_flag(p2, FLAG_OVERFLOW, ((result >> 6u8) ^ (result >> 5u8)) & 0x01 != 0),
            ..s
        },
        0,
    )
}

/// ARR. Illegal composite: ANDs the operand into the accumulator and rotates it
/// right through the carry; the carry copies bit 6 of the result and overflow
/// the exclusive-OR of bits 6 and 5.
pub fn arr(cpu: &mut Cpu) -> (extra: u8)
    ensures
        final(cpu)@ == step_arr(old(cpu)@).0,
        extra == step_arr(old(cpu)@).1,
        final(cpu)@.cycles == old(cpu)@.cycles,
        extra <= 2,
{
    cpu.fetch();
    let carry_in: u8 = if cpu.get_flag(FLAG_CARRY) { 1 } else { 0 };
    let masked = cpu.a.get() & cpu.fetched_data;
    let result = (masked >> 1u8) | (carry_in << 7u8);
    cpu.a.set(result);
    cpu.set_zn_flags(result);
    cpu.set_flag(FLAG_CARRY, result & 0x40 != 0);
    cpu.set_flag(FLAG_OVERFLOW, ((result >> 6u8) ^ (result >> 5u8)) & 0x01 != 0);
    assert(cpu@ =~= step_arr(old(cpu)@).0);
    0
}

/// The effect of AXS: illegal composite: subtracts the operand from the AND of
/// the accumulator and X into X, with compare-style flags.
pub open spec fn step_axs(s0: CpuState) -> (CpuState, u8) {
    let s = fetch_effect(s0);
    let masked = s.a & s.x;
    let result = masked.wrapping_sub(s.fetched_data);
    let p1 = spec_apply_flag(s.p, FLAG_CARRY, masked >= s.fetched_data);
    (CpuState { x: result, p: spec_update_zn(p1, result), ..s }, 0)
}

/// AXS. Illegal composite: subtracts the operand from the AND of the
/// accumulator and X into X, with compare-style flags.
pub fn axs(cpu: &mut Cpu) -> (extra: u8)
    ensures
        final(cpu)@ == step_axs(old(cpu)@).0,
        extra == step_axs(old(cpu)@).1,
        final(cpu)@.cycles == old(cpu)@.cycles,
        extra <= 2,
{
    cpu.fetch();
    let masked = cpu.a.get() & cpu.x.get();
    let operand = cpu.fetched_data;
    let result = masked.wrapping_sub(operand);
    cpu.set_flag(FLAG_CARRY, masked >= operand);
    cpu.x.set(result);
    cpu.set_zn_flags(result);
    assert(cpu@ =~= step_axs(old(cpu)@).0);
    0
}

/// The effect of LAS: illegal composite: ANDs the operand with the stack
/// pointer and copies the result to the accumulator, X and the stack pointer,
/// updating the zero and negative flags.
pub open spec fn step_las(s0: CpuState) -> (CpuState, u8) {
    let s = fetch_effect(s0);
    let result = s.fetched_data & s.sp;
    (CpuState { a: result, x: result, sp: result, p: spec_update_zn(s.p, result), ..s }, 0)
}

/// LAS. Illegal composite: ANDs the operand with the stack pointer and copies
/// the result to the accumulator, X and the stack pointer, updating the zero
/// and negative flags.
pub fn las(cpu: &mut Cpu) -> (extra: u8)
    ensures
        final(cpu)@ == step_las(old(cpu)@).0,
        extra == step_las(old(cpu)@).1,
        final(cpu)@.cycles == old(cpu)@.cycles,
        extra <= 2,
{
    cpu.fetch();
    let result = cpu.fetched_data & cpu.sp.get();
    cpu.a.set(result);
    cpu.x.set(result);
    cpu.sp.set(result);
    cpu.set_zn_flags(result);
    assert(cpu@ =~= step_las(old(cpu)@).0);
    0
}

/// The effect of KIL: locks the processor up: the jammed flag stops the clock
/// from ever advancing again.
pub open spec fn step_kil(s0: CpuState) -> (CpuState, u8) {
    (CpuState { jammed: true, ..s0 }, 0)
}

/// KIL. Locks the processor up: the jammed flag stops the clock from ever
/// advancing again.
pub fn kil(cpu: &mut Cpu) -> (extra: u8)
    ensures
        final(cpu)@ == step_kil(old(cpu)@).0,
        extra == step_kil(old(cpu)@).1,
        final(cpu)@.cycles == old(cpu)@.cycles,
        extra <= 2,
{
    cpu.jammed = true;
    assert(cpu@ =~= step_kil(old(cpu)@).0);
    0
}

/// The effect of AHX: illegal opcode, a store whose high byte depends on
/// unstable internal bus state on real hardware; no stable behavior is
/// documented, so it is emulated as having no effect.
pub open spec fn step_ahx(s0: CpuState) -> (CpuState, u8) {
    (s0, 0)
}

/// AHX. Illegal opcode, a store whose high byte depends on unstable internal
/// bus state on real hardware; no stable behavior is documented, so it is
/// emulated as having no effect.
pub fn ahx(cpu: &mut Cpu) -> (extra: u8)
    ensures
        final(cpu)@ == step_ahx(old(cpu)@).0,
        extra == step_ahx(old(cpu)@).1,
        final(cpu)@.cycles == old(cpu)@.cycles,
        extra <= 2,
{
    assert(cpu@ =~= step_ahx(old(cpu)@).0);
    0
}

/// The effect of SHX: illegal opcode, a store whose value depends on unstable
/// internal bus state on real hardware; no stable behavior is documented, so it
/// is emulated as having no effect.
pub open spec fn step_shx(s0: CpuState) -> (CpuState, u8) {
    (s0, 0)
}

/// SHX. Illegal opcode, a store whose value depends on unstable internal bus
/// state on real hardware; no stable behavior is documented, so it is emulated
/// as having no effect.
pub fn shx(cpu: &mut Cpu) -> (extra: u8)
    ensures
        final(cpu)@ == step_shx(old(cpu)@).0,
        extra == step_shx(old(cpu)@).1,
        final(cpu)@.cycles == old(cpu)@.cycles,
        extra <= 2,
{
    assert(cpu@ =~= step_shx(old(cpu)@).0);
    0
}

/// The effect of SHY: illegal opcode, a store whose value depends on unstable
/// internal bus state on real hardware; no stable behavior is documented, so it
/// is emulated as having no effect.
pub open spec fn step_shy(s0: CpuState) -> (CpuState, u8) {
    (s0, 0)
}

/// SHY. Illegal opcode, a store whose value depends on unstable internal bus
/// state on real hardware; no stable behavior is documented, so it is emulated
/// as having no effect.
pub fn shy(cpu: &mut Cpu) -> (extra: u8)
    ensures
        final(cpu)@ == step_shy(old(cpu)@).0,
        extra == step_shy(old(cpu)@).1,
        final(cpu)@.cycles == old(cpu)@.cycles,
        extra <= 2,
{
    assert(cpu@ =~= step_shy(old(cpu)@).0);
    0
}

/// The effect of TAS: illegal opcode, a transfer-and-store whose value depends
/// on unstable internal bus state on real hardware; no stable behavior is
/// documented, so it is emulated as having no effect.
pub open spec fn step_tas(s0: CpuState) -> (CpuState, u8) {
    (s0, 0)
}

/// TAS. Illegal opcode, a transfer-and-store whose value depends on unstable
/// internal bus state on real hardware; no stable behavior is documented, so it
/// is emulated as having no effect.
pub fn tas(cpu: &mut Cpu) -> (extra: u8)
    ensures
        final(cpu)@ == step_tas(old(cpu)@).0,
        extra == step_tas(old(cpu)@).1,
        final(cpu)@.cycles == old(cpu)@.cycles,
        extra <= 2,
{
    assert(cpu@ =~= step_tas(old(cpu)@).0);
    0
}

/// The effect of XAA: illegal opcode, a transfer-and-AND whose result depends
/// on an analog, chip-dependent constant on real hardware; no stable behavior
/// is documented, so it is emulated as having no effect.
pub open spec fn step_xaa(s0: CpuState) -> (CpuState, u8) {
    (s0, 0)
}

/// XAA. Illegal opcode, a transfer-and-AND whose result depends on an analog,
/// chip-dependent constant on real hardware; no stable behavior is documented,
/// so it is emulated as having no effect.
pub fn xaa(cpu: &mut Cpu) -> (extra: u8)
    ensures
        final(cpu)@ == step_xaa(old(cpu)@).0,
        extra == step_xaa(old(cpu)@).1,
        final(cpu)@.cycles == old(cpu)@.cycles,
        extra <= 2,
{
    assert(cpu@ =~= step_xaa(old(cpu)@).0);
    0
}

/// The effect of the handler for mnemonic `m` in state `s`.
pub open spec fn step_mnemonic(s: CpuState, m: Mnemonic) -> (CpuState, u8) {
    match m {
        Mnemonic::Lda => step_lda(s),
        Mnemonic::Ldx => step_ldx(s),
        Mnemonic::Ldy => step_ldy(s),
        Mnemonic::Sta => step_sta(s),
        Mnemonic::Stx => step_stx(s),
        Mnemonic::Sty => step_sty(s),
        Mnemonic::And => step_and(s),
        Mnemonic::Ora => step_ora(s),
        Mnemonic::Eor => step_eor(s),
        Mnemonic::Adc => step_adc(s),
        Mnemonic::Sbc => step_sbc(s),
        Mnemonic::Asl => step_asl(s),
        Mnemonic::Lsr => step_lsr(s),
        Mnemonic::Rol => step_rol(s),
        Mnemonic::Ror => step_ror(s),
        Mnemonic::RorA => step_ror_a(s),
        Mnemonic::Cmp => step_cmp(s),
        Mnemonic::Cpx => step_cpx(s),
        Mnemonic::Cpy => step_cpy(s),
        Mnemonic::Bit => step_bit(s),
        Mnemonic::Bcc => step_bcc(s),
        Mnemonic::Bcs => step_bcs(s),
        Mnemonic::Beq => step_beq(s),
        Mnemonic::Bne => step_bne(s),
        Mnemonic::Bmi => step_bmi(s),
        Mnemonic::Bpl => step_bpl(s),
        Mnemonic::Bvc => step_bvc(s),
        Mnemonic::Bvs => step_bvs(s),
        Mnemonic::Jmp => step_jmp(s),
        Mnemonic::Jsr => step_jsr(s),
        Mnemonic::Rts => step_rts(s),
        Mnemonic::Brk => step_brk(s),
        Mnemonic::Rti => step_rti(s),
        Mnemonic::Pha => step_pha(s),
        Mnemonic::Php => step_php(s),
        Mnemonic::Pla => step_pla(s),
        Mnemonic::Plp => step_plp(s),
        Mnemonic::Clc => step_clc(s),
        Mnemonic::Sec => step_sec(s),
        Mnemonic::Cli => step_cli(s),
        Mnemonic::Sei => step_sei(s),
        Mnemonic::Cld => step_cld(s),
        Mnemonic::Sed => step_sed(s),
        Mnemonic::Clv => step_clv(s),
        Mnemonic::Tax => step_tax(s),
        Mnemonic::Tay => step_tay(s),
        Mnemonic::Txa => step_txa(s),
        Mnemonic::Tya => step_tya(s),
        Mnemonic::Tsx => step_tsx(s),
        Mnemonic::Txs => step_txs(s),
        Mnemonic::Inc => step_inc(s),
        Mnemonic::Dec => step_dec(s),
        Mnemonic::Inx => step_inx(s),
        Mnemonic::Iny => step_iny(s),
        Mnemonic::Dex => step_dex(s),
        Mnemonic::Dey => step_dey(s),
        Mnemonic::Nop => step_nop(s),
        Mnemonic::Slo => step_slo(s),
        Mnemonic::Rla => step_rla(s),
        Mnemonic::Sre => step_sre(s),
        Mnemonic::Rra => step_rra(s),
        Mnemonic::Sax => step_sax(s),
        Mnemonic::Lax => step_lax(s),
        Mnemonic::Dcp => step_dcp(s),
        Mnemonic::Isc => step_isc(s),
        Mnemonic::Anc => step_anc(s),
        Mnemonic::Alr => step_alr(s),
        Mnemonic::Arr => step_arr(s),
        Mnemonic::Axs => step_axs(s),
        Mnemonic::Las => step_las(s),
        Mnemonic::Kil => step_kil(s),
        Mnemonic::Ahx => step_ahx(s),
        Mnemonic::Shx => step_shx(s),
        Mnemonic::Shy => step_shy(s),
        Mnemonic::Tas => step_tas(s),
        Mnemonic::Xaa => step_xaa(s),
    }
}

/// The effect of executing the instruction of `opcode` in state `s`: its
/// handler's effect, except that an illegal opcode with illegal-opcode
/// execution disabled is a counted no-op of its nominal cycle length —
/// registers, flags and memory stay untouched.
pub open spec fn instr_effect(s: CpuState, opcode: u8) -> (CpuState, u8) {
    if spec_illegal(opcode) && !s.enable_illegal_opcodes {
        (CpuState { illegal_opcode_count: s.illegal_opcode_count.wrapping_add(1), ..s }, 0)
    } else {
        step_mnemonic(s, spec_mnemonic(opcode))
    }
}

/// The machine state after one clock tick. A jammed processor does not
/// advance. When the cycle counter has drained, a whole instruction is
/// fetched, decoded and executed, and the counter is reloaded with the
/// instruction's total cost (base cycles plus addressing and handler
/// extras) less the tick itself; otherwise the counter just counts down.
pub open spec fn clock_step(s: CpuState) -> CpuState {
    if s.jammed {
        s
    } else if s.cycles == 0 {
        let op = bus_read(s.bus, s.pc);
        let s1 = CpuState { opcode: op, pc: s.pc.wrapping_add(1), cycles: spec_cycles(op), ..s };
        let sm = exec_mode_effect(s1, spec_addr_mode(op));
        let si = instr_effect(sm.0, op);
        CpuState { cycles: (si.0.cycles + sm.1 + si.1 - 1) as u8, ..si.0 }
    } else {
        CpuState { cycles: (s.cycles - 1) as u8, ..s }
    }
}

impl Cpu {
    /// Dispatches `opcode` to its semantic handler and returns the extra
    /// cycles the handler charges. An illegal opcode with illegal-opcode
    /// execution disabled is counted and treated as a no-op of its nominal
    /// cycle length; registers and memory are untouched.
    pub fn execute_instruction(&mut self, opcode: u8) -> (extra: u8)
        ensures
            final(self)@ == instr_effect(old(self)@, opcode).0,
            extra == instr_effect(old(self)@, opcode).1,
            final(self)@.cycles == old(self)@.cycles,
            extra <= 2,
    {
        let instruction = lookup(opcode);
        if instruction.illegal && !self.enable_illegal_opcodes {
            self.illegal_opcode_count = self.illegal_opcode_count.wrapping_add(1);
            assert(self@ =~= instr_effect(old(self)@, opcode).0);
            return 0;
        }
        match instruction.mnemonic {
            Mnemonic::Lda => lda(self),
            Mnemonic::Ldx => ldx(self),
            Mnemonic::Ldy => ldy(self),
            Mnemonic::Sta => sta(self),
            Mnemonic::Stx => stx(self),
            Mnemonic::Sty => sty(self),
            Mnemonic::And => and(self),
            Mnemonic::Ora => ora(self),
            Mnemonic::Eor => eor(self),
            Mnemonic::Adc => adc(self),
            Mnemonic::Sbc => sbc(self),
            Mnemonic::Asl => asl(self),
            Mnemonic::Lsr => lsr(self),
            Mnemonic::Rol => rol(self),
            Mnemonic::Ror => ror(self),
            Mnemonic::RorA => ror_a(self),
            Mnemonic::Cmp => cmp(self),
            Mnemonic::Cpx => cpx(self),
            Mnemonic::Cpy => cpy(self),
            Mnemonic::Bit => bit(self),
            Mnemonic::Bcc => bcc(self),
            Mnemonic::Bcs => bcs(self),
            Mnemonic::Beq => beq(self),
            Mnemonic::Bne => bne(self),
            Mnemonic::Bmi => bmi(self),
            Mnemonic::Bpl => bpl(self),
            Mnemonic::Bvc => bvc(self),
            Mnemonic::Bvs => bvs(self),
            Mnemonic::Jmp => jmp(self),
            Mnemonic::Jsr => jsr(self),
            Mnemonic::Rts => rts(self),
            Mnemonic::Brk => brk(self),
            Mnemonic::Rti => rti(self),
            Mnemonic::Pha => pha(self),
            Mnemonic::Php => php(self),
            Mnemonic::Pla => pla(self),
            Mnemonic::Plp => plp(self),
            Mnemonic::Clc => clc(self),
            Mnemonic::Sec => sec(self),
            Mnemonic::Cli => cli(self),
            Mnemonic::Sei => sei(self),
            Mnemonic::Cld => cld(self),
            Mnemonic::Sed => sed(self),
            Mnemonic::Clv => clv(self),
            Mnemonic::Tax => tax(self),
            Mnemonic::Tay => tay(self),
            Mnemonic::Txa => txa(self),
            Mnemonic::Tya => tya(self),
            Mnemonic::Tsx => tsx(self),
            Mnemonic::Txs => txs(self),
            Mnemonic::Inc => inc(self),
            Mnemonic::Dec => dec(self),
            Mnemonic::Inx => inx(self),
            Mnemonic::Iny => iny(self),
            Mnemonic::Dex => dex(self),
            Mnemonic::Dey => dey(self),
            Mnemonic::Nop => nop(self),
            Mnemonic::Slo => slo(self),
            Mnemonic::Rla => rla(self),
            Mnemonic::Sre => sre(self),
            Mnemonic::Rra => rra(self),
            Mnemonic::Sax => sax(self),
            Mnemonic::Lax => lax(self),
            Mnemonic::Dcp => dcp(self),
            Mnemonic::Isc => isc(self),
            Mnemonic::Anc => anc(self),
            Mnemonic::Alr => alr(self),
            Mnemonic::Arr => arr(self),
            Mnemonic::Axs => axs(self),
            Mnemonic::Las => las(self),
            Mnemonic::Kil => kil(self),
            Mnemonic::Ahx => ahx(self),
            Mnemonic::Shx => shx(self),
            Mnemonic::Shy => shy(self),
            Mnemonic::Tas => tas(self),
            Mnemonic::Xaa => xaa(self),
        }
    }

    /// Advances the machine one tick, as [`clock_step`] describes: a jammed
    /// processor stands still; a drained cycle counter triggers a whole
    /// fetch-decode-execute step whose total cost refills the counter; any
    /// other tick just counts the counter down.
    pub fn clock(&mut self)
        ensures
            final(self)@ == clock_step(old(self)@),
    {
        if self.jammed {
            return ;
        }
        if self.cycles == 0 {
            let pc = self.pc.get();
            let opcode = self.read8(pc);
            self.opcode = opcode;
            self.pc.add_assign(1);
            self.cycles = crate::opcodes::get_cycles(opcode);
            let mode = crate::opcodes::get_addr_mode(opcode);
            proof {
                assert(self@ =~= (CpuState {
                    opcode: opcode,
                    pc: old(self)@.pc.wrapping_add(1),
                    cycles: spec_cycles(opcode),
                    ..old(self)@
                }));
            }
            let extra_mode = self.execute_addr_mode(mode);
            let extra_instr = self.execute_instruction(opcode);
            proof {
                crate::opcodes::lemma_cycles_in_range(opcode);
            }
            self.cycles = self.cycles + extra_mode + extra_instr - 1;
            assert(self@ =~= clock_step(old(self)@));
        } else {
            self.cycles = self.cycles - 1;
            assert(self@ =~= clock_step(old(self)@));
        }
    }
}

/// True iff `m` is one of the eight conditional branch mnemonics.
pub open spec fn spec_is_branch(m: Mnemonic) -> bool {
    ||| m == Mnemonic::Bcc
    ||| m == Mnemonic::Bcs
    ||| m == Mnemonic::Beq
    ||| m == Mnemonic::Bne
    ||| m == Mnemonic::Bmi
    ||| m == Mnemonic::Bpl
    ||| m == Mnemonic::Bvc
    ||| m == Mnemonic::Bvs
}

/// The condition the branch mnemonic `m` tests on the status byte `p`.
pub open spec fn spec_branch_condition(m: Mnemonic, p: u8) -> bool {
    match m {
        Mnemonic::Bcc => !spec_has_flag(p, FLAG_CARRY),
        Mnemonic::Bcs => spec_has_flag(p, FLAG_CARRY),
        Mnemonic::Beq => spec_has_flag(p, FLAG_ZERO),
        Mnemonic::Bne => !spec_has_flag(p, FLAG_ZERO),
        Mnemonic::Bmi => spec_has_flag(p, FLAG_NEGATIVE),
        Mnemonic::Bpl => !spec_has_flag(p, FLAG_NEGATIVE),
        Mnemonic::Bvc => !spec_has_flag(p, FLAG_OVERFLOW),
        Mnemonic::Bvs => spec_has_flag(p, FLAG_OVERFLOW),
        _ => false,
    }
}

/// The cycle cost of a branch instruction started by the next tick of a
/// drained clock: exactly the base cycle count when the branch condition is
/// false; one more when it is true and the target stays within the page of
/// the instruction's end; two more when the taken branch crosses a page
/// boundary. The cost in ticks is one more than the counter the tick
/// leaves behind.
pub proof fn lemma_branch_cycle_cost(s: CpuState, opcode: u8)
    requires
        !s.jammed,
        s.cycles == 0,
        bus_read(s.bus, s.pc) == opcode,
        spec_is_branch(spec_mnemonic(opcode)),
    ensures
        ({
            let s1 = CpuState {
                opcode: opcode,
                pc: s.pc.wrapping_add(1),
                cycles: spec_cycles(opcode),
                ..s
            };
            let sm = exec_mode_effect(s1, spec_addr_mode(opcode)).0;
            let condition = spec_branch_condition(spec_mnemonic(opcode), s.p);
            let target = sm.pc.wrapping_add(sm.address_relative);
            let crossed = target & 0xFF00 != sm.pc & 0xFF00;
            clock_step(s).cycles + 1 == spec_cycles(opcode) + (if !condition {
                0int
            } else if crossed {
                2int
            } else {
                1int
            })
        }),
{
}

} // verus!
