use mos6502::bus::MainBus;
use mos6502::cpu::{Cpu, IRQ_VECTOR};
use mos6502::flags::{
    FLAG_BREAK, FLAG_CARRY, FLAG_INTERRUPT_DISABLE, FLAG_NEGATIVE, FLAG_OVERFLOW, FLAG_UNUSED,
    FLAG_ZERO,
};
use mos6502::ram::Ram;

fn machine() -> Cpu {
    let mut bus = MainBus::new();
    bus.add_device(Ram::new(0x0000, 0xFFFF).into_device());
    Cpu::new(bus)
}

/// Writes `program` at 0x8000, points the reset vector there and resets.
fn machine_with_program(program: &[u8]) -> Cpu {
    let mut cpu = machine();
    let mut address = 0x8000u16;
    for &byte in program {
        cpu.write8(address, byte);
        address += 1;
    }
    cpu.write16(0xFFFC, 0x8000);
    cpu.reset();
    cpu
}

/// Runs whole instructions by ticking the clock until `count` instructions
/// have completed (the cycle counter has drained).
fn run_instructions(cpu: &mut Cpu, count: usize) {
    for _ in 0..count {
        cpu.clock();
        while cpu.cycles > 0 {
            cpu.clock();
        }
    }
}

#[test]
fn lda_immediate_loads_and_sets_flags() {
    let mut cpu = machine_with_program(&[0xA9, 0x00, 0xA9, 0x80, 0xA9, 0x37]);
    run_instructions(&mut cpu, 1);
    assert_eq!(cpu.a.get(), 0x00);
    assert!(cpu.get_flag(FLAG_ZERO));
    assert!(!cpu.get_flag(FLAG_NEGATIVE));
    run_instructions(&mut cpu, 1);
    assert_eq!(cpu.a.get(), 0x80);
    assert!(!cpu.get_flag(FLAG_ZERO));
    assert!(cpu.get_flag(FLAG_NEGATIVE));
    run_instructions(&mut cpu, 1);
    assert_eq!(cpu.a.get(), 0x37);
    assert!(!cpu.get_flag(FLAG_ZERO));
    assert!(!cpu.get_flag(FLAG_NEGATIVE));
}

#[test]
fn cmp_sets_carry_when_accumulator_is_greater() {
    // LDA #$50; CMP #$30: result 0x20, so carry set, zero and negative
    // clear.
    let mut cpu = machine_with_program(&[0xA9, 0x50, 0xC9, 0x30]);
    run_instructions(&mut cpu, 2);
    assert!(cpu.get_flag(FLAG_CARRY));
    assert!(!cpu.get_flag(FLAG_ZERO));
    assert!(!cpu.get_flag(FLAG_NEGATIVE));
    assert_eq!(cpu.a.get(), 0x50);
}

#[test]
fn cmp_equal_sets_zero_and_carry() {
    let mut cpu = machine_with_program(&[0xA9, 0x30, 0xC9, 0x30]);
    run_instructions(&mut cpu, 2);
    assert!(cpu.get_flag(FLAG_CARRY));
    assert!(cpu.get_flag(FLAG_ZERO));
}

#[test]
fn cmp_less_clears_carry_and_sets_negative() {
    // 0x20 - 0x30 = 0xF0: carry clear, negative set.
    let mut cpu = machine_with_program(&[0xA9, 0x20, 0xC9, 0x30]);
    run_instructions(&mut cpu, 2);
    assert!(!cpu.get_flag(FLAG_CARRY));
    assert!(!cpu.get_flag(FLAG_ZERO));
    assert!(cpu.get_flag(FLAG_NEGATIVE));
}

#[test]
fn adc_adds_with_carry_and_detects_signed_overflow() {
    // CLC; LDA #$50; ADC #$50: 0xA0, signed overflow, negative.
    let mut cpu = machine_with_program(&[0x18, 0xA9, 0x50, 0x69, 0x50]);
    run_instructions(&mut cpu, 3);
    assert_eq!(cpu.a.get(), 0xA0);
    assert!(!cpu.get_flag(FLAG_CARRY));
    assert!(cpu.get_flag(FLAG_OVERFLOW));
    assert!(cpu.get_flag(FLAG_NEGATIVE));
}

#[test]
fn adc_carry_out_and_carry_in() {
    // SEC; LDA #$FF; ADC #$00: 0xFF + 0 + 1 = 0x100, so A=0, carry out,
    // zero.
    let mut cpu = machine_with_program(&[0x38, 0xA9, 0xFF, 0x69, 0x00]);
    run_instructions(&mut cpu, 3);
    assert_eq!(cpu.a.get(), 0x00);
    assert!(cpu.get_flag(FLAG_CARRY));
    assert!(cpu.get_flag(FLAG_ZERO));
}

#[test]
fn sbc_subtracts_with_borrow() {
    // SEC; LDA #$50; SBC #$30 = 0x20, carry set (no borrow).
    let mut cpu = machine_with_program(&[0x38, 0xA9, 0x50, 0xE9, 0x30]);
    run_instructions(&mut cpu, 3);
    assert_eq!(cpu.a.get(), 0x20);
    assert!(cpu.get_flag(FLAG_CARRY));
    assert!(!cpu.get_flag(FLAG_OVERFLOW));
}

#[test]
fn sta_stores_without_touching_flags() {
    // LDA #$00 (sets zero); STA $10: flags survive the store.
    let mut cpu = machine_with_program(&[0xA9, 0x00, 0x85, 0x10]);
    run_instructions(&mut cpu, 2);
    assert_eq!(cpu.read8(0x0010), 0x00);
    assert!(cpu.get_flag(FLAG_ZERO));
}

#[test]
fn asl_shifts_into_carry() {
    // LDA #$81; ASL A: result 0x02, carry from bit 7.
    let mut cpu = machine_with_program(&[0xA9, 0x81, 0x0A]);
    run_instructions(&mut cpu, 2);
    assert_eq!(cpu.a.get(), 0x02);
    assert!(cpu.get_flag(FLAG_CARRY));
    assert!(!cpu.get_flag(FLAG_NEGATIVE));
}

#[test]
fn asl_memory_form_writes_back() {
    // Program: ASL $10 with 0x40 at 0x10 -> 0x80, negative set.
    let mut cpu = machine_with_program(&[0x06, 0x10]);
    cpu.write8(0x0010, 0x40);
    run_instructions(&mut cpu, 1);
    assert_eq!(cpu.read8(0x0010), 0x80);
    assert!(cpu.get_flag(FLAG_NEGATIVE));
    assert!(!cpu.get_flag(FLAG_CARRY));
}

#[test]
fn ror_accumulator_rotates_through_carry() {
    // SEC; LDA #$02; ROR A: carry enters bit 7, bit 0 (0) leaves.
    let mut cpu = machine_with_program(&[0x38, 0xA9, 0x02, 0x6A]);
    run_instructions(&mut cpu, 3);
    assert_eq!(cpu.a.get(), 0x81);
    assert!(!cpu.get_flag(FLAG_CARRY));
    assert!(cpu.get_flag(FLAG_NEGATIVE));
}

#[test]
fn rol_memory_rotates_carry_in() {
    // SEC; ROL $10 with 0x80 at 0x10: result 0x01, carry out set.
    let mut cpu = machine_with_program(&[0x38, 0x26, 0x10]);
    cpu.write8(0x0010, 0x80);
    run_instructions(&mut cpu, 2);
    assert_eq!(cpu.read8(0x0010), 0x01);
    assert!(cpu.get_flag(FLAG_CARRY));
}

#[test]
fn lsr_shifts_into_carry_from_bit_zero() {
    // LDA #$01; LSR A: result 0, carry and zero set.
    let mut cpu = machine_with_program(&[0xA9, 0x01, 0x4A]);
    run_instructions(&mut cpu, 2);
    assert_eq!(cpu.a.get(), 0x00);
    assert!(cpu.get_flag(FLAG_CARRY));
    assert!(cpu.get_flag(FLAG_ZERO));
}

#[test]
fn bit_copies_operand_bits_into_flags() {
    // LDA #$01; BIT $10 with 0xC0 at 0x10: AND is 0 (zero set), negative
    // and overflow copied from bits 7 and 6.
    let mut cpu = machine_with_program(&[0xA9, 0x01, 0x24, 0x10]);
    cpu.write8(0x0010, 0xC0);
    run_instructions(&mut cpu, 2);
    assert!(cpu.get_flag(FLAG_ZERO));
    assert!(cpu.get_flag(FLAG_NEGATIVE));
    assert!(cpu.get_flag(FLAG_OVERFLOW));
}

#[test]
fn logic_ops_update_accumulator_and_flags() {
    // LDA #$F0; AND #$0F -> 0, zero. Then LDA #$0F; ORA #$80 -> 0x8F,
    // negative. Then EOR #$8F -> 0, zero.
    let mut cpu = machine_with_program(&[
        0xA9, 0xF0, 0x29, 0x0F, 0xA9, 0x0F, 0x09, 0x80, 0x49, 0x8F,
    ]);
    run_instructions(&mut cpu, 2);
    assert_eq!(cpu.a.get(), 0x00);
    assert!(cpu.get_flag(FLAG_ZERO));
    run_instructions(&mut cpu, 2);
    assert_eq!(cpu.a.get(), 0x8F);
    assert!(cpu.get_flag(FLAG_NEGATIVE));
    run_instructions(&mut cpu, 1);
    assert_eq!(cpu.a.get(), 0x00);
    assert!(cpu.get_flag(FLAG_ZERO));
}

#[test]
fn inc_dec_memory_wrap() {
    // INC $10 with 0xFF -> 0x00 (zero); DEC $11 with 0x00 -> 0xFF
    // (negative).
    let mut cpu = machine_with_program(&[0xE6, 0x10, 0xC6, 0x11]);
    cpu.write8(0x0010, 0xFF);
    cpu.write8(0x0011, 0x00);
    run_instructions(&mut cpu, 1);
    assert_eq!(cpu.read8(0x0010), 0x00);
    assert!(cpu.get_flag(FLAG_ZERO));
    run_instructions(&mut cpu, 1);
    assert_eq!(cpu.read8(0x0011), 0xFF);
    assert!(cpu.get_flag(FLAG_NEGATIVE));
}

#[test]
fn transfers_copy_and_set_flags_except_txs() {
    // LDA #$80; TAX; TXS; LDX #$00; TSX.
    let mut cpu = machine_with_program(&[0xA9, 0x80, 0xAA, 0x9A, 0xA2, 0x00, 0xBA]);
    run_instructions(&mut cpu, 2);
    assert_eq!(cpu.x.get(), 0x80);
    assert!(cpu.get_flag(FLAG_NEGATIVE));
    run_instructions(&mut cpu, 1);
    assert_eq!(cpu.sp.get(), 0x80);
    run_instructions(&mut cpu, 2);
    assert_eq!(cpu.x.get(), 0x80);
    assert!(cpu.get_flag(FLAG_NEGATIVE));
}

#[test]
fn jmp_absolute_sets_pc() {
    let mut cpu = machine_with_program(&[0x4C, 0x34, 0x12]);
    run_instructions(&mut cpu, 1);
    assert_eq!(cpu.pc.get(), 0x1234);
}

#[test]
fn jmp_indirect_uses_the_page_wrap_bug() {
    // JMP ($30FF) with 0x40 at 0x30FF and 0x80 at 0x3000: the high byte of
    // the target comes from 0x3000, giving 0x8040.
    let mut cpu = machine_with_program(&[0x6C, 0xFF, 0x30]);
    cpu.write8(0x30FF, 0x40);
    cpu.write8(0x3000, 0x80);
    cpu.write8(0x3100, 0x99);
    run_instructions(&mut cpu, 1);
    assert_eq!(cpu.pc.get(), 0x8040);
}

#[test]
fn jsr_rts_round_trip() {
    // JSR $9000 from 0x8000; at 0x9000 an RTS returns to 0x8003.
    let mut cpu = machine_with_program(&[0x20, 0x00, 0x90]);
    cpu.write8(0x9000, 0x60);
    run_instructions(&mut cpu, 1);
    assert_eq!(cpu.pc.get(), 0x9000);
    run_instructions(&mut cpu, 1);
    assert_eq!(cpu.pc.get(), 0x8003);
    assert_eq!(cpu.sp.get(), 0xFD);
}

#[test]
fn pha_pla_round_trip_and_flags() {
    // LDA #$80; PHA; LDA #$01; PLA: accumulator back to 0x80, negative.
    let mut cpu = machine_with_program(&[0xA9, 0x80, 0x48, 0xA9, 0x01, 0x68]);
    run_instructions(&mut cpu, 4);
    assert_eq!(cpu.a.get(), 0x80);
    assert!(cpu.get_flag(FLAG_NEGATIVE));
    assert_eq!(cpu.sp.get(), 0xFD);
}

#[test]
fn php_reports_break_and_unused_set() {
    // PHP pushes the status with Break and Unused set even though the live
    // flags stay as they are.
    let mut cpu = machine_with_program(&[0x08]);
    let live = cpu.p.get();
    assert_eq!(live & FLAG_BREAK, 0);
    run_instructions(&mut cpu, 1);
    let pushed = cpu.read8(0x01FD);
    assert_eq!(pushed, live | FLAG_BREAK | FLAG_UNUSED);
    assert_eq!(cpu.p.get(), live);
}

#[test]
fn plp_discards_break_and_sets_unused() {
    // LDA #$FF; PHA; PLP: pulled status has Break cleared, Unused set.
    let mut cpu = machine_with_program(&[0xA9, 0xFF, 0x48, 0x28]);
    run_instructions(&mut cpu, 3);
    assert_eq!(cpu.p.get(), 0xFF & !FLAG_BREAK | FLAG_UNUSED);
}

#[test]
fn brk_vectors_through_irq_and_rti_returns() {
    let mut cpu = machine_with_program(&[0x00]);
    cpu.write16(IRQ_VECTOR, 0x9000);
    cpu.write8(0x9000, 0x40);  // RTI
    run_instructions(&mut cpu, 1);
    assert_eq!(cpu.pc.get(), 0x9000);
    assert!(cpu.get_flag(FLAG_INTERRUPT_DISABLE));
    run_instructions(&mut cpu, 1);
    // BRK's addressing consumed one operand byte, so RTI lands past it.
    assert_eq!(cpu.pc.get(), 0x8002);
    assert_eq!(cpu.sp.get(), 0xFD);
}

#[test]
fn flag_instructions_touch_only_their_flag() {
    let mut cpu = machine_with_program(&[0x38, 0xF8, 0x78, 0x18, 0xD8, 0x58]);
    run_instructions(&mut cpu, 3);
    assert!(cpu.get_flag(FLAG_CARRY));
    let p_before = cpu.p.get();
    run_instructions(&mut cpu, 3);
    assert_eq!(
        cpu.p.get(),
        p_before & !FLAG_CARRY & !0x08 & !FLAG_INTERRUPT_DISABLE
    );
}
