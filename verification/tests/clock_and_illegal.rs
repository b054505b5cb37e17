use mos6502::bus::MainBus;
use mos6502::cpu::Cpu;
use mos6502::flags::{FLAG_CARRY, FLAG_NEGATIVE, FLAG_ZERO};
use mos6502::ram::Ram;

fn machine_with_program(program: &[u8]) -> Cpu {
    let mut bus = MainBus::new();
    bus.add_device(Ram::new(0x0000, 0xFFFF).into_device());
    let mut cpu = Cpu::new(bus);
    let mut address = 0x8000u16;
    for &byte in program {
        cpu.write8(address, byte);
        address += 1;
    }
    cpu.write16(0xFFFC, 0x8000);
    cpu.reset();
    cpu
}

/// Ticks the clock until the current instruction completes and returns how
/// many ticks it took.
fn instruction_cost(cpu: &mut Cpu) -> u32 {
    let mut ticks = 1u32;
    cpu.clock();
    while cpu.cycles > 0 {
        cpu.clock();
        ticks += 1;
    }
    ticks
}

#[test]
fn untaken_branch_costs_the_base_cycles() {
    // BNE with zero set: not taken; base cost of a branch is 2.
    let mut cpu = machine_with_program(&[0xD0, 0x05]);
    cpu.set_flag(FLAG_ZERO, true);
    assert_eq!(instruction_cost(&mut cpu), 2);
    assert_eq!(cpu.pc.get(), 0x8002);
}

#[test]
fn taken_branch_without_page_cross_costs_one_extra() {
    let mut cpu = machine_with_program(&[0xD0, 0x05]);
    cpu.set_flag(FLAG_ZERO, false);
    assert_eq!(instruction_cost(&mut cpu), 3);
    assert_eq!(cpu.pc.get(), 0x8007);
}

#[test]
fn taken_branch_with_page_cross_costs_two_extra() {
    // The branch sits at 0x80FD, so the displacement runs past 0x8100.
    let mut bus = MainBus::new();
    bus.add_device(Ram::new(0x0000, 0xFFFF).into_device());
    let mut cpu = Cpu::new(bus);
    cpu.write8(0x80FD, 0xD0);
    cpu.write8(0x80FE, 0x05);
    cpu.write16(0xFFFC, 0x80FD);
    cpu.reset();
    cpu.set_flag(FLAG_ZERO, false);
    assert_eq!(instruction_cost(&mut cpu), 4);
    assert_eq!(cpu.pc.get(), 0x8104);
}

#[test]
fn backward_branch_works_with_sign_extension() {
    // BCC -3 from 0x8000: target 0x7FFF.
    let mut cpu = machine_with_program(&[0x90, 0xFD]);
    cpu.set_flag(FLAG_CARRY, false);
    instruction_cost(&mut cpu);
    assert_eq!(cpu.pc.get(), 0x7FFF);
}

#[test]
fn lda_immediate_costs_two_cycles() {
    let mut cpu = machine_with_program(&[0xA9, 0x42]);
    assert_eq!(instruction_cost(&mut cpu), 2);
}

#[test]
fn lda_absolute_x_page_cross_costs_one_extra() {
    // LDA $00FF,X with X=1 crosses into page 1: 4 base + 1 extra.
    let mut cpu = machine_with_program(&[0xBD, 0xFF, 0x00]);
    cpu.x.set(0x01);
    assert_eq!(instruction_cost(&mut cpu), 5);
}

#[test]
fn illegal_opcode_disabled_is_a_no_op_of_nominal_length() {
    // SLO in its indexed-indirect form (0x03, base 8) is illegal; with
    // illegal opcodes disabled it changes no register, flag or memory, but
    // still costs its nominal cycle count.
    let mut cpu = machine_with_program(&[0x03, 0x10]);
    cpu.write8(0x0010, 0x40);
    let a_before = cpu.a.get();
    let p_before = cpu.p.get();
    assert_eq!(instruction_cost(&mut cpu), 8);
    assert_eq!(cpu.a.get(), a_before);
    assert_eq!(cpu.p.get(), p_before);
    assert_eq!(cpu.read8(0x0010), 0x40);
    assert_eq!(cpu.pc.get(), 0x8002);
}

#[test]
fn slo_enabled_shifts_memory_and_ors_accumulator() {
    // SLO $10 (0x07): memory 0x41 -> 0x82, A |= 0x82.
    let mut cpu = machine_with_program(&[0x07, 0x10]);
    cpu.set_illegal_opcodes(true);
    cpu.write8(0x0010, 0x41);
    cpu.a.set(0x01);
    instruction_cost(&mut cpu);
    assert_eq!(cpu.read8(0x0010), 0x82);
    assert_eq!(cpu.a.get(), 0x83);
    assert!(cpu.get_flag(FLAG_NEGATIVE));
    assert!(!cpu.get_flag(FLAG_CARRY));
}

#[test]
fn lax_enabled_loads_both_registers() {
    // LAX $10 (0xA7) with 0x80 at 0x10.
    let mut cpu = machine_with_program(&[0xA7, 0x10]);
    cpu.set_illegal_opcodes(true);
    cpu.write8(0x0010, 0x80);
    instruction_cost(&mut cpu);
    assert_eq!(cpu.a.get(), 0x80);
    assert_eq!(cpu.x.get(), 0x80);
    assert!(cpu.get_flag(FLAG_NEGATIVE));
}

#[test]
fn dcp_enabled_decrements_and_compares() {
    // DCP $10 (0xC7) with 0x31 at 0x10 and A=0x30: memory becomes 0x30,
    // compare 0x30 vs 0x30 sets carry and zero.
    let mut cpu = machine_with_program(&[0xC7, 0x10]);
    cpu.set_illegal_opcodes(true);
    cpu.write8(0x0010, 0x31);
    cpu.a.set(0x30);
    instruction_cost(&mut cpu);
    assert_eq!(cpu.read8(0x0010), 0x30);
    assert!(cpu.get_flag(FLAG_CARRY));
    assert!(cpu.get_flag(FLAG_ZERO));
}

#[test]
fn sax_enabled_stores_a_and_x() {
    // SAX $10 (0x87) with A=0xF0, X=0x0F stores 0x00; flags untouched.
    let mut cpu = machine_with_program(&[0x87, 0x10]);
    cpu.set_illegal_opcodes(true);
    cpu.a.set(0xF0);
    cpu.x.set(0x0F);
    let p_before = cpu.p.get();
    instruction_cost(&mut cpu);
    assert_eq!(cpu.read8(0x0010), 0x00);
    assert_eq!(cpu.p.get(), p_before);
}

#[test]
fn kil_enabled_jams_the_processor() {
    let mut cpu = machine_with_program(&[0x02]);
    cpu.set_illegal_opcodes(true);
    // KIL has base 2: tick it to completion.
    cpu.clock();
    cpu.clock();
    assert!(cpu.jammed);
    let pc = cpu.pc.get();
    // The clock no longer advances anything.
    cpu.clock();
    cpu.clock();
    cpu.clock();
    assert_eq!(cpu.pc.get(), pc);
    assert!(cpu.jammed);
}

#[test]
fn kil_disabled_is_a_reported_no_op() {
    let mut cpu = machine_with_program(&[0x02, 0xA9, 0x42]);
    cpu.clock();
    cpu.clock();
    assert!(!cpu.jammed);
    assert_eq!(cpu.illegal_opcode_count, 1);
    // Execution continues at the next instruction.
    cpu.clock();
    cpu.clock();
    assert_eq!(cpu.a.get(), 0x42);
    assert_eq!(cpu.illegal_opcode_count, 1);
}

#[test]
fn suppressed_illegal_opcodes_are_counted() {
    // Two illegal opcodes in a row while their execution is disabled.
    let mut cpu = machine_with_program(&[0x07, 0x10, 0x87, 0x10]);
    assert_eq!(cpu.illegal_opcode_count, 0);
    instruction_cost(&mut cpu);
    assert_eq!(cpu.illegal_opcode_count, 1);
    instruction_cost(&mut cpu);
    assert_eq!(cpu.illegal_opcode_count, 2);
}

#[test]
fn clock_counts_down_between_fetches() {
    let mut cpu = machine_with_program(&[0xEA]);  // NOP, 2 cycles
    cpu.clock();
    assert_eq!(cpu.cycles, 1);
    let pc_mid = cpu.pc.get();
    cpu.clock();
    assert_eq!(cpu.cycles, 0);
    // The second tick only counted down; no new fetch happened.
    assert_eq!(cpu.pc.get(), pc_mid);
}
