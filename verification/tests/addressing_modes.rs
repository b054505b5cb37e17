use mos6502::addressing::AddressingMode;
use mos6502::bus::MainBus;
use mos6502::cpu::Cpu;
use mos6502::ram::Ram;

fn machine() -> Cpu {
    let mut bus = MainBus::new();
    bus.add_device(Ram::new(0x0000, 0xFFFF).into_device());
    Cpu::new(bus)
}

#[test]
fn absolute_x_without_page_cross_costs_nothing_extra() {
    let mut cpu = machine();
    cpu.pc.set(0x0200);
    cpu.write8(0x0200, 0x00);
    cpu.write8(0x0201, 0x01);
    cpu.x.set(0x10);
    let extra = cpu.execute_addr_mode(AddressingMode::AbsoluteX);
    assert_eq!(cpu.address_absolute, 0x0110);
    assert_eq!(extra, 0);
    assert_eq!(cpu.pc.get(), 0x0202);
}

#[test]
fn absolute_x_crossing_out_of_page_zero_charges_the_extra_cycle() {
    // Indexing from 0x00F0 by 0x20 lands at 0x0110: the high byte of the
    // final address differs from the base's, so the extra cycle is owed.
    let mut cpu = machine();
    cpu.pc.set(0x0200);
    cpu.write8(0x0200, 0xF0);
    cpu.write8(0x0201, 0x00);
    cpu.x.set(0x20);
    let extra = cpu.execute_addr_mode(AddressingMode::AbsoluteX);
    assert_eq!(cpu.address_absolute, 0x0110);
    assert_eq!(extra, 1);
}

#[test]
fn absolute_x_with_page_cross_costs_one_extra_cycle() {
    let mut cpu = machine();
    cpu.pc.set(0x0200);
    cpu.write8(0x0200, 0xFF);
    cpu.write8(0x0201, 0x00);
    cpu.x.set(0x01);
    let extra = cpu.execute_addr_mode(AddressingMode::AbsoluteX);
    assert_eq!(cpu.address_absolute, 0x0100);
    assert_eq!(extra, 1);
}

#[test]
fn absolute_y_page_cross_mirrors_absolute_x() {
    let mut cpu = machine();
    cpu.pc.set(0x0200);
    cpu.write8(0x0200, 0xFF);
    cpu.write8(0x0201, 0x00);
    cpu.y.set(0x01);
    let extra = cpu.execute_addr_mode(AddressingMode::AbsoluteY);
    assert_eq!(cpu.address_absolute, 0x0100);
    assert_eq!(extra, 1);
}

#[test]
fn immediate_points_at_the_operand_byte() {
    let mut cpu = machine();
    cpu.pc.set(0x0300);
    let extra = cpu.execute_addr_mode(AddressingMode::Immediate);
    assert_eq!(cpu.address_absolute, 0x0300);
    assert_eq!(cpu.pc.get(), 0x0301);
    assert_eq!(extra, 0);
}

#[test]
fn zero_page_x_wraps_within_page_zero() {
    let mut cpu = machine();
    cpu.pc.set(0x0300);
    cpu.write8(0x0300, 0xF0);
    cpu.x.set(0x20);
    let extra = cpu.execute_addr_mode(AddressingMode::ZeroPageX);
    assert_eq!(cpu.address_absolute, 0x0010);
    assert_eq!(extra, 0);
}

#[test]
fn zero_page_y_wraps_within_page_zero() {
    let mut cpu = machine();
    cpu.pc.set(0x0300);
    cpu.write8(0x0300, 0xFF);
    cpu.y.set(0x02);
    let extra = cpu.execute_addr_mode(AddressingMode::ZeroPageY);
    assert_eq!(cpu.address_absolute, 0x0001);
    assert_eq!(extra, 0);
}

#[test]
fn indirect_reproduces_the_page_wrap_bug() {
    let mut cpu = machine();
    // Pointer 0x30FF: the low target byte comes from 0x30FF, but the high
    // byte comes from 0x3000, not 0x3100.
    cpu.write8(0x30FF, 0x40);
    cpu.write8(0x3000, 0x80);
    cpu.write8(0x3100, 0x99);
    cpu.pc.set(0x0200);
    cpu.write8(0x0200, 0xFF);
    cpu.write8(0x0201, 0x30);
    let extra = cpu.execute_addr_mode(AddressingMode::Indirect);
    assert_eq!(cpu.address_absolute, 0x8040);
    assert_eq!(extra, 0);
}

#[test]
fn indirect_without_wrap_reads_the_next_byte() {
    let mut cpu = machine();
    cpu.write8(0x3080, 0x34);
    cpu.write8(0x3081, 0x12);
    cpu.pc.set(0x0200);
    cpu.write8(0x0200, 0x80);
    cpu.write8(0x0201, 0x30);
    cpu.execute_addr_mode(AddressingMode::Indirect);
    assert_eq!(cpu.address_absolute, 0x1234);
}

#[test]
fn indexed_indirect_wraps_the_zero_page_pointer() {
    let mut cpu = machine();
    // Operand 0xFE plus X=0x01 gives pointer 0xFF; its high byte is read
    // from 0x00, wrapping within page zero.
    cpu.write8(0x00FF, 0x34);
    cpu.write8(0x0000, 0x12);
    cpu.pc.set(0x0200);
    cpu.write8(0x0200, 0xFE);
    cpu.x.set(0x01);
    let extra = cpu.execute_addr_mode(AddressingMode::IndexedIndirect);
    assert_eq!(cpu.address_absolute, 0x1234);
    assert_eq!(extra, 0);
}

#[test]
fn indirect_indexed_charges_for_page_cross() {
    let mut cpu = machine();
    cpu.write8(0x0010, 0xFF);
    cpu.write8(0x0011, 0x20);
    cpu.pc.set(0x0200);
    cpu.write8(0x0200, 0x10);
    cpu.y.set(0x01);
    let extra = cpu.execute_addr_mode(AddressingMode::IndirectIndexed);
    assert_eq!(cpu.address_absolute, 0x2100);
    assert_eq!(extra, 1);
}

#[test]
fn indirect_indexed_without_cross_is_free() {
    let mut cpu = machine();
    cpu.write8(0x0010, 0x10);
    cpu.write8(0x0011, 0x20);
    cpu.pc.set(0x0200);
    cpu.write8(0x0200, 0x10);
    cpu.y.set(0x01);
    let extra = cpu.execute_addr_mode(AddressingMode::IndirectIndexed);
    assert_eq!(cpu.address_absolute, 0x2011);
    assert_eq!(extra, 0);
}

#[test]
fn relative_sign_extends_negative_displacements() {
    let mut cpu = machine();
    cpu.pc.set(0x0200);
    cpu.write8(0x0200, 0xFB);
    cpu.execute_addr_mode(AddressingMode::Relative);
    assert_eq!(cpu.address_relative, 0xFFFB);
    cpu.write8(0x0201, 0x05);
    cpu.execute_addr_mode(AddressingMode::Relative);
    assert_eq!(cpu.address_relative, 0x0005);
}

#[test]
fn implied_latches_the_accumulator() {
    let mut cpu = machine();
    cpu.a.set(0x7E);
    let extra = cpu.execute_addr_mode(AddressingMode::Implied);
    assert_eq!(cpu.fetched_data, 0x7E);
    assert_eq!(extra, 0);
}
