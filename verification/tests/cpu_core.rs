use mos6502::bus::MainBus;
use mos6502::cpu::{Cpu, IRQ_VECTOR, NMI_VECTOR, RESET_VECTOR};
use mos6502::flags::{
    FLAG_BREAK, FLAG_CARRY, FLAG_INTERRUPT_DISABLE, FLAG_NEGATIVE, FLAG_UNUSED, FLAG_ZERO,
};
use mos6502::ram::Ram;

fn machine() -> Cpu {
    let mut bus = MainBus::new();
    bus.add_device(Ram::new(0x0000, 0xFFFF).into_device());
    Cpu::new(bus)
}

#[test]
fn reset_establishes_the_architectural_state() {
    let mut cpu = machine();
    cpu.a.set(0x55);
    cpu.x.set(0x66);
    cpu.y.set(0x77);
    cpu.sp.set(0x00);
    cpu.cycles = 9;
    cpu.write16(RESET_VECTOR, 0x8000);
    cpu.reset();
    assert_eq!(cpu.a.get(), 0x00);
    assert_eq!(cpu.x.get(), 0x00);
    assert_eq!(cpu.y.get(), 0x00);
    assert_eq!(cpu.sp.get(), 0xFD);
    assert_eq!(cpu.p.get(), FLAG_UNUSED | FLAG_INTERRUPT_DISABLE);
    assert_eq!(cpu.pc.get(), 0x8000);
    assert_eq!(cpu.cycles, 0);
}

#[test]
fn stack_word_round_trip_restores_the_stack_pointer() {
    let mut cpu = machine();
    cpu.sp.set(0xFD);
    cpu.push_word(0x1234);
    assert_eq!(cpu.sp.get(), 0xFB);
    let value = cpu.pop_word();
    assert_eq!(value, 0x1234);
    assert_eq!(cpu.sp.get(), 0xFD);
}

#[test]
fn stack_byte_round_trip() {
    let mut cpu = machine();
    cpu.sp.set(0xFD);
    cpu.push(0x42);
    assert_eq!(cpu.read8(0x01FD), 0x42);
    assert_eq!(cpu.sp.get(), 0xFC);
    assert_eq!(cpu.pop(), 0x42);
    assert_eq!(cpu.sp.get(), 0xFD);
}

#[test]
fn stack_pointer_wraps_within_its_page() {
    let mut cpu = machine();
    cpu.sp.set(0x00);
    cpu.decrement_sp();
    assert_eq!(cpu.sp.get(), 0xFF);
    cpu.increment_sp();
    assert_eq!(cpu.sp.get(), 0x00);
}

#[test]
fn word_accesses_are_little_endian() {
    let mut cpu = machine();
    cpu.write16(0x0400, 0xBEEF);
    assert_eq!(cpu.read8(0x0400), 0xEF);
    assert_eq!(cpu.read8(0x0401), 0xBE);
    assert_eq!(cpu.read16(0x0400), 0xBEEF);
}

#[test]
fn irq_is_masked_by_interrupt_disable() {
    let mut cpu = machine();
    cpu.pc.set(0x8000);
    cpu.set_flag(FLAG_INTERRUPT_DISABLE, true);
    cpu.irq();
    assert_eq!(cpu.pc.get(), 0x8000);
    assert_eq!(cpu.cycles, 0);
}

#[test]
fn irq_services_through_the_irq_vector() {
    let mut cpu = machine();
    cpu.write16(IRQ_VECTOR, 0x9000);
    cpu.pc.set(0x8123);
    cpu.sp.set(0xFD);
    cpu.set_flag(FLAG_INTERRUPT_DISABLE, false);
    cpu.irq();
    assert_eq!(cpu.pc.get(), 0x9000);
    assert_eq!(cpu.cycles, 7);
    assert_eq!(cpu.sp.get(), 0xFA);
    // Return address pushed high byte first.
    assert_eq!(cpu.read8(0x01FD), 0x81);
    assert_eq!(cpu.read8(0x01FC), 0x23);
    // The pushed status reports Break and Unused set.
    let pushed = cpu.read8(0x01FB);
    assert_eq!(pushed & FLAG_BREAK, FLAG_BREAK);
    assert_eq!(pushed & FLAG_UNUSED, FLAG_UNUSED);
    assert!(cpu.get_flag(FLAG_INTERRUPT_DISABLE));
}

#[test]
fn nmi_is_not_maskable() {
    let mut cpu = machine();
    cpu.write16(NMI_VECTOR, 0xA000);
    cpu.pc.set(0x8000);
    cpu.set_flag(FLAG_INTERRUPT_DISABLE, true);
    cpu.nmi();
    assert_eq!(cpu.pc.get(), 0xA000);
    assert_eq!(cpu.cycles, 7);
}

#[test]
fn get_register_returns_the_named_register() {
    let mut cpu = machine();
    cpu.a.set(0x11);
    cpu.x.set(0x22);
    cpu.y.set(0x33);
    cpu.sp.set(0x44);
    assert_eq!(cpu.get_register("A"), 0x11);
    assert_eq!(cpu.get_register("X"), 0x22);
    assert_eq!(cpu.get_register("Y"), 0x33);
    assert_eq!(cpu.get_register("SP"), 0x44);
}

#[test]
fn status_string_renders_each_flag() {
    let mut cpu = machine();
    cpu.p.set(0x00);
    assert_eq!(cpu.get_status_string(), "STATUS: nv-bdizc");
    cpu.p.set(FLAG_NEGATIVE | FLAG_ZERO | FLAG_CARRY);
    assert_eq!(cpu.get_status_string(), "STATUS: Nv-bdiZC");
    cpu.p.set(0xFF);
    assert_eq!(cpu.get_status_string(), "STATUS: NV-BDIZC");
}

#[test]
fn connect_bus_replaces_the_bus() {
    let mut cpu = machine();
    cpu.write8(0x0100, 0x55);
    let empty = MainBus::new();
    cpu.connect_bus(empty);
    assert_eq!(cpu.read8(0x0100), 0x00);
}

#[test]
fn register_arithmetic_wraps() {
    let mut cpu = machine();
    cpu.x.set(0xFF);
    cpu.x.add_assign(1);
    assert_eq!(cpu.x.get(), 0x00);
    cpu.x.sub_assign(1);
    assert_eq!(cpu.x.get(), 0xFF);
    cpu.pc.set(0xFFFF);
    cpu.pc.add_assign(1);
    assert_eq!(cpu.pc.get(), 0x0000);
}
