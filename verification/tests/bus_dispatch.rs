use mos6502::bus::{BusDevice, MainBus};
use mos6502::ram::Ram;

#[test]
fn unmapped_read_returns_zero_without_failing() {
    let bus = MainBus::new();
    assert_eq!(bus.read(0x0000), 0x00);
    assert_eq!(bus.read(0x1234), 0x00);
    assert_eq!(bus.read(0xFFFF), 0x00);
}

#[test]
fn read_outside_all_registered_ranges_returns_zero() {
    let mut bus = MainBus::new();
    bus.add_device(Ram::new(0x1000, 0x1FFF).into_device());
    bus.write(0x1000, 0xAB);
    assert_eq!(bus.read(0x1000), 0xAB);
    assert_eq!(bus.read(0x0FFF), 0x00);
    assert_eq!(bus.read(0x2000), 0x00);
}

#[test]
fn unmapped_write_is_dropped() {
    let mut bus = MainBus::new();
    bus.add_device(Ram::new(0x1000, 0x1FFF).into_device());
    bus.write(0x2000, 0x55);
    assert_eq!(bus.read(0x2000), 0x00);
    bus.write(0x1800, 0x66);
    assert_eq!(bus.read(0x1800), 0x66);
}

#[test]
fn first_registered_device_wins_on_overlap() {
    let mut bus = MainBus::new();
    bus.add_device(BusDevice::new_memory(0x0000, 0x00FF, vec![0x11; 0x100]));
    bus.add_device(BusDevice::new_memory(0x0000, 0x01FF, vec![0x22; 0x200]));
    assert_eq!(bus.read(0x0080), 0x11);
    assert_eq!(bus.read(0x0180), 0x22);
    bus.write(0x0080, 0x99);
    assert_eq!(bus.read(0x0080), 0x99);
    // The write landed in the first device; the second still holds its byte.
    assert_eq!(bus.read(0x0180), 0x22);
}

#[test]
fn memory_and_io_classification() {
    let mut bus = MainBus::new();
    bus.add_device(Ram::new(0x0000, 0x7FFF).into_device());
    bus.add_device(BusDevice::new_io(0x8000, 0x8002));
    assert!(bus.is_memory(0x1234));
    assert!(!bus.is_io(0x1234));
    assert!(bus.is_io(0x8001));
    assert!(!bus.is_memory(0x8001));
    // Unmapped addresses are neither.
    assert!(!bus.is_memory(0x9000));
    assert!(!bus.is_io(0x9000));
}

#[test]
fn device_read_beyond_backing_store_returns_zero() {
    // An I/O device has no backing bytes; reads in its range yield 0 and
    // writes are dropped rather than failing.
    let mut bus = MainBus::new();
    bus.add_device(BusDevice::new_io(0x8000, 0x8002));
    assert_eq!(bus.read(0x8001), 0x00);
    bus.write(0x8001, 0xFF);
    assert_eq!(bus.read(0x8001), 0x00);
}

#[test]
fn bus_reset_clears_device_backing() {
    let mut bus = MainBus::new();
    bus.add_device(Ram::new(0x0000, 0x00FF).into_device());
    bus.write(0x0010, 0x42);
    assert_eq!(bus.read(0x0010), 0x42);
    bus.reset();
    // The backing store is gone; reads fall back to 0.
    assert_eq!(bus.read(0x0010), 0x00);
}
