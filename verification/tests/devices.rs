use mos6502::blink8::Blink8;
use mos6502::ram::Ram;
use mos6502::rom::Rom;

#[test]
fn ram_region_is_zeroed_and_sized() {
    let ram = Ram::new(0x1000, 0x10FF);
    assert_eq!(ram.start, 0x1000);
    assert_eq!(ram.end, 0x10FF);
    assert_eq!(ram.data.len(), 0x100);
    assert!(ram.data.iter().all(|&b| b == 0));
}

#[test]
fn rom_region_holds_a_loaded_image() {
    let mut rom = Rom::new(0xC000, 0xFFFF);
    assert_eq!(rom.data.len(), 0x4000);
    rom.data[0] = 0xA9;
    rom.data[1] = 0x42;
    let device = rom.into_device();
    assert_eq!(device.read(0xC000), 0xA9);
    assert_eq!(device.read(0xC001), 0x42);
    assert_eq!(device.read(0xC002), 0x00);
}

#[test]
fn blink8_enables_on_magic_write_and_reports_displays() {
    let mut blink = Blink8::new();
    assert!(!blink.enabled);
    assert_eq!(blink.start_address(), 0x8000);
    assert_eq!(blink.end_address(), 0x8002);
    // Writes to the display address while disabled show nothing.
    assert_eq!(blink.write(0x8000, 0xAA), None);
    assert!(!blink.enabled);
    // The magic write enables the device.
    assert_eq!(blink.write(0x8002, 0xFF), None);
    assert!(blink.enabled);
    // Now display writes hand the byte back.
    assert_eq!(blink.write(0x8000, 0xAA), Some(0xAA));
    // Other addresses show nothing.
    assert_eq!(blink.write(0x8001, 0x55), None);
    // Reads always yield 0xFF and it is an I/O device.
    assert_eq!(blink.read(0x8000), 0xFF);
    assert!(!blink.is_memory());
    // Reset disables it again.
    blink.reset();
    assert!(!blink.enabled);
    assert_eq!(blink.write(0x8000, 0xAA), None);
}
