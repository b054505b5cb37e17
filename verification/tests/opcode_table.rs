use mos6502::addressing::AddressingMode;
use mos6502::opcodes::{get_addr_mode, get_cycles, get_illegal, lookup, Mnemonic};

#[test]
fn every_opcode_has_descriptor_with_cycles_in_range() {
    for opcode in 0..=255u8 {
        let descriptor = lookup(opcode);
        assert_eq!(descriptor.opcode, opcode);
        assert!(descriptor.cycles >= 2);
        assert!(descriptor.cycles <= 8);
    }
}

#[test]
fn lookup_agrees_with_field_accessors() {
    for opcode in 0..=255u8 {
        let descriptor = lookup(opcode);
        assert_eq!(descriptor.cycles, get_cycles(opcode));
        assert_eq!(descriptor.mode, get_addr_mode(opcode));
        assert_eq!(descriptor.illegal, get_illegal(opcode));
    }
}

#[test]
fn documented_rows_match_the_reference_table() {
    let lda_immediate = lookup(0xA9);
    assert_eq!(lda_immediate.mnemonic, Mnemonic::Lda);
    assert_eq!(lda_immediate.mode, AddressingMode::Immediate);
    assert_eq!(lda_immediate.cycles, 2);
    assert!(!lda_immediate.illegal);

    let brk = lookup(0x00);
    assert_eq!(brk.mnemonic, Mnemonic::Brk);
    assert_eq!(brk.mode, AddressingMode::Immediate);
    assert_eq!(brk.cycles, 7);
    assert!(!brk.illegal);

    let jmp_indirect = lookup(0x6C);
    assert_eq!(jmp_indirect.mnemonic, Mnemonic::Jmp);
    assert_eq!(jmp_indirect.mode, AddressingMode::Indirect);
    assert_eq!(jmp_indirect.cycles, 5);

    let sta_absolute_x = lookup(0x9D);
    assert_eq!(sta_absolute_x.mnemonic, Mnemonic::Sta);
    assert_eq!(sta_absolute_x.mode, AddressingMode::AbsoluteX);
    assert_eq!(sta_absolute_x.cycles, 5);

    let rotate_accumulator = lookup(0x6A);
    assert_eq!(rotate_accumulator.mnemonic, Mnemonic::RorA);
    assert_eq!(rotate_accumulator.mode, AddressingMode::Implied);
    assert_eq!(rotate_accumulator.cycles, 2);

    let slo_zero_page = lookup(0x07);
    assert_eq!(slo_zero_page.mnemonic, Mnemonic::Slo);
    assert_eq!(slo_zero_page.mode, AddressingMode::ZeroPage);
    assert_eq!(slo_zero_page.cycles, 5);
    assert!(slo_zero_page.illegal);

    let kil = lookup(0x02);
    assert_eq!(kil.mnemonic, Mnemonic::Kil);
    assert!(kil.illegal);
}

#[test]
fn illegal_flag_follows_the_illegal_mnemonic_families() {
    let illegal_families = [
        Mnemonic::Slo,
        Mnemonic::Rla,
        Mnemonic::Sre,
        Mnemonic::Rra,
        Mnemonic::Sax,
        Mnemonic::Lax,
        Mnemonic::Dcp,
        Mnemonic::Isc,
        Mnemonic::Anc,
        Mnemonic::Alr,
        Mnemonic::Arr,
        Mnemonic::Xaa,
        Mnemonic::Axs,
        Mnemonic::Ahx,
        Mnemonic::Tas,
        Mnemonic::Shy,
        Mnemonic::Shx,
        Mnemonic::Las,
        Mnemonic::Kil,
    ];
    for opcode in 0..=255u8 {
        let descriptor = lookup(opcode);
        let in_family = illegal_families.contains(&descriptor.mnemonic);
        assert_eq!(get_illegal(opcode), in_family, "opcode {:#04x}", opcode);
    }
}
