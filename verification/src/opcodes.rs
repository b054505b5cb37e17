//! The opcode descriptor table: a fixed, total mapping from each of the 256
//! opcode values to its mnemonic, addressing mode, base cycle count and
//! illegal-opcode classification.
//!
//! The table is given once as spec functions -- the reference the rest of the
//! crate is verified against -- and mirrored by executable lookups whose
//! contracts tie them to the spec table entry for every opcode.

use vstd::prelude::*;

use crate::addressing::AddressingMode;

verus! {

/// The instruction mnemonics, one per semantic handler. `RorA` is the
/// accumulator-only rotate bound to opcode 0x6A.
#[derive(Clone, Copy, Debug, PartialEq, Eq, Structural)]
pub enum Mnemonic {
    /// ADC
    Adc,
    /// AHX
    Ahx,
    /// ALR
    Alr,
    /// ANC
    Anc,
    /// AND
    And,
    /// ARR
    Arr,
    /// ASL
    Asl,
    /// AXS
    Axs,
    /// BCC
    Bcc,
    /// BCS
    Bcs,
    /// BEQ
    Beq,
    /// BIT
    Bit,
    /// BMI
    Bmi,
    /// BNE
    Bne,
    /// BPL
    Bpl,
    /// BRK
    Brk,
    /// BVC
    Bvc,
    /// BVS
    Bvs,
    /// CLC
    Clc,
    /// CLD
    Cld,
    /// CLI
    Cli,
    /// CLV
    Clv,
    /// CMP
    Cmp,
    /// CPX
    Cpx,
    /// CPY
    Cpy,
    /// DCP
    Dcp,
    /// DEC
    Dec,
    /// DEX
    Dex,
    /// DEY
    Dey,
    /// EOR
    Eor,
    /// INC
    Inc,
    /// INX
    Inx,
    /// INY
    Iny,
    /// ISC
    Isc,
    /// JMP
    Jmp,
    /// JSR
    Jsr,
    /// KIL
    Kil,
    /// LAS
    Las,
    /// LAX
    Lax,
    /// LDA
    Lda,
    /// LDX
    Ldx,
    /// LDY
    Ldy,
    /// LSR
    Lsr,
    /// NOP
    Nop,
    /// ORA
    Ora,
    /// PHA
    Pha,
    /// PHP
    Php,
    /// PLA
    Pla,
    /// PLP
    Plp,
    /// RLA
    Rla,
    /// ROL
    Rol,
    /// ROR
    Ror,
    /// RORA
    RorA,
    /// RRA
    Rra,
    /// RTI
    Rti,
    /// RTS
    Rts,
    /// SAX
    Sax,
    /// SBC
    Sbc,
    /// SEC
    Sec,
    /// SED
    Sed,
    /// SEI
    Sei,
    /// SHX
    Shx,
    /// SHY
    Shy,
    /// SLO
    Slo,
    /// SRE
    Sre,
    /// STA
    Sta,
    /// STX
    Stx,
    /// STY
    Sty,
    /// TAS
    Tas,
    /// TAX
    Tax,
    /// TAY
    Tay,
    /// TSX
    Tsx,
    /// TXA
    Txa,
    /// TXS
    Txs,
    /// TYA
    Tya,
    /// XAA
    Xaa,
}

/// One opcode descriptor: everything the dispatcher needs to know about an
/// opcode before running its handler.
#[derive(Clone, Copy, Debug, PartialEq, Eq, Structural)]
pub struct Instruction {
    /// True when the opcode is outside the documented instruction set.
    pub illegal: bool,
    /// The opcode byte this descriptor belongs to.
    pub opcode: u8,
    /// The semantic handler family.
    pub mnemonic: Mnemonic,
    /// The addressing mode the operand bytes are decoded with.
    pub mode: AddressingMode,
    /// The base cycle count, before addressing and handler extras.
    pub cycles: u8,
}

/// The base cycle count of `opcode` in the reference table.
pub open spec fn spec_cycles(opcode: u8) -> u8 {
    match opcode {
        0x03 | 0x13 | 0x23 | 0x33 | 0x43 | 0x53 | 0x63 | 0x73 | 0xc3 | 0xd3 | 0xe3 | 0xf3 => 8,
        0x00 | 0x1b | 0x1e | 0x1f | 0x3b | 0x3e | 0x3f | 0x5b | 0x5e | 0x5f | 0x7b | 0x7e | 0x7f | 0xdb | 0xde | 0xdf | 0xfb | 0xfe | 0xff => 7,
        0x04 | 0x05 | 0x08 | 0x24 | 0x25 | 0x44 | 0x45 | 0x48 | 0x4c | 0x64 | 0x65 | 0x84 | 0x85 | 0x86 | 0x87 | 0xa4 | 0xa5 | 0xa6 | 0xa7 | 0xc4 | 0xc5 | 0xe4 | 0xe5 => 3,
        0x06 | 0x07 | 0x11 | 0x26 | 0x27 | 0x31 | 0x46 | 0x47 | 0x51 | 0x66 | 0x67 | 0x6c | 0x71 | 0x99 | 0x9b | 0x9c | 0x9d | 0x9e | 0x9f | 0xb1 | 0xb3 | 0xc6 | 0xc7 | 0xd1 | 0xe6 | 0xe7 | 0xf1 => 5,
        0x01 | 0x0e | 0x0f | 0x16 | 0x17 | 0x20 | 0x21 | 0x2e | 0x2f | 0x36 | 0x37 | 0x40 | 0x41 | 0x4e | 0x4f | 0x56 | 0x57 | 0x60 | 0x61 | 0x6e | 0x6f | 0x76 | 0x77 | 0x81 | 0x83 | 0x91 | 0x93 | 0xa1 | 0xa3 | 0xc1 | 0xce | 0xcf | 0xd6 | 0xd7 | 0xe1 | 0xee | 0xef | 0xf6 | 0xf7 => 6,
        0x0c | 0x0d | 0x14 | 0x15 | 0x19 | 0x1c | 0x1d | 0x28 | 0x2c | 0x2d | 0x34 | 0x35 | 0x39 | 0x3c | 0x3d | 0x4d | 0x54 | 0x55 | 0x59 | 0x5c | 0x5d | 0x68 | 0x6d | 0x74 | 0x75 | 0x79 | 0x7c | 0x7d | 0x8c | 0x8d | 0x8e | 0x8f | 0x94 | 0x95 | 0x96 | 0x97 | 0xac | 0xad | 0xae | 0xaf | 0xb4 | 0xb5 | 0xb6 | 0xb7 | 0xb9 | 0xbb | 0xbc | 0xbd | 0xbe | 0xbf | 0xcc | 0xcd | 0xd4 | 0xd5 | 0xd9 | 0xdc | 0xdd | 0xec | 0xed | 0xf4 | 0xf5 | 0xf9 | 0xfc | 0xfd => 4,
        _ => 2,
    }
}

/// The addressing mode of `opcode` in the reference table.
pub open spec fn spec_addr_mode(opcode: u8) -> AddressingMode {
    match opcode {
        0x6c => AddressingMode::Indirect,
        0x96 | 0x97 | 0xb6 | 0xb7 => AddressingMode::ZeroPageY,
        0x10 | 0x30 | 0x50 | 0x70 | 0x90 | 0xb0 | 0xd0 | 0xf0 => AddressingMode::Relative,
        0x01 | 0x03 | 0x21 | 0x23 | 0x41 | 0x43 | 0x61 | 0x63 | 0x81 | 0x83 | 0xa1 | 0xa3 | 0xc1 | 0xc3 | 0xe1 | 0xe3 => AddressingMode::IndexedIndirect,
        0x11 | 0x13 | 0x31 | 0x33 | 0x51 | 0x53 | 0x71 | 0x73 | 0x91 | 0x93 | 0xb1 | 0xb3 | 0xd1 | 0xd3 | 0xf1 | 0xf3 => AddressingMode::IndirectIndexed,
        0x19 | 0x1b | 0x39 | 0x3b | 0x59 | 0x5b | 0x79 | 0x7b | 0x99 | 0x9b | 0x9e | 0x9f | 0xb9 | 0xbb | 0xbe | 0xbf | 0xd9 | 0xdb | 0xf9 | 0xfb => AddressingMode::AbsoluteY,
        0x00 | 0x09 | 0x0b | 0x29 | 0x2b | 0x49 | 0x4b | 0x69 | 0x6b | 0x80 | 0x82 | 0x89 | 0x8b | 0xa0 | 0xa2 | 0xa9 | 0xab | 0xc0 | 0xc2 | 0xc9 | 0xcb | 0xe0 | 0xe2 | 0xe9 | 0xeb => AddressingMode::Immediate,
        0x1c | 0x1d | 0x1e | 0x1f | 0x3c | 0x3d | 0x3e | 0x3f | 0x5c | 0x5d | 0x5e | 0x5f | 0x7c | 0x7d | 0x7e | 0x7f | 0x9c | 0x9d | 0xbc | 0xbd | 0xdc | 0xdd | 0xde | 0xdf | 0xfc | 0xfd | 0xfe | 0xff => AddressingMode::AbsoluteX,
        0x14 | 0x15 | 0x16 | 0x17 | 0x34 | 0x35 | 0x36 | 0x37 | 0x54 | 0x55 | 0x56 | 0x57 | 0x74 | 0x75 | 0x76 | 0x77 | 0x94 | 0x95 | 0xb4 | 0xb5 | 0xd4 | 0xd5 | 0xd6 | 0xd7 | 0xf4 | 0xf5 | 0xf6 | 0xf7 => AddressingMode::ZeroPageX,
        0x0c | 0x0d | 0x0e | 0x0f | 0x20 | 0x2c | 0x2d | 0x2e | 0x2f | 0x4c | 0x4d | 0x4e | 0x4f | 0x6d | 0x6e | 0x6f | 0x8c | 0x8d | 0x8e | 0x8f | 0xac | 0xad | 0xae | 0xaf | 0xcc | 0xcd | 0xce | 0xcf | 0xec | 0xed | 0xee | 0xef => AddressingMode::Absolute,
        0x04 | 0x05 | 0x06 | 0x07 | 0x24 | 0x25 | 0x26 | 0x27 | 0x44 | 0x45 | 0x46 | 0x47 | 0x64 | 0x65 | 0x66 | 0x67 | 0x84 | 0x85 | 0x86 | 0x87 | 0xa4 | 0xa5 | 0xa6 | 0xa7 | 0xc4 | 0xc5 | 0xc6 | 0xc7 | 0xe4 | 0xe5 | 0xe6 | 0xe7 => AddressingMode::ZeroPage,
        _ => AddressingMode::Implied,
    }
}

/// Whether `opcode` is an illegal (undocumented) opcode.
pub open spec fn spec_illegal(opcode: u8) -> bool {
    match opcode {
        0x02 | 0x03 | 0x07 | 0x0b | 0x0f | 0x12 | 0x13 | 0x17 | 0x1b | 0x1f | 0x22 | 0x23 | 0x27 | 0x2b | 0x2f | 0x32 | 0x33 | 0x37 | 0x3b | 0x3f | 0x42 | 0x43 | 0x47 | 0x4b | 0x4f | 0x52 | 0x53 | 0x57 | 0x5b | 0x5f | 0x62 | 0x63 | 0x67 | 0x6b | 0x6f | 0x72 | 0x73 | 0x77 | 0x7b | 0x7f | 0x83 | 0x87 | 0x8b | 0x8f | 0x92 | 0x93 | 0x97 | 0x9b | 0x9c | 0x9e | 0x9f | 0xa3 | 0xa7 | 0xab | 0xaf | 0xb2 | 0xb3 | 0xb7 | 0xbb | 0xbf | 0xc3 | 0xc7 | 0xcb | 0xcf | 0xd2 | 0xd3 | 0xd7 | 0xdb | 0xdf | 0xe3 | 0xe7 | 0xef | 0xf2 | 0xf3 | 0xf7 | 0xfb | 0xff => true,
        _ => false,
    }
}

/// The mnemonic of `opcode` in the reference table.
pub open spec fn spec_mnemonic(opcode: u8) -> Mnemonic {
    match opcode {
        0x4b => Mnemonic::Alr,
        0x6b => Mnemonic::Arr,
        0xcb => Mnemonic::Axs,
        0x90 => Mnemonic::Bcc,
        0xb0 => Mnemonic::Bcs,
        0xf0 => Mnemonic::Beq,
        0x30 => Mnemonic::Bmi,
        0xd0 => Mnemonic::Bne,
        0x10 => Mnemonic::Bpl,
        0x00 => Mnemonic::Brk,
        0x50 => Mnemonic::Bvc,
        0x70 => Mnemonic::Bvs,
        0x18 => Mnemonic::Clc,
        0xd8 => Mnemonic::Cld,
        0x58 => Mnemonic::Cli,
        0xb8 => Mnemonic::Clv,
        0xca => Mnemonic::Dex,
        0x88 => Mnemonic::Dey,
        0xe8 => Mnemonic::Inx,
        0xc8 => Mnemonic::Iny,
        0x20 => Mnemonic::Jsr,
        0xbb => Mnemonic::Las,
        0x48 => Mnemonic::Pha,
        0x08 => Mnemonic::Php,
        0x68 => Mnemonic::Pla,
        0x28 => Mnemonic::Plp,
        0x6a => Mnemonic::RorA,
        0x40 => Mnemonic::Rti,
        0x60 => Mnemonic::Rts,
        0x38 => Mnemonic::Sec,
        0xf8 => Mnemonic::Sed,
        0x78 => Mnemonic::Sei,
        0x9e => Mnemonic::Shx,
        0x9c => Mnemonic::Shy,
        0x9b => Mnemonic::Tas,
        0xaa => Mnemonic::Tax,
        0xa8 => Mnemonic::Tay,
        0xba => Mnemonic::Tsx,
        0x8a => Mnemonic::Txa,
        0x9a => Mnemonic::Txs,
        0x98 => Mnemonic::Tya,
        0x8b => Mnemonic::Xaa,
        0x93 | 0x9f => Mnemonic::Ahx,
        0x0b | 0x2b => Mnemonic::Anc,
        0x24 | 0x2c => Mnemonic::Bit,
        0x4c | 0x6c => Mnemonic::Jmp,
        0xe0 | 0xe4 | 0xec => Mnemonic::Cpx,
        0xc0 | 0xc4 | 0xcc => Mnemonic::Cpy,
        0x86 | 0x8e | 0x96 => Mnemonic::Stx,
        0x84 | 0x8c | 0x94 => Mnemonic::Sty,
        0xc6 | 0xce | 0xd6 | 0xde => Mnemonic::Dec,
        0xe6 | 0xee | 0xf6 | 0xfe => Mnemonic::Inc,
        0x66 | 0x6e | 0x76 | 0x7e => Mnemonic::Ror,
        0x83 | 0x87 | 0x8f | 0x97 => Mnemonic::Sax,
        0x06 | 0x0a | 0x0e | 0x16 | 0x1e => Mnemonic::Asl,
        0xa2 | 0xa6 | 0xae | 0xb6 | 0xbe => Mnemonic::Ldx,
        0xa0 | 0xa4 | 0xac | 0xb4 | 0xbc => Mnemonic::Ldy,
        0x46 | 0x4a | 0x4e | 0x56 | 0x5e => Mnemonic::Lsr,
        0x26 | 0x2a | 0x2e | 0x36 | 0x3e => Mnemonic::Rol,
        0xc3 | 0xc7 | 0xcf | 0xd3 | 0xd7 | 0xdb | 0xdf => Mnemonic::Dcp,
        0xe3 | 0xe7 | 0xef | 0xf3 | 0xf7 | 0xfb | 0xff => Mnemonic::Isc,
        0xa3 | 0xa7 | 0xab | 0xaf | 0xb3 | 0xb7 | 0xbf => Mnemonic::Lax,
        0x23 | 0x27 | 0x2f | 0x33 | 0x37 | 0x3b | 0x3f => Mnemonic::Rla,
        0x63 | 0x67 | 0x6f | 0x73 | 0x77 | 0x7b | 0x7f => Mnemonic::Rra,
        0x03 | 0x07 | 0x0f | 0x13 | 0x17 | 0x1b | 0x1f => Mnemonic::Slo,
        0x43 | 0x47 | 0x4f | 0x53 | 0x57 | 0x5b | 0x5f => Mnemonic::Sre,
        0x81 | 0x85 | 0x8d | 0x91 | 0x95 | 0x99 | 0x9d => Mnemonic::Sta,
        0x61 | 0x65 | 0x69 | 0x6d | 0x71 | 0x75 | 0x79 | 0x7d => Mnemonic::Adc,
        0x21 | 0x25 | 0x29 | 0x2d | 0x31 | 0x35 | 0x39 | 0x3d => Mnemonic::And,
        0xc1 | 0xc5 | 0xc9 | 0xcd | 0xd1 | 0xd5 | 0xd9 | 0xdd => Mnemonic::Cmp,
        0x41 | 0x45 | 0x49 | 0x4d | 0x51 | 0x55 | 0x59 | 0x5d => Mnemonic::Eor,
        0xa1 | 0xa5 | 0xa9 | 0xad | 0xb1 | 0xb5 | 0xb9 | 0xbd => Mnemonic::Lda,
        0x01 | 0x05 | 0x09 | 0x0d | 0x11 | 0x15 | 0x19 | 0x1d => Mnemonic::Ora,
        0xe1 | 0xe5 | 0xe9 | 0xeb | 0xed | 0xf1 | 0xf5 | 0xf9 | 0xfd => Mnemonic::Sbc,
        0x02 | 0x12 | 0x22 | 0x32 | 0x42 | 0x52 | 0x62 | 0x72 | 0x92 | 0xb2 | 0xd2 | 0xf2 => Mnemonic::Kil,
        _ => Mnemonic::Nop,
    }
}

/// The full descriptor of `opcode` in the reference table.
pub open spec fn spec_lookup(opcode: u8) -> Instruction {
    Instruction {
        illegal: spec_illegal(opcode),
        opcode: opcode,
        mnemonic: spec_mnemonic(opcode),
        mode: spec_addr_mode(opcode),
        cycles: spec_cycles(opcode),
    }
}

/// Returns the base cycle count of `opcode`.
pub fn get_cycles(opcode: u8) -> (r: u8)
    ensures
        r == spec_cycles(opcode),
{
    match opcode {
        0x03 | 0x13 | 0x23 | 0x33 | 0x43 | 0x53 | 0x63 | 0x73 | 0xc3 | 0xd3 | 0xe3 | 0xf3 => 8,
        0x00 | 0x1b | 0x1e | 0x1f | 0x3b | 0x3e | 0x3f | 0x5b | 0x5e | 0x5f | 0x7b | 0x7e | 0x7f | 0xdb | 0xde | 0xdf | 0xfb | 0xfe | 0xff => 7,
        0x04 | 0x05 | 0x08 | 0x24 | 0x25 | 0x44 | 0x45 | 0x48 | 0x4c | 0x64 | 0x65 | 0x84 | 0x85 | 0x86 | 0x87 | 0xa4 | 0xa5 | 0xa6 | 0xa7 | 0xc4 | 0xc5 | 0xe4 | 0xe5 => 3,
        0x06 | 0x07 | 0x11 | 0x26 | 0x27 | 0x31 | 0x46 | 0x47 | 0x51 | 0x66 | 0x67 | 0x6c | 0x71 | 0x99 | 0x9b | 0x9c | 0x9d | 0x9e | 0x9f | 0xb1 | 0xb3 | 0xc6 | 0xc7 | 0xd1 | 0xe6 | 0xe7 | 0xf1 => 5,
        0x01 | 0x0e | 0x0f | 0x16 | 0x17 | 0x20 | 0x21 | 0x2e | 0x2f | 0x36 | 0x37 | 0x40 | 0x41 | 0x4e | 0x4f | 0x56 | 0x57 | 0x60 | 0x61 | 0x6e | 0x6f | 0x76 | 0x77 | 0x81 | 0x83 | 0x91 | 0x93 | 0xa1 | 0xa3 | 0xc1 | 0xce | 0xcf | 0xd6 | 0xd7 | 0xe1 | 0xee | 0xef | 0xf6 | 0xf7 => 6,
        0x0c | 0x0d | 0x14 | 0x15 | 0x19 | 0x1c | 0x1d | 0x28 | 0x2c | 0x2d | 0x34 | 0x35 | 0x39 | 0x3c | 0x3d | 0x4d | 0x54 | 0x55 | 0x59 | 0x5c | 0x5d | 0x68 | 0x6d | 0x74 | 0x75 | 0x79 | 0x7c | 0x7d | 0x8c | 0x8d | 0x8e | 0x8f | 0x94 | 0x95 | 0x96 | 0x97 | 0xac | 0xad | 0xae | 0xaf | 0xb4 | 0xb5 | 0xb6 | 0xb7 | 0xb9 | 0xbb | 0xbc | 0xbd | 0xbe | 0xbf | 0xcc | 0xcd | 0xd4 | 0xd5 | 0xd9 | 0xdc | 0xdd | 0xec | 0xed | 0xf4 | 0xf5 | 0xf9 | 0xfc | 0xfd => 4,
        _ => 2,
    }
}

/// Returns the addressing mode of `opcode`.
pub fn get_addr_mode(opcode: u8) -> (r: AddressingMode)
    ensures
        r == spec_addr_mode(opcode),
{
    match opcode {
        0x6c => AddressingMode::Indirect,
        0x96 | 0x97 | 0xb6 | 0xb7 => AddressingMode::ZeroPageY,
        0x10 | 0x30 | 0x50 | 0x70 | 0x90 | 0xb0 | 0xd0 | 0xf0 => AddressingMode::Relative,
        0x01 | 0x03 | 0x21 | 0x23 | 0x41 | 0x43 | 0x61 | 0x63 | 0x81 | 0x83 | 0xa1 | 0xa3 | 0xc1 | 0xc3 | 0xe1 | 0xe3 => AddressingMode::IndexedIndirect,
        0x11 | 0x13 | 0x31 | 0x33 | 0x51 | 0x53 | 0x71 | 0x73 | 0x91 | 0x93 | 0xb1 | 0xb3 | 0xd1 | 0xd3 | 0xf1 | 0xf3 => AddressingMode::IndirectIndexed,
        0x19 | 0x1b | 0x39 | 0x3b | 0x59 | 0x5b | 0x79 | 0x7b | 0x99 | 0x9b | 0x9e | 0x9f | 0xb9 | 0xbb | 0xbe | 0xbf | 0xd9 | 0xdb | 0xf9 | 0xfb => AddressingMode::AbsoluteY,
        0x00 | 0x09 | 0x0b | 0x29 | 0x2b | 0x49 | 0x4b | 0x69 | 0x6b | 0x80 | 0x82 | 0x89 | 0x8b | 0xa0 | 0xa2 | 0xa9 | 0xab | 0xc0 | 0xc2 | 0xc9 | 0xcb | 0xe0 | 0xe2 | 0xe9 | 0xeb => AddressingMode::Immediate,
        0x1c | 0x1d | 0x1e | 0x1f | 0x3c | 0x3d | 0x3e | 0x3f | 0x5c | 0x5d | 0x5e | 0x5f | 0x7c | 0x7d | 0x7e | 0x7f | 0x9c | 0x9d | 0xbc | 0xbd | 0xdc | 0xdd | 0xde | 0xdf | 0xfc | 0xfd | 0xfe | 0xff => AddressingMode::AbsoluteX,
        0x14 | 0x15 | 0x16 | 0x17 | 0x34 | 0x35 | 0x36 | 0x37 | 0x54 | 0x55 | 0x56 | 0x57 | 0x74 | 0x75 | 0x76 | 0x77 | 0x94 | 0x95 | 0xb4 | 0xb5 | 0xd4 | 0xd5 | 0xd6 | 0xd7 | 0xf4 | 0xf5 | 0xf6 | 0xf7 => AddressingMode::ZeroPageX,
        0x0c | 0x0d | 0x0e | 0x0f | 0x20 | 0x2c | 0x2d | 0x2e | 0x2f | 0x4c | 0x4d | 0x4e | 0x4f | 0x6d | 0x6e | 0x6f | 0x8c | 0x8d | 0x8e | 0x8f | 0xac | 0xad | 0xae | 0xaf | 0xcc | 0xcd | 0xce | 0xcf | 0xec | 0xed | 0xee | 0xef => AddressingMode::Absolute,
        0x04 | 0x05 | 0x06 | 0x07 | 0x24 | 0x25 | 0x26 | 0x27 | 0x44 | 0x45 | 0x46 | 0x47 | 0x64 | 0x65 | 0x66 | 0x67 | 0x84 | 0x85 | 0x86 | 0x87 | 0xa4 | 0xa5 | 0xa6 | 0xa7 | 0xc4 | 0xc5 | 0xc6 | 0xc7 | 0xe4 | 0xe5 | 0xe6 | 0xe7 => AddressingMode::ZeroPage,
        _ => AddressingMode::Implied,
    }
}

/// Returns true iff `opcode` is an illegal (undocumented) opcode.
pub fn get_illegal(opcode: u8) -> (r: bool)
    ensures
        r == spec_illegal(opcode),
{
    match opcode {
        0x02 | 0x03 | 0x07 | 0x0b | 0x0f | 0x12 | 0x13 | 0x17 | 0x1b | 0x1f | 0x22 | 0x23 | 0x27 | 0x2b | 0x2f | 0x32 | 0x33 | 0x37 | 0x3b | 0x3f | 0x42 | 0x43 | 0x47 | 0x4b | 0x4f | 0x52 | 0x53 | 0x57 | 0x5b | 0x5f | 0x62 | 0x63 | 0x67 | 0x6b | 0x6f | 0x72 | 0x73 | 0x77 | 0x7b | 0x7f | 0x83 | 0x87 | 0x8b | 0x8f | 0x92 | 0x93 | 0x97 | 0x9b | 0x9c | 0x9e | 0x9f | 0xa3 | 0xa7 | 0xab | 0xaf | 0xb2 | 0xb3 | 0xb7 | 0xbb | 0xbf | 0xc3 | 0xc7 | 0xcb | 0xcf | 0xd2 | 0xd3 | 0xd7 | 0xdb | 0xdf | 0xe3 | 0xe7 | 0xef | 0xf2 | 0xf3 | 0xf7 | 0xfb | 0xff => true,
        _ => false,
    }
}

/// Returns the mnemonic of `opcode`.
pub fn get_mnemonic(opcode: u8) -> (r: Mnemonic)
    ensures
        r == spec_mnemonic(opcode),
{
    match opcode {
        0x4b => Mnemonic::Alr,
        0x6b => Mnemonic::Arr,
        0xcb => Mnemonic::Axs,
        0x90 => Mnemonic::Bcc,
        0xb0 => Mnemonic::Bcs,
        0xf0 => Mnemonic::Beq,
        0x30 => Mnemonic::Bmi,
        0xd0 => Mnemonic::Bne,
        0x10 => Mnemonic::Bpl,
        0x00 => Mnemonic::Brk,
        0x50 => Mnemonic::Bvc,
        0x70 => Mnemonic::Bvs,
        0x18 => Mnemonic::Clc,
        0xd8 => Mnemonic::Cld,
        0x58 => Mnemonic::Cli,
        0xb8 => Mnemonic::Clv,
        0xca => Mnemonic::Dex,
        0x88 => Mnemonic::Dey,
        0xe8 => Mnemonic::Inx,
        0xc8 => Mnemonic::Iny,
        0x20 => Mnemonic::Jsr,
        0xbb => Mnemonic::Las,
        0x48 => Mnemonic::Pha,
        0x08 => Mnemonic::Php,
        0x68 => Mnemonic::Pla,
        0x28 => Mnemonic::Plp,
        0x6a => Mnemonic::RorA,
        0x40 => Mnemonic::Rti,
        0x60 => Mnemonic::Rts,
        0x38 => Mnemonic::Sec,
        0xf8 => Mnemonic::Sed,
        0x78 => Mnemonic::Sei,
        0x9e => Mnemonic::Shx,
        0x9c => Mnemonic::Shy,
        0x9b => Mnemonic::Tas,
        0xaa => Mnemonic::Tax,
        0xa8 => Mnemonic::Tay,
        0xba => Mnemonic::Tsx,
        0x8a => Mnemonic::Txa,
        0x9a => Mnemonic::Txs,
        0x98 => Mnemonic::Tya,
        0x8b => Mnemonic::Xaa,
        0x93 | 0x9f => Mnemonic::Ahx,
        0x0b | 0x2b => Mnemonic::Anc,
        0x24 | 0x2c => Mnemonic::Bit,
        0x4c | 0x6c => Mnemonic::Jmp,
        0xe0 | 0xe4 | 0xec => Mnemonic::Cpx,
        0xc0 | 0xc4 | 0xcc => Mnemonic::Cpy,
        0x86 | 0x8e | 0x96 => Mnemonic::Stx,
        0x84 | 0x8c | 0x94 => Mnemonic::Sty,
        0xc6 | 0xce | 0xd6 | 0xde => Mnemonic::Dec,
        0xe6 | 0xee | 0xf6 | 0xfe => Mnemonic::Inc,
        0x66 | 0x6e | 0x76 | 0x7e => Mnemonic::Ror,
        0x83 | 0x87 | 0x8f | 0x97 => Mnemonic::Sax,
        0x06 | 0x0a | 0x0e | 0x16 | 0x1e => Mnemonic::Asl,
        0xa2 | 0xa6 | 0xae | 0xb6 | 0xbe => Mnemonic::Ldx,
        0xa0 | 0xa4 | 0xac | 0xb4 | 0xbc => Mnemonic::Ldy,
        0x46 | 0x4a | 0x4e | 0x56 | 0x5e => Mnemonic::Lsr,
        0x26 | 0x2a | 0x2e | 0x36 | 0x3e => Mnemonic::Rol,
        0xc3 | 0xc7 | 0xcf | 0xd3 | 0xd7 | 0xdb | 0xdf => Mnemonic::Dcp,
        0xe3 | 0xe7 | 0xef | 0xf3 | 0xf7 | 0xfb | 0xff => Mnemonic::Isc,
        0xa3 | 0xa7 | 0xab | 0xaf | 0xb3 | 0xb7 | 0xbf => Mnemonic::Lax,
        0x23 | 0x27 | 0x2f | 0x33 | 0x37 | 0x3b | 0x3f => Mnemonic::Rla,
        0x63 | 0x67 | 0x6f | 0x73 | 0x77 | 0x7b | 0x7f => Mnemonic::Rra,
        0x03 | 0x07 | 0x0f | 0x13 | 0x17 | 0x1b | 0x1f => Mnemonic::Slo,
        0x43 | 0x47 | 0x4f | 0x53 | 0x57 | 0x5b | 0x5f => Mnemonic::Sre,
        0x81 | 0x85 | 0x8d | 0x91 | 0x95 | 0x99 | 0x9d => Mnemonic::Sta,
        0x61 | 0x65 | 0x69 | 0x6d | 0x71 | 0x75 | 0x79 | 0x7d => Mnemonic::Adc,
        0x21 | 0x25 | 0x29 | 0x2d | 0x31 | 0x35 | 0x39 | 0x3d => Mnemonic::And,
        0xc1 | 0xc5 | 0xc9 | 0xcd | 0xd1 | 0xd5 | 0xd9 | 0xdd => Mnemonic::Cmp,
        0x41 | 0x45 | 0x49 | 0x4d | 0x51 | 0x55 | 0x59 | 0x5d => Mnemonic::Eor,
        0xa1 | 0xa5 | 0xa9 | 0xad | 0xb1 | 0xb5 | 0xb9 | 0xbd => Mnemonic::Lda,
        0x01 | 0x05 | 0x09 | 0x0d | 0x11 | 0x15 | 0x19 | 0x1d => Mnemonic::Ora,
        0xe1 | 0xe5 | 0xe9 | 0xeb | 0xed | 0xf1 | 0xf5 | 0xf9 | 0xfd => Mnemonic::Sbc,
        0x02 | 0x12 | 0x22 | 0x32 | 0x42 | 0x52 | 0x62 | 0x72 | 0x92 | 0xb2 | 0xd2 | 0xf2 => Mnemonic::Kil,
        _ => Mnemonic::Nop,
    }
}

/// Returns the full descriptor of `opcode`. Every opcode value resolves to a
/// descriptor; there is no undefined entry.
pub fn lookup(opcode: u8) -> (r: Instruction)
    ensures
        r == spec_lookup(opcode),
{
    Instruction {
        illegal: get_illegal(opcode),
        opcode: opcode,
        mnemonic: get_mnemonic(opcode),
        mode: get_addr_mode(opcode),
        cycles: get_cycles(opcode),
    }
}

/// Every opcode's base cycle count lies between 2 and 8.
pub proof fn lemma_cycles_in_range(opcode: u8)
    ensures
        2 <= spec_lookup(opcode).cycles <= 8,
{
}

/// Every descriptor carries the opcode it was looked up with.
pub proof fn lemma_lookup_opcode(opcode: u8)
    ensures
        spec_lookup(opcode).opcode == opcode,
{
}

} // verus!
