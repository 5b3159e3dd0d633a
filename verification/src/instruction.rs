//! The decoder: a total map from opcode byte to instruction and back.
//! Every opcode this engine implements has a variant; all other bytes
//! decode to `INVALID`, and decoding round-trips with encoding.

use crate::memory::{operand_bytes, AddressingMode};
use vstd::prelude::*;

verus! {

/// One variant per implemented opcode of the 6502, named after the
/// mnemonic and its addressing mode, plus the `INVALID` sentinel that
/// every unmapped opcode byte decodes to.
#[allow(non_camel_case_types)]
#[derive(PartialEq, Eq, Structural, Clone, Copy, Debug)]
pub enum Instruction {
    LDA_IM,
    LDA_ZP,
    LDA_ZP_X,
    LDA_ABS,
    LDA_ABS_X,
    LDA_ABS_Y,
    LDA_IN_X,
    LDA_IN_Y,
    LDX_IM,
    LDX_ZP,
    LDX_ZP_Y,
    LDX_ABS,
    LDX_ABS_Y,
    LDY_IM,
    LDY_ZP,
    LDY_ZP_X,
    LDY_ABS,
    LDY_ABS_X,
    STA_ZP,
    STA_ZP_X,
    STA_ABS,
    STA_ABS_X,
    STA_ABS_Y,
    STA_IN_X,
    STA_IN_Y,
    STX_ZP,
    STX_ZP_Y,
    STX_ABS,
    STY_ZP,
    STY_ZP_X,
    STY_ABS,
    TAX,
    TAY,
    TXA,
    TYA,
    TSX,
    TXS,
    PHA,
    PHP,
    PLA,
    PLP,
    AND_IM,
    AND_ZP,
    AND_ZP_X,
    AND_ABS,
    AND_ABS_X,
    AND_ABS_Y,
    AND_IN_X,
    AND_IN_Y,
    EOR_IM,
    EOR_ZP,
    EOR_ZP_X,
    EOR_ABS,
    EOR_ABS_X,
    EOR_ABS_Y,
    EOR_IN_X,
    EOR_IN_Y,
    ORA_IM,
    ORA_ZP,
    ORA_ZP_X,
    ORA_ABS,
    ORA_ABS_X,
    ORA_ABS_Y,
    ORA_IN_X,
    ORA_IN_Y,
    BIT_ZP,
    BIT_ABS,
    ADC_IM,
    ADC_ZP,
    ADC_ZP_X,
    ADC_ABS,
    ADC_ABS_X,
    ADC_ABS_Y,
    ADC_IN_X,
    ADC_IN_Y,
    SBC_IM,
    SBC_ZP,
    SBC_ZP_X,
    SBC_ABS,
    SBC_ABS_X,
    SBC_ABS_Y,
    SBC_IN_X,
    SBC_IN_Y,
    CMP_IM,
    CMP_ZP,
    CMP_ZP_X,
    CMP_ABS,
    CMP_ABS_X,
    CMP_ABS_Y,
    CMP_IN_X,
    CMP_IN_Y,
    CPX_IM,
    CPX_ZP,
    CPX_ABS,
    CPY_IM,
    CPY_ZP,
    CPY_ABS,
    INC_ZP,
    INC_ZP_X,
    INC_ABS,
    INC_ABS_X,
    INX,
    INY,
    DEC_ZP,
    DEC_ZP_X,
    DEC_ABS,
    DEC_ABS_X,
    DEX,
    DEY,
    ASL_A,
    ASL_ZP,
    ASL_ZP_X,
    ASL_ABS,
    ASL_ABS_X,
    LSR_A,
    LSR_ZP,
    LSR_ZP_X,
    LSR_ABS,
    LSR_ABS_X,
    ROL_A,
    ROL_ZP,
    ROL_ZP_X,
    ROL_ABS,
    ROL_ABS_X,
    ROR_A,
    ROR_ZP,
    ROR_ZP_X,
    ROR_ABS,
    ROR_ABS_X,
    JMP_ABS,
    JMP_IN,
    JSR_ABS,
    RTS_IM,
    BCC,
    BCS,
    BEQ,
    BMI,
    BNE,
    BPL,
    BVC,
    BVS,
    INVALID,
}

/// The instruction an opcode byte names; unmapped bytes yield `INVALID`.
pub open spec fn spec_decode(b: u8) -> Instruction {
    match b {
        0xA9 => Instruction::LDA_IM,
        0xA5 => Instruction::LDA_ZP,
        0xB5 => Instruction::LDA_ZP_X,
        0xAD => Instruction::LDA_ABS,
        0xBD => Instruction::LDA_ABS_X,
        0xB9 => Instruction::LDA_ABS_Y,
        0xA1 => Instruction::LDA_IN_X,
        0xB1 => Instruction::LDA_IN_Y,
        0xA2 => Instruction::LDX_IM,
        0xA6 => Instruction::LDX_ZP,
        0xB6 => Instruction::LDX_ZP_Y,
        0xAE => Instruction::LDX_ABS,
        0xBE => Instruction::LDX_ABS_Y,
        0xA0 => Instruction::LDY_IM,
        0xA4 => Instruction::LDY_ZP,
        0xB4 => Instruction::LDY_ZP_X,
        0xAC => Instruction::LDY_ABS,
        0xBC => Instruction::LDY_ABS_X,
        0x85 => Instruction::STA_ZP,
        0x95 => Instruction::STA_ZP_X,
        0x8D => Instruction::STA_ABS,
        0x9D => Instruction::STA_ABS_X,
        0x99 => Instruction::STA_ABS_Y,
        0x81 => Instruction::STA_IN_X,
        0x91 => Instruction::STA_IN_Y,
        0x86 => Instruction::STX_ZP,
        0x96 => Instruction::STX_ZP_Y,
        0x8E => Instruction::STX_ABS,
        0x84 => Instruction::STY_ZP,
        0x94 => Instruction::STY_ZP_X,
        0x8C => Instruction::STY_ABS,
        0xAA => Instruction::TAX,
        0xA8 => Instruction::TAY,
        0x8A => Instruction::TXA,
        0x98 => Instruction::TYA,
        0xBA => Instruction::TSX,
        0x9A => Instruction::TXS,
        0x48 => Instruction::PHA,
        0x08 => Instruction::PHP,
        0x68 => Instruction::PLA,
        0x28 => Instruction::PLP,
        0x29 => Instruction::AND_IM,
        0x25 => Instruction::AND_ZP,
        0x35 => Instruction::AND_ZP_X,
        0x2D => Instruction::AND_ABS,
        0x3D => Instruction::AND_ABS_X,
        0x39 => Instruction::AND_ABS_Y,
        0x21 => Instruction::AND_IN_X,
        0x31 => Instruction::AND_IN_Y,
        0x49 => Instruction::EOR_IM,
        0x45 => Instruction::EOR_ZP,
        0x55 => Instruction::EOR_ZP_X,
        0x4D => Instruction::EOR_ABS,
        0x5D => Instruction::EOR_ABS_X,
        0x59 => Instruction::EOR_ABS_Y,
        0x41 => Instruction::EOR_IN_X,
        0x51 => Instruction::EOR_IN_Y,
        0x09 => Instruction::ORA_IM,
        0x05 => Instruction::ORA_ZP,
        0x15 => Instruction::ORA_ZP_X,
        0x0D => Instruction::ORA_ABS,
        0x1D => Instruction::ORA_ABS_X,
        0x19 => Instruction::ORA_ABS_Y,
        0x01 => Instruction::ORA_IN_X,
        0x11 => Instruction::ORA_IN_Y,
        0x24 => Instruction::BIT_ZP,
        0x2C => Instruction::BIT_ABS,
        0x69 => Instruction::ADC_IM,
        0x65 => Instruction::ADC_ZP,
        0x75 => Instruction::ADC_ZP_X,
        0x6D => Instruction::ADC_ABS,
        0x7D => Instruction::ADC_ABS_X,
        0x79 => Instruction::ADC_ABS_Y,
        0x61 => Instruction::ADC_IN_X,
        0x71 => Instruction::ADC_IN_Y,
        0xE9 => Instruction::SBC_IM,
        0xE5 => Instruction::SBC_ZP,
        0xF5 => Instruction::SBC_ZP_X,
        0xED => Instruction::SBC_ABS,
        0xFD => Instruction::SBC_ABS_X,
        0xF9 => Instruction::SBC_ABS_Y,
        0xE1 => Instruction::SBC_IN_X,
        0xF1 => Instruction::SBC_IN_Y,
        0xC9 => Instruction::CMP_IM,
        0xC5 => Instruction::CMP_ZP,
        0xD5 => Instruction::CMP_ZP_X,
        0xCD => Instruction::CMP_ABS,
        0xDD => Instruction::CMP_ABS_X,
        0xD9 => Instruction::CMP_ABS_Y,
        0xC1 => Instruction::CMP_IN_X,
        0xD1 => Instruction::CMP_IN_Y,
        0xE0 => Instruction::CPX_IM,
        0xE4 => Instruction::CPX_ZP,
        0xEC => Instruction::CPX_ABS,
        0xC0 => Instruction::CPY_IM,
        0xC4 => Instruction::CPY_ZP,
        0xCC => Instruction::CPY_ABS,
        0xE6 => Instruction::INC_ZP,
        0xF6 => Instruction::INC_ZP_X,
        0xEE => Instruction::INC_ABS,
        0xFE => Instruction::INC_ABS_X,
        0xE8 => Instruction::INX,
        0xC8 => Instruction::INY,
        0xC6 => Instruction::DEC_ZP,
        0xD6 => Instruction::DEC_ZP_X,
        0xCE => Instruction::DEC_ABS,
        0xDE => Instruction::DEC_ABS_X,
        0xCA => Instruction::DEX,
        0x88 => Instruction::DEY,
        0x0A => Instruction::ASL_A,
        0x06 => Instruction::ASL_ZP,
        0x16 => Instruction::ASL_ZP_X,
        0x0E => Instruction::ASL_ABS,
        0x1E => Instruction::ASL_ABS_X,
        0x4A => Instruction::LSR_A,
        0x46 => Instruction::LSR_ZP,
        0x56 => Instruction::LSR_ZP_X,
        0x4E => Instruction::LSR_ABS,
        0x5E => Instruction::LSR_ABS_X,
        0x2A => Instruction::ROL_A,
        0x26 => Instruction::ROL_ZP,
        0x36 => Instruction::ROL_ZP_X,
        0x2E => Instruction::ROL_ABS,
        0x3E => Instruction::ROL_ABS_X,
        0x6A => Instruction::ROR_A,
        0x66 => Instruction::ROR_ZP,
        0x76 => Instruction::ROR_ZP_X,
        0x6E => Instruction::ROR_ABS,
        0x7E => Instruction::ROR_ABS_X,
        0x4C => Instruction::JMP_ABS,
        0x6C => Instruction::JMP_IN,
        0x20 => Instruction::JSR_ABS,
        0x60 => Instruction::RTS_IM,
        0x90 => Instruction::BCC,
        0xB0 => Instruction::BCS,
        0xF0 => Instruction::BEQ,
        0x30 => Instruction::BMI,
        0xD0 => Instruction::BNE,
        0x10 => Instruction::BPL,
        0x50 => Instruction::BVC,
        0x70 => Instruction::BVS,
        _ => Instruction::INVALID,
    }
}

/// The opcode byte an instruction encodes to (`INVALID` has none of its
/// own and is mapped to 0xFF, itself an unmapped byte).
pub open spec fn spec_encode(i: Instruction) -> u8 {
    match i {
        Instruction::LDA_IM => 0xA9,
        Instruction::LDA_ZP => 0xA5,
        Instruction::LDA_ZP_X => 0xB5,
        Instruction::LDA_ABS => 0xAD,
        Instruction::LDA_ABS_X => 0xBD,
        Instruction::LDA_ABS_Y => 0xB9,
        Instruction::LDA_IN_X => 0xA1,
        Instruction::LDA_IN_Y => 0xB1,
        Instruction::LDX_IM => 0xA2,
        Instruction::LDX_ZP => 0xA6,
        Instruction::LDX_ZP_Y => 0xB6,
        Instruction::LDX_ABS => 0xAE,
        Instruction::LDX_ABS_Y => 0xBE,
        Instruction::LDY_IM => 0xA0,
        Instruction::LDY_ZP => 0xA4,
        Instruction::LDY_ZP_X => 0xB4,
        Instruction::LDY_ABS => 0xAC,
        Instruction::LDY_ABS_X => 0xBC,
        Instruction::STA_ZP => 0x85,
        Instruction::STA_ZP_X => 0x95,
        Instruction::STA_ABS => 0x8D,
        Instruction::STA_ABS_X => 0x9D,
        Instruction::STA_ABS_Y => 0x99,
        Instruction::STA_IN_X => 0x81,
        Instruction::STA_IN_Y => 0x91,
        Instruction::STX_ZP => 0x86,
        Instruction::STX_ZP_Y => 0x96,
        Instruction::STX_ABS => 0x8E,
        Instruction::STY_ZP => 0x84,
        Instruction::STY_ZP_X => 0x94,
        Instruction::STY_ABS => 0x8C,
        Instruction::TAX => 0xAA,
        Instruction::TAY => 0xA8,
        Instruction::TXA => 0x8A,
        Instruction::TYA => 0x98,
        Instruction::TSX => 0xBA,
        Instruction::TXS => 0x9A,
        Instruction::PHA => 0x48,
        Instruction::PHP => 0x08,
        Instruction::PLA => 0x68,
        Instruction::PLP => 0x28,
        Instruction::AND_IM => 0x29,
        Instruction::AND_ZP => 0x25,
        Instruction::AND_ZP_X => 0x35,
        Instruction::AND_ABS => 0x2D,
        Instruction::AND_ABS_X => 0x3D,
        Instruction::AND_ABS_Y => 0x39,
        Instruction::AND_IN_X => 0x21,
        Instruction::AND_IN_Y => 0x31,
        Instruction::EOR_IM => 0x49,
        Instruction::EOR_ZP => 0x45,
        Instruction::EOR_ZP_X => 0x55,
        Instruction::EOR_ABS => 0x4D,
        Instruction::EOR_ABS_X => 0x5D,
        Instruction::EOR_ABS_Y => 0x59,
        Instruction::EOR_IN_X => 0x41,
        Instruction::EOR_IN_Y => 0x51,
        Instruction::ORA_IM => 0x09,
        Instruction::ORA_ZP => 0x05,
        Instruction::ORA_ZP_X => 0x15,
        Instruction::ORA_ABS => 0x0D,
        Instruction::ORA_ABS_X => 0x1D,
        Instruction::ORA_ABS_Y => 0x19,
        Instruction::ORA_IN_X => 0x01,
        Instruction::ORA_IN_Y => 0x11,
        Instruction::BIT_ZP => 0x24,
        Instruction::BIT_ABS => 0x2C,
        Instruction::ADC_IM => 0x69,
        Instruction::ADC_ZP => 0x65,
        Instruction::ADC_ZP_X => 0x75,
        Instruction::ADC_ABS => 0x6D,
        Instruction::ADC_ABS_X => 0x7D,
        Instruction::ADC_ABS_Y => 0x79,
        Instruction::ADC_IN_X => 0x61,
        Instruction::ADC_IN_Y => 0x71,
        Instruction::SBC_IM => 0xE9,
        Instruction::SBC_ZP => 0xE5,
        Instruction::SBC_ZP_X => 0xF5,
        Instruction::SBC_ABS => 0xED,
        Instruction::SBC_ABS_X => 0xFD,
        Instruction::SBC_ABS_Y => 0xF9,
        Instruction::SBC_IN_X => 0xE1,
        Instruction::SBC_IN_Y => 0xF1,
        Instruction::CMP_IM => 0xC9,
        Instruction::CMP_ZP => 0xC5,
        Instruction::CMP_ZP_X => 0xD5,
        Instruction::CMP_ABS => 0xCD,
        Instruction::CMP_ABS_X => 0xDD,
        Instruction::CMP_ABS_Y => 0xD9,
        Instruction::CMP_IN_X => 0xC1,
        Instruction::CMP_IN_Y => 0xD1,
        Instruction::CPX_IM => 0xE0,
        Instruction::CPX_ZP => 0xE4,
        Instruction::CPX_ABS => 0xEC,
        Instruction::CPY_IM => 0xC0,
        Instruction::CPY_ZP => 0xC4,
        Instruction::CPY_ABS => 0xCC,
        Instruction::INC_ZP => 0xE6,
        Instruction::INC_ZP_X => 0xF6,
        Instruction::INC_ABS => 0xEE,
        Instruction::INC_ABS_X => 0xFE,
        Instruction::INX => 0xE8,
        Instruction::INY => 0xC8,
        Instruction::DEC_ZP => 0xC6,
        Instruction::DEC_ZP_X => 0xD6,
        Instruction::DEC_ABS => 0xCE,
        Instruction::DEC_ABS_X => 0xDE,
        Instruction::DEX => 0xCA,
        Instruction::DEY => 0x88,
        Instruction::ASL_A => 0x0A,
        Instruction::ASL_ZP => 0x06,
        Instruction::ASL_ZP_X => 0x16,
        Instruction::ASL_ABS => 0x0E,
        Instruction::ASL_ABS_X => 0x1E,
        Instruction::LSR_A => 0x4A,
        Instruction::LSR_ZP => 0x46,
        Instruction::LSR_ZP_X => 0x56,
        Instruction::LSR_ABS => 0x4E,
        Instruction::LSR_ABS_X => 0x5E,
        Instruction::ROL_A => 0x2A,
        Instruction::ROL_ZP => 0x26,
        Instruction::ROL_ZP_X => 0x36,
        Instruction::ROL_ABS => 0x2E,
        Instruction::ROL_ABS_X => 0x3E,
        Instruction::ROR_A => 0x6A,
        Instruction::ROR_ZP => 0x66,
        Instruction::ROR_ZP_X => 0x76,
        Instruction::ROR_ABS => 0x6E,
        Instruction::ROR_ABS_X => 0x7E,
        Instruction::JMP_ABS => 0x4C,
        Instruction::JMP_IN => 0x6C,
        Instruction::JSR_ABS => 0x20,
        Instruction::RTS_IM => 0x60,
        Instruction::BCC => 0x90,
        Instruction::BCS => 0xB0,
        Instruction::BEQ => 0xF0,
        Instruction::BMI => 0x30,
        Instruction::BNE => 0xD0,
        Instruction::BPL => 0x10,
        Instruction::BVC => 0x50,
        Instruction::BVS => 0x70,
        Instruction::INVALID => 0xFF,
    }
}

/// The addressing mode an instruction carries its operand in.
pub open spec fn instr_mode(i: Instruction) -> AddressingMode {
    match i {
        Instruction::LDA_IM => AddressingMode::Immediate,
        Instruction::LDA_ZP => AddressingMode::ZeroPage,
        Instruction::LDA_ZP_X => AddressingMode::ZeroPageX,
        Instruction::LDA_ABS => AddressingMode::Absolute,
        Instruction::LDA_ABS_X => AddressingMode::AbsoluteX,
        Instruction::LDA_ABS_Y => AddressingMode::AbsoluteY,
        Instruction::LDA_IN_X => AddressingMode::IndirectX,
        Instruction::LDA_IN_Y => AddressingMode::IndirectY,
        Instruction::LDX_IM => AddressingMode::Immediate,
        Instruction::LDX_ZP => AddressingMode::ZeroPage,
        Instruction::LDX_ZP_Y => AddressingMode::ZeroPageY,
        Instruction::LDX_ABS => AddressingMode::Absolute,
        Instruction::LDX_ABS_Y => AddressingMode::AbsoluteY,
        Instruction::LDY_IM => AddressingMode::Immediate,
        Instruction::LDY_ZP => AddressingMode::ZeroPage,
        Instruction::LDY_ZP_X => AddressingMode::ZeroPageX,
        Instruction::LDY_ABS => AddressingMode::Absolute,
        Instruction::LDY_ABS_X => AddressingMode::AbsoluteX,
        Instruction::STA_ZP => AddressingMode::ZeroPage,
        Instruction::STA_ZP_X => AddressingMode::ZeroPageX,
        Instruction::STA_ABS => AddressingMode::Absolute,
        Instruction::STA_ABS_X => AddressingMode::AbsoluteX,
        Instruction::STA_ABS_Y => AddressingMode::AbsoluteY,
        Instruction::STA_IN_X => AddressingMode::IndirectX,
        Instruction::STA_IN_Y => AddressingMode::IndirectY,
        Instruction::STX_ZP => AddressingMode::ZeroPage,
        Instruction::STX_ZP_Y => AddressingMode::ZeroPageY,
        Instruction::STX_ABS => AddressingMode::Absolute,
        Instruction::STY_ZP => AddressingMode::ZeroPage,
        Instruction::STY_ZP_X => AddressingMode::ZeroPageX,
        Instruction::STY_ABS => AddressingMode::Absolute,
        Instruction::TAX => AddressingMode::Implied,
        Instruction::TAY => AddressingMode::Implied,
        Instruction::TXA => AddressingMode::Implied,
        Instruction::TYA => AddressingMode::Implied,
        Instruction::TSX => AddressingMode::Implied,
        Instruction::TXS => AddressingMode::Implied,
        Instruction::PHA => AddressingMode::Implied,
        Instruction::PHP => AddressingMode::Implied,
        Instruction::PLA => AddressingMode::Implied,
        Instruction::PLP => AddressingMode::Implied,
        Instruction::AND_IM => AddressingMode::Immediate,
        Instruction::AND_ZP => AddressingMode::ZeroPage,
        Instruction::AND_ZP_X => AddressingMode::ZeroPageX,
        Instruction::AND_ABS => AddressingMode::Absolute,
        Instruction::AND_ABS_X => AddressingMode::AbsoluteX,
        Instruction::AND_ABS_Y => AddressingMode::AbsoluteY,
        Instruction::AND_IN_X => AddressingMode::IndirectX,
        Instruction::AND_IN_Y => AddressingMode::IndirectY,
        Instruction::EOR_IM => AddressingMode::Immediate,
        Instruction::EOR_ZP => AddressingMode::ZeroPage,
        Instruction::EOR_ZP_X => AddressingMode::ZeroPageX,
        Instruction::EOR_ABS => AddressingMode::Absolute,
        Instruction::EOR_ABS_X => AddressingMode::AbsoluteX,
        Instruction::EOR_ABS_Y => AddressingMode::AbsoluteY,
        Instruction::EOR_IN_X => AddressingMode::IndirectX,
        Instruction::EOR_IN_Y => AddressingMode::IndirectY,
        Instruction::ORA_IM => AddressingMode::Immediate,
        Instruction::ORA_ZP => AddressingMode::ZeroPage,
        Instruction::ORA_ZP_X => AddressingMode::ZeroPageX,
        Instruction::ORA_ABS => AddressingMode::Absolute,
        Instruction::ORA_ABS_X => AddressingMode::AbsoluteX,
        Instruction::ORA_ABS_Y => AddressingMode::AbsoluteY,
        Instruction::ORA_IN_X => AddressingMode::IndirectX,
        Instruction::ORA_IN_Y => AddressingMode::IndirectY,
        Instruction::BIT_ZP => AddressingMode::ZeroPage,
        Instruction::BIT_ABS => AddressingMode::Absolute,
        Instruction::ADC_IM => AddressingMode::Immediate,
        Instruction::ADC_ZP => AddressingMode::ZeroPage,
        Instruction::ADC_ZP_X => AddressingMode::ZeroPageX,
        Instruction::ADC_ABS => AddressingMode::Absolute,
        Instruction::ADC_ABS_X => AddressingMode::AbsoluteX,
        Instruction::ADC_ABS_Y => AddressingMode::AbsoluteY,
        Instruction::ADC_IN_X => AddressingMode::IndirectX,
        Instruction::ADC_IN_Y => AddressingMode::IndirectY,
        Instruction::SBC_IM => AddressingMode::Immediate,
        Instruction::SBC_ZP => AddressingMode::ZeroPage,
        Instruction::SBC_ZP_X => AddressingMode::ZeroPageX,
        Instruction::SBC_ABS => AddressingMode::Absolute,
        Instruction::SBC_ABS_X => AddressingMode::AbsoluteX,
        Instruction::SBC_ABS_Y => AddressingMode::AbsoluteY,
        Instruction::SBC_IN_X => AddressingMode::IndirectX,
        Instruction::SBC_IN_Y => AddressingMode::IndirectY,
        Instruction::CMP_IM => AddressingMode::Immediate,
        Instruction::CMP_ZP => AddressingMode::ZeroPage,
        Instruction::CMP_ZP_X => AddressingMode::ZeroPageX,
        Instruction::CMP_ABS => AddressingMode::Absolute,
        Instruction::CMP_ABS_X => AddressingMode::AbsoluteX,
        Instruction::CMP_ABS_Y => AddressingMode::AbsoluteY,
        Instruction::CMP_IN_X => AddressingMode::IndirectX,
        Instruction::CMP_IN_Y => AddressingMode::IndirectY,
        Instruction::CPX_IM => AddressingMode::Immediate,
        Instruction::CPX_ZP => AddressingMode::ZeroPage,
        Instruction::CPX_ABS => AddressingMode::Absolute,
        Instruction::CPY_IM => AddressingMode::Immediate,
        Instruction::CPY_ZP => AddressingMode::ZeroPage,
        Instruction::CPY_ABS => AddressingMode::Absolute,
        Instruction::INC_ZP => AddressingMode::ZeroPage,
        Instruction::INC_ZP_X => AddressingMode::ZeroPageX,
        Instruction::INC_ABS => AddressingMode::Absolute,
        Instruction::INC_ABS_X => AddressingMode::AbsoluteX,
        Instruction::INX => AddressingMode::Implied,
        Instruction::INY => AddressingMode::Implied,
        Instruction::DEC_ZP => AddressingMode::ZeroPage,
        Instruction::DEC_ZP_X => AddressingMode::ZeroPageX,
        Instruction::DEC_ABS => AddressingMode::Absolute,
        Instruction::DEC_ABS_X => AddressingMode::AbsoluteX,
        Instruction::DEX => AddressingMode::Implied,
        Instruction::DEY => AddressingMode::Implied,
        Instruction::ASL_A => AddressingMode::Accumulator,
        Instruction::ASL_ZP => AddressingMode::ZeroPage,
        Instruction::ASL_ZP_X => AddressingMode::ZeroPageX,
        Instruction::ASL_ABS => AddressingMode::Absolute,
        Instruction::ASL_ABS_X => AddressingMode::AbsoluteX,
        Instruction::LSR_A => AddressingMode::Accumulator,
        Instruction::LSR_ZP => AddressingMode::ZeroPage,
        Instruction::LSR_ZP_X => AddressingMode::ZeroPageX,
        Instruction::LSR_ABS => AddressingMode::Absolute,
        Instruction::LSR_ABS_X => AddressingMode::AbsoluteX,
        Instruction::ROL_A => AddressingMode::Accumulator,
        Instruction::ROL_ZP => AddressingMode::ZeroPage,
        Instruction::ROL_ZP_X => AddressingMode::ZeroPageX,
        Instruction::ROL_ABS => AddressingMode::Absolute,
        Instruction::ROL_ABS_X => AddressingMode::AbsoluteX,
        Instruction::ROR_A => AddressingMode::Accumulator,
        Instruction::ROR_ZP => AddressingMode::ZeroPage,
        Instruction::ROR_ZP_X => AddressingMode::ZeroPageX,
        Instruction::ROR_ABS => AddressingMode::Absolute,
        Instruction::ROR_ABS_X => AddressingMode::AbsoluteX,
        Instruction::JMP_ABS => AddressingMode::Absolute,
        Instruction::JMP_IN => AddressingMode::Indirect,
        Instruction::JSR_ABS => AddressingMode::Absolute,
        Instruction::RTS_IM => AddressingMode::Implied,
        Instruction::BCC => AddressingMode::Relative,
        Instruction::BCS => AddressingMode::Relative,
        Instruction::BEQ => AddressingMode::Relative,
        Instruction::BMI => AddressingMode::Relative,
        Instruction::BNE => AddressingMode::Relative,
        Instruction::BPL => AddressingMode::Relative,
        Instruction::BVC => AddressingMode::Relative,
        Instruction::BVS => AddressingMode::Relative,
        Instruction::INVALID => AddressingMode::Implied,
    }
}

/// Total length of an instruction in bytes: the opcode plus its operand.
pub open spec fn instr_len(i: Instruction) -> u16 {
    (1 + operand_bytes(instr_mode(i))) as u16
}

impl vstd::std_specs::convert::FromSpecImpl<u8> for Instruction {
    open spec fn obeys_from_spec() -> bool {
        true
    }

    open spec fn from_spec(b: u8) -> Instruction {
        spec_decode(b)
    }
}

impl From<u8> for Instruction {
    /// Decodes an opcode byte; total, with `INVALID` for unmapped bytes.
    fn from(a: u8) -> Self {
        match a {
            0xA9 => Instruction::LDA_IM,
            0xA5 => Instruction::LDA_ZP,
            0xB5 => Instruction::LDA_ZP_X,
            0xAD => Instruction::LDA_ABS,
            0xBD => Instruction::LDA_ABS_X,
            0xB9 => Instruction::LDA_ABS_Y,
            0xA1 => Instruction::LDA_IN_X,
            0xB1 => Instruction::LDA_IN_Y,
            0xA2 => Instruction::LDX_IM,
            0xA6 => Instruction::LDX_ZP,
            0xB6 => Instruction::LDX_ZP_Y,
            0xAE => Instruction::LDX_ABS,
            0xBE => Instruction::LDX_ABS_Y,
            0xA0 => Instruction::LDY_IM,
            0xA4 => Instruction::LDY_ZP,
            0xB4 => Instruction::LDY_ZP_X,
            0xAC => Instruction::LDY_ABS,
            0xBC => Instruction::LDY_ABS_X,
            0x85 => Instruction::STA_ZP,
            0x95 => Instruction::STA_ZP_X,
            0x8D => Instruction::STA_ABS,
            0x9D => Instruction::STA_ABS_X,
            0x99 => Instruction::STA_ABS_Y,
            0x81 => Instruction::STA_IN_X,
            0x91 => Instruction::STA_IN_Y,
            0x86 => Instruction::STX_ZP,
            0x96 => Instruction::STX_ZP_Y,
            0x8E => Instruction::STX_ABS,
            0x84 => Instruction::STY_ZP,
            0x94 => Instruction::STY_ZP_X,
            0x8C => Instruction::STY_ABS,
            0xAA => Instruction::TAX,
            0xA8 => Instruction::TAY,
            0x8A => Instruction::TXA,
            0x98 => Instruction::TYA,
            0xBA => Instruction::TSX,
            0x9A => Instruction::TXS,
            0x48 => Instruction::PHA,
            0x08 => Instruction::PHP,
            0x68 => Instruction::PLA,
            0x28 => Instruction::PLP,
            0x29 => Instruction::AND_IM,
            0x25 => Instruction::AND_ZP,
            0x35 => Instruction::AND_ZP_X,
            0x2D => Instruction::AND_ABS,
            0x3D => Instruction::AND_ABS_X,
            0x39 => Instruction::AND_ABS_Y,
            0x21 => Instruction::AND_IN_X,
            0x31 => Instruction::AND_IN_Y,
            0x49 => Instruction::EOR_IM,
            0x45 => Instruction::EOR_ZP,
            0x55 => Instruction::EOR_ZP_X,
            0x4D => Instruction::EOR_ABS,
            0x5D => Instruction::EOR_ABS_X,
            0x59 => Instruction::EOR_ABS_Y,
            0x41 => Instruction::EOR_IN_X,
            0x51 => Instruction::EOR_IN_Y,
            0x09 => Instruction::ORA_IM,
            0x05 => Instruction::ORA_ZP,
            0x15 => Instruction::ORA_ZP_X,
            0x0D => Instruction::ORA_ABS,
            0x1D => Instruction::ORA_ABS_X,
            0x19 => Instruction::ORA_ABS_Y,
            0x01 => Instruction::ORA_IN_X,
            0x11 => Instruction::ORA_IN_Y,
            0x24 => Instruction::BIT_ZP,
            0x2C => Instruction::BIT_ABS,
            0x69 => Instruction::ADC_IM,
            0x65 => Instruction::ADC_ZP,
            0x75 => Instruction::ADC_ZP_X,
            0x6D => Instruction::ADC_ABS,
            0x7D => Instruction::ADC_ABS_X,
            0x79 => Instruction::ADC_ABS_Y,
            0x61 => Instruction::ADC_IN_X,
            0x71 => Instruction::ADC_IN_Y,
            0xE9 => Instruction::SBC_IM,
            0xE5 => Instruction::SBC_ZP,
            0xF5 => Instruction::SBC_ZP_X,
            0xED => Instruction::SBC_ABS,
            0xFD => Instruction::SBC_ABS_X,
            0xF9 => Instruction::SBC_ABS_Y,
            0xE1 => Instruction::SBC_IN_X,
            0xF1 => Instruction::SBC_IN_Y,
            0xC9 => Instruction::CMP_IM,
            0xC5 => Instruction::CMP_ZP,
            0xD5 => Instruction::CMP_ZP_X,
            0xCD => Instruction::CMP_ABS,
            0xDD => Instruction::CMP_ABS_X,
            0xD9 => Instruction::CMP_ABS_Y,
            0xC1 => Instruction::CMP_IN_X,
            0xD1 => Instruction::CMP_IN_Y,
            0xE0 => Instruction::CPX_IM,
            0xE4 => Instruction::CPX_ZP,
            0xEC => Instruction::CPX_ABS,
            0xC0 => Instruction::CPY_IM,
            0xC4 => Instruction::CPY_ZP,
            0xCC => Instruction::CPY_ABS,
            0xE6 => Instruction::INC_ZP,
            0xF6 => Instruction::INC_ZP_X,
            0xEE => Instruction::INC_ABS,
            0xFE => Instruction::INC_ABS_X,
            0xE8 => Instruction::INX,
            0xC8 => Instruction::INY,
            0xC6 => Instruction::DEC_ZP,
            0xD6 => Instruction::DEC_ZP_X,
            0xCE => Instruction::DEC_ABS,
            0xDE => Instruction::DEC_ABS_X,
            0xCA => Instruction::DEX,
            0x88 => Instruction::DEY,
            0x0A => Instruction::ASL_A,
            0x06 => Instruction::ASL_ZP,
            0x16 => Instruction::ASL_ZP_X,
            0x0E => Instruction::ASL_ABS,
            0x1E => Instruction::ASL_ABS_X,
            0x4A => Instruction::LSR_A,
            0x46 => Instruction::LSR_ZP,
            0x56 => Instruction::LSR_ZP_X,
            0x4E => Instruction::LSR_ABS,
            0x5E => Instruction::LSR_ABS_X,
            0x2A => Instruction::ROL_A,
            0x26 => Instruction::ROL_ZP,
            0x36 => Instruction::ROL_ZP_X,
            0x2E => Instruction::ROL_ABS,
            0x3E => Instruction::ROL_ABS_X,
            0x6A => Instruction::ROR_A,
            0x66 => Instruction::ROR_ZP,
            0x76 => Instruction::ROR_ZP_X,
            0x6E => Instruction::ROR_ABS,
            0x7E => Instruction::ROR_ABS_X,
            0x4C => Instruction::JMP_ABS,
            0x6C => Instruction::JMP_IN,
            0x20 => Instruction::JSR_ABS,
            0x60 => Instruction::RTS_IM,
            0x90 => Instruction::BCC,
            0xB0 => Instruction::BCS,
            0xF0 => Instruction::BEQ,
            0x30 => Instruction::BMI,
            0xD0 => Instruction::BNE,
            0x10 => Instruction::BPL,
            0x50 => Instruction::BVC,
            0x70 => Instruction::BVS,
            _ => Instruction::INVALID,
        }
    }
}

impl vstd::std_specs::convert::FromSpecImpl<Instruction> for u8 {
    open spec fn obeys_from_spec() -> bool {
        true
    }

    open spec fn from_spec(i: Instruction) -> u8 {
        spec_encode(i)
    }
}

impl From<Instruction> for u8 {
    /// Encodes an instruction back to its opcode byte.
    fn from(a: Instruction) -> Self {
        match a {
            Instruction::LDA_IM => 0xA9,
            Instruction::LDA_ZP => 0xA5,
            Instruction::LDA_ZP_X => 0xB5,
            Instruction::LDA_ABS => 0xAD,
            Instruction::LDA_ABS_X => 0xBD,
            Instruction::LDA_ABS_Y => 0xB9,
            Instruction::LDA_IN_X => 0xA1,
            Instruction::LDA_IN_Y => 0xB1,
            Instruction::LDX_IM => 0xA2,
            Instruction::LDX_ZP => 0xA6,
            Instruction::LDX_ZP_Y => 0xB6,
            Instruction::LDX_ABS => 0xAE,
            Instruction::LDX_ABS_Y => 0xBE,
            Instruction::LDY_IM => 0xA0,
            Instruction::LDY_ZP => 0xA4,
            Instruction::LDY_ZP_X => 0xB4,
            Instruction::LDY_ABS => 0xAC,
            Instruction::LDY_ABS_X => 0xBC,
            Instruction::STA_ZP => 0x85,
            Instruction::STA_ZP_X => 0x95,
            Instruction::STA_ABS => 0x8D,
            Instruction::STA_ABS_X => 0x9D,
            Instruction::STA_ABS_Y => 0x99,
            Instruction::STA_IN_X => 0x81,
            Instruction::STA_IN_Y => 0x91,
            Instruction::STX_ZP => 0x86,
            Instruction::STX_ZP_Y => 0x96,
            Instruction::STX_ABS => 0x8E,
            Instruction::STY_ZP => 0x84,
            Instruction::STY_ZP_X => 0x94,
            Instruction::STY_ABS => 0x8C,
            Instruction::TAX => 0xAA,
            Instruction::TAY => 0xA8,
            Instruction::TXA => 0x8A,
            Instruction::TYA => 0x98,
            Instruction::TSX => 0xBA,
            Instruction::TXS => 0x9A,
            Instruction::PHA => 0x48,
            Instruction::PHP => 0x08,
            Instruction::PLA => 0x68,
            Instruction::PLP => 0x28,
            Instruction::AND_IM => 0x29,
            Instruction::AND_ZP => 0x25,
            Instruction::AND_ZP_X => 0x35,
            Instruction::AND_ABS => 0x2D,
            Instruction::AND_ABS_X => 0x3D,
            Instruction::AND_ABS_Y => 0x39,
            Instruction::AND_IN_X => 0x21,
            Instruction::AND_IN_Y => 0x31,
            Instruction::EOR_IM => 0x49,
            Instruction::EOR_ZP => 0x45,
            Instruction::EOR_ZP_X => 0x55,
            Instruction::EOR_ABS => 0x4D,
            Instruction::EOR_ABS_X => 0x5D,
            Instruction::EOR_ABS_Y => 0x59,
            Instruction::EOR_IN_X => 0x41,
            Instruction::EOR_IN_Y => 0x51,
            Instruction::ORA_IM => 0x09,
            Instruction::ORA_ZP => 0x05,
            Instruction::ORA_ZP_X => 0x15,
            Instruction::ORA_ABS => 0x0D,
            Instruction::ORA_ABS_X => 0x1D,
            Instruction::ORA_ABS_Y => 0x19,
            Instruction::ORA_IN_X => 0x01,
            Instruction::ORA_IN_Y => 0x11,
            Instruction::BIT_ZP => 0x24,
            Instruction::BIT_ABS => 0x2C,
            Instruction::ADC_IM => 0x69,
            Instruction::ADC_ZP => 0x65,
            Instruction::ADC_ZP_X => 0x75,
            Instruction::ADC_ABS => 0x6D,
            Instruction::ADC_ABS_X => 0x7D,
            Instruction::ADC_ABS_Y => 0x79,
            Instruction::ADC_IN_X => 0x61,
            Instruction::ADC_IN_Y => 0x71,
            Instruction::SBC_IM => 0xE9,
            Instruction::SBC_ZP => 0xE5,
            Instruction::SBC_ZP_X => 0xF5,
            Instruction::SBC_ABS => 0xED,
            Instruction::SBC_ABS_X => 0xFD,
            Instruction::SBC_ABS_Y => 0xF9,
            Instruction::SBC_IN_X => 0xE1,
            Instruction::SBC_IN_Y => 0xF1,
            Instruction::CMP_IM => 0xC9,
            Instruction::CMP_ZP => 0xC5,
            Instruction::CMP_ZP_X => 0xD5,
            Instruction::CMP_ABS => 0xCD,
            Instruction::CMP_ABS_X => 0xDD,
            Instruction::CMP_ABS_Y => 0xD9,
            Instruction::CMP_IN_X => 0xC1,
            Instruction::CMP_IN_Y => 0xD1,
            Instruction::CPX_IM => 0xE0,
            Instruction::CPX_ZP => 0xE4,
            Instruction::CPX_ABS => 0xEC,
            Instruction::CPY_IM => 0xC0,
            Instruction::CPY_ZP => 0xC4,
            Instruction::CPY_ABS => 0xCC,
            Instruction::INC_ZP => 0xE6,
            Instruction::INC_ZP_X => 0xF6,
            Instruction::INC_ABS => 0xEE,
            Instruction::INC_ABS_X => 0xFE,
            Instruction::INX => 0xE8,
            Instruction::INY => 0xC8,
            Instruction::DEC_ZP => 0xC6,
            Instruction::DEC_ZP_X => 0xD6,
            Instruction::DEC_ABS => 0xCE,
            Instruction::DEC_ABS_X => 0xDE,
            Instruction::DEX => 0xCA,
            Instruction::DEY => 0x88,
            Instruction::ASL_A => 0x0A,
            Instruction::ASL_ZP => 0x06,
            Instruction::ASL_ZP_X => 0x16,
            Instruction::ASL_ABS => 0x0E,
            Instruction::ASL_ABS_X => 0x1E,
            Instruction::LSR_A => 0x4A,
            Instruction::LSR_ZP => 0x46,
            Instruction::LSR_ZP_X => 0x56,
            Instruction::LSR_ABS => 0x4E,
            Instruction::LSR_ABS_X => 0x5E,
            Instruction::ROL_A => 0x2A,
            Instruction::ROL_ZP => 0x26,
            Instruction::ROL_ZP_X => 0x36,
            Instruction::ROL_ABS => 0x2E,
            Instruction::ROL_ABS_X => 0x3E,
            Instruction::ROR_A => 0x6A,
            Instruction::ROR_ZP => 0x66,
            Instruction::ROR_ZP_X => 0x76,
            Instruction::ROR_ABS => 0x6E,
            Instruction::ROR_ABS_X => 0x7E,
            Instruction::JMP_ABS => 0x4C,
            Instruction::JMP_IN => 0x6C,
            Instruction::JSR_ABS => 0x20,
            Instruction::RTS_IM => 0x60,
            Instruction::BCC => 0x90,
            Instruction::BCS => 0xB0,
            Instruction::BEQ => 0xF0,
            Instruction::BMI => 0x30,
            Instruction::BNE => 0xD0,
            Instruction::BPL => 0x10,
            Instruction::BVC => 0x50,
            Instruction::BVS => 0x70,
            Instruction::INVALID => 0xFF,
        }
    }
}

} // verus!
