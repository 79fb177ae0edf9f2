//! The instruction set: decode table, per-instruction semantics, and the
//! dispatcher that executes one decoded instruction.
//!
//! Each instruction function carries an exact contract: the registers and
//! flags it produces, the bus transitions it performs, and the cycles it
//! charges beyond operand evaluation.

use vstd::prelude::*;

use crate::cpu::addressing_modes::{AddressingMode, Operand};
use crate::cpu::status::{
    spec_php_pushed, spec_plp_restored, spec_update, spec_zn, CPUStatus, FLAG_B, FLAG_C, FLAG_D,
    FLAG_I, FLAG_N, FLAG_R, FLAG_V, FLAG_Z, OPERATED_B,
};
use crate::cpu::addressing_modes::spec_get_operand;
use crate::cpu::{cpu_state, spec_stack_addr, spec_write_cycles, CPUCycle, CPUState, CPU};
use crate::types::Memory;

verus! {

/// Instruction mnemonics, documented and undocumented.
#[derive(Debug, Copy, Clone, PartialEq, Eq, Structural)]
pub enum Mnemonic {
    // Load/Store Operations
    LDA,
    LDX,
    LDY,
    STA,
    STX,
    STY,
    // Register Operations
    TAX,
    TSX,
    TAY,
    TXA,
    TXS,
    TYA,
    // Stack instructions
    PHA,
    PHP,
    PLA,
    PLP,
    // Logical instructions
    AND,
    EOR,
    ORA,
    BIT,
    // Arithmetic instructions
    ADC,
    SBC,
    CMP,
    CPX,
    CPY,
    // Increment/Decrement instructions
    INC,
    INX,
    INY,
    DEC,
    DEX,
    DEY,
    // Shift instructions
    ASL,
    LSR,
    ROL,
    ROR,
    // Jump instructions
    JMP,
    JSR,
    RTS,
    RTI,
    // Branch instructions
    BCC,
    BCS,
    BEQ,
    BMI,
    BNE,
    BPL,
    BVC,
    BVS,
    // Flag control instructions
    CLC,
    CLD,
    CLI,
    CLV,
    SEC,
    SED,
    SEI,
    // Misc
    BRK,
    NOP,
    // Unofficial
    LAX,
    SAX,
    DCP,
    ISB,
    SLO,
    RLA,
    SRE,
    RRA,
}

/// A decoded instruction: what to do and how to find the operand.
#[derive(Debug, Copy, Clone, PartialEq, Eq, Structural)]
pub struct Opcode {
    pub mnemonic: Mnemonic,
    pub addressing_mode: AddressingMode,
}

/// The opcode table: every one of the 256 opcode bytes maps to a mnemonic
/// and an addressing mode; unlisted bytes decode to (NOP, Implicit).
pub open spec fn spec_decode(value: u8) -> Opcode {
    let (m, am) = match value {
        0xA9 => (Mnemonic::LDA, AddressingMode::Immediate),
        0xA5 => (Mnemonic::LDA, AddressingMode::ZeroPage),
        0xB5 => (Mnemonic::LDA, AddressingMode::ZeroPageX),
        0xAD => (Mnemonic::LDA, AddressingMode::Absolute),
        0xBD => (Mnemonic::LDA, AddressingMode::AbsoluteX { penalty: true }),
        0xB9 => (Mnemonic::LDA, AddressingMode::AbsoluteY { penalty: true }),
        0xA1 => (Mnemonic::LDA, AddressingMode::IndexedIndirect),
        0xB1 => (Mnemonic::LDA, AddressingMode::IndirectIndexed),
        0xA2 => (Mnemonic::LDX, AddressingMode::Immediate),
        0xA6 => (Mnemonic::LDX, AddressingMode::ZeroPage),
        0xB6 => (Mnemonic::LDX, AddressingMode::ZeroPageY),
        0xAE => (Mnemonic::LDX, AddressingMode::Absolute),
        0xBE => (Mnemonic::LDX, AddressingMode::AbsoluteY { penalty: true }),
        0xA0 => (Mnemonic::LDY, AddressingMode::Immediate),
        0xA4 => (Mnemonic::LDY, AddressingMode::ZeroPage),
        0xB4 => (Mnemonic::LDY, AddressingMode::ZeroPageX),
        0xAC => (Mnemonic::LDY, AddressingMode::Absolute),
        0xBC => (Mnemonic::LDY, AddressingMode::AbsoluteX { penalty: true }),
        0x85 => (Mnemonic::STA, AddressingMode::ZeroPage),
        0x95 => (Mnemonic::STA, AddressingMode::ZeroPageX),
        0x8D => (Mnemonic::STA, AddressingMode::Absolute),
        0x9D => (Mnemonic::STA, AddressingMode::AbsoluteX { penalty: false }),
        0x99 => (Mnemonic::STA, AddressingMode::AbsoluteY { penalty: false }),
        0x81 => (Mnemonic::STA, AddressingMode::IndexedIndirect),
        0x91 => (Mnemonic::STA, AddressingMode::IndirectIndexed),
        0x86 => (Mnemonic::STX, AddressingMode::ZeroPage),
        0x96 => (Mnemonic::STX, AddressingMode::ZeroPageY),
        0x8E => (Mnemonic::STX, AddressingMode::Absolute),
        0x84 => (Mnemonic::STY, AddressingMode::ZeroPage),
        0x94 => (Mnemonic::STY, AddressingMode::ZeroPageX),
        0x8C => (Mnemonic::STY, AddressingMode::Absolute),
        0xAA => (Mnemonic::TAX, AddressingMode::Implicit),
        0xBA => (Mnemonic::TSX, AddressingMode::Implicit),
        0xA8 => (Mnemonic::TAY, AddressingMode::Implicit),
        0x8A => (Mnemonic::TXA, AddressingMode::Implicit),
        0x9A => (Mnemonic::TXS, AddressingMode::Implicit),
        0x98 => (Mnemonic::TYA, AddressingMode::Implicit),
        0x48 => (Mnemonic::PHA, AddressingMode::Implicit),
        0x08 => (Mnemonic::PHP, AddressingMode::Implicit),
        0x68 => (Mnemonic::PLA, AddressingMode::Implicit),
        0x28 => (Mnemonic::PLP, AddressingMode::Implicit),
        0x29 => (Mnemonic::AND, AddressingMode::Immediate),
        0x25 => (Mnemonic::AND, AddressingMode::ZeroPage),
        0x35 => (Mnemonic::AND, AddressingMode::ZeroPageX),
        0x2D => (Mnemonic::AND, AddressingMode::Absolute),
        0x3D => (Mnemonic::AND, AddressingMode::AbsoluteX { penalty: true }),
        0x39 => (Mnemonic::AND, AddressingMode::AbsoluteY { penalty: true }),
        0x21 => (Mnemonic::AND, AddressingMode::IndexedIndirect),
        0x31 => (Mnemonic::AND, AddressingMode::IndirectIndexed),
        0x49 => (Mnemonic::EOR, AddressingMode::Immediate),
        0x45 => (Mnemonic::EOR, AddressingMode::ZeroPage),
        0x55 => (Mnemonic::EOR, AddressingMode::ZeroPageX),
        0x4D => (Mnemonic::EOR, AddressingMode::Absolute),
        0x5D => (Mnemonic::EOR, AddressingMode::AbsoluteX { penalty: true }),
        0x59 => (Mnemonic::EOR, AddressingMode::AbsoluteY { penalty: true }),
        0x41 => (Mnemonic::EOR, AddressingMode::IndexedIndirect),
        0x51 => (Mnemonic::EOR, AddressingMode::IndirectIndexed),
        0x09 => (Mnemonic::ORA, AddressingMode::Immediate),
        0x05 => (Mnemonic::ORA, AddressingMode::ZeroPage),
        0x15 => (Mnemonic::ORA, AddressingMode::ZeroPageX),
        0x0D => (Mnemonic::ORA, AddressingMode::Absolute),
        0x1D => (Mnemonic::ORA, AddressingMode::AbsoluteX { penalty: true }),
        0x19 => (Mnemonic::ORA, AddressingMode::AbsoluteY { penalty: true }),
        0x01 => (Mnemonic::ORA, AddressingMode::IndexedIndirect),
        0x11 => (Mnemonic::ORA, AddressingMode::IndirectIndexed),
        0x24 => (Mnemonic::BIT, AddressingMode::ZeroPage),
        0x2C => (Mnemonic::BIT, AddressingMode::Absolute),
        0x69 => (Mnemonic::ADC, AddressingMode::Immediate),
        0x65 => (Mnemonic::ADC, AddressingMode::ZeroPage),
        0x75 => (Mnemonic::ADC, AddressingMode::ZeroPageX),
        0x6D => (Mnemonic::ADC, AddressingMode::Absolute),
        0x7D => (Mnemonic::ADC, AddressingMode::AbsoluteX { penalty: true }),
        0x79 => (Mnemonic::ADC, AddressingMode::AbsoluteY { penalty: true }),
        0x61 => (Mnemonic::ADC, AddressingMode::IndexedIndirect),
        0x71 => (Mnemonic::ADC, AddressingMode::IndirectIndexed),
        0xE9 => (Mnemonic::SBC, AddressingMode::Immediate),
        0xE5 => (Mnemonic::SBC, AddressingMode::ZeroPage),
        0xF5 => (Mnemonic::SBC, AddressingMode::ZeroPageX),
        0xED => (Mnemonic::SBC, AddressingMode::Absolute),
        0xFD => (Mnemonic::SBC, AddressingMode::AbsoluteX { penalty: true }),
        0xF9 => (Mnemonic::SBC, AddressingMode::AbsoluteY { penalty: true }),
        0xE1 => (Mnemonic::SBC, AddressingMode::IndexedIndirect),
        0xF1 => (Mnemonic::SBC, AddressingMode::IndirectIndexed),
        0xC9 => (Mnemonic::CMP, AddressingMode::Immediate),
        0xC5 => (Mnemonic::CMP, AddressingMode::ZeroPage),
        0xD5 => (Mnemonic::CMP, AddressingMode::ZeroPageX),
        0xCD => (Mnemonic::CMP, AddressingMode::Absolute),
        0xDD => (Mnemonic::CMP, AddressingMode::AbsoluteX { penalty: true }),
        0xD9 => (Mnemonic::CMP, AddressingMode::AbsoluteY { penalty: true }),
        0xC1 => (Mnemonic::CMP, AddressingMode::IndexedIndirect),
        0xD1 => (Mnemonic::CMP, AddressingMode::IndirectIndexed),
        0xE0 => (Mnemonic::CPX, AddressingMode::Immediate),
        0xE4 => (Mnemonic::CPX, AddressingMode::ZeroPage),
        0xEC => (Mnemonic::CPX, AddressingMode::Absolute),
        0xC0 => (Mnemonic::CPY, AddressingMode::Immediate),
        0xC4 => (Mnemonic::CPY, AddressingMode::ZeroPage),
        0xCC => (Mnemonic::CPY, AddressingMode::Absolute),
        0xE6 => (Mnemonic::INC, AddressingMode::ZeroPage),
        0xF6 => (Mnemonic::INC, AddressingMode::ZeroPageX),
        0xEE => (Mnemonic::INC, AddressingMode::Absolute),
        0xFE => (Mnemonic::INC, AddressingMode::AbsoluteX { penalty: false }),
        0xE8 => (Mnemonic::INX, AddressingMode::Implicit),
        0xC8 => (Mnemonic::INY, AddressingMode::Implicit),
        0xC6 => (Mnemonic::DEC, AddressingMode::ZeroPage),
        0xD6 => (Mnemonic::DEC, AddressingMode::ZeroPageX),
        0xCE => (Mnemonic::DEC, AddressingMode::Absolute),
        0xDE => (Mnemonic::DEC, AddressingMode::AbsoluteX { penalty: false }),
        0xCA => (Mnemonic::DEX, AddressingMode::Implicit),
        0x88 => (Mnemonic::DEY, AddressingMode::Implicit),
        0x0A => (Mnemonic::ASL, AddressingMode::Accumulator),
        0x06 => (Mnemonic::ASL, AddressingMode::ZeroPage),
        0x16 => (Mnemonic::ASL, AddressingMode::ZeroPageX),
        0x0E => (Mnemonic::ASL, AddressingMode::Absolute),
        0x1E => (Mnemonic::ASL, AddressingMode::AbsoluteX { penalty: false }),
        0x4A => (Mnemonic::LSR, AddressingMode::Accumulator),
        0x46 => (Mnemonic::LSR, AddressingMode::ZeroPage),
        0x56 => (Mnemonic::LSR, AddressingMode::ZeroPageX),
        0x4E => (Mnemonic::LSR, AddressingMode::Absolute),
        0x5E => (Mnemonic::LSR, AddressingMode::AbsoluteX { penalty: false }),
        0x2A => (Mnemonic::ROL, AddressingMode::Accumulator),
        0x26 => (Mnemonic::ROL, AddressingMode::ZeroPage),
        0x36 => (Mnemonic::ROL, AddressingMode::ZeroPageX),
        0x2E => (Mnemonic::ROL, AddressingMode::Absolute),
        0x3E => (Mnemonic::ROL, AddressingMode::AbsoluteX { penalty: false }),
        0x6A => (Mnemonic::ROR, AddressingMode::Accumulator),
        0x66 => (Mnemonic::ROR, AddressingMode::ZeroPage),
        0x76 => (Mnemonic::ROR, AddressingMode::ZeroPageX),
        0x6E => (Mnemonic::ROR, AddressingMode::Absolute),
        0x7E => (Mnemonic::ROR, AddressingMode::AbsoluteX { penalty: false }),
        0x4C => (Mnemonic::JMP, AddressingMode::Absolute),
        0x6C => (Mnemonic::JMP, AddressingMode::Indirect),
        0x20 => (Mnemonic::JSR, AddressingMode::Absolute),
        0x60 => (Mnemonic::RTS, AddressingMode::Implicit),
        0x40 => (Mnemonic::RTI, AddressingMode::Implicit),
        0x90 => (Mnemonic::BCC, AddressingMode::Relative),
        0xB0 => (Mnemonic::BCS, AddressingMode::Relative),
        0xF0 => (Mnemonic::BEQ, AddressingMode::Relative),
        0x30 => (Mnemonic::BMI, AddressingMode::Relative),
        0xD0 => (Mnemonic::BNE, AddressingMode::Relative),
        0x10 => (Mnemonic::BPL, AddressingMode::Relative),
        0x50 => (Mnemonic::BVC, AddressingMode::Relative),
        0x70 => (Mnemonic::BVS, AddressingMode::Relative),
        0x18 => (Mnemonic::CLC, AddressingMode::Implicit),
        0xD8 => (Mnemonic::CLD, AddressingMode::Implicit),
        0x58 => (Mnemonic::CLI, AddressingMode::Implicit),
        0xB8 => (Mnemonic::CLV, AddressingMode::Implicit),
        0x38 => (Mnemonic::SEC, AddressingMode::Implicit),
        0xF8 => (Mnemonic::SED, AddressingMode::Implicit),
        0x78 => (Mnemonic::SEI, AddressingMode::Implicit),
        0x00 => (Mnemonic::BRK, AddressingMode::Implicit),
        0xEB => (Mnemonic::SBC, AddressingMode::Immediate),
        0x04 | 0x44 | 0x64 => (Mnemonic::NOP, AddressingMode::ZeroPage),
        0x0C => (Mnemonic::NOP, AddressingMode::Absolute),
        0x14 | 0x34 | 0x54 | 0x74 | 0xD4 | 0xF4 => (Mnemonic::NOP, AddressingMode::ZeroPageX),
        0x1A | 0x3A | 0x5A | 0x7A | 0xDA | 0xEA | 0xFA => (Mnemonic::NOP, AddressingMode::Implicit),
        0x1C | 0x3C | 0x5C | 0x7C | 0xDC | 0xFC => (Mnemonic::NOP, AddressingMode::AbsoluteX { penalty: true }),
        0x80 | 0x82 | 0x89 | 0xC2 | 0xE2 => (Mnemonic::NOP, AddressingMode::Immediate),
        0xA3 => (Mnemonic::LAX, AddressingMode::IndexedIndirect),
        0xA7 => (Mnemonic::LAX, AddressingMode::ZeroPage),
        0xAF => (Mnemonic::LAX, AddressingMode::Absolute),
        0xB3 => (Mnemonic::LAX, AddressingMode::IndirectIndexed),
        0xB7 => (Mnemonic::LAX, AddressingMode::ZeroPageY),
        0xBF => (Mnemonic::LAX, AddressingMode::AbsoluteY { penalty: true }),
        0x83 => (Mnemonic::SAX, AddressingMode::IndexedIndirect),
        0x87 => (Mnemonic::SAX, AddressingMode::ZeroPage),
        0x8F => (Mnemonic::SAX, AddressingMode::Absolute),
        0x97 => (Mnemonic::SAX, AddressingMode::ZeroPageY),
        0xC3 => (Mnemonic::DCP, AddressingMode::IndexedIndirect),
        0xC7 => (Mnemonic::DCP, AddressingMode::ZeroPage),
        0xCF => (Mnemonic::DCP, AddressingMode::Absolute),
        0xD3 => (Mnemonic::DCP, AddressingMode::IndirectIndexed),
        0xD7 => (Mnemonic::DCP, AddressingMode::ZeroPageX),
        0xDB => (Mnemonic::DCP, AddressingMode::AbsoluteY { penalty: false }),
        0xDF => (Mnemonic::DCP, AddressingMode::AbsoluteX { penalty: false }),
        0xE3 => (Mnemonic::ISB, AddressingMode::IndexedIndirect),
        0xE7 => (Mnemonic::ISB, AddressingMode::ZeroPage),
        0xEF => (Mnemonic::ISB, AddressingMode::Absolute),
        0xF3 => (Mnemonic::ISB, AddressingMode::IndirectIndexed),
        0xF7 => (Mnemonic::ISB, AddressingMode::ZeroPageX),
        0xFB => (Mnemonic::ISB, AddressingMode::AbsoluteY { penalty: false }),
        0xFF => (Mnemonic::ISB, AddressingMode::AbsoluteX { penalty: false }),
        0x03 => (Mnemonic::SLO, AddressingMode::IndexedIndirect),
        0x07 => (Mnemonic::SLO, AddressingMode::ZeroPage),
        0x0F => (Mnemonic::SLO, AddressingMode::Absolute),
        0x13 => (Mnemonic::SLO, AddressingMode::IndirectIndexed),
        0x17 => (Mnemonic::SLO, AddressingMode::ZeroPageX),
        0x1B => (Mnemonic::SLO, AddressingMode::AbsoluteY { penalty: false }),
        0x1F => (Mnemonic::SLO, AddressingMode::AbsoluteX { penalty: false }),
        0x23 => (Mnemonic::RLA, AddressingMode::IndexedIndirect),
        0x27 => (Mnemonic::RLA, AddressingMode::ZeroPage),
        0x2F => (Mnemonic::RLA, AddressingMode::Absolute),
        0x33 => (Mnemonic::RLA, AddressingMode::IndirectIndexed),
        0x37 => (Mnemonic::RLA, AddressingMode::ZeroPageX),
        0x3B => (Mnemonic::RLA, AddressingMode::AbsoluteY { penalty: false }),
        0x3F => (Mnemonic::RLA, AddressingMode::AbsoluteX { penalty: false }),
        0x43 => (Mnemonic::SRE, AddressingMode::IndexedIndirect),
        0x47 => (Mnemonic::SRE, AddressingMode::ZeroPage),
        0x4F => (Mnemonic::SRE, AddressingMode::Absolute),
        0x53 => (Mnemonic::SRE, AddressingMode::IndirectIndexed),
        0x57 => (Mnemonic::SRE, AddressingMode::ZeroPageX),
        0x5B => (Mnemonic::SRE, AddressingMode::AbsoluteY { penalty: false }),
        0x5F => (Mnemonic::SRE, AddressingMode::AbsoluteX { penalty: false }),
        0x63 => (Mnemonic::RRA, AddressingMode::IndexedIndirect),
        0x67 => (Mnemonic::RRA, AddressingMode::ZeroPage),
        0x6F => (Mnemonic::RRA, AddressingMode::Absolute),
        0x73 => (Mnemonic::RRA, AddressingMode::IndirectIndexed),
        0x77 => (Mnemonic::RRA, AddressingMode::ZeroPageX),
        0x7B => (Mnemonic::RRA, AddressingMode::AbsoluteY { penalty: false }),
        0x7F => (Mnemonic::RRA, AddressingMode::AbsoluteX { penalty: false }),
        _ => (Mnemonic::NOP, AddressingMode::Implicit),
    };
    Opcode { mnemonic: m, addressing_mode: am }
}

pub fn decode(value: u8) -> (r: Opcode)
    ensures
        r == spec_decode(value),
{
    let (m, am) = match value {
        0xA9 => (Mnemonic::LDA, AddressingMode::Immediate),
        0xA5 => (Mnemonic::LDA, AddressingMode::ZeroPage),
        0xB5 => (Mnemonic::LDA, AddressingMode::ZeroPageX),
        0xAD => (Mnemonic::LDA, AddressingMode::Absolute),
        0xBD => (Mnemonic::LDA, AddressingMode::AbsoluteX { penalty: true }),
        0xB9 => (Mnemonic::LDA, AddressingMode::AbsoluteY { penalty: true }),
        0xA1 => (Mnemonic::LDA, AddressingMode::IndexedIndirect),
        0xB1 => (Mnemonic::LDA, AddressingMode::IndirectIndexed),
        0xA2 => (Mnemonic::LDX, AddressingMode::Immediate),
        0xA6 => (Mnemonic::LDX, AddressingMode::ZeroPage),
        0xB6 => (Mnemonic::LDX, AddressingMode::ZeroPageY),
        0xAE => (Mnemonic::LDX, AddressingMode::Absolute),
        0xBE => (Mnemonic::LDX, AddressingMode::AbsoluteY { penalty: true }),
        0xA0 => (Mnemonic::LDY, AddressingMode::Immediate),
        0xA4 => (Mnemonic::LDY, AddressingMode::ZeroPage),
        0xB4 => (Mnemonic::LDY, AddressingMode::ZeroPageX),
        0xAC => (Mnemonic::LDY, AddressingMode::Absolute),
        0xBC => (Mnemonic::LDY, AddressingMode::AbsoluteX { penalty: true }),
        0x85 => (Mnemonic::STA, AddressingMode::ZeroPage),
        0x95 => (Mnemonic::STA, AddressingMode::ZeroPageX),
        0x8D => (Mnemonic::STA, AddressingMode::Absolute),
        0x9D => (Mnemonic::STA, AddressingMode::AbsoluteX { penalty: false }),
        0x99 => (Mnemonic::STA, AddressingMode::AbsoluteY { penalty: false }),
        0x81 => (Mnemonic::STA, AddressingMode::IndexedIndirect),
        0x91 => (Mnemonic::STA, AddressingMode::IndirectIndexed),
        0x86 => (Mnemonic::STX, AddressingMode::ZeroPage),
        0x96 => (Mnemonic::STX, AddressingMode::ZeroPageY),
        0x8E => (Mnemonic::STX, AddressingMode::Absolute),
        0x84 => (Mnemonic::STY, AddressingMode::ZeroPage),
        0x94 => (Mnemonic::STY, AddressingMode::ZeroPageX),
        0x8C => (Mnemonic::STY, AddressingMode::Absolute),
        0xAA => (Mnemonic::TAX, AddressingMode::Implicit),
        0xBA => (Mnemonic::TSX, AddressingMode::Implicit),
        0xA8 => (Mnemonic::TAY, AddressingMode::Implicit),
        0x8A => (Mnemonic::TXA, AddressingMode::Implicit),
        0x9A => (Mnemonic::TXS, AddressingMode::Implicit),
        0x98 => (Mnemonic::TYA, AddressingMode::Implicit),
        0x48 => (Mnemonic::PHA, AddressingMode::Implicit),
        0x08 => (Mnemonic::PHP, AddressingMode::Implicit),
        0x68 => (Mnemonic::PLA, AddressingMode::Implicit),
        0x28 => (Mnemonic::PLP, AddressingMode::Implicit),
        0x29 => (Mnemonic::AND, AddressingMode::Immediate),
        0x25 => (Mnemonic::AND, AddressingMode::ZeroPage),
        0x35 => (Mnemonic::AND, AddressingMode::ZeroPageX),
        0x2D => (Mnemonic::AND, AddressingMode::Absolute),
        0x3D => (Mnemonic::AND, AddressingMode::AbsoluteX { penalty: true }),
        0x39 => (Mnemonic::AND, AddressingMode::AbsoluteY { penalty: true }),
        0x21 => (Mnemonic::AND, AddressingMode::IndexedIndirect),
        0x31 => (Mnemonic::AND, AddressingMode::IndirectIndexed),
        0x49 => (Mnemonic::EOR, AddressingMode::Immediate),
        0x45 => (Mnemonic::EOR, AddressingMode::ZeroPage),
        0x55 => (Mnemonic::EOR, AddressingMode::ZeroPageX),
        0x4D => (Mnemonic::EOR, AddressingMode::Absolute),
        0x5D => (Mnemonic::EOR, AddressingMode::AbsoluteX { penalty: true }),
        0x59 => (Mnemonic::EOR, AddressingMode::AbsoluteY { penalty: true }),
        0x41 => (Mnemonic::EOR, AddressingMode::IndexedIndirect),
        0x51 => (Mnemonic::EOR, AddressingMode::IndirectIndexed),
        0x09 => (Mnemonic::ORA, AddressingMode::Immediate),
        0x05 => (Mnemonic::ORA, AddressingMode::ZeroPage),
        0x15 => (Mnemonic::ORA, AddressingMode::ZeroPageX),
        0x0D => (Mnemonic::ORA, AddressingMode::Absolute),
        0x1D => (Mnemonic::ORA, AddressingMode::AbsoluteX { penalty: true }),
        0x19 => (Mnemonic::ORA, AddressingMode::AbsoluteY { penalty: true }),
        0x01 => (Mnemonic::ORA, AddressingMode::IndexedIndirect),
        0x11 => (Mnemonic::ORA, AddressingMode::IndirectIndexed),
        0x24 => (Mnemonic::BIT, AddressingMode::ZeroPage),
        0x2C => (Mnemonic::BIT, AddressingMode::Absolute),
        0x69 => (Mnemonic::ADC, AddressingMode::Immediate),
        0x65 => (Mnemonic::ADC, AddressingMode::ZeroPage),
        0x75 => (Mnemonic::ADC, AddressingMode::ZeroPageX),
        0x6D => (Mnemonic::ADC, AddressingMode::Absolute),
        0x7D => (Mnemonic::ADC, AddressingMode::AbsoluteX { penalty: true }),
        0x79 => (Mnemonic::ADC, AddressingMode::AbsoluteY { penalty: true }),
        0x61 => (Mnemonic::ADC, AddressingMode::IndexedIndirect),
        0x71 => (Mnemonic::ADC, AddressingMode::IndirectIndexed),
        0xE9 => (Mnemonic::SBC, AddressingMode::Immediate),
        0xE5 => (Mnemonic::SBC, AddressingMode::ZeroPage),
        0xF5 => (Mnemonic::SBC, AddressingMode::ZeroPageX),
        0xED => (Mnemonic::SBC, AddressingMode::Absolute),
        0xFD => (Mnemonic::SBC, AddressingMode::AbsoluteX { penalty: true }),
        0xF9 => (Mnemonic::SBC, AddressingMode::AbsoluteY { penalty: true }),
        0xE1 => (Mnemonic::SBC, AddressingMode::IndexedIndirect),
        0xF1 => (Mnemonic::SBC, AddressingMode::IndirectIndexed),
        0xC9 => (Mnemonic::CMP, AddressingMode::Immediate),
        0xC5 => (Mnemonic::CMP, AddressingMode::ZeroPage),
        0xD5 => (Mnemonic::CMP, AddressingMode::ZeroPageX),
        0xCD => (Mnemonic::CMP, AddressingMode::Absolute),
        0xDD => (Mnemonic::CMP, AddressingMode::AbsoluteX { penalty: true }),
        0xD9 => (Mnemonic::CMP, AddressingMode::AbsoluteY { penalty: true }),
        0xC1 => (Mnemonic::CMP, AddressingMode::IndexedIndirect),
        0xD1 => (Mnemonic::CMP, AddressingMode::IndirectIndexed),
        0xE0 => (Mnemonic::CPX, AddressingMode::Immediate),
        0xE4 => (Mnemonic::CPX, AddressingMode::ZeroPage),
        0xEC => (Mnemonic::CPX, AddressingMode::Absolute),
        0xC0 => (Mnemonic::CPY, AddressingMode::Immediate),
        0xC4 => (Mnemonic::CPY, AddressingMode::ZeroPage),
        0xCC => (Mnemonic::CPY, AddressingMode::Absolute),
        0xE6 => (Mnemonic::INC, AddressingMode::ZeroPage),
        0xF6 => (Mnemonic::INC, AddressingMode::ZeroPageX),
        0xEE => (Mnemonic::INC, AddressingMode::Absolute),
        0xFE => (Mnemonic::INC, AddressingMode::AbsoluteX { penalty: false }),
        0xE8 => (Mnemonic::INX, AddressingMode::Implicit),
        0xC8 => (Mnemonic::INY, AddressingMode::Implicit),
        0xC6 => (Mnemonic::DEC, AddressingMode::ZeroPage),
        0xD6 => (Mnemonic::DEC, AddressingMode::ZeroPageX),
        0xCE => (Mnemonic::DEC, AddressingMode::Absolute),
        0xDE => (Mnemonic::DEC, AddressingMode::AbsoluteX { penalty: false }),
        0xCA => (Mnemonic::DEX, AddressingMode::Implicit),
        0x88 => (Mnemonic::DEY, AddressingMode::Implicit),
        0x0A => (Mnemonic::ASL, AddressingMode::Accumulator),
        0x06 => (Mnemonic::ASL, AddressingMode::ZeroPage),
        0x16 => (Mnemonic::ASL, AddressingMode::ZeroPageX),
        0x0E => (Mnemonic::ASL, AddressingMode::Absolute),
        0x1E => (Mnemonic::ASL, AddressingMode::AbsoluteX { penalty: false }),
        0x4A => (Mnemonic::LSR, AddressingMode::Accumulator),
        0x46 => (Mnemonic::LSR, AddressingMode::ZeroPage),
        0x56 => (Mnemonic::LSR, AddressingMode::ZeroPageX),
        0x4E => (Mnemonic::LSR, AddressingMode::Absolute),
        0x5E => (Mnemonic::LSR, AddressingMode::AbsoluteX { penalty: false }),
        0x2A => (Mnemonic::ROL, AddressingMode::Accumulator),
        0x26 => (Mnemonic::ROL, AddressingMode::ZeroPage),
        0x36 => (Mnemonic::ROL, AddressingMode::ZeroPageX),
        0x2E => (Mnemonic::ROL, AddressingMode::Absolute),
        0x3E => (Mnemonic::ROL, AddressingMode::AbsoluteX { penalty: false }),
        0x6A => (Mnemonic::ROR, AddressingMode::Accumulator),
        0x66 => (Mnemonic::ROR, AddressingMode::ZeroPage),
        0x76 => (Mnemonic::ROR, AddressingMode::ZeroPageX),
        0x6E => (Mnemonic::ROR, AddressingMode::Absolute),
        0x7E => (Mnemonic::ROR, AddressingMode::AbsoluteX { penalty: false }),
        0x4C => (Mnemonic::JMP, AddressingMode::Absolute),
        0x6C => (Mnemonic::JMP, AddressingMode::Indirect),
        0x20 => (Mnemonic::JSR, AddressingMode::Absolute),
        0x60 => (Mnemonic::RTS, AddressingMode::Implicit),
        0x40 => (Mnemonic::RTI, AddressingMode::Implicit),
        0x90 => (Mnemonic::BCC, AddressingMode::Relative),
        0xB0 => (Mnemonic::BCS, AddressingMode::Relative),
        0xF0 => (Mnemonic::BEQ, AddressingMode::Relative),
        0x30 => (Mnemonic::BMI, AddressingMode::Relative),
        0xD0 => (Mnemonic::BNE, AddressingMode::Relative),
        0x10 => (Mnemonic::BPL, AddressingMode::Relative),
        0x50 => (Mnemonic::BVC, AddressingMode::Relative),
        0x70 => (Mnemonic::BVS, AddressingMode::Relative),
        0x18 => (Mnemonic::CLC, AddressingMode::Implicit),
        0xD8 => (Mnemonic::CLD, AddressingMode::Implicit),
        0x58 => (Mnemonic::CLI, AddressingMode::Implicit),
        0xB8 => (Mnemonic::CLV, AddressingMode::Implicit),
        0x38 => (Mnemonic::SEC, AddressingMode::Implicit),
        0xF8 => (Mnemonic::SED, AddressingMode::Implicit),
        0x78 => (Mnemonic::SEI, AddressingMode::Implicit),
        0x00 => (Mnemonic::BRK, AddressingMode::Implicit),
        0xEB => (Mnemonic::SBC, AddressingMode::Immediate),
        0x04 | 0x44 | 0x64 => (Mnemonic::NOP, AddressingMode::ZeroPage),
        0x0C => (Mnemonic::NOP, AddressingMode::Absolute),
        0x14 | 0x34 | 0x54 | 0x74 | 0xD4 | 0xF4 => (Mnemonic::NOP, AddressingMode::ZeroPageX),
        0x1A | 0x3A | 0x5A | 0x7A | 0xDA | 0xEA | 0xFA => (Mnemonic::NOP, AddressingMode::Implicit),
        0x1C | 0x3C | 0x5C | 0x7C | 0xDC | 0xFC => (Mnemonic::NOP, AddressingMode::AbsoluteX { penalty: true }),
        0x80 | 0x82 | 0x89 | 0xC2 | 0xE2 => (Mnemonic::NOP, AddressingMode::Immediate),
        0xA3 => (Mnemonic::LAX, AddressingMode::IndexedIndirect),
        0xA7 => (Mnemonic::LAX, AddressingMode::ZeroPage),
        0xAF => (Mnemonic::LAX, AddressingMode::Absolute),
        0xB3 => (Mnemonic::LAX, AddressingMode::IndirectIndexed),
        0xB7 => (Mnemonic::LAX, AddressingMode::ZeroPageY),
        0xBF => (Mnemonic::LAX, AddressingMode::AbsoluteY { penalty: true }),
        0x83 => (Mnemonic::SAX, AddressingMode::IndexedIndirect),
        0x87 => (Mnemonic::SAX, AddressingMode::ZeroPage),
        0x8F => (Mnemonic::SAX, AddressingMode::Absolute),
        0x97 => (Mnemonic::SAX, AddressingMode::ZeroPageY),
        0xC3 => (Mnemonic::DCP, AddressingMode::IndexedIndirect),
        0xC7 => (Mnemonic::DCP, AddressingMode::ZeroPage),
        0xCF => (Mnemonic::DCP, AddressingMode::Absolute),
        0xD3 => (Mnemonic::DCP, AddressingMode::IndirectIndexed),
        0xD7 => (Mnemonic::DCP, AddressingMode::ZeroPageX),
        0xDB => (Mnemonic::DCP, AddressingMode::AbsoluteY { penalty: false }),
        0xDF => (Mnemonic::DCP, AddressingMode::AbsoluteX { penalty: false }),
        0xE3 => (Mnemonic::ISB, AddressingMode::IndexedIndirect),
        0xE7 => (Mnemonic::ISB, AddressingMode::ZeroPage),
        0xEF => (Mnemonic::ISB, AddressingMode::Absolute),
        0xF3 => (Mnemonic::ISB, AddressingMode::IndirectIndexed),
        0xF7 => (Mnemonic::ISB, AddressingMode::ZeroPageX),
        0xFB => (Mnemonic::ISB, AddressingMode::AbsoluteY { penalty: false }),
        0xFF => (Mnemonic::ISB, AddressingMode::AbsoluteX { penalty: false }),
        0x03 => (Mnemonic::SLO, AddressingMode::IndexedIndirect),
        0x07 => (Mnemonic::SLO, AddressingMode::ZeroPage),
        0x0F => (Mnemonic::SLO, AddressingMode::Absolute),
        0x13 => (Mnemonic::SLO, AddressingMode::IndirectIndexed),
        0x17 => (Mnemonic::SLO, AddressingMode::ZeroPageX),
        0x1B => (Mnemonic::SLO, AddressingMode::AbsoluteY { penalty: false }),
        0x1F => (Mnemonic::SLO, AddressingMode::AbsoluteX { penalty: false }),
        0x23 => (Mnemonic::RLA, AddressingMode::IndexedIndirect),
        0x27 => (Mnemonic::RLA, AddressingMode::ZeroPage),
        0x2F => (Mnemonic::RLA, AddressingMode::Absolute),
        0x33 => (Mnemonic::RLA, AddressingMode::IndirectIndexed),
        0x37 => (Mnemonic::RLA, AddressingMode::ZeroPageX),
        0x3B => (Mnemonic::RLA, AddressingMode::AbsoluteY { penalty: false }),
        0x3F => (Mnemonic::RLA, AddressingMode::AbsoluteX { penalty: false }),
        0x43 => (Mnemonic::SRE, AddressingMode::IndexedIndirect),
        0x47 => (Mnemonic::SRE, AddressingMode::ZeroPage),
        0x4F => (Mnemonic::SRE, AddressingMode::Absolute),
        0x53 => (Mnemonic::SRE, AddressingMode::IndirectIndexed),
        0x57 => (Mnemonic::SRE, AddressingMode::ZeroPageX),
        0x5B => (Mnemonic::SRE, AddressingMode::AbsoluteY { penalty: false }),
        0x5F => (Mnemonic::SRE, AddressingMode::AbsoluteX { penalty: false }),
        0x63 => (Mnemonic::RRA, AddressingMode::IndexedIndirect),
        0x67 => (Mnemonic::RRA, AddressingMode::ZeroPage),
        0x6F => (Mnemonic::RRA, AddressingMode::Absolute),
        0x73 => (Mnemonic::RRA, AddressingMode::IndirectIndexed),
        0x77 => (Mnemonic::RRA, AddressingMode::ZeroPageX),
        0x7B => (Mnemonic::RRA, AddressingMode::AbsoluteY { penalty: false }),
        0x7F => (Mnemonic::RRA, AddressingMode::AbsoluteX { penalty: false }),
        _ => (Mnemonic::NOP, AddressingMode::Implicit),
    };
    Opcode { mnemonic: m, addressing_mode: am }
}

/// LoaD Accumulator.
pub fn lda<M: Memory>(cpu: &mut CPU<M>, operand: Operand)
    requires
        old(cpu).inv(),
    ensures
        final(cpu).inv(),
        M::v_clock(final(cpu).bus@) == M::v_clock(old(cpu).bus@),
        final(cpu).a == M::v_read_result(old(cpu).bus@, operand),
        final(cpu).p.0 == spec_zn(old(cpu).p.0, M::v_read_result(old(cpu).bus@, operand)),
        final(cpu).bus@ == M::v_post_read(old(cpu).bus@, operand),
        final(cpu).cycles == old(cpu).cycles.wrapping_add(1),
        final(cpu).x == old(cpu).x,
        final(cpu).y == old(cpu).y,
        final(cpu).s == old(cpu).s,
        final(cpu).pc == old(cpu).pc,
{
    let m = cpu.read(operand);
    cpu.a = m;
    cpu.p.update_zn(m);
}

/// LoaD X register.
pub fn ldx<M: Memory>(cpu: &mut CPU<M>, operand: Operand)
    requires
        old(cpu).inv(),
    ensures
        final(cpu).inv(),
        M::v_clock(final(cpu).bus@) == M::v_clock(old(cpu).bus@),
        final(cpu).x == M::v_read_result(old(cpu).bus@, operand),
        final(cpu).p.0 == spec_zn(old(cpu).p.0, M::v_read_result(old(cpu).bus@, operand)),
        final(cpu).bus@ == M::v_post_read(old(cpu).bus@, operand),
        final(cpu).cycles == old(cpu).cycles.wrapping_add(1),
        final(cpu).a == old(cpu).a,
        final(cpu).y == old(cpu).y,
        final(cpu).s == old(cpu).s,
        final(cpu).pc == old(cpu).pc,
{
    let m = cpu.read(operand);
    cpu.x = m;
    cpu.p.update_zn(m);
}

/// LoaD Y register.
pub fn ldy<M: Memory>(cpu: &mut CPU<M>, operand: Operand)
    requires
        old(cpu).inv(),
    ensures
        final(cpu).inv(),
        M::v_clock(final(cpu).bus@) == M::v_clock(old(cpu).bus@),
        final(cpu).y == M::v_read_result(old(cpu).bus@, operand),
        final(cpu).p.0 == spec_zn(old(cpu).p.0, M::v_read_result(old(cpu).bus@, operand)),
        final(cpu).bus@ == M::v_post_read(old(cpu).bus@, operand),
        final(cpu).cycles == old(cpu).cycles.wrapping_add(1),
        final(cpu).a == old(cpu).a,
        final(cpu).x == old(cpu).x,
        final(cpu).s == old(cpu).s,
        final(cpu).pc == old(cpu).pc,
{
    let m = cpu.read(operand);
    cpu.y = m;
    cpu.p.update_zn(m);
}

/// STore Accumulator.
pub fn sta<M: Memory>(cpu: &mut CPU<M>, operand: Operand)
    requires
        old(cpu).inv(),
    ensures
        final(cpu).inv(),
        M::v_clock(final(cpu).bus@) == M::v_clock(old(cpu).bus@),
        final(cpu).bus@ == M::v_post_write(old(cpu).bus@, operand, old(cpu).a),
        final(cpu).cycles == spec_write_cycles(old(cpu).cycles, operand),
        final(cpu).a == old(cpu).a,
        final(cpu).x == old(cpu).x,
        final(cpu).y == old(cpu).y,
        final(cpu).s == old(cpu).s,
        final(cpu).p == old(cpu).p,
        final(cpu).pc == old(cpu).pc,
{
    let v = cpu.a;
    cpu.write(operand, v);
}

/// STore X register.
pub fn stx<M: Memory>(cpu: &mut CPU<M>, operand: Operand)
    requires
        old(cpu).inv(),
    ensures
        final(cpu).inv(),
        M::v_clock(final(cpu).bus@) == M::v_clock(old(cpu).bus@),
        final(cpu).bus@ == M::v_post_write(old(cpu).bus@, operand, old(cpu).x),
        final(cpu).cycles == spec_write_cycles(old(cpu).cycles, operand),
        final(cpu).a == old(cpu).a,
        final(cpu).x == old(cpu).x,
        final(cpu).y == old(cpu).y,
        final(cpu).s == old(cpu).s,
        final(cpu).p == old(cpu).p,
        final(cpu).pc == old(cpu).pc,
{
    let v = cpu.x;
    cpu.write(operand, v);
}

/// STore Y register.
pub fn sty<M: Memory>(cpu: &mut CPU<M>, operand: Operand)
    requires
        old(cpu).inv(),
    ensures
        final(cpu).inv(),
        M::v_clock(final(cpu).bus@) == M::v_clock(old(cpu).bus@),
        final(cpu).bus@ == M::v_post_write(old(cpu).bus@, operand, old(cpu).y),
        final(cpu).cycles == spec_write_cycles(old(cpu).cycles, operand),
        final(cpu).a == old(cpu).a,
        final(cpu).x == old(cpu).x,
        final(cpu).y == old(cpu).y,
        final(cpu).s == old(cpu).s,
        final(cpu).p == old(cpu).p,
        final(cpu).pc == old(cpu).pc,
{
    let v = cpu.y;
    cpu.write(operand, v);
}

/// Transfer Accumulator to X.
pub fn tax<M: Memory>(cpu: &mut CPU<M>)
    requires
        old(cpu).inv(),
    ensures
        final(cpu).inv(),
        M::v_clock(final(cpu).bus@) == M::v_clock(old(cpu).bus@),
        final(cpu).x == old(cpu).a,
        final(cpu).p.0 == spec_zn(old(cpu).p.0, old(cpu).a),
        final(cpu).bus@ == old(cpu).bus@,
        final(cpu).cycles == old(cpu).cycles.wrapping_add(1),
        final(cpu).a == old(cpu).a,
        final(cpu).y == old(cpu).y,
        final(cpu).s == old(cpu).s,
        final(cpu).pc == old(cpu).pc,
{
    let v = cpu.a;
    cpu.x = v;
    cpu.p.update_zn(v);
    cpu.cycles = cpu.cycles.wrapping_add(1);
}

/// Transfer Stack pointer to X.
pub fn tsx<M: Memory>(cpu: &mut CPU<M>)
    requires
        old(cpu).inv(),
    ensures
        final(cpu).inv(),
        M::v_clock(final(cpu).bus@) == M::v_clock(old(cpu).bus@),
        final(cpu).x == old(cpu).s,
        final(cpu).p.0 == spec_zn(old(cpu).p.0, old(cpu).s),
        final(cpu).bus@ == old(cpu).bus@,
        final(cpu).cycles == old(cpu).cycles.wrapping_add(1),
        final(cpu).a == old(cpu).a,
        final(cpu).y == old(cpu).y,
        final(cpu).s == old(cpu).s,
        final(cpu).pc == old(cpu).pc,
{
    let v = cpu.s;
    cpu.x = v;
    cpu.p.update_zn(v);
    cpu.cycles = cpu.cycles.wrapping_add(1);
}

/// Transfer Accumulator to Y.
pub fn tay<M: Memory>(cpu: &mut CPU<M>)
    requires
        old(cpu).inv(),
    ensures
        final(cpu).inv(),
        M::v_clock(final(cpu).bus@) == M::v_clock(old(cpu).bus@),
        final(cpu).y == old(cpu).a,
        final(cpu).p.0 == spec_zn(old(cpu).p.0, old(cpu).a),
        final(cpu).bus@ == old(cpu).bus@,
        final(cpu).cycles == old(cpu).cycles.wrapping_add(1),
        final(cpu).a == old(cpu).a,
        final(cpu).x == old(cpu).x,
        final(cpu).s == old(cpu).s,
        final(cpu).pc == old(cpu).pc,
{
    let v = cpu.a;
    cpu.y = v;
    cpu.p.update_zn(v);
    cpu.cycles = cpu.cycles.wrapping_add(1);
}

/// Transfer X to Accumulator.
pub fn txa<M: Memory>(cpu: &mut CPU<M>)
    requires
        old(cpu).inv(),
    ensures
        final(cpu).inv(),
        M::v_clock(final(cpu).bus@) == M::v_clock(old(cpu).bus@),
        final(cpu).a == old(cpu).x,
        final(cpu).p.0 == spec_zn(old(cpu).p.0, old(cpu).x),
        final(cpu).bus@ == old(cpu).bus@,
        final(cpu).cycles == old(cpu).cycles.wrapping_add(1),
        final(cpu).x == old(cpu).x,
        final(cpu).y == old(cpu).y,
        final(cpu).s == old(cpu).s,
        final(cpu).pc == old(cpu).pc,
{
    let v = cpu.x;
    cpu.a = v;
    cpu.p.update_zn(v);
    cpu.cycles = cpu.cycles.wrapping_add(1);
}

/// Transfer X to Stack pointer (no flags).
pub fn txs<M: Memory>(cpu: &mut CPU<M>)
    requires
        old(cpu).inv(),
    ensures
        final(cpu).inv(),
        M::v_clock(final(cpu).bus@) == M::v_clock(old(cpu).bus@),
        final(cpu).s == old(cpu).x,
        final(cpu).p == old(cpu).p,
        final(cpu).bus@ == old(cpu).bus@,
        final(cpu).cycles == old(cpu).cycles.wrapping_add(1),
        final(cpu).a == old(cpu).a,
        final(cpu).x == old(cpu).x,
        final(cpu).y == old(cpu).y,
        final(cpu).pc == old(cpu).pc,
{
    let v = cpu.x;
    cpu.s = v;
    cpu.cycles = cpu.cycles.wrapping_add(1);
}

/// Transfer Y to Accumulator.
pub fn tya<M: Memory>(cpu: &mut CPU<M>)
    requires
        old(cpu).inv(),
    ensures
        final(cpu).inv(),
        M::v_clock(final(cpu).bus@) == M::v_clock(old(cpu).bus@),
        final(cpu).a == old(cpu).y,
        final(cpu).p.0 == spec_zn(old(cpu).p.0, old(cpu).y),
        final(cpu).bus@ == old(cpu).bus@,
        final(cpu).cycles == old(cpu).cycles.wrapping_add(1),
        final(cpu).x == old(cpu).x,
        final(cpu).y == old(cpu).y,
        final(cpu).s == old(cpu).s,
        final(cpu).pc == old(cpu).pc,
{
    let v = cpu.y;
    cpu.a = v;
    cpu.p.update_zn(v);
    cpu.cycles = cpu.cycles.wrapping_add(1);
}

/// PusH Accumulator.
pub fn pha<M: Memory>(cpu: &mut CPU<M>)
    requires
        old(cpu).inv(),
    ensures
        final(cpu).inv(),
        M::v_clock(final(cpu).bus@) == M::v_clock(old(cpu).bus@),
        final(cpu).bus@ == M::v_post_write(old(cpu).bus@, spec_stack_addr(old(cpu).s), old(cpu).a),
        final(cpu).s == old(cpu).s.wrapping_sub(1),
        final(cpu).cycles == old(cpu).cycles.wrapping_add(2),
        final(cpu).a == old(cpu).a,
        final(cpu).x == old(cpu).x,
        final(cpu).y == old(cpu).y,
        final(cpu).p == old(cpu).p,
        final(cpu).pc == old(cpu).pc,
{
    let v = cpu.a;
    cpu.push_stack(v);
    cpu.cycles = cpu.cycles.wrapping_add(1);
}

/// PusH Processor status: the pushed copy has the B and R bits set.
pub fn php<M: Memory>(cpu: &mut CPU<M>)
    requires
        old(cpu).inv(),
    ensures
        final(cpu).inv(),
        M::v_clock(final(cpu).bus@) == M::v_clock(old(cpu).bus@),
        final(cpu).bus@ == M::v_post_write(
            old(cpu).bus@,
            spec_stack_addr(old(cpu).s),
            spec_php_pushed(old(cpu).p.0),
        ),
        final(cpu).s == old(cpu).s.wrapping_sub(1),
        final(cpu).cycles == old(cpu).cycles.wrapping_add(2),
        final(cpu).a == old(cpu).a,
        final(cpu).x == old(cpu).x,
        final(cpu).y == old(cpu).y,
        final(cpu).p == old(cpu).p,
        final(cpu).pc == old(cpu).pc,
{
    let v = cpu.p.bits() | OPERATED_B;
    cpu.push_stack(v);
    cpu.cycles = cpu.cycles.wrapping_add(1);
}

/// PulL Accumulator.
pub fn pla<M: Memory>(cpu: &mut CPU<M>)
    requires
        old(cpu).inv(),
    ensures
        final(cpu).inv(),
        M::v_clock(final(cpu).bus@) == M::v_clock(old(cpu).bus@),
        ({
            let pulled = M::v_read_result(old(cpu).bus@, spec_stack_addr(old(cpu).s.wrapping_add(1)));
            final(cpu).a == pulled && final(cpu).p.0 == spec_zn(old(cpu).p.0, pulled)
        }),
        final(cpu).bus@ == M::v_post_read(
            old(cpu).bus@,
            spec_stack_addr(old(cpu).s.wrapping_add(1)),
        ),
        final(cpu).s == old(cpu).s.wrapping_add(1),
        final(cpu).cycles == old(cpu).cycles.wrapping_add(3),
        final(cpu).x == old(cpu).x,
        final(cpu).y == old(cpu).y,
        final(cpu).pc == old(cpu).pc,
{
    let v = cpu.pull_stack();
    cpu.a = v;
    cpu.p.update_zn(v);
    cpu.cycles = cpu.cycles.wrapping_add(2);
}

/// PulL Processor status: B comes back cleared and R forced to 1.
pub fn plp<M: Memory>(cpu: &mut CPU<M>)
    requires
        old(cpu).inv(),
    ensures
        final(cpu).inv(),
        M::v_clock(final(cpu).bus@) == M::v_clock(old(cpu).bus@),
        final(cpu).p.0 == spec_plp_restored(
            M::v_read_result(old(cpu).bus@, spec_stack_addr(old(cpu).s.wrapping_add(1))),
        ),
        final(cpu).bus@ == M::v_post_read(
            old(cpu).bus@,
            spec_stack_addr(old(cpu).s.wrapping_add(1)),
        ),
        final(cpu).s == old(cpu).s.wrapping_add(1),
        final(cpu).cycles == old(cpu).cycles.wrapping_add(3),
        final(cpu).a == old(cpu).a,
        final(cpu).x == old(cpu).x,
        final(cpu).y == old(cpu).y,
        final(cpu).pc == old(cpu).pc,
{
    let v = cpu.pull_stack();
    cpu.p = CPUStatus::new((v & !FLAG_B) | FLAG_R);
    cpu.cycles = cpu.cycles.wrapping_add(2);
}

/// bitwise AND with accumulator.
pub fn and<M: Memory>(cpu: &mut CPU<M>, operand: Operand)
    requires
        old(cpu).inv(),
    ensures
        final(cpu).inv(),
        M::v_clock(final(cpu).bus@) == M::v_clock(old(cpu).bus@),
        final(cpu).a == (old(cpu).a & M::v_read_result(old(cpu).bus@, operand)),
        final(cpu).p.0 == spec_zn(
            old(cpu).p.0,
            old(cpu).a & M::v_read_result(old(cpu).bus@, operand),
        ),
        final(cpu).bus@ == M::v_post_read(old(cpu).bus@, operand),
        final(cpu).cycles == old(cpu).cycles.wrapping_add(1),
        final(cpu).x == old(cpu).x,
        final(cpu).y == old(cpu).y,
        final(cpu).s == old(cpu).s,
        final(cpu).pc == old(cpu).pc,
{
    let m = cpu.read(operand);
    let r = cpu.a & m;
    cpu.a = r;
    cpu.p.update_zn(r);
}

/// bitwise Exclusive OR.
pub fn eor<M: Memory>(cpu: &mut CPU<M>, operand: Operand)
    requires
        old(cpu).inv(),
    ensures
        final(cpu).inv(),
        M::v_clock(final(cpu).bus@) == M::v_clock(old(cpu).bus@),
        final(cpu).a == (old(cpu).a ^ M::v_read_result(old(cpu).bus@, operand)),
        final(cpu).p.0 == spec_zn(
            old(cpu).p.0,
            old(cpu).a ^ M::v_read_result(old(cpu).bus@, operand),
        ),
        final(cpu).bus@ == M::v_post_read(old(cpu).bus@, operand),
        final(cpu).cycles == old(cpu).cycles.wrapping_add(1),
        final(cpu).x == old(cpu).x,
        final(cpu).y == old(cpu).y,
        final(cpu).s == old(cpu).s,
        final(cpu).pc == old(cpu).pc,
{
    let m = cpu.read(operand);
    let r = cpu.a ^ m;
    cpu.a = r;
    cpu.p.update_zn(r);
}

/// bitwise OR with Accumulator.
pub fn ora<M: Memory>(cpu: &mut CPU<M>, operand: Operand)
    requires
        old(cpu).inv(),
    ensures
        final(cpu).inv(),
        M::v_clock(final(cpu).bus@) == M::v_clock(old(cpu).bus@),
        final(cpu).a == (old(cpu).a | M::v_read_result(old(cpu).bus@, operand)),
        final(cpu).p.0 == spec_zn(
            old(cpu).p.0,
            old(cpu).a | M::v_read_result(old(cpu).bus@, operand),
        ),
        final(cpu).bus@ == M::v_post_read(old(cpu).bus@, operand),
        final(cpu).cycles == old(cpu).cycles.wrapping_add(1),
        final(cpu).x == old(cpu).x,
        final(cpu).y == old(cpu).y,
        final(cpu).s == old(cpu).s,
        final(cpu).pc == old(cpu).pc,
{
    let m = cpu.read(operand);
    let r = cpu.a | m;
    cpu.a = r;
    cpu.p.update_zn(r);
}

/// test BITs: Z from A AND M, V from bit 6 of M, N from bit 7 of M.
pub fn bit<M: Memory>(cpu: &mut CPU<M>, operand: Operand)
    requires
        old(cpu).inv(),
    ensures
        final(cpu).inv(),
        M::v_clock(final(cpu).bus@) == M::v_clock(old(cpu).bus@),
        ({
            let m = M::v_read_result(old(cpu).bus@, operand);
            final(cpu).p.0 == spec_update(
                spec_update(
                    spec_update(old(cpu).p.0, FLAG_Z, old(cpu).a & m == 0),
                    FLAG_V,
                    m & 0x40 == 0x40,
                ),
                FLAG_N,
                m & 0x80 == 0x80,
            )
        }),
        final(cpu).bus@ == M::v_post_read(old(cpu).bus@, operand),
        final(cpu).cycles == old(cpu).cycles.wrapping_add(1),
        final(cpu).a == old(cpu).a,
        final(cpu).x == old(cpu).x,
        final(cpu).y == old(cpu).y,
        final(cpu).s == old(cpu).s,
        final(cpu).pc == old(cpu).pc,
{
    let m = cpu.read(operand);
    let data = cpu.a & m;
    cpu.p.update(FLAG_Z, data == 0);
    cpu.p.update(FLAG_V, m & 0x40 == 0x40);
    cpu.p.update(FLAG_N, m & 0x80 == 0x80);
}

/// The carry-in bit of a status byte.
pub open spec fn spec_carry_in(p: u8) -> u8 {
    if p & FLAG_C == FLAG_C {
        1
    } else {
        0
    }
}

/// The accumulator after an add-with-carry of `m` under status `p`.
pub open spec fn spec_adc_result(a: u8, m: u8, p: u8) -> u8 {
    ((a + m + spec_carry_in(p)) % 256) as u8
}

/// The status after an add-with-carry: C from unsigned overflow, V from
/// signed overflow, then Z and N from the result.
pub open spec fn spec_adc_flags(a: u8, m: u8, p: u8) -> u8 {
    let r = spec_adc_result(a, m, p);
    let p1 = spec_update(p, FLAG_C, a + m + spec_carry_in(p) >= 256);
    let p2 = spec_update(p1, FLAG_V, ((a ^ r) & (m ^ r) & 0x80) != 0);
    spec_zn(p2, r)
}

/// ADd with Carry.
pub fn adc<M: Memory>(cpu: &mut CPU<M>, operand: Operand)
    requires
        old(cpu).inv(),
    ensures
        final(cpu).inv(),
        M::v_clock(final(cpu).bus@) == M::v_clock(old(cpu).bus@),
        ({
            let m = M::v_read_result(old(cpu).bus@, operand);
            final(cpu).a == spec_adc_result(old(cpu).a, m, old(cpu).p.0) && final(cpu).p.0
                == spec_adc_flags(old(cpu).a, m, old(cpu).p.0)
        }),
        final(cpu).bus@ == M::v_post_read(old(cpu).bus@, operand),
        final(cpu).cycles == old(cpu).cycles.wrapping_add(1),
        final(cpu).x == old(cpu).x,
        final(cpu).y == old(cpu).y,
        final(cpu).s == old(cpu).s,
        final(cpu).pc == old(cpu).pc,
{
    let m = cpu.read(operand);
    adc_with(cpu, m);
}

/// The add-with-carry arithmetic shared by ADC, SBC, ISB and RRA.
pub fn adc_with<M: Memory>(cpu: &mut CPU<M>, m: u8)
    requires
        old(cpu).inv(),
    ensures
        final(cpu).inv(),
        M::v_clock(final(cpu).bus@) == M::v_clock(old(cpu).bus@),
        final(cpu).a == spec_adc_result(old(cpu).a, m, old(cpu).p.0),
        final(cpu).p.0 == spec_adc_flags(old(cpu).a, m, old(cpu).p.0),
        final(cpu).bus@ == old(cpu).bus@,
        final(cpu).cycles == old(cpu).cycles,
        final(cpu).x == old(cpu).x,
        final(cpu).y == old(cpu).y,
        final(cpu).s == old(cpu).s,
        final(cpu).pc == old(cpu).pc,
{
    let a = cpu.a;
    let c: u8 = if cpu.p.is_set(FLAG_C) {
        1
    } else {
        0
    };
    let sum: u16 = a as u16 + m as u16 + c as u16;
    let result: u8 = (sum % 256) as u8;
    cpu.p.update(FLAG_C, sum >= 256);
    cpu.p.update(FLAG_V, ((a ^ result) & (m ^ result) & 0x80) != 0);
    cpu.a = result;
    cpu.p.update_zn(result);
}

/// SuBtract with carry: an add-with-carry of the bit-inverted operand.
pub fn sbc<M: Memory>(cpu: &mut CPU<M>, operand: Operand)
    requires
        old(cpu).inv(),
    ensures
        final(cpu).inv(),
        M::v_clock(final(cpu).bus@) == M::v_clock(old(cpu).bus@),
        ({
            let m = M::v_read_result(old(cpu).bus@, operand);
            final(cpu).a == spec_adc_result(old(cpu).a, !m, old(cpu).p.0) && final(cpu).p.0
                == spec_adc_flags(old(cpu).a, !m, old(cpu).p.0)
        }),
        final(cpu).bus@ == M::v_post_read(old(cpu).bus@, operand),
        final(cpu).cycles == old(cpu).cycles.wrapping_add(1),
        final(cpu).x == old(cpu).x,
        final(cpu).y == old(cpu).y,
        final(cpu).s == old(cpu).s,
        final(cpu).pc == old(cpu).pc,
{
    let m = cpu.read(operand);
    adc_with(cpu, !m);
}

/// The status after comparing register value `r` with memory value `m`:
/// C iff r >= m, then Z and N from the low byte of the 16-bit difference.
pub open spec fn spec_cmp_flags(p: u8, r: u8, m: u8) -> u8 {
    let diff = (r as u16).wrapping_sub(m as u16);
    spec_zn(spec_update(p, FLAG_C, m <= r), (diff & 0xFF) as u8)
}

/// The comparison shared by CMP, CPX, CPY and DCP.
pub fn compare_with<M: Memory>(cpu: &mut CPU<M>, r: u8, m: u8)
    requires
        old(cpu).inv(),
    ensures
        final(cpu).inv(),
        M::v_clock(final(cpu).bus@) == M::v_clock(old(cpu).bus@),
        final(cpu).p.0 == spec_cmp_flags(old(cpu).p.0, r, m),
        final(cpu).bus@ == old(cpu).bus@,
        final(cpu).cycles == old(cpu).cycles,
        final(cpu).a == old(cpu).a,
        final(cpu).x == old(cpu).x,
        final(cpu).y == old(cpu).y,
        final(cpu).s == old(cpu).s,
        final(cpu).pc == old(cpu).pc,
{
    let diff: u16 = (r as u16).wrapping_sub(m as u16);
    cpu.p.update(FLAG_C, m <= r);
    cpu.p.update_zn((diff & 0xFF) as u8);
}

/// CoMPare accumulator.
pub fn cmp<M: Memory>(cpu: &mut CPU<M>, operand: Operand)
    requires
        old(cpu).inv(),
    ensures
        final(cpu).inv(),
        M::v_clock(final(cpu).bus@) == M::v_clock(old(cpu).bus@),
        final(cpu).p.0 == spec_cmp_flags(
            old(cpu).p.0,
            old(cpu).a,
            M::v_read_result(old(cpu).bus@, operand),
        ),
        final(cpu).bus@ == M::v_post_read(old(cpu).bus@, operand),
        final(cpu).cycles == old(cpu).cycles.wrapping_add(1),
        final(cpu).a == old(cpu).a,
        final(cpu).x == old(cpu).x,
        final(cpu).y == old(cpu).y,
        final(cpu).s == old(cpu).s,
        final(cpu).pc == old(cpu).pc,
{
    let m = cpu.read(operand);
    let r = cpu.a;
    compare_with(cpu, r, m);
}

/// ComPare X register.
pub fn cpx<M: Memory>(cpu: &mut CPU<M>, operand: Operand)
    requires
        old(cpu).inv(),
    ensures
        final(cpu).inv(),
        M::v_clock(final(cpu).bus@) == M::v_clock(old(cpu).bus@),
        final(cpu).p.0 == spec_cmp_flags(
            old(cpu).p.0,
            old(cpu).x,
            M::v_read_result(old(cpu).bus@, operand),
        ),
        final(cpu).bus@ == M::v_post_read(old(cpu).bus@, operand),
        final(cpu).cycles == old(cpu).cycles.wrapping_add(1),
        final(cpu).a == old(cpu).a,
        final(cpu).x == old(cpu).x,
        final(cpu).y == old(cpu).y,
        final(cpu).s == old(cpu).s,
        final(cpu).pc == old(cpu).pc,
{
    let m = cpu.read(operand);
    let r = cpu.x;
    compare_with(cpu, r, m);
}

/// ComPare Y register.
pub fn cpy<M: Memory>(cpu: &mut CPU<M>, operand: Operand)
    requires
        old(cpu).inv(),
    ensures
        final(cpu).inv(),
        M::v_clock(final(cpu).bus@) == M::v_clock(old(cpu).bus@),
        final(cpu).p.0 == spec_cmp_flags(
            old(cpu).p.0,
            old(cpu).y,
            M::v_read_result(old(cpu).bus@, operand),
        ),
        final(cpu).bus@ == M::v_post_read(old(cpu).bus@, operand),
        final(cpu).cycles == old(cpu).cycles.wrapping_add(1),
        final(cpu).a == old(cpu).a,
        final(cpu).x == old(cpu).x,
        final(cpu).y == old(cpu).y,
        final(cpu).s == old(cpu).s,
        final(cpu).pc == old(cpu).pc,
{
    let m = cpu.read(operand);
    let r = cpu.y;
    compare_with(cpu, r, m);
}

/// INCrement memory: exactly one read at the operand address, then exactly one
/// write of the updated value, then one dummy cycle.
pub fn inc<M: Memory>(cpu: &mut CPU<M>, operand: Operand)
    requires
        old(cpu).inv(),
    ensures
        final(cpu).inv(),
        M::v_clock(final(cpu).bus@) == M::v_clock(old(cpu).bus@),
        ({
            let m = M::v_read_result(old(cpu).bus@, operand);
            let m1 = m.wrapping_add(1);
            final(cpu).p.0 == spec_zn(old(cpu).p.0, m1) && final(cpu).bus@ == M::v_post_write(
                M::v_post_read(old(cpu).bus@, operand),
                operand,
                m1,
            )
        }),
        final(cpu).cycles == spec_write_cycles(old(cpu).cycles.wrapping_add(1), operand)
            .wrapping_add(1),
        final(cpu).a == old(cpu).a,
        final(cpu).x == old(cpu).x,
        final(cpu).y == old(cpu).y,
        final(cpu).s == old(cpu).s,
        final(cpu).pc == old(cpu).pc,
{
    let m = cpu.read(operand);
    let m1 = m.wrapping_add(1);
    cpu.p.update_zn(m1);
    cpu.write(operand, m1);
    cpu.cycles = cpu.cycles.wrapping_add(1);
}

/// DECrement memory: exactly one read at the operand address, then exactly one
/// write of the updated value, then one dummy cycle.
pub fn dec<M: Memory>(cpu: &mut CPU<M>, operand: Operand)
    requires
        old(cpu).inv(),
    ensures
        final(cpu).inv(),
        M::v_clock(final(cpu).bus@) == M::v_clock(old(cpu).bus@),
        ({
            let m = M::v_read_result(old(cpu).bus@, operand);
            let m1 = m.wrapping_sub(1);
            final(cpu).p.0 == spec_zn(old(cpu).p.0, m1) && final(cpu).bus@ == M::v_post_write(
                M::v_post_read(old(cpu).bus@, operand),
                operand,
                m1,
            )
        }),
        final(cpu).cycles == spec_write_cycles(old(cpu).cycles.wrapping_add(1), operand)
            .wrapping_add(1),
        final(cpu).a == old(cpu).a,
        final(cpu).x == old(cpu).x,
        final(cpu).y == old(cpu).y,
        final(cpu).s == old(cpu).s,
        final(cpu).pc == old(cpu).pc,
{
    let m = cpu.read(operand);
    let m1 = m.wrapping_sub(1);
    cpu.p.update_zn(m1);
    cpu.write(operand, m1);
    cpu.cycles = cpu.cycles.wrapping_add(1);
}

/// INcrement X register.
pub fn inx<M: Memory>(cpu: &mut CPU<M>)
    requires
        old(cpu).inv(),
    ensures
        final(cpu).inv(),
        M::v_clock(final(cpu).bus@) == M::v_clock(old(cpu).bus@),
        final(cpu).x == old(cpu).x.wrapping_add(1),
        final(cpu).p.0 == spec_zn(old(cpu).p.0, old(cpu).x.wrapping_add(1)),
        final(cpu).bus@ == old(cpu).bus@,
        final(cpu).cycles == old(cpu).cycles.wrapping_add(1),
        final(cpu).a == old(cpu).a,
        final(cpu).y == old(cpu).y,
        final(cpu).s == old(cpu).s,
        final(cpu).pc == old(cpu).pc,
{
    let v = cpu.x.wrapping_add(1);
    cpu.x = v;
    cpu.p.update_zn(v);
    cpu.cycles = cpu.cycles.wrapping_add(1);
}

/// INcrement Y register.
pub fn iny<M: Memory>(cpu: &mut CPU<M>)
    requires
        old(cpu).inv(),
    ensures
        final(cpu).inv(),
        M::v_clock(final(cpu).bus@) == M::v_clock(old(cpu).bus@),
        final(cpu).y == old(cpu).y.wrapping_add(1),
        final(cpu).p.0 == spec_zn(old(cpu).p.0, old(cpu).y.wrapping_add(1)),
        final(cpu).bus@ == old(cpu).bus@,
        final(cpu).cycles == old(cpu).cycles.wrapping_add(1),
        final(cpu).a == old(cpu).a,
        final(cpu).x == old(cpu).x,
        final(cpu).s == old(cpu).s,
        final(cpu).pc == old(cpu).pc,
{
    let v = cpu.y.wrapping_add(1);
    cpu.y = v;
    cpu.p.update_zn(v);
    cpu.cycles = cpu.cycles.wrapping_add(1);
}

/// DEcrement X register.
pub fn dex<M: Memory>(cpu: &mut CPU<M>)
    requires
        old(cpu).inv(),
    ensures
        final(cpu).inv(),
        M::v_clock(final(cpu).bus@) == M::v_clock(old(cpu).bus@),
        final(cpu).x == old(cpu).x.wrapping_sub(1),
        final(cpu).p.0 == spec_zn(old(cpu).p.0, old(cpu).x.wrapping_sub(1)),
        final(cpu).bus@ == old(cpu).bus@,
        final(cpu).cycles == old(cpu).cycles.wrapping_add(1),
        final(cpu).a == old(cpu).a,
        final(cpu).y == old(cpu).y,
        final(cpu).s == old(cpu).s,
        final(cpu).pc == old(cpu).pc,
{
    let v = cpu.x.wrapping_sub(1);
    cpu.x = v;
    cpu.p.update_zn(v);
    cpu.cycles = cpu.cycles.wrapping_add(1);
}

/// DEcrement Y register.
pub fn dey<M: Memory>(cpu: &mut CPU<M>)
    requires
        old(cpu).inv(),
    ensures
        final(cpu).inv(),
        M::v_clock(final(cpu).bus@) == M::v_clock(old(cpu).bus@),
        final(cpu).y == old(cpu).y.wrapping_sub(1),
        final(cpu).p.0 == spec_zn(old(cpu).p.0, old(cpu).y.wrapping_sub(1)),
        final(cpu).bus@ == old(cpu).bus@,
        final(cpu).cycles == old(cpu).cycles.wrapping_add(1),
        final(cpu).a == old(cpu).a,
        final(cpu).x == old(cpu).x,
        final(cpu).s == old(cpu).s,
        final(cpu).pc == old(cpu).pc,
{
    let v = cpu.y.wrapping_sub(1);
    cpu.y = v;
    cpu.p.update_zn(v);
    cpu.cycles = cpu.cycles.wrapping_add(1);
}

/// The shifted value and the status after ASL on `m` under `p`.
pub open spec fn spec_asl(m: u8) -> u8 {
    m << 1
}

/// The shifted value after LSR on `m`.
pub open spec fn spec_lsr(m: u8) -> u8 {
    m >> 1
}

/// The rotated value after ROL of `m` with carry-in from `p`.
pub open spec fn spec_rol(m: u8, p: u8) -> u8 {
    (m << 1) | spec_carry_in(p)
}

/// The rotated value after ROR of `m` with carry-in from `p`.
pub open spec fn spec_ror(m: u8, p: u8) -> u8 {
    (m >> 1) | (spec_carry_in(p) << 7)
}

/// Arithmetic Shift Left on memory: one read, then one write of the shifted value.
pub fn asl<M: Memory>(cpu: &mut CPU<M>, operand: Operand)
    requires
        old(cpu).inv(),
    ensures
        final(cpu).inv(),
        M::v_clock(final(cpu).bus@) == M::v_clock(old(cpu).bus@),
        ({
            let m = M::v_read_result(old(cpu).bus@, operand);
            let m1 = spec_asl(m);
            final(cpu).p.0 == spec_zn(spec_update(old(cpu).p.0, FLAG_C, m & 0x80 == 0x80), m1) && final(cpu).bus@ == M::v_post_write(M::v_post_read(old(cpu).bus@, operand), operand, m1)
        }),
        final(cpu).cycles == spec_write_cycles(old(cpu).cycles.wrapping_add(1), operand)
            .wrapping_add(1),
        final(cpu).a == old(cpu).a,
        final(cpu).x == old(cpu).x,
        final(cpu).y == old(cpu).y,
        final(cpu).s == old(cpu).s,
        final(cpu).pc == old(cpu).pc,
{
    let m = cpu.read(operand);
    cpu.p.update(FLAG_C, m & 0x80 == 0x80);
    let m1 = m << 1;
    cpu.p.update_zn(m1);
    cpu.write(operand, m1);
    cpu.cycles = cpu.cycles.wrapping_add(1);
}

/// Arithmetic Shift Left on the accumulator.
pub fn asl_for_accumelator<M: Memory>(cpu: &mut CPU<M>)
    requires
        old(cpu).inv(),
    ensures
        final(cpu).inv(),
        M::v_clock(final(cpu).bus@) == M::v_clock(old(cpu).bus@),
        ({
            let m = old(cpu).a;
            let m1 = spec_asl(m);
            final(cpu).a == m1 && final(cpu).p.0 == spec_zn(
                spec_update(old(cpu).p.0, FLAG_C, m & 0x80 == 0x80),
                m1,
            )
        }),
        final(cpu).bus@ == old(cpu).bus@,
        final(cpu).cycles == old(cpu).cycles.wrapping_add(1),
        final(cpu).x == old(cpu).x,
        final(cpu).y == old(cpu).y,
        final(cpu).s == old(cpu).s,
        final(cpu).pc == old(cpu).pc,
{
    let m = cpu.a;
    cpu.p.update(FLAG_C, m & 0x80 == 0x80);
    let m1 = m << 1;
    cpu.a = m1;
    cpu.p.update_zn(m1);
    cpu.cycles = cpu.cycles.wrapping_add(1);
}

/// Logical Shift Right on memory: one read, then one write of the shifted value.
pub fn lsr<M: Memory>(cpu: &mut CPU<M>, operand: Operand)
    requires
        old(cpu).inv(),
    ensures
        final(cpu).inv(),
        M::v_clock(final(cpu).bus@) == M::v_clock(old(cpu).bus@),
        ({
            let m = M::v_read_result(old(cpu).bus@, operand);
            let m1 = spec_lsr(m);
            final(cpu).p.0 == spec_zn(spec_update(old(cpu).p.0, FLAG_C, m & 0x01 == 0x01), m1) && final(cpu).bus@ == M::v_post_write(M::v_post_read(old(cpu).bus@, operand), operand, m1)
        }),
        final(cpu).cycles == spec_write_cycles(old(cpu).cycles.wrapping_add(1), operand)
            .wrapping_add(1),
        final(cpu).a == old(cpu).a,
        final(cpu).x == old(cpu).x,
        final(cpu).y == old(cpu).y,
        final(cpu).s == old(cpu).s,
        final(cpu).pc == old(cpu).pc,
{
    let m = cpu.read(operand);
    cpu.p.update(FLAG_C, m & 0x01 == 0x01);
    let m1 = m >> 1;
    cpu.p.update_zn(m1);
    cpu.write(operand, m1);
    cpu.cycles = cpu.cycles.wrapping_add(1);
}

/// Logical Shift Right on the accumulator.
pub fn lsr_for_accumelator<M: Memory>(cpu: &mut CPU<M>)
    requires
        old(cpu).inv(),
    ensures
        final(cpu).inv(),
        M::v_clock(final(cpu).bus@) == M::v_clock(old(cpu).bus@),
        ({
            let m = old(cpu).a;
            let m1 = spec_lsr(m);
            final(cpu).a == m1 && final(cpu).p.0 == spec_zn(
                spec_update(old(cpu).p.0, FLAG_C, m & 0x01 == 0x01),
                m1,
            )
        }),
        final(cpu).bus@ == old(cpu).bus@,
        final(cpu).cycles == old(cpu).cycles.wrapping_add(1),
        final(cpu).x == old(cpu).x,
        final(cpu).y == old(cpu).y,
        final(cpu).s == old(cpu).s,
        final(cpu).pc == old(cpu).pc,
{
    let m = cpu.a;
    cpu.p.update(FLAG_C, m & 0x01 == 0x01);
    let m1 = m >> 1;
    cpu.a = m1;
    cpu.p.update_zn(m1);
    cpu.cycles = cpu.cycles.wrapping_add(1);
}

/// ROtate Left through the carry, on memory: one read, then one write.
pub fn rol<M: Memory>(cpu: &mut CPU<M>, operand: Operand)
    requires
        old(cpu).inv(),
    ensures
        final(cpu).inv(),
        M::v_clock(final(cpu).bus@) == M::v_clock(old(cpu).bus@),
        ({
            let m = M::v_read_result(old(cpu).bus@, operand);
            let m1 = spec_rol(m, old(cpu).p.0);
            final(cpu).p.0 == spec_zn(spec_update(old(cpu).p.0, FLAG_C, m & 0x80 == 0x80), m1) && final(cpu).bus@ == M::v_post_write(M::v_post_read(old(cpu).bus@, operand), operand, m1)
        }),
        final(cpu).cycles == spec_write_cycles(old(cpu).cycles.wrapping_add(1), operand)
            .wrapping_add(1),
        final(cpu).a == old(cpu).a,
        final(cpu).x == old(cpu).x,
        final(cpu).y == old(cpu).y,
        final(cpu).s == old(cpu).s,
        final(cpu).pc == old(cpu).pc,
{
    let m = cpu.read(operand);
    let c_in: u8 = if cpu.p.is_set(FLAG_C) {
        1
    } else {
        0
    };
    let m1 = (m << 1) | c_in;
    cpu.p.update(FLAG_C, m & 0x80 == 0x80);
    cpu.p.update_zn(m1);
    cpu.write(operand, m1);
    cpu.cycles = cpu.cycles.wrapping_add(1);
}

/// ROtate Left through the carry, on the accumulator.
pub fn rol_for_accumelator<M: Memory>(cpu: &mut CPU<M>)
    requires
        old(cpu).inv(),
    ensures
        final(cpu).inv(),
        M::v_clock(final(cpu).bus@) == M::v_clock(old(cpu).bus@),
        ({
            let m = old(cpu).a;
            let m1 = spec_rol(m, old(cpu).p.0);
            final(cpu).a == m1 && final(cpu).p.0 == spec_zn(
                spec_update(old(cpu).p.0, FLAG_C, m & 0x80 == 0x80),
                m1,
            )
        }),
        final(cpu).bus@ == old(cpu).bus@,
        final(cpu).cycles == old(cpu).cycles.wrapping_add(1),
        final(cpu).x == old(cpu).x,
        final(cpu).y == old(cpu).y,
        final(cpu).s == old(cpu).s,
        final(cpu).pc == old(cpu).pc,
{
    let m = cpu.a;
    let c_in: u8 = if cpu.p.is_set(FLAG_C) {
        1
    } else {
        0
    };
    let m1 = (m << 1) | c_in;
    cpu.p.update(FLAG_C, m & 0x80 == 0x80);
    cpu.a = m1;
    cpu.p.update_zn(m1);
    cpu.cycles = cpu.cycles.wrapping_add(1);
}

/// ROtate Right through the carry, on memory: one read, then one write.
pub fn ror<M: Memory>(cpu: &mut CPU<M>, operand: Operand)
    requires
        old(cpu).inv(),
    ensures
        final(cpu).inv(),
        M::v_clock(final(cpu).bus@) == M::v_clock(old(cpu).bus@),
        ({
            let m = M::v_read_result(old(cpu).bus@, operand);
            let m1 = spec_ror(m, old(cpu).p.0);
            final(cpu).p.0 == spec_zn(spec_update(old(cpu).p.0, FLAG_C, m & 0x01 == 0x01), m1) && final(cpu).bus@ == M::v_post_write(M::v_post_read(old(cpu).bus@, operand), operand, m1)
        }),
        final(cpu).cycles == spec_write_cycles(old(cpu).cycles.wrapping_add(1), operand)
            .wrapping_add(1),
        final(cpu).a == old(cpu).a,
        final(cpu).x == old(cpu).x,
        final(cpu).y == old(cpu).y,
        final(cpu).s == old(cpu).s,
        final(cpu).pc == old(cpu).pc,
{
    let m = cpu.read(operand);
    let c_in: u8 = if cpu.p.is_set(FLAG_C) {
        1
    } else {
        0
    };
    let m1 = (m >> 1) | (c_in << 7);
    cpu.p.update(FLAG_C, m & 0x01 == 0x01);
    cpu.p.update_zn(m1);
    cpu.write(operand, m1);
    cpu.cycles = cpu.cycles.wrapping_add(1);
}

/// ROtate Right through the carry, on the accumulator.
pub fn ror_for_accumelator<M: Memory>(cpu: &mut CPU<M>)
    requires
        old(cpu).inv(),
    ensures
        final(cpu).inv(),
        M::v_clock(final(cpu).bus@) == M::v_clock(old(cpu).bus@),
        ({
            let m = old(cpu).a;
            let m1 = spec_ror(m, old(cpu).p.0);
            final(cpu).a == m1 && final(cpu).p.0 == spec_zn(
                spec_update(old(cpu).p.0, FLAG_C, m & 0x01 == 0x01),
                m1,
            )
        }),
        final(cpu).bus@ == old(cpu).bus@,
        final(cpu).cycles == old(cpu).cycles.wrapping_add(1),
        final(cpu).x == old(cpu).x,
        final(cpu).y == old(cpu).y,
        final(cpu).s == old(cpu).s,
        final(cpu).pc == old(cpu).pc,
{
    let m = cpu.a;
    let c_in: u8 = if cpu.p.is_set(FLAG_C) {
        1
    } else {
        0
    };
    let m1 = (m >> 1) | (c_in << 7);
    cpu.p.update(FLAG_C, m & 0x01 == 0x01);
    cpu.a = m1;
    cpu.p.update_zn(m1);
    cpu.cycles = cpu.cycles.wrapping_add(1);
}

/// JuMP: PC becomes the operand address.
pub fn jmp<M: Memory>(cpu: &mut CPU<M>, operand: Operand)
    requires
        old(cpu).inv(),
    ensures
        final(cpu).inv(),
        M::v_clock(final(cpu).bus@) == M::v_clock(old(cpu).bus@),
        final(cpu).pc == operand,
        final(cpu).bus@ == old(cpu).bus@,
        final(cpu).cycles == old(cpu).cycles,
        final(cpu).a == old(cpu).a,
        final(cpu).x == old(cpu).x,
        final(cpu).y == old(cpu).y,
        final(cpu).s == old(cpu).s,
        final(cpu).p == old(cpu).p,
{
    cpu.pc = operand;
}

/// Jump to SubRoutine: pushes PC - 1, then jumps.
pub fn jsr<M: Memory>(cpu: &mut CPU<M>, operand: Operand)
    requires
        old(cpu).inv(),
    ensures
        final(cpu).inv(),
        M::v_clock(final(cpu).bus@) == M::v_clock(old(cpu).bus@),
        ({
            let ret = old(cpu).pc.wrapping_sub(1);
            let s0 = old(cpu).s;
            let v1 = M::v_post_write(old(cpu).bus@, spec_stack_addr(s0), (ret >> 8) as u8);
            final(cpu).bus@ == M::v_post_write(
                v1,
                spec_stack_addr(s0.wrapping_sub(1)),
                (ret & 0xFF) as u8,
            )
        }),
        final(cpu).pc == operand,
        final(cpu).s == old(cpu).s.wrapping_sub(2),
        final(cpu).cycles == old(cpu).cycles.wrapping_add(3),
        final(cpu).a == old(cpu).a,
        final(cpu).x == old(cpu).x,
        final(cpu).y == old(cpu).y,
        final(cpu).p == old(cpu).p,
{
    let ret = cpu.pc.wrapping_sub(1);
    cpu.push_stack_word(ret);
    cpu.cycles = cpu.cycles.wrapping_add(1);
    cpu.pc = operand;
}

/// ReTurn from Subroutine: PC becomes the pulled word plus one.
pub fn rts<M: Memory>(cpu: &mut CPU<M>)
    requires
        old(cpu).inv(),
    ensures
        final(cpu).inv(),
        M::v_clock(final(cpu).bus@) == M::v_clock(old(cpu).bus@),
        ({
            let a1 = spec_stack_addr(old(cpu).s.wrapping_add(1));
            let a2 = spec_stack_addr(old(cpu).s.wrapping_add(2));
            let v0 = old(cpu).bus@;
            let low = M::v_read_result(v0, a1);
            let v1 = M::v_post_read(v0, a1);
            let high = M::v_read_result(v1, a2);
            final(cpu).pc == (((high as u16) << 8) | (low as u16)).wrapping_add(1) && final(cpu).bus@ == M::v_post_read(v1, a2)
        }),
        final(cpu).s == old(cpu).s.wrapping_add(2),
        final(cpu).cycles == old(cpu).cycles.wrapping_add(5),
        final(cpu).a == old(cpu).a,
        final(cpu).x == old(cpu).x,
        final(cpu).y == old(cpu).y,
        final(cpu).p == old(cpu).p,
{
    cpu.cycles = cpu.cycles.wrapping_add(3);
    let w = cpu.pull_stack_word();
    cpu.pc = w.wrapping_add(1);
}

/// ReTurn from Interrupt: pulls P (B cleared, R forced), then pulls PC.
pub fn rti<M: Memory>(cpu: &mut CPU<M>)
    requires
        old(cpu).inv(),
    ensures
        final(cpu).inv(),
        M::v_clock(final(cpu).bus@) == M::v_clock(old(cpu).bus@),
        ({
            let a1 = spec_stack_addr(old(cpu).s.wrapping_add(1));
            let a2 = spec_stack_addr(old(cpu).s.wrapping_add(2));
            let a3 = spec_stack_addr(old(cpu).s.wrapping_add(3));
            let v0 = old(cpu).bus@;
            let pulled_p = M::v_read_result(v0, a1);
            let v1 = M::v_post_read(v0, a1);
            let low = M::v_read_result(v1, a2);
            let v2 = M::v_post_read(v1, a2);
            let high = M::v_read_result(v2, a3);
            final(cpu).p.0 == spec_plp_restored(pulled_p) && final(cpu).pc == (((high as u16) << 8)
                | (low as u16)) && final(cpu).bus@ == M::v_post_read(v2, a3)
        }),
        final(cpu).s == old(cpu).s.wrapping_add(3),
        final(cpu).cycles == old(cpu).cycles.wrapping_add(5),
        final(cpu).a == old(cpu).a,
        final(cpu).x == old(cpu).x,
        final(cpu).y == old(cpu).y,
{
    cpu.cycles = cpu.cycles.wrapping_add(2);
    let v = cpu.pull_stack();
    cpu.p = CPUStatus::new((v & !FLAG_B) | FLAG_R);
    let w = cpu.pull_stack_word();
    cpu.pc = w;
}

/// The PC after a taken branch: the signed 8-bit offset in the low byte of
/// `operand`, added to PC after the operand fetch.
#[verifier::opaque]
pub open spec fn spec_branch_target(pc: u16, operand: u16) -> u16 {
    let off = (operand & 0xFF) as u8;
    if off < 0x80 {
        pc.wrapping_add(off as u16)
    } else {
        pc.wrapping_add(off as u16).wrapping_sub(0x100)
    }
}

/// Whether a taken branch crosses a page boundary: the target lands on a
/// page other than the branch opcode's own (the opcode sits two bytes
/// before the post-operand PC).
#[verifier::opaque]
pub open spec fn spec_branch_crossed(pc: u16, operand: u16) -> bool {
    (spec_branch_target(pc, operand) & 0xFF00) != (pc.wrapping_sub(2) & 0xFF00)
}

/// Take a branch: one extra cycle, two when the target is on another page.
pub fn branch<M: Memory>(cpu: &mut CPU<M>, operand: Operand)
    requires
        old(cpu).inv(),
    ensures
        final(cpu).inv(),
        M::v_clock(final(cpu).bus@) == M::v_clock(old(cpu).bus@),
        final(cpu).pc == spec_branch_target(old(cpu).pc, operand),
        final(cpu).cycles == old(cpu).cycles.wrapping_add(
            if spec_branch_crossed(old(cpu).pc, operand) {
                2
            } else {
                1
            },
        ),
        final(cpu).bus@ == old(cpu).bus@,
        final(cpu).a == old(cpu).a,
        final(cpu).x == old(cpu).x,
        final(cpu).y == old(cpu).y,
        final(cpu).s == old(cpu).s,
        final(cpu).p == old(cpu).p,
{
    proof {
        reveal(spec_branch_target);
        reveal(spec_branch_crossed);
    }
    cpu.cycles = cpu.cycles.wrapping_add(1);
    let off: u8 = (operand & 0xFF) as u8;
    let t = cpu.pc.wrapping_add(off as u16);
    let target = if off >= 0x80 {
        t.wrapping_sub(0x100)
    } else {
        t
    };
    let opcode_page = cpu.pc.wrapping_sub(2) & 0xFF00;
    if (target & 0xFF00) != opcode_page {
        cpu.cycles = cpu.cycles.wrapping_add(1);
    }
    cpu.pc = target;
}

/// Branch if Carry Clear.
pub fn bcc<M: Memory>(cpu: &mut CPU<M>, operand: Operand)
    requires
        old(cpu).inv(),
    ensures
        final(cpu).inv(),
        M::v_clock(final(cpu).bus@) == M::v_clock(old(cpu).bus@),
        ({
            let taken = old(cpu).p.0 & FLAG_C != FLAG_C;
            let crossed = spec_branch_crossed(old(cpu).pc, operand);
            if taken {
                final(cpu).pc == spec_branch_target(old(cpu).pc, operand) && final(cpu).cycles
                    == old(cpu).cycles.wrapping_add(
                    if crossed {
                        2
                    } else {
                        1
                    },
                )
            } else {
                final(cpu).pc == old(cpu).pc && final(cpu).cycles == old(cpu).cycles
            }
        }),
        final(cpu).bus@ == old(cpu).bus@,
        final(cpu).a == old(cpu).a,
        final(cpu).x == old(cpu).x,
        final(cpu).y == old(cpu).y,
        final(cpu).s == old(cpu).s,
        final(cpu).p == old(cpu).p,
{
    if !cpu.p.is_set(FLAG_C) {
        branch(cpu, operand);
    }
}

/// Branch if Carry Set.
pub fn bcs<M: Memory>(cpu: &mut CPU<M>, operand: Operand)
    requires
        old(cpu).inv(),
    ensures
        final(cpu).inv(),
        M::v_clock(final(cpu).bus@) == M::v_clock(old(cpu).bus@),
        ({
            let taken = old(cpu).p.0 & FLAG_C == FLAG_C;
            let crossed = spec_branch_crossed(old(cpu).pc, operand);
            if taken {
                final(cpu).pc == spec_branch_target(old(cpu).pc, operand) && final(cpu).cycles
                    == old(cpu).cycles.wrapping_add(
                    if crossed {
                        2
                    } else {
                        1
                    },
                )
            } else {
                final(cpu).pc == old(cpu).pc && final(cpu).cycles == old(cpu).cycles
            }
        }),
        final(cpu).bus@ == old(cpu).bus@,
        final(cpu).a == old(cpu).a,
        final(cpu).x == old(cpu).x,
        final(cpu).y == old(cpu).y,
        final(cpu).s == old(cpu).s,
        final(cpu).p == old(cpu).p,
{
    if cpu.p.is_set(FLAG_C) {
        branch(cpu, operand);
    }
}

/// Branch if EQual.
pub fn beq<M: Memory>(cpu: &mut CPU<M>, operand: Operand)
    requires
        old(cpu).inv(),
    ensures
        final(cpu).inv(),
        M::v_clock(final(cpu).bus@) == M::v_clock(old(cpu).bus@),
        ({
            let taken = old(cpu).p.0 & FLAG_Z == FLAG_Z;
            let crossed = spec_branch_crossed(old(cpu).pc, operand);
            if taken {
                final(cpu).pc == spec_branch_target(old(cpu).pc, operand) && final(cpu).cycles
                    == old(cpu).cycles.wrapping_add(
                    if crossed {
                        2
                    } else {
                        1
                    },
                )
            } else {
                final(cpu).pc == old(cpu).pc && final(cpu).cycles == old(cpu).cycles
            }
        }),
        final(cpu).bus@ == old(cpu).bus@,
        final(cpu).a == old(cpu).a,
        final(cpu).x == old(cpu).x,
        final(cpu).y == old(cpu).y,
        final(cpu).s == old(cpu).s,
        final(cpu).p == old(cpu).p,
{
    if cpu.p.is_set(FLAG_Z) {
        branch(cpu, operand);
    }
}

/// Branch if MInus.
pub fn bmi<M: Memory>(cpu: &mut CPU<M>, operand: Operand)
    requires
        old(cpu).inv(),
    ensures
        final(cpu).inv(),
        M::v_clock(final(cpu).bus@) == M::v_clock(old(cpu).bus@),
        ({
            let taken = old(cpu).p.0 & FLAG_N == FLAG_N;
            let crossed = spec_branch_crossed(old(cpu).pc, operand);
            if taken {
                final(cpu).pc == spec_branch_target(old(cpu).pc, operand) && final(cpu).cycles
                    == old(cpu).cycles.wrapping_add(
                    if crossed {
                        2
                    } else {
                        1
                    },
                )
            } else {
                final(cpu).pc == old(cpu).pc && final(cpu).cycles == old(cpu).cycles
            }
        }),
        final(cpu).bus@ == old(cpu).bus@,
        final(cpu).a == old(cpu).a,
        final(cpu).x == old(cpu).x,
        final(cpu).y == old(cpu).y,
        final(cpu).s == old(cpu).s,
        final(cpu).p == old(cpu).p,
{
    if cpu.p.is_set(FLAG_N) {
        branch(cpu, operand);
    }
}

/// Branch if Not Equal.
pub fn bne<M: Memory>(cpu: &mut CPU<M>, operand: Operand)
    requires
        old(cpu).inv(),
    ensures
        final(cpu).inv(),
        M::v_clock(final(cpu).bus@) == M::v_clock(old(cpu).bus@),
        ({
            let taken = old(cpu).p.0 & FLAG_Z != FLAG_Z;
            let crossed = spec_branch_crossed(old(cpu).pc, operand);
            if taken {
                final(cpu).pc == spec_branch_target(old(cpu).pc, operand) && final(cpu).cycles
                    == old(cpu).cycles.wrapping_add(
                    if crossed {
                        2
                    } else {
                        1
                    },
                )
            } else {
                final(cpu).pc == old(cpu).pc && final(cpu).cycles == old(cpu).cycles
            }
        }),
        final(cpu).bus@ == old(cpu).bus@,
        final(cpu).a == old(cpu).a,
        final(cpu).x == old(cpu).x,
        final(cpu).y == old(cpu).y,
        final(cpu).s == old(cpu).s,
        final(cpu).p == old(cpu).p,
{
    if !cpu.p.is_set(FLAG_Z) {
        branch(cpu, operand);
    }
}

/// Branch if PLus.
pub fn bpl<M: Memory>(cpu: &mut CPU<M>, operand: Operand)
    requires
        old(cpu).inv(),
    ensures
        final(cpu).inv(),
        M::v_clock(final(cpu).bus@) == M::v_clock(old(cpu).bus@),
        ({
            let taken = old(cpu).p.0 & FLAG_N != FLAG_N;
            let crossed = spec_branch_crossed(old(cpu).pc, operand);
            if taken {
                final(cpu).pc == spec_branch_target(old(cpu).pc, operand) && final(cpu).cycles
                    == old(cpu).cycles.wrapping_add(
                    if crossed {
                        2
                    } else {
                        1
                    },
                )
            } else {
                final(cpu).pc == old(cpu).pc && final(cpu).cycles == old(cpu).cycles
            }
        }),
        final(cpu).bus@ == old(cpu).bus@,
        final(cpu).a == old(cpu).a,
        final(cpu).x == old(cpu).x,
        final(cpu).y == old(cpu).y,
        final(cpu).s == old(cpu).s,
        final(cpu).p == old(cpu).p,
{
    if !cpu.p.is_set(FLAG_N) {
        branch(cpu, operand);
    }
}

/// Branch if oVerflow Clear.
pub fn bvc<M: Memory>(cpu: &mut CPU<M>, operand: Operand)
    requires
        old(cpu).inv(),
    ensures
        final(cpu).inv(),
        M::v_clock(final(cpu).bus@) == M::v_clock(old(cpu).bus@),
        ({
            let taken = old(cpu).p.0 & FLAG_V != FLAG_V;
            let crossed = spec_branch_crossed(old(cpu).pc, operand);
            if taken {
                final(cpu).pc == spec_branch_target(old(cpu).pc, operand) && final(cpu).cycles
                    == old(cpu).cycles.wrapping_add(
                    if crossed {
                        2
                    } else {
                        1
                    },
                )
            } else {
                final(cpu).pc == old(cpu).pc && final(cpu).cycles == old(cpu).cycles
            }
        }),
        final(cpu).bus@ == old(cpu).bus@,
        final(cpu).a == old(cpu).a,
        final(cpu).x == old(cpu).x,
        final(cpu).y == old(cpu).y,
        final(cpu).s == old(cpu).s,
        final(cpu).p == old(cpu).p,
{
    if !cpu.p.is_set(FLAG_V) {
        branch(cpu, operand);
    }
}

/// Branch if oVerflow Set.
pub fn bvs<M: Memory>(cpu: &mut CPU<M>, operand: Operand)
    requires
        old(cpu).inv(),
    ensures
        final(cpu).inv(),
        M::v_clock(final(cpu).bus@) == M::v_clock(old(cpu).bus@),
        ({
            let taken = old(cpu).p.0 & FLAG_V == FLAG_V;
            let crossed = spec_branch_crossed(old(cpu).pc, operand);
            if taken {
                final(cpu).pc == spec_branch_target(old(cpu).pc, operand) && final(cpu).cycles
                    == old(cpu).cycles.wrapping_add(
                    if crossed {
                        2
                    } else {
                        1
                    },
                )
            } else {
                final(cpu).pc == old(cpu).pc && final(cpu).cycles == old(cpu).cycles
            }
        }),
        final(cpu).bus@ == old(cpu).bus@,
        final(cpu).a == old(cpu).a,
        final(cpu).x == old(cpu).x,
        final(cpu).y == old(cpu).y,
        final(cpu).s == old(cpu).s,
        final(cpu).p == old(cpu).p,
{
    if cpu.p.is_set(FLAG_V) {
        branch(cpu, operand);
    }
}

/// CLear Carry.
pub fn clc<M: Memory>(cpu: &mut CPU<M>)
    requires
        old(cpu).inv(),
    ensures
        final(cpu).inv(),
        M::v_clock(final(cpu).bus@) == M::v_clock(old(cpu).bus@),
        final(cpu).p.0 == old(cpu).p.0 & !FLAG_C,
        final(cpu).bus@ == old(cpu).bus@,
        final(cpu).cycles == old(cpu).cycles.wrapping_add(1),
        final(cpu).a == old(cpu).a,
        final(cpu).x == old(cpu).x,
        final(cpu).y == old(cpu).y,
        final(cpu).s == old(cpu).s,
        final(cpu).pc == old(cpu).pc,
{
    cpu.p.unset(FLAG_C);
    cpu.cycles = cpu.cycles.wrapping_add(1);
}

/// CLear Decimal.
pub fn cld<M: Memory>(cpu: &mut CPU<M>)
    requires
        old(cpu).inv(),
    ensures
        final(cpu).inv(),
        M::v_clock(final(cpu).bus@) == M::v_clock(old(cpu).bus@),
        final(cpu).p.0 == old(cpu).p.0 & !FLAG_D,
        final(cpu).bus@ == old(cpu).bus@,
        final(cpu).cycles == old(cpu).cycles.wrapping_add(1),
        final(cpu).a == old(cpu).a,
        final(cpu).x == old(cpu).x,
        final(cpu).y == old(cpu).y,
        final(cpu).s == old(cpu).s,
        final(cpu).pc == old(cpu).pc,
{
    cpu.p.unset(FLAG_D);
    cpu.cycles = cpu.cycles.wrapping_add(1);
}

/// CLear Interrupt-disable.
pub fn cli<M: Memory>(cpu: &mut CPU<M>)
    requires
        old(cpu).inv(),
    ensures
        final(cpu).inv(),
        M::v_clock(final(cpu).bus@) == M::v_clock(old(cpu).bus@),
        final(cpu).p.0 == old(cpu).p.0 & !FLAG_I,
        final(cpu).bus@ == old(cpu).bus@,
        final(cpu).cycles == old(cpu).cycles.wrapping_add(1),
        final(cpu).a == old(cpu).a,
        final(cpu).x == old(cpu).x,
        final(cpu).y == old(cpu).y,
        final(cpu).s == old(cpu).s,
        final(cpu).pc == old(cpu).pc,
{
    cpu.p.unset(FLAG_I);
    cpu.cycles = cpu.cycles.wrapping_add(1);
}

/// CLear oVerflow.
pub fn clv<M: Memory>(cpu: &mut CPU<M>)
    requires
        old(cpu).inv(),
    ensures
        final(cpu).inv(),
        M::v_clock(final(cpu).bus@) == M::v_clock(old(cpu).bus@),
        final(cpu).p.0 == old(cpu).p.0 & !FLAG_V,
        final(cpu).bus@ == old(cpu).bus@,
        final(cpu).cycles == old(cpu).cycles.wrapping_add(1),
        final(cpu).a == old(cpu).a,
        final(cpu).x == old(cpu).x,
        final(cpu).y == old(cpu).y,
        final(cpu).s == old(cpu).s,
        final(cpu).pc == old(cpu).pc,
{
    cpu.p.unset(FLAG_V);
    cpu.cycles = cpu.cycles.wrapping_add(1);
}

/// SEt Carry.
pub fn sec<M: Memory>(cpu: &mut CPU<M>)
    requires
        old(cpu).inv(),
    ensures
        final(cpu).inv(),
        M::v_clock(final(cpu).bus@) == M::v_clock(old(cpu).bus@),
        final(cpu).p.0 == old(cpu).p.0 | FLAG_C,
        final(cpu).bus@ == old(cpu).bus@,
        final(cpu).cycles == old(cpu).cycles.wrapping_add(1),
        final(cpu).a == old(cpu).a,
        final(cpu).x == old(cpu).x,
        final(cpu).y == old(cpu).y,
        final(cpu).s == old(cpu).s,
        final(cpu).pc == old(cpu).pc,
{
    cpu.p.set(FLAG_C);
    cpu.cycles = cpu.cycles.wrapping_add(1);
}

/// SEt Decimal.
pub fn sed<M: Memory>(cpu: &mut CPU<M>)
    requires
        old(cpu).inv(),
    ensures
        final(cpu).inv(),
        M::v_clock(final(cpu).bus@) == M::v_clock(old(cpu).bus@),
        final(cpu).p.0 == old(cpu).p.0 | FLAG_D,
        final(cpu).bus@ == old(cpu).bus@,
        final(cpu).cycles == old(cpu).cycles.wrapping_add(1),
        final(cpu).a == old(cpu).a,
        final(cpu).x == old(cpu).x,
        final(cpu).y == old(cpu).y,
        final(cpu).s == old(cpu).s,
        final(cpu).pc == old(cpu).pc,
{
    cpu.p.set(FLAG_D);
    cpu.cycles = cpu.cycles.wrapping_add(1);
}

/// SEt Interrupt-disable.
pub fn sei<M: Memory>(cpu: &mut CPU<M>)
    requires
        old(cpu).inv(),
    ensures
        final(cpu).inv(),
        M::v_clock(final(cpu).bus@) == M::v_clock(old(cpu).bus@),
        final(cpu).p.0 == old(cpu).p.0 | FLAG_I,
        final(cpu).bus@ == old(cpu).bus@,
        final(cpu).cycles == old(cpu).cycles.wrapping_add(1),
        final(cpu).a == old(cpu).a,
        final(cpu).x == old(cpu).x,
        final(cpu).y == old(cpu).y,
        final(cpu).s == old(cpu).s,
        final(cpu).pc == old(cpu).pc,
{
    cpu.p.set(FLAG_I);
    cpu.cycles = cpu.cycles.wrapping_add(1);
}

/// BReaK: pre-advances PC by one, pushes PC and P with the B bit set,
/// sets I, and loads the 0xFFFE/F vector.
pub fn brk<M: Memory>(cpu: &mut CPU<M>)
    requires
        old(cpu).inv(),
    ensures
        final(cpu).inv(),
        M::v_clock(final(cpu).bus@) == M::v_clock(old(cpu).bus@),
        ({
            let v0 = old(cpu).bus@;
            let s0 = old(cpu).s;
            let pc1 = old(cpu).pc.wrapping_add(1);
            let v1 = M::v_post_write(v0, spec_stack_addr(s0), (pc1 >> 8) as u8);
            let v2 = M::v_post_write(v1, spec_stack_addr(s0.wrapping_sub(1)), (pc1 & 0xFF) as u8);
            let v3 = M::v_post_write(
                v2,
                spec_stack_addr(s0.wrapping_sub(2)),
                spec_php_pushed(old(cpu).p.0),
            );
            let low = M::v_read_result(v3, 0xFFFE);
            let v4 = M::v_post_read(v3, 0xFFFE);
            let high = M::v_read_result(v4, 0xFFFF);
            final(cpu).pc == ((low as u16) | ((high as u16) << 8)) && final(cpu).bus@
                == M::v_post_read(v4, 0xFFFF)
        }),
        final(cpu).p.0 == (old(cpu).p.0 | FLAG_I),
        final(cpu).s == old(cpu).s.wrapping_sub(3),
        final(cpu).cycles == old(cpu).cycles.wrapping_add(6),
        final(cpu).a == old(cpu).a,
        final(cpu).x == old(cpu).x,
        final(cpu).y == old(cpu).y,
{
    cpu.pc = cpu.pc.wrapping_add(1);
    let pc = cpu.pc;
    cpu.push_stack_word(pc);
    let v = cpu.p.bits() | OPERATED_B;
    cpu.push_stack(v);
    cpu.p.set(FLAG_I);
    cpu.cycles = cpu.cycles.wrapping_add(1);
    cpu.pc = cpu.read_word(0xFFFE);
}

/// No OPeration.
pub fn nop<M: Memory>(cpu: &mut CPU<M>)
    requires
        old(cpu).inv(),
    ensures
        final(cpu).inv(),
        M::v_clock(final(cpu).bus@) == M::v_clock(old(cpu).bus@),
        final(cpu).bus@ == old(cpu).bus@,
        final(cpu).cycles == old(cpu).cycles.wrapping_add(1),
        final(cpu).a == old(cpu).a,
        final(cpu).x == old(cpu).x,
        final(cpu).y == old(cpu).y,
        final(cpu).s == old(cpu).s,
        final(cpu).p == old(cpu).p,
        final(cpu).pc == old(cpu).pc,
{
    cpu.cycles = cpu.cycles.wrapping_add(1);
}

/// Load Accumulator and X register.
pub fn lax<M: Memory>(cpu: &mut CPU<M>, operand: Operand)
    requires
        old(cpu).inv(),
    ensures
        final(cpu).inv(),
        M::v_clock(final(cpu).bus@) == M::v_clock(old(cpu).bus@),
        ({
            let m = M::v_read_result(old(cpu).bus@, operand);
            final(cpu).a == m && final(cpu).x == m && final(cpu).p.0 == spec_zn(old(cpu).p.0, m)
        }),
        final(cpu).bus@ == M::v_post_read(old(cpu).bus@, operand),
        final(cpu).cycles == old(cpu).cycles.wrapping_add(1),
        final(cpu).y == old(cpu).y,
        final(cpu).s == old(cpu).s,
        final(cpu).pc == old(cpu).pc,
{
    let m = cpu.read(operand);
    cpu.a = m;
    cpu.x = m;
    cpu.p.update_zn(m);
}

/// Store Accumulator AND X register.
pub fn sax<M: Memory>(cpu: &mut CPU<M>, operand: Operand)
    requires
        old(cpu).inv(),
    ensures
        final(cpu).inv(),
        M::v_clock(final(cpu).bus@) == M::v_clock(old(cpu).bus@),
        final(cpu).bus@ == M::v_post_write(
            old(cpu).bus@,
            operand,
            old(cpu).a & old(cpu).x,
        ),
        final(cpu).cycles == spec_write_cycles(old(cpu).cycles, operand),
        final(cpu).a == old(cpu).a,
        final(cpu).x == old(cpu).x,
        final(cpu).y == old(cpu).y,
        final(cpu).s == old(cpu).s,
        final(cpu).p == old(cpu).p,
        final(cpu).pc == old(cpu).pc,
{
    let v = cpu.a & cpu.x;
    cpu.write(operand, v);
}

/// Decrement memory and ComPare to accumulator: one read, one write of the
/// decremented value, then the comparison.
pub fn dcp<M: Memory>(cpu: &mut CPU<M>, operand: Operand)
    requires
        old(cpu).inv(),
    ensures
        final(cpu).inv(),
        M::v_clock(final(cpu).bus@) == M::v_clock(old(cpu).bus@),
        ({
            let m = M::v_read_result(old(cpu).bus@, operand);
            let m1 = m.wrapping_sub(1);
            final(cpu).p.0 == spec_cmp_flags(spec_zn(old(cpu).p.0, m1), old(cpu).a, m1) && final(cpu).bus@ == M::v_post_write(M::v_post_read(old(cpu).bus@, operand), operand, m1)
        }),
        final(cpu).cycles == spec_write_cycles(old(cpu).cycles.wrapping_add(1), operand)
            .wrapping_add(1),
        final(cpu).a == old(cpu).a,
        final(cpu).x == old(cpu).x,
        final(cpu).y == old(cpu).y,
        final(cpu).s == old(cpu).s,
        final(cpu).pc == old(cpu).pc,
{
    let m = cpu.read(operand);
    let m1 = m.wrapping_sub(1);
    cpu.p.update_zn(m1);
    cpu.write(operand, m1);
    cpu.cycles = cpu.cycles.wrapping_add(1);
    let a = cpu.a;
    compare_with(cpu, a, m1);
}

/// Increment memory and SuBtract with carry: one read, one write of the
/// incremented value, then the subtraction.
pub fn isb<M: Memory>(cpu: &mut CPU<M>, operand: Operand)
    requires
        old(cpu).inv(),
    ensures
        final(cpu).inv(),
        M::v_clock(final(cpu).bus@) == M::v_clock(old(cpu).bus@),
        ({
            let m = M::v_read_result(old(cpu).bus@, operand);
            let m1 = m.wrapping_add(1);
            let p1 = spec_zn(old(cpu).p.0, m1);
            final(cpu).a == spec_adc_result(old(cpu).a, !m1, p1) && final(cpu).p.0
                == spec_adc_flags(old(cpu).a, !m1, p1) && final(cpu).bus@ == M::v_post_write(
                M::v_post_read(old(cpu).bus@, operand),
                operand,
                m1,
            )
        }),
        final(cpu).cycles == spec_write_cycles(old(cpu).cycles.wrapping_add(1), operand)
            .wrapping_add(1),
        final(cpu).x == old(cpu).x,
        final(cpu).y == old(cpu).y,
        final(cpu).s == old(cpu).s,
        final(cpu).pc == old(cpu).pc,
{
    let m = cpu.read(operand);
    let m1 = m.wrapping_add(1);
    cpu.p.update_zn(m1);
    cpu.write(operand, m1);
    cpu.cycles = cpu.cycles.wrapping_add(1);
    adc_with(cpu, !m1);
}

/// Arithmetic Shift Left then OR with accumulator: one read, one write.
pub fn slo<M: Memory>(cpu: &mut CPU<M>, operand: Operand)
    requires
        old(cpu).inv(),
    ensures
        final(cpu).inv(),
        M::v_clock(final(cpu).bus@) == M::v_clock(old(cpu).bus@),
        ({
            let m = M::v_read_result(old(cpu).bus@, operand);
            let m1 = spec_asl(m);
            let p1 = spec_zn(spec_update(old(cpu).p.0, FLAG_C, m & 0x80 == 0x80), m1);
            final(cpu).a == (old(cpu).a | m1) && final(cpu).p.0 == spec_zn(p1, old(cpu).a | m1)
                && final(cpu).bus@ == M::v_post_write(
                M::v_post_read(old(cpu).bus@, operand),
                operand,
                m1,
            )
        }),
        final(cpu).cycles == spec_write_cycles(old(cpu).cycles.wrapping_add(1), operand)
            .wrapping_add(1),
        final(cpu).x == old(cpu).x,
        final(cpu).y == old(cpu).y,
        final(cpu).s == old(cpu).s,
        final(cpu).pc == old(cpu).pc,
{
    let m = cpu.read(operand);
    cpu.p.update(FLAG_C, m & 0x80 == 0x80);
    let m1 = m << 1;
    cpu.p.update_zn(m1);
    cpu.write(operand, m1);
    cpu.cycles = cpu.cycles.wrapping_add(1);
    let r = cpu.a | m1;
    cpu.a = r;
    cpu.p.update_zn(r);
}

/// Rotate Left then AND with accumulator: one read, one write.
pub fn rla<M: Memory>(cpu: &mut CPU<M>, operand: Operand)
    requires
        old(cpu).inv(),
    ensures
        final(cpu).inv(),
        M::v_clock(final(cpu).bus@) == M::v_clock(old(cpu).bus@),
        ({
            let m = M::v_read_result(old(cpu).bus@, operand);
            let m1 = spec_rol(m, old(cpu).p.0);
            let p1 = spec_zn(
                spec_update(
                    old(cpu).p.0 & !(FLAG_C | FLAG_Z | FLAG_N),
                    FLAG_C,
                    m & 0x80 == 0x80,
                ),
                m1,
            );
            final(cpu).a == (old(cpu).a & m1) && final(cpu).p.0 == spec_zn(p1, old(cpu).a & m1)
                && final(cpu).bus@ == M::v_post_write(
                M::v_post_read(old(cpu).bus@, operand),
                operand,
                m1,
            )
        }),
        final(cpu).cycles == spec_write_cycles(old(cpu).cycles.wrapping_add(1), operand)
            .wrapping_add(1),
        final(cpu).x == old(cpu).x,
        final(cpu).y == old(cpu).y,
        final(cpu).s == old(cpu).s,
        final(cpu).pc == old(cpu).pc,
{
    let m = cpu.read(operand);
    let c_in: u8 = if cpu.p.is_set(FLAG_C) {
        1
    } else {
        0
    };
    let m1 = (m << 1) | c_in;
    cpu.p.unset(FLAG_C | FLAG_Z | FLAG_N);
    cpu.p.update(FLAG_C, m & 0x80 == 0x80);
    cpu.p.update_zn(m1);
    cpu.write(operand, m1);
    cpu.cycles = cpu.cycles.wrapping_add(1);
    let r = cpu.a & m1;
    cpu.a = r;
    cpu.p.update_zn(r);
}

/// Logical Shift Right then EOR with accumulator: one read, one write.
pub fn sre<M: Memory>(cpu: &mut CPU<M>, operand: Operand)
    requires
        old(cpu).inv(),
    ensures
        final(cpu).inv(),
        M::v_clock(final(cpu).bus@) == M::v_clock(old(cpu).bus@),
        ({
            let m = M::v_read_result(old(cpu).bus@, operand);
            let m1 = spec_lsr(m);
            let p1 = spec_zn(spec_update(old(cpu).p.0, FLAG_C, m & 0x01 == 0x01), m1);
            final(cpu).a == (old(cpu).a ^ m1) && final(cpu).p.0 == spec_zn(p1, old(cpu).a ^ m1)
                && final(cpu).bus@ == M::v_post_write(
                M::v_post_read(old(cpu).bus@, operand),
                operand,
                m1,
            )
        }),
        final(cpu).cycles == spec_write_cycles(old(cpu).cycles.wrapping_add(1), operand)
            .wrapping_add(1),
        final(cpu).x == old(cpu).x,
        final(cpu).y == old(cpu).y,
        final(cpu).s == old(cpu).s,
        final(cpu).pc == old(cpu).pc,
{
    let m = cpu.read(operand);
    cpu.p.update(FLAG_C, m & 0x01 == 0x01);
    let m1 = m >> 1;
    cpu.p.update_zn(m1);
    cpu.write(operand, m1);
    cpu.cycles = cpu.cycles.wrapping_add(1);
    let r = cpu.a ^ m1;
    cpu.a = r;
    cpu.p.update_zn(r);
}

/// Rotate Right then ADd with carry: one read, one write.
pub fn rra<M: Memory>(cpu: &mut CPU<M>, operand: Operand)
    requires
        old(cpu).inv(),
    ensures
        final(cpu).inv(),
        M::v_clock(final(cpu).bus@) == M::v_clock(old(cpu).bus@),
        ({
            let m = M::v_read_result(old(cpu).bus@, operand);
            let m1 = spec_ror(m, old(cpu).p.0);
            let p1 = spec_zn(spec_update(old(cpu).p.0, FLAG_C, m & 0x01 == 0x01), m1);
            final(cpu).a == spec_adc_result(old(cpu).a, m1, p1) && final(cpu).p.0
                == spec_adc_flags(old(cpu).a, m1, p1) && final(cpu).bus@ == M::v_post_write(
                M::v_post_read(old(cpu).bus@, operand),
                operand,
                m1,
            )
        }),
        final(cpu).cycles == spec_write_cycles(old(cpu).cycles.wrapping_add(1), operand)
            .wrapping_add(1),
        final(cpu).x == old(cpu).x,
        final(cpu).y == old(cpu).y,
        final(cpu).s == old(cpu).s,
        final(cpu).pc == old(cpu).pc,
{
    let m = cpu.read(operand);
    let c_in: u8 = if cpu.p.is_set(FLAG_C) {
        1
    } else {
        0
    };
    let m1 = (m >> 1) | (c_in << 7);
    cpu.p.update(FLAG_C, m & 0x01 == 0x01);
    cpu.p.update_zn(m1);
    cpu.write(operand, m1);
    cpu.cycles = cpu.cycles.wrapping_add(1);
    adc_with(cpu, m1);
}



/// One executed instruction as a state transition, given the state after
/// operand evaluation and the operand it yielded.  Each arm restates the
/// matching instruction function's contract.
#[verifier::opaque]
pub open spec fn spec_execute_instruction<M: Memory>(
    s: CPUState<M::V>,
    opcode: Opcode,
    op: u16,
) -> CPUState<M::V> {
    let m = M::v_read_result(s.bus, op);
    let pr = M::v_post_read(s.bus, op);
    match (opcode.mnemonic, opcode.addressing_mode) {
        (Mnemonic::LDA, _) => CPUState {
            a: m,
            p: spec_zn(s.p, m),
            bus: pr,
            cycles: s.cycles.wrapping_add(1),
            ..s
        },
        (Mnemonic::LDX, _) => CPUState {
            x: m,
            p: spec_zn(s.p, m),
            bus: pr,
            cycles: s.cycles.wrapping_add(1),
            ..s
        },
        (Mnemonic::LDY, _) => CPUState {
            y: m,
            p: spec_zn(s.p, m),
            bus: pr,
            cycles: s.cycles.wrapping_add(1),
            ..s
        },
        (Mnemonic::STA, AddressingMode::IndirectIndexed) => CPUState {
            bus: M::v_post_write(s.bus, op, s.a),
            cycles: spec_write_cycles(s.cycles, op).wrapping_add(1),
            ..s
        },
        (Mnemonic::STA, _) => CPUState {
            bus: M::v_post_write(s.bus, op, s.a),
            cycles: spec_write_cycles(s.cycles, op),
            ..s
        },
        (Mnemonic::STX, _) => CPUState {
            bus: M::v_post_write(s.bus, op, s.x),
            cycles: spec_write_cycles(s.cycles, op),
            ..s
        },
        (Mnemonic::STY, _) => CPUState {
            bus: M::v_post_write(s.bus, op, s.y),
            cycles: spec_write_cycles(s.cycles, op),
            ..s
        },
        (Mnemonic::TAX, _) => CPUState {
            x: s.a,
            p: spec_zn(s.p, s.a),
            cycles: s.cycles.wrapping_add(1),
            ..s
        },
        (Mnemonic::TSX, _) => CPUState {
            x: s.s,
            p: spec_zn(s.p, s.s),
            cycles: s.cycles.wrapping_add(1),
            ..s
        },
        (Mnemonic::TAY, _) => CPUState {
            y: s.a,
            p: spec_zn(s.p, s.a),
            cycles: s.cycles.wrapping_add(1),
            ..s
        },
        (Mnemonic::TXA, _) => CPUState {
            a: s.x,
            p: spec_zn(s.p, s.x),
            cycles: s.cycles.wrapping_add(1),
            ..s
        },
        (Mnemonic::TXS, _) => CPUState { s: s.x, cycles: s.cycles.wrapping_add(1), ..s },
        (Mnemonic::TYA, _) => CPUState {
            a: s.y,
            p: spec_zn(s.p, s.y),
            cycles: s.cycles.wrapping_add(1),
            ..s
        },
        (Mnemonic::PHA, _) => CPUState {
            bus: M::v_post_write(s.bus, spec_stack_addr(s.s), s.a),
            s: s.s.wrapping_sub(1),
            cycles: s.cycles.wrapping_add(2),
            ..s
        },
        (Mnemonic::PHP, _) => CPUState {
            bus: M::v_post_write(s.bus, spec_stack_addr(s.s), spec_php_pushed(s.p)),
            s: s.s.wrapping_sub(1),
            cycles: s.cycles.wrapping_add(2),
            ..s
        },
        (Mnemonic::PLA, _) => {
            let pulled = M::v_read_result(s.bus, spec_stack_addr(s.s.wrapping_add(1)));
            CPUState {
                a: pulled,
                p: spec_zn(s.p, pulled),
                bus: M::v_post_read(s.bus, spec_stack_addr(s.s.wrapping_add(1))),
                s: s.s.wrapping_add(1),
                cycles: s.cycles.wrapping_add(3),
                ..s
            }
        },
        (Mnemonic::PLP, _) => {
            let pulled = M::v_read_result(s.bus, spec_stack_addr(s.s.wrapping_add(1)));
            CPUState {
                p: spec_plp_restored(pulled),
                bus: M::v_post_read(s.bus, spec_stack_addr(s.s.wrapping_add(1))),
                s: s.s.wrapping_add(1),
                cycles: s.cycles.wrapping_add(3),
                ..s
            }
        },
        (Mnemonic::AND, _) => CPUState {
            a: s.a & m,
            p: spec_zn(s.p, s.a & m),
            bus: pr,
            cycles: s.cycles.wrapping_add(1),
            ..s
        },
        (Mnemonic::EOR, _) => CPUState {
            a: s.a ^ m,
            p: spec_zn(s.p, s.a ^ m),
            bus: pr,
            cycles: s.cycles.wrapping_add(1),
            ..s
        },
        (Mnemonic::ORA, _) => CPUState {
            a: s.a | m,
            p: spec_zn(s.p, s.a | m),
            bus: pr,
            cycles: s.cycles.wrapping_add(1),
            ..s
        },
        (Mnemonic::BIT, _) => CPUState {
            p: spec_update(
                spec_update(spec_update(s.p, FLAG_Z, s.a & m == 0), FLAG_V, m & 0x40 == 0x40),
                FLAG_N,
                m & 0x80 == 0x80,
            ),
            bus: pr,
            cycles: s.cycles.wrapping_add(1),
            ..s
        },
        (Mnemonic::ADC, _) => CPUState {
            a: spec_adc_result(s.a, m, s.p),
            p: spec_adc_flags(s.a, m, s.p),
            bus: pr,
            cycles: s.cycles.wrapping_add(1),
            ..s
        },
        (Mnemonic::SBC, _) => CPUState {
            a: spec_adc_result(s.a, !m, s.p),
            p: spec_adc_flags(s.a, !m, s.p),
            bus: pr,
            cycles: s.cycles.wrapping_add(1),
            ..s
        },
        (Mnemonic::CMP, _) => CPUState {
            p: spec_cmp_flags(s.p, s.a, m),
            bus: pr,
            cycles: s.cycles.wrapping_add(1),
            ..s
        },
        (Mnemonic::CPX, _) => CPUState {
            p: spec_cmp_flags(s.p, s.x, m),
            bus: pr,
            cycles: s.cycles.wrapping_add(1),
            ..s
        },
        (Mnemonic::CPY, _) => CPUState {
            p: spec_cmp_flags(s.p, s.y, m),
            bus: pr,
            cycles: s.cycles.wrapping_add(1),
            ..s
        },
        (Mnemonic::INC, _) => CPUState {
            p: spec_zn(s.p, m.wrapping_add(1)),
            bus: M::v_post_write(pr, op, m.wrapping_add(1)),
            cycles: spec_write_cycles(s.cycles.wrapping_add(1), op).wrapping_add(1),
            ..s
        },
        (Mnemonic::INX, _) => CPUState {
            x: s.x.wrapping_add(1),
            p: spec_zn(s.p, s.x.wrapping_add(1)),
            cycles: s.cycles.wrapping_add(1),
            ..s
        },
        (Mnemonic::INY, _) => CPUState {
            y: s.y.wrapping_add(1),
            p: spec_zn(s.p, s.y.wrapping_add(1)),
            cycles: s.cycles.wrapping_add(1),
            ..s
        },
        (Mnemonic::DEC, _) => CPUState {
            p: spec_zn(s.p, m.wrapping_sub(1)),
            bus: M::v_post_write(pr, op, m.wrapping_sub(1)),
            cycles: spec_write_cycles(s.cycles.wrapping_add(1), op).wrapping_add(1),
            ..s
        },
        (Mnemonic::DEX, _) => CPUState {
            x: s.x.wrapping_sub(1),
            p: spec_zn(s.p, s.x.wrapping_sub(1)),
            cycles: s.cycles.wrapping_add(1),
            ..s
        },
        (Mnemonic::DEY, _) => CPUState {
            y: s.y.wrapping_sub(1),
            p: spec_zn(s.p, s.y.wrapping_sub(1)),
            cycles: s.cycles.wrapping_add(1),
            ..s
        },
        (Mnemonic::ASL, AddressingMode::Accumulator) => CPUState {
            a: spec_asl(s.a),
            p: spec_zn(spec_update(s.p, FLAG_C, s.a & 0x80 == 0x80), spec_asl(s.a)),
            cycles: s.cycles.wrapping_add(1),
            ..s
        },
        (Mnemonic::ASL, _) => CPUState {
            p: spec_zn(spec_update(s.p, FLAG_C, m & 0x80 == 0x80), spec_asl(m)),
            bus: M::v_post_write(pr, op, spec_asl(m)),
            cycles: spec_write_cycles(s.cycles.wrapping_add(1), op).wrapping_add(1),
            ..s
        },
        (Mnemonic::LSR, AddressingMode::Accumulator) => CPUState {
            a: spec_lsr(s.a),
            p: spec_zn(spec_update(s.p, FLAG_C, s.a & 0x01 == 0x01), spec_lsr(s.a)),
            cycles: s.cycles.wrapping_add(1),
            ..s
        },
        (Mnemonic::LSR, _) => CPUState {
            p: spec_zn(spec_update(s.p, FLAG_C, m & 0x01 == 0x01), spec_lsr(m)),
            bus: M::v_post_write(pr, op, spec_lsr(m)),
            cycles: spec_write_cycles(s.cycles.wrapping_add(1), op).wrapping_add(1),
            ..s
        },
        (Mnemonic::ROL, AddressingMode::Accumulator) => CPUState {
            a: spec_rol(s.a, s.p),
            p: spec_zn(spec_update(s.p, FLAG_C, s.a & 0x80 == 0x80), spec_rol(s.a, s.p)),
            cycles: s.cycles.wrapping_add(1),
            ..s
        },
        (Mnemonic::ROL, _) => CPUState {
            p: spec_zn(spec_update(s.p, FLAG_C, m & 0x80 == 0x80), spec_rol(m, s.p)),
            bus: M::v_post_write(pr, op, spec_rol(m, s.p)),
            cycles: spec_write_cycles(s.cycles.wrapping_add(1), op).wrapping_add(1),
            ..s
        },
        (Mnemonic::ROR, AddressingMode::Accumulator) => CPUState {
            a: spec_ror(s.a, s.p),
            p: spec_zn(spec_update(s.p, FLAG_C, s.a & 0x01 == 0x01), spec_ror(s.a, s.p)),
            cycles: s.cycles.wrapping_add(1),
            ..s
        },
        (Mnemonic::ROR, _) => CPUState {
            p: spec_zn(spec_update(s.p, FLAG_C, m & 0x01 == 0x01), spec_ror(m, s.p)),
            bus: M::v_post_write(pr, op, spec_ror(m, s.p)),
            cycles: spec_write_cycles(s.cycles.wrapping_add(1), op).wrapping_add(1),
            ..s
        },
        (Mnemonic::JMP, _) => CPUState { pc: op, ..s },
        (Mnemonic::JSR, _) => {
            let ret = s.pc.wrapping_sub(1);
            let v1 = M::v_post_write(s.bus, spec_stack_addr(s.s), (ret >> 8) as u8);
            CPUState {
                bus: M::v_post_write(v1, spec_stack_addr(s.s.wrapping_sub(1)), (ret & 0xFF) as u8),
                s: s.s.wrapping_sub(2),
                cycles: s.cycles.wrapping_add(3),
                pc: op,
                ..s
            }
        },
        (Mnemonic::RTS, _) => {
            let a1 = spec_stack_addr(s.s.wrapping_add(1));
            let a2 = spec_stack_addr(s.s.wrapping_add(2));
            let low = M::v_read_result(s.bus, a1);
            let v1 = M::v_post_read(s.bus, a1);
            let high = M::v_read_result(v1, a2);
            CPUState {
                pc: (((high as u16) << 8) | (low as u16)).wrapping_add(1),
                bus: M::v_post_read(v1, a2),
                s: s.s.wrapping_add(2),
                cycles: s.cycles.wrapping_add(5),
                ..s
            }
        },
        (Mnemonic::RTI, _) => {
            let a1 = spec_stack_addr(s.s.wrapping_add(1));
            let a2 = spec_stack_addr(s.s.wrapping_add(2));
            let a3 = spec_stack_addr(s.s.wrapping_add(3));
            let pulled_p = M::v_read_result(s.bus, a1);
            let v1 = M::v_post_read(s.bus, a1);
            let low = M::v_read_result(v1, a2);
            let v2 = M::v_post_read(v1, a2);
            let high = M::v_read_result(v2, a3);
            CPUState {
                p: spec_plp_restored(pulled_p),
                pc: ((high as u16) << 8) | (low as u16),
                bus: M::v_post_read(v2, a3),
                s: s.s.wrapping_add(3),
                cycles: s.cycles.wrapping_add(5),
                ..s
            }
        },
        (Mnemonic::BCC, _) => spec_branch(s, op, s.p & FLAG_C != FLAG_C),
        (Mnemonic::BCS, _) => spec_branch(s, op, s.p & FLAG_C == FLAG_C),
        (Mnemonic::BEQ, _) => spec_branch(s, op, s.p & FLAG_Z == FLAG_Z),
        (Mnemonic::BMI, _) => spec_branch(s, op, s.p & FLAG_N == FLAG_N),
        (Mnemonic::BNE, _) => spec_branch(s, op, s.p & FLAG_Z != FLAG_Z),
        (Mnemonic::BPL, _) => spec_branch(s, op, s.p & FLAG_N != FLAG_N),
        (Mnemonic::BVC, _) => spec_branch(s, op, s.p & FLAG_V != FLAG_V),
        (Mnemonic::BVS, _) => spec_branch(s, op, s.p & FLAG_V == FLAG_V),
        (Mnemonic::CLC, _) => CPUState { p: s.p & !FLAG_C, cycles: s.cycles.wrapping_add(1), ..s },
        (Mnemonic::CLD, _) => CPUState { p: s.p & !FLAG_D, cycles: s.cycles.wrapping_add(1), ..s },
        (Mnemonic::CLI, _) => CPUState { p: s.p & !FLAG_I, cycles: s.cycles.wrapping_add(1), ..s },
        (Mnemonic::CLV, _) => CPUState { p: s.p & !FLAG_V, cycles: s.cycles.wrapping_add(1), ..s },
        (Mnemonic::SEC, _) => CPUState { p: s.p | FLAG_C, cycles: s.cycles.wrapping_add(1), ..s },
        (Mnemonic::SED, _) => CPUState { p: s.p | FLAG_D, cycles: s.cycles.wrapping_add(1), ..s },
        (Mnemonic::SEI, _) => CPUState { p: s.p | FLAG_I, cycles: s.cycles.wrapping_add(1), ..s },
        (Mnemonic::BRK, _) => {
            let pc1 = s.pc.wrapping_add(1);
            let v1 = M::v_post_write(s.bus, spec_stack_addr(s.s), (pc1 >> 8) as u8);
            let v2 = M::v_post_write(v1, spec_stack_addr(s.s.wrapping_sub(1)), (pc1 & 0xFF) as u8);
            let v3 = M::v_post_write(
                v2,
                spec_stack_addr(s.s.wrapping_sub(2)),
                spec_php_pushed(s.p),
            );
            let low = M::v_read_result(v3, 0xFFFE);
            let v4 = M::v_post_read(v3, 0xFFFE);
            let high = M::v_read_result(v4, 0xFFFF);
            CPUState {
                pc: (low as u16) | ((high as u16) << 8),
                p: s.p | FLAG_I,
                s: s.s.wrapping_sub(3),
                cycles: s.cycles.wrapping_add(6),
                bus: M::v_post_read(v4, 0xFFFF),
                ..s
            }
        },
        (Mnemonic::NOP, _) => CPUState { cycles: s.cycles.wrapping_add(1), ..s },
        (Mnemonic::LAX, _) => CPUState {
            a: m,
            x: m,
            p: spec_zn(s.p, m),
            bus: pr,
            cycles: s.cycles.wrapping_add(1),
            ..s
        },
        (Mnemonic::SAX, _) => CPUState {
            bus: M::v_post_write(s.bus, op, s.a & s.x),
            cycles: spec_write_cycles(s.cycles, op),
            ..s
        },
        (Mnemonic::DCP, _) => CPUState {
            p: spec_cmp_flags(spec_zn(s.p, m.wrapping_sub(1)), s.a, m.wrapping_sub(1)),
            bus: M::v_post_write(pr, op, m.wrapping_sub(1)),
            cycles: spec_write_cycles(s.cycles.wrapping_add(1), op).wrapping_add(1),
            ..s
        },
        (Mnemonic::ISB, _) => {
            let m1 = m.wrapping_add(1);
            let p1 = spec_zn(s.p, m1);
            CPUState {
                a: spec_adc_result(s.a, !m1, p1),
                p: spec_adc_flags(s.a, !m1, p1),
                bus: M::v_post_write(pr, op, m1),
                cycles: spec_write_cycles(s.cycles.wrapping_add(1), op).wrapping_add(1),
                ..s
            }
        },
        (Mnemonic::SLO, _) => {
            let m1 = spec_asl(m);
            let p1 = spec_zn(spec_update(s.p, FLAG_C, m & 0x80 == 0x80), m1);
            CPUState {
                a: s.a | m1,
                p: spec_zn(p1, s.a | m1),
                bus: M::v_post_write(pr, op, m1),
                cycles: spec_write_cycles(s.cycles.wrapping_add(1), op).wrapping_add(1),
                ..s
            }
        },
        (Mnemonic::RLA, _) => {
            let m1 = spec_rol(m, s.p);
            let p1 = spec_zn(
                spec_update(s.p & !(FLAG_C | FLAG_Z | FLAG_N), FLAG_C, m & 0x80 == 0x80),
                m1,
            );
            CPUState {
                a: s.a & m1,
                p: spec_zn(p1, s.a & m1),
                bus: M::v_post_write(pr, op, m1),
                cycles: spec_write_cycles(s.cycles.wrapping_add(1), op).wrapping_add(1),
                ..s
            }
        },
        (Mnemonic::SRE, _) => {
            let m1 = spec_lsr(m);
            let p1 = spec_zn(spec_update(s.p, FLAG_C, m & 0x01 == 0x01), m1);
            CPUState {
                a: s.a ^ m1,
                p: spec_zn(p1, s.a ^ m1),
                bus: M::v_post_write(pr, op, m1),
                cycles: spec_write_cycles(s.cycles.wrapping_add(1), op).wrapping_add(1),
                ..s
            }
        },
        (Mnemonic::RRA, _) => {
            let m1 = spec_ror(m, s.p);
            let p1 = spec_zn(spec_update(s.p, FLAG_C, m & 0x01 == 0x01), m1);
            CPUState {
                a: spec_adc_result(s.a, m1, p1),
                p: spec_adc_flags(s.a, m1, p1),
                bus: M::v_post_write(pr, op, m1),
                cycles: spec_write_cycles(s.cycles.wrapping_add(1), op).wrapping_add(1),
                ..s
            }
        },
    }
}

/// A conditional branch as a state transition.
pub open spec fn spec_branch<V>(s: CPUState<V>, op: u16, taken: bool) -> CPUState<V> {
    if taken {
        CPUState {
            pc: spec_branch_target(s.pc, op),
            cycles: s.cycles.wrapping_add(
                if spec_branch_crossed(s.pc, op) {
                    2
                } else {
                    1
                },
            ),
            ..s
        }
    } else {
        s
    }
}

/// One whole instruction: operand evaluation, then execution.
pub open spec fn spec_execute<M: Memory>(s: CPUState<M::V>, opcode: Opcode) -> CPUState<M::V> {
    let r = spec_get_operand::<M>(s, opcode.addressing_mode);
    spec_execute_instruction::<M>(r.1, opcode, r.0)
}

/// One whole CPU step: the opcode fetch at PC, decode, then the
/// instruction.
pub open spec fn spec_step<M: Memory>(s: CPUState<M::V>) -> CPUState<M::V> {
    let instruction = M::v_read_result(s.bus, s.pc);
    let fetched = CPUState {
        pc: s.pc.wrapping_add(1),
        cycles: s.cycles.wrapping_add(1),
        bus: M::v_post_read(s.bus, s.pc),
        ..s
    };
    spec_execute::<M>(fetched, spec_decode(instruction))
}

/// The load, store, transfer, stack, logical, arithmetic and increment
/// group, dispatched separately from the control group.
pub open spec fn spec_is_access(m: Mnemonic) -> bool {
    m is LDA || m is LDX || m is LDY || m is STA || m is STX || m is STY || m is TAX || m is TSX
        || m is TAY || m is TXA || m is TXS || m is TYA || m is PHA || m is PHP || m is PLA
        || m is PLP || m is AND || m is EOR || m is ORA || m is BIT || m is ADC || m is SBC
        || m is CMP || m is CPX || m is CPY || m is INC || m is INX || m is INY || m is DEC
        || m is DEX || m is DEY
}

/// Execute one decoded instruction: evaluate the operand, then dispatch.
/// The machine ends in exactly the state `spec_execute` assigns; the cycle
/// counter advances by at most 620 (bus accesses, dummy cycles and the OAM
/// DMA stall included).
pub fn execute<M: Memory>(cpu: &mut CPU<M>, opcode: Opcode)
    requires
        old(cpu).inv(),
    ensures
        final(cpu).inv(),
        M::v_clock(final(cpu).bus@) == M::v_clock(old(cpu).bus@),
        cpu_state(final(cpu)) == spec_execute::<M>(cpu_state(old(cpu)), opcode),
        final(cpu).cycles == old(cpu).cycles.wrapping_add(
            final(cpu).cycles.wrapping_sub(old(cpu).cycles),
        ),
        final(cpu).cycles.wrapping_sub(old(cpu).cycles) <= 620,
{
    let operand = opcode.addressing_mode.get_operand(cpu);
    match opcode.mnemonic {
        Mnemonic::LDA | Mnemonic::LDX | Mnemonic::LDY | Mnemonic::STA | Mnemonic::STX
            | Mnemonic::STY | Mnemonic::TAX | Mnemonic::TSX | Mnemonic::TAY | Mnemonic::TXA
            | Mnemonic::TXS | Mnemonic::TYA | Mnemonic::PHA | Mnemonic::PHP | Mnemonic::PLA
            | Mnemonic::PLP | Mnemonic::AND | Mnemonic::EOR | Mnemonic::ORA | Mnemonic::BIT
            | Mnemonic::ADC | Mnemonic::SBC | Mnemonic::CMP | Mnemonic::CPX | Mnemonic::CPY
            | Mnemonic::INC | Mnemonic::INX | Mnemonic::INY | Mnemonic::DEC | Mnemonic::DEX
            | Mnemonic::DEY => execute_access(cpu, opcode, operand),
        _ => execute_control(cpu, opcode, operand),
    }
}

/// Dispatch for the load, store, transfer, stack, logical, arithmetic and
/// increment instructions.
fn execute_access<M: Memory>(cpu: &mut CPU<M>, opcode: Opcode, operand: Operand)
    requires
        old(cpu).inv(),
        spec_is_access(opcode.mnemonic),
    ensures
        final(cpu).inv(),
        M::v_clock(final(cpu).bus@) == M::v_clock(old(cpu).bus@),
        cpu_state(final(cpu)) == spec_execute_instruction::<M>(
            cpu_state(old(cpu)),
            opcode,
            operand,
        ),
        final(cpu).cycles == old(cpu).cycles.wrapping_add(
            final(cpu).cycles.wrapping_sub(old(cpu).cycles),
        ),
        final(cpu).cycles.wrapping_sub(old(cpu).cycles) <= 616,
{
    proof {
        reveal(spec_execute_instruction);
    }
    match (opcode.mnemonic, opcode.addressing_mode) {
        (Mnemonic::LDA, _) => lda(cpu, operand),
        (Mnemonic::LDX, _) => ldx(cpu, operand),
        (Mnemonic::LDY, _) => ldy(cpu, operand),
        (Mnemonic::STA, AddressingMode::IndirectIndexed) => {
            sta(cpu, operand);
            cpu.cycles = cpu.cycles.wrapping_add(1);
        },
        (Mnemonic::STA, _) => sta(cpu, operand),
        (Mnemonic::STX, _) => stx(cpu, operand),
        (Mnemonic::STY, _) => sty(cpu, operand),
        (Mnemonic::TAX, _) => tax(cpu),
        (Mnemonic::TSX, _) => tsx(cpu),
        (Mnemonic::TAY, _) => tay(cpu),
        (Mnemonic::TXA, _) => txa(cpu),
        (Mnemonic::TXS, _) => txs(cpu),
        (Mnemonic::TYA, _) => tya(cpu),
        (Mnemonic::PHA, _) => pha(cpu),
        (Mnemonic::PHP, _) => php(cpu),
        (Mnemonic::PLA, _) => pla(cpu),
        (Mnemonic::PLP, _) => plp(cpu),
        (Mnemonic::AND, _) => and(cpu, operand),
        (Mnemonic::EOR, _) => eor(cpu, operand),
        (Mnemonic::ORA, _) => ora(cpu, operand),
        (Mnemonic::BIT, _) => bit(cpu, operand),
        (Mnemonic::ADC, _) => adc(cpu, operand),
        (Mnemonic::SBC, _) => sbc(cpu, operand),
        (Mnemonic::CMP, _) => cmp(cpu, operand),
        (Mnemonic::CPX, _) => cpx(cpu, operand),
        (Mnemonic::CPY, _) => cpy(cpu, operand),
        (Mnemonic::INC, _) => inc(cpu, operand),
        (Mnemonic::INX, _) => inx(cpu),
        (Mnemonic::INY, _) => iny(cpu),
        (Mnemonic::DEC, _) => dec(cpu, operand),
        (Mnemonic::DEX, _) => dex(cpu),
        (Mnemonic::DEY, _) => dey(cpu),
        // unreachable: the dispatcher routes every other mnemonic elsewhere
        (_, _) => nop(cpu),
    }
}

/// Dispatch for the shift, jump, branch, flag-control and unofficial
/// instructions.
fn execute_control<M: Memory>(cpu: &mut CPU<M>, opcode: Opcode, operand: Operand)
    requires
        old(cpu).inv(),
        !spec_is_access(opcode.mnemonic),
    ensures
        final(cpu).inv(),
        M::v_clock(final(cpu).bus@) == M::v_clock(old(cpu).bus@),
        cpu_state(final(cpu)) == spec_execute_instruction::<M>(
            cpu_state(old(cpu)),
            opcode,
            operand,
        ),
        final(cpu).cycles == old(cpu).cycles.wrapping_add(
            final(cpu).cycles.wrapping_sub(old(cpu).cycles),
        ),
        final(cpu).cycles.wrapping_sub(old(cpu).cycles) <= 616,
{
    proof {
        reveal(spec_execute_instruction);
    }
    match (opcode.mnemonic, opcode.addressing_mode) {
        (Mnemonic::ASL, AddressingMode::Accumulator) => asl_for_accumelator(cpu),
        (Mnemonic::ASL, _) => asl(cpu, operand),
        (Mnemonic::LSR, AddressingMode::Accumulator) => lsr_for_accumelator(cpu),
        (Mnemonic::LSR, _) => lsr(cpu, operand),
        (Mnemonic::ROL, AddressingMode::Accumulator) => rol_for_accumelator(cpu),
        (Mnemonic::ROL, _) => rol(cpu, operand),
        (Mnemonic::ROR, AddressingMode::Accumulator) => ror_for_accumelator(cpu),
        (Mnemonic::ROR, _) => ror(cpu, operand),
        (Mnemonic::JMP, _) => jmp(cpu, operand),
        (Mnemonic::JSR, _) => jsr(cpu, operand),
        (Mnemonic::RTS, _) => rts(cpu),
        (Mnemonic::RTI, _) => rti(cpu),
        (Mnemonic::BCC, _) => bcc(cpu, operand),
        (Mnemonic::BCS, _) => bcs(cpu, operand),
        (Mnemonic::BEQ, _) => beq(cpu, operand),
        (Mnemonic::BMI, _) => bmi(cpu, operand),
        (Mnemonic::BNE, _) => bne(cpu, operand),
        (Mnemonic::BPL, _) => bpl(cpu, operand),
        (Mnemonic::BVC, _) => bvc(cpu, operand),
        (Mnemonic::BVS, _) => bvs(cpu, operand),
        (Mnemonic::CLC, _) => clc(cpu),
        (Mnemonic::CLD, _) => cld(cpu),
        (Mnemonic::CLI, _) => cli(cpu),
        (Mnemonic::CLV, _) => clv(cpu),
        (Mnemonic::SEC, _) => sec(cpu),
        (Mnemonic::SED, _) => sed(cpu),
        (Mnemonic::SEI, _) => sei(cpu),
        (Mnemonic::BRK, _) => brk(cpu),
        (Mnemonic::NOP, _) => nop(cpu),
        (Mnemonic::LAX, _) => lax(cpu, operand),
        (Mnemonic::SAX, _) => sax(cpu, operand),
        (Mnemonic::DCP, _) => dcp(cpu, operand),
        (Mnemonic::ISB, _) => isb(cpu, operand),
        (Mnemonic::SLO, _) => slo(cpu, operand),
        (Mnemonic::RLA, _) => rla(cpu, operand),
        (Mnemonic::SRE, _) => sre(cpu, operand),
        (Mnemonic::RRA, _) => rra(cpu, operand),
        // unreachable: the dispatcher routes every other mnemonic elsewhere
        (_, _) => nop(cpu),
    }
}


/// The indirect-JMP page-wrap bug, at the whole-step level: with the
/// pointer 0x30FF holding 0x40 and the start of its own page holding 0x80,
/// `JMP ($30FF)` lands at 0x8040 (not at the byte at 0x3100) and costs
/// exactly five cycles.
pub proof fn lemma_jmp_indirect_page_wrap(s: CPUState<Seq<u8>>)
    requires
        s.bus.len() == 0x10000,
        s.bus[s.pc as int] == 0x6C,
        s.bus[s.pc.wrapping_add(1) as int] == 0xFF,
        s.bus[s.pc.wrapping_add(2) as int] == 0x30,
        s.bus[0x30FF] == 0x40,
        s.bus[0x3000] == 0x80,
    ensures
        spec_step::<crate::types::FlatMemory>(s).pc == 0x8040,
        spec_step::<crate::types::FlatMemory>(s).cycles == s.cycles.wrapping_add(5),
{
    reveal(spec_get_operand);
    reveal(spec_execute_instruction);
    assert((0xFFu16 | ((0x30u16) << 8)) == 0x30FF) by (bit_vector);
    assert((0x30FFu16 & 0xFF00) | (0x3100u16 & 0x00FF) == 0x3000) by (bit_vector);
    assert((0x40u16 | ((0x80u16) << 8)) == 0x8040) by (bit_vector);
}

/// The branch page-cross timing, at the whole-step level: `BEQ +4` at
/// 0x80FE with Z set lands at 0x8104 and costs four cycles (fetch, operand,
/// taken, and the cross out of the opcode's page).
pub proof fn lemma_branch_page_cross_timing(s: CPUState<Seq<u8>>)
    requires
        s.bus.len() == 0x10000,
        s.pc == 0x80FE,
        s.bus[0x80FE] == 0xF0,
        s.bus[0x80FF] == 0x04,
        s.p & FLAG_Z == FLAG_Z,
    ensures
        spec_step::<crate::types::FlatMemory>(s).pc == 0x8104,
        spec_step::<crate::types::FlatMemory>(s).cycles == s.cycles.wrapping_add(4),
{
    reveal(spec_get_operand);
    reveal(spec_execute_instruction);
    reveal(spec_branch_target);
    reveal(spec_branch_crossed);
    assert((0x4u16 & 0xFF) as u8 == 0x4u8) by (bit_vector);
    assert((0x8104u16 & 0xFF00) != (0x80FEu16 & 0xFF00)) by (bit_vector);
}


} // verus!
