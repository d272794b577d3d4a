//! Instruction descriptors and the table that decodes opcode bytes into them.
use vstd::prelude::*;
use crate::cpu::{CPU, execute};
use crate::cpu_bus::CpuBus;

verus! {

/// The legal 6502 operations that the interpreter executes.
#[derive(Clone, Copy, Debug, PartialEq, Eq, Structural)]
pub enum Operation {
    LDA,
    LDX,
    LDY,
    STA,
    STX,
    STY,
    ADC,
    SBC,
    AND,
    EOR,
    ORA,
    CMP,
    CPX,
    CPY,
    ASL,
    LSR,
    ROL,
    ROR,
    BCC,
    BCS,
    BEQ,
    BMI,
    BNE,
    BPL,
    BVC,
    BVS,
    CLC,
    CLD,
    CLI,
    CLV,
    SEC,
    SED,
    SEI,
    TAX,
    TAY,
    TSX,
    TXA,
    TXS,
    TYA,
    JMP,
    JSR,
    RTS,
    BRK,
    RTI,
    PHA,
    PHP,
    PLA,
    PLP,
    NOP,
}

/// How an instruction finds its operand.
#[derive(Clone, Copy, Debug, PartialEq, Eq, Structural)]
pub enum AddressMode {
    ZeroPageIndexedX,
    ZeroPageIndexedY,
    AbsoluteIndexedX,
    AbsoluteIndexedY,
    IndexedIndirectX,
    IndexedIndirectY,
    Implicit,
    Accumulator,
    Immediate,
    ZeroPage,
    Absolute,
    Relative,
    Indirect,
}

/// A decoded instruction: what it does, how it addresses memory, and its base
/// cycle cost.
#[derive(Clone, Copy, Debug, PartialEq, Eq, Structural)]
pub struct Instruction {
    pub operation: Operation,
    pub addressing: AddressMode,
    pub cycles: usize,
}

/// Why an instruction could not be executed.
#[derive(Clone, Copy, Debug, PartialEq, Eq, Structural)]
pub enum CpuError {
    /// A handler received an addressing mode it does not accept.
    InvalidAddressMode,
    /// A handler received an operation it does not implement.
    InvalidOperation,
    /// The fetched byte is not a legal opcode.
    UnknownOpcode,
}

/// The descriptor of each legal opcode, with the cycle counts of the
/// published 6502 reference; `None` for every other byte.
pub open spec fn decode(opcode: u8) -> Option<Instruction> {
    match opcode {
        0x00 => Some(Instruction { operation: Operation::BRK, addressing: AddressMode::Implicit, cycles: 7 }),
        0x01 => Some(Instruction { operation: Operation::ORA, addressing: AddressMode::IndexedIndirectX, cycles: 6 }),
        0x05 => Some(Instruction { operation: Operation::ORA, addressing: AddressMode::ZeroPage, cycles: 3 }),
        0x06 => Some(Instruction { operation: Operation::ASL, addressing: AddressMode::ZeroPage, cycles: 5 }),
        0x08 => Some(Instruction { operation: Operation::PHP, addressing: AddressMode::Implicit, cycles: 3 }),
        0x09 => Some(Instruction { operation: Operation::ORA, addressing: AddressMode::Immediate, cycles: 2 }),
        0x0A => Some(Instruction { operation: Operation::ASL, addressing: AddressMode::Accumulator, cycles: 2 }),
        0x0D => Some(Instruction { operation: Operation::ORA, addressing: AddressMode::Absolute, cycles: 4 }),
        0x0E => Some(Instruction { operation: Operation::ASL, addressing: AddressMode::Absolute, cycles: 6 }),
        0x10 => Some(Instruction { operation: Operation::BPL, addressing: AddressMode::Relative, cycles: 2 }),
        0x11 => Some(Instruction { operation: Operation::ORA, addressing: AddressMode::IndexedIndirectY, cycles: 5 }),
        0x15 => Some(Instruction { operation: Operation::ORA, addressing: AddressMode::ZeroPageIndexedX, cycles: 4 }),
        0x16 => Some(Instruction { operation: Operation::ASL, addressing: AddressMode::ZeroPageIndexedX, cycles: 6 }),
        0x18 => Some(Instruction { operation: Operation::CLC, addressing: AddressMode::Implicit, cycles: 2 }),
        0x19 => Some(Instruction { operation: Operation::ORA, addressing: AddressMode::AbsoluteIndexedY, cycles: 4 }),
        0x1D => Some(Instruction { operation: Operation::ORA, addressing: AddressMode::AbsoluteIndexedX, cycles: 4 }),
        0x1E => Some(Instruction { operation: Operation::ASL, addressing: AddressMode::AbsoluteIndexedX, cycles: 7 }),
        0x20 => Some(Instruction { operation: Operation::JSR, addressing: AddressMode::Absolute, cycles: 6 }),
        0x21 => Some(Instruction { operation: Operation::AND, addressing: AddressMode::IndexedIndirectX, cycles: 6 }),
        0x25 => Some(Instruction { operation: Operation::AND, addressing: AddressMode::ZeroPage, cycles: 3 }),
        0x26 => Some(Instruction { operation: Operation::ROL, addressing: AddressMode::ZeroPage, cycles: 5 }),
        0x28 => Some(Instruction { operation: Operation::PLP, addressing: AddressMode::Implicit, cycles: 4 }),
        0x29 => Some(Instruction { operation: Operation::AND, addressing: AddressMode::Immediate, cycles: 2 }),
        0x2A => Some(Instruction { operation: Operation::ROL, addressing: AddressMode::Accumulator, cycles: 2 }),
        0x2D => Some(Instruction { operation: Operation::AND, addressing: AddressMode::Absolute, cycles: 4 }),
        0x2E => Some(Instruction { operation: Operation::ROL, addressing: AddressMode::Absolute, cycles: 6 }),
        0x30 => Some(Instruction { operation: Operation::BMI, addressing: AddressMode::Relative, cycles: 2 }),
        0x31 => Some(Instruction { operation: Operation::AND, addressing: AddressMode::IndexedIndirectY, cycles: 5 }),
        0x35 => Some(Instruction { operation: Operation::AND, addressing: AddressMode::ZeroPageIndexedX, cycles: 4 }),
        0x36 => Some(Instruction { operation: Operation::ROL, addressing: AddressMode::ZeroPageIndexedX, cycles: 6 }),
        0x38 => Some(Instruction { operation: Operation::SEC, addressing: AddressMode::Implicit, cycles: 2 }),
        0x39 => Some(Instruction { operation: Operation::AND, addressing: AddressMode::AbsoluteIndexedY, cycles: 4 }),
        0x3D => Some(Instruction { operation: Operation::AND, addressing: AddressMode::AbsoluteIndexedX, cycles: 4 }),
        0x3E => Some(Instruction { operation: Operation::ROL, addressing: AddressMode::AbsoluteIndexedX, cycles: 7 }),
        0x40 => Some(Instruction { operation: Operation::RTI, addressing: AddressMode::Implicit, cycles: 6 }),
        0x41 => Some(Instruction { operation: Operation::EOR, addressing: AddressMode::IndexedIndirectX, cycles: 6 }),
        0x45 => Some(Instruction { operation: Operation::EOR, addressing: AddressMode::ZeroPage, cycles: 3 }),
        0x46 => Some(Instruction { operation: Operation::LSR, addressing: AddressMode::ZeroPage, cycles: 5 }),
        0x48 => Some(Instruction { operation: Operation::PHA, addressing: AddressMode::Implicit, cycles: 3 }),
        0x49 => Some(Instruction { operation: Operation::EOR, addressing: AddressMode::Immediate, cycles: 2 }),
        0x4A => Some(Instruction { operation: Operation::LSR, addressing: AddressMode::Accumulator, cycles: 2 }),
        0x4C => Some(Instruction { operation: Operation::JMP, addressing: AddressMode::Absolute, cycles: 3 }),
        0x4D => Some(Instruction { operation: Operation::EOR, addressing: AddressMode::Absolute, cycles: 4 }),
        0x4E => Some(Instruction { operation: Operation::LSR, addressing: AddressMode::Absolute, cycles: 6 }),
        0x50 => Some(Instruction { operation: Operation::BVC, addressing: AddressMode::Relative, cycles: 2 }),
        0x51 => Some(Instruction { operation: Operation::EOR, addressing: AddressMode::IndexedIndirectY, cycles: 5 }),
        0x55 => Some(Instruction { operation: Operation::EOR, addressing: AddressMode::ZeroPageIndexedX, cycles: 4 }),
        0x56 => Some(Instruction { operation: Operation::LSR, addressing: AddressMode::ZeroPageIndexedX, cycles: 6 }),
        0x58 => Some(Instruction { operation: Operation::CLI, addressing: AddressMode::Implicit, cycles: 2 }),
        0x59 => Some(Instruction { operation: Operation::EOR, addressing: AddressMode::AbsoluteIndexedY, cycles: 4 }),
        0x5D => Some(Instruction { operation: Operation::EOR, addressing: AddressMode::AbsoluteIndexedX, cycles: 4 }),
        0x5E => Some(Instruction { operation: Operation::LSR, addressing: AddressMode::AbsoluteIndexedX, cycles: 7 }),
        0x60 => Some(Instruction { operation: Operation::RTS, addressing: AddressMode::Implicit, cycles: 6 }),
        0x61 => Some(Instruction { operation: Operation::ADC, addressing: AddressMode::IndexedIndirectX, cycles: 6 }),
        0x65 => Some(Instruction { operation: Operation::ADC, addressing: AddressMode::ZeroPage, cycles: 3 }),
        0x66 => Some(Instruction { operation: Operation::ROR, addressing: AddressMode::ZeroPage, cycles: 5 }),
        0x68 => Some(Instruction { operation: Operation::PLA, addressing: AddressMode::Implicit, cycles: 4 }),
        0x69 => Some(Instruction { operation: Operation::ADC, addressing: AddressMode::Immediate, cycles: 2 }),
        0x6A => Some(Instruction { operation: Operation::ROR, addressing: AddressMode::Accumulator, cycles: 2 }),
        0x6C => Some(Instruction { operation: Operation::JMP, addressing: AddressMode::Indirect, cycles: 5 }),
        0x6D => Some(Instruction { operation: Operation::ADC, addressing: AddressMode::Absolute, cycles: 4 }),
        0x6E => Some(Instruction { operation: Operation::ROR, addressing: AddressMode::Absolute, cycles: 6 }),
        0x70 => Some(Instruction { operation: Operation::BVS, addressing: AddressMode::Relative, cycles: 2 }),
        0x71 => Some(Instruction { operation: Operation::ADC, addressing: AddressMode::IndexedIndirectY, cycles: 5 }),
        0x75 => Some(Instruction { operation: Operation::ADC, addressing: AddressMode::ZeroPageIndexedX, cycles: 4 }),
        0x76 => Some(Instruction { operation: Operation::ROR, addressing: AddressMode::ZeroPageIndexedX, cycles: 6 }),
        0x78 => Some(Instruction { operation: Operation::SEI, addressing: AddressMode::Implicit, cycles: 2 }),
        0x79 => Some(Instruction { operation: Operation::ADC, addressing: AddressMode::AbsoluteIndexedY, cycles: 4 }),
        0x7D => Some(Instruction { operation: Operation::ADC, addressing: AddressMode::AbsoluteIndexedX, cycles: 4 }),
        0x7E => Some(Instruction { operation: Operation::ROR, addressing: AddressMode::AbsoluteIndexedX, cycles: 7 }),
        0x81 => Some(Instruction { operation: Operation::STA, addressing: AddressMode::IndexedIndirectX, cycles: 6 }),
        0x84 => Some(Instruction { operation: Operation::STY, addressing: AddressMode::ZeroPage, cycles: 3 }),
        0x85 => Some(Instruction { operation: Operation::STA, addressing: AddressMode::ZeroPage, cycles: 3 }),
        0x86 => Some(Instruction { operation: Operation::STX, addressing: AddressMode::ZeroPage, cycles: 3 }),
        0x8A => Some(Instruction { operation: Operation::TXA, addressing: AddressMode::Implicit, cycles: 2 }),
        0x8C => Some(Instruction { operation: Operation::STY, addressing: AddressMode::Absolute, cycles: 4 }),
        0x8D => Some(Instruction { operation: Operation::STA, addressing: AddressMode::Absolute, cycles: 4 }),
        0x8E => Some(Instruction { operation: Operation::STX, addressing: AddressMode::Absolute, cycles: 4 }),
        0x90 => Some(Instruction { operation: Operation::BCC, addressing: AddressMode::Relative, cycles: 2 }),
        0x91 => Some(Instruction { operation: Operation::STA, addressing: AddressMode::IndexedIndirectY, cycles: 6 }),
        0x94 => Some(Instruction { operation: Operation::STY, addressing: AddressMode::ZeroPageIndexedX, cycles: 4 }),
        0x95 => Some(Instruction { operation: Operation::STA, addressing: AddressMode::ZeroPageIndexedX, cycles: 4 }),
        0x96 => Some(Instruction { operation: Operation::STX, addressing: AddressMode::ZeroPageIndexedY, cycles: 4 }),
        0x98 => Some(Instruction { operation: Operation::TYA, addressing: AddressMode::Implicit, cycles: 2 }),
        0x99 => Some(Instruction { operation: Operation::STA, addressing: AddressMode::AbsoluteIndexedY, cycles: 5 }),
        0x9A => Some(Instruction { operation: Operation::TXS, addressing: AddressMode::Implicit, cycles: 2 }),
        0x9D => Some(Instruction { operation: Operation::STA, addressing: AddressMode::AbsoluteIndexedX, cycles: 5 }),
        0xA0 => Some(Instruction { operation: Operation::LDY, addressing: AddressMode::Immediate, cycles: 2 }),
        0xA1 => Some(Instruction { operation: Operation::LDA, addressing: AddressMode::IndexedIndirectX, cycles: 6 }),
        0xA2 => Some(Instruction { operation: Operation::LDX, addressing: AddressMode::Immediate, cycles: 2 }),
        0xA4 => Some(Instruction { operation: Operation::LDY, addressing: AddressMode::ZeroPage, cycles: 3 }),
        0xA5 => Some(Instruction { operation: Operation::LDA, addressing: AddressMode::ZeroPage, cycles: 3 }),
        0xA6 => Some(Instruction { operation: Operation::LDX, addressing: AddressMode::ZeroPage, cycles: 3 }),
        0xA8 => Some(Instruction { operation: Operation::TAY, addressing: AddressMode::Implicit, cycles: 2 }),
        0xA9 => Some(Instruction { operation: Operation::LDA, addressing: AddressMode::Immediate, cycles: 2 }),
        0xAA => Some(Instruction { operation: Operation::TAX, addressing: AddressMode::Implicit, cycles: 2 }),
        0xAC => Some(Instruction { operation: Operation::LDY, addressing: AddressMode::Absolute, cycles: 4 }),
        0xAD => Some(Instruction { operation: Operation::LDA, addressing: AddressMode::Absolute, cycles: 4 }),
        0xAE => Some(Instruction { operation: Operation::LDX, addressing: AddressMode::Absolute, cycles: 4 }),
        0xB0 => Some(Instruction { operation: Operation::BCS, addressing: AddressMode::Relative, cycles: 2 }),
        0xB1 => Some(Instruction { operation: Operation::LDA, addressing: AddressMode::IndexedIndirectY, cycles: 5 }),
        0xB4 => Some(Instruction { operation: Operation::LDY, addressing: AddressMode::ZeroPageIndexedX, cycles: 4 }),
        0xB5 => Some(Instruction { operation: Operation::LDA, addressing: AddressMode::ZeroPageIndexedX, cycles: 4 }),
        0xB6 => Some(Instruction { operation: Operation::LDX, addressing: AddressMode::ZeroPageIndexedY, cycles: 4 }),
        0xB8 => Some(Instruction { operation: Operation::CLV, addressing: AddressMode::Implicit, cycles: 2 }),
        0xB9 => Some(Instruction { operation: Operation::LDA, addressing: AddressMode::AbsoluteIndexedY, cycles: 4 }),
        0xBA => Some(Instruction { operation: Operation::TSX, addressing: AddressMode::Implicit, cycles: 2 }),
        0xBC => Some(Instruction { operation: Operation::LDY, addressing: AddressMode::AbsoluteIndexedX, cycles: 4 }),
        0xBD => Some(Instruction { operation: Operation::LDA, addressing: AddressMode::AbsoluteIndexedX, cycles: 4 }),
        0xBE => Some(Instruction { operation: Operation::LDX, addressing: AddressMode::AbsoluteIndexedY, cycles: 4 }),
        0xC0 => Some(Instruction { operation: Operation::CPY, addressing: AddressMode::Immediate, cycles: 2 }),
        0xC1 => Some(Instruction { operation: Operation::CMP, addressing: AddressMode::IndexedIndirectX, cycles: 6 }),
        0xC4 => Some(Instruction { operation: Operation::CPY, addressing: AddressMode::ZeroPage, cycles: 3 }),
        0xC5 => Some(Instruction { operation: Operation::CMP, addressing: AddressMode::ZeroPage, cycles: 3 }),
        0xC9 => Some(Instruction { operation: Operation::CMP, addressing: AddressMode::Immediate, cycles: 2 }),
        0xCC => Some(Instruction { operation: Operation::CPY, addressing: AddressMode::Absolute, cycles: 4 }),
        0xCD => Some(Instruction { operation: Operation::CMP, addressing: AddressMode::Absolute, cycles: 4 }),
        0xD0 => Some(Instruction { operation: Operation::BNE, addressing: AddressMode::Relative, cycles: 2 }),
        0xD1 => Some(Instruction { operation: Operation::CMP, addressing: AddressMode::IndexedIndirectY, cycles: 5 }),
        0xD5 => Some(Instruction { operation: Operation::CMP, addressing: AddressMode::ZeroPageIndexedX, cycles: 4 }),
        0xD8 => Some(Instruction { operation: Operation::CLD, addressing: AddressMode::Implicit, cycles: 2 }),
        0xD9 => Some(Instruction { operation: Operation::CMP, addressing: AddressMode::AbsoluteIndexedY, cycles: 4 }),
        0xDD => Some(Instruction { operation: Operation::CMP, addressing: AddressMode::AbsoluteIndexedX, cycles: 4 }),
        0xE0 => Some(Instruction { operation: Operation::CPX, addressing: AddressMode::Immediate, cycles: 2 }),
        0xE1 => Some(Instruction { operation: Operation::SBC, addressing: AddressMode::IndexedIndirectX, cycles: 6 }),
        0xE4 => Some(Instruction { operation: Operation::CPX, addressing: AddressMode::ZeroPage, cycles: 3 }),
        0xE5 => Some(Instruction { operation: Operation::SBC, addressing: AddressMode::ZeroPage, cycles: 3 }),
        0xE9 => Some(Instruction { operation: Operation::SBC, addressing: AddressMode::Immediate, cycles: 2 }),
        0xEA => Some(Instruction { operation: Operation::NOP, addressing: AddressMode::Implicit, cycles: 2 }),
        0xEC => Some(Instruction { operation: Operation::CPX, addressing: AddressMode::Absolute, cycles: 4 }),
        0xED => Some(Instruction { operation: Operation::SBC, addressing: AddressMode::Absolute, cycles: 4 }),
        0xF0 => Some(Instruction { operation: Operation::BEQ, addressing: AddressMode::Relative, cycles: 2 }),
        0xF1 => Some(Instruction { operation: Operation::SBC, addressing: AddressMode::IndexedIndirectY, cycles: 5 }),
        0xF5 => Some(Instruction { operation: Operation::SBC, addressing: AddressMode::ZeroPageIndexedX, cycles: 4 }),
        0xF8 => Some(Instruction { operation: Operation::SED, addressing: AddressMode::Implicit, cycles: 2 }),
        0xF9 => Some(Instruction { operation: Operation::SBC, addressing: AddressMode::AbsoluteIndexedY, cycles: 4 }),
        0xFD => Some(Instruction { operation: Operation::SBC, addressing: AddressMode::AbsoluteIndexedX, cycles: 4 }),
        _ => None,
    }
}

/// Decodes an opcode byte.
pub fn lookup(opcode: u8) -> (r: Option<Instruction>)
    ensures
        r == decode(opcode),
{
    match opcode {
        0x00 => Some(Instruction { operation: Operation::BRK, addressing: AddressMode::Implicit, cycles: 7 }),
        0x01 => Some(Instruction { operation: Operation::ORA, addressing: AddressMode::IndexedIndirectX, cycles: 6 }),
        0x05 => Some(Instruction { operation: Operation::ORA, addressing: AddressMode::ZeroPage, cycles: 3 }),
        0x06 => Some(Instruction { operation: Operation::ASL, addressing: AddressMode::ZeroPage, cycles: 5 }),
        0x08 => Some(Instruction { operation: Operation::PHP, addressing: AddressMode::Implicit, cycles: 3 }),
        0x09 => Some(Instruction { operation: Operation::ORA, addressing: AddressMode::Immediate, cycles: 2 }),
        0x0A => Some(Instruction { operation: Operation::ASL, addressing: AddressMode::Accumulator, cycles: 2 }),
        0x0D => Some(Instruction { operation: Operation::ORA, addressing: AddressMode::Absolute, cycles: 4 }),
        0x0E => Some(Instruction { operation: Operation::ASL, addressing: AddressMode::Absolute, cycles: 6 }),
        0x10 => Some(Instruction { operation: Operation::BPL, addressing: AddressMode::Relative, cycles: 2 }),
        0x11 => Some(Instruction { operation: Operation::ORA, addressing: AddressMode::IndexedIndirectY, cycles: 5 }),
        0x15 => Some(Instruction { operation: Operation::ORA, addressing: AddressMode::ZeroPageIndexedX, cycles: 4 }),
        0x16 => Some(Instruction { operation: Operation::ASL, addressing: AddressMode::ZeroPageIndexedX, cycles: 6 }),
        0x18 => Some(Instruction { operation: Operation::CLC, addressing: AddressMode::Implicit, cycles: 2 }),
        0x19 => Some(Instruction { operation: Operation::ORA, addressing: AddressMode::AbsoluteIndexedY, cycles: 4 }),
        0x1D => Some(Instruction { operation: Operation::ORA, addressing: AddressMode::AbsoluteIndexedX, cycles: 4 }),
        0x1E => Some(Instruction { operation: Operation::ASL, addressing: AddressMode::AbsoluteIndexedX, cycles: 7 }),
        0x20 => Some(Instruction { operation: Operation::JSR, addressing: AddressMode::Absolute, cycles: 6 }),
        0x21 => Some(Instruction { operation: Operation::AND, addressing: AddressMode::IndexedIndirectX, cycles: 6 }),
        0x25 => Some(Instruction { operation: Operation::AND, addressing: AddressMode::ZeroPage, cycles: 3 }),
        0x26 => Some(Instruction { operation: Operation::ROL, addressing: AddressMode::ZeroPage, cycles: 5 }),
        0x28 => Some(Instruction { operation: Operation::PLP, addressing: AddressMode::Implicit, cycles: 4 }),
        0x29 => Some(Instruction { operation: Operation::AND, addressing: AddressMode::Immediate, cycles: 2 }),
        0x2A => Some(Instruction { operation: Operation::ROL, addressing: AddressMode::Accumulator, cycles: 2 }),
        0x2D => Some(Instruction { operation: Operation::AND, addressing: AddressMode::Absolute, cycles: 4 }),
        0x2E => Some(Instruction { operation: Operation::ROL, addressing: AddressMode::Absolute, cycles: 6 }),
        0x30 => Some(Instruction { operation: Operation::BMI, addressing: AddressMode::Relative, cycles: 2 }),
        0x31 => Some(Instruction { operation: Operation::AND, addressing: AddressMode::IndexedIndirectY, cycles: 5 }),
        0x35 => Some(Instruction { operation: Operation::AND, addressing: AddressMode::ZeroPageIndexedX, cycles: 4 }),
        0x36 => Some(Instruction { operation: Operation::ROL, addressing: AddressMode::ZeroPageIndexedX, cycles: 6 }),
        0x38 => Some(Instruction { operation: Operation::SEC, addressing: AddressMode::Implicit, cycles: 2 }),
        0x39 => Some(Instruction { operation: Operation::AND, addressing: AddressMode::AbsoluteIndexedY, cycles: 4 }),
        0x3D => Some(Instruction { operation: Operation::AND, addressing: AddressMode::AbsoluteIndexedX, cycles: 4 }),
        0x3E => Some(Instruction { operation: Operation::ROL, addressing: AddressMode::AbsoluteIndexedX, cycles: 7 }),
        0x40 => Some(Instruction { operation: Operation::RTI, addressing: AddressMode::Implicit, cycles: 6 }),
        0x41 => Some(Instruction { operation: Operation::EOR, addressing: AddressMode::IndexedIndirectX, cycles: 6 }),
        0x45 => Some(Instruction { operation: Operation::EOR, addressing: AddressMode::ZeroPage, cycles: 3 }),
        0x46 => Some(Instruction { operation: Operation::LSR, addressing: AddressMode::ZeroPage, cycles: 5 }),
        0x48 => Some(Instruction { operation: Operation::PHA, addressing: AddressMode::Implicit, cycles: 3 }),
        0x49 => Some(Instruction { operation: Operation::EOR, addressing: AddressMode::Immediate, cycles: 2 }),
        0x4A => Some(Instruction { operation: Operation::LSR, addressing: AddressMode::Accumulator, cycles: 2 }),
        0x4C => Some(Instruction { operation: Operation::JMP, addressing: AddressMode::Absolute, cycles: 3 }),
        0x4D => Some(Instruction { operation: Operation::EOR, addressing: AddressMode::Absolute, cycles: 4 }),
        0x4E => Some(Instruction { operation: Operation::LSR, addressing: AddressMode::Absolute, cycles: 6 }),
        0x50 => Some(Instruction { operation: Operation::BVC, addressing: AddressMode::Relative, cycles: 2 }),
        0x51 => Some(Instruction { operation: Operation::EOR, addressing: AddressMode::IndexedIndirectY, cycles: 5 }),
        0x55 => Some(Instruction { operation: Operation::EOR, addressing: AddressMode::ZeroPageIndexedX, cycles: 4 }),
        0x56 => Some(Instruction { operation: Operation::LSR, addressing: AddressMode::ZeroPageIndexedX, cycles: 6 }),
        0x58 => Some(Instruction { operation: Operation::CLI, addressing: AddressMode::Implicit, cycles: 2 }),
        0x59 => Some(Instruction { operation: Operation::EOR, addressing: AddressMode::AbsoluteIndexedY, cycles: 4 }),
        0x5D => Some(Instruction { operation: Operation::EOR, addressing: AddressMode::AbsoluteIndexedX, cycles: 4 }),
        0x5E => Some(Instruction { operation: Operation::LSR, addressing: AddressMode::AbsoluteIndexedX, cycles: 7 }),
        0x60 => Some(Instruction { operation: Operation::RTS, addressing: AddressMode::Implicit, cycles: 6 }),
        0x61 => Some(Instruction { operation: Operation::ADC, addressing: AddressMode::IndexedIndirectX, cycles: 6 }),
        0x65 => Some(Instruction { operation: Operation::ADC, addressing: AddressMode::ZeroPage, cycles: 3 }),
        0x66 => Some(Instruction { operation: Operation::ROR, addressing: AddressMode::ZeroPage, cycles: 5 }),
        0x68 => Some(Instruction { operation: Operation::PLA, addressing: AddressMode::Implicit, cycles: 4 }),
        0x69 => Some(Instruction { operation: Operation::ADC, addressing: AddressMode::Immediate, cycles: 2 }),
        0x6A => Some(Instruction { operation: Operation::ROR, addressing: AddressMode::Accumulator, cycles: 2 }),
        0x6C => Some(Instruction { operation: Operation::JMP, addressing: AddressMode::Indirect, cycles: 5 }),
        0x6D => Some(Instruction { operation: Operation::ADC, addressing: AddressMode::Absolute, cycles: 4 }),
        0x6E => Some(Instruction { operation: Operation::ROR, addressing: AddressMode::Absolute, cycles: 6 }),
        0x70 => Some(Instruction { operation: Operation::BVS, addressing: AddressMode::Relative, cycles: 2 }),
        0x71 => Some(Instruction { operation: Operation::ADC, addressing: AddressMode::IndexedIndirectY, cycles: 5 }),
        0x75 => Some(Instruction { operation: Operation::ADC, addressing: AddressMode::ZeroPageIndexedX, cycles: 4 }),
        0x76 => Some(Instruction { operation: Operation::ROR, addressing: AddressMode::ZeroPageIndexedX, cycles: 6 }),
        0x78 => Some(Instruction { operation: Operation::SEI, addressing: AddressMode::Implicit, cycles: 2 }),
        0x79 => Some(Instruction { operation: Operation::ADC, addressing: AddressMode::AbsoluteIndexedY, cycles: 4 }),
        0x7D => Some(Instruction { operation: Operation::ADC, addressing: AddressMode::AbsoluteIndexedX, cycles: 4 }),
        0x7E => Some(Instruction { operation: Operation::ROR, addressing: AddressMode::AbsoluteIndexedX, cycles: 7 }),
        0x81 => Some(Instruction { operation: Operation::STA, addressing: AddressMode::IndexedIndirectX, cycles: 6 }),
        0x84 => Some(Instruction { operation: Operation::STY, addressing: AddressMode::ZeroPage, cycles: 3 }),
        0x85 => Some(Instruction { operation: Operation::STA, addressing: AddressMode::ZeroPage, cycles: 3 }),
        0x86 => Some(Instruction { operation: Operation::STX, addressing: AddressMode::ZeroPage, cycles: 3 }),
        0x8A => Some(Instruction { operation: Operation::TXA, addressing: AddressMode::Implicit, cycles: 2 }),
        0x8C => Some(Instruction { operation: Operation::STY, addressing: AddressMode::Absolute, cycles: 4 }),
        0x8D => Some(Instruction { operation: Operation::STA, addressing: AddressMode::Absolute, cycles: 4 }),
        0x8E => Some(Instruction { operation: Operation::STX, addressing: AddressMode::Absolute, cycles: 4 }),
        0x90 => Some(Instruction { operation: Operation::BCC, addressing: AddressMode::Relative, cycles: 2 }),
        0x91 => Some(Instruction { operation: Operation::STA, addressing: AddressMode::IndexedIndirectY, cycles: 6 }),
        0x94 => Some(Instruction { operation: Operation::STY, addressing: AddressMode::ZeroPageIndexedX, cycles: 4 }),
        0x95 => Some(Instruction { operation: Operation::STA, addressing: AddressMode::ZeroPageIndexedX, cycles: 4 }),
        0x96 => Some(Instruction { operation: Operation::STX, addressing: AddressMode::ZeroPageIndexedY, cycles: 4 }),
        0x98 => Some(Instruction { operation: Operation::TYA, addressing: AddressMode::Implicit, cycles: 2 }),
        0x99 => Some(Instruction { operation: Operation::STA, addressing: AddressMode::AbsoluteIndexedY, cycles: 5 }),
        0x9A => Some(Instruction { operation: Operation::TXS, addressing: AddressMode::Implicit, cycles: 2 }),
        0x9D => Some(Instruction { operation: Operation::STA, addressing: AddressMode::AbsoluteIndexedX, cycles: 5 }),
        0xA0 => Some(Instruction { operation: Operation::LDY, addressing: AddressMode::Immediate, cycles: 2 }),
        0xA1 => Some(Instruction { operation: Operation::LDA, addressing: AddressMode::IndexedIndirectX, cycles: 6 }),
        0xA2 => Some(Instruction { operation: Operation::LDX, addressing: AddressMode::Immediate, cycles: 2 }),
        0xA4 => Some(Instruction { operation: Operation::LDY, addressing: AddressMode::ZeroPage, cycles: 3 }),
        0xA5 => Some(Instruction { operation: Operation::LDA, addressing: AddressMode::ZeroPage, cycles: 3 }),
        0xA6 => Some(Instruction { operation: Operation::LDX, addressing: AddressMode::ZeroPage, cycles: 3 }),
        0xA8 => Some(Instruction { operation: Operation::TAY, addressing: AddressMode::Implicit, cycles: 2 }),
        0xA9 => Some(Instruction { operation: Operation::LDA, addressing: AddressMode::Immediate, cycles: 2 }),
        0xAA => Some(Instruction { operation: Operation::TAX, addressing: AddressMode::Implicit, cycles: 2 }),
        0xAC => Some(Instruction { operation: Operation::LDY, addressing: AddressMode::Absolute, cycles: 4 }),
        0xAD => Some(Instruction { operation: Operation::LDA, addressing: AddressMode::Absolute, cycles: 4 }),
        0xAE => Some(Instruction { operation: Operation::LDX, addressing: AddressMode::Absolute, cycles: 4 }),
        0xB0 => Some(Instruction { operation: Operation::BCS, addressing: AddressMode::Relative, cycles: 2 }),
        0xB1 => Some(Instruction { operation: Operation::LDA, addressing: AddressMode::IndexedIndirectY, cycles: 5 }),
        0xB4 => Some(Instruction { operation: Operation::LDY, addressing: AddressMode::ZeroPageIndexedX, cycles: 4 }),
        0xB5 => Some(Instruction { operation: Operation::LDA, addressing: AddressMode::ZeroPageIndexedX, cycles: 4 }),
        0xB6 => Some(Instruction { operation: Operation::LDX, addressing: AddressMode::ZeroPageIndexedY, cycles: 4 }),
        0xB8 => Some(Instruction { operation: Operation::CLV, addressing: AddressMode::Implicit, cycles: 2 }),
        0xB9 => Some(Instruction { operation: Operation::LDA, addressing: AddressMode::AbsoluteIndexedY, cycles: 4 }),
        0xBA => Some(Instruction { operation: Operation::TSX, addressing: AddressMode::Implicit, cycles: 2 }),
        0xBC => Some(Instruction { operation: Operation::LDY, addressing: AddressMode::AbsoluteIndexedX, cycles: 4 }),
        0xBD => Some(Instruction { operation: Operation::LDA, addressing: AddressMode::AbsoluteIndexedX, cycles: 4 }),
        0xBE => Some(Instruction { operation: Operation::LDX, addressing: AddressMode::AbsoluteIndexedY, cycles: 4 }),
        0xC0 => Some(Instruction { operation: Operation::CPY, addressing: AddressMode::Immediate, cycles: 2 }),
        0xC1 => Some(Instruction { operation: Operation::CMP, addressing: AddressMode::IndexedIndirectX, cycles: 6 }),
        0xC4 => Some(Instruction { operation: Operation::CPY, addressing: AddressMode::ZeroPage, cycles: 3 }),
        0xC5 => Some(Instruction { operation: Operation::CMP, addressing: AddressMode::ZeroPage, cycles: 3 }),
        0xC9 => Some(Instruction { operation: Operation::CMP, addressing: AddressMode::Immediate, cycles: 2 }),
        0xCC => Some(Instruction { operation: Operation::CPY, addressing: AddressMode::Absolute, cycles: 4 }),
        0xCD => Some(Instruction { operation: Operation::CMP, addressing: AddressMode::Absolute, cycles: 4 }),
        0xD0 => Some(Instruction { operation: Operation::BNE, addressing: AddressMode::Relative, cycles: 2 }),
        0xD1 => Some(Instruction { operation: Operation::CMP, addressing: AddressMode::IndexedIndirectY, cycles: 5 }),
        0xD5 => Some(Instruction { operation: Operation::CMP, addressing: AddressMode::ZeroPageIndexedX, cycles: 4 }),
        0xD8 => Some(Instruction { operation: Operation::CLD, addressing: AddressMode::Implicit, cycles: 2 }),
        0xD9 => Some(Instruction { operation: Operation::CMP, addressing: AddressMode::AbsoluteIndexedY, cycles: 4 }),
        0xDD => Some(Instruction { operation: Operation::CMP, addressing: AddressMode::AbsoluteIndexedX, cycles: 4 }),
        0xE0 => Some(Instruction { operation: Operation::CPX, addressing: AddressMode::Immediate, cycles: 2 }),
        0xE1 => Some(Instruction { operation: Operation::SBC, addressing: AddressMode::IndexedIndirectX, cycles: 6 }),
        0xE4 => Some(Instruction { operation: Operation::CPX, addressing: AddressMode::ZeroPage, cycles: 3 }),
        0xE5 => Some(Instruction { operation: Operation::SBC, addressing: AddressMode::ZeroPage, cycles: 3 }),
        0xE9 => Some(Instruction { operation: Operation::SBC, addressing: AddressMode::Immediate, cycles: 2 }),
        0xEA => Some(Instruction { operation: Operation::NOP, addressing: AddressMode::Implicit, cycles: 2 }),
        0xEC => Some(Instruction { operation: Operation::CPX, addressing: AddressMode::Absolute, cycles: 4 }),
        0xED => Some(Instruction { operation: Operation::SBC, addressing: AddressMode::Absolute, cycles: 4 }),
        0xF0 => Some(Instruction { operation: Operation::BEQ, addressing: AddressMode::Relative, cycles: 2 }),
        0xF1 => Some(Instruction { operation: Operation::SBC, addressing: AddressMode::IndexedIndirectY, cycles: 5 }),
        0xF5 => Some(Instruction { operation: Operation::SBC, addressing: AddressMode::ZeroPageIndexedX, cycles: 4 }),
        0xF8 => Some(Instruction { operation: Operation::SED, addressing: AddressMode::Implicit, cycles: 2 }),
        0xF9 => Some(Instruction { operation: Operation::SBC, addressing: AddressMode::AbsoluteIndexedY, cycles: 4 }),
        0xFD => Some(Instruction { operation: Operation::SBC, addressing: AddressMode::AbsoluteIndexedX, cycles: 4 }),
        _ => None,
    }
}

/// Runs a decoded instruction through the handler of its operation's family.
pub fn handler_dispatch<B: CpuBus>(cpu: &mut CPU<B>, instruction: &mut Instruction, operand: u16) -> (r:
    Result<(), CpuError>)
    requires
        old(instruction).cycles < usize::MAX - 1,
    ensures
        *final(instruction) == *old(instruction),
        old(cpu).lands(
            final(cpu),
            execute(old(cpu).regs(), old(cpu).mem(), old(cpu).cpu_bus, *old(instruction), operand),
            r,
        ),
{
    let instruction: &Instruction = instruction;
    match instruction.operation {
        Operation::LDA | Operation::LDX | Operation::LDY => cpu.load_memory(instruction, operand),
        Operation::STA | Operation::STX | Operation::STY => cpu.store_memory(instruction, operand),
        Operation::ADC | Operation::SBC => cpu.arithmetic_operation(instruction, operand),
        Operation::AND | Operation::EOR | Operation::ORA => cpu.bitwise_logic(instruction, operand),
        Operation::CMP | Operation::CPX | Operation::CPY => cpu.compare_operations(instruction, operand),
        Operation::ASL | Operation::LSR | Operation::ROL | Operation::ROR => cpu.shift_operations(
            instruction,
            operand,
        ),
        Operation::BCC | Operation::BCS | Operation::BEQ | Operation::BMI | Operation::BNE
        | Operation::BPL | Operation::BVC | Operation::BVS => cpu.branch_operation(instruction, operand),
        Operation::CLC | Operation::CLD | Operation::CLI | Operation::CLV | Operation::SEC
        | Operation::SED | Operation::SEI => cpu.set_flag_operation(instruction),
        Operation::TAX | Operation::TAY | Operation::TSX | Operation::TXA | Operation::TXS
        | Operation::TYA => cpu.transfer_operations(instruction),
        Operation::JMP | Operation::JSR | Operation::RTS | Operation::BRK | Operation::RTI => cpu.jump_operations(
            instruction,
            operand,
        ),
        Operation::PHA | Operation::PHP | Operation::PLA | Operation::PLP => cpu.stack_operations(instruction),
        Operation::NOP => cpu.nop_operation(instruction),
    }
}

/// Number of operand bytes that follow an opcode in this addressing mode.
pub open spec fn operand_len(mode: AddressMode) -> nat {
    match mode {
        AddressMode::Implicit | AddressMode::Accumulator => 0,
        AddressMode::Absolute | AddressMode::AbsoluteIndexedX | AddressMode::AbsoluteIndexedY
        | AddressMode::Indirect => 2,
        _ => 1,
    }
}

/// Number of operand bytes that follow an opcode in this addressing mode.
pub fn operand_bytes(mode: &AddressMode) -> (r: u8)
    ensures
        r == operand_len(*mode),
{
    match mode {
        AddressMode::Implicit | AddressMode::Accumulator => 0,
        AddressMode::Absolute | AddressMode::AbsoluteIndexedX | AddressMode::AbsoluteIndexedY
        | AddressMode::Indirect => 2,
        _ => 1,
    }
}

} // verus!
