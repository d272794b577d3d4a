//! The 6502 interpreter.
pub mod laws;
pub mod opcode_lookup;

use vstd::prelude::*;
use crate::cpu_bus::{CpuBus, same_wiring};
use crate::cpu::opcode_lookup::{
    AddressMode, CpuError, Instruction, Operation, decode, handler_dispatch, lookup, operand_bytes,
    operand_len,
};

verus! {

/// Status bit: carry.
pub const FLAG_C: u8 = 0x01;
/// Status bit: zero.
pub const FLAG_Z: u8 = 0x02;
/// Status bit: interrupt disable.
pub const FLAG_I: u8 = 0x04;
/// Status bit: decimal mode (ignored by the NES).
pub const FLAG_D: u8 = 0x08;
/// Status bit: break; only ever set in the copy of `P` pushed on the stack.
pub const FLAG_B: u8 = 0x10;
/// Status bit: unused, kept at one in the register.
pub const FLAG_U: u8 = 0x20;
/// Status bit: overflow.
pub const FLAG_V: u8 = 0x40;
/// Status bit: negative.
pub const FLAG_N: u8 = 0x80;

/// The bytes that a 16-bit read takes its high byte from.
enum WrapMode {
    /// The reads of the indirect `JMP`: the high byte comes from the same page.
    JmpIndirect,
    /// Two consecutive addresses.
    Normal,
}

/// Where an instruction's operand is, once its addressing mode is resolved.
#[derive(Clone, Copy, Debug, PartialEq, Eq, Structural)]
#[allow(inconsistent_fields)]
pub enum AddressModeResult {
    /// A full 16-bit address; `page_crossed` is set when indexing moved it to another page.
    Address { address: u16, page_crossed: bool },
    /// An address in the zero page.
    ZeroPage { address: u8 },
    /// The operand itself.
    Immediate { value: u8 },
    /// Register `A`.
    Accumulator,
    /// A signed branch displacement.
    Relative { offset: i8 },
    /// The address of the pointer that the indirect `JMP` reads.
    Indirect { pointer: u16 },
    /// No operand.
    Implicit,
}

/// The architectural state of the processor, without its bus.
#[derive(Clone, Copy, Debug, PartialEq, Eq, Structural)]
pub struct CpuRegs {
    pub a: u8,
    pub x: u8,
    pub y: u8,
    pub sp: u8,
    pub pc: u16,
    pub p: u8,
    pub cycles: usize,
    pub halted: bool,
}

/// Registers, memory as the bus shows it, and how an instruction ended.
pub type Outcome = (CpuRegs, Map<u16, u8>, Result<(), CpuError>);

/// Whether `flag` is set in the status byte `p`.
pub open spec fn has_flag(p: u8, flag: u8) -> bool {
    p & flag != 0
}

/// `p` with `flag` set or cleared, and the unused bit forced on.
pub open spec fn with_flag(p: u8, flag: u8, on: bool) -> u8 {
    if on {
        (p | flag) | FLAG_U
    } else {
        (p & !flag) | FLAG_U
    }
}

/// `p` with Z and N describing `value`.
pub open spec fn with_zn(p: u8, value: u8) -> u8 {
    with_flag(with_flag(p, FLAG_Z, value == 0), FLAG_N, value >= 0x80)
}

/// The status register loaded from a byte pulled off the stack: U on, B off.
pub open spec fn pulled_status(v: u8) -> u8 {
    (v | FLAG_U) & !FLAG_B
}

/// Sum modulo 256.
pub open spec fn add8(a: int, b: int) -> u8 {
    ((a + b) % 256) as u8
}

/// Sum modulo 65536.
pub open spec fn add16(a: int, b: int) -> u16 {
    ((a + b) % 65536) as u16
}

/// The little-endian word made of two bytes.
pub open spec fn word(lo: u8, hi: u8) -> u16 {
    (lo + hi * 256) as u16
}

/// Address of the stack slot that `sp` points at.
pub open spec fn stack_slot(sp: u8) -> u16 {
    (0x100 + sp) as u16
}

/// The word that a 16-bit read at `address` returns.
pub open spec fn read_word(mem: Map<u16, u8>, address: u16, jmp_indirect: bool) -> u16 {
    let hi_address = if jmp_indirect && address % 256 == 0xFF {
        (address - 0xFF) as u16
    } else {
        add16(address as int, 1)
    };
    word(mem[address], mem[hi_address])
}

/// Registers and memory after `value` is pushed.
pub open spec fn push_spec<B: CpuBus>(s: CpuRegs, mem: Map<u16, u8>, bus: B, value: u8) -> (
    CpuRegs,
    Map<u16, u8>,
) {
    (CpuRegs { sp: add8(s.sp as int, -1), ..s }, bus.store(mem, stack_slot(s.sp), value))
}

/// Registers after a pull, and the byte pulled.
pub open spec fn pull_spec(s: CpuRegs, mem: Map<u16, u8>) -> (CpuRegs, u8) {
    let sp = add8(s.sp as int, 1);
    (CpuRegs { sp, ..s }, mem[stack_slot(sp)])
}

/// The stack pointer after `n` pushes from `sp`.
pub open spec fn sp_after_pushes(sp: u8, n: nat) -> u8
    decreases n,
{
    if n == 0 {
        sp
    } else {
        add8(sp_after_pushes(sp, (n - 1) as nat) as int, -1)
    }
}

/// Where the operand of an instruction in `mode` is, given the operand bytes.
pub open spec fn resolve(s: CpuRegs, mem: Map<u16, u8>, mode: AddressMode, operand: u16) -> AddressModeResult {
    match mode {
        AddressMode::ZeroPageIndexedX => AddressModeResult::ZeroPage {
            address: add8(operand as int % 256, s.x as int),
        },
        AddressMode::ZeroPageIndexedY => AddressModeResult::ZeroPage {
            address: add8(operand as int % 256, s.y as int),
        },
        AddressMode::AbsoluteIndexedX => {
            let address = add16(operand as int, s.x as int);
            AddressModeResult::Address {
                address,
                page_crossed: operand & 0xFF00 != address & 0xFF00,
            }
        },
        AddressMode::AbsoluteIndexedY => {
            let address = add16(operand as int, s.y as int);
            AddressModeResult::Address {
                address,
                page_crossed: operand & 0xFF00 != address & 0xFF00,
            }
        },
        AddressMode::IndexedIndirectX => {
            let pointer = add8(operand as int % 256, s.x as int);
            AddressModeResult::Address {
                address: word(mem[pointer as u16], mem[add8(pointer as int, 1) as u16]),
                page_crossed: false,
            }
        },
        AddressMode::IndexedIndirectY => {
            let pointer = (operand % 256) as u8;
            let base = word(mem[pointer as u16], mem[add8(pointer as int, 1) as u16]);
            let address = add16(base as int, s.y as int);
            AddressModeResult::Address { address, page_crossed: base & 0xFF00 != address & 0xFF00 }
        },
        AddressMode::Accumulator => AddressModeResult::Accumulator,
        AddressMode::Immediate => AddressModeResult::Immediate { value: (operand % 256) as u8 },
        AddressMode::ZeroPage => AddressModeResult::ZeroPage { address: (operand % 256) as u8 },
        AddressMode::Absolute => AddressModeResult::Address { address: operand, page_crossed: false },
        AddressMode::Relative => AddressModeResult::Relative { offset: operand as i8 },
        AddressMode::Indirect => AddressModeResult::Indirect { pointer: operand },
        AddressMode::Implicit => AddressModeResult::Implicit,
    }
}

/// The modes whose operand is a value to read: an address, a zero-page address
/// or the operand byte itself.
pub open spec fn reads_value(mode: AddressMode) -> bool {
    !(mode is Accumulator || mode is Relative || mode is Indirect || mode is Implicit)
}

/// The modes that name a memory location.
pub open spec fn names_location(mode: AddressMode) -> bool {
    reads_value(mode) && !(mode is Immediate)
}

/// The modes that a shift or rotate accepts: a location or the accumulator.
pub open spec fn shifts_in(mode: AddressMode) -> bool {
    names_location(mode) || mode is Accumulator
}

/// The modes that the jump handler accepts.
pub open spec fn jumps_by(mode: AddressMode) -> bool {
    mode is Absolute || mode is AbsoluteIndexedX || mode is AbsoluteIndexedY
        || mode is IndexedIndirectX || mode is IndexedIndirectY || mode is Indirect
        || mode is Implicit
}

/// The value an instruction reads, and whether indexing crossed a page.
pub open spec fn operand_value(s: CpuRegs, mem: Map<u16, u8>, mode: AddressMode, operand: u16) -> (u8, bool) {
    match resolve(s, mem, mode, operand) {
        AddressModeResult::Address { address, page_crossed } => (mem[address], page_crossed),
        AddressModeResult::ZeroPage { address } => (mem[address as u16], false),
        AddressModeResult::Immediate { value } => (value, false),
        _ => (0, false),
    }
}

/// The memory location an instruction names.
pub open spec fn location(s: CpuRegs, mem: Map<u16, u8>, mode: AddressMode, operand: u16) -> u16 {
    match resolve(s, mem, mode, operand) {
        AddressModeResult::Address { address, .. } => address,
        AddressModeResult::ZeroPage { address } => address as u16,
        _ => 0,
    }
}

/// Base cycles, plus one when a read crossed a page.
pub open spec fn read_cycles(ins: Instruction, page_crossed: bool) -> usize {
    if page_crossed {
        (ins.cycles + 1) as usize
    } else {
        ins.cycles
    }
}

/// The state left unchanged, with an error.
pub open spec fn refused(s: CpuRegs, mem: Map<u16, u8>, e: CpuError) -> Outcome {
    (s, mem, Err(e))
}

/// LDA, LDX, LDY: load a register and set Z and N from it.
pub open spec fn load_step(s: CpuRegs, mem: Map<u16, u8>, ins: Instruction, operand: u16) -> Outcome {
    if !reads_value(ins.addressing) {
        refused(s, mem, CpuError::InvalidAddressMode)
    } else if !(ins.operation is LDA || ins.operation is LDX || ins.operation is LDY) {
        refused(s, mem, CpuError::InvalidOperation)
    } else {
        let (value, crossed) = operand_value(s, mem, ins.addressing, operand);
        let s1 = CpuRegs { p: with_zn(s.p, value), cycles: read_cycles(ins, crossed), ..s };
        let s2 = match ins.operation {
            Operation::LDA => CpuRegs { a: value, ..s1 },
            Operation::LDX => CpuRegs { x: value, ..s1 },
            _ => CpuRegs { y: value, ..s1 },
        };
        (s2, mem, Ok(()))
    }
}

/// STA, STX, STY: write a register to the named location; no flag changes.
pub open spec fn store_step<B: CpuBus>(
    s: CpuRegs,
    mem: Map<u16, u8>,
    bus: B,
    ins: Instruction,
    operand: u16,
) -> Outcome {
    if !names_location(ins.addressing) {
        refused(s, mem, CpuError::InvalidAddressMode)
    } else if !(ins.operation is STA || ins.operation is STX || ins.operation is STY) {
        refused(s, mem, CpuError::InvalidOperation)
    } else {
        let address = location(s, mem, ins.addressing, operand);
        let value = match ins.operation {
            Operation::STA => s.a,
            Operation::STX => s.x,
            _ => s.y,
        };
        (CpuRegs { cycles: ins.cycles, ..s }, bus.store(mem, address, value), Ok(()))
    }
}

/// The wide sum `A + operand + C` of ADC; SBC adds the inverted operand.
pub open spec fn adc_sum(a: u8, operand: u8, p: u8) -> int {
    a + operand + if has_flag(p, FLAG_C) {
        1int
    } else {
        0int
    }
}

/// ADC, SBC: binary add with carry; SBC adds the one's complement of the operand.
pub open spec fn arith_step(s: CpuRegs, mem: Map<u16, u8>, ins: Instruction, operand: u16) -> Outcome {
    if !reads_value(ins.addressing) {
        refused(s, mem, CpuError::InvalidAddressMode)
    } else if !(ins.operation is ADC || ins.operation is SBC) {
        refused(s, mem, CpuError::InvalidOperation)
    } else {
        let (value, crossed) = operand_value(s, mem, ins.addressing, operand);
        let m = if ins.operation is SBC {
            !value
        } else {
            value
        };
        let sum = adc_sum(s.a, m, s.p);
        let r = (sum % 256) as u8;
        let p = with_flag(
            with_flag(with_flag(with_flag(s.p, FLAG_C, sum > 0xFF), FLAG_Z, r == 0), FLAG_V,
            ((m ^ r) & (s.a ^ r)) & 0x80 != 0),
            FLAG_N,
            r >= 0x80,
        );
        (CpuRegs { a: r, p, cycles: read_cycles(ins, crossed), ..s }, mem, Ok(()))
    }
}

/// AND, EOR, ORA: combine the operand into A and set Z and N.
pub open spec fn bitwise_step(s: CpuRegs, mem: Map<u16, u8>, ins: Instruction, operand: u16) -> Outcome {
    if !reads_value(ins.addressing) {
        refused(s, mem, CpuError::InvalidAddressMode)
    } else if !(ins.operation is AND || ins.operation is EOR || ins.operation is ORA) {
        refused(s, mem, CpuError::InvalidOperation)
    } else {
        let (value, crossed) = operand_value(s, mem, ins.addressing, operand);
        let r = match ins.operation {
            Operation::AND => s.a & value,
            Operation::EOR => s.a ^ value,
            _ => s.a | value,
        };
        (CpuRegs { a: r, p: with_zn(s.p, r), cycles: read_cycles(ins, crossed), ..s }, mem, Ok(()))
    }
}

/// The flag that a set or clear operation writes, and the value it writes.
pub open spec fn flag_op(op: Operation) -> (u8, bool) {
    match op {
        Operation::CLC => (FLAG_C, false),
        Operation::CLD => (FLAG_D, false),
        Operation::CLI => (FLAG_I, false),
        Operation::CLV => (FLAG_V, false),
        Operation::SEC => (FLAG_C, true),
        Operation::SED => (FLAG_D, true),
        _ => (FLAG_I, true),
    }
}

/// CLC, CLD, CLI, CLV, SEC, SED, SEI: set or clear one flag.
pub open spec fn flag_step(s: CpuRegs, mem: Map<u16, u8>, ins: Instruction) -> Outcome {
    if !(ins.addressing is Implicit) {
        refused(s, mem, CpuError::InvalidAddressMode)
    } else if !(ins.operation is CLC || ins.operation is CLD || ins.operation is CLI
        || ins.operation is CLV || ins.operation is SEC || ins.operation is SED
        || ins.operation is SEI) {
        refused(s, mem, CpuError::InvalidOperation)
    } else {
        let (flag, on) = flag_op(ins.operation);
        (CpuRegs { p: with_flag(s.p, flag, on), cycles: ins.cycles, ..s }, mem, Ok(()))
    }
}

/// Whether a branch operation is taken with status `p`.
pub open spec fn branch_taken(op: Operation, p: u8) -> bool {
    match op {
        Operation::BCC => !has_flag(p, FLAG_C),
        Operation::BCS => has_flag(p, FLAG_C),
        Operation::BEQ => has_flag(p, FLAG_Z),
        Operation::BMI => has_flag(p, FLAG_N),
        Operation::BNE => !has_flag(p, FLAG_Z),
        Operation::BPL => !has_flag(p, FLAG_N),
        Operation::BVC => !has_flag(p, FLAG_V),
        Operation::BVS => has_flag(p, FLAG_V),
        _ => false,
    }
}

/// The conditional branches.
pub open spec fn is_branch(op: Operation) -> bool {
    op is BCC || op is BCS || op is BEQ || op is BMI || op is BNE || op is BPL || op is BVC
        || op is BVS
}

/// Branches: when taken, PC moves by the signed offset, costing one cycle more,
/// or two when PC lands on another page.
pub open spec fn branch_step(s: CpuRegs, mem: Map<u16, u8>, ins: Instruction, operand: u16) -> Outcome {
    if !(ins.addressing is Relative) {
        refused(s, mem, CpuError::InvalidAddressMode)
    } else if !is_branch(ins.operation) {
        refused(s, mem, CpuError::InvalidOperation)
    } else if branch_taken(ins.operation, s.p) {
        let pc = add16(s.pc as int, (operand as i8) as int);
        let cycles = if pc & 0xFF00 != s.pc & 0xFF00 {
            (ins.cycles + 2) as usize
        } else {
            (ins.cycles + 1) as usize
        };
        (CpuRegs { pc, cycles, ..s }, mem, Ok(()))
    } else {
        (CpuRegs { cycles: ins.cycles, ..s }, mem, Ok(()))
    }
}

/// TAX, TAY, TSX, TXA, TXS, TYA: copy a register; all but TXS set Z and N.
pub open spec fn transfer_step(s: CpuRegs, mem: Map<u16, u8>, ins: Instruction) -> Outcome {
    if !(ins.addressing is Implicit) {
        refused(s, mem, CpuError::InvalidAddressMode)
    } else {
        let s0 = CpuRegs { cycles: ins.cycles, ..s };
        match ins.operation {
            Operation::TAX => (CpuRegs { x: s.a, p: with_zn(s.p, s.a), ..s0 }, mem, Ok(())),
            Operation::TAY => (CpuRegs { y: s.a, p: with_zn(s.p, s.a), ..s0 }, mem, Ok(())),
            Operation::TSX => (CpuRegs { x: s.sp, p: with_zn(s.p, s.sp), ..s0 }, mem, Ok(())),
            Operation::TXA => (CpuRegs { a: s.x, p: with_zn(s.p, s.x), ..s0 }, mem, Ok(())),
            Operation::TXS => (CpuRegs { sp: s.x, ..s0 }, mem, Ok(())),
            Operation::TYA => (CpuRegs { a: s.y, p: with_zn(s.p, s.y), ..s0 }, mem, Ok(())),
            _ => refused(s, mem, CpuError::InvalidOperation),
        }
    }
}

/// JMP, JSR, RTS, BRK, RTI.
pub open spec fn jump_step<B: CpuBus>(
    s: CpuRegs,
    mem: Map<u16, u8>,
    bus: B,
    ins: Instruction,
    operand: u16,
) -> Outcome {
    if !jumps_by(ins.addressing) {
        refused(s, mem, CpuError::InvalidAddressMode)
    } else if !(ins.operation is JMP || ins.operation is JSR || ins.operation is RTS
        || ins.operation is BRK || ins.operation is RTI) {
        refused(s, mem, CpuError::InvalidOperation)
    } else {
        let target = match resolve(s, mem, ins.addressing, operand) {
            AddressModeResult::Address { address, .. } => address,
            AddressModeResult::Indirect { pointer } => read_word(mem, pointer, true),
            _ => 0,
        };
        let s0 = CpuRegs { cycles: ins.cycles, ..s };
        match ins.operation {
            Operation::JMP => (CpuRegs { pc: target, ..s0 }, mem, Ok(())),
            Operation::JSR => jsr_spec(s0, mem, bus, target),
            Operation::RTS => rts_spec(s0, mem),
            Operation::BRK => brk_spec(s0, mem, bus),
            _ => rti_spec(s0, mem),
        }
    }
}

/// JSR: push the high then the low byte of `PC - 1`, then jump to `target`.
pub open spec fn jsr_spec<B: CpuBus>(s: CpuRegs, mem: Map<u16, u8>, bus: B, target: u16) -> Outcome {
    let ret = add16(s.pc as int, -1);
    let (s1, m1) = push_spec(s, mem, bus, (ret / 256) as u8);
    let (s2, m2) = push_spec(s1, m1, bus, (ret % 256) as u8);
    (CpuRegs { pc: target, ..s2 }, m2, Ok(()))
}

/// RTS: pull the low then the high byte of the return address, and resume after it.
pub open spec fn rts_spec(s: CpuRegs, mem: Map<u16, u8>) -> Outcome {
    let (s1, lo) = pull_spec(s, mem);
    let (s2, hi) = pull_spec(s1, mem);
    (CpuRegs { pc: add16(word(lo, hi) as int, 1), ..s2 }, mem, Ok(()))
}

/// BRK: push PC and `P | B | U`, set I, and jump through the vector at `0xFFFE`.
pub open spec fn brk_spec<B: CpuBus>(s: CpuRegs, mem: Map<u16, u8>, bus: B) -> Outcome {
    let (s1, m1) = push_spec(s, mem, bus, (s.pc / 256) as u8);
    let (s2, m2) = push_spec(s1, m1, bus, (s.pc % 256) as u8);
    let (s3, m3) = push_spec(s2, m2, bus, s.p | FLAG_B | FLAG_U);
    (CpuRegs { p: with_flag(s.p, FLAG_I, true), pc: read_word(m3, 0xFFFE, false), ..s3 }, m3, Ok(()))
}

/// RTI: pull P (U forced on, B off), then the low and high bytes of PC.
pub open spec fn rti_spec(s: CpuRegs, mem: Map<u16, u8>) -> Outcome {
    let (s1, flags) = pull_spec(s, mem);
    let (s2, lo) = pull_spec(s1, mem);
    let (s3, hi) = pull_spec(s2, mem);
    (CpuRegs { p: pulled_status(flags), pc: word(lo, hi), ..s3 }, mem, Ok(()))
}

/// The result of a shift or rotate of `value` with carry-in `c`, and the carry out.
pub open spec fn shift_result(op: Operation, value: u8, c: bool) -> (u8, bool) {
    let cin: int = if c {
        1
    } else {
        0
    };
    match op {
        Operation::ASL => (((value * 2) % 256) as u8, value >= 0x80),
        Operation::LSR => ((value / 2) as u8, value % 2 == 1),
        Operation::ROL => (((value * 2) % 256 + cin) as u8, value >= 0x80),
        _ => ((value / 2 + cin * 128) as u8, value % 2 == 1),
    }
}

/// ASL, LSR, ROL, ROR on A or on memory.
pub open spec fn shift_step<B: CpuBus>(
    s: CpuRegs,
    mem: Map<u16, u8>,
    bus: B,
    ins: Instruction,
    operand: u16,
) -> Outcome {
    if !shifts_in(ins.addressing) {
        refused(s, mem, CpuError::InvalidAddressMode)
    } else if !(ins.operation is ASL || ins.operation is LSR || ins.operation is ROL
        || ins.operation is ROR) {
        refused(s, mem, CpuError::InvalidOperation)
    } else {
        let address = location(s, mem, ins.addressing, operand);
        let on_a = ins.addressing is Accumulator;
        let value = if on_a {
            s.a
        } else {
            mem[address]
        };
        let (r, carry) = shift_result(ins.operation, value, has_flag(s.p, FLAG_C));
        let p = with_zn(with_flag(s.p, FLAG_C, carry), r);
        if on_a {
            (CpuRegs { a: r, p, cycles: ins.cycles, ..s }, mem, Ok(()))
        } else {
            (CpuRegs { p, cycles: ins.cycles, ..s }, bus.store(mem, address, r), Ok(()))
        }
    }
}

/// CMP, CPX, CPY: compare a register with the operand, setting C, Z and N.
pub open spec fn compare_step(s: CpuRegs, mem: Map<u16, u8>, ins: Instruction, operand: u16) -> Outcome {
    if !reads_value(ins.addressing) {
        refused(s, mem, CpuError::InvalidAddressMode)
    } else if !(ins.operation is CMP || ins.operation is CPX || ins.operation is CPY) {
        refused(s, mem, CpuError::InvalidOperation)
    } else {
        let (value, crossed) = operand_value(s, mem, ins.addressing, operand);
        let reg = match ins.operation {
            Operation::CMP => s.a,
            Operation::CPX => s.x,
            _ => s.y,
        };
        let diff = add8(reg as int, -(value as int));
        let p = with_flag(
            with_flag(with_flag(s.p, FLAG_C, reg >= value), FLAG_Z, reg == value),
            FLAG_N,
            diff >= 0x80,
        );
        (CpuRegs { p, cycles: read_cycles(ins, crossed), ..s }, mem, Ok(()))
    }
}

/// PHA, PHP, PLA, PLP.
pub open spec fn stack_step<B: CpuBus>(s: CpuRegs, mem: Map<u16, u8>, bus: B, ins: Instruction) -> Outcome {
    if !(ins.addressing is Implicit) {
        refused(s, mem, CpuError::InvalidAddressMode)
    } else {
        let s0 = CpuRegs { cycles: ins.cycles, ..s };
        match ins.operation {
            Operation::PHA => {
                let (s1, m1) = push_spec(s0, mem, bus, s.a);
                (s1, m1, Ok(()))
            },
            Operation::PHP => {
                let (s1, m1) = push_spec(s0, mem, bus, s.p | FLAG_U | FLAG_B);
                (s1, m1, Ok(()))
            },
            Operation::PLA => {
                let (s1, v) = pull_spec(s0, mem);
                (CpuRegs { a: v, p: with_zn(s.p, v), ..s1 }, mem, Ok(()))
            },
            Operation::PLP => {
                let (s1, v) = pull_spec(s0, mem);
                (CpuRegs { p: pulled_status(v), ..s1 }, mem, Ok(()))
            },
            _ => refused(s, mem, CpuError::InvalidOperation),
        }
    }
}

/// NOP: only the cycles.
pub open spec fn nop_step(s: CpuRegs, mem: Map<u16, u8>, ins: Instruction) -> Outcome {
    if !(ins.addressing is Implicit) {
        refused(s, mem, CpuError::InvalidAddressMode)
    } else if !(ins.operation is NOP) {
        refused(s, mem, CpuError::InvalidOperation)
    } else {
        (CpuRegs { cycles: ins.cycles, ..s }, mem, Ok(()))
    }
}

/// One decoded instruction, handed to the handler of its operation's family.
pub open spec fn execute<B: CpuBus>(
    s: CpuRegs,
    mem: Map<u16, u8>,
    bus: B,
    ins: Instruction,
    operand: u16,
) -> Outcome {
    match ins.operation {
        Operation::LDA | Operation::LDX | Operation::LDY => load_step(s, mem, ins, operand),
        Operation::STA | Operation::STX | Operation::STY => store_step(s, mem, bus, ins, operand),
        Operation::ADC | Operation::SBC => arith_step(s, mem, ins, operand),
        Operation::AND | Operation::EOR | Operation::ORA => bitwise_step(s, mem, ins, operand),
        Operation::CMP | Operation::CPX | Operation::CPY => compare_step(s, mem, ins, operand),
        Operation::ASL | Operation::LSR | Operation::ROL | Operation::ROR => shift_step(
            s,
            mem,
            bus,
            ins,
            operand,
        ),
        Operation::BCC | Operation::BCS | Operation::BEQ | Operation::BMI | Operation::BNE
        | Operation::BPL | Operation::BVC | Operation::BVS => branch_step(s, mem, ins, operand),
        Operation::CLC | Operation::CLD | Operation::CLI | Operation::CLV | Operation::SEC
        | Operation::SED | Operation::SEI => flag_step(s, mem, ins),
        Operation::TAX | Operation::TAY | Operation::TSX | Operation::TXA | Operation::TXS
        | Operation::TYA => transfer_step(s, mem, ins),
        Operation::JMP | Operation::JSR | Operation::RTS | Operation::BRK | Operation::RTI => jump_step(
            s,
            mem,
            bus,
            ins,
            operand,
        ),
        Operation::PHA | Operation::PHP | Operation::PLA | Operation::PLP => stack_step(s, mem, bus, ins),
        Operation::NOP => nop_step(s, mem, ins),
    }
}

/// One instruction: fetch the opcode at PC, decode it, fetch its operand
/// bytes (little-endian) and execute it.
pub open spec fn step_spec<B: CpuBus>(s: CpuRegs, mem: Map<u16, u8>, bus: B) -> Outcome {
    let s1 = CpuRegs { pc: add16(s.pc as int, 1), ..s };
    match decode(mem[s.pc]) {
        None => (s1, mem, Err(CpuError::UnknownOpcode)),
        Some(ins) => execute(
            CpuRegs { pc: add16(s1.pc as int, operand_len(ins.addressing) as int), ..s1 },
            mem,
            bus,
            ins,
            operand_at(mem, s1.pc, ins.addressing),
        ),
    }
}

/// The operand bytes at `pc` of an instruction in `mode`, as a little-endian word.
pub open spec fn operand_at(mem: Map<u16, u8>, pc: u16, mode: AddressMode) -> u16 {
    let n = operand_len(mode);
    if n == 0 {
        0
    } else if n == 1 {
        mem[pc] as u16
    } else {
        word(mem[pc], mem[add16(pc as int, 1)])
    }
}

/// Whether a mode names a value to read.
fn value_mode(mode: &AddressMode) -> (r: bool)
    ensures
        r == reads_value(*mode),
{
    match mode {
        AddressMode::Accumulator | AddressMode::Relative | AddressMode::Indirect
        | AddressMode::Implicit => false,
        _ => true,
    }
}

/// Whether a mode names a memory location.
fn location_mode(mode: &AddressMode) -> (r: bool)
    ensures
        r == names_location(*mode),
{
    match mode {
        AddressMode::Immediate => false,
        _ => value_mode(mode),
    }
}

/// Whether a mode takes no operand.
fn implicit_mode(mode: &AddressMode) -> (r: bool)
    ensures
        r == (*mode is Implicit),
{
    match mode {
        AddressMode::Implicit => true,
        _ => false,
    }
}

/// The processor: its registers, the cycle cost of the last instruction, and
/// the bus it drives.
#[allow(non_snake_case)]
pub struct CPU<B: CpuBus> {
    pub A: u8,
    pub X: u8,
    pub Y: u8,
    pub SP: u8,
    pub PC: u16,
    pub P: u8,
    pub cycles_remaining: usize,
    pub halted: bool,
    pub cpu_bus: B,
}

impl<B: CpuBus> CPU<B> {
    /// The status bits, as masks of `P`.
    pub const CARRY: u8 = FLAG_C;
    pub const ZERO: u8 = FLAG_Z;
    pub const INTERRUPT: u8 = FLAG_I;
    pub const DECIMAL: u8 = FLAG_D;
    pub const BREAK: u8 = FLAG_B;
    pub const UNUSED: u8 = FLAG_U;
    pub const OVERFLOW: u8 = FLAG_V;
    pub const NEGATIVE: u8 = FLAG_N;

    /// The registers of this state.
    pub open spec fn regs(&self) -> CpuRegs {
        CpuRegs {
            a: self.A,
            x: self.X,
            y: self.Y,
            sp: self.SP,
            pc: self.PC,
            p: self.P,
            cycles: self.cycles_remaining,
            halted: self.halted,
        }
    }

    /// What each address reads as on the bus.
    pub open spec fn mem(&self) -> Map<u16, u8> {
        self.cpu_bus.memory()
    }

    /// `post` is this state after an operation whose outcome is `out`, returning `r`.
    pub open spec fn lands(&self, post: &Self, out: Outcome, r: Result<(), CpuError>) -> bool {
        &&& post.regs() == out.0
        &&& post.mem() == out.1
        &&& r == out.2
        &&& same_wiring(self.cpu_bus, post.cpu_bus)
    }

    /// `post` has this state's registers but for the ones given, and this state's memory.
    pub open spec fn moves_to(&self, post: &Self, regs: CpuRegs) -> bool {
        &&& post.regs() == regs
        &&& post.mem() == self.mem()
        &&& same_wiring(self.cpu_bus, post.cpu_bus)
    }

    /// A processor in its power-on state over `cpu_bus`.
    pub fn new(cpu_bus: B) -> (r: Self)
        ensures
            r.regs() == (CpuRegs { a: 0, x: 0, y: 0, sp: 0xFD, pc: 0, p: 0x24, cycles: 0, halted: false }),
            r.cpu_bus == cpu_bus,
    {
        CPU {
            A: 0x00,
            X: 0x00,
            Y: 0x00,
            SP: 0xFD,
            PC: 0x0000,
            P: 0x24,
            cycles_remaining: 0,
            halted: false,
            cpu_bus,
        }
    }

    /// Sets or clears `flag` in `P`, then forces the unused bit on.
    pub fn set_flag(&mut self, flag: u8, set: bool)
        ensures
            final(self).regs() == (CpuRegs { p: with_flag(old(self).P, flag, set), ..old(self).regs() }),
            final(self).cpu_bus == old(self).cpu_bus,
    {
        self.P = if set {
            self.P | flag
        } else {
            self.P & !flag
        };
        self.P = self.P | Self::UNUSED;
    }

    /// Whether `flag` is set in `P`.
    pub fn get_flag(&self, flag: u8) -> (r: bool)
        ensures
            r == has_flag(self.P, flag),
    {
        (self.P & flag) != 0
    }

    /// Reads a byte through the bus.
    pub fn bus_read(&mut self, address: u16) -> (r: u8)
        ensures
            r == old(self).mem()[address],
            old(self).moves_to(final(self), old(self).regs()),
    {
        self.cpu_bus.cpu_read(address)
    }

    /// Writes a byte through the bus.
    pub fn bus_write(&mut self, address: u16, value: u8)
        ensures
            final(self).regs() == old(self).regs(),
            final(self).mem() == old(self).cpu_bus.store(old(self).mem(), address, value),
            same_wiring(old(self).cpu_bus, final(self).cpu_bus),
    {
        self.cpu_bus.cpu_write(address, value);
    }

    /// Reads a little-endian word.
    fn read_u16(&mut self, address: u16, wrap_mode: WrapMode) -> (r: u16)
        ensures
            r == read_word(old(self).mem(), address, wrap_mode is JmpIndirect),
            old(self).moves_to(final(self), old(self).regs()),
    {
        let lower_byte = self.bus_read(address);
        let upper_byte = match wrap_mode {
            WrapMode::JmpIndirect => {
                if address % 256 == 0xFF {
                    self.bus_read(address - 0xFF)
                } else {
                    self.bus_read(address.wrapping_add(1))
                }
            },
            WrapMode::Normal => self.bus_read(address.wrapping_add(1)),
        };
        lower_byte as u16 + upper_byte as u16 * 256
    }

    /// Writes `value` at `0x0100 | SP`, then decrements SP.
    fn push_to_stack(&mut self, value: u8)
        ensures
            ({
                let (regs, mem) = push_spec(old(self).regs(), old(self).mem(), old(self).cpu_bus, value);
                &&& final(self).regs() == regs
                &&& final(self).mem() == mem
                &&& same_wiring(old(self).cpu_bus, final(self).cpu_bus)
            }),
    {
        let stack_address = 0x0100u16 + self.SP as u16;
        self.bus_write(stack_address, value);
        self.SP = self.SP.wrapping_sub(1);
    }

    /// Increments SP, then reads the byte at `0x0100 | SP`.
    fn pull_from_stack(&mut self) -> (r: u8)
        ensures
            ({
                let (regs, value) = pull_spec(old(self).regs(), old(self).mem());
                &&& r == value
                &&& old(self).moves_to(final(self), regs)
            }),
    {
        self.SP = self.SP.wrapping_add(1);
        let stack_address = 0x0100u16 + self.SP as u16;
        self.bus_read(stack_address)
    }

    /// Puts the registers in their reset state and loads `PC` from the reset vector.
    pub fn reset(&mut self)
        ensures
            old(self).moves_to(
                final(self),
                CpuRegs {
                    a: 0,
                    x: 0,
                    y: 0,
                    sp: 0xFD,
                    pc: read_word(old(self).mem(), 0xFFFC, false),
                    p: 0x24,
                    cycles: 7,
                    halted: false,
                },
            ),
    {
        self.A = 0x00;
        self.X = 0x00;
        self.Y = 0x00;
        self.SP = 0xFD;
        self.PC = self.read_u16(0xFFFC, WrapMode::Normal);
        self.P = 0x24;
        self.cycles_remaining = 7;
        self.halted = false;
    }

    /// Reads the byte at `PC` and moves `PC` past it.
    pub fn fetch_pc_byte(&mut self) -> (r: u8)
        ensures
            r == old(self).mem()[old(self).PC],
            old(self).moves_to(
                final(self),
                CpuRegs { pc: add16(old(self).PC as int, 1), ..old(self).regs() },
            ),
    {
        let mem_byte = self.bus_read(self.PC);
        self.PC = self.PC.wrapping_add(1);
        mem_byte
    }

    /// Resolves an addressing mode for the operand bytes `operand`, reading
    /// the zero-page pointer of the indexed-indirect modes.
    #[verifier::rlimit(40)]
    pub fn address_mapper(&mut self, address_mode: &AddressMode, operand: &u16) -> (r: AddressModeResult)
        ensures
            r == resolve(old(self).regs(), old(self).mem(), *address_mode, *operand),
            old(self).moves_to(final(self), old(self).regs()),
    {
        let operand = *operand;
        match address_mode {
            AddressMode::ZeroPageIndexedX => {
                let address = ((operand % 256) as u8).wrapping_add(self.X);
                AddressModeResult::ZeroPage { address }
            },
            AddressMode::ZeroPageIndexedY => {
                let address = ((operand % 256) as u8).wrapping_add(self.Y);
                AddressModeResult::ZeroPage { address }
            },
            AddressMode::AbsoluteIndexedX => {
                let address = operand.wrapping_add(self.X as u16);
                AddressModeResult::Address {
                    address,
                    page_crossed: operand & 0xFF00 != address & 0xFF00,
                }
            },
            AddressMode::AbsoluteIndexedY => {
                let address = operand.wrapping_add(self.Y as u16);
                AddressModeResult::Address {
                    address,
                    page_crossed: operand & 0xFF00 != address & 0xFF00,
                }
            },
            AddressMode::IndexedIndirectX => {
                let pointer = ((operand % 256) as u8).wrapping_add(self.X);
                let lo = self.bus_read(pointer as u16);
                let hi = self.bus_read(pointer.wrapping_add(1) as u16);
                AddressModeResult::Address {
                    address: lo as u16 + hi as u16 * 256,
                    page_crossed: false,
                }
            },
            AddressMode::IndexedIndirectY => {
                let pointer = (operand % 256) as u8;
                let lo = self.bus_read(pointer as u16);
                let hi = self.bus_read(pointer.wrapping_add(1) as u16);
                let base = lo as u16 + hi as u16 * 256;
                let address = base.wrapping_add(self.Y as u16);
                AddressModeResult::Address { address, page_crossed: base & 0xFF00 != address & 0xFF00 }
            },
            AddressMode::Accumulator => AddressModeResult::Accumulator,
            AddressMode::Immediate => AddressModeResult::Immediate { value: (operand % 256) as u8 },
            AddressMode::ZeroPage => AddressModeResult::ZeroPage { address: (operand % 256) as u8 },
            AddressMode::Absolute => AddressModeResult::Address { address: operand, page_crossed: false },
            AddressMode::Relative => AddressModeResult::Relative { offset: operand as i8 },
            AddressMode::Indirect => AddressModeResult::Indirect { pointer: operand },
            AddressMode::Implicit => AddressModeResult::Implicit,
        }
    }
    /// Reads the value that an instruction in a value-reading mode works on,
    /// and whether indexing crossed a page.
    fn read_operand(&mut self, address_mode: &AddressMode, operand: u16) -> (r: (u8, bool))
        requires
            reads_value(*address_mode),
        ensures
            r == operand_value(old(self).regs(), old(self).mem(), *address_mode, operand),
            old(self).moves_to(final(self), old(self).regs()),
    {
        match self.address_mapper(address_mode, &operand) {
            AddressModeResult::Address { address, page_crossed } => (self.bus_read(address), page_crossed),
            AddressModeResult::ZeroPage { address } => (self.bus_read(address as u16), false),
            AddressModeResult::Immediate { value } => (value, false),
            _ => (0, false),
        }
    }

    /// Base cycles, plus one when a read crossed a page.
    fn set_read_cycles(&mut self, instruction: &Instruction, page_crossed: bool)
        requires
            instruction.cycles < usize::MAX,
        ensures
            final(self).regs() == (CpuRegs {
                cycles: read_cycles(*instruction, page_crossed),
                ..old(self).regs()
            }),
            final(self).cpu_bus == old(self).cpu_bus,
    {
        self.cycles_remaining = if page_crossed {
            instruction.cycles + 1
        } else {
            instruction.cycles
        };
    }

    /// LDA, LDX, LDY.
    pub fn load_memory(&mut self, instruction: &Instruction, operand: u16) -> (r: Result<(), CpuError>)
        requires
            instruction.cycles < usize::MAX,
        ensures
            old(self).lands(
                final(self),
                load_step(old(self).regs(), old(self).mem(), *instruction, operand),
                r,
            ),
    {
        if !value_mode(&instruction.addressing) {
            return Err(CpuError::InvalidAddressMode);
        }
        match instruction.operation {
            Operation::LDA | Operation::LDX | Operation::LDY => {},
            _ => return Err(CpuError::InvalidOperation),
        }
        let (value, page_crossed) = self.read_operand(&instruction.addressing, operand);
        self.set_read_cycles(instruction, page_crossed);
        self.set_flag(Self::ZERO, value == 0);
        self.set_flag(Self::NEGATIVE, value >= 0x80);
        match instruction.operation {
            Operation::LDA => self.A = value,
            Operation::LDX => self.X = value,
            _ => self.Y = value,
        }
        Ok(())
    }

    /// STA, STX, STY.
    pub fn store_memory(&mut self, instruction: &Instruction, operand: u16) -> (r: Result<(), CpuError>)
        ensures
            old(self).lands(
                final(self),
                store_step(old(self).regs(), old(self).mem(), old(self).cpu_bus, *instruction, operand),
                r,
            ),
    {
        if !location_mode(&instruction.addressing) {
            return Err(CpuError::InvalidAddressMode);
        }
        let value = match instruction.operation {
            Operation::STA => self.A,
            Operation::STX => self.X,
            Operation::STY => self.Y,
            _ => return Err(CpuError::InvalidOperation),
        };
        let address = match self.address_mapper(&instruction.addressing, &operand) {
            AddressModeResult::Address { address, .. } => address,
            AddressModeResult::ZeroPage { address } => address as u16,
            _ => 0,
        };
        self.cycles_remaining = instruction.cycles;
        self.bus_write(address, value);
        Ok(())
    }

    /// ADC, SBC (binary mode only; D is ignored).
    pub fn arithmetic_operation(&mut self, instruction: &Instruction, operand: u16) -> (r: Result<
        (),
        CpuError,
    >)
        requires
            instruction.cycles < usize::MAX,
        ensures
            old(self).lands(
                final(self),
                arith_step(old(self).regs(), old(self).mem(), *instruction, operand),
                r,
            ),
    {
        if !value_mode(&instruction.addressing) {
            return Err(CpuError::InvalidAddressMode);
        }
        let subtract = match instruction.operation {
            Operation::ADC => false,
            Operation::SBC => true,
            _ => return Err(CpuError::InvalidOperation),
        };
        let (value, page_crossed) = self.read_operand(&instruction.addressing, operand);
        self.set_read_cycles(instruction, page_crossed);
        let m = if subtract {
            !value
        } else {
            value
        };
        let carry: u16 = if self.get_flag(Self::CARRY) {
            1
        } else {
            0
        };
        let prev_a = self.A;
        let result: u16 = prev_a as u16 + m as u16 + carry;
        let r8 = (result % 256) as u8;
        self.set_flag(Self::CARRY, result > 0xFF);
        self.set_flag(Self::ZERO, r8 == 0);
        self.set_flag(Self::OVERFLOW, ((m ^ r8) & (prev_a ^ r8)) & 0x80 != 0);
        self.set_flag(Self::NEGATIVE, r8 >= 0x80);
        self.A = r8;
        Ok(())
    }

    /// AND, EOR, ORA.
    pub fn bitwise_logic(&mut self, instruction: &Instruction, operand: u16) -> (r: Result<(), CpuError>)
        requires
            instruction.cycles < usize::MAX,
        ensures
            old(self).lands(
                final(self),
                bitwise_step(old(self).regs(), old(self).mem(), *instruction, operand),
                r,
            ),
    {
        if !value_mode(&instruction.addressing) {
            return Err(CpuError::InvalidAddressMode);
        }
        match instruction.operation {
            Operation::AND | Operation::EOR | Operation::ORA => {},
            _ => return Err(CpuError::InvalidOperation),
        }
        let (value, page_crossed) = self.read_operand(&instruction.addressing, operand);
        self.set_read_cycles(instruction, page_crossed);
        let result = match instruction.operation {
            Operation::AND => self.A & value,
            Operation::EOR => self.A ^ value,
            _ => self.A | value,
        };
        self.set_flag(Self::ZERO, result == 0);
        self.set_flag(Self::NEGATIVE, result >= 0x80);
        self.A = result;
        Ok(())
    }

    /// CLC, CLD, CLI, CLV, SEC, SED, SEI.
    pub fn set_flag_operation(&mut self, instruction: &Instruction) -> (r: Result<(), CpuError>)
        ensures
            old(self).lands(final(self), flag_step(old(self).regs(), old(self).mem(), *instruction), r),
    {
        if !implicit_mode(&instruction.addressing) {
            return Err(CpuError::InvalidAddressMode);
        }
        let (flag, set) = match instruction.operation {
            Operation::CLC => (Self::CARRY, false),
            Operation::CLD => (Self::DECIMAL, false),
            Operation::CLI => (Self::INTERRUPT, false),
            Operation::CLV => (Self::OVERFLOW, false),
            Operation::SEC => (Self::CARRY, true),
            Operation::SED => (Self::DECIMAL, true),
            Operation::SEI => (Self::INTERRUPT, true),
            _ => return Err(CpuError::InvalidOperation),
        };
        self.cycles_remaining = instruction.cycles;
        self.set_flag(flag, set);
        Ok(())
    }

    /// Moves PC by `offset` and charges the taken-branch cycles.
    fn take_branch(&mut self, offset: i8, instruction: &Instruction)
        requires
            instruction.cycles < usize::MAX - 1,
        ensures
            ({
                let pc = add16(old(self).PC as int, offset as int);
                final(self).regs() == (CpuRegs {
                    pc,
                    cycles: if pc & 0xFF00 != old(self).PC & 0xFF00 {
                        (instruction.cycles + 2) as usize
                    } else {
                        (instruction.cycles + 1) as usize
                    },
                    ..old(self).regs()
                })
            }),
            final(self).cpu_bus == old(self).cpu_bus,
    {
        let delta: u16 = if offset >= 0 {
            offset as u16
        } else {
            (offset as i32 + 0x10000) as u16
        };
        let new_pc = self.PC.wrapping_add(delta);
        self.cycles_remaining = if new_pc & 0xFF00 != self.PC & 0xFF00 {
            instruction.cycles + 2
        } else {
            instruction.cycles + 1
        };
        self.PC = new_pc;
    }

    /// BCC, BCS, BEQ, BMI, BNE, BPL, BVC, BVS.
    pub fn branch_operation(&mut self, instruction: &Instruction, operand: u16) -> (r: Result<(), CpuError>)
        requires
            instruction.cycles < usize::MAX - 1,
        ensures
            old(self).lands(
                final(self),
                branch_step(old(self).regs(), old(self).mem(), *instruction, operand),
                r,
            ),
    {
        match instruction.addressing {
            AddressMode::Relative => {},
            _ => return Err(CpuError::InvalidAddressMode),
        }
        let taken = match instruction.operation {
            Operation::BCC => !self.get_flag(Self::CARRY),
            Operation::BCS => self.get_flag(Self::CARRY),
            Operation::BEQ => self.get_flag(Self::ZERO),
            Operation::BMI => self.get_flag(Self::NEGATIVE),
            Operation::BNE => !self.get_flag(Self::ZERO),
            Operation::BPL => !self.get_flag(Self::NEGATIVE),
            Operation::BVC => !self.get_flag(Self::OVERFLOW),
            Operation::BVS => self.get_flag(Self::OVERFLOW),
            _ => return Err(CpuError::InvalidOperation),
        };
        let offset = match self.address_mapper(&instruction.addressing, &operand) {
            AddressModeResult::Relative { offset } => offset,
            _ => 0,
        };
        if taken {
            self.take_branch(offset, instruction);
        } else {
            self.cycles_remaining = instruction.cycles;
        }
        Ok(())
    }

    /// Sets Z and N from a transferred value.
    fn set_transfer_flags(&mut self, value: u8)
        ensures
            final(self).regs() == (CpuRegs { p: with_zn(old(self).P, value), ..old(self).regs() }),
            final(self).cpu_bus == old(self).cpu_bus,
    {
        self.set_flag(Self::ZERO, value == 0);
        self.set_flag(Self::NEGATIVE, value >= 0x80);
    }

    /// TAX, TAY, TSX, TXA, TXS, TYA.
    pub fn transfer_operations(&mut self, instruction: &Instruction) -> (r: Result<(), CpuError>)
        ensures
            old(self).lands(final(self), transfer_step(old(self).regs(), old(self).mem(), *instruction), r),
    {
        if !implicit_mode(&instruction.addressing) {
            return Err(CpuError::InvalidAddressMode);
        }
        match instruction.operation {
            Operation::TAX | Operation::TAY | Operation::TSX | Operation::TXA | Operation::TXS
            | Operation::TYA => {},
            _ => return Err(CpuError::InvalidOperation),
        }
        self.cycles_remaining = instruction.cycles;
        match instruction.operation {
            Operation::TAX => {
                let value = self.A;
                self.set_transfer_flags(value);
                self.X = value;
            },
            Operation::TAY => {
                let value = self.A;
                self.set_transfer_flags(value);
                self.Y = value;
            },
            Operation::TSX => {
                let value = self.SP;
                self.set_transfer_flags(value);
                self.X = value;
            },
            Operation::TXA => {
                let value = self.X;
                self.set_transfer_flags(value);
                self.A = value;
            },
            Operation::TXS => self.SP = self.X,
            _ => {
                let value = self.Y;
                self.set_transfer_flags(value);
                self.A = value;
            },
        }
        Ok(())
    }

    /// JMP, JSR, RTS, BRK, RTI.
    pub fn jump_operations(&mut self, instruction: &Instruction, operand: u16) -> (r: Result<(), CpuError>)
        ensures
            old(self).lands(
                final(self),
                jump_step(old(self).regs(), old(self).mem(), old(self).cpu_bus, *instruction, operand),
                r,
            ),
    {
        match instruction.addressing {
            AddressMode::Absolute | AddressMode::AbsoluteIndexedX | AddressMode::AbsoluteIndexedY
            | AddressMode::IndexedIndirectX | AddressMode::IndexedIndirectY | AddressMode::Indirect
            | AddressMode::Implicit => {},
            _ => return Err(CpuError::InvalidAddressMode),
        }
        match instruction.operation {
            Operation::JMP | Operation::JSR | Operation::RTS | Operation::BRK | Operation::RTI => {},
            _ => return Err(CpuError::InvalidOperation),
        }
        let address = match self.address_mapper(&instruction.addressing, &operand) {
            AddressModeResult::Address { address, .. } => address,
            AddressModeResult::Indirect { pointer } => self.read_u16(pointer, WrapMode::JmpIndirect),
            _ => 0,
        };
        self.cycles_remaining = instruction.cycles;
        match instruction.operation {
            Operation::JMP => {
                self.PC = address;
                Ok(())
            },
            Operation::JSR => self.jump_to_subroutine(address),
            Operation::RTS => self.return_from_subroutine(),
            Operation::BRK => self.software_interrupt(),
            _ => self.return_from_interrupt(),
        }
    }

    /// JSR once the target is known.
    fn jump_to_subroutine(&mut self, target: u16) -> (r: Result<(), CpuError>)
        ensures
            old(self).lands(final(self), jsr_spec(old(self).regs(), old(self).mem(), old(self).cpu_bus, target), r),
    {
        let ret = self.PC.wrapping_sub(1);
        self.push_to_stack((ret / 256) as u8);
        self.push_to_stack((ret % 256) as u8);
        self.PC = target;
        Ok(())
    }

    /// RTS.
    fn return_from_subroutine(&mut self) -> (r: Result<(), CpuError>)
        ensures
            old(self).lands(final(self), rts_spec(old(self).regs(), old(self).mem()), r),
    {
        let pc_low = self.pull_from_stack();
        let pc_high = self.pull_from_stack();
        self.PC = (pc_low as u16 + pc_high as u16 * 256).wrapping_add(1);
        Ok(())
    }

    /// BRK.
    fn software_interrupt(&mut self) -> (r: Result<(), CpuError>)
        ensures
            old(self).lands(final(self), brk_spec(old(self).regs(), old(self).mem(), old(self).cpu_bus), r),
    {
        let pc = self.PC;
        let p = self.P;
        self.push_to_stack((pc / 256) as u8);
        self.push_to_stack((pc % 256) as u8);
        self.push_to_stack(p | Self::BREAK | Self::UNUSED);
        self.set_flag(Self::INTERRUPT, true);
        self.PC = self.read_u16(0xFFFE, WrapMode::Normal);
        Ok(())
    }

    /// RTI.
    fn return_from_interrupt(&mut self) -> (r: Result<(), CpuError>)
        ensures
            old(self).lands(final(self), rti_spec(old(self).regs(), old(self).mem()), r),
    {
        let flags = self.pull_from_stack();
        self.P = (flags | Self::UNUSED) & !Self::BREAK;
        let pc_low = self.pull_from_stack();
        let pc_high = self.pull_from_stack();
        self.PC = pc_low as u16 + pc_high as u16 * 256;
        Ok(())
    }

    /// ASL, LSR, ROL, ROR.
    pub fn shift_operations(&mut self, instruction: &Instruction, operand: u16) -> (r: Result<(), CpuError>)
        ensures
            old(self).lands(
                final(self),
                shift_step(old(self).regs(), old(self).mem(), old(self).cpu_bus, *instruction, operand),
                r,
            ),
    {
        match instruction.addressing {
            AddressMode::Accumulator => {},
            _ => {
                if !location_mode(&instruction.addressing) {
                    return Err(CpuError::InvalidAddressMode);
                }
            },
        }
        match instruction.operation {
            Operation::ASL | Operation::LSR | Operation::ROL | Operation::ROR => {},
            _ => return Err(CpuError::InvalidOperation),
        }
        let (address, accumulator) = match self.address_mapper(&instruction.addressing, &operand) {
            AddressModeResult::Accumulator => (0, true),
            AddressModeResult::ZeroPage { address } => (address as u16, false),
            AddressModeResult::Address { address, .. } => (address, false),
            _ => (0, false),
        };
        self.cycles_remaining = instruction.cycles;
        let value = if accumulator {
            self.A
        } else {
            self.bus_read(address)
        };
        let carry_in: u8 = if self.get_flag(Self::CARRY) {
            1
        } else {
            0
        };
        let (result, carry_out) = match instruction.operation {
            Operation::ASL => (((value as u16 * 2) % 256) as u8, value >= 0x80),
            Operation::LSR => (value / 2, value % 2 == 1),
            Operation::ROL => (((value as u16 * 2) % 256 + carry_in as u16) as u8, value >= 0x80),
            _ => (value / 2 + carry_in * 128, value % 2 == 1),
        };
        self.set_flag(Self::CARRY, carry_out);
        self.set_flag(Self::ZERO, result == 0);
        self.set_flag(Self::NEGATIVE, result >= 0x80);
        if accumulator {
            self.A = result;
        } else {
            self.bus_write(address, result);
        }
        Ok(())
    }

    /// CMP, CPX, CPY.
    pub fn compare_operations(&mut self, instruction: &Instruction, operand: u16) -> (r: Result<(), CpuError>)
        requires
            instruction.cycles < usize::MAX,
        ensures
            old(self).lands(
                final(self),
                compare_step(old(self).regs(), old(self).mem(), *instruction, operand),
                r,
            ),
    {
        if !value_mode(&instruction.addressing) {
            return Err(CpuError::InvalidAddressMode);
        }
        let register = match instruction.operation {
            Operation::CMP => self.A,
            Operation::CPX => self.X,
            Operation::CPY => self.Y,
            _ => return Err(CpuError::InvalidOperation),
        };
        let (value, page_crossed) = self.read_operand(&instruction.addressing, operand);
        self.set_read_cycles(instruction, page_crossed);
        let result = register.wrapping_sub(value);
        self.set_flag(Self::CARRY, register >= value);
        self.set_flag(Self::ZERO, register == value);
        self.set_flag(Self::NEGATIVE, result >= 0x80);
        Ok(())
    }

    /// PHA, PHP, PLA, PLP.
    pub fn stack_operations(&mut self, instruction: &Instruction) -> (r: Result<(), CpuError>)
        ensures
            old(self).lands(
                final(self),
                stack_step(old(self).regs(), old(self).mem(), old(self).cpu_bus, *instruction),
                r,
            ),
    {
        if !implicit_mode(&instruction.addressing) {
            return Err(CpuError::InvalidAddressMode);
        }
        match instruction.operation {
            Operation::PHA | Operation::PHP | Operation::PLA | Operation::PLP => {},
            _ => return Err(CpuError::InvalidOperation),
        }
        self.cycles_remaining = instruction.cycles;
        match instruction.operation {
            Operation::PHA => {
                let a = self.A;
                self.push_to_stack(a);
            },
            Operation::PHP => {
                let p = self.P;
                self.push_to_stack(p | Self::UNUSED | Self::BREAK);
            },
            Operation::PLA => {
                let value = self.pull_from_stack();
                self.set_flag(Self::ZERO, value == 0);
                self.set_flag(Self::NEGATIVE, value >= 0x80);
                self.A = value;
            },
            _ => {
                let value = self.pull_from_stack();
                self.P = (value | Self::UNUSED) & !Self::BREAK;
            },
        }
        Ok(())
    }

    /// NOP.
    pub fn nop_operation(&mut self, instruction: &Instruction) -> (r: Result<(), CpuError>)
        ensures
            old(self).lands(final(self), nop_step(old(self).regs(), old(self).mem(), *instruction), r),
    {
        if !implicit_mode(&instruction.addressing) {
            return Err(CpuError::InvalidAddressMode);
        }
        match instruction.operation {
            Operation::NOP => {},
            _ => return Err(CpuError::InvalidOperation),
        }
        self.cycles_remaining = instruction.cycles;
        Ok(())
    }
    /// Fetches the operand bytes of an instruction in `address_mode`, moving PC past them.
    fn fetch_operand(&mut self, address_mode: &AddressMode) -> (r: u16)
        ensures
            r == operand_at(old(self).mem(), old(self).PC, *address_mode),
            old(self).moves_to(
                final(self),
                CpuRegs {
                    pc: add16(old(self).PC as int, operand_len(*address_mode) as int),
                    ..old(self).regs()
                },
            ),
    {
        match operand_bytes(address_mode) {
            0 => 0,
            1 => self.fetch_pc_byte() as u16,
            _ => {
                let lo = self.fetch_pc_byte();
                let hi = self.fetch_pc_byte();
                lo as u16 + hi as u16 * 256
            },
        }
    }

    /// Executes one instruction: fetches the opcode at `PC`, decodes it,
    /// fetches its operand bytes and runs it.
    pub fn step(&mut self) -> (r: Result<(), CpuError>)
        ensures
            old(self).lands(final(self), step_spec(old(self).regs(), old(self).mem(), old(self).cpu_bus), r),
    {
        let ghost bus0 = self.cpu_bus;
        let opcode = self.fetch_pc_byte();
        let mut instruction = match lookup(opcode) {
            Some(instruction) => instruction,
            None => return Err(CpuError::UnknownOpcode),
        };
        let operand = self.fetch_operand(&instruction.addressing);
        let ghost s2 = self.regs();
        let ghost bus2 = self.cpu_bus;
        let r = handler_dispatch(self, &mut instruction, operand);
        proof {
            lemma_execute_wiring(s2, bus0.memory(), bus2, bus0, instruction, operand);
        }
        r
    }
}

/// The registers and memory after `n` instructions from `s`, whatever each one
/// returned.
pub open spec fn run<B: CpuBus>(s: CpuRegs, mem: Map<u16, u8>, bus: B, n: nat) -> (CpuRegs, Map<u16, u8>)
    decreases n,
{
    if n == 0 {
        (s, mem)
    } else {
        let (s1, m1) = run(s, mem, bus, (n - 1) as nat);
        let out = step_spec(s1, m1, bus);
        (out.0, out.1)
    }
}

/// The outcome of an instruction depends on the bus only through how it handles writes.
pub proof fn lemma_execute_wiring<B: CpuBus>(
    s: CpuRegs,
    mem: Map<u16, u8>,
    b1: B,
    b2: B,
    ins: Instruction,
    operand: u16,
)
    requires
        same_wiring(b1, b2),
    ensures
        execute(s, mem, b1, ins, operand) == execute(s, mem, b2, ins, operand),
{
}

} // verus!
