//! Properties of the interpreter that relate several instructions, or hold
//! for every input, proved over the step functions that the handlers follow.
use vstd::prelude::*;
use crate::cpu::{
    CpuRegs, FLAG_B, FLAG_C, FLAG_D, FLAG_I, FLAG_N, FLAG_U, FLAG_V, FLAG_Z, add16, add8,
    adc_sum, arith_step, branch_step, branch_taken, compare_step, has_flag, is_branch,
    operand_value, pulled_status, reads_value, run, shift_step, sp_after_pushes, stack_slot,
    stack_step, step_spec, with_flag, with_zn,
};
use crate::cpu::opcode_lookup::{AddressMode, Instruction, Operation};
use crate::cpu_bus::CpuBus;

verus! {

/// The status bits whose value an instruction may keep or change; B and U are
/// not among them.
pub open spec fn is_status_flag(g: u8) -> bool {
    g == FLAG_C || g == FLAG_Z || g == FLAG_I || g == FLAG_D || g == FLAG_V || g == FLAG_N
}

/// Writing one flag sets it as asked, forces U on, and keeps every other status flag.
pub proof fn lemma_with_flag(p: u8, f: u8, on: bool, g: u8)
    requires
        is_status_flag(f),
    ensures
        has_flag(with_flag(p, f, on), FLAG_U),
        has_flag(with_flag(p, f, on), f) == on,
        is_status_flag(g) && g != f ==> has_flag(with_flag(p, f, on), g) == has_flag(p, g),
{
    assert(((p | f) | 0x20u8) & 0x20u8 != 0u8 && ((p & !f) | 0x20u8) & 0x20u8 != 0u8)
        by (bit_vector);
    assert(((p | f) | 0x20u8) & f != 0u8 && ((p & !f) | 0x20u8) & f == 0u8) by (bit_vector)
        requires
            f == 1u8 || f == 2u8 || f == 4u8 || f == 8u8 || f == 0x40u8 || f == 0x80u8,
    ;
    if is_status_flag(g) && g != f {
        assert(((p | f) | 0x20u8) & g == p & g && ((p & !f) | 0x20u8) & g == p & g) by (bit_vector)
            requires
                f == 1u8 || f == 2u8 || f == 4u8 || f == 8u8 || f == 0x40u8 || f == 0x80u8,
                g == 1u8 || g == 2u8 || g == 4u8 || g == 8u8 || g == 0x40u8 || g == 0x80u8,
                f != g,
        ;
    }
}

/// Setting Z and N from a value keeps every other status flag.
pub proof fn lemma_with_zn(p: u8, v: u8, g: u8)
    requires
        is_status_flag(g),
    ensures
        has_flag(with_zn(p, v), FLAG_U),
        has_flag(with_zn(p, v), FLAG_Z) == (v == 0),
        has_flag(with_zn(p, v), FLAG_N) == (v >= 0x80),
        g != FLAG_Z && g != FLAG_N ==> has_flag(with_zn(p, v), g) == has_flag(p, g),
{
    let p1 = with_flag(p, FLAG_Z, v == 0);
    lemma_with_flag(p, FLAG_Z, v == 0, g);
    lemma_with_flag(p1, FLAG_N, v >= 0x80, g);
    lemma_with_flag(p1, FLAG_N, v >= 0x80, FLAG_Z);
}

/// A status byte pulled off the stack keeps every status flag, has U set and B clear.
pub proof fn lemma_pulled_status(v: u8, g: u8)
    ensures
        has_flag(pulled_status(v), FLAG_U),
        !has_flag(pulled_status(v), FLAG_B),
        is_status_flag(g) ==> has_flag(pulled_status(v), g) == has_flag(v, g),
{
    assert((v | 0x20u8) & !0x10u8 & 0x20u8 != 0u8 && (v | 0x20u8) & !0x10u8 & 0x10u8 == 0u8)
        by (bit_vector);
    if is_status_flag(g) {
        assert(((v | 0x20u8) & !0x10u8) & g == v & g) by (bit_vector)
            requires
                g == 1u8 || g == 2u8 || g == 4u8 || g == 8u8 || g == 0x40u8 || g == 0x80u8,
        ;
    }
}

/// Bit U of `P` stays set through any sequence of instructions, so it is set
/// on entry to every fetch once reset or power-on has set it.
pub proof fn lemma_unused_bit_kept<B: CpuBus>(s: CpuRegs, mem: Map<u16, u8>, bus: B, n: nat)
    requires
        has_flag(s.p, FLAG_U),
    ensures
        has_flag(run(s, mem, bus, n).0.p, FLAG_U),
    decreases n,
{
    if n > 0 {
        lemma_unused_bit_kept(s, mem, bus, (n - 1) as nat);
        let (s1, m1) = run(s, mem, bus, (n - 1) as nat);
        lemma_step_keeps_unused_bit(s1, m1, bus);
    }
}

/// One instruction, whatever it is and however it ends, keeps bit U of `P` set.
pub proof fn lemma_step_keeps_unused_bit<B: CpuBus>(s: CpuRegs, mem: Map<u16, u8>, bus: B)
    requires
        has_flag(s.p, FLAG_U),
    ensures
        has_flag(step_spec(s, mem, bus).0.p, FLAG_U),
{
    assert forall|p: u8, f: u8, on: bool| is_status_flag(f) implies #[trigger] has_flag(
        with_flag(p, f, on),
        FLAG_U,
    ) by {
        lemma_with_flag(p, f, on, f);
    }
    assert forall|v: u8| #[trigger] has_flag(pulled_status(v), FLAG_U) by {
        lemma_pulled_status(v, FLAG_C);
    }
}

/// ADC leaves `(A + operand + C) mod 256` in A, and sets C when that sum
/// exceeds 255.
pub proof fn lemma_adc(s: CpuRegs, mem: Map<u16, u8>, ins: Instruction, operand: u16)
    requires
        ins.operation is ADC,
        reads_value(ins.addressing),
    ensures
        ({
            let v = operand_value(s, mem, ins.addressing, operand).0;
            let sum = s.a + v + if has_flag(s.p, FLAG_C) {
                1int
            } else {
                0int
            };
            let out = arith_step(s, mem, ins, operand);
            &&& out.2 is Ok
            &&& out.0.a == sum % 256
            &&& has_flag(out.0.p, FLAG_C) == (sum > 255)
        }),
{
    let v = operand_value(s, mem, ins.addressing, operand).0;
    lemma_carry_survives(s.p, s.a, v);
}

/// The flag updates of ADC and SBC leave C as the wide sum's carry.
proof fn lemma_carry_survives(p: u8, a: u8, m: u8)
    ensures
        ({
            let sum = adc_sum(a, m, p);
            let r = (sum % 256) as u8;
            let q = with_flag(
                with_flag(with_flag(with_flag(p, FLAG_C, sum > 0xFF), FLAG_Z, r == 0), FLAG_V,
                ((m ^ r) & (a ^ r)) & 0x80 != 0),
                FLAG_N,
                r >= 0x80,
            );
            has_flag(q, FLAG_C) == (sum > 0xFF)
        }),
{
    let sum = adc_sum(a, m, p);
    let r = (sum % 256) as u8;
    let p1 = with_flag(p, FLAG_C, sum > 0xFF);
    let p2 = with_flag(p1, FLAG_Z, r == 0);
    let p3 = with_flag(p2, FLAG_V, ((m ^ r) & (a ^ r)) & 0x80 != 0);
    lemma_with_flag(p, FLAG_C, sum > 0xFF, FLAG_C);
    lemma_with_flag(p1, FLAG_Z, r == 0, FLAG_C);
    lemma_with_flag(p2, FLAG_V, ((m ^ r) & (a ^ r)) & 0x80 != 0, FLAG_C);
    lemma_with_flag(p3, FLAG_N, r >= 0x80, FLAG_C);
}

/// SBC with C set leaves `A - operand` (mod 256) in A, and sets C exactly when
/// no borrow was needed (`A >= operand`).
pub proof fn lemma_sbc_with_carry(s: CpuRegs, mem: Map<u16, u8>, ins: Instruction, operand: u16)
    requires
        ins.operation is SBC,
        reads_value(ins.addressing),
        has_flag(s.p, FLAG_C),
    ensures
        ({
            let v = operand_value(s, mem, ins.addressing, operand).0;
            let out = arith_step(s, mem, ins, operand);
            &&& out.2 is Ok
            &&& out.0.a == add8(s.a as int, -(v as int))
            &&& has_flag(out.0.p, FLAG_C) == (s.a >= v)
        }),
{
    let v = operand_value(s, mem, ins.addressing, operand).0;
    assert(!v == 255u8 - v) by (bit_vector);
    lemma_carry_survives(s.p, s.a, !v);
}

/// CMP, CPX and CPY set Z exactly when the register equals the operand and C
/// exactly when it is at least the operand, and change no register.
pub proof fn lemma_compare(s: CpuRegs, mem: Map<u16, u8>, ins: Instruction, operand: u16)
    requires
        ins.operation is CMP || ins.operation is CPX || ins.operation is CPY,
        reads_value(ins.addressing),
    ensures
        ({
            let v = operand_value(s, mem, ins.addressing, operand).0;
            let reg = if ins.operation is CMP {
                s.a
            } else if ins.operation is CPX {
                s.x
            } else {
                s.y
            };
            let out = compare_step(s, mem, ins, operand);
            &&& out.2 is Ok
            &&& has_flag(out.0.p, FLAG_Z) == (reg == v)
            &&& has_flag(out.0.p, FLAG_C) == (reg >= v)
            &&& out.0.a == s.a && out.0.x == s.x && out.0.y == s.y
            &&& out.1 == mem
        }),
{
    let v = operand_value(s, mem, ins.addressing, operand).0;
    let reg = if ins.operation is CMP {
        s.a
    } else if ins.operation is CPX {
        s.x
    } else {
        s.y
    };
    let p1 = with_flag(s.p, FLAG_C, reg >= v);
    let p2 = with_flag(p1, FLAG_Z, reg == v);
    let diff = add8(reg as int, -(v as int));
    lemma_with_flag(s.p, FLAG_C, reg >= v, FLAG_C);
    lemma_with_flag(p1, FLAG_Z, reg == v, FLAG_C);
    lemma_with_flag(p2, FLAG_N, diff >= 0x80, FLAG_C);
    lemma_with_flag(p2, FLAG_N, diff >= 0x80, FLAG_Z);
}

/// A taken branch moves PC by the signed offset (mod 65536); one not taken
/// leaves PC where it was.
pub proof fn lemma_branch(s: CpuRegs, mem: Map<u16, u8>, ins: Instruction, operand: u16)
    requires
        is_branch(ins.operation),
        ins.addressing is Relative,
    ensures
        ({
            let out = branch_step(s, mem, ins, operand);
            &&& out.2 is Ok
            &&& branch_taken(ins.operation, s.p) ==> out.0.pc == add16(
                s.pc as int,
                (operand as i8) as int,
            )
            &&& !branch_taken(ins.operation, s.p) ==> out.0.pc == s.pc
        }),
{
}

/// PHA then PLA gives A back, sets Z and N from it, and restores SP, on a bus
/// that reads back what was written to the stack slot.
pub proof fn lemma_pha_pla<B: CpuBus>(
    s: CpuRegs,
    mem: Map<u16, u8>,
    bus: B,
    pha: Instruction,
    pla: Instruction,
)
    requires
        pha.operation is PHA && pha.addressing is Implicit,
        pla.operation is PLA && pla.addressing is Implicit,
        bus.store(mem, stack_slot(s.sp), s.a)[stack_slot(s.sp)] == s.a,
    ensures
        ({
            let first = stack_step(s, mem, bus, pha);
            let second = stack_step(first.0, first.1, bus, pla);
            &&& first.2 is Ok && second.2 is Ok
            &&& second.0.a == s.a
            &&& second.0.sp == s.sp
            &&& has_flag(second.0.p, FLAG_Z) == (s.a == 0)
            &&& has_flag(second.0.p, FLAG_N) == (s.a >= 0x80)
        }),
{
    lemma_with_zn(s.p, s.a, FLAG_C);
}

/// PHP then PLP restores every status flag, with B cleared and U set, on a bus
/// that reads back what was written to the stack slot.
pub proof fn lemma_php_plp<B: CpuBus>(
    s: CpuRegs,
    mem: Map<u16, u8>,
    bus: B,
    php: Instruction,
    plp: Instruction,
    g: u8,
)
    requires
        php.operation is PHP && php.addressing is Implicit,
        plp.operation is PLP && plp.addressing is Implicit,
        bus.store(mem, stack_slot(s.sp), s.p | FLAG_U | FLAG_B)[stack_slot(s.sp)] == s.p | FLAG_U
            | FLAG_B,
    ensures
        ({
            let first = stack_step(s, mem, bus, php);
            let second = stack_step(first.0, first.1, bus, plp);
            &&& first.2 is Ok && second.2 is Ok
            &&& second.0.sp == s.sp
            &&& has_flag(second.0.p, FLAG_U)
            &&& !has_flag(second.0.p, FLAG_B)
            &&& is_status_flag(g) ==> has_flag(second.0.p, g) == has_flag(s.p, g)
        }),
{
    let pushed = s.p | FLAG_U | FLAG_B;
    lemma_pulled_status(pushed, g);
    let p = s.p;
    if is_status_flag(g) {
        assert((p | 0x20u8 | 0x10u8) & g == p & g) by (bit_vector)
            requires
                g == 1u8 || g == 2u8 || g == 4u8 || g == 8u8 || g == 0x40u8 || g == 0x80u8,
        ;
    }
}

/// ROL A then ROR A gives A back, whatever C was.
pub proof fn lemma_rol_ror<B: CpuBus>(
    s: CpuRegs,
    mem: Map<u16, u8>,
    bus: B,
    rol: Instruction,
    ror: Instruction,
    operand: u16,
)
    requires
        rol.operation is ROL && rol.addressing is Accumulator,
        ror.operation is ROR && ror.addressing is Accumulator,
    ensures
        ({
            let first = shift_step(s, mem, bus, rol, operand);
            let second = shift_step(first.0, first.1, bus, ror, operand);
            &&& first.2 is Ok && second.2 is Ok
            &&& second.0.a == s.a
        }),
{
    let first = shift_step(s, mem, bus, rol, operand);
    let carry = s.a >= 0x80;
    let p1 = with_flag(s.p, FLAG_C, carry);
    lemma_with_flag(s.p, FLAG_C, carry, FLAG_C);
    lemma_with_zn(p1, first.0.a, FLAG_C);
    assert(has_flag(first.0.p, FLAG_C) == carry);
}

/// Pushing moves SP down by one modulo 256, so 256 pushes bring it back.
pub proof fn lemma_stack_wrap(sp: u8)
    ensures
        sp_after_pushes(sp, 256) == sp,
{
    lemma_sp_after_pushes(sp, 256);
}

/// SP after `n` pushes is `sp - n` modulo 256.
pub proof fn lemma_sp_after_pushes(sp: u8, n: nat)
    ensures
        sp_after_pushes(sp, n) == add8(sp as int, -(n as int)),
    decreases n,
{
    if n > 0 {
        lemma_sp_after_pushes(sp, (n - 1) as nat);
    }
}

} // verus!
