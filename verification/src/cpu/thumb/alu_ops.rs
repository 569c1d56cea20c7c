//! Thumb Formats 1-4: shifts, add/subtract, immediate ops, ALU ops.
use vstd::prelude::*;
use crate::cpu::arm::alu::{self, spec_add_with_carry, spec_sub_with_carry};
use crate::cpu::arm::data_processing::{spec_set_nz, spec_set_nzcv};
use crate::cpu::arm::shifter::{self, spec_shift, ShiftType};
use crate::cpu::psr;
use crate::cpu::registers::{Registers, RegsView};

verus! {

broadcast use crate::bits::group_bits;

pub fn set_nz(regs: &mut Registers, result: u32)
    ensures
        final(regs)@ == spec_set_nz(old(regs)@, result),
{
    regs.set_flag(psr::Z, result == 0);
    regs.set_flag(psr::N, (result >> 31) & 1 == 1);
}

fn set_nzcv(regs: &mut Registers, result: u32, carry: bool, overflow: bool)
    ensures
        final(regs)@ == spec_set_nzcv(old(regs)@, result, carry, overflow),
{
    set_nz(regs, result);
    regs.set_flag(psr::C, carry);
    regs.set_flag(psr::V, overflow);
}

pub open spec fn spec_move_shifted_register(regs: RegsView, opcode: u16) -> RegsView {
    let op = (opcode >> 11) & 0b11;
    let shift_type = if op == 0 {
        ShiftType::Lsl
    } else if op == 1 {
        ShiftType::Lsr
    } else {
        ShiftType::Asr
    };
    let r = spec_shift(
        shift_type,
        regs.r[((opcode >> 3) & 0x7) as int],
        ((opcode >> 6) & 0x1F) as u32,
        regs.flag(psr::C),
        true,
    );
    spec_set_nz(regs.with_r((opcode & 0x7) as int, r.value), r.value).with_flag(psr::C, r.carry_out)
}

/// Format 1 — Move shifted register: `LSL/LSR/ASR Rd, Rs, #Offset5`.
/// (op=11 is Format 2, which the dispatcher routes elsewhere.)
pub fn move_shifted_register(regs: &mut Registers, opcode: u16)
    requires
        (opcode >> 11) & 0b11 != 0b11,
    ensures
        final(regs)@ == spec_move_shifted_register(old(regs)@, opcode),
{
    let op: u16 = (opcode >> 11) & 0b11;
    let offset5 = ((opcode >> 6) & 0x1F) as u32;
    let rs = ((opcode >> 3) & 0x7) as usize;
    let rd = (opcode & 0x7) as usize;

    let shift_type = if op == 0 {
        ShiftType::Lsl
    } else if op == 1 {
        ShiftType::Lsr
    } else {
        ShiftType::Asr
    };

    let carry_in = regs.flag(psr::C);
    let r = shifter::shift(shift_type, regs.r(rs), offset5, carry_in, true);
    regs.set_r(rd, r.value);
    set_nz(regs, r.value);
    regs.set_flag(psr::C, r.carry_out);
}

pub open spec fn spec_add_subtract(regs: RegsView, opcode: u16) -> RegsView {
    let operand = ((opcode >> 6) & 0x7) as u32;
    let rhs = if (opcode >> 10) & 1 == 1 {
        operand
    } else {
        regs.r[operand as int]
    };
    let rs_value = regs.r[((opcode >> 3) & 0x7) as int];
    let r = if (opcode >> 9) & 1 == 1 {
        spec_sub_with_carry(rs_value, rhs, true)
    } else {
        spec_add_with_carry(rs_value, rhs, false)
    };
    spec_set_nzcv(regs.with_r((opcode & 0x7) as int, r.value), r.value, r.carry, r.overflow)
}

/// Format 2 — Add/subtract: `ADD/SUB Rd, Rs, Rn` or `ADD/SUB Rd, Rs, #Offset3`.
pub fn add_subtract(regs: &mut Registers, opcode: u16)
    ensures
        final(regs)@ == spec_add_subtract(old(regs)@, opcode),
{
    let immediate = (opcode >> 10) & 1 == 1;
    let subtract = (opcode >> 9) & 1 == 1;
    let operand = ((opcode >> 6) & 0x7) as u32;
    let rs = ((opcode >> 3) & 0x7) as usize;
    let rd = (opcode & 0x7) as usize;

    let rhs = if immediate {
        operand
    } else {
        regs.r(operand as usize)
    };
    let rs_value = regs.r(rs);

    let r = if subtract {
        alu::sub_with_carry(rs_value, rhs, true)
    } else {
        alu::add_with_carry(rs_value, rhs, false)
    };

    regs.set_r(rd, r.value);
    set_nzcv(regs, r.value, r.carry, r.overflow);
}

pub open spec fn spec_immediate_op(regs: RegsView, opcode: u16) -> RegsView {
    let op = (opcode >> 11) & 0b11;
    let rd = ((opcode >> 8) & 0x7) as int;
    let imm8 = (opcode & 0xFF) as u32;
    let rd_value = regs.r[rd];
    if op == 0 {
        spec_set_nz(regs.with_r(rd, imm8), imm8)
    } else if op == 1 {
        let r = spec_sub_with_carry(rd_value, imm8, true);
        spec_set_nzcv(regs, r.value, r.carry, r.overflow)
    } else if op == 2 {
        let r = spec_add_with_carry(rd_value, imm8, false);
        spec_set_nzcv(regs.with_r(rd, r.value), r.value, r.carry, r.overflow)
    } else {
        let r = spec_sub_with_carry(rd_value, imm8, true);
        spec_set_nzcv(regs.with_r(rd, r.value), r.value, r.carry, r.overflow)
    }
}

/// Format 3 — Move/compare/add/subtract immediate: `MOV/CMP/ADD/SUB Rd, #Offset8`.
/// MOV affects only N and Z; CMP never writes Rd.
pub fn immediate_op(regs: &mut Registers, opcode: u16)
    ensures
        final(regs)@ == spec_immediate_op(old(regs)@, opcode),
{
    let op: u16 = (opcode >> 11) & 0b11;
    let rd = ((opcode >> 8) & 0x7) as usize;
    let imm8 = (opcode & 0xFF) as u32;
    let rd_value = regs.r(rd);

    if op == 0b00 {
        regs.set_r(rd, imm8);
        set_nz(regs, imm8);
    } else if op == 0b01 {
        let r = alu::sub_with_carry(rd_value, imm8, true);
        set_nzcv(regs, r.value, r.carry, r.overflow);
    } else if op == 0b10 {
        let r = alu::add_with_carry(rd_value, imm8, false);
        regs.set_r(rd, r.value);
        set_nzcv(regs, r.value, r.carry, r.overflow);
    } else {
        let r = alu::sub_with_carry(rd_value, imm8, true);
        regs.set_r(rd, r.value);
        set_nzcv(regs, r.value, r.carry, r.overflow);
    }
}

pub open spec fn spec_alu_operation(regs: RegsView, opcode: u16) -> RegsView {
    let op = (opcode >> 6) & 0xF;
    let rd = (opcode & 0x7) as int;
    let rd_value = regs.r[rd];
    let rs_value = regs.r[((opcode >> 3) & 0x7) as int];
    let c = regs.flag(psr::C);
    let logic = |v: u32| spec_set_nz(regs.with_r(rd, v), v);
    let shifted = |t: ShiftType|
        {
            let r = spec_shift(t, rd_value, rs_value & 0xFF, c, false);
            spec_set_nz(regs.with_r(rd, r.value), r.value).with_flag(psr::C, r.carry_out)
        };
    if op == 0x0 {
        logic(rd_value & rs_value)
    } else if op == 0x1 {
        logic(rd_value ^ rs_value)
    } else if op == 0x2 {
        shifted(ShiftType::Lsl)
    } else if op == 0x3 {
        shifted(ShiftType::Lsr)
    } else if op == 0x4 {
        shifted(ShiftType::Asr)
    } else if op == 0x5 {
        let r = spec_add_with_carry(rd_value, rs_value, c);
        spec_set_nzcv(regs.with_r(rd, r.value), r.value, r.carry, r.overflow)
    } else if op == 0x6 {
        let r = spec_sub_with_carry(rd_value, rs_value, c);
        spec_set_nzcv(regs.with_r(rd, r.value), r.value, r.carry, r.overflow)
    } else if op == 0x7 {
        shifted(ShiftType::Ror)
    } else if op == 0x8 {
        spec_set_nz(regs, rd_value & rs_value)
    } else if op == 0x9 {
        let r = spec_sub_with_carry(0, rs_value, true);
        spec_set_nzcv(regs.with_r(rd, r.value), r.value, r.carry, r.overflow)
    } else if op == 0xA {
        let r = spec_sub_with_carry(rd_value, rs_value, true);
        spec_set_nzcv(regs, r.value, r.carry, r.overflow)
    } else if op == 0xB {
        let r = spec_add_with_carry(rd_value, rs_value, false);
        spec_set_nzcv(regs, r.value, r.carry, r.overflow)
    } else if op == 0xC {
        logic(rd_value | rs_value)
    } else if op == 0xD {
        logic(rd_value.wrapping_mul(rs_value))
    } else if op == 0xE {
        logic(rd_value & !rs_value)
    } else {
        logic(!rs_value)
    }
}

fn shift_op(regs: &mut Registers, rd: usize, rd_value: u32, rs_value: u32, t: ShiftType)
    requires
        rd < 16,
        rd_value == old(regs)@.r[rd as int],
    ensures
        final(regs)@ == ({
            let r = spec_shift(t, rd_value, rs_value & 0xFF, old(regs)@.flag(psr::C), false);
            spec_set_nz(old(regs)@.with_r(rd as int, r.value), r.value).with_flag(psr::C, r.carry_out)
        }),
{
    let amount: u32 = rs_value & 0xFF;
    let r = shifter::shift(t, rd_value, amount, regs.flag(psr::C), false);
    regs.set_r(rd, r.value);
    set_nz(regs, r.value);
    regs.set_flag(psr::C, r.carry_out);
}

fn logic_op(regs: &mut Registers, rd: usize, v: u32)
    requires
        rd < 16,
    ensures
        final(regs)@ == spec_set_nz(old(regs)@.with_r(rd as int, v), v),
{
    regs.set_r(rd, v);
    set_nz(regs, v);
}

/// Format 4 — ALU operations: `<OP> Rd, Rs` (Rd is both source and dest).
/// Logical operations and MUL leave C and V alone.
pub fn alu_operation(regs: &mut Registers, opcode: u16)
    ensures
        final(regs)@ == spec_alu_operation(old(regs)@, opcode),
{
    let op: u16 = (opcode >> 6) & 0xF;
    let rs = ((opcode >> 3) & 0x7) as usize;
    let rd = (opcode & 0x7) as usize;
    let rd_value = regs.r(rd);
    let rs_value = regs.r(rs);

    if op == 0x0 {
        logic_op(regs, rd, rd_value & rs_value);
    } else if op == 0x1 {
        logic_op(regs, rd, rd_value ^ rs_value);
    } else if op == 0x2 {
        shift_op(regs, rd, rd_value, rs_value, ShiftType::Lsl);
    } else if op == 0x3 {
        shift_op(regs, rd, rd_value, rs_value, ShiftType::Lsr);
    } else if op == 0x4 {
        shift_op(regs, rd, rd_value, rs_value, ShiftType::Asr);
    } else if op == 0x5 {
        let r = alu::add_with_carry(rd_value, rs_value, regs.flag(psr::C));
        regs.set_r(rd, r.value);
        set_nzcv(regs, r.value, r.carry, r.overflow);
    } else if op == 0x6 {
        let r = alu::sub_with_carry(rd_value, rs_value, regs.flag(psr::C));
        regs.set_r(rd, r.value);
        set_nzcv(regs, r.value, r.carry, r.overflow);
    } else if op == 0x7 {
        shift_op(regs, rd, rd_value, rs_value, ShiftType::Ror);
    } else if op == 0x8 {
        set_nz(regs, rd_value & rs_value);
    } else if op == 0x9 {
        let r = alu::sub_with_carry(0, rs_value, true);
        regs.set_r(rd, r.value);
        set_nzcv(regs, r.value, r.carry, r.overflow);
    } else if op == 0xA {
        let r = alu::sub_with_carry(rd_value, rs_value, true);
        set_nzcv(regs, r.value, r.carry, r.overflow);
    } else if op == 0xB {
        let r = alu::add_with_carry(rd_value, rs_value, false);
        set_nzcv(regs, r.value, r.carry, r.overflow);
    } else if op == 0xC {
        logic_op(regs, rd, rd_value | rs_value);
    } else if op == 0xD {
        logic_op(regs, rd, rd_value.wrapping_mul(rs_value));
    } else if op == 0xE {
        logic_op(regs, rd, rd_value & !rs_value);
    } else {
        logic_op(regs, rd, !rs_value);
    }
}


/// The 32-bit value a Format-4 ALU opcode computes from Rd's old value `a`,
/// Rs's value `b` and the carry flag `c`: AND, EOR, LSL, LSR, ASR (by the
/// low byte of `b`), ADC, SBC, ROR, TST (as AND), NEG (0 - b), CMP (a - b),
/// CMN (a + b), ORR, MUL, BIC, MVN (NOT b); sums, differences and the
/// product wrap modulo 2^32.
pub open spec fn thumb_alu_value(op: u16, a: u32, b: u32, c: bool) -> int {
    let ci: int = if c {
        1
    } else {
        0
    };
    if op == 0x0 || op == 0x8 {
        (a & b) as int
    } else if op == 0x1 {
        (a ^ b) as int
    } else if op == 0x2 {
        spec_shift(ShiftType::Lsl, a, b & 0xFF, c, false).value as int
    } else if op == 0x3 {
        spec_shift(ShiftType::Lsr, a, b & 0xFF, c, false).value as int
    } else if op == 0x4 {
        spec_shift(ShiftType::Asr, a, b & 0xFF, c, false).value as int
    } else if op == 0x5 {
        (a + b + ci) % 0x1_0000_0000
    } else if op == 0x6 {
        (a - b - 1 + ci) % 0x1_0000_0000
    } else if op == 0x7 {
        spec_shift(ShiftType::Ror, a, b & 0xFF, c, false).value as int
    } else if op == 0x9 {
        (0 - b) % 0x1_0000_0000
    } else if op == 0xA {
        (a - b) % 0x1_0000_0000
    } else if op == 0xB {
        (a + b) % 0x1_0000_0000
    } else if op == 0xC {
        (a | b) as int
    } else if op == 0xD {
        (a * b) % 0x1_0000_0000
    } else if op == 0xE {
        (a & !b) as int
    } else {
        (!b) as int
    }
}

proof fn lemma_wrap(d: int)
    requires
        -0x1_0000_0000 <= d < 0x1_0000_0000,
    ensures
        (if d < 0 {
            d + 0x1_0000_0000
        } else {
            d
        }) == d % 0x1_0000_0000,
{
}

/// What a Format-4 ALU instruction does: with `a` the old Rd, `b` Rs and
/// `c` the carry flag, every opcode but TST, CMP and CMN writes
/// `thumb_alu_value(op, a, b, c)` to Rd and no other register, while those
/// three write no register; Z and N always describe that value. C becomes
/// the shifter's carry for the shifts and, for ADC, SBC, NEG, CMP and CMN,
/// the unsigned carry out of the sum (for subtraction: no borrow); the
/// logical opcodes and MUL leave C unchanged.
pub proof fn lemma_alu_operation_results(regs: RegsView, opcode: u16)
    requires
        regs.wf(),
    ensures
        ({
            let op = (opcode >> 6) & 0xF;
            let rd = (opcode & 0x7) as int;
            let a = regs.r[rd];
            let b = regs.r[((opcode >> 3) & 0x7) as int];
            let c = regs.flag(psr::C);
            let ci: int = if c {
                1
            } else {
                0
            };
            let m = thumb_alu_value(op, a, b, c);
            let after = spec_alu_operation(regs, opcode);
            &&& (op == 0x8 || op == 0xA || op == 0xB) ==> after.r == regs.r
            &&& !(op == 0x8 || op == 0xA || op == 0xB) ==> after.r == regs.r.update(rd, m as u32)
            &&& after.flag(psr::Z) == (m == 0)
            &&& after.flag(psr::N) == (m >= 0x8000_0000)
            &&& op == 0x2 ==> after.flag(psr::C) == spec_shift(ShiftType::Lsl, a, b & 0xFF, c, false).carry_out
            &&& op == 0x3 ==> after.flag(psr::C) == spec_shift(ShiftType::Lsr, a, b & 0xFF, c, false).carry_out
            &&& op == 0x4 ==> after.flag(psr::C) == spec_shift(ShiftType::Asr, a, b & 0xFF, c, false).carry_out
            &&& op == 0x7 ==> after.flag(psr::C) == spec_shift(ShiftType::Ror, a, b & 0xFF, c, false).carry_out
            &&& op == 0x5 ==> after.flag(psr::C) == (a + b + ci >= 0x1_0000_0000)
            &&& op == 0x6 ==> after.flag(psr::C) == (a - b - 1 + ci >= 0)
            &&& op == 0x9 ==> after.flag(psr::C) == (b == 0)
            &&& op == 0xA ==> after.flag(psr::C) == (a >= b)
            &&& op == 0xB ==> after.flag(psr::C) == (a + b >= 0x1_0000_0000)
            &&& (op == 0x0 || op == 0x1 || op == 0x8 || op >= 0xC) ==> after.flag(psr::C) == c
        }),
{
    let op = (opcode >> 6) & 0xF;
    let rd = (opcode & 0x7) as int;
    let a = regs.r[rd];
    let b = regs.r[((opcode >> 3) & 0x7) as int];
    let c = regs.flag(psr::C);
    let ci: int = if c {
        1
    } else {
        0
    };
    let m = thumb_alu_value(op, a, b, c);
    if op == 0x6 {
        lemma_wrap(a - b - 1 + ci);
    } else if op == 0x9 {
        lemma_wrap(0 - b);
    } else if op == 0xA {
        lemma_wrap(a - b);
    }
    let v = m as u32;
    assert(0 <= m < 0x1_0000_0000);
    if op == 0x8 || op == 0xA || op == 0xB {
        let r = if op == 0xA {
            spec_sub_with_carry(a, b, true)
        } else {
            spec_add_with_carry(a, b, false)
        };
        crate::cpu::arm::data_processing::lemma_flag_writes(regs, v, r.carry, r.overflow);
    } else if op == 0x5 || op == 0x6 || op == 0x9 {
        let r = if op == 0x5 {
            spec_add_with_carry(a, b, c)
        } else if op == 0x6 {
            spec_sub_with_carry(a, b, c)
        } else {
            spec_sub_with_carry(0, b, true)
        };
        crate::cpu::arm::data_processing::lemma_flag_writes(regs.with_r(rd, v), v, r.carry, r.overflow);
    } else if op == 0x2 || op == 0x3 || op == 0x4 || op == 0x7 {
        let t = if op == 0x2 {
            ShiftType::Lsl
        } else if op == 0x3 {
            ShiftType::Lsr
        } else if op == 0x4 {
            ShiftType::Asr
        } else {
            ShiftType::Ror
        };
        let r = spec_shift(t, a, b & 0xFF, c, false);
        crate::cpu::arm::data_processing::lemma_flag_writes(regs.with_r(rd, v), v, r.carry_out, false);
    } else {
        crate::cpu::arm::data_processing::lemma_flag_writes(regs.with_r(rd, v), v, false, false);
    }
}

} // verus!
