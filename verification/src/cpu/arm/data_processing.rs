//! ARM Data Processing: the 16 ALU/compare/move opcodes.
use vstd::prelude::*;
use crate::cpu::arm::alu::{self, spec_add_with_carry, spec_sub_with_carry};
use crate::cpu::arm::shifter::{self, rotr, spec_shift, ShiftType, ShifterResult};
use crate::cpu::psr;
use crate::cpu::registers::{Registers, RegsView};

verus! {

broadcast use crate::bits::group_bits;

/// A register operand as an instruction reads it: r15 reads as the
/// instruction's own address + 8, or + 12 with a register-specified shift.
pub open spec fn spec_read_operand(regs: RegsView, reg: int, instr_addr: u32, register_specified_shift: bool) -> u32 {
    if reg == 15 {
        instr_addr.wrapping_add(
            if register_specified_shift {
                12
            } else {
                8
            },
        )
    } else {
        regs.r[reg]
    }
}

/// Operand2 (immediate-rotate or shifted-register) and its shifter carry.
pub open spec fn spec_operand2(regs: RegsView, opcode: u32, instr_addr: u32) -> ShifterResult {
    let carry_in = regs.flag(psr::C);
    if (opcode >> 25) & 1 == 1 {
        let imm8 = opcode & 0xFF;
        let rotate = ((opcode >> 8) & 0xF) * 2;
        if rotate == 0 {
            ShifterResult { value: imm8, carry_out: carry_in }
        } else {
            let value = rotr(imm8, rotate as u32);
            ShifterResult { value, carry_out: (value >> 31) & 1 == 1 }
        }
    } else {
        let rm = (opcode & 0xF) as int;
        let register_specified = (opcode >> 4) & 1 == 1;
        let amount = if register_specified {
            spec_read_operand(regs, ((opcode >> 8) & 0xF) as int, instr_addr, true) & 0xFF
        } else {
            (opcode >> 7) & 0x1F
        };
        spec_shift(
            ShiftType::spec_from_bits(opcode >> 5),
            spec_read_operand(regs, rm, instr_addr, register_specified),
            amount,
            carry_in,
            !register_specified,
        )
    }
}

/// `(result, carry, overflow, writes_result_to_rd)` of ALU opcode `op`.
pub open spec fn spec_alu(op: u32, rn: u32, op2: ShifterResult, c: bool, v: bool) -> (u32, bool, bool, bool) {
    let plus = |a: u32, b: u32, ci: bool, w: bool|
        {
            let r = spec_add_with_carry(a, b, ci);
            (r.value, r.carry, r.overflow, w)
        };
    let minus = |a: u32, b: u32, ci: bool, w: bool|
        {
            let r = spec_sub_with_carry(a, b, ci);
            (r.value, r.carry, r.overflow, w)
        };
    if op == 0x0 {
        (rn & op2.value, op2.carry_out, v, true)
    } else if op == 0x1 {
        (rn ^ op2.value, op2.carry_out, v, true)
    } else if op == 0x2 {
        minus(rn, op2.value, true, true)
    } else if op == 0x3 {
        minus(op2.value, rn, true, true)
    } else if op == 0x4 {
        plus(rn, op2.value, false, true)
    } else if op == 0x5 {
        plus(rn, op2.value, c, true)
    } else if op == 0x6 {
        minus(rn, op2.value, c, true)
    } else if op == 0x7 {
        minus(op2.value, rn, c, true)
    } else if op == 0x8 {
        (rn & op2.value, op2.carry_out, v, false)
    } else if op == 0x9 {
        (rn ^ op2.value, op2.carry_out, v, false)
    } else if op == 0xA {
        minus(rn, op2.value, true, false)
    } else if op == 0xB {
        plus(rn, op2.value, false, false)
    } else if op == 0xC {
        (rn | op2.value, op2.carry_out, v, true)
    } else if op == 0xD {
        (op2.value, op2.carry_out, v, true)
    } else if op == 0xE {
        (rn & !op2.value, op2.carry_out, v, true)
    } else {
        (!op2.value, op2.carry_out, v, true)
    }
}

/// N and Z set from `result`.
pub open spec fn spec_set_nz(regs: RegsView, result: u32) -> RegsView {
    regs.with_flag(psr::Z, result == 0).with_flag(psr::N, (result >> 31) & 1 == 1)
}

/// N, Z, C and V set from an ALU outcome.
pub open spec fn spec_set_nzcv(regs: RegsView, result: u32, carry: bool, overflow: bool) -> RegsView {
    spec_set_nz(regs, result).with_flag(psr::C, carry).with_flag(psr::V, overflow)
}

/// The register file after a Data Processing instruction, with its
/// `(cycles, pc_written)`.
pub open spec fn spec_execute(regs: RegsView, opcode: u32, instr_addr: u32) -> (RegsView, u32, bool) {
    let s = (opcode >> 20) & 1 == 1;
    let rn = ((opcode >> 16) & 0xF) as int;
    let rd = ((opcode >> 12) & 0xF) as int;
    let register_specified_shift = (opcode >> 25) & 1 == 0 && (opcode >> 4) & 1 == 1;
    let op2 = spec_operand2(regs, opcode, instr_addr);
    let rn_value = spec_read_operand(regs, rn, instr_addr, register_specified_shift);
    let (result, carry, overflow, writes) = spec_alu(
        (opcode >> 21) & 0xF,
        rn_value,
        op2,
        regs.flag(psr::C),
        regs.flag(psr::V),
    );
    let flagged = if s {
        spec_set_nzcv(regs, result, carry, overflow)
    } else {
        regs
    };
    if !writes {
        (flagged, 1, false)
    } else {
        let written = flagged.with_r(rd, result);
        if rd == 15 {
            (
                if s {
                    written.with_cpsr(written.spsr())
                } else {
                    written
                },
                3,
                true,
            )
        } else {
            (written, 1, false)
        }
    }
}

pub fn read_operand(regs: &Registers, reg: usize, instr_addr: u32, register_specified_shift: bool) -> (v: u32)
    requires
        reg < 16,
    ensures
        v == spec_read_operand(regs@, reg as int, instr_addr, register_specified_shift),
{
    if reg == 15 {
        instr_addr.wrapping_add(
            if register_specified_shift {
                12
            } else {
                8
            },
        )
    } else {
        regs.r(reg)
    }
}

pub fn compute_operand2(regs: &Registers, opcode: u32, instr_addr: u32) -> (r: ShifterResult)
    ensures
        r == spec_operand2(regs@, opcode, instr_addr),
{
    let carry_in = regs.flag(psr::C);
    let immediate_operand2 = (opcode >> 25) & 1 == 1;

    if immediate_operand2 {
        let imm8: u32 = opcode & 0xFF;
        let rotate: u32 = ((opcode >> 8) & 0xF) * 2;
        if rotate == 0 {
            ShifterResult { value: imm8, carry_out: carry_in }
        } else {
            let value = shifter::rotate_right(imm8, rotate);
            ShifterResult { value, carry_out: (value >> 31) & 1 == 1 }
        }
    } else {
        let rm = (opcode & 0xF) as usize;
        let shift_type = ShiftType::from_bits(opcode >> 5);
        let register_specified = (opcode >> 4) & 1 == 1;

        let amount: u32;
        let is_immediate: bool;
        if register_specified {
            let rs = ((opcode >> 8) & 0xF) as usize;
            amount = read_operand(regs, rs, instr_addr, true) & 0xFF;
            is_immediate = false;
        } else {
            amount = (opcode >> 7) & 0x1F;
            is_immediate = true;
        }
        let rm_value = read_operand(regs, rm, instr_addr, register_specified);
        shifter::shift(shift_type, rm_value, amount, carry_in, is_immediate)
    }
}

fn alu_add(a: u32, b: u32, carry_in: bool, writes: bool) -> (r: (u32, bool, bool, bool))
    ensures
        r == (
            spec_add_with_carry(a, b, carry_in).value,
            spec_add_with_carry(a, b, carry_in).carry,
            spec_add_with_carry(a, b, carry_in).overflow,
            writes,
        ),
{
    let r = alu::add_with_carry(a, b, carry_in);
    (r.value, r.carry, r.overflow, writes)
}

fn alu_sub(a: u32, b: u32, carry_in: bool, writes: bool) -> (r: (u32, bool, bool, bool))
    ensures
        r == (
            spec_sub_with_carry(a, b, carry_in).value,
            spec_sub_with_carry(a, b, carry_in).carry,
            spec_sub_with_carry(a, b, carry_in).overflow,
            writes,
        ),
{
    let r = alu::sub_with_carry(a, b, carry_in);
    (r.value, r.carry, r.overflow, writes)
}

/// Executes a Data Processing instruction. Returns `(cycles, pc_written)`;
/// `pc_written` is true when the instruction's destination was r15.
pub fn execute(regs: &mut Registers, opcode: u32, instr_addr: u32) -> (out: (u32, bool))
    ensures
        (final(regs)@, out.0, out.1) == spec_execute(old(regs)@, opcode, instr_addr),
{
    let s = (opcode >> 20) & 1 == 1;
    let rn = ((opcode >> 16) & 0xF) as usize;
    let rd = ((opcode >> 12) & 0xF) as usize;
    let dp_opcode: u32 = (opcode >> 21) & 0xF;
    let register_specified_shift = (opcode >> 25) & 1 == 0 && (opcode >> 4) & 1 == 1;

    let op2 = compute_operand2(regs, opcode, instr_addr);
    let rn_value = read_operand(regs, rn, instr_addr, register_specified_shift);
    let current_v = regs.flag(psr::V);
    let current_c = regs.flag(psr::C);

    let (result, carry, overflow, writes_result) = if dp_opcode == 0x0 {
        (rn_value & op2.value, op2.carry_out, current_v, true)
    } else if dp_opcode == 0x1 {
        (rn_value ^ op2.value, op2.carry_out, current_v, true)
    } else if dp_opcode == 0x2 {
        alu_sub(rn_value, op2.value, true, true)
    } else if dp_opcode == 0x3 {
        alu_sub(op2.value, rn_value, true, true)
    } else if dp_opcode == 0x4 {
        alu_add(rn_value, op2.value, false, true)
    } else if dp_opcode == 0x5 {
        alu_add(rn_value, op2.value, current_c, true)
    } else if dp_opcode == 0x6 {
        alu_sub(rn_value, op2.value, current_c, true)
    } else if dp_opcode == 0x7 {
        alu_sub(op2.value, rn_value, current_c, true)
    } else if dp_opcode == 0x8 {
        (rn_value & op2.value, op2.carry_out, current_v, false)
    } else if dp_opcode == 0x9 {
        (rn_value ^ op2.value, op2.carry_out, current_v, false)
    } else if dp_opcode == 0xA {
        alu_sub(rn_value, op2.value, true, false)
    } else if dp_opcode == 0xB {
        alu_add(rn_value, op2.value, false, false)
    } else if dp_opcode == 0xC {
        (rn_value | op2.value, op2.carry_out, current_v, true)
    } else if dp_opcode == 0xD {
        (op2.value, op2.carry_out, current_v, true)
    } else if dp_opcode == 0xE {
        (rn_value & !op2.value, op2.carry_out, current_v, true)
    } else {
        (!op2.value, op2.carry_out, current_v, true)
    };

    if s {
        regs.set_flag(psr::Z, result == 0);
        regs.set_flag(psr::N, (result >> 31) & 1 == 1);
        regs.set_flag(psr::C, carry);
        regs.set_flag(psr::V, overflow);
    }

    if !writes_result {
        return (1, false);
    }

    regs.set_r(rd, result);
    if rd == 15 {
        if s {
            // MOVS/ADDS/... PC, ... is how exception handlers return:
            // restore CPSR (and re-bank registers) from the current SPSR.
            let spsr = regs.spsr();
            regs.set_cpsr(spsr);
        }
        (3, true)
    } else {
        (1, false)
    }
}


/// Writing N, Z, C and V (in that order of bits Z, N, C, V, as flag
/// setting does) leaves each reading back as written, and writing only Z
/// and N leaves C and V alone.
pub proof fn lemma_flag_writes(regs: RegsView, result: u32, carry: bool, overflow: bool)
    ensures
        spec_set_nzcv(regs, result, carry, overflow).flag(psr::Z) == (result == 0),
        spec_set_nzcv(regs, result, carry, overflow).flag(psr::N) == (result >= 0x8000_0000),
        spec_set_nzcv(regs, result, carry, overflow).flag(psr::C) == carry,
        spec_set_nzcv(regs, result, carry, overflow).flag(psr::V) == overflow,
        spec_set_nzcv(regs, result, carry, overflow).r == regs.r,
        spec_set_nz(regs, result).flag(psr::Z) == (result == 0),
        spec_set_nz(regs, result).flag(psr::N) == (result >= 0x8000_0000),
        spec_set_nz(regs, result).flag(psr::C) == regs.flag(psr::C),
        spec_set_nz(regs, result).flag(psr::V) == regs.flag(psr::V),
        spec_set_nz(regs, result).r == regs.r,
        spec_set_nz(regs, result).with_flag(psr::C, carry).flag(psr::Z) == (result == 0),
        spec_set_nz(regs, result).with_flag(psr::C, carry).flag(psr::N) == (result >= 0x8000_0000),
        spec_set_nz(regs, result).with_flag(psr::C, carry).flag(psr::C) == carry,
{
    let x = regs.cpsr;
    let z = result == 0;
    let n = (result >> 31) & 1 == 1;
    let x1 = if z {
        x | 0x4000_0000u32
    } else {
        x & !0x4000_0000u32
    };
    let x2 = if n {
        x1 | 0x8000_0000u32
    } else {
        x1 & !0x8000_0000u32
    };
    let x3 = if carry {
        x2 | 0x2000_0000u32
    } else {
        x2 & !0x2000_0000u32
    };
    let x4 = if overflow {
        x3 | 0x1000_0000u32
    } else {
        x3 & !0x1000_0000u32
    };
    assert((x4 & 0x4000_0000 != 0) == z && (x4 & 0x8000_0000 != 0) == n && (x4 & 0x2000_0000 != 0)
        == carry && (x4 & 0x1000_0000 != 0) == overflow && (x2 & 0x4000_0000 != 0) == z && (x2
        & 0x8000_0000 != 0) == n && (x2 & 0x2000_0000 != 0) == (x & 0x2000_0000 != 0) && (x2
        & 0x1000_0000 != 0) == (x & 0x1000_0000 != 0) && (x3 & 0x4000_0000 != 0) == z && (x3
        & 0x8000_0000 != 0) == n && (x3 & 0x2000_0000 != 0) == carry && n == (result
        >= 0x8000_0000)) by (bit_vector)
        requires
            n == ((result >> 31) & 1 == 1),
            x1 == (if z {
                x | 0x4000_0000u32
            } else {
                x & !0x4000_0000u32
            }),
            x2 == (if n {
                x1 | 0x8000_0000u32
            } else {
                x1 & !0x8000_0000u32
            }),
            x3 == (if carry {
                x2 | 0x2000_0000u32
            } else {
                x2 & !0x2000_0000u32
            }),
            x4 == (if overflow {
                x3 | 0x1000_0000u32
            } else {
                x3 & !0x1000_0000u32
            }),
    ;
}

/// The 32-bit value an ARM ALU opcode computes from its first operand `a`,
/// operand2 `b` and carry flag `c`: AND, EOR, SUB, RSB, ADD, ADC, SBC,
/// RSC, then TST, TEQ, CMP, CMN (which compute as AND, EOR, SUB, ADD),
/// ORR, MOV, BIC, MVN; sums and differences wrap modulo 2^32.
pub open spec fn arm_alu_value(op: u32, a: u32, b: u32, c: bool) -> int {
    let ci: int = if c {
        1
    } else {
        0
    };
    if op == 0x0 || op == 0x8 {
        (a & b) as int
    } else if op == 0x1 || op == 0x9 {
        (a ^ b) as int
    } else if op == 0x2 || op == 0xA {
        (a - b) % 0x1_0000_0000
    } else if op == 0x3 {
        (b - a) % 0x1_0000_0000
    } else if op == 0x4 || op == 0xB {
        (a + b) % 0x1_0000_0000
    } else if op == 0x5 {
        (a + b + ci) % 0x1_0000_0000
    } else if op == 0x6 {
        (a - b - 1 + ci) % 0x1_0000_0000
    } else if op == 0x7 {
        (b - a - 1 + ci) % 0x1_0000_0000
    } else if op == 0xC {
        (a | b) as int
    } else if op == 0xD {
        b as int
    } else if op == 0xE {
        (a & !b) as int
    } else {
        (!b) as int
    }
}

/// The ALU outcome of each opcode: the value of [`arm_alu_value`], whether
/// a register is written, and the carry.
pub proof fn lemma_alu_outcome(op: u32, a: u32, sh: ShifterResult, c: bool, v: bool)
    requires
        op < 16,
    ensures
        ({
            let r = spec_alu(op, a, sh, c, v);
            let b = sh.value;
            let ci: int = if c {
                1
            } else {
                0
            };
            &&& r.0 as int == arm_alu_value(op, a, b, c)
            &&& r.3 == (op < 8 || op >= 0xC)
            &&& (op == 0 || op == 1 || op == 8 || op == 9 || op >= 0xC) ==> r.1 == sh.carry_out
            &&& (op == 4 || op == 0xB) ==> r.1 == (a + b >= 0x1_0000_0000)
            &&& op == 5 ==> r.1 == (a + b + ci >= 0x1_0000_0000)
            &&& (op == 2 || op == 0xA) ==> r.1 == (a >= b)
            &&& op == 3 ==> r.1 == (b >= a)
            &&& op == 6 ==> r.1 == (a - b - 1 + ci >= 0)
            &&& op == 7 ==> r.1 == (b - a - 1 + ci >= 0)
        }),
{
    let b = sh.value;
    let ci: int = if c {
        1
    } else {
        0
    };
    if op == 2 || op == 0xA {
        lemma_wrap(a - b);
    } else if op == 3 {
        lemma_wrap(b - a);
    } else if op == 6 {
        lemma_wrap(a - b - 1 + ci);
    } else if op == 7 {
        lemma_wrap(b - a - 1 + ci);
    }
}

/// A difference of two words, brought back into range by adding 2^32 when
/// negative, is that difference modulo 2^32.
proof fn lemma_wrap(d: int)
    requires
        -0x1_0000_0000 <= d < 0x1_0000_0000,
    ensures
        (if d < 0 {
            d + 0x1_0000_0000
        } else {
            d
        }) == d % 0x1_0000_0000,
{
}

/// What a Data Processing instruction does, for a destination other than
/// PC: with `a` the first operand (Rn), `b` operand2 and `c` the carry
/// flag, every opcode but TST, TEQ, CMP and CMN writes
/// `arm_alu_value(op, a, b, c)` to Rd and no other register, while those
/// four write no register. With S set, Z and N describe that value, and C
/// is the shifter's carry for the logical opcodes and, for the arithmetic
/// ones, the unsigned carry out of the sum (for subtraction: no borrow).
/// Without S the CPSR is unchanged.
pub proof fn lemma_data_processing_results(regs: RegsView, opcode: u32, instr_addr: u32)
    requires
        regs.wf(),
        (opcode >> 12) & 0xF != 15,
    ensures
        ({
            let op = (opcode >> 21) & 0xF;
            let rd = ((opcode >> 12) & 0xF) as int;
            let rss = (opcode >> 25) & 1 == 0 && (opcode >> 4) & 1 == 1;
            let a = spec_read_operand(regs, ((opcode >> 16) & 0xF) as int, instr_addr, rss);
            let sh = spec_operand2(regs, opcode, instr_addr);
            let b = sh.value;
            let c = regs.flag(psr::C);
            let ci: int = if c {
                1
            } else {
                0
            };
            let m = arm_alu_value(op, a, b, c);
            let after = spec_execute(regs, opcode, instr_addr).0;
            &&& (op < 8 || op >= 0xC) ==> after.r == regs.r.update(rd, m as u32)
            &&& 8 <= op < 0xC ==> after.r == regs.r
            &&& (opcode >> 20) & 1 == 1 ==> {
                &&& after.flag(psr::Z) == (m == 0)
                &&& after.flag(psr::N) == (m >= 0x8000_0000)
                &&& (op == 0 || op == 1 || op == 8 || op == 9 || op >= 0xC) ==> after.flag(psr::C)
                    == sh.carry_out
                &&& (op == 4 || op == 0xB) ==> after.flag(psr::C) == (a + b >= 0x1_0000_0000)
                &&& op == 5 ==> after.flag(psr::C) == (a + b + ci >= 0x1_0000_0000)
                &&& (op == 2 || op == 0xA) ==> after.flag(psr::C) == (a >= b)
                &&& op == 3 ==> after.flag(psr::C) == (b >= a)
                &&& op == 6 ==> after.flag(psr::C) == (a - b - 1 + ci >= 0)
                &&& op == 7 ==> after.flag(psr::C) == (b - a - 1 + ci >= 0)
            }
            &&& (opcode >> 20) & 1 == 0 ==> after.cpsr == regs.cpsr
        }),
{
    let op = (opcode >> 21) & 0xF;
    let rss = (opcode >> 25) & 1 == 0 && (opcode >> 4) & 1 == 1;
    let a = spec_read_operand(regs, ((opcode >> 16) & 0xF) as int, instr_addr, rss);
    let sh = spec_operand2(regs, opcode, instr_addr);
    let r = spec_alu(op, a, sh, regs.flag(psr::C), regs.flag(psr::V));
    assert(op <= 0xF);
    lemma_alu_outcome(op, a, sh, regs.flag(psr::C), regs.flag(psr::V));
    lemma_flag_writes(regs, r.0, r.1, r.2);
    lemma_flag_writes(regs.with_r(((opcode >> 12) & 0xF) as int, r.0), r.0, r.1, r.2);
}

} // verus!
