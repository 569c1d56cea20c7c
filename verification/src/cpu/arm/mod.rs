pub mod alu;
pub mod block_transfer;
pub mod branch;
pub mod branch_exchange;
pub mod data_processing;
pub mod halfword_transfer;
pub mod multiply;
pub mod psr_transfer;
pub mod shifter;
pub mod single_transfer;
pub mod swap;
pub mod swi;

use vstd::prelude::*;
use crate::cpu::psr;
use crate::cpu::registers::{Registers, RegsView};
use crate::cpu::CpuError;
use crate::memory::Memory;

verus! {

broadcast use crate::bits::group_bits;

/// Whether ARM condition code `cond` (its low 4 bits) holds for the flags.
pub open spec fn spec_check_condition(cond: u32, regs: RegsView) -> bool {
    let n = regs.flag(psr::N);
    let z = regs.flag(psr::Z);
    let c = regs.flag(psr::C);
    let v = regs.flag(psr::V);
    let code = cond & 0xF;
    if code == 0x0 {
        z
    } else if code == 0x1 {
        !z
    } else if code == 0x2 {
        c
    } else if code == 0x3 {
        !c
    } else if code == 0x4 {
        n
    } else if code == 0x5 {
        !n
    } else if code == 0x6 {
        v
    } else if code == 0x7 {
        !v
    } else if code == 0x8 {
        c && !z
    } else if code == 0x9 {
        !c || z
    } else if code == 0xA {
        n == v
    } else if code == 0xB {
        n != v
    } else if code == 0xC {
        !z && (n == v)
    } else if code == 0xD {
        z || (n != v)
    } else {
        code == 0xE
    }
}

/// Evaluates an ARM condition code (opcode bits 31-28) against the current
/// flags. Every ARM instruction is conditional; NV (0xF) never executes.
pub fn check_condition(cond: u32, regs: &Registers) -> (b: bool)
    ensures
        b == spec_check_condition(cond, regs@),
{
    let n = regs.flag(psr::N);
    let z = regs.flag(psr::Z);
    let c = regs.flag(psr::C);
    let v = regs.flag(psr::V);
    let code: u32 = cond & 0xF;
    if code == 0x0 {
        z
    } else if code == 0x1 {
        !z
    } else if code == 0x2 {
        c
    } else if code == 0x3 {
        !c
    } else if code == 0x4 {
        n
    } else if code == 0x5 {
        !n
    } else if code == 0x6 {
        v
    } else if code == 0x7 {
        !v
    } else if code == 0x8 {
        c && !z
    } else if code == 0x9 {
        !c || z
    } else if code == 0xA {
        n == v
    } else if code == 0xB {
        n != v
    } else if code == 0xC {
        !z && (n == v)
    } else if code == 0xD {
        z || (n != v)
    } else {
        code == 0xE
    }
}

/// MRS/MSR encodings: TST/TEQ/CMP/CMN with S=0 in the bit-27-26 == 00 space.
pub open spec fn spec_is_psr_transfer(opcode: u32) -> bool {
    let dp_opcode = (opcode >> 21) & 0xF;
    0x8 <= dp_opcode <= 0xB && (opcode >> 20) & 1 == 0 && (opcode >> 26) & 0b11 == 0b00
}

pub open spec fn spec_is_branch_and_exchange(opcode: u32) -> bool {
    (opcode & 0x0FFF_FFF0) == 0x012F_FF10
}

/// MUL/MLA: bits27-22 all zero, bits7-4 == 1001.
pub open spec fn spec_is_multiply(opcode: u32) -> bool {
    (opcode >> 22) & 0x3F == 0 && (opcode >> 4) & 0xF == 0b1001
}

/// UMULL/UMLAL/SMULL/SMLAL: bits27-23 == 00001, bits7-4 == 1001.
pub open spec fn spec_is_multiply_long(opcode: u32) -> bool {
    (opcode >> 23) & 0x1F == 0b00001 && (opcode >> 4) & 0xF == 0b1001
}

/// SWP/SWPB: bits27-23 == 00010, bits21-20 == 00, bits7-4 == 1001.
pub open spec fn spec_is_swap(opcode: u32) -> bool {
    (opcode >> 23) & 0x1F == 0b00010 && (opcode >> 20) & 0b11 == 0 && (opcode >> 4) & 0xF == 0b1001
}

/// LDRH/STRH/LDRSB/LDRSH: bit25=0, bits7-4 has bit7 and bit4 set but is
/// not exactly 1001.
pub open spec fn spec_is_halfword_transfer(opcode: u32) -> bool {
    let bits7_4 = (opcode >> 4) & 0xF;
    (opcode >> 25) & 1 == 0 && bits7_4 & 0b1001 == 0b1001 && bits7_4 != 0b1001
}

pub fn is_psr_transfer(opcode: u32) -> (b: bool)
    ensures
        b == spec_is_psr_transfer(opcode),
{
    let dp_opcode: u32 = (opcode >> 21) & 0xF;
    let s: u32 = (opcode >> 20) & 1;
    let is_compare = 0x8 <= dp_opcode && dp_opcode <= 0xB;
    is_compare && s == 0 && (opcode >> 26) & 0b11 == 0b00
}

pub fn is_branch_and_exchange(opcode: u32) -> (b: bool)
    ensures
        b == spec_is_branch_and_exchange(opcode),
{
    (opcode & 0x0FFF_FFF0) == 0x012F_FF10
}

pub fn is_multiply(opcode: u32) -> (b: bool)
    ensures
        b == spec_is_multiply(opcode),
{
    (opcode >> 22) & 0x3F == 0 && (opcode >> 4) & 0xF == 0b1001
}

pub fn is_multiply_long(opcode: u32) -> (b: bool)
    ensures
        b == spec_is_multiply_long(opcode),
{
    (opcode >> 23) & 0x1F == 0b00001 && (opcode >> 4) & 0xF == 0b1001
}

pub fn is_swap(opcode: u32) -> (b: bool)
    ensures
        b == spec_is_swap(opcode),
{
    (opcode >> 23) & 0x1F == 0b00010 && (opcode >> 20) & 0b11 == 0 && (opcode >> 4) & 0xF == 0b1001
}

pub fn is_halfword_transfer(opcode: u32) -> (b: bool)
    ensures
        b == spec_is_halfword_transfer(opcode),
{
    let bits7_4: u32 = (opcode >> 4) & 0xF;
    (opcode >> 25) & 1 == 0 && bits7_4 & 0b1001 == 0b1001 && bits7_4 != 0b1001
}

/// What an opcode of group bits27-25 == 000 does.
pub open spec fn spec_execute_group0<M: Memory>(regs: RegsView, mem: M::V, opcode: u32, instr_addr: u32) -> (
    (u32, bool),
    RegsView,
    M::V,
) {
    if spec_is_branch_and_exchange(opcode) {
        ((3u32, true), branch_exchange::spec_execute(regs, opcode, instr_addr), mem)
    } else if spec_is_multiply(opcode) {
        ((1u32, false), multiply::spec_execute_mul(regs, opcode), mem)
    } else if spec_is_multiply_long(opcode) {
        ((1u32, false), multiply::spec_execute_mul_long(regs, opcode), mem)
    } else if spec_is_swap(opcode) {
        let (r, m) = swap::spec_execute::<M>(regs, mem, opcode);
        ((2u32, false), r, m)
    } else if spec_is_halfword_transfer(opcode) {
        let (r, m, c, p) = halfword_transfer::spec_execute::<M>(regs, mem, opcode, instr_addr);
        ((c, p), r, m)
    } else if spec_is_psr_transfer(opcode) {
        ((1u32, false), psr_transfer::spec_execute(regs, opcode), mem)
    } else {
        let (r, c, p) = data_processing::spec_execute(regs, opcode, instr_addr);
        ((c, p), r, mem)
    }
}

/// What one ARM opcode does: `(outcome, registers, memory)` afterwards.
pub open spec fn spec_execute<M: Memory>(regs: RegsView, mem: M::V, opcode: u32, instr_addr: u32) -> (
    Result<(u32, bool), CpuError>,
    RegsView,
    M::V,
) {
    if !spec_check_condition(opcode >> 28, regs) {
        (Ok((1u32, false)), regs, mem)
    } else {
        let group = (opcode >> 25) & 0b111;
        if group == 0b101 {
            (Ok((3u32, true)), branch::spec_execute(regs, opcode, instr_addr), mem)
        } else if group == 0b000 {
            let (o, r, m) = spec_execute_group0::<M>(regs, mem, opcode, instr_addr);
            (Ok(o), r, m)
        } else if group == 0b001 {
            if spec_is_psr_transfer(opcode) {
                (Ok((1u32, false)), psr_transfer::spec_execute(regs, opcode), mem)
            } else {
                let (r, c, p) = data_processing::spec_execute(regs, opcode, instr_addr);
                (Ok((c, p)), r, mem)
            }
        } else if group == 0b010 || (group == 0b011 && (opcode >> 4) & 1 == 0) {
            let (r, m, c, p) = single_transfer::spec_execute::<M>(regs, mem, opcode, instr_addr);
            (Ok((c, p)), r, m)
        } else if group == 0b100 {
            let (r, m, c, p) = block_transfer::spec_execute::<M>(regs, mem, opcode, instr_addr);
            (Ok((c, p)), r, m)
        } else if group == 0b111 && (opcode >> 24) & 1 == 1 {
            (Ok((3u32, true)), swi::spec_enter_supervisor(regs, instr_addr.wrapping_add(4)), mem)
        } else {
            (Err(CpuError::UnimplementedArm { opcode, pc: instr_addr }), regs, mem)
        }
    }
}

fn execute_group0<M: Memory>(regs: &mut Registers, mem: &mut M, opcode: u32, instr_addr: u32) -> (out: (
    u32,
    bool,
))
    requires
        M::inv(old(mem)@),
    ensures
        M::inv(final(mem)@),
        (out, final(regs)@, final(mem)@) == spec_execute_group0::<M>(
            old(regs)@,
            old(mem)@,
            opcode,
            instr_addr,
        ),
{
    if is_branch_and_exchange(opcode) {
        branch_exchange::execute(regs, opcode, instr_addr)
    } else if is_multiply(opcode) {
        multiply::execute_mul(regs, opcode)
    } else if is_multiply_long(opcode) {
        multiply::execute_mul_long(regs, opcode)
    } else if is_swap(opcode) {
        swap::execute(regs, mem, opcode)
    } else if is_halfword_transfer(opcode) {
        // Checked before is_psr_transfer: a halfword transfer can also
        // satisfy that predicate, while a genuine MRS/MSR never has
        // bits7-4 matching this one.
        halfword_transfer::execute(regs, mem, opcode, instr_addr)
    } else if is_psr_transfer(opcode) {
        psr_transfer::execute(regs, opcode)
    } else {
        data_processing::execute(regs, opcode, instr_addr)
    }
}

/// Decodes and executes one ARM opcode. Returns `(cycles, pc_written)`
/// where `pc_written` tells the caller not to auto-advance PC because the
/// instruction already set it. Register-offset LDR/STR with bit4 set and
/// every coprocessor encoding are reported as unimplemented.
pub fn execute<M: Memory>(regs: &mut Registers, mem: &mut M, opcode: u32, instr_addr: u32) -> (out:
    Result<(u32, bool), CpuError>)
    requires
        M::inv(old(mem)@),
    ensures
        M::inv(final(mem)@),
        (out, final(regs)@, final(mem)@) == spec_execute::<M>(old(regs)@, old(mem)@, opcode, instr_addr),
{
    let cond = opcode >> 28;
    if !check_condition(cond, regs) {
        return Ok((1, false));  // condition failed: fetched, not executed
    }
    let group: u32 = (opcode >> 25) & 0b111;
    if group == 0b101 {
        Ok(branch::execute(regs, opcode, instr_addr))
    } else if group == 0b000 {
        Ok(execute_group0(regs, mem, opcode, instr_addr))
    } else if group == 0b001 {
        if is_psr_transfer(opcode) {
            Ok(psr_transfer::execute(regs, opcode))
        } else {
            Ok(data_processing::execute(regs, opcode, instr_addr))
        }
    } else if group == 0b010 {
        Ok(single_transfer::execute(regs, mem, opcode, instr_addr))
    } else if group == 0b011 {
        if (opcode >> 4) & 1 == 1 {
            // Register-offset LDR/STR with bit4=1 is a reserved
            // (undefined-instruction) encoding on ARMv4.
            Err(CpuError::UnimplementedArm { opcode, pc: instr_addr })
        } else {
            Ok(single_transfer::execute(regs, mem, opcode, instr_addr))
        }
    } else if group == 0b100 {
        Ok(block_transfer::execute(regs, mem, opcode, instr_addr))
    } else if group == 0b111 && (opcode >> 24) & 1 == 1 {
        Ok(swi::execute(regs, instr_addr))
    } else {
        // Coprocessor transfers/operations: the GBA has no coprocessor.
        Err(CpuError::UnimplementedArm { opcode, pc: instr_addr })
    }
}

} // verus!
