//! ARM B / BL.
use vstd::prelude::*;
use crate::cpu::registers::{Registers, RegsView};

verus! {

/// The 24-bit branch offset sign-extended to 32 bits.
pub open spec fn sign_extend_24(x: u32) -> u32 {
    if x & 0x0080_0000 != 0 {
        x | 0xFF00_0000
    } else {
        x
    }
}

/// B/BL target: instruction address + 8 + offset words * 4, modulo 2^32.
pub open spec fn spec_branch_target(opcode: u32, instr_addr: u32) -> u32 {
    let words = sign_extend_24(opcode & 0x00FF_FFFF);
    instr_addr.wrapping_add(8).wrapping_add(words.wrapping_mul(4))
}

pub open spec fn spec_execute(regs: RegsView, opcode: u32, instr_addr: u32) -> RegsView {
    let linked = if (opcode >> 24) & 1 == 1 {
        regs.with_r(14, instr_addr.wrapping_add(4))
    } else {
        regs
    };
    linked.with_r(15, spec_branch_target(opcode, instr_addr))
}

/// Executes B / BL. The 24-bit signed offset is a word count relative to
/// the instruction's own address + 8 (the ARM PC-read-ahead convention).
pub fn execute(regs: &mut Registers, opcode: u32, instr_addr: u32) -> (out: (u32, bool))
    ensures
        final(regs)@ == spec_execute(old(regs)@, opcode, instr_addr),
        out == (3u32, true),
{
    let link = (opcode >> 24) & 1 == 1;
    let offset_raw: u32 = opcode & 0x00FF_FFFF;
    let words: u32 = if offset_raw & 0x0080_0000 != 0 {
        offset_raw | 0xFF00_0000
    } else {
        offset_raw
    };
    let target = instr_addr.wrapping_add(8).wrapping_add(words.wrapping_mul(4));

    if link {
        regs.set_r(14, instr_addr.wrapping_add(4));
    }
    regs.set_pc(target);

    (3, true)
}

} // verus!
