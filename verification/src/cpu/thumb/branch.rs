//! Thumb Formats 16-19: conditional/unconditional branches, SWI, BL.
use vstd::prelude::*;
use crate::cpu::arm::swi::{spec_enter_supervisor, SWI_VECTOR};
use crate::cpu::arm::{check_condition, spec_check_condition};
use crate::cpu::psr;
use crate::cpu::registers::{Mode, Registers, RegsView};

verus! {

broadcast use crate::bits::group_bits;

/// An 8-bit branch offset sign-extended to 32 bits.
pub open spec fn sign_extend_8_to_32(x: u32) -> u32 {
    if x & 0x80 != 0 {
        x | 0xFFFF_FF00
    } else {
        x
    }
}

/// An 11-bit branch offset sign-extended to 32 bits.
pub open spec fn sign_extend_11(x: u32) -> u32 {
    if x & 0x400 != 0 {
        x | 0xFFFF_F800
    } else {
        x
    }
}

/// `(cycles, pc_written, target)` of a conditional branch.
pub open spec fn spec_conditional_branch(regs: RegsView, opcode: u16, instr_addr: u32) -> (u32, bool, Option<u32>) {
    if !spec_check_condition(((opcode >> 8) & 0xF) as u32, regs) {
        (1, false, None)
    } else {
        let offset = sign_extend_8_to_32((opcode & 0xFF) as u32);
        (3, true, Some(instr_addr.wrapping_add(4).wrapping_add(offset.wrapping_mul(2))))
    }
}

/// Format 16 — Conditional branch: `B<cond> label`. Returns `(cycles,
/// pc_written, target)`; when the condition fails, the branch is skipped.
pub fn conditional_branch(regs: &Registers, opcode: u16, instr_addr: u32) -> (out: (u32, bool, Option<u32>))
    ensures
        out == spec_conditional_branch(regs@, opcode, instr_addr),
{
    let cond = ((opcode >> 8) & 0xF) as u32;
    if !check_condition(cond, regs) {
        return (1, false, None);
    }
    let raw = (opcode & 0xFF) as u32;
    let offset: u32 = if raw & 0x80 != 0 {
        raw | 0xFFFF_FF00
    } else {
        raw
    };
    let target = instr_addr.wrapping_add(4).wrapping_add(offset.wrapping_mul(2));
    (3, true, Some(target))
}

/// Format 17 — Software interrupt: the same exception entry as ARM's SWI,
/// with the return address instr_addr+2.
pub fn software_interrupt(regs: &mut Registers, instr_addr: u32) -> (out: (u32, bool))
    ensures
        final(regs)@ == spec_enter_supervisor(old(regs)@, instr_addr.wrapping_add(2)),
        out == (3u32, true),
{
    let return_addr = instr_addr.wrapping_add(2);
    let old_cpsr = regs.cpsr();

    regs.set_mode(Mode::Supervisor);
    regs.set_spsr(old_cpsr);
    regs.set_r(14, return_addr);
    regs.set_flag(psr::I, true);
    regs.set_flag(psr::T, false);
    regs.set_pc(SWI_VECTOR);

    (3, true)
}

pub open spec fn spec_unconditional_branch(opcode: u16, instr_addr: u32) -> u32 {
    instr_addr.wrapping_add(4).wrapping_add(sign_extend_11((opcode & 0x7FF) as u32).wrapping_mul(2))
}

/// Format 18 — Unconditional branch: `B label`.
pub fn unconditional_branch(opcode: u16, instr_addr: u32) -> (target: u32)
    ensures
        target == spec_unconditional_branch(opcode, instr_addr),
{
    let offset11 = (opcode & 0x7FF) as u32;
    let signed: u32 = if offset11 & 0x400 != 0 {
        offset11 | 0xFFFF_F800
    } else {
        offset11
    };
    instr_addr.wrapping_add(4).wrapping_add(signed.wrapping_mul(2))
}

pub open spec fn spec_branch_link_high(regs: RegsView, opcode: u16, instr_addr: u32) -> RegsView {
    regs.with_r(
        14,
        instr_addr.wrapping_add(4).wrapping_add(
            sign_extend_11((opcode & 0x7FF) as u32).wrapping_mul(0x1000),
        ),
    )
}

/// Format 19 — Long branch with link, first half (H=0): stashes a partial
/// target in LR; never touches PC.
pub fn branch_link_high(regs: &mut Registers, opcode: u16, instr_addr: u32)
    ensures
        final(regs)@ == spec_branch_link_high(old(regs)@, opcode, instr_addr),
{
    let offset11 = (opcode & 0x7FF) as u32;
    let signed: u32 = if offset11 & 0x400 != 0 {
        offset11 | 0xFFFF_F800
    } else {
        offset11
    };
    let base = instr_addr.wrapping_add(4);
    regs.set_r(14, base.wrapping_add(signed.wrapping_mul(0x1000)));
}

pub open spec fn spec_branch_link_low(regs: RegsView, opcode: u16, instr_addr: u32) -> RegsView {
    let target = regs.r[14].wrapping_add((((opcode & 0x7FF) as u32) * 2) as u32);
    regs.with_r(14, instr_addr.wrapping_add(2) | 1).with_r(15, target)
}

/// Format 19 — Long branch with link, second half (H=1): jumps using LR as
/// scratch, and sets LR to the return address with bit 0 set.
pub fn branch_link_low(regs: &mut Registers, opcode: u16, instr_addr: u32)
    ensures
        final(regs)@ == spec_branch_link_low(old(regs)@, opcode, instr_addr),
{
    let offset11 = (opcode & 0x7FF) as u32;
    let return_addr = instr_addr.wrapping_add(2) | 1;
    let target = regs.r(14).wrapping_add(offset11 * 2);
    regs.set_r(14, return_addr);
    regs.set_pc(target);
}

} // verus!
