//! ARM SWI: the software-interrupt exception entry.
use vstd::prelude::*;
use crate::cpu::psr;
use crate::cpu::registers::{Mode, Registers, RegsView};

verus! {

pub const SWI_VECTOR: u32 = 0x0000_0008;

/// Exception entry into Supervisor mode: CPSR saved to SPSR_svc, LR_svc
/// set to `return_addr`, IRQs disabled, ARM state, PC at the SWI vector.
pub open spec fn spec_enter_supervisor(regs: RegsView, return_addr: u32) -> RegsView {
    regs.with_mode(Mode::Supervisor).with_spsr(regs.cpsr).with_r(14, return_addr).with_flag(
        psr::I,
        true,
    ).with_flag(psr::T, false).with_r(15, SWI_VECTOR)
}

/// SWI: saves CPSR to SPSR_svc, the return address to LR_svc, switches to
/// Supervisor mode with IRQs disabled and ARM state forced, then jumps to
/// the SWI exception vector.
pub fn execute(regs: &mut Registers, instr_addr: u32) -> (out: (u32, bool))
    ensures
        final(regs)@ == spec_enter_supervisor(old(regs)@, instr_addr.wrapping_add(4)),
        out == (3u32, true),
{
    let return_addr = instr_addr.wrapping_add(4);
    let old_cpsr = regs.cpsr();

    regs.set_mode(Mode::Supervisor);
    regs.set_spsr(old_cpsr);
    regs.set_r(14, return_addr);
    regs.set_flag(psr::I, true);
    regs.set_flag(psr::T, false);
    regs.set_pc(SWI_VECTOR);

    (3, true)
}

} // verus!
