//! ARM SWP/SWPB.
use vstd::prelude::*;
use crate::cpu::arm::single_transfer::{load_word, spec_load_word};
use crate::cpu::registers::{Registers, RegsView};
use crate::memory::Memory;

verus! {

broadcast use crate::bits::group_bits;

pub open spec fn spec_execute<M: Memory>(regs: RegsView, mem: M::V, opcode: u32) -> (RegsView, M::V) {
    let rn = ((opcode >> 16) & 0xF) as int;
    let rd = ((opcode >> 12) & 0xF) as int;
    let rm = (opcode & 0xF) as int;
    let addr = regs.r[rn];
    if (opcode >> 22) & 1 == 1 {
        (
            regs.with_r(rd, M::spec_read8(mem, addr) as u32),
            M::spec_write8(mem, addr, regs.r[rm] as u8),
        )
    } else {
        (
            regs.with_r(rd, spec_load_word::<M>(mem, addr)),
            M::spec_write32(mem, addr & !3u32, regs.r[rm]),
        )
    }
}

/// SWP/SWPB: reads `[Rn]`, writes `Rm` to `[Rn]`, then puts the value that
/// was read into `Rd` (read-then-write in program order).
pub fn execute<M: Memory>(regs: &mut Registers, mem: &mut M, opcode: u32) -> (out: (u32, bool))
    requires
        M::inv(old(mem)@),
    ensures
        M::inv(final(mem)@),
        (final(regs)@, final(mem)@) == spec_execute::<M>(old(regs)@, old(mem)@, opcode),
        out == (2u32, false),
{
    let byte = (opcode >> 22) & 1 == 1;
    let rn = ((opcode >> 16) & 0xF) as usize;
    let rd = ((opcode >> 12) & 0xF) as usize;
    let rm = (opcode & 0xF) as usize;

    let addr = regs.r(rn);
    if byte {
        let previous = mem.read8(addr);
        mem.write8(addr, regs.r(rm) as u8);
        regs.set_r(rd, previous as u32);
    } else {
        let previous = load_word(mem, addr);
        mem.write32(addr & !3u32, regs.r(rm));
        regs.set_r(rd, previous);
    }
    (2, false)
}

} // verus!
