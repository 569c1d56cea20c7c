//! Thumb Format 15: STMIA/LDMIA.
use vstd::prelude::*;
use crate::cpu::arm::block_transfer::{count_bits, count_list, in_list};
use crate::cpu::registers::{Registers, RegsView};
use crate::memory::Memory;

verus! {

broadcast use crate::bits::group_bits;

/// Transferring the listed registers among r0..r(n-1) from ascending
/// word-aligned addresses starting at `start`.
pub open spec fn spec_block_steps<M: Memory>(regs: RegsView, mem: M::V, list: u32, load: bool, start: u32, n: int) -> (
    RegsView,
    M::V,
    u32,
)
    decreases n,
{
    if n <= 0 {
        (regs, mem, start)
    } else {
        let (r, m, addr) = spec_block_steps::<M>(regs, mem, list, load, start, n - 1);
        if in_list(list, n - 1) {
            if load {
                (r.with_r(n - 1, M::spec_read32(m, addr & !3u32)), m, addr.wrapping_add(4))
            } else {
                (r, M::spec_write32(m, addr & !3u32, r.r[n - 1]), addr.wrapping_add(4))
            }
        } else {
            (r, m, addr)
        }
    }
}

pub open spec fn spec_execute<M: Memory>(regs: RegsView, mem: M::V, opcode: u16) -> (RegsView, M::V, u32) {
    let load = (opcode >> 11) & 1 == 1;
    let rb = ((opcode >> 8) & 0x7) as int;
    let list = (opcode & 0xFF) as u32;
    let (r1, m1, addr) = spec_block_steps::<M>(regs, mem, list, load, regs.r[rb], 8);
    let r2 = if !(load && in_list(list, rb)) {
        r1.with_r(rb, addr)
    } else {
        r1
    };
    (r2, m1, (1 + count_bits(list, 8)) as u32)
}

/// Format 15 — Multiple load/store: `STMIA/LDMIA Rb!, {Rlist}`, always
/// increment-after with writeback; a loaded base register keeps the
/// loaded value. Returns the cycle count.
pub fn execute<M: Memory>(regs: &mut Registers, mem: &mut M, opcode: u16) -> (cycles: u32)
    requires
        M::inv(old(mem)@),
    ensures
        M::inv(final(mem)@),
        (final(regs)@, final(mem)@, cycles) == spec_execute::<M>(old(regs)@, old(mem)@, opcode),
{
    let load = (opcode >> 11) & 1 == 1;
    let rb = ((opcode >> 8) & 0x7) as usize;
    let list = (opcode & 0xFF) as u32;
    let count = count_list(list, 8);

    let ghost regs0 = regs@;
    let ghost mem0 = mem@;
    let mut addr = regs.r(rb);
    let ghost start = addr;
    let mut reg: usize = 0;
    while reg < 8
        invariant
            M::inv(mem@),
            reg <= 8,
            (regs@, mem@, addr) == spec_block_steps::<M>(regs0, mem0, list, load, start, reg as int),
        decreases 8 - reg,
    {
        if (list >> (reg as u32)) & 1 == 1 {
            if load {
                let value = mem.read32(addr & !3u32);
                regs.set_r(reg, value);
            } else {
                mem.write32(addr & !3u32, regs.r(reg));
            }
            addr = addr.wrapping_add(4);
        }
        reg = reg + 1;
    }

    if !(load && (list >> (rb as u32)) & 1 == 1) {
        regs.set_r(rb, addr);
    }

    1 + count
}

} // verus!
