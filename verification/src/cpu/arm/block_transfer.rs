//! ARM LDM/STM.
use vstd::prelude::*;
use crate::cpu::registers::{Registers, RegsView};
use crate::memory::Memory;

verus! {

broadcast use crate::bits::group_bits;

/// Whether bit `i` of `list` is set.
pub open spec fn in_list(list: u32, i: int) -> bool {
    (list >> (i as u32)) & 1 == 1
}

/// How many of bits `0..n` of `list` are set.
pub open spec fn count_bits(list: u32, n: int) -> int
    decreases n,
{
    if n <= 0 {
        0
    } else {
        count_bits(list, n - 1) + if in_list(list, n - 1) {
            1int
        } else {
            0int
        }
    }
}

pub proof fn lemma_count_bits_bounds(list: u32, n: int)
    requires
        0 <= n,
    ensures
        0 <= count_bits(list, n) <= n,
    decreases n,
{
    if n > 0 {
        lemma_count_bits_bounds(list, n - 1);
    }
}

/// Counts the set bits among the low `n` bits of `list`.
pub fn count_list(list: u32, n: u32) -> (count: u32)
    requires
        n <= 16,
    ensures
        count == count_bits(list, n as int),
        count <= n,
{
    let mut count: u32 = 0;
    let mut i: u32 = 0;
    while i < n
        invariant
            i <= n <= 16,
            count == count_bits(list, i as int),
            count <= i,
        decreases n - i,
    {
        if (list >> i) & 1 == 1 {
            count = count + 1;
        }
        i = i + 1;
    }
    count
}

/// The register file, memory, next address and "PC loaded" flag after
/// transferring the listed registers among r0..r(n-1), in ascending order
/// from `start`.
pub open spec fn spec_block_steps<M: Memory>(
    regs: RegsView,
    mem: M::V,
    list: u32,
    load: bool,
    start: u32,
    instr_addr: u32,
    n: int,
) -> (RegsView, M::V, u32, bool)
    decreases n,
{
    if n <= 0 {
        (regs, mem, start, false)
    } else {
        let (r, m, addr, pc) = spec_block_steps::<M>(regs, mem, list, load, start, instr_addr, n - 1);
        let reg = n - 1;
        if in_list(list, reg) {
            if load {
                (
                    r.with_r(reg, M::spec_read32(m, addr & !3u32)),
                    m,
                    addr.wrapping_add(4),
                    pc || reg == 15,
                )
            } else {
                let v = if reg == 15 {
                    instr_addr.wrapping_add(12)
                } else {
                    r.r[reg]
                };
                (r, M::spec_write32(m, addr & !3u32, v), addr.wrapping_add(4), pc)
            }
        } else {
            (r, m, addr, pc)
        }
    }
}

/// `(first address, base after writeback)` for a block of `count` words.
pub open spec fn spec_block_addresses(base: u32, pre_index: bool, up: bool, count: u32) -> (u32, u32) {
    let size = (4 * count) as u32;
    if !pre_index && up {
        (base, base.wrapping_add(size))
    } else if pre_index && up {
        (base.wrapping_add(4), base.wrapping_add(size))
    } else if !pre_index && !up {
        (base.wrapping_sub(size).wrapping_add(4), base.wrapping_sub(size))
    } else {
        (base.wrapping_sub(size), base.wrapping_sub(size))
    }
}

pub open spec fn spec_execute<M: Memory>(regs: RegsView, mem: M::V, opcode: u32, instr_addr: u32) -> (
    RegsView,
    M::V,
    u32,
    bool,
) {
    let pre_index = (opcode >> 24) & 1 == 1;
    let up = (opcode >> 23) & 1 == 1;
    let restore_cpsr = (opcode >> 22) & 1 == 1;
    let writeback = (opcode >> 21) & 1 == 1;
    let load = (opcode >> 20) & 1 == 1;
    let rn = ((opcode >> 16) & 0xF) as int;
    let list = opcode & 0xFFFF;
    let count = count_bits(list, 16) as u32;
    let (start, rn_after) = spec_block_addresses(regs.r[rn], pre_index, up, count);
    let (r1, m1, _, pc_loaded) = spec_block_steps::<M>(regs, mem, list, load, start, instr_addr, 16);
    let r2 = if writeback && !(load && in_list(list, rn)) {
        r1.with_r(rn, rn_after)
    } else {
        r1
    };
    let r3 = if pc_loaded && restore_cpsr {
        r2.with_cpsr(r2.spsr())
    } else {
        r2
    };
    (r3, m1, (1 + count) as u32, pc_loaded)
}

/// LDM/STM. Registers in the list are always transferred in ascending
/// register-number order, which is also ascending address order — the P/U
/// bits only decide where that block sits relative to the base. With the S
/// bit, loading PC also restores CPSR from SPSR (the exception-return
/// idiom); the S bit's "user bank" transfer is not modeled.
pub fn execute<M: Memory>(regs: &mut Registers, mem: &mut M, opcode: u32, instr_addr: u32) -> (out: (
    u32,
    bool,
))
    requires
        M::inv(old(mem)@),
    ensures
        M::inv(final(mem)@),
        (final(regs)@, final(mem)@, out.0, out.1) == spec_execute::<M>(
            old(regs)@,
            old(mem)@,
            opcode,
            instr_addr,
        ),
{
    let pre_index = (opcode >> 24) & 1 == 1;
    let up = (opcode >> 23) & 1 == 1;
    let restore_cpsr_on_pc_load = (opcode >> 22) & 1 == 1;
    let writeback = (opcode >> 21) & 1 == 1;
    let load = (opcode >> 20) & 1 == 1;
    let rn = ((opcode >> 16) & 0xF) as usize;
    let list: u32 = opcode & 0xFFFF;

    let count = count_list(list, 16);
    let base = regs.r(rn);
    let size: u32 = 4 * count;

    let (start_address, rn_after) = if !pre_index && up {
        (base, base.wrapping_add(size))
    } else if pre_index && up {
        (base.wrapping_add(4), base.wrapping_add(size))
    } else if !pre_index && !up {
        (base.wrapping_sub(size).wrapping_add(4), base.wrapping_sub(size))
    } else {
        (base.wrapping_sub(size), base.wrapping_sub(size))
    };

    let ghost regs0 = regs@;
    let ghost mem0 = mem@;
    let mut addr = start_address;
    let mut pc_loaded = false;
    let mut reg: usize = 0;
    while reg < 16
        invariant
            M::inv(mem@),
            0 <= reg <= 16,
            (regs@, mem@, addr, pc_loaded) == spec_block_steps::<M>(
                regs0,
                mem0,
                list,
                load,
                start_address,
                instr_addr,
                reg as int,
            ),
        decreases 16 - reg,
    {
        if (list >> (reg as u32)) & 1 == 1 {
            if load {
                let value = mem.read32(addr & !3u32);
                regs.set_r(reg, value);
                if reg == 15 {
                    pc_loaded = true;
                }
            } else {
                let value = if reg == 15 {
                    instr_addr.wrapping_add(12)
                } else {
                    regs.r(reg)
                };
                mem.write32(addr & !3u32, value);
            }
            addr = addr.wrapping_add(4);
        }
        reg = reg + 1;
    }

    if writeback && !(load && (list >> (rn as u32)) & 1 == 1) {
        regs.set_r(rn, rn_after);
    }

    if pc_loaded && restore_cpsr_on_pc_load {
        let spsr = regs.spsr();
        regs.set_cpsr(spsr);
    }

    (1 + count, pc_loaded)
}

} // verus!
