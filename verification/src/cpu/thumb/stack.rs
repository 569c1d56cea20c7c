//! Thumb Formats 11-14: SP-relative access, load address, SP adjust,
//! push/pop.
use vstd::prelude::*;
use crate::cpu::arm::block_transfer::{count_bits, count_list, in_list};
use crate::cpu::arm::single_transfer::{load_word, spec_load_word};
use crate::cpu::registers::{Registers, RegsView};
use crate::memory::Memory;

verus! {

broadcast use crate::bits::group_bits;

pub const SP: usize = 13;

pub const LR: usize = 14;

pub const PC: usize = 15;

pub open spec fn spec_sp_relative<M: Memory>(regs: RegsView, mem: M::V, opcode: u16) -> (RegsView, M::V) {
    let rd = ((opcode >> 8) & 0x7) as int;
    let addr = regs.r[13].wrapping_add(((opcode & 0xFF) as u32 * 4) as u32);
    if (opcode >> 11) & 1 == 1 {
        (regs.with_r(rd, spec_load_word::<M>(mem, addr)), mem)
    } else {
        (regs, M::spec_write32(mem, addr & !3u32, regs.r[rd]))
    }
}

/// Format 11 — SP-relative load/store: `STR/LDR Rd, [SP, #Word8*4]`.
pub fn sp_relative<M: Memory>(regs: &mut Registers, mem: &mut M, opcode: u16)
    requires
        M::inv(old(mem)@),
    ensures
        M::inv(final(mem)@),
        (final(regs)@, final(mem)@) == spec_sp_relative::<M>(old(regs)@, old(mem)@, opcode),
{
    let load = (opcode >> 11) & 1 == 1;
    let rd = ((opcode >> 8) & 0x7) as usize;
    let word8 = (opcode & 0xFF) as u32;
    let addr = regs.r(SP).wrapping_add(word8 * 4);

    if load {
        let value = load_word(mem, addr);
        regs.set_r(rd, value);
    } else {
        mem.write32(addr & !3u32, regs.r(rd));
    }
}

pub open spec fn spec_load_address(regs: RegsView, opcode: u16, instr_addr: u32) -> RegsView {
    let base = if (opcode >> 11) & 1 == 1 {
        regs.r[13]
    } else {
        instr_addr.wrapping_add(4) & !2u32
    };
    regs.with_r(((opcode >> 8) & 0x7) as int, base.wrapping_add(((opcode & 0xFF) as u32 * 4) as u32))
}

/// Format 12 — Load address: `ADD Rd, PC, #Word8*4` (PC read as
/// instr_addr+4 with bit 1 cleared) or `ADD Rd, SP, #Word8*4`.
pub fn load_address(regs: &mut Registers, opcode: u16, instr_addr: u32)
    ensures
        final(regs)@ == spec_load_address(old(regs)@, opcode, instr_addr),
{
    let use_sp = (opcode >> 11) & 1 == 1;
    let rd = ((opcode >> 8) & 0x7) as usize;
    let word8 = (opcode & 0xFF) as u32;

    let base = if use_sp {
        regs.r(SP)
    } else {
        (instr_addr.wrapping_add(4)) & !2u32
    };
    regs.set_r(rd, base.wrapping_add(word8 * 4));
}

pub open spec fn spec_add_offset_to_sp(regs: RegsView, opcode: u16) -> RegsView {
    let offset = ((opcode & 0x7F) as u32 * 4) as u32;
    regs.with_r(
        13,
        if (opcode >> 7) & 1 == 1 {
            regs.r[13].wrapping_sub(offset)
        } else {
            regs.r[13].wrapping_add(offset)
        },
    )
}

/// Format 13 — Add offset to stack pointer: `ADD/SUB SP, #SWord7*4`.
pub fn add_offset_to_sp(regs: &mut Registers, opcode: u16)
    ensures
        final(regs)@ == spec_add_offset_to_sp(old(regs)@, opcode),
{
    let negative = (opcode >> 7) & 1 == 1;
    let sword7 = (opcode & 0x7F) as u32;
    let offset = sword7 * 4;
    let sp = regs.r(SP);
    regs.set_r(
        SP,
        if negative {
            sp.wrapping_sub(offset)
        } else {
            sp.wrapping_add(offset)
        },
    );
}

/// Popping registers r0..r(n-1) of `list` from ascending addresses.
pub open spec fn spec_pop_steps<M: Memory>(regs: RegsView, mem: M::V, list: u32, start: u32, n: int) -> (
    RegsView,
    u32,
)
    decreases n,
{
    if n <= 0 {
        (regs, start)
    } else {
        let (r, addr) = spec_pop_steps::<M>(regs, mem, list, start, n - 1);
        if in_list(list, n - 1) {
            (r.with_r(n - 1, M::spec_read32(mem, addr)), addr.wrapping_add(4))
        } else {
            (r, addr)
        }
    }
}

/// Pushing registers r0..r(n-1) of `list` to ascending addresses.
pub open spec fn spec_push_steps<M: Memory>(regs: RegsView, mem: M::V, list: u32, start: u32, n: int) -> (
    M::V,
    u32,
)
    decreases n,
{
    if n <= 0 {
        (mem, start)
    } else {
        let (m, addr) = spec_push_steps::<M>(regs, mem, list, start, n - 1);
        if in_list(list, n - 1) {
            (M::spec_write32(m, addr, regs.r[n - 1]), addr.wrapping_add(4))
        } else {
            (m, addr)
        }
    }
}

pub open spec fn spec_push_pop<M: Memory>(regs: RegsView, mem: M::V, opcode: u16) -> (
    RegsView,
    M::V,
    u32,
    bool,
) {
    let store_extra = (opcode >> 8) & 1 == 1;
    let list = (opcode & 0xFF) as u32;
    let count = (count_bits(list, 8) + if store_extra {
        1int
    } else {
        0int
    }) as u32;
    if (opcode >> 11) & 1 == 1 {
        let (r1, addr) = spec_pop_steps::<M>(regs, mem, list, regs.r[13], 8);
        if store_extra {
            (
                r1.with_r(15, M::spec_read32(mem, addr) & !1u32).with_r(13, addr.wrapping_add(4)),
                mem,
                (1 + count) as u32,
                true,
            )
        } else {
            (r1.with_r(13, addr), mem, (1 + count) as u32, false)
        }
    } else {
        let start = regs.r[13].wrapping_sub((4 * count) as u32);
        let (m1, addr) = spec_push_steps::<M>(regs, mem, list, start, 8);
        let m2 = if store_extra {
            M::spec_write32(m1, addr, regs.r[14])
        } else {
            m1
        };
        (regs.with_r(13, start), m2, (1 + count) as u32, false)
    }
}

/// Format 14 — Push/pop registers: `PUSH {Rlist, LR?}` / `POP {Rlist, PC?}`.
/// Popping PC stays in Thumb state and masks off bit 0; it never restores
/// CPSR.
pub fn push_pop<M: Memory>(regs: &mut Registers, mem: &mut M, opcode: u16) -> (out: (u32, bool))
    requires
        M::inv(old(mem)@),
    ensures
        M::inv(final(mem)@),
        (final(regs)@, final(mem)@, out.0, out.1) == spec_push_pop::<M>(old(regs)@, old(mem)@, opcode),
{
    let pop = (opcode >> 11) & 1 == 1;
    let store_extra = (opcode >> 8) & 1 == 1;
    let list = (opcode & 0xFF) as u32;
    let count: u32 = count_list(list, 8) + if store_extra {
        1
    } else {
        0
    };
    let ghost regs0 = regs@;
    let ghost mem0 = mem@;

    if pop {
        let mut addr = regs.r(SP);
        let ghost start = addr;
        let mut reg: usize = 0;
        while reg < 8
            invariant
                M::inv(mem@),
                reg <= 8,
                mem@ == mem0,
                (regs@, addr) == spec_pop_steps::<M>(regs0, mem0, list, start, reg as int),
            decreases 8 - reg,
        {
            if (list >> (reg as u32)) & 1 == 1 {
                let value = mem.read32(addr);
                regs.set_r(reg, value);
                addr = addr.wrapping_add(4);
            }
            reg = reg + 1;
        }
        let mut pc_written = false;
        if store_extra {
            let value = mem.read32(addr);
            regs.set_r(PC, value & !1u32);
            addr = addr.wrapping_add(4);
            pc_written = true;
        }
        regs.set_r(SP, addr);
        (1 + count, pc_written)
    } else {
        let start = regs.r(SP).wrapping_sub(4 * count);
        let mut addr = start;
        let mut reg: usize = 0;
        while reg < 8
            invariant
                M::inv(mem@),
                reg <= 8,
                regs@ == regs0,
                (mem@, addr) == spec_push_steps::<M>(regs0, mem0, list, start, reg as int),
            decreases 8 - reg,
        {
            if (list >> (reg as u32)) & 1 == 1 {
                mem.write32(addr, regs.r(reg));
                addr = addr.wrapping_add(4);
            }
            reg = reg + 1;
        }
        if store_extra {
            mem.write32(addr, regs.r(LR));
        }
        regs.set_r(SP, start);
        (1 + count, false)
    }
}

} // verus!
