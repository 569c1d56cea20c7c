//! ARM LDR/STR/LDRB/STRB.
use vstd::prelude::*;
use crate::cpu::arm::shifter::{self, rotr, spec_shift, ShiftType};
use crate::cpu::registers::{Registers, RegsView};
use crate::memory::Memory;

verus! {

broadcast use crate::bits::group_bits;

/// A word load at a possibly unaligned address: the aligned word rotated
/// right by 8 bits per byte of misalignment.
pub open spec fn spec_load_word<M: Memory>(mem: M::V, addr: u32) -> u32 {
    rotr(M::spec_read32(mem, addr & !3u32), ((addr & 3) * 8) as u32)
}

pub open spec fn spec_offset(regs: RegsView, opcode: u32) -> u32 {
    if (opcode >> 25) & 1 == 0 {
        opcode & 0xFFF
    } else {
        spec_shift(
            ShiftType::spec_from_bits(opcode >> 5),
            regs.r[(opcode & 0xF) as int],
            (opcode >> 7) & 0x1F,
            false,
            true,
        ).value
    }
}

/// The register file and memory after LDR/STR/LDRB/STRB, with
/// `(cycles, pc_written)`.
pub open spec fn spec_execute<M: Memory>(regs: RegsView, mem: M::V, opcode: u32, instr_addr: u32) -> (
    RegsView,
    M::V,
    u32,
    bool,
) {
    let pre_index = (opcode >> 24) & 1 == 1;
    let add = (opcode >> 23) & 1 == 1;
    let byte = (opcode >> 22) & 1 == 1;
    let writeback = (opcode >> 21) & 1 == 1;
    let load = (opcode >> 20) & 1 == 1;
    let rn = ((opcode >> 16) & 0xF) as int;
    let rd = ((opcode >> 12) & 0xF) as int;
    let offset = spec_offset(regs, opcode);
    let base = if rn == 15 {
        instr_addr.wrapping_add(8)
    } else {
        regs.r[rn]
    };
    let offset_addr = if add {
        base.wrapping_add(offset)
    } else {
        base.wrapping_sub(offset)
    };
    let ea = if pre_index {
        offset_addr
    } else {
        base
    };
    let (r1, m1) = if load {
        let value = if byte {
            M::spec_read8(mem, ea) as u32
        } else {
            spec_load_word::<M>(mem, ea)
        };
        (regs.with_r(rd, value), mem)
    } else {
        let value = if rd == 15 {
            instr_addr.wrapping_add(12)
        } else {
            regs.r[rd]
        };
        (
            regs,
            if byte {
                M::spec_write8(mem, ea, value as u8)
            } else {
                M::spec_write32(mem, ea & !3u32, value)
            },
        )
    };
    let r2 = if !pre_index || writeback {
        r1.with_r(rn, offset_addr)
    } else {
        r1
    };
    (
        r2,
        m1,
        if load {
            3
        } else {
            2
        },
        load && rd == 15,
    )
}

/// Loads the word at a possibly unaligned address the way LDR does.
pub fn load_word<M: Memory>(mem: &M, addr: u32) -> (v: u32)
    requires
        M::inv(mem@),
    ensures
        v == spec_load_word::<M>(mem@, addr),
{
    let aligned: u32 = addr & !3u32;
    let rot: u32 = (addr & 3) * 8;
    shifter::rotate_right(mem.read32(aligned), rot)
}

/// LDR/STR/LDRB/STRB. An unaligned word `LDR` reads the aligned word and
/// rotates it; `STR` forces the address to be aligned. Post-indexed
/// transfers always write back the base.
pub fn execute<M: Memory>(regs: &mut Registers, mem: &mut M, opcode: u32, instr_addr: u32) -> (out: (
    u32,
    bool,
))
    requires
        M::inv(old(mem)@),
    ensures
        M::inv(final(mem)@),
        (final(regs)@, final(mem)@, out.0, out.1) == spec_execute::<M>(
            old(regs)@,
            old(mem)@,
            opcode,
            instr_addr,
        ),
{
    let immediate_offset = (opcode >> 25) & 1 == 0;
    let pre_index = (opcode >> 24) & 1 == 1;
    let add = (opcode >> 23) & 1 == 1;
    let byte = (opcode >> 22) & 1 == 1;
    let writeback = (opcode >> 21) & 1 == 1;
    let load = (opcode >> 20) & 1 == 1;
    let rn = ((opcode >> 16) & 0xF) as usize;
    let rd = ((opcode >> 12) & 0xF) as usize;

    let offset: u32 = if immediate_offset {
        opcode & 0xFFF
    } else {
        let rm = (opcode & 0xF) as usize;
        let shift_type = ShiftType::from_bits(opcode >> 5);
        let amount: u32 = (opcode >> 7) & 0x1F;
        shifter::shift(shift_type, regs.r(rm), amount, false, true).value
    };

    let base = if rn == 15 {
        instr_addr.wrapping_add(8)
    } else {
        regs.r(rn)
    };
    let offset_addr = if add {
        base.wrapping_add(offset)
    } else {
        base.wrapping_sub(offset)
    };
    let effective_addr = if pre_index {
        offset_addr
    } else {
        base
    };

    if load {
        let value: u32 = if byte {
            mem.read8(effective_addr) as u32
        } else {
            load_word(mem, effective_addr)
        };
        regs.set_r(rd, value);
    } else {
        // ARM7TDMI-specific pipeline quirk: STR with Rd=r15 stores PC+12.
        let value = if rd == 15 {
            instr_addr.wrapping_add(12)
        } else {
            regs.r(rd)
        };
        if byte {
            mem.write8(effective_addr, value as u8);
        } else {
            mem.write32(effective_addr & !3u32, value);
        }
    }

    if !pre_index || writeback {
        regs.set_r(rn, offset_addr);
    }

    (
        if load {
            3
        } else {
            2
        },
        load && rd == 15,
    )
}

} // verus!
