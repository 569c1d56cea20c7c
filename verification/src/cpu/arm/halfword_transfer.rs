//! ARM LDRH/STRH/LDRSB/LDRSH.
use vstd::prelude::*;
use crate::cpu::registers::{Registers, RegsView};
use crate::memory::Memory;

verus! {

broadcast use crate::bits::group_bits;

/// A byte sign-extended to 32 bits.
pub open spec fn sign_extend_8(b: u8) -> u32 {
    if b >= 0x80 {
        b as u32 | 0xFFFF_FF00
    } else {
        b as u32
    }
}

/// A halfword sign-extended to 32 bits.
pub open spec fn sign_extend_16(h: u16) -> u32 {
    if h >= 0x8000 {
        h as u32 | 0xFFFF_0000
    } else {
        h as u32
    }
}

/// A halfword with its two bytes swapped (rotated right by 8).
pub open spec fn swap_bytes(h: u16) -> u16 {
    ((h >> 8) | (h << 8)) as u16
}

pub fn sign_extend_byte(b: u8) -> (r: u32)
    ensures
        r == sign_extend_8(b),
{
    if b >= 0x80 {
        b as u32 | 0xFFFF_FF00
    } else {
        b as u32
    }
}

pub fn sign_extend_half(h: u16) -> (r: u32)
    ensures
        r == sign_extend_16(h),
{
    if h >= 0x8000 {
        h as u32 | 0xFFFF_0000
    } else {
        h as u32
    }
}

pub fn rotate_half(h: u16) -> (r: u16)
    ensures
        r == swap_bytes(h),
{
    ((h >> 8) | (h << 8)) as u16
}

/// An unsigned halfword load: a misaligned one reads the aligned halfword
/// with its bytes swapped.
pub open spec fn spec_load_half<M: Memory>(mem: M::V, addr: u32) -> u32 {
    if addr & 1 == 1 {
        swap_bytes(M::spec_read16(mem, addr & !1u32)) as u32
    } else {
        M::spec_read16(mem, addr) as u32
    }
}

/// A signed halfword load: a misaligned one degrades to a signed byte read.
pub open spec fn spec_load_signed_half<M: Memory>(mem: M::V, addr: u32) -> u32 {
    if addr & 1 == 1 {
        sign_extend_8(M::spec_read8(mem, addr))
    } else {
        sign_extend_16(M::spec_read16(mem, addr))
    }
}

pub fn load_half<M: Memory>(mem: &M, addr: u32) -> (v: u32)
    requires
        M::inv(mem@),
    ensures
        v == spec_load_half::<M>(mem@, addr),
{
    if addr & 1 == 1 {
        rotate_half(mem.read16(addr & !1u32)) as u32
    } else {
        mem.read16(addr) as u32
    }
}

pub fn load_signed_half<M: Memory>(mem: &M, addr: u32) -> (v: u32)
    requires
        M::inv(mem@),
    ensures
        v == spec_load_signed_half::<M>(mem@, addr),
{
    if addr & 1 == 1 {
        sign_extend_byte(mem.read8(addr))
    } else {
        sign_extend_half(mem.read16(addr))
    }
}

pub open spec fn spec_execute<M: Memory>(regs: RegsView, mem: M::V, opcode: u32, instr_addr: u32) -> (
    RegsView,
    M::V,
    u32,
    bool,
) {
    let pre_index = (opcode >> 24) & 1 == 1;
    let add = (opcode >> 23) & 1 == 1;
    let writeback = (opcode >> 21) & 1 == 1;
    let load = (opcode >> 20) & 1 == 1;
    let rn = ((opcode >> 16) & 0xF) as int;
    let rd = ((opcode >> 12) & 0xF) as int;
    let signed = (opcode >> 6) & 1 == 1;
    let half = (opcode >> 5) & 1 == 1;
    let offset = if (opcode >> 22) & 1 == 1 {
        (((opcode >> 8) & 0xF) << 4) | (opcode & 0xF)
    } else {
        regs.r[(opcode & 0xF) as int]
    };
    let base = if rn == 15 {
        instr_addr.wrapping_add(8)
    } else {
        regs.r[rn]
    };
    let offset_addr = if add {
        base.wrapping_add(offset)
    } else {
        base.wrapping_sub(offset)
    };
    let ea = if pre_index {
        offset_addr
    } else {
        base
    };
    let (r1, m1) = if load {
        let value = if !signed && half {
            spec_load_half::<M>(mem, ea)
        } else if signed && !half {
            sign_extend_8(M::spec_read8(mem, ea))
        } else {
            spec_load_signed_half::<M>(mem, ea)
        };
        (regs.with_r(rd, value), mem)
    } else {
        (regs, M::spec_write16(mem, ea & !1u32, regs.r[rd] as u16))
    };
    let r2 = if !pre_index || writeback {
        r1.with_r(rn, offset_addr)
    } else {
        r1
    };
    (
        r2,
        m1,
        if load {
            3
        } else {
            2
        },
        load && rd == 15,
    )
}

/// LDRH/STRH/LDRSB/LDRSH, with the GBA's misalignment quirks: an unaligned
/// `LDRH` swaps the aligned halfword's bytes, an unaligned `LDRSH` reads a
/// signed byte instead. The S=0,H=0 encoding belongs to Multiply/Swap and
/// never reaches here through the decoder; it is executed like LDRSH.
pub fn execute<M: Memory>(regs: &mut Registers, mem: &mut M, opcode: u32, instr_addr: u32) -> (out: (
    u32,
    bool,
))
    requires
        M::inv(old(mem)@),
    ensures
        M::inv(final(mem)@),
        (final(regs)@, final(mem)@, out.0, out.1) == spec_execute::<M>(
            old(regs)@,
            old(mem)@,
            opcode,
            instr_addr,
        ),
{
    let pre_index = (opcode >> 24) & 1 == 1;
    let add = (opcode >> 23) & 1 == 1;
    let immediate_offset = (opcode >> 22) & 1 == 1;
    let writeback = (opcode >> 21) & 1 == 1;
    let load = (opcode >> 20) & 1 == 1;
    let rn = ((opcode >> 16) & 0xF) as usize;
    let rd = ((opcode >> 12) & 0xF) as usize;
    let signed = (opcode >> 6) & 1 == 1;
    let half = (opcode >> 5) & 1 == 1;

    let offset: u32 = if immediate_offset {
        (((opcode >> 8) & 0xF) << 4) | (opcode & 0xF)
    } else {
        let rm = (opcode & 0xF) as usize;
        regs.r(rm)
    };

    let base = if rn == 15 {
        instr_addr.wrapping_add(8)
    } else {
        regs.r(rn)
    };
    let offset_addr = if add {
        base.wrapping_add(offset)
    } else {
        base.wrapping_sub(offset)
    };
    let effective_addr = if pre_index {
        offset_addr
    } else {
        base
    };

    if load {
        let value: u32 = if !signed && half {
            load_half(mem, effective_addr)
        } else if signed && !half {
            sign_extend_byte(mem.read8(effective_addr))
        } else {
            load_signed_half(mem, effective_addr)
        };
        regs.set_r(rd, value);
    } else {
        let value = regs.r(rd) as u16;
        mem.write16(effective_addr & !1u32, value);
    }

    if !pre_index || writeback {
        regs.set_r(rn, offset_addr);
    }

    (
        if load {
            3
        } else {
            2
        },
        load && rd == 15,
    )
}

} // verus!
