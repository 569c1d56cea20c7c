//! Thumb Formats 6-10: loads and stores.
use vstd::prelude::*;
use crate::cpu::arm::halfword_transfer::{
    load_half,
    load_signed_half,
    sign_extend_8,
    sign_extend_byte,
    spec_load_half,
    spec_load_signed_half,
};
use crate::cpu::arm::single_transfer::{load_word, spec_load_word};
use crate::cpu::registers::{Registers, RegsView};
use crate::memory::Memory;

verus! {

broadcast use crate::bits::group_bits;

pub open spec fn spec_pc_relative_load<M: Memory>(regs: RegsView, mem: M::V, opcode: u16, instr_addr: u32) -> RegsView {
    let base = instr_addr.wrapping_add(4) & !3u32;
    regs.with_r(
        ((opcode >> 8) & 0x7) as int,
        M::spec_read32(mem, base.wrapping_add((((opcode & 0xFF) as u32) * 4) as u32)),
    )
}

/// Format 6 — PC-relative load: `LDR Rd, [PC, #Imm8*4]`, PC read as
/// instr_addr+4 with bits 0-1 cleared.
pub fn pc_relative_load<M: Memory>(regs: &mut Registers, mem: &mut M, opcode: u16, instr_addr: u32)
    requires
        M::inv(old(mem)@),
    ensures
        M::inv(final(mem)@),
        final(regs)@ == spec_pc_relative_load::<M>(old(regs)@, old(mem)@, opcode, instr_addr),
        final(mem)@ == old(mem)@,
{
    let rd = ((opcode >> 8) & 0x7) as usize;
    let word8 = (opcode & 0xFF) as u32;
    let base = (instr_addr.wrapping_add(4)) & !3u32;
    let value = mem.read32(base.wrapping_add(word8 * 4));
    regs.set_r(rd, value);
}

/// A load (LDR/LDRB) or store (STR/STRB) of Rd at `addr`.
pub open spec fn spec_word_or_byte<M: Memory>(regs: RegsView, mem: M::V, load: bool, byte: bool, rd: int, addr: u32) -> (
    RegsView,
    M::V,
) {
    if load {
        (
            regs.with_r(
                rd,
                if byte {
                    M::spec_read8(mem, addr) as u32
                } else {
                    spec_load_word::<M>(mem, addr)
                },
            ),
            mem,
        )
    } else if byte {
        (regs, M::spec_write8(mem, addr, regs.r[rd] as u8))
    } else {
        (regs, M::spec_write32(mem, addr & !3u32, regs.r[rd]))
    }
}

fn word_or_byte<M: Memory>(regs: &mut Registers, mem: &mut M, load: bool, byte: bool, rd: usize, addr: u32)
    requires
        M::inv(old(mem)@),
        rd < 16,
    ensures
        M::inv(final(mem)@),
        (final(regs)@, final(mem)@) == spec_word_or_byte::<M>(
            old(regs)@,
            old(mem)@,
            load,
            byte,
            rd as int,
            addr,
        ),
{
    if load {
        let value: u32 = if byte {
            mem.read8(addr) as u32
        } else {
            load_word(mem, addr)
        };
        regs.set_r(rd, value);
    } else if byte {
        mem.write8(addr, regs.r(rd) as u8);
    } else {
        mem.write32(addr & !3u32, regs.r(rd));
    }
}

pub open spec fn spec_register_offset<M: Memory>(regs: RegsView, mem: M::V, opcode: u16) -> (RegsView, M::V) {
    let addr = regs.r[((opcode >> 3) & 0x7) as int].wrapping_add(regs.r[((opcode >> 6) & 0x7) as int]);
    spec_word_or_byte::<M>(
        regs,
        mem,
        (opcode >> 11) & 1 == 1,
        (opcode >> 10) & 1 == 1,
        (opcode & 0x7) as int,
        addr,
    )
}

/// Format 7 — Load/store with register offset: `STR/STRB/LDR/LDRB Rd, [Rb, Ro]`.
pub fn register_offset<M: Memory>(regs: &mut Registers, mem: &mut M, opcode: u16)
    requires
        M::inv(old(mem)@),
    ensures
        M::inv(final(mem)@),
        (final(regs)@, final(mem)@) == spec_register_offset::<M>(old(regs)@, old(mem)@, opcode),
{
    let load = (opcode >> 11) & 1 == 1;
    let byte = (opcode >> 10) & 1 == 1;
    let ro = ((opcode >> 6) & 0x7) as usize;
    let rb = ((opcode >> 3) & 0x7) as usize;
    let rd = (opcode & 0x7) as usize;
    let addr = regs.r(rb).wrapping_add(regs.r(ro));
    word_or_byte(regs, mem, load, byte, rd, addr);
}

pub open spec fn spec_sign_extended<M: Memory>(regs: RegsView, mem: M::V, opcode: u16) -> (RegsView, M::V) {
    let h = (opcode >> 11) & 1 == 1;
    let s = (opcode >> 10) & 1 == 1;
    let rd = (opcode & 0x7) as int;
    let addr = regs.r[((opcode >> 3) & 0x7) as int].wrapping_add(regs.r[((opcode >> 6) & 0x7) as int]);
    if !s && !h {
        (regs, M::spec_write16(mem, addr & !1u32, regs.r[rd] as u16))
    } else if !s && h {
        (regs.with_r(rd, spec_load_half::<M>(mem, addr)), mem)
    } else if s && !h {
        (regs.with_r(rd, sign_extend_8(M::spec_read8(mem, addr))), mem)
    } else {
        (regs.with_r(rd, spec_load_signed_half::<M>(mem, addr)), mem)
    }
}

/// Format 8 — Load/store sign-extended byte/halfword:
/// `STRH/LDRH/LDSB/LDSH Rd, [Rb, Ro]`, with the same GBA misalignment
/// quirks as the ARM halfword-transfer group.
pub fn sign_extended<M: Memory>(regs: &mut Registers, mem: &mut M, opcode: u16)
    requires
        M::inv(old(mem)@),
    ensures
        M::inv(final(mem)@),
        (final(regs)@, final(mem)@) == spec_sign_extended::<M>(old(regs)@, old(mem)@, opcode),
{
    let h = (opcode >> 11) & 1 == 1;
    let s = (opcode >> 10) & 1 == 1;
    let ro = ((opcode >> 6) & 0x7) as usize;
    let rb = ((opcode >> 3) & 0x7) as usize;
    let rd = (opcode & 0x7) as usize;
    let addr = regs.r(rb).wrapping_add(regs.r(ro));

    if !s && !h {
        mem.write16(addr & !1u32, regs.r(rd) as u16);  // STRH
        return ;
    }
    let value: u32 = if !s && h {
        load_half(mem, addr)  // LDRH
    } else if s && !h {
        sign_extend_byte(mem.read8(addr))  // LDSB
    } else {
        load_signed_half(mem, addr)  // LDSH
    };
    regs.set_r(rd, value);
}

pub open spec fn spec_immediate_offset<M: Memory>(regs: RegsView, mem: M::V, opcode: u16) -> (RegsView, M::V) {
    let byte = (opcode >> 12) & 1 == 1;
    let offset5 = ((opcode >> 6) & 0x1F) as u32;
    let offset = if byte {
        offset5
    } else {
        (offset5 * 4) as u32
    };
    let addr = regs.r[((opcode >> 3) & 0x7) as int].wrapping_add(offset);
    spec_word_or_byte::<M>(regs, mem, (opcode >> 11) & 1 == 1, byte, (opcode & 0x7) as int, addr)
}

/// Format 9 — Load/store with immediate offset: the offset is scaled by 4
/// for word transfers, used directly for byte transfers.
pub fn immediate_offset<M: Memory>(regs: &mut Registers, mem: &mut M, opcode: u16)
    requires
        M::inv(old(mem)@),
    ensures
        M::inv(final(mem)@),
        (final(regs)@, final(mem)@) == spec_immediate_offset::<M>(old(regs)@, old(mem)@, opcode),
{
    let byte = (opcode >> 12) & 1 == 1;
    let load = (opcode >> 11) & 1 == 1;
    let offset5 = ((opcode >> 6) & 0x1F) as u32;
    let rb = ((opcode >> 3) & 0x7) as usize;
    let rd = (opcode & 0x7) as usize;
    let offset = if byte {
        offset5
    } else {
        offset5 * 4
    };
    let addr = regs.r(rb).wrapping_add(offset);
    word_or_byte(regs, mem, load, byte, rd, addr);
}

pub open spec fn spec_halfword<M: Memory>(regs: RegsView, mem: M::V, opcode: u16) -> (RegsView, M::V) {
    let rd = (opcode & 0x7) as int;
    let addr = regs.r[((opcode >> 3) & 0x7) as int].wrapping_add((((opcode >> 6) & 0x1F) as u32 * 2) as u32);
    if (opcode >> 11) & 1 == 1 {
        (regs.with_r(rd, spec_load_half::<M>(mem, addr)), mem)
    } else {
        (regs, M::spec_write16(mem, addr & !1u32, regs.r[rd] as u16))
    }
}

/// Format 10 — Load/store halfword: `STRH/LDRH Rd, [Rb, #Offset5*2]`.
pub fn halfword<M: Memory>(regs: &mut Registers, mem: &mut M, opcode: u16)
    requires
        M::inv(old(mem)@),
    ensures
        M::inv(final(mem)@),
        (final(regs)@, final(mem)@) == spec_halfword::<M>(old(regs)@, old(mem)@, opcode),
{
    let load = (opcode >> 11) & 1 == 1;
    let offset5 = ((opcode >> 6) & 0x1F) as u32;
    let rb = ((opcode >> 3) & 0x7) as usize;
    let rd = (opcode & 0x7) as usize;
    let addr = regs.r(rb).wrapping_add(offset5 * 2);

    if load {
        let value = load_half(mem, addr);
        regs.set_r(rd, value);
    } else {
        mem.write16(addr & !1u32, regs.r(rd) as u16);
    }
}

} // verus!
