//! ARM MRS/MSR.
use vstd::prelude::*;
use crate::cpu::arm::shifter::{self, rotr};
use crate::cpu::registers::{Mode, Registers, RegsView};

verus! {

broadcast use crate::bits::group_bits;

/// PSR flags byte (MSR field-mask bit "f").
pub const FLAGS_MASK: u32 = 0xFF00_0000;

/// PSR control byte (MSR field-mask bit "c").
pub const CONTROL_MASK: u32 = 0x0000_00FF;

/// The PSR bits an MSR may change: the flags and/or control byte its field
/// mask selects, and only the flags byte of CPSR in User mode.
pub open spec fn spec_msr_mask(regs: RegsView, opcode: u32) -> u32 {
    let field_mask = (opcode >> 16) & 0xF;
    let m1 = if field_mask & 0x8 != 0 {
        FLAGS_MASK
    } else {
        0u32
    };
    let m2 = if field_mask & 0x1 != 0 {
        m1 | CONTROL_MASK
    } else {
        m1
    };
    if (opcode >> 22) & 1 == 0 && regs.mode == Mode::User {
        m2 & FLAGS_MASK
    } else {
        m2
    }
}

pub open spec fn spec_execute(regs: RegsView, opcode: u32) -> RegsView {
    let use_spsr = (opcode >> 22) & 1 == 1;
    if (opcode >> 21) & 1 == 0 {
        regs.with_r(
            ((opcode >> 12) & 0xF) as int,
            if use_spsr {
                regs.spsr()
            } else {
                regs.cpsr
            },
        )
    } else {
        let source = if (opcode >> 25) & 1 == 1 {
            rotr(opcode & 0xFF, (((opcode >> 8) & 0xF) * 2) as u32)
        } else {
            regs.r[(opcode & 0xF) as int]
        };
        let mask = spec_msr_mask(regs, opcode);
        if use_spsr {
            regs.with_spsr((regs.spsr() & !mask) | (source & mask))
        } else {
            regs.with_cpsr((regs.cpsr & !mask) | (source & mask))
        }
    }
}

/// MRS/MSR: moves the whole CPSR/SPSR to a register, or writes selected
/// byte-fields of it from a register or rotated immediate.
pub fn execute(regs: &mut Registers, opcode: u32) -> (out: (u32, bool))
    ensures
        final(regs)@ == spec_execute(old(regs)@, opcode),
        out == (1u32, false),
{
    let use_spsr = (opcode >> 22) & 1 == 1;
    let is_msr = (opcode >> 21) & 1 == 1;

    if !is_msr {
        let rd = ((opcode >> 12) & 0xF) as usize;
        let value = if use_spsr {
            regs.spsr()
        } else {
            regs.cpsr()
        };
        regs.set_r(rd, value);
        return (1, false);
    }

    let field_mask: u32 = (opcode >> 16) & 0xF;
    let mut mask: u32 = 0;
    if field_mask & 0b1000 != 0 {
        mask = mask | FLAGS_MASK;
    }
    if field_mask & 0b0001 != 0 {
        mask = mask | CONTROL_MASK;
    }
    assert(0u32 | FLAGS_MASK == FLAGS_MASK) by (bit_vector);

    let immediate = (opcode >> 25) & 1 == 1;
    let source: u32 = if immediate {
        let imm8: u32 = opcode & 0xFF;
        let rotate: u32 = ((opcode >> 8) & 0xF) * 2;
        shifter::rotate_right(imm8, rotate)
    } else {
        let rm = (opcode & 0xF) as usize;
        regs.r(rm)
    };

    // User mode is only privileged to change the flags field, never
    // mode/I/F/T — real hardware silently drops the rest.
    if !use_spsr && regs.mode() == Mode::User {
        mask = mask & FLAGS_MASK;
    }

    if use_spsr {
        let merged = (regs.spsr() & !mask) | (source & mask);
        regs.set_spsr(merged);
    } else {
        let merged = (regs.cpsr() & !mask) | (source & mask);
        regs.set_cpsr(merged);
    }

    (1, false)
}

} // verus!
