//! ARM BX.
use vstd::prelude::*;
use crate::cpu::psr;
use crate::cpu::registers::{Registers, RegsView};

verus! {

broadcast use crate::bits::group_bits;

pub open spec fn spec_execute(regs: RegsView, opcode: u32, instr_addr: u32) -> RegsView {
    let rm = (opcode & 0xF) as int;
    let target = if rm == 15 {
        instr_addr.wrapping_add(8)
    } else {
        regs.r[rm]
    };
    let thumb = target & 1 == 1;
    regs.with_flag(psr::T, thumb).with_r(
        15,
        target & if thumb {
            !1u32
        } else {
            !3u32
        },
    )
}

/// BX: jumps to `Rm & !1`, switching to Thumb state if `Rm`'s bit 0 is set.
/// This is the only way the CPU ever enters Thumb state.
pub fn execute(regs: &mut Registers, opcode: u32, instr_addr: u32) -> (out: (u32, bool))
    ensures
        final(regs)@ == spec_execute(old(regs)@, opcode, instr_addr),
        out == (3u32, true),
{
    let rm = (opcode & 0xF) as usize;
    let target = if rm == 15 {
        instr_addr.wrapping_add(8)
    } else {
        regs.r(rm)
    };

    let thumb = target & 1 == 1;
    regs.set_flag(psr::T, thumb);
    regs.set_pc(
        target & if thumb {
            !1u32
        } else {
            !3u32
        },
    );

    (3, true)
}

} // verus!
