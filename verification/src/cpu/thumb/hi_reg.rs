//! Thumb Format 5: hi-register ADD/CMP/MOV and BX.
use vstd::prelude::*;
use crate::cpu::arm::alu::{self, spec_sub_with_carry};
use crate::cpu::arm::data_processing::spec_set_nzcv;
use crate::cpu::psr;
use crate::cpu::registers::{Registers, RegsView};

verus! {

broadcast use crate::bits::group_bits;

/// A register as Thumb code reads it: r15 reads as instruction address + 4.
pub open spec fn spec_thumb_read(regs: RegsView, reg: int, instr_addr: u32) -> u32 {
    if reg == 15 {
        instr_addr.wrapping_add(4)
    } else {
        regs.r[reg]
    }
}

pub open spec fn spec_execute(regs: RegsView, opcode: u16, instr_addr: u32) -> (RegsView, u32, bool) {
    let op = (opcode >> 8) & 0b11;
    let rs = ((opcode >> 3) & 0x7) as int + if (opcode >> 6) & 1 == 1 {
        8int
    } else {
        0int
    };
    let rd = (opcode & 0x7) as int + if (opcode >> 7) & 1 == 1 {
        8int
    } else {
        0int
    };
    let rs_value = spec_thumb_read(regs, rs, instr_addr);
    let rd_value = spec_thumb_read(regs, rd, instr_addr);
    if op == 0 {
        (
            regs.with_r(rd, rd_value.wrapping_add(rs_value)),
            if rd == 15 {
                3
            } else {
                1
            },
            rd == 15,
        )
    } else if op == 1 {
        let r = spec_sub_with_carry(rd_value, rs_value, true);
        (spec_set_nzcv(regs, r.value, r.carry, r.overflow), 1, false)
    } else if op == 2 {
        (
            regs.with_r(rd, rs_value),
            if rd == 15 {
                3
            } else {
                1
            },
            rd == 15,
        )
    } else {
        let thumb = rs_value & 1 == 1;
        (
            regs.with_flag(psr::T, thumb).with_r(
                15,
                rs_value & if thumb {
                    !1u32
                } else {
                    !3u32
                },
            ),
            3,
            true,
        )
    }
}

/// Format 5 — Hi register operations / branch exchange: `ADD/CMP/MOV`
/// between any of r0-r15 and `BX`. ADD and MOV leave the flags alone.
/// Returns `(cycles, pc_written)`.
pub fn execute(regs: &mut Registers, opcode: u16, instr_addr: u32) -> (out: (u32, bool))
    ensures
        (final(regs)@, out.0, out.1) == spec_execute(old(regs)@, opcode, instr_addr),
{
    let op: u16 = (opcode >> 8) & 0b11;
    let h1 = (opcode >> 7) & 1 == 1;
    let h2 = (opcode >> 6) & 1 == 1;
    let rs = ((opcode >> 3) & 0x7) as usize + if h2 {
        8
    } else {
        0
    };
    let rd = (opcode & 0x7) as usize + if h1 {
        8
    } else {
        0
    };

    let rs_value = if rs == 15 {
        instr_addr.wrapping_add(4)
    } else {
        regs.r(rs)
    };

    if op == 0b00 {
        let rd_value = if rd == 15 {
            instr_addr.wrapping_add(4)
        } else {
            regs.r(rd)
        };
        let result = rd_value.wrapping_add(rs_value);
        regs.set_r(rd, result);
        (
            if rd == 15 {
                3
            } else {
                1
            },
            rd == 15,
        )
    } else if op == 0b01 {
        let rd_value = if rd == 15 {
            instr_addr.wrapping_add(4)
        } else {
            regs.r(rd)
        };
        let r = alu::sub_with_carry(rd_value, rs_value, true);
        regs.set_flag(psr::Z, r.value == 0);
        regs.set_flag(psr::N, (r.value >> 31) & 1 == 1);
        regs.set_flag(psr::C, r.carry);
        regs.set_flag(psr::V, r.overflow);
        (1, false)
    } else if op == 0b10 {
        regs.set_r(rd, rs_value);
        (
            if rd == 15 {
                3
            } else {
                1
            },
            rd == 15,
        )
    } else {
        let thumb = rs_value & 1 == 1;
        regs.set_flag(psr::T, thumb);
        regs.set_pc(
            rs_value & if thumb {
                !1u32
            } else {
                !3u32
            },
        );
        (3, true)
    }
}

} // verus!
