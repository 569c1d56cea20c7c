pub mod alu_ops;
pub mod block;
pub mod branch;
pub mod hi_reg;
pub mod load_store;
pub mod stack;

use vstd::prelude::*;
use crate::cpu::arm::swi::spec_enter_supervisor;
use crate::cpu::registers::{Registers, RegsView};
use crate::cpu::CpuError;
use crate::memory::Memory;

verus! {

broadcast use crate::bits::group_bits;

/// Cycle cost of a load (3) or store (2).
pub open spec fn load_store_cycles(load: bool) -> u32 {
    if load {
        3
    } else {
        2
    }
}

/// Applies a conditional-branch outcome: PC moves to the target if taken.
pub open spec fn spec_take_branch(regs: RegsView, out: (u32, bool, Option<u32>)) -> RegsView {
    match out.2 {
        Some(t) => regs.with_r(15, t),
        None => regs,
    }
}

/// What one Thumb opcode does: `(outcome, registers, memory)` afterwards.
pub open spec fn spec_execute<M: Memory>(regs: RegsView, mem: M::V, opcode: u16, instr_addr: u32) -> (
    Result<(u32, bool), CpuError>,
    RegsView,
    M::V,
) {
    let top5 = (opcode >> 11) & 0x1F;
    let load = (opcode >> 11) & 1 == 1;
    let unimplemented = Err(CpuError::UnimplementedThumb { opcode, pc: instr_addr });
    if top5 <= 0b00010 {
        (Ok((1u32, false)), alu_ops::spec_move_shifted_register(regs, opcode), mem)
    } else if top5 == 0b00011 {
        (Ok((1u32, false)), alu_ops::spec_add_subtract(regs, opcode), mem)
    } else if top5 <= 0b00111 {
        (Ok((1u32, false)), alu_ops::spec_immediate_op(regs, opcode), mem)
    } else if top5 == 0b01000 {
        if (opcode >> 10) & 1 == 0 {
            (Ok((1u32, false)), alu_ops::spec_alu_operation(regs, opcode), mem)
        } else {
            let (r, c, p) = hi_reg::spec_execute(regs, opcode, instr_addr);
            (Ok((c, p)), r, mem)
        }
    } else if top5 == 0b01001 {
        (Ok((3u32, false)), load_store::spec_pc_relative_load::<M>(regs, mem, opcode, instr_addr), mem)
    } else if top5 <= 0b01011 {
        if (opcode >> 9) & 1 == 0 {
            let (r, m) = load_store::spec_register_offset::<M>(regs, mem, opcode);
            (Ok((load_store_cycles(load), false)), r, m)
        } else {
            let (r, m) = load_store::spec_sign_extended::<M>(regs, mem, opcode);
            let is_store = (opcode >> 11) & 1 == 0 && (opcode >> 10) & 1 == 0;
            (Ok((load_store_cycles(!is_store), false)), r, m)
        }
    } else if top5 <= 0b01111 {
        let (r, m) = load_store::spec_immediate_offset::<M>(regs, mem, opcode);
        (Ok((load_store_cycles(load), false)), r, m)
    } else if top5 <= 0b10001 {
        let (r, m) = load_store::spec_halfword::<M>(regs, mem, opcode);
        (Ok((load_store_cycles(load), false)), r, m)
    } else if top5 <= 0b10011 {
        let (r, m) = stack::spec_sp_relative::<M>(regs, mem, opcode);
        (Ok((load_store_cycles(load), false)), r, m)
    } else if top5 <= 0b10101 {
        (Ok((1u32, false)), stack::spec_load_address(regs, opcode, instr_addr), mem)
    } else if top5 == 0b10110 {
        if (opcode >> 8) & 0b111 == 0b000 {
            (Ok((1u32, false)), stack::spec_add_offset_to_sp(regs, opcode), mem)
        } else if (opcode >> 9) & 0b11 == 0b10 {
            let (r, m, c, p) = stack::spec_push_pop::<M>(regs, mem, opcode);
            (Ok((c, p)), r, m)
        } else {
            (unimplemented, regs, mem)
        }
    } else if top5 == 0b10111 {
        let (r, m, c, p) = stack::spec_push_pop::<M>(regs, mem, opcode);
        (Ok((c, p)), r, m)
    } else if top5 <= 0b11001 {
        let (r, m, c) = block::spec_execute::<M>(regs, mem, opcode);
        (Ok((c, false)), r, m)
    } else if top5 == 0b11010 || (top5 == 0b11011 && opcode & 0xFF00 != 0xDF00) {
        let out = branch::spec_conditional_branch(regs, opcode, instr_addr);
        (Ok((out.0, out.1)), spec_take_branch(regs, out), mem)
    } else if top5 == 0b11011 {
        (Ok((3u32, true)), spec_enter_supervisor(regs, instr_addr.wrapping_add(2)), mem)
    } else if top5 == 0b11100 {
        (Ok((3u32, true)), regs.with_r(15, branch::spec_unconditional_branch(opcode, instr_addr)), mem)
    } else if top5 == 0b11110 {
        (Ok((1u32, false)), branch::spec_branch_link_high(regs, opcode, instr_addr), mem)
    } else if top5 == 0b11111 {
        (Ok((3u32, true)), branch::spec_branch_link_low(regs, opcode, instr_addr), mem)
    } else {
        (unimplemented, regs, mem)
    }
}

fn conditional(regs: &mut Registers, opcode: u16, instr_addr: u32) -> (out: (u32, bool))
    ensures
        ({
            let o = branch::spec_conditional_branch(old(regs)@, opcode, instr_addr);
            out == (o.0, o.1) && final(regs)@ == spec_take_branch(old(regs)@, o)
        }),
{
    let (cycles, pc_written, target) = branch::conditional_branch(regs, opcode, instr_addr);
    if let Some(target) = target {
        regs.set_pc(target);
    }
    (cycles, pc_written)
}

/// Decodes and executes one Thumb opcode, organized by the 5-bit top field
/// (opcode bits 15-11); the formats sharing a top field are told apart by
/// one extra bit check each. Returns `(cycles, pc_written)`.
pub fn execute<M: Memory>(regs: &mut Registers, mem: &mut M, opcode: u16, instr_addr: u32) -> (out:
    Result<(u32, bool), CpuError>)
    requires
        M::inv(old(mem)@),
    ensures
        M::inv(final(mem)@),
        (out, final(regs)@, final(mem)@) == spec_execute::<M>(old(regs)@, old(mem)@, opcode, instr_addr),
{
    let top5: u16 = (opcode >> 11) & 0x1F;
    let load = (opcode >> 11) & 1 == 1;
    if top5 <= 0b00010 {
        // Format 1: Move shifted register (op bits12-11 in {00,01,10}).
        assert(((opcode >> 11) & 0x1F) <= 2 ==> (opcode >> 11) & 0b11 != 0b11) by (bit_vector);
        alu_ops::move_shifted_register(regs, opcode);
        Ok((1, false))
    } else if top5 == 0b00011 {
        // Format 2: Add/subtract.
        alu_ops::add_subtract(regs, opcode);
        Ok((1, false))
    } else if top5 <= 0b00111 {
        // Format 3: Move/compare/add/subtract immediate.
        alu_ops::immediate_op(regs, opcode);
        Ok((1, false))
    } else if top5 == 0b01000 {
        // Format 4 (bit10=0): ALU operations. Format 5 (bit10=1): hi-register ops/BX.
        if (opcode >> 10) & 1 == 0 {
            alu_ops::alu_operation(regs, opcode);
            Ok((1, false))
        } else {
            Ok(hi_reg::execute(regs, opcode, instr_addr))
        }
    } else if top5 == 0b01001 {
        // Format 6: PC-relative load.
        load_store::pc_relative_load(regs, mem, opcode, instr_addr);
        Ok((3, false))
    } else if top5 <= 0b01011 {
        // Format 7 (bit9=0): register offset. Format 8 (bit9=1): sign-extended.
        if (opcode >> 9) & 1 == 0 {
            load_store::register_offset(regs, mem, opcode);
            Ok(
                (
                    if load {
                        3
                    } else {
                        2
                    },
                    false,
                ),
            )
        } else {
            load_store::sign_extended(regs, mem, opcode);
            let is_store = (opcode >> 11) & 1 == 0 && (opcode >> 10) & 1 == 0;  // S=0,H=0 -> STRH
            Ok(
                (
                    if is_store {
                        2
                    } else {
                        3
                    },
                    false,
                ),
            )
        }
    } else if top5 <= 0b01111 {
        // Format 9: Load/store with immediate offset.
        load_store::immediate_offset(regs, mem, opcode);
        Ok(
            (
                if load {
                    3
                } else {
                    2
                },
                false,
            ),
        )
    } else if top5 <= 0b10001 {
        // Format 10: Load/store halfword.
        load_store::halfword(regs, mem, opcode);
        Ok(
            (
                if load {
                    3
                } else {
                    2
                },
                false,
            ),
        )
    } else if top5 <= 0b10011 {
        // Format 11: SP-relative load/store.
        stack::sp_relative(regs, mem, opcode);
        Ok(
            (
                if load {
                    3
                } else {
                    2
                },
                false,
            ),
        )
    } else if top5 <= 0b10101 {
        // Format 12: Load address (from PC or SP).
        stack::load_address(regs, opcode, instr_addr);
        Ok((1, false))
    } else if top5 == 0b10110 {
        // Format 13 (bits10-8==000): add offset to SP; Format 14 PUSH.
        if (opcode >> 8) & 0b111 == 0b000 {
            stack::add_offset_to_sp(regs, opcode);
            Ok((1, false))
        } else if (opcode >> 9) & 0b11 == 0b10 {
            Ok(stack::push_pop(regs, mem, opcode))
        } else {
            Err(CpuError::UnimplementedThumb { opcode, pc: instr_addr })
        }
    } else if top5 == 0b10111 {
        // Format 14 POP (L=1).
        Ok(stack::push_pop(regs, mem, opcode))
    } else if top5 <= 0b11001 {
        // Format 15: Multiple load/store.
        let cycles = block::execute(regs, mem, opcode);
        Ok((cycles, false))
    } else if top5 == 0b11010 {
        // Format 16: Conditional branch.
        Ok(conditional(regs, opcode, instr_addr))
    } else if top5 == 0b11011 {
        // Format 16 continued, or Format 17 (SWI) when bits15-8 == 0xDF.
        if opcode & 0xFF00 == 0xDF00 {
            Ok(branch::software_interrupt(regs, instr_addr))
        } else {
            Ok(conditional(regs, opcode, instr_addr))
        }
    } else if top5 == 0b11100 {
        // Format 18: Unconditional branch.
        let target = branch::unconditional_branch(opcode, instr_addr);
        regs.set_pc(target);
        Ok((3, true))
    } else if top5 == 0b11110 {
        // Format 19, first half (H=0): stashes a partial target in LR.
        branch::branch_link_high(regs, opcode, instr_addr);
        Ok((1, false))
    } else if top5 == 0b11111 {
        // Format 19, second half (H=1): completes the jump.
        branch::branch_link_low(regs, opcode, instr_addr);
        Ok((3, true))
    } else {
        Err(CpuError::UnimplementedThumb { opcode, pc: instr_addr })
    }
}

} // verus!
