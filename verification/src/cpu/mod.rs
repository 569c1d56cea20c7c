pub mod arm;
pub mod psr;
pub mod registers;
pub mod thumb;

use vstd::prelude::*;
use crate::memory::Memory;

pub use registers::{Mode, Registers, RegsView};

verus! {

pub const IRQ_VECTOR: u32 = 0x0000_0018;

/// An instruction the CPU decoded correctly but doesn't execute.
#[allow(inconsistent_fields)]
#[derive(Debug, Clone, Copy, PartialEq, Eq, Structural)]
pub enum CpuError {
    UnimplementedArm { opcode: u32, pc: u32 },
    UnimplementedThumb { opcode: u16, pc: u32 },
}

/// One fetch/decode/execute step: `(outcome, registers, memory)`. PC moves
/// to the next instruction unless the instruction itself wrote it.
pub closed spec fn spec_step<M: Memory>(regs: RegsView, mem: M::V) -> (Result<u32, CpuError>, RegsView, M::V) {
    if regs.flag(psr::T) {
        let pc = regs.r[15] & !1u32;
        let (out, r, m) = thumb::spec_execute::<M>(regs, mem, M::spec_read16(mem, pc), pc);
        match out {
            Ok((cycles, pc_written)) => (
                Ok(cycles),
                if pc_written {
                    r
                } else {
                    r.with_r(15, pc.wrapping_add(2))
                },
                m,
            ),
            Err(e) => (Err(e), r, m),
        }
    } else {
        let pc = regs.r[15] & !3u32;
        let (out, r, m) = arm::spec_execute::<M>(regs, mem, M::spec_read32(mem, pc), pc);
        match out {
            Ok((cycles, pc_written)) => (
                Ok(cycles),
                if pc_written {
                    r
                } else {
                    r.with_r(15, pc.wrapping_add(4))
                },
                m,
            ),
            Err(e) => (Err(e), r, m),
        }
    }
}

/// In ARM state a step fetches the word at the word-aligned PC, runs it,
/// and moves PC to the next word unless the instruction wrote it; an
/// unimplemented opcode leaves registers and memory as they were.
pub proof fn lemma_step_arm<M: Memory>(regs: RegsView, mem: M::V)
    requires
        !regs.flag(psr::T),
    ensures
        ({
            let pc = regs.r[15] & !3u32;
            let (out, r, m) = arm::spec_execute::<M>(regs, mem, M::spec_read32(mem, pc), pc);
            spec_step::<M>(regs, mem) == match out {
                Ok((cycles, pc_written)) => (
                    Ok(cycles),
                    if pc_written {
                        r
                    } else {
                        r.with_r(15, pc.wrapping_add(4))
                    },
                    m,
                ),
                Err(e) => (Err(e), r, m),
            }
        }),
{
}

/// In Thumb state a step fetches the halfword at the halfword-aligned PC,
/// runs it, and moves PC to the next halfword unless the instruction wrote
/// it.
pub proof fn lemma_step_thumb<M: Memory>(regs: RegsView, mem: M::V)
    requires
        regs.flag(psr::T),
    ensures
        ({
            let pc = regs.r[15] & !1u32;
            let (out, r, m) = thumb::spec_execute::<M>(regs, mem, M::spec_read16(mem, pc), pc);
            spec_step::<M>(regs, mem) == match out {
                Ok((cycles, pc_written)) => (
                    Ok(cycles),
                    if pc_written {
                        r
                    } else {
                        r.with_r(15, pc.wrapping_add(2))
                    },
                    m,
                ),
                Err(e) => (Err(e), r, m),
            }
        }),
{
}

/// Every instruction takes between 1 and 64 cycles.
pub proof fn lemma_step_cycles_bounded<M: Memory>(regs: RegsView, mem: M::V)
    ensures
        spec_step::<M>(regs, mem).0 matches Ok(c) ==> 1 <= c <= 64,
{
    assert forall|l: u32, n: int| 0 <= n <= 32 implies 0 <= #[trigger] arm::block_transfer::count_bits(
        l,
        n,
    ) <= n by {
        arm::block_transfer::lemma_count_bits_bounds(l, n);
    }
}

/// IRQ exception entry: CPSR saved to SPSR_irq, LR_irq = PC + 4, IRQ mode
/// with IRQs disabled and ARM state, PC at the IRQ vector.
pub open spec fn spec_enter_irq(regs: RegsView) -> RegsView {
    regs.with_mode(Mode::Irq).with_spsr(regs.cpsr).with_r(14, regs.r[15].wrapping_add(4)).with_flag(
        psr::I,
        true,
    ).with_flag(psr::T, false).with_r(15, IRQ_VECTOR)
}

/// The ARM7TDMI core: register file plus the fetch/decode/execute step.
/// Talks to memory only through the [`Memory`] trait.
#[derive(Debug)]
pub struct Cpu {
    pub registers: Registers,
}

impl Cpu {
    pub fn new() -> (cpu: Self)
        ensures
            cpu.registers@ == Registers::reset_view(),
    {
        Cpu { registers: Registers::reset() }
    }

    /// Fetches and executes one instruction, advancing PC unless the
    /// instruction itself already redirected it (a branch, or any
    /// instruction that writes r15 as its destination).
    pub fn step<M: Memory>(&mut self, mem: &mut M) -> (out: Result<u32, CpuError>)
        requires
            M::inv(old(mem)@),
        ensures
            M::inv(final(mem)@),
            (out, final(self).registers@, final(mem)@) == spec_step::<M>(old(self).registers@, old(mem)@),
    {
        if self.registers.in_thumb_state() {
            let pc = self.registers.pc() & !1u32;
            let opcode = mem.read16(pc);
            let (cycles, pc_written) = thumb::execute(&mut self.registers, mem, opcode, pc)?;
            if !pc_written {
                self.registers.set_pc(pc.wrapping_add(2));
            }
            Ok(cycles)
        } else {
            let pc = self.registers.pc() & !3u32;
            let opcode = mem.read32(pc);
            let (cycles, pc_written) = arm::execute(&mut self.registers, mem, opcode, pc)?;
            if !pc_written {
                self.registers.set_pc(pc.wrapping_add(4));
            }
            Ok(cycles)
        }
    }

    /// Takes a pending IRQ instead of executing the next instruction: saves
    /// CPSR to SPSR_irq, sets LR_irq to PC + 4 (the same offset from ARM
    /// and Thumb state), switches to IRQ mode with IRQs disabled and ARM
    /// state forced, and jumps to the IRQ vector. Callers check the I flag
    /// first — this always takes the exception.
    pub fn enter_irq(&mut self)
        ensures
            final(self).registers@ == spec_enter_irq(old(self).registers@),
    {
        let return_addr = self.registers.pc().wrapping_add(4);
        let old_cpsr = self.registers.cpsr();

        self.registers.set_mode(Mode::Irq);
        self.registers.set_spsr(old_cpsr);
        self.registers.set_r(14, return_addr);
        self.registers.set_flag(psr::I, true);
        self.registers.set_flag(psr::T, false);
        self.registers.set_pc(IRQ_VECTOR);
    }
}

} // verus!
