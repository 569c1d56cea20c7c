//! Ties the CPU to the bus and turns per-instruction cycle counts into the
//! clock every other component is stepped by: the PPU, timers and APU all
//! advance by the cycles each instruction took, and interrupts are
//! sampled at instruction boundaries.
use vstd::prelude::*;
use crate::bios;
use crate::bios::{SwiOutcome, spec_finish_interrupt, spec_service_interrupt, spec_try_handle_swi};
use crate::cartridge::Cartridge;
use crate::cpu::{Cpu, CpuError, Mode, RegsView, lemma_step_cycles_bounded, spec_enter_irq, spec_step};
use crate::cpu::psr;
use crate::cpu::registers::Registers;
use crate::interrupts::InterruptSource;
use crate::joypad::Button;
use crate::memory::Bus;
use crate::memory::bus::{BusView, spec_trigger_upto};
use crate::ppu::no_events;
use crate::timer::spec_tick_channels;

verus! {

broadcast use crate::timer::lemma_overflowed_len;

/// Where the cartridge's entry branch lives.
pub const CARTRIDGE_ENTRY: u32 = 0x0800_0000;

/// The GBA's fixed CPU clock: 2^24 Hz.
pub const CPU_CLOCK_HZ: u32 = 16_777_216;

/// Cycles per scanline (240 visible dots + 68 H-blank dots, 4 cycles each).
pub const CYCLES_PER_SCANLINE: u32 = 1232;

/// Scanlines per frame (160 visible + 68 V-blank).
pub const SCANLINES_PER_FRAME: u32 = 228;

/// Cycles per video frame.
pub const CYCLES_PER_FRAME: u32 = CYCLES_PER_SCANLINE * SCANLINES_PER_FRAME;

/// Cycles a halted CPU idles per step.
pub const HALT_STEP_CYCLES: u32 = 8;

/// The emulator's whole state.
pub struct EmuView {
    pub regs: RegsView,
    pub bus: BusView,
    pub cycles: u64,
    pub halt_mask: Option<u16>,
    pub hle_bios: bool,
}

/// The register state a BIOS leaves behind before jumping to the
/// cartridge: IRQ, Supervisor and System stacks set up, System mode, IRQs
/// unmasked at the CPU, ARM state, PC at the cartridge entry.
pub open spec fn spec_boot(r: RegsView) -> RegsView {
    r.with_mode(Mode::Irq).with_r(13, 0x0300_7FA0).with_mode(Mode::Supervisor).with_r(
        13,
        0x0300_7FE0,
    ).with_mode(Mode::System).with_r(13, 0x0300_7F00).with_flag(psr::I, false).with_flag(
        psr::T,
        false,
    ).with_r(15, CARTRIDGE_ENTRY)
}

pub open spec fn request(b: BusView, bit: u16) -> BusView {
    BusView { interrupts: b.interrupts.spec_request(bit), ..b }
}

/// Timer overflow interrupts requested for the timers flagged in `ov`.
pub open spec fn request_timers(b: BusView, ov: Seq<bool>, n: int) -> BusView
    decreases n,
{
    if n <= 0 {
        b
    } else {
        let p = request_timers(b, ov, n - 1);
        if ov[n - 1] {
            request(p, (3 + n - 1) as u16)
        } else {
            p
        }
    }
}

/// The PPU, timers and APU advanced by `cycles`, their conditions turned
/// into interrupt requests, and DMA channels armed for VBlank or HBlank
/// run when those begin. VBlank, HBlank and VCounter are requested on the
/// raw timing signals, whatever DISPSTAT's per-source enable bits say, so
/// that IE alone decides: a deliberate compatibility choice for BIOS
/// replacements whose IRQ dispatcher runs before a game has enabled
/// DISPSTAT.
pub open spec fn spec_tick_peripherals(b: BusView, cycles: u32) -> BusView {
    let p = crate::ppu::spec_tick(b.ppu, cycles, no_events());
    let ev = p.1;
    let t = spec_tick_channels(b.timers, cycles, 4);
    let b1 = BusView { ppu: p.0, timers: t.0, ..b };
    let b2 = if ev.vblank_timing {
        request(b1, 0)
    } else {
        b1
    };
    let b3 = if ev.hblank_timing {
        request(b2, 1)
    } else {
        b2
    };
    let b4 = if ev.vcounter_raw {
        request(b3, 2)
    } else {
        b3
    };
    let b5 = if ev.vblank_timing {
        spec_trigger_upto(b4, b4, 1, 4)
    } else {
        b4
    };
    let b6 = if ev.hblank_timing {
        spec_trigger_upto(b5, b5, 2, 4)
    } else {
        b5
    };
    let b7 = request_timers(b6, t.1, 4);
    BusView { apu: b7.apu.spec_tick(cycles, t.1), ..b7 }
}

/// One step after the interrupt, vector and halt checks: an intercepted
/// SWI, or one instruction followed by the peripherals.
#[verifier::opaque]
pub open spec fn spec_step_tail(e: EmuView) -> (Result<u32, CpuError>, EmuView) {
    let swi = spec_try_handle_swi(e.regs, e.bus);
    if e.hle_bios && swi.0 is Some {
        let e2 = match swi.0 {
            Some(SwiOutcome::SoftReset) => EmuView {
                regs: spec_boot(swi.1),
                bus: swi.2,
                halt_mask: None,
                cycles: (e.cycles + 3) as u64,
                ..e
            },
            Some(SwiOutcome::Handled { halt_mask }) => EmuView {
                regs: swi.1,
                bus: swi.2,
                halt_mask: if halt_mask is Some {
                    halt_mask
                } else {
                    e.halt_mask
                },
                cycles: (e.cycles + 3) as u64,
                ..e
            },
            None => e,
        };
        (Ok(3), e2)
    } else {
        let s = spec_step::<Bus>(e.regs, e.bus);
        match s.0 {
            Err(err) => (Err(err), EmuView { regs: s.1, bus: s.2, ..e }),
            Ok(c) => (
                Ok(c),
                EmuView {
                    regs: s.1,
                    bus: spec_tick_peripherals(s.2, c),
                    cycles: (e.cycles + c) as u64,
                    ..e
                },
            ),
        }
    }
}

/// One emulator step, in priority order: take a pending enabled IRQ;
/// service the IRQ vector or the handler-return stub (HLE BIOS only);
/// while halted, wake when the wait mask fires or else idle 8 cycles; then
/// an intercepted SWI or one instruction.
#[verifier::opaque]
pub open spec fn spec_emu_step(e: EmuView) -> (Result<u32, CpuError>, EmuView) {
    if e.bus.interrupts.spec_pending() && !e.regs.flag(psr::I) {
        (Ok(3), EmuView { regs: spec_enter_irq(e.regs), cycles: (e.cycles + 3) as u64, ..e })
    } else if e.hle_bios && e.regs.r[15] == bios::IRQ_VECTOR && e.regs.mode == Mode::Irq {
        let s = spec_service_interrupt(e.regs, e.bus);
        (Ok(3), EmuView { regs: s.0, bus: s.1, cycles: (e.cycles + 3) as u64, ..e })
    } else if e.hle_bios && e.regs.r[15] == bios::IRQ_RETURN_STUB && e.regs.mode == Mode::Irq {
        (
            Ok(3),
            EmuView {
                regs: spec_finish_interrupt(e.regs, e.bus),
                cycles: (e.cycles + 3) as u64,
                ..e
            },
        )
    } else {
        match e.halt_mask {
            Some(mask) => if bios::spec_halt_fired(e.bus, mask) != 0 {
                spec_step_tail(
                    EmuView {
                        bus: bios::spec_ack_into_mirror(e.bus, bios::spec_halt_fired(e.bus, mask)),
                        halt_mask: None,
                        ..e
                    },
                )
            } else {
                (
                    Ok(8),
                    EmuView {
                        bus: spec_tick_peripherals(e.bus, 8),
                        cycles: (e.cycles + 8) as u64,
                        ..e
                    },
                )
            },
            None => spec_step_tail(e),
        }
    }
}

/// Steps from `e` until at least `target` cycles have run (counting from
/// `ran`) or a step fails.
pub open spec fn spec_run(e: EmuView, ran: u32, target: u32) -> (Result<u32, CpuError>, EmuView)
    decreases (if ran >= target {
        0
    } else {
        target - ran
    }),
{
    if ran >= target {
        (Ok(ran), e)
    } else {
        let s = spec_emu_step(e);
        match s.0 {
            Err(err) => (Err(err), s.1),
            Ok(c) => if c == 0 || ran + c > u32::MAX {
                (Ok(ran), s.1)
            } else {
                spec_run(s.1, (ran + c) as u32, target)
            },
        }
    }
}

/// The stopping rule of a run: it ends as soon as the cycles run reach
/// the target, or at the first failing step with that step's error;
/// otherwise it takes one more step and adds its cycles.
pub proof fn lemma_run_rule(e: EmuView, ran: u32, target: u32)
    ensures
        ran >= target ==> spec_run(e, ran, target) == (Ok::<u32, CpuError>(ran), e),
        ran < target ==> match spec_emu_step(e).0 {
            Err(err) => spec_run(e, ran, target) == (Err::<u32, CpuError>(err), spec_emu_step(e).1),
            Ok(c) => 0 < c && ran + c <= u32::MAX ==> spec_run(e, ran, target) == spec_run(
                spec_emu_step(e).1,
                (ran + c) as u32,
                target,
            ),
        },
{
}

pub struct Emulator {
    pub cpu: Cpu,
    pub bus: Bus,
    cycles: u64,
    halt_mask: Option<u16>,
    hle_bios: bool,
}

impl View for Emulator {
    type V = EmuView;

    closed spec fn view(&self) -> EmuView {
        EmuView {
            regs: self.cpu.registers@,
            bus: self.bus@,
            cycles: self.cycles,
            halt_mask: self.halt_mask,
            hle_bios: self.hle_bios,
        }
    }
}

impl Emulator {
    /// The register file in the emulator's view is always well formed.
    pub proof fn lemma_view(&self)
        ensures
            self@.regs.wf(),
    {
        self.cpu.registers.lemma_wf();
    }

    /// An emulator booted straight into the cartridge, standing in for the
    /// BIOS's reset handler (no BIOS dump ships with this project): stacks
    /// set up and PC at the cartridge entry, with the BIOS functions
    /// emulated.
    pub fn new(cartridge: Cartridge) -> (emu: Self)
        requires
            cartridge.wf(),
        ensures
            emu@.bus.wf(),
            emu@.regs == spec_boot(Registers::reset_view()),
            emu@.cycles == 0,
            emu@.halt_mask is None,
            emu@.hle_bios,
            emu@.bus.bios == Seq::new(crate::memory::bus::BIOS_SIZE as nat, |i: int| 0u8),
            emu@.bus.powered_on_except_bios(cartridge),
    {
        let mut emu = Emulator {
            cpu: Cpu::new(),
            bus: Bus::new(cartridge),
            cycles: 0,
            halt_mask: None,
            hle_bios: true,
        };
        emu.boot_without_bios();
        emu
    }

    /// An emulator that runs a real BIOS dump: the CPU starts in its
    /// hardware-reset state (PC 0, Supervisor mode) and the BIOS's own code
    /// handles SWIs and interrupts.
    pub fn new_with_bios(cartridge: Cartridge, bios: &[u8]) -> (emu: Self)
        requires
            cartridge.wf(),
        ensures
            emu@.bus.wf(),
            emu@.regs == Registers::reset_view(),
            emu@.bus.bios == crate::cartridge::save::sram::spec_load_prefix(
                Seq::new(crate::memory::bus::BIOS_SIZE as nat, |i: int| 0u8),
                bios@,
            ),
            emu@.bus.powered_on_except_bios(cartridge),
            emu@.cycles == 0,
            emu@.halt_mask is None,
            !emu@.hle_bios,
    {
        let mut bus = Bus::new(cartridge);
        bus.load_bios(bios);
        Emulator { cpu: Cpu::new(), bus, cycles: 0, halt_mask: None, hle_bios: false }
    }

    fn boot_without_bios(&mut self)
        ensures
            final(self)@ == (EmuView {
                regs: spec_boot(old(self)@.regs),
                halt_mask: None,
                ..old(self)@
            }),
    {
        self.halt_mask = None;
        self.cpu.registers.set_mode(Mode::Irq);
        self.cpu.registers.set_r(13, 0x0300_7FA0);
        self.cpu.registers.set_mode(Mode::Supervisor);
        self.cpu.registers.set_r(13, 0x0300_7FE0);
        self.cpu.registers.set_mode(Mode::System);
        self.cpu.registers.set_r(13, 0x0300_7F00);
        self.cpu.registers.set_flag(psr::I, false);
        self.cpu.registers.set_flag(psr::T, false);
        self.cpu.registers.set_pc(CARTRIDGE_ENTRY);
    }

    /// Total cycles run since construction.
    pub fn total_cycles(&self) -> (c: u64)
        ensures
            c == self@.cycles,
    {
        self.cycles
    }

    #[verifier::rlimit(60)]
    fn tick_peripherals(&mut self, cycles: u32)
        requires
            old(self)@.bus.wf(),
            cycles <= 64,
        ensures
            final(self)@ == (EmuView {
                bus: spec_tick_peripherals(old(self)@.bus, cycles),
                ..old(self)@
            }),
            final(self)@.bus.wf(),
    {
        let ppu_events = self.bus.ppu_mut().tick(cycles);
        let timer_events = self.bus.timers_mut().tick(cycles);
        if ppu_events.vblank_timing {
            self.bus.interrupts_mut().request(InterruptSource::VBlank);
        }
        if ppu_events.hblank_timing {
            self.bus.interrupts_mut().request(InterruptSource::HBlank);
        }
        if ppu_events.vcounter_raw {
            self.bus.interrupts_mut().request(InterruptSource::VCounter);
        }
        if ppu_events.vblank_timing {
            self.bus.trigger_dma_for_timing(1);
        }
        if ppu_events.hblank_timing {
            self.bus.trigger_dma_for_timing(2);
        }
        let ghost b6 = self.bus@;
        let mut timer_overflowed = [false; 4];
        let mut i: usize = 0;
        while i < 4
            invariant
                i <= 4,
                self.bus@.wf(),
                forall|k: int| 0 <= k < i ==> #[trigger] timer_overflowed@[k] == timer_events.spec_overflowed()[k],
                timer_overflowed@.len() == 4,
                self.bus@ == request_timers(b6, timer_events.spec_overflowed(), i as int),
                self@ == (EmuView { bus: self.bus@, ..old(self)@ }),
            decreases 4 - i,
        {
            timer_overflowed[i] = timer_events.overflowed(i);
            if timer_overflowed[i] {
                self.bus.interrupts_mut().request(InterruptSource::from_timer_index(i));
            }
            i = i + 1;
        }
        assert(timer_overflowed@ =~= timer_events.spec_overflowed());
        self.bus.apu_mut().tick(cycles, timer_overflowed);
    }

    fn step_tail(&mut self) -> (r: Result<u32, CpuError>)
        requires
            old(self)@.bus.wf(),
            old(self)@.cycles <= u64::MAX - 64,
        ensures
            (r, final(self)@) == spec_step_tail(old(self)@),
            final(self)@.bus.wf(),
    {
        proof {
            reveal(spec_step_tail);
        }
        if self.hle_bios {
            let outcome = bios::try_handle_swi(&mut self.cpu.registers, &mut self.bus);
            if let Some(o) = outcome {
                match o {
                    SwiOutcome::SoftReset => self.boot_without_bios(),
                    SwiOutcome::Handled { halt_mask } => {
                        if halt_mask.is_some() {
                            self.halt_mask = halt_mask;
                        }
                    },
                }
                self.cycles = self.cycles + 3;
                return Ok(3);
            }
        }
        proof {
            lemma_step_cycles_bounded::<Bus>(self.cpu.registers@, self.bus@);
        }
        let cycles = self.cpu.step(&mut self.bus)?;
        self.cycles = self.cycles + cycles as u64;
        self.tick_peripherals(cycles);
        Ok(cycles)
    }

    /// Runs one instruction and accounts for its cycles, or, in priority
    /// order: takes a pending IRQ the CPU has enabled; services the IRQ
    /// vector or completes a handler's return (HLE BIOS); while halted,
    /// wakes once the wait mask fires and otherwise idles; performs an
    /// intercepted SWI.
    pub fn step(&mut self) -> (r: Result<u32, CpuError>)
        requires
            old(self)@.bus.wf(),
            old(self)@.cycles <= u64::MAX - 64,
        ensures
            (r, final(self)@) == spec_emu_step(old(self)@),
            final(self)@.bus.wf(),
            r matches Ok(c) ==> 1 <= c <= 64 && final(self)@.cycles == old(self)@.cycles + c,
            r is Err ==> final(self)@.cycles == old(self)@.cycles,
            old(self)@.bus.interrupts.spec_pending() && !old(self)@.regs.flag(psr::I) ==> r == Ok::<
                u32,
                CpuError,
            >(3) && final(self)@ == (EmuView {
                regs: spec_enter_irq(old(self)@.regs),
                cycles: (old(self)@.cycles + 3) as u64,
                ..old(self)@
            }),
    {
        proof {
            reveal(spec_emu_step);
            lemma_step_cycles_bounded::<Bus>(self.cpu.registers@, self.bus@);
            lemma_step_tail_cycles(self@);
        }
        if self.bus.interrupts().pending() && !self.cpu.registers.flag(psr::I) {
            self.cpu.enter_irq();
            self.cycles = self.cycles + 3;
            return Ok(3);
        }
        if self.hle_bios && self.cpu.registers.pc() == bios::IRQ_VECTOR
            && self.cpu.registers.mode() == Mode::Irq {
            bios::service_interrupt(&mut self.cpu.registers, &mut self.bus);
            self.cycles = self.cycles + 3;
            return Ok(3);
        }
        if self.hle_bios && self.cpu.registers.pc() == bios::IRQ_RETURN_STUB
            && self.cpu.registers.mode() == Mode::Irq {
            bios::finish_interrupt_after_handler(&mut self.cpu.registers, &mut self.bus);
            self.cycles = self.cycles + 3;
            return Ok(3);
        }
        if let Some(mask) = self.halt_mask {
            if bios::check_halt_wakeup(&mut self.bus, mask) {
                self.halt_mask = None;
                proof {
                    lemma_step_tail_cycles(self@);
                }
            } else {
                self.cycles = self.cycles + HALT_STEP_CYCLES as u64;
                self.tick_peripherals(HALT_STEP_CYCLES);
                return Ok(HALT_STEP_CYCLES);
            }
        }
        self.step_tail()
    }

    /// Runs whole instructions until at least `target_cycles` have elapsed
    /// and returns the cycles actually run (the last instruction may
    /// overshoot); a failing step ends the run with its error.
    pub fn run_cycles(&mut self, target_cycles: u32) -> (r: Result<u32, CpuError>)
        requires
            old(self)@.bus.wf(),
            target_cycles <= u32::MAX - 64,
            old(self)@.cycles + target_cycles + 64 <= u64::MAX,
        ensures
            (r, final(self)@) == spec_run(old(self)@, 0, target_cycles),
            final(self)@.bus.wf(),
            r matches Ok(ran) ==> ran >= target_cycles && ran < target_cycles + 64
                && final(self)@.cycles == old(self)@.cycles + ran,
            target_cycles == 0 ==> r == Ok::<u32, CpuError>(0) && final(self)@ == old(self)@,
    {
        let mut ran: u32 = 0;
        while ran < target_cycles
            invariant
                self@.bus.wf(),
                target_cycles <= u32::MAX - 64,
                self@.cycles == old(self)@.cycles + ran,
                old(self)@.cycles + target_cycles + 64 <= u64::MAX,
                ran < target_cycles + 64,
                spec_run(self@, ran, target_cycles) == spec_run(old(self)@, 0, target_cycles),
            decreases (if ran >= target_cycles {
                0
            } else {
                target_cycles - ran
            }),
        {
            let c = self.step()?;
            ran = ran + c;
        }
        Ok(ran)
    }

    /// Runs about one video frame's worth of cycles.
    pub fn run_frame(&mut self) -> (r: Result<u32, CpuError>)
        requires
            old(self)@.bus.wf(),
            old(self)@.cycles + CYCLES_PER_FRAME + 64 <= u64::MAX,
        ensures
            (r, final(self)@) == spec_run(old(self)@, 0, CYCLES_PER_FRAME),
            final(self)@.bus.wf(),
            r matches Ok(ran) ==> ran >= CYCLES_PER_FRAME && ran < CYCLES_PER_FRAME + 64
                && final(self)@.cycles == old(self)@.cycles + ran,
    {
        self.run_cycles(CYCLES_PER_FRAME)
    }

    /// Presses a button on the joypad.
    pub fn press_key(&mut self, button: Button)
        ensures
            final(self)@ == (EmuView {
                bus: BusView { joypad: old(self)@.bus.joypad.spec_press(button), ..old(self)@.bus },
                ..old(self)@
            }),
    {
        self.bus.joypad_mut().press(button);
    }

    /// Releases a button on the joypad.
    pub fn release_key(&mut self, button: Button)
        ensures
            final(self)@ == (EmuView {
                bus: BusView { joypad: old(self)@.bus.joypad.spec_release(button), ..old(self)@.bus },
                ..old(self)@
            }),
    {
        self.bus.joypad_mut().release(button);
    }
}

/// The tail of a step reports between 1 and 64 cycles and advances the
/// cycle count by exactly what it reports; a failing one leaves the count.
pub proof fn lemma_step_tail_cycles(e: EmuView)
    ensures
        spec_step_tail(e).0 matches Ok(c) ==> 1 <= c <= 64 && spec_step_tail(e).1.cycles == (e.cycles
            + c) as u64,
        spec_step_tail(e).0 is Err ==> spec_step_tail(e).1.cycles == e.cycles,
{
    reveal(spec_step_tail);
    lemma_step_cycles_bounded::<Bus>(e.regs, e.bus);
}

/// One frame is 228 scanlines of 1232 cycles: 280,896 cycles.
pub proof fn lemma_frame_length()
    ensures
        CYCLES_PER_FRAME == CYCLES_PER_SCANLINE * SCANLINES_PER_FRAME,
        CYCLES_PER_FRAME == 280_896,
{
}

} // verus!
