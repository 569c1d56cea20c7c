use gba_core::cpu::psr;
use gba_core::cpu::registers::Registers;
use gba_core::cpu::thumb::execute;

use gba_core::cartridge::{Cartridge, HEADER_SIZE};
use gba_core::memory::Bus;

fn test_bus() -> Bus {
    Bus::new(Cartridge::load(vec![0u8; HEADER_SIZE + 16]).unwrap())
}

#[test]
fn dispatches_format13_and_format14_despite_sharing_top5() {
    let mut bus = test_bus();
    let mut regs = Registers::reset();
    regs.set_r(13, 0x0300_0100); // SP

    // ADD SP, #16  (Format 13: bits15-8 = 1011_0000, SWord7=4)
    execute(&mut regs, &mut bus, 0xB004, 0).unwrap();
    assert_eq!(regs.r(13), 0x0300_0110);

    // PUSH {r0} (Format 14: bits15-9 = 1011010)
    regs.set_r(0, 0x1234_5678);
    execute(&mut regs, &mut bus, 0xB401, 0).unwrap();
    assert_eq!(regs.r(13), 0x0300_010C);
    assert_eq!(bus.read32(0x0300_010C), 0x1234_5678);
}

#[test]
fn dispatches_conditional_branch_vs_swi_despite_sharing_top5() {
    let mut bus = test_bus();

    // BHI (cond=1000): top5 = 0b11011, same as SWI's — bits15-8 must
    // differ (0xD8xx vs 0xDFxx) for the dispatcher to tell them apart.
    let mut regs = Registers::reset();
    regs.set_flag(gba_core::cpu::psr::C, true); // HI: C=1 and Z=0
    let (cycles, pc_written) = execute(&mut regs, &mut bus, 0xD800, 0x1000).unwrap();
    assert!(pc_written);
    assert!(cycles >= 1);
    assert_eq!(regs.pc(), 0x1004, "a plain BHI, not a misrouted SWI (which would jump to 0x08)");

    // SWI: bits15-8 = 0xDF exactly.
    let mut regs2 = Registers::reset();
    regs2.set_mode(gba_core::cpu::Mode::User);
    let (_, pc_written2) = execute(&mut regs2, &mut bus, 0xDF00, 0x2000).unwrap();
    assert!(pc_written2);
    assert_eq!(regs2.mode(), gba_core::cpu::Mode::Supervisor);
}

#[test]
fn full_program_computes_and_branches() {
    let mut bus = test_bus();
    let mut regs = Registers::reset();

    // MOV r0, #5   (Format 3)
    execute(&mut regs, &mut bus, 0x2005, 0x0000).unwrap();
    // MOV r1, #10  (Format 3)
    execute(&mut regs, &mut bus, 0x210A, 0x0002).unwrap();
    // ADD r2, r0, r1  (Format 2, register form)
    execute(&mut regs, &mut bus, 0x1842, 0x0004).unwrap();

    assert_eq!(regs.r(2), 15);
}
