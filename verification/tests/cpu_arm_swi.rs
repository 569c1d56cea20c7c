use gba_core::cpu::psr;
use gba_core::cpu::registers::Mode;
use gba_core::cpu::registers::Registers;
use gba_core::cpu::arm::swi::SWI_VECTOR;
use gba_core::cpu::arm::swi::execute;


#[test]
fn swi_enters_supervisor_mode_and_saves_state() {
    let mut regs = Registers::reset();
    regs.set_mode(Mode::User);
    regs.set_flag(psr::T, false);

    let before_cpsr = regs.cpsr();
    execute(&mut regs, 0x0800_0100);

    assert_eq!(regs.mode(), Mode::Supervisor);
    assert_eq!(regs.r(14), 0x0800_0104);
    assert_eq!(regs.pc(), SWI_VECTOR);
    assert!(regs.flag(psr::I));
    assert!(!regs.flag(psr::T));

    regs.set_mode(Mode::User); // bounce through User just to read spsr_svc back
    regs.set_mode(Mode::Supervisor);
    assert_eq!(regs.spsr(), before_cpsr);
}
