use gba_core::cpu::psr;
use gba_core::cpu::registers::Mode;
use gba_core::cpu::registers::Registers;


#[test]
fn reset_state_matches_hardware_reset() {
    let regs = Registers::reset();
    assert_eq!(regs.pc(), 0);
    assert_eq!(regs.mode(), Mode::Supervisor);
    assert!(regs.flag(psr::I));
    assert!(regs.flag(psr::F));
    assert!(!regs.flag(psr::T));
}

#[test]
fn r13_r14_are_private_per_mode() {
    let mut regs = Registers::reset();
    regs.set_r(13, 0x1000);
    regs.set_r(14, 0x2000);

    regs.set_mode(Mode::Irq);
    regs.set_r(13, 0x3000);
    regs.set_r(14, 0x4000);

    regs.set_mode(Mode::Supervisor);
    assert_eq!(regs.r(13), 0x1000, "SVC bank must be untouched by IRQ writes");
    assert_eq!(regs.r(14), 0x2000);

    regs.set_mode(Mode::Irq);
    assert_eq!(regs.r(13), 0x3000);
    assert_eq!(regs.r(14), 0x4000);
}

#[test]
fn user_and_system_share_the_same_bank() {
    let mut regs = Registers::reset();
    regs.set_mode(Mode::User);
    regs.set_r(13, 0xAAAA);

    regs.set_mode(Mode::System);
    assert_eq!(regs.r(13), 0xAAAA, "System reuses the User bank");
}

#[test]
fn r8_to_r12_are_private_only_for_fiq() {
    let mut regs = Registers::reset();
    regs.set_mode(Mode::User);
    for i in 8..=12 {
        regs.set_r(i, 0x1000 + i as u32);
    }

    regs.set_mode(Mode::Fiq);
    for i in 8..=12 {
        regs.set_r(i, 0x9000 + i as u32);
    }

    regs.set_mode(Mode::Irq); // shares the "other" bank with User
    for i in 8..=12 {
        assert_eq!(regs.r(i), 0x1000 + i as u32, "r{i} should still hold the User-mode value");
    }

    regs.set_mode(Mode::Fiq);
    for i in 8..=12 {
        assert_eq!(regs.r(i), 0x9000 + i as u32, "r{i} should hold the FIQ-private value");
    }
}

#[test]
fn spsr_is_private_per_privileged_mode_and_absent_in_user_mode() {
    let mut regs = Registers::reset();
    regs.set_mode(Mode::Irq);
    regs.set_spsr(0x1111);
    regs.set_mode(Mode::Abort);
    regs.set_spsr(0x2222);

    regs.set_mode(Mode::Irq);
    assert_eq!(regs.spsr(), 0x1111);

    regs.set_mode(Mode::User);
    regs.set_spsr(0xDEAD); // no SPSR in User mode: must be a no-op
    assert_eq!(regs.spsr(), regs.cpsr());
}

#[test]
fn set_cpsr_banks_registers_when_the_mode_field_changes() {
    let mut regs = Registers::reset(); // starts in Supervisor
    regs.set_r(13, 0x1234);

    let irq_cpsr = (regs.cpsr() & !psr::MODE_MASK) | Mode::Irq.bits();
    regs.set_cpsr(irq_cpsr);
    assert_eq!(regs.mode(), Mode::Irq);
    assert_ne!(regs.r(13), 0x1234, "IRQ has its own r13 bank");
}

#[test]
fn flags_round_trip_through_cpsr() {
    let mut regs = Registers::reset();
    regs.set_flag(psr::Z, true);
    regs.set_flag(psr::N, false);
    assert!(regs.flag(psr::Z));
    assert!(!regs.flag(psr::N));
}
