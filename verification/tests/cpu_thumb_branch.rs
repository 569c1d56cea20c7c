use gba_core::cpu::psr;
use gba_core::cpu::registers::Mode;
use gba_core::cpu::registers::Registers;
use gba_core::cpu::arm::swi::SWI_VECTOR;
use gba_core::cpu::thumb::branch::branch_link_high;
use gba_core::cpu::thumb::branch::branch_link_low;
use gba_core::cpu::thumb::branch::conditional_branch;
use gba_core::cpu::thumb::branch::software_interrupt;
use gba_core::cpu::thumb::branch::unconditional_branch;


#[test]
fn conditional_branch_taken_when_flag_matches() {
    let mut regs = Registers::reset();
    regs.set_flag(psr::Z, true);
    let op = (0b1101 << 12) | (0x0 << 8) | 4u16; // BEQ, offset=4 words->8 bytes
    let (_, pc_written, target) = conditional_branch(&regs, op, 0x0000_1000);
    assert!(pc_written);
    assert_eq!(target, Some(0x0000_1000 + 4 + 8));
}

#[test]
fn conditional_branch_skipped_when_flag_does_not_match() {
    let regs = Registers::reset(); // Z=0
    let op = (0b1101 << 12) | (0x0 << 8) | 4u16; // BEQ
    let (_, pc_written, target) = conditional_branch(&regs, op, 0);
    assert!(!pc_written);
    assert_eq!(target, None);
}

#[test]
fn unconditional_branch_sign_extends_11_bits() {
    // offset11 = -2 (0x7FE in 11-bit two's complement)
    let op = (0b11100 << 11) | 0x7FEu16;
    let target = unconditional_branch(op, 0x0000_2000);
    assert_eq!(target, 0x0000_2000 + 4 - 4);
}

#[test]
fn bl_pair_computes_a_far_target_and_sets_lr_with_thumb_bit() {
    let mut regs = Registers::reset();
    // High half: offset11=1 -> signed<<12 = 0x1000
    let high_op = (0b11110 << 11) | 1u16;
    branch_link_high(&mut regs, high_op, 0x0000_1000);
    assert_eq!(regs.r(14), 0x0000_1000 + 4 + 0x1000);

    // Low half: offset11=2 -> +4 bytes
    let low_op = (0b11111 << 11) | 2u16;
    branch_link_low(&mut regs, low_op, 0x0000_1002);

    assert_eq!(regs.pc(), 0x0000_1000 + 4 + 0x1000 + 4);
    assert_eq!(regs.r(14), (0x0000_1002 + 2) | 1);
}

#[test]
fn swi_enters_supervisor_with_thumb_return_offset() {
    let mut regs = Registers::reset();
    regs.set_mode(Mode::User);
    software_interrupt(&mut regs, 0x0000_2000);
    assert_eq!(regs.mode(), Mode::Supervisor);
    assert_eq!(regs.r(14), 0x0000_2002);
    assert_eq!(regs.pc(), SWI_VECTOR);
    assert!(!regs.in_thumb_state());
}
