use gba_core::cpu::psr;
use gba_core::cpu::registers::Registers;
use gba_core::cpu::arm::branch_exchange::execute;


fn encode_bx(cond: u32, rm: u32) -> u32 {
    (cond << 28) | 0x012F_FF10 | rm
}

#[test]
fn bx_to_odd_address_enters_thumb_state() {
    let mut regs = Registers::reset();
    regs.set_r(0, 0x0800_1001);
    execute(&mut regs, encode_bx(0xE, 0), 0);
    assert!(regs.in_thumb_state());
    assert_eq!(regs.pc(), 0x0800_1000);
}

#[test]
fn bx_to_even_address_stays_in_arm_state() {
    let mut regs = Registers::reset();
    regs.set_flag(psr::T, true);
    regs.set_r(0, 0x0800_2004);
    execute(&mut regs, encode_bx(0xE, 0), 0);
    assert!(!regs.in_thumb_state());
    assert_eq!(regs.pc(), 0x0800_2004);
}
