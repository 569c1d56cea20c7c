use gba_core::cpu::psr;
use gba_core::cpu::registers::Registers;
use gba_core::cpu::thumb::hi_reg::execute;


fn encode(op: u32, h1: bool, h2: bool, rs_low: u32, rd_low: u32) -> u16 {
    ((0b010001 << 10) | (op << 8) | ((h1 as u32) << 7) | ((h2 as u32) << 6) | (rs_low << 3) | rd_low) as u16
}

#[test]
fn add_hi_register_no_flags() {
    let mut regs = Registers::reset();
    regs.set_flag(psr::Z, true);
    regs.set_r(9, 100); // r9 = hi register (rs_low=1, h2=1 -> r9)
    regs.set_r(0, 5);
    let op = encode(0b00, false, true, 1, 0); // ADD r0, r9
    execute(&mut regs, op, 0);
    assert_eq!(regs.r(0), 105);
    assert!(regs.flag(psr::Z), "ADD in Format 5 must not touch flags");
}

#[test]
fn mov_to_pc_branches_without_flags() {
    let mut regs = Registers::reset();
    regs.set_r(1, 0x0800_2000);
    let op = encode(0b10, true, false, 1, 7); // MOV r15 (h1=1,rd_low=7), r1
    let (_, pc_written) = execute(&mut regs, op, 0);
    assert!(pc_written);
    assert_eq!(regs.pc(), 0x0800_2000);
}

#[test]
fn bx_switches_to_arm_state_on_even_target() {
    let mut regs = Registers::reset();
    regs.set_flag(psr::T, true);
    regs.set_r(0, 0x0800_3000);
    let op = encode(0b11, false, false, 0, 0); // BX r0
    let (_, pc_written) = execute(&mut regs, op, 0);
    assert!(pc_written);
    assert!(!regs.in_thumb_state());
    assert_eq!(regs.pc(), 0x0800_3000);
}

#[test]
fn cmp_reads_pc_as_instruction_address_plus_4() {
    let mut regs = Registers::reset();
    regs.set_r(0, 0x0000_1004); // will compare against PC+4 when Rd=15... use Rs=15 instead
    let op = encode(0b01, false, true, 7, 0); // CMP r0, r15 (rs_low=7,h2=1 -> r15)
    execute(&mut regs, op, 0x0000_1000);
    assert!(regs.flag(psr::Z), "r0 == instr_addr(0x1000)+4");
}
