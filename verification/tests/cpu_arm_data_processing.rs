use gba_core::cpu::psr;
use gba_core::cpu::registers::Registers;
use gba_core::cpu::arm::data_processing::execute;


fn encode_dp(cond: u32, opcode4: u32, s: u32, rn: u32, rd: u32, operand2: u32, immediate: bool) -> u32 {
    (cond << 28) | ((immediate as u32) << 25) | (opcode4 << 21) | (s << 20) | (rn << 16) | (rd << 12) | operand2
}

#[test]
fn mov_immediate_sets_register_and_flags() {
    let mut regs = Registers::reset();
    // MOVS r0, #0 -> Z=1
    let op = encode_dp(0xE, 0xD, 1, 0, 0, 0, true);
    let (cycles, pc_written) = execute(&mut regs, op, 0x0000_0000);
    assert_eq!(regs.r(0), 0);
    assert!(regs.flag(psr::Z));
    assert_eq!(cycles, 1);
    assert!(!pc_written);
}

#[test]
fn add_sets_carry_and_overflow() {
    let mut regs = Registers::reset();
    regs.set_r(1, 0xFFFF_FFFF);
    // ADDS r0, r1, #1
    let op = encode_dp(0xE, 0x4, 1, 1, 0, 1, true);
    execute(&mut regs, op, 0);
    assert_eq!(regs.r(0), 0);
    assert!(regs.flag(psr::C));
    assert!(regs.flag(psr::Z));
}

#[test]
fn cmp_updates_flags_without_writing_rd() {
    let mut regs = Registers::reset();
    regs.set_r(0, 5);
    regs.set_r(1, 5);
    regs.set_r(2, 0xDEAD_BEEF);
    // CMP r0, r1 (register form, LSL#0) — Rd field is r2, must stay untouched.
    let op = encode_dp(0xE, 0xA, 1, 0, 2, 1, false);
    execute(&mut regs, op, 0);
    assert!(regs.flag(psr::Z), "5 - 5 == 0");
    assert_eq!(regs.r(2), 0xDEAD_BEEF, "CMP must not write Rd");
}

#[test]
fn pc_read_as_operand_is_instruction_address_plus_8() {
    let mut regs = Registers::reset();
    // MOV r0, r15 (immediate-shift register form, Rm = r15)
    let op = encode_dp(0xE, 0xD, 0, 0, 0, 15, false);
    execute(&mut regs, op, 0x0000_1000);
    assert_eq!(regs.r(0), 0x0000_1008);
}

#[test]
fn pc_read_with_register_specified_shift_is_plus_12() {
    let mut regs = Registers::reset();
    regs.set_r(2, 0); // shift amount register, Rs = r2, shift by 0 -> LSL#0 no-op
    // MOV r0, r15, LSL r2  (Rs=2 << 8 | shift_type=LSL(00) << 5 | bit4=1 | Rm=15)
    let operand2 = (2 << 8) | (0b00 << 5) | (1 << 4) | 15;
    let op = encode_dp(0xE, 0xD, 0, 0, 0, operand2, false);
    execute(&mut regs, op, 0x0000_1000);
    assert_eq!(regs.r(0), 0x0000_100C);
}

#[test]
fn mov_pc_writes_pc_and_reports_pc_written() {
    let mut regs = Registers::reset();
    regs.set_r(0, 0x0800_1234);
    // MOV r15, r0 (S=0)
    let op = encode_dp(0xE, 0xD, 0, 0, 15, 0, false);
    let (_, pc_written) = execute(&mut regs, op, 0);
    assert!(pc_written);
    assert_eq!(regs.pc(), 0x0800_1234);
}

#[test]
fn movs_pc_restores_cpsr_from_spsr() {
    let mut regs = Registers::reset();
    regs.set_mode(gba_core::cpu::Mode::Irq);
    let user_cpsr = gba_core::cpu::Mode::User.bits(); // no I/F/T set: back to unprivileged ARM state
    regs.set_spsr(user_cpsr);
    regs.set_r(14, 0x0800_5678); // typical "MOVS PC, LR" return-from-IRQ idiom

    // MOVS r15, r14 (S=1)
    let op = encode_dp(0xE, 0xD, 1, 0, 15, 14, false);
    execute(&mut regs, op, 0);

    assert_eq!(regs.pc(), 0x0800_5678);
    assert_eq!(regs.mode(), gba_core::cpu::Mode::User);
}

#[test]
fn immediate_rotate_of_zero_is_not_rrx() {
    let mut regs = Registers::reset();
    regs.set_flag(psr::C, true);
    // MOVS r0, #0x80 with rotate field = 0: must stay 0x80, C unaffected
    // by the rotate itself (only by the immediate's own carry_in passthrough).
    let op = encode_dp(0xE, 0xD, 1, 0, 0, 0x80, true);
    execute(&mut regs, op, 0);
    assert_eq!(regs.r(0), 0x80);
    assert!(regs.flag(psr::C), "rotate=0 leaves C unchanged, not RRX");
}
