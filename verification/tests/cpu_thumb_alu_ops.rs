use gba_core::cpu::psr;
use gba_core::cpu::registers::Registers;
use gba_core::cpu::thumb::alu_ops::add_subtract;
use gba_core::cpu::thumb::alu_ops::alu_operation;
use gba_core::cpu::thumb::alu_ops::immediate_op;
use gba_core::cpu::thumb::alu_ops::move_shifted_register;


#[test]
fn lsl_immediate_shifts_and_sets_carry() {
    let mut regs = Registers::reset();
    regs.set_r(1, 0x8000_0000);
    // LSL r0, r1, #1
    let op = (0b000 << 13) | (0b00 << 11) | (1 << 6) | (1 << 3) | 0;
    move_shifted_register(&mut regs, op);
    assert_eq!(regs.r(0), 0);
    assert!(regs.flag(psr::C));
    assert!(regs.flag(psr::Z));
}

#[test]
fn add_register_form() {
    let mut regs = Registers::reset();
    regs.set_r(1, 5);
    regs.set_r(2, 3);
    // ADD r0, r1, r2 (Format2, immediate=0, subtract=0)
    let op = (0b000_11 << 11) | (0 << 10) | (0 << 9) | (2 << 6) | (1 << 3) | 0;
    add_subtract(&mut regs, op);
    assert_eq!(regs.r(0), 8);
}

#[test]
fn sub_immediate3_form() {
    let mut regs = Registers::reset();
    regs.set_r(1, 5);
    // SUB r0, r1, #2 (Format2, immediate=1, subtract=1)
    let op = (0b000_11 << 11) | (1 << 10) | (1 << 9) | (2 << 6) | (1 << 3) | 0;
    add_subtract(&mut regs, op);
    assert_eq!(regs.r(0), 3);
}

#[test]
fn mov_immediate_does_not_touch_carry() {
    let mut regs = Registers::reset();
    regs.set_flag(psr::C, true);
    // MOV r0, #0
    let op = (0b001 << 13) | (0b00 << 11) | (0 << 8) | 0;
    immediate_op(&mut regs, op);
    assert_eq!(regs.r(0), 0);
    assert!(regs.flag(psr::Z));
    assert!(regs.flag(psr::C), "MOV must not affect C");
}

#[test]
fn cmp_immediate_sets_flags_without_writing_rd() {
    let mut regs = Registers::reset();
    regs.set_r(0, 5);
    // CMP r0, #5
    let op = (0b001 << 13) | (0b01 << 11) | (0 << 8) | 5;
    immediate_op(&mut regs, op);
    assert!(regs.flag(psr::Z));
    assert_eq!(regs.r(0), 5, "CMP must not write Rd");
}

#[test]
fn alu_and_updates_nz_only() {
    let mut regs = Registers::reset();
    regs.set_flag(psr::C, true);
    regs.set_r(0, 0xFF);
    regs.set_r(1, 0x0F);
    // AND r0, r1
    let op = (0b010000 << 10) | (0x0 << 6) | (1 << 3) | 0;
    alu_operation(&mut regs, op);
    assert_eq!(regs.r(0), 0x0F);
    assert!(regs.flag(psr::C), "AND must not affect C in Thumb Format 4");
}

#[test]
fn alu_mul_multiplies() {
    let mut regs = Registers::reset();
    regs.set_r(0, 6);
    regs.set_r(1, 7);
    // MUL r0, r1
    let op = (0b010000 << 10) | (0xD << 6) | (1 << 3) | 0;
    alu_operation(&mut regs, op);
    assert_eq!(regs.r(0), 42);
}

#[test]
fn alu_neg_negates() {
    let mut regs = Registers::reset();
    regs.set_r(1, 5);
    // NEG r0, r1
    let op = (0b010000 << 10) | (0x9 << 6) | (1 << 3) | 0;
    alu_operation(&mut regs, op);
    assert_eq!(regs.r(0), (-5i32) as u32);
}
