use gba_core::cpu::psr;
use gba_core::cpu::registers::Registers;
use gba_core::cpu::arm::multiply::execute_mul;
use gba_core::cpu::arm::multiply::execute_mul_long;


fn encode_mul(cond: u32, accumulate: bool, s: bool, rd: u32, rn: u32, rs: u32, rm: u32) -> u32 {
    (cond << 28) | ((accumulate as u32) << 21) | ((s as u32) << 20) | (rd << 16) | (rn << 12) | (rs << 8) | (0b1001 << 4) | rm
}

fn encode_mul_long(cond: u32, signed: bool, accumulate: bool, s: bool, rd_hi: u32, rd_lo: u32, rs: u32, rm: u32) -> u32 {
    (cond << 28) | (1 << 23) | ((signed as u32) << 22) | ((accumulate as u32) << 21) | ((s as u32) << 20)
        | (rd_hi << 16) | (rd_lo << 12) | (rs << 8) | (0b1001 << 4) | rm
}

#[test]
fn mul_multiplies_two_registers() {
    let mut regs = Registers::reset();
    regs.set_r(1, 6);
    regs.set_r(2, 7);
    let op = encode_mul(0xE, false, true, 0, 0, 2, 1); // MULS r0, r1, r2
    execute_mul(&mut regs, op);
    assert_eq!(regs.r(0), 42);
    assert!(!regs.flag(psr::Z));
}

#[test]
fn mla_accumulates() {
    let mut regs = Registers::reset();
    regs.set_r(1, 3);
    regs.set_r(2, 4);
    regs.set_r(3, 100);
    let op = encode_mul(0xE, true, false, 0, 3, 2, 1); // MLA r0, r1, r2, r3
    execute_mul(&mut regs, op);
    assert_eq!(regs.r(0), 112);
}

#[test]
fn umull_splits_a_64_bit_product() {
    let mut regs = Registers::reset();
    regs.set_r(2, 0xFFFF_FFFF);
    regs.set_r(3, 2);
    let op = encode_mul_long(0xE, false, false, false, 0, 1, 3, 2); // UMULL r1(lo), r0(hi), r2, r3
    execute_mul_long(&mut regs, op);
    let result = ((regs.r(0) as u64) << 32) | regs.r(1) as u64;
    assert_eq!(result, 0xFFFF_FFFFu64 * 2);
}

#[test]
fn smull_handles_negative_operands() {
    let mut regs = Registers::reset();
    regs.set_r(2, (-5i32) as u32);
    regs.set_r(3, (-3i32) as u32);
    let op = encode_mul_long(0xE, true, false, true, 0, 1, 3, 2); // SMULLS r1(lo), r0(hi), r2, r3
    execute_mul_long(&mut regs, op);
    let result = ((regs.r(0) as u64) << 32) | regs.r(1) as u64;
    assert_eq!(result as i64, 15);
    assert!(!regs.flag(psr::N));
}
