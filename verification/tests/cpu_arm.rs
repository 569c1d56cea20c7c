use gba_core::cpu::psr;
use gba_core::cpu::registers::Registers;
use gba_core::cpu::arm::check_condition;
use gba_core::cpu::arm::is_branch_and_exchange;
use gba_core::cpu::arm::is_halfword_transfer;
use gba_core::cpu::arm::is_multiply;
use gba_core::cpu::arm::is_multiply_long;
use gba_core::cpu::arm::is_psr_transfer;
use gba_core::cpu::arm::is_swap;


fn regs_with_flags(n: bool, z: bool, c: bool, v: bool) -> Registers {
    let mut regs = Registers::reset();
    regs.set_flag(psr::N, n);
    regs.set_flag(psr::Z, z);
    regs.set_flag(psr::C, c);
    regs.set_flag(psr::V, v);
    regs
}

#[test]
fn eq_and_ne_follow_zero_flag() {
    let regs = regs_with_flags(false, true, false, false);
    assert!(check_condition(0x0, &regs));
    assert!(!check_condition(0x1, &regs));
}

#[test]
fn ge_lt_gt_le_follow_n_xor_v_and_z() {
    let regs = regs_with_flags(true, false, false, true);
    assert!(check_condition(0xA, &regs)); // GE
    assert!(!check_condition(0xB, &regs)); // LT
    assert!(check_condition(0xC, &regs)); // GT
    assert!(!check_condition(0xD, &regs)); // LE
}

#[test]
fn al_is_always_true_and_nv_is_always_false() {
    let regs = Registers::reset();
    assert!(check_condition(0xE, &regs));
    assert!(!check_condition(0xF, &regs));
}

#[test]
fn detects_psr_transfer_vs_data_processing() {
    let cmp = 0b1110_00_0_1010_1_0000_0000_0000_0000_0001; // CMP r0, r1 (S=1): real compare
    assert!(!is_psr_transfer(cmp));

    let mrs_like = 0b1110_00_0_1010_0_0000_0000_0000_0000_0001; // same field, S=0: reserved for MRS/MSR
    assert!(is_psr_transfer(mrs_like));
}

#[test]
fn distinguishes_swp_from_mrs_despite_identical_bits_27_to_20() {
    // SWP r2, r1, [r0]: bits27-23=00010, bits21-20=00 — identical to
    // MRS's fixed fields. Only bits7-4 differ (1001 vs 0000), which is
    // exactly why the dispatcher must check is_swap before
    // is_psr_transfer: this opcode satisfies *both* predicates.
    let swp = 0xE100_2091u32;
    assert!(is_swap(swp));
    assert!(is_psr_transfer(swp), "same bit pattern also satisfies the PSR-transfer predicate");

    let mrs = 0xE10F_0000u32; // MRS r0, CPSR
    assert!(!is_swap(mrs));
    assert!(is_psr_transfer(mrs));
}

#[test]
fn detects_branch_and_exchange() {
    let bx_r0 = 0xE12F_FF10u32;
    assert!(is_branch_and_exchange(bx_r0));
}

#[test]
fn detects_multiply_and_multiply_long_and_excludes_data_processing() {
    let mul = 0xE000_0091u32; // MUL r0, r1, r0
    assert!(is_multiply(mul));

    let umull = 0xE080_0091u32; // UMULL r0, r8, r0, r1 (bits27-23=00001)
    assert!(is_multiply_long(umull));

    // A Data Processing register-shift form must never match either.
    let mov_lsl_reg = 0xE1A0_0211u32; // MOV r0, r1, LSL r2
    assert!(!is_multiply(mov_lsl_reg));
    assert!(!is_multiply_long(mov_lsl_reg));
    assert!(!is_halfword_transfer(mov_lsl_reg));
}
