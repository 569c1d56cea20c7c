use gba_core::cpu::arm::alu::add_with_carry;
use gba_core::cpu::arm::alu::sub_with_carry;


#[test]
fn add_reports_unsigned_carry() {
    let r = add_with_carry(0xFFFF_FFFF, 1, false);
    assert_eq!(r.value, 0);
    assert!(r.carry);
    assert!(!r.overflow);
}

#[test]
fn add_reports_signed_overflow() {
    // Two large positives overflowing into a negative result.
    let r = add_with_carry(0x7FFF_FFFF, 1, false);
    assert_eq!(r.value, 0x8000_0000);
    assert!(!r.carry);
    assert!(r.overflow);
}

#[test]
fn plain_sub_uses_carry_in_true_for_no_borrow() {
    let r = sub_with_carry(5, 3, true);
    assert_eq!(r.value, 2);
    assert!(r.carry, "carry set means no borrow occurred");
}

#[test]
fn sub_reports_borrow_as_cleared_carry() {
    let r = sub_with_carry(3, 5, true);
    assert_eq!(r.value, 3u32.wrapping_sub(5));
    assert!(!r.carry, "borrow occurred, so carry is clear");
}

#[test]
fn sbc_folds_in_the_previous_carry() {
    // 5 - 3 - (1 - C); with C=0 this subtracts one extra.
    let r = sub_with_carry(5, 3, false);
    assert_eq!(r.value, 1);
}

#[test]
fn sub_reports_signed_overflow() {
    let r = sub_with_carry(0x8000_0000, 1, true);
    assert_eq!(r.value, 0x7FFF_FFFF);
    assert!(r.overflow);
}
