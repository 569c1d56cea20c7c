use gba_core::cpu::arm::shifter::ShiftType;
use gba_core::cpu::arm::shifter::lsl;
use gba_core::cpu::arm::shifter::shift;


#[test]
fn lsl_by_zero_is_a_no_op() {
    let r = lsl(0x1234, 0, true);
    assert_eq!(r.value, 0x1234);
    assert!(r.carry_out);
}

#[test]
fn lsl_by_32_zeroes_the_value() {
    let r = lsl(0b1, 32, false);
    assert_eq!(r.value, 0);
    assert!(r.carry_out, "carry_out is the bit shifted out, i.e. original bit 0");
}

#[test]
fn lsl_by_more_than_32_is_all_zero() {
    let r = lsl(0xFFFF_FFFF, 33, true);
    assert_eq!(r.value, 0);
    assert!(!r.carry_out);
}

#[test]
fn immediate_lsr_zero_means_lsr_32() {
    let r = shift(ShiftType::Lsr, 0x8000_0000, 0, false, true);
    assert_eq!(r.value, 0);
    assert!(r.carry_out, "LSR#32 carry is original bit 31");
}

#[test]
fn register_lsr_zero_is_a_no_op() {
    let r = shift(ShiftType::Lsr, 0x8000_0000, 0, true, false);
    assert_eq!(r.value, 0x8000_0000);
    assert!(r.carry_out);
}

#[test]
fn immediate_asr_zero_means_asr_32_sign_extends() {
    let r = shift(ShiftType::Asr, 0x8000_0000, 0, false, true);
    assert_eq!(r.value, 0xFFFF_FFFF);
    assert!(r.carry_out);

    let r_pos = shift(ShiftType::Asr, 0x1, 0, false, true);
    assert_eq!(r_pos.value, 0);
    assert!(!r_pos.carry_out);
}

#[test]
fn asr_preserves_sign_for_negative_values() {
    let r = shift(ShiftType::Asr, 0x8000_0000u32, 4, false, false);
    assert_eq!(r.value, 0xF800_0000);
}

#[test]
fn immediate_ror_zero_is_rrx() {
    let r = shift(ShiftType::Ror, 0b10, 0, true, true); // carry_in=1
    assert_eq!(r.value, 0x8000_0001);
    assert!(!r.carry_out, "bit 0 of the original value shifted out");
}

#[test]
fn register_ror_zero_is_a_no_op() {
    let r = shift(ShiftType::Ror, 0x1234, 0, true, false);
    assert_eq!(r.value, 0x1234);
    assert!(r.carry_out);
}

#[test]
fn ror_by_nonzero_multiple_of_32_leaves_value_unchanged() {
    let r = shift(ShiftType::Ror, 0x8000_0001, 32, false, false);
    assert_eq!(r.value, 0x8000_0001);
    assert!(r.carry_out, "carry becomes bit 31");
}

#[test]
fn ror_rotates_and_reports_last_bit_rotated_as_carry() {
    let r = shift(ShiftType::Ror, 0b1, 1, false, false);
    assert_eq!(r.value, 0x8000_0000);
    assert!(r.carry_out);
}
