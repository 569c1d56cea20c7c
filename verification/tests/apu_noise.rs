use gba_core::apu::noise::NoiseChannel;


fn set_length_envelope(ch: &mut NoiseChannel, value: u16) {
    ch.write_length_envelope_lo((value & 0xFF) as u8);
    ch.write_length_envelope_hi((value >> 8) as u8);
}

fn set_control(ch: &mut NoiseChannel, value: u16) {
    ch.write_control_lo((value & 0xFF) as u8);
    ch.write_control_hi((value >> 8) as u8);
}

#[test]
fn trigger_resets_the_lfsr_to_all_ones() {
    let mut ch = NoiseChannel::new();
    ch.lfsr = 0x0001;
    set_control(&mut ch, 0x8000);
    assert_eq!(ch.lfsr, 0x7FFF);
}

#[test]
fn fifteen_bit_lfsr_first_step_from_all_ones_is_deterministic() {
    let mut ch = NoiseChannel::new();
    set_control(&mut ch, 0x8000); // trigger, 15-bit width, divisor_code=0, shift=0
    set_length_envelope(&mut ch, 15 << 12); // volume=15 so amplitude reflects the LFSR bit directly

    // lfsr=0x7FFF: bit0=1, bit1=1, xor=0 -> shifted right with a 0 fed into bit14.
    ch.tick(ch.period());
    assert_eq!(ch.lfsr, 0x3FFF);
    assert_eq!(ch.amplitude(), 0, "bit0 is now 1 (0x3FFF is odd), so output must be silent");
}

#[test]
fn seven_bit_mode_also_feeds_the_xor_result_into_bit_6() {
    let mut ch = NoiseChannel::new();
    set_control(&mut ch, 0x8000 | 0x08); // trigger, 7-bit width
    ch.tick(ch.period());
    assert_eq!(ch.lfsr & (1 << 6), 0, "xor result (0) must also land in bit6 for 7-bit mode");
}

#[test]
fn noise_length_counter_disables_the_channel_at_zero() {
    let mut ch = NoiseChannel::new();
    set_length_envelope(&mut ch, 63); // length_data=63 -> counter starts at 1
    set_control(&mut ch, 0x8000 | 0x4000); // trigger + length_enable
    assert!(ch.enabled());
    ch.clock_length();
    assert!(!ch.enabled());
}

#[test]
fn envelope_decreases_when_configured_to() {
    let mut ch = NoiseChannel::new();
    set_length_envelope(&mut ch, (1 << 8) | (5 << 12)); // envelope_period=1, decreasing, initial vol=5
    set_control(&mut ch, 0x8000);
    assert_eq!(ch.volume, 5);
    ch.clock_envelope();
    assert_eq!(ch.volume, 4);
}
