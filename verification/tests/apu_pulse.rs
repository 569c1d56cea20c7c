use gba_core::apu::pulse::PulseChannel;


/// Test convenience: writes both bytes of SOUND1CNT_H/SOUND2CNT_L.
fn set_length_envelope(ch: &mut PulseChannel, value: u16) {
    ch.write_length_envelope_lo((value & 0xFF) as u8);
    ch.write_length_envelope_hi((value >> 8) as u8);
}

/// Test convenience: writes both bytes of SOUND1CNT_X/SOUND2CNT_H. The
/// hi byte (which carries the trigger bit) is always written last,
/// matching a real STRH of the whole halfword.
fn set_freq_control(ch: &mut PulseChannel, value: u16) {
    ch.write_freq_lo((value & 0xFF) as u8);
    ch.write_freq_hi((value >> 8) as u8);
}

#[test]
fn trigger_enables_the_channel_and_loads_length() {
    let mut ch = PulseChannel::new(false);
    set_length_envelope(&mut ch, 63); // length_data=63, duty irrelevant here
    set_freq_control(&mut ch, 0x8000); // trigger
    assert!(ch.enabled());
}

#[test]
fn duty_25_percent_matches_the_documented_pattern() {
    let mut ch = PulseChannel::new(false);
    set_length_envelope(&mut ch, (1 << 6) | (15 << 12)); // duty=1 (25%), initial volume=15
    set_freq_control(&mut ch, 0x8000 | 100); // trigger, frequency=100

    let mut high_steps = 0;
    for _ in 0..8 {
        if ch.amplitude() > 0 {
            high_steps += 1;
        }
        ch.tick(ch.period());
    }
    assert_eq!(high_steps, 2, "25% duty must be high for 2 of 8 steps");
}

#[test]
fn envelope_increases_volume_over_time_when_configured_to() {
    let mut ch = PulseChannel::new(false);
    // initial volume=0, increasing, envelope period=1
    set_length_envelope(&mut ch, 0x0800 | 0x0100);
    set_freq_control(&mut ch, 0x8000 | 100);
    assert_eq!(ch.volume, 0);

    ch.clock_envelope();
    assert_eq!(ch.volume, 1);
    ch.clock_envelope();
    assert_eq!(ch.volume, 2);
}

#[test]
fn envelope_period_zero_never_changes_volume() {
    let mut ch = PulseChannel::new(false);
    set_length_envelope(&mut ch, 0x0800 | (5 << 12)); // envelope_period=0, increasing, initial vol=5
    set_freq_control(&mut ch, 0x8000);
    ch.clock_envelope();
    ch.clock_envelope();
    assert_eq!(ch.volume, 5);
}

#[test]
fn length_counter_disables_the_channel_when_it_reaches_zero() {
    let mut ch = PulseChannel::new(false);
    set_length_envelope(&mut ch, 63); // length_data=63 -> counter starts at 1
    set_freq_control(&mut ch, 0x8000 | 0x4000); // trigger + length_enable
    assert!(ch.enabled());
    ch.clock_length();
    assert!(!ch.enabled(), "length_counter (64-63=1) must hit zero after one clock");
}

#[test]
fn length_disabled_never_stops_the_channel() {
    let mut ch = PulseChannel::new(false);
    set_length_envelope(&mut ch, 63);
    set_freq_control(&mut ch, 0x8000); // trigger, length_enable NOT set
    for _ in 0..10 {
        ch.clock_length();
    }
    assert!(ch.enabled());
}

#[test]
fn sweep_shifts_frequency_up_when_not_negated() {
    let mut ch = PulseChannel::new(true);
    ch.write_sweep(1 | (1 << 4)); // shift=1, negate=false, period=1
    set_freq_control(&mut ch, 0x8000 | 100); // trigger, frequency=100
    ch.clock_sweep(); // sweep_timer counts down from 1 to 0, triggering the update
    assert_eq!(ch.frequency, 100 + (100 >> 1));
}

#[test]
fn sweep_overflow_disables_the_channel_immediately_at_trigger() {
    let mut ch = PulseChannel::new(true);
    ch.write_sweep(1 | (1 << 4)); // shift=1, negate=false, period=1
    set_freq_control(&mut ch, 0x8000 | 2040); // 2040 + (2040>>1) = 3060, past the 2047 ceiling
    assert!(!ch.enabled(), "trigger must run the overflow check immediately, not wait for a sweep clock");
}

#[test]
fn channel_2_ignores_sweep_writes_entirely() {
    let mut ch = PulseChannel::new(false);
    ch.write_sweep(0b0_111_111); // would be a huge sweep if it had one
    set_freq_control(&mut ch, 0x8000 | 100);
    ch.clock_sweep();
    assert_eq!(ch.frequency, 100, "channel 2 has no sweep hardware");
}
