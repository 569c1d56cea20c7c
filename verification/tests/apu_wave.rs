use gba_core::apu::wave::WaveChannel;


fn set_control_h(ch: &mut WaveChannel, value: u16) {
    ch.write_control_h_lo((value & 0xFF) as u8);
    ch.write_control_h_hi((value >> 8) as u8);
}

fn set_control_x(ch: &mut WaveChannel, value: u16) {
    ch.write_control_x_lo((value & 0xFF) as u8);
    ch.write_control_x_hi((value >> 8) as u8);
}

#[test]
fn dac_power_gates_output_regardless_of_trigger() {
    let mut ch = WaveChannel::new();
    ch.write_wave_ram(0, 0xFF); // both nibbles at max
    set_control_h(&mut ch, 1 << 13); // volume 100%
    set_control_x(&mut ch, 0x8000); // trigger without DAC power set
    assert_eq!(ch.amplitude(), 0, "DAC power (SOUND3CNT_L bit7) was never set");

    ch.write_control_l(0x80); // DAC power on
    set_control_x(&mut ch, 0x8000); // re-trigger
    assert_eq!(ch.amplitude(), 15);
}

#[test]
fn volume_shift_halves_and_quarters_the_sample() {
    let mut ch = WaveChannel::new();
    ch.write_control_l(0x80);
    ch.write_wave_ram(0, 0xFF);
    set_control_h(&mut ch, 2 << 13); // 50%
    set_control_x(&mut ch, 0x8000);
    assert_eq!(ch.amplitude(), 7);

    set_control_h(&mut ch, 3 << 13); // 25%
    set_control_x(&mut ch, 0x8000);
    assert_eq!(ch.amplitude(), 3);
}

#[test]
fn samples_advance_high_nibble_first_then_low_nibble() {
    let mut ch = WaveChannel::new();
    ch.write_control_l(0x80);
    ch.write_wave_ram(0, 0xA5); // high nibble 0xA, low nibble 0x5
    set_control_h(&mut ch, 1 << 13); // 100%
    set_control_x(&mut ch, 0x8000 | 2000); // trigger, high frequency = short period

    assert_eq!(ch.amplitude(), 0xA);
    ch.tick(ch.period());
    assert_eq!(ch.amplitude(), 0x5);
}

#[test]
fn wave_ram_writes_target_the_selected_bank() {
    let mut ch = WaveChannel::new();
    ch.write_control_l(0x00); // bank_select=0
    ch.write_wave_ram(0, 0x11);
    ch.write_control_l(0x40); // bank_select=1
    ch.write_wave_ram(0, 0x22);

    ch.write_control_l(0x00);
    assert_eq!(ch.read_wave_ram(0), 0x11);
    ch.write_control_l(0x40);
    assert_eq!(ch.read_wave_ram(0), 0x22);
}

#[test]
fn wave_length_counter_disables_the_channel_at_zero() {
    let mut ch = WaveChannel::new();
    ch.write_control_l(0x80);
    set_control_h(&mut ch, 255); // length_data=255 -> counter starts at 1
    set_control_x(&mut ch, 0x8000 | 0x4000); // trigger + length_enable
    assert!(ch.enabled());
    ch.clock_length();
    assert!(!ch.enabled());
}
