use gba_core::apu::Apu;
use gba_core::apu::FRAME_SEQUENCER_PERIOD;


fn enabled_apu() -> Apu {
    let mut apu = Apu::new();
    apu.write_register(0x24, 0x80); // master enable
    apu
}

#[test]
fn master_disable_silences_everything() {
    let apu = Apu::new(); // master_enable defaults to false
    assert_eq!(apu.sample(), (0, 0));
}

#[test]
fn channel_status_reflects_which_psg_channels_are_playing() {
    let mut apu = enabled_apu();
    assert_eq!(apu.read_register(0x24) & 0x0F, 0, "nothing triggered yet");

    apu.write_register(0x05, 0x80); // pulse1 trigger
    assert_eq!(apu.read_register(0x24) & 0x0F, 0x01);
}

#[test]
fn pulse1_triggered_with_full_volume_and_pan_produces_a_nonzero_sample() {
    let mut apu = enabled_apu();
    apu.write_register(0x20, 0x77); // SOUNDCNT_L: max master volume both sides
    apu.write_register(0x21, 0x11); // pulse1 routed to both L and R
    apu.write_register(0x22, 0x02); // SOUNDCNT_H: PSG ratio = 100%
    apu.write_register(0x02, 0x40); // duty=1
    apu.write_register(0x03, 0xF0); // initial volume=15
    apu.write_register(0x04, 0x00);
    apu.write_register(0x05, 0x80); // trigger, frequency=0

    let (r, l) = apu.sample();
    assert!(r != 0 && l != 0, "a fully configured, triggered channel must produce sound");
    assert_eq!(r, l, "panned equally to both sides");
}

#[test]
fn dma_sound_a_mixes_into_the_right_channel_when_only_right_is_enabled() {
    let mut apu = enabled_apu();
    apu.write_register(0x22, 0x04); // SOUNDCNT_H lo: DMA A 100% volume
    apu.write_register(0x23, 0x01); // SOUNDCNT_H hi: DMA A right-enabled only (bit8 overall)
    apu.dma_a.push(50);
    apu.dma_a.pop();

    let (r, l) = apu.sample();
    assert!(r > 0);
    assert_eq!(l, 0);
}

#[test]
fn wave_ram_is_reachable_through_the_apu_register_dispatch() {
    let mut apu = Apu::new();
    apu.write_register(0x30, 0xAB);
    assert_eq!(apu.read_register(0x30), 0xAB);
}

#[test]
fn fifo_a_and_b_push_through_distinct_offsets() {
    let mut apu = Apu::new();
    apu.write_register(0x40, 11);
    apu.write_register(0x44, 22);
    apu.dma_a.pop();
    apu.dma_b.pop();
    assert_eq!(apu.dma_a.sample(), 11);
    assert_eq!(apu.dma_b.sample(), 22);
}

#[test]
fn frame_sequencer_clocks_length_at_the_documented_cadence() {
    let mut apu = enabled_apu();
    apu.write_register(0x02, 63); // pulse1 length_data=63 -> counter starts at 1
    apu.write_register(0x05, 0xC0); // trigger + length_enable
    assert!(apu.pulse1.enabled());

    apu.tick(FRAME_SEQUENCER_PERIOD, [false; 4]); // one frame-sequencer step: step 0 clocks length
    assert!(!apu.pulse1.enabled(), "one length clock must have exhausted the 1-tick counter");
}
