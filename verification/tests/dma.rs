use gba_core::dma::Dma;


fn set_channel(dma: &mut Dma, ch: usize, sad: u32, dad: u32, count: u16, control: u16) {
    let base = ch * 12;
    for i in 0..4 {
        dma.write_register(base + i, ((sad >> (i * 8)) & 0xFF) as u8);
    }
    for i in 0..4 {
        dma.write_register(base + 4 + i, ((dad >> (i * 8)) & 0xFF) as u8);
    }
    dma.write_register(base + 8, (count & 0xFF) as u8);
    dma.write_register(base + 9, (count >> 8) as u8);
    dma.write_register(base + 10, (control & 0xFF) as u8);
    dma.write_register(base + 11, (control >> 8) as u8);
}

#[test]
fn registers_round_trip() {
    let mut dma = Dma::new();
    set_channel(&mut dma, 1, 0x0800_1234, 0x0600_0000, 0x0010, 0xB600);
    assert_eq!(dma.channels[1].sad, 0x0800_1234);
    assert_eq!(dma.channels[1].dad, 0x0600_0000);
    assert_eq!(dma.channels[1].count, 0x0010);
    assert_eq!(dma.channels[1].control, 0xB600);
}

#[test]
fn armed_for_immediate_requires_enable_and_timing_zero() {
    let mut dma = Dma::new();
    set_channel(&mut dma, 3, 0, 0, 4, 0x8000); // enable, timing=0 (immediate)
    assert!(dma.armed_for_immediate(3));

    let mut dma2 = Dma::new();
    set_channel(&mut dma2, 3, 0, 0, 4, 0x9000); // enable, timing=1 (VBlank)
    assert!(!dma2.armed_for_immediate(3));
}

#[test]
fn channels_armed_for_vblank_matches_start_timing_bits() {
    let mut dma = Dma::new();
    set_channel(&mut dma, 0, 0, 0, 4, 0x9000); // enable, VBlank
    set_channel(&mut dma, 2, 0, 0, 4, 0xA000); // enable, HBlank
    assert_eq!(dma.channels_armed_for(1), [true, false, false, false]);
    assert_eq!(dma.channels_armed_for(2), [false, false, true, false]);
}

#[test]
fn effective_count_zero_means_max_and_respects_channel_width() {
    let mut dma = Dma::new();
    set_channel(&mut dma, 0, 0, 0, 0, 0x8000); // DMA0-2: 0 -> 0x4000
    assert_eq!(dma.channels[0].effective_count(0), 0x4000);

    set_channel(&mut dma, 3, 0, 0, 0, 0x8000); // DMA3: 0 -> 0x10000
    assert_eq!(dma.channels[3].effective_count(3), 0x1_0000);
}

#[test]
fn finish_transfer_clears_enable_unless_repeating() {
    let mut dma = Dma::new();
    set_channel(&mut dma, 0, 0, 0, 4, 0x8000); // enable, no repeat
    dma.finish_transfer(0, 0x10, 0x20);
    assert!(!dma.channels[0].enabled());
    assert_eq!(dma.channels[0].sad, 0x10);
    assert_eq!(dma.channels[0].dad, 0x20);

    set_channel(&mut dma, 1, 0, 0, 4, 0x8200); // enable + repeat
    dma.finish_transfer(1, 0x10, 0x20);
    assert!(dma.channels[1].enabled(), "repeat must leave the channel armed");
}

#[test]
fn touched_control_high_byte_only_matches_that_exact_offset() {
    assert_eq!(Dma::touched_control_high_byte(11), Some(0));
    assert_eq!(Dma::touched_control_high_byte(23), Some(1));
    assert_eq!(Dma::touched_control_high_byte(10), None);
    assert_eq!(Dma::touched_control_high_byte(0), None);
}
