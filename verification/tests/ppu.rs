use gba_core::ppu::CYCLES_PER_SCANLINE;
use gba_core::ppu::HBLANK_CYCLES;
use gba_core::ppu::HDRAW_CYCLES;
use gba_core::ppu::Ppu;
use gba_core::ppu::SCREEN_WIDTH;
use gba_core::ppu::TOTAL_SCANLINES;
use gba_core::ppu::VISIBLE_SCANLINES;


#[test]
fn vcount_is_read_only_and_tracks_the_scanline() {
    let mut ppu = Ppu::new();
    ppu.write_register(0x06, 0xFF); // ignored: VCOUNT is read-only
    assert_eq!(ppu.read_register(0x06), 0);

    ppu.tick(CYCLES_PER_SCANLINE * 5);
    assert_eq!(ppu.scanline(), 5);
    assert_eq!(ppu.read_register(0x06), 5);
}

#[test]
fn dispstat_vblank_flag_tracks_scanline_160() {
    let mut ppu = Ppu::new();
    assert_eq!(ppu.read_register(0x04) & 0x01, 0);

    ppu.tick(CYCLES_PER_SCANLINE * VISIBLE_SCANLINES as u32);
    assert_eq!(ppu.scanline(), VISIBLE_SCANLINES);
    assert_eq!(ppu.read_register(0x04) & 0x01, 0x01, "VBlank flag must be set at scanline 160");
    assert!(ppu.take_frame_ready());
    assert!(!ppu.take_frame_ready(), "frame_ready clears after being taken");
}

#[test]
fn dispstat_hblank_flag_tracks_dot_position() {
    let mut ppu = Ppu::new();
    assert_eq!(ppu.read_register(0x04) & 0x02, 0);
    ppu.tick(HDRAW_CYCLES);
    assert_eq!(ppu.read_register(0x04) & 0x02, 0x02, "HBlank starts right after the 960 HDraw cycles");
}

#[test]
fn dispstat_vcounter_match_uses_lyc() {
    let mut ppu = Ppu::new();
    ppu.write_register(0x05, 10); // LYC = 10
    ppu.tick(CYCLES_PER_SCANLINE * 10);
    assert_eq!(ppu.scanline(), 10);
    assert_eq!(ppu.read_register(0x04) & 0x04, 0x04);
}

#[test]
fn scanline_wraps_after_a_full_frame() {
    let mut ppu = Ppu::new();
    ppu.tick(CYCLES_PER_SCANLINE * TOTAL_SCANLINES as u32);
    assert_eq!(ppu.scanline(), 0);
}

#[test]
fn dispcnt_roundtrips_and_reports_bg_mode_and_enables() {
    let mut ppu = Ppu::new();
    ppu.write_register(0x00, 0x01); // mode 1
    ppu.write_register(0x01, 0x1F); // BG0-3 + OBJ enabled (bits 8-12)
    assert_eq!(ppu.bg_mode(), 1);
    assert!(ppu.bg_enabled(0));
    assert!(ppu.bg_enabled(3));
    assert!(ppu.obj_enabled());
}

#[test]
fn vblank_irq_event_only_fires_when_dispstat_enables_it() {
    let mut ppu = Ppu::new();
    let events = ppu.tick(CYCLES_PER_SCANLINE * VISIBLE_SCANLINES as u32);
    assert!(!events.vblank, "DISPSTAT bit3 was never set");

    let mut ppu = Ppu::new();
    ppu.write_register(0x04, 0x08); // VBlank IRQ enable
    let events = ppu.tick(CYCLES_PER_SCANLINE * VISIBLE_SCANLINES as u32);
    assert!(events.vblank);
}

#[test]
fn vblank_and_hblank_timing_events_fire_unconditionally_for_dma() {
    // DMA channels armed for VBlank/HBlank start timing must trigger
    // on the raw scanline transition even when DISPSTAT's IRQ-enable
    // bits are untouched — real hardware's DMA controller doesn't
    // care whether the CPU interrupt for the same event is enabled.
    let mut ppu = Ppu::new(); // DISPSTAT IRQ-enable bits are off by default
    let events = ppu.tick(HDRAW_CYCLES);
    assert!(events.hblank_timing, "HBlank timing must fire regardless of DISPSTAT");
    assert!(!events.hblank, "but the IRQ-gated event must not, since it's disabled");

    let events = ppu.tick(CYCLES_PER_SCANLINE * (VISIBLE_SCANLINES as u32 - 1) + HBLANK_CYCLES);
    assert!(events.vblank_timing, "VBlank timing must fire regardless of DISPSTAT");
    assert!(!events.vblank, "but the IRQ-gated event must not, since it's disabled");
}

#[test]
fn hblank_irq_event_fires_once_per_scanline_including_during_vblank() {
    let mut ppu = Ppu::new();
    ppu.write_register(0x04, 0x10); // HBlank IRQ enable

    let events = ppu.tick(HDRAW_CYCLES - 1);
    assert!(!events.hblank, "still inside HDraw");
    let events = ppu.tick(1);
    assert!(events.hblank, "crossing the HDRAW_CYCLES boundary must fire it");

    // Advance well into VBlank and confirm HBlank still fires there too.
    ppu.tick(CYCLES_PER_SCANLINE * 200 - HDRAW_CYCLES - 1);
    let events = ppu.tick(HDRAW_CYCLES + 1);
    assert!(events.hblank, "HBlank timing continues through VBlank lines");
}

#[test]
fn vcounter_irq_event_fires_on_lyc_match_when_enabled() {
    let mut ppu = Ppu::new();
    ppu.write_register(0x05, 10); // LYC = 10
    ppu.write_register(0x04, 0x20); // VCounter IRQ enable

    let events = ppu.tick(CYCLES_PER_SCANLINE * 9);
    assert!(!events.vcounter);
    let events = ppu.tick(CYCLES_PER_SCANLINE);
    assert_eq!(ppu.scanline(), 10);
    assert!(events.vcounter);
}

#[test]
fn backdrop_fills_the_frame_when_no_background_is_enabled() {
    let mut ppu = Ppu::new();
    ppu.palette_mut()[0] = 0x1F; // low byte of palette[0]: red=0x1F, rest 0
    ppu.palette_mut()[1] = 0x00;
    ppu.tick(CYCLES_PER_SCANLINE); // render scanline 0
    assert_eq!(ppu.framebuffer()[0], 0x001F);
    assert_eq!(ppu.framebuffer()[SCREEN_WIDTH - 1], 0x001F);
}
