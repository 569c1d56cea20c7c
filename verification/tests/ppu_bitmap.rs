use gba_core::ppu::bitmap::MODE5_HEIGHT;
use gba_core::ppu::bitmap::MODE5_WIDTH;
use gba_core::ppu::Ppu;
use gba_core::ppu::SCREEN_WIDTH;
use gba_core::ppu::bitmap::render_mode3;
use gba_core::ppu::bitmap::render_mode4;
use gba_core::ppu::bitmap::render_mode5;


#[test]
fn mode3_reads_direct_color_per_pixel() {
    let mut ppu = Ppu::new();
    ppu.vram_mut()[0] = 0x00;
    ppu.vram_mut()[1] = 0x7C; // pixel 0 = 0x7C00 (blue)

    let mut out = vec![0u16; SCREEN_WIDTH];
    render_mode3(&ppu, 0, &mut out);
    assert_eq!(out[0], 0x7C00);
}

#[test]
fn mode4_indexes_into_the_bg_palette_and_respects_frame_select() {
    let mut ppu = Ppu::new();
    ppu.vram_mut()[0] = 7; // buffer 0, pixel 0 -> palette index 7
    ppu.vram_mut()[0xA000] = 9; // buffer 1, pixel 0 -> palette index 9
    ppu.palette_mut()[7 * 2] = 0x11;
    ppu.palette_mut()[9 * 2] = 0x22;

    let mut out = vec![0u16; SCREEN_WIDTH];
    render_mode4(&ppu, 0, &mut out);
    assert_eq!(out[0], 0x0011, "frame select defaults to buffer 0");

    ppu.write_register(0x00, 0x10); // DISPCNT: frame select bit (bit4)
    render_mode4(&ppu, 0, &mut out);
    assert_eq!(out[0], 0x0022, "frame select switches to buffer 1");
}

#[test]
fn mode5_is_smaller_than_the_screen_and_leaves_the_rest_at_backdrop() {
    let mut ppu = Ppu::new();
    ppu.vram_mut()[0] = 0xFF;
    ppu.vram_mut()[1] = 0x7F; // pixel 0 = white

    let backdrop = 0x1234;
    let mut out = vec![backdrop; SCREEN_WIDTH];
    render_mode5(&ppu, 0, &mut out);
    assert_eq!(out[0], 0x7FFF);
    assert_eq!(out[MODE5_WIDTH], backdrop, "past the 160px-wide buffer");

    let mut out_below = vec![backdrop; SCREEN_WIDTH];
    render_mode5(&ppu, MODE5_HEIGHT as u16, &mut out_below);
    assert_eq!(out_below[0], backdrop, "past the 128-line-tall buffer");
}
