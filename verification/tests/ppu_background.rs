use gba_core::ppu::Ppu;
use gba_core::ppu::SCREEN_WIDTH;
use gba_core::ppu::background::TILE_SIZE_4BPP;
use gba_core::ppu::background::render_scanline;


fn ppu_with_bg0_enabled() -> Ppu {
    let mut ppu = Ppu::new();
    ppu.write_register(0x00, 0x00); // DISPCNT low byte: mode 0
    ppu.write_register(0x01, 0x01); // DISPCNT high byte: BG0 enable (bit 8)
    ppu
}

#[test]
fn renders_a_single_4bpp_tile_pixel_exact() {
    let mut ppu = ppu_with_bg0_enabled();
    // BG0CNT: char base block 0, screen base block 0, 4bpp, 32x32.
    ppu.write_register(0x08, 0x00);
    ppu.write_register(0x09, 0x00);

    // Screen block 0, tile map entry (0,0) = tile index 1, palette bank 2.
    ppu.vram_mut()[0] = 0x01;
    ppu.vram_mut()[1] = 0x20;

    // Tile 1 (4bpp, 32 bytes) at char base 0: row 0 = pixels [1,2,0,0,0,0,0,0].
    let tile1 = TILE_SIZE_4BPP; // tile index 1 * 32 bytes, char base block 0
    ppu.vram_mut()[tile1] = 0x21; // low nibble=pixel0=1, high nibble=pixel1=2

    // Palette bank 2, color 1 -> palette RAM index 2*16+1 = 33.
    let color_addr = 33 * 2;
    ppu.palette_mut()[color_addr] = 0x1F; // red
    ppu.palette_mut()[color_addr + 1] = 0x00;
    // bank 2, color 2 -> index 34: green
    ppu.palette_mut()[34 * 2] = 0xE0;
    ppu.palette_mut()[34 * 2 + 1] = 0x03;

    let mut out = vec![None; SCREEN_WIDTH];
    render_scanline(&ppu, 0, 0, &mut out);

    assert_eq!(out[0], Some(0x001F), "pixel 0 -> color index 1 -> red");
    assert_eq!(out[1], Some(0x03E0), "pixel 1 -> color index 2 -> green");
    assert_eq!(out[2], None, "color index 0 is transparent");
}

#[test]
fn scroll_registers_shift_the_sampled_position() {
    let mut ppu = ppu_with_bg0_enabled();
    ppu.write_register(0x08, 0x00);
    ppu.write_register(0x09, 0x00);
    ppu.write_register(0x10, 8); // BG0HOFS = 8 -> one tile to the right

    // Tile map entry (1,0) = tile index 1 (the tile scrolled into x=0 after +8).
    ppu.vram_mut()[2] = 0x01;
    ppu.vram_mut()[3] = 0x00;
    let tile1 = TILE_SIZE_4BPP; // tile index 1, char base block 0
    ppu.vram_mut()[tile1] = 0x01; // pixel0 = color index 1
    ppu.palette_mut()[2] = 0xFF;
    ppu.palette_mut()[3] = 0x7F; // white

    let mut out = vec![None; SCREEN_WIDTH];
    render_scanline(&ppu, 0, 0, &mut out);
    assert_eq!(out[0], Some(0x7FFF));
}

#[test]
fn hflip_and_vflip_reverse_sampled_pixel_position() {
    let mut ppu = ppu_with_bg0_enabled();
    ppu.write_register(0x08, 0x00);
    ppu.write_register(0x09, 0x00);

    // Tile map entry (0,0): tile 1, hflip=1 (bit10).
    ppu.vram_mut()[0] = 0x01;
    ppu.vram_mut()[1] = 0x04;

    let tile1 = TILE_SIZE_4BPP; // tile index 1, char base block 0
    ppu.vram_mut()[tile1] = 0x21; // pixel0=1, pixel1=2
    ppu.palette_mut()[2] = 0x1F;
    ppu.palette_mut()[4] = 0xE0;
    ppu.palette_mut()[5] = 0x03;

    let mut out = vec![None; SCREEN_WIDTH];
    render_scanline(&ppu, 0, 0, &mut out);
    // hflip: sampled pixel at screen x=0 is the tile's pixel 7, which is
    // 0 (transparent) since only pixels 0-1 are non-zero in this tile.
    assert_eq!(out[7], Some(0x001F), "screen x=7 samples tile pixel 0 after hflip");
}

#[test]
fn disabled_background_renders_fully_transparent() {
    let mut ppu = Ppu::new(); // BG0 not enabled
    ppu.vram_mut()[0] = 0x01;
    let mut out = vec![Some(0x1234); SCREEN_WIDTH];
    render_scanline(&ppu, 0, 0, &mut out);
    assert!(out.iter().all(|p| p.is_none()));
}
