use gba_core::ppu::Ppu;
use gba_core::ppu::SCREEN_WIDTH;
use gba_core::ppu::affine::render_scanline;


fn ppu_with_affine_bg2() -> Ppu {
    let mut ppu = Ppu::new();
    ppu.write_register(0x00, 0x01); // DISPCNT: mode 1 (BG2 affine)
    ppu.write_register(0x01, 0x04); // DISPCNT high byte: BG2 enable (bit 10)
    // BG2CNT: char base 0, screen base 0, size 0 (128x128).
    ppu.write_register(0x0C, 0x00);
    ppu.write_register(0x0D, 0x00);
    // Identity matrix: PA=1.0, PB=0, PC=0, PD=1.0 (all 8.8 fixed point).
    ppu.write_register(0x20, 0x00);
    ppu.write_register(0x21, 0x01); // PA = 0x0100 = 1.0
    ppu.write_register(0x26, 0x00);
    ppu.write_register(0x27, 0x01); // PD = 0x0100 = 1.0
    ppu
}

#[test]
fn identity_matrix_samples_the_map_directly() {
    let mut ppu = ppu_with_affine_bg2();
    // Tile map entry at (2,3) [byte-per-entry, 16 tiles/row for 128px]: tile index 5.
    ppu.vram_mut()[3 * 16 + 2] = 5;
    // Tile 5 (8bpp, 64 bytes), pixel (0,0) = color index 9.
    ppu.vram_mut()[5 * 64] = 9;
    ppu.palette_mut()[9 * 2] = 0x55;
    ppu.palette_mut()[9 * 2 + 1] = 0x02;

    let mut out = vec![None; SCREEN_WIDTH];
    // Screen (16, 24) with identity transform and zero reference -> texture (16,24) -> tile (2,3).
    render_scanline(&ppu, 2, 24, &mut out);
    assert_eq!(out[16], Some(0x0255));
}

#[test]
fn out_of_bounds_is_transparent_unless_wrap_is_set() {
    let mut ppu = ppu_with_affine_bg2();
    ppu.vram_mut()[0] = 1; // tile map entry (0,0) = tile index 1
    ppu.vram_mut()[64] = 9; // tile 1 (char base 0 + 1*64), pixel (0,0) = color index 9
    ppu.palette_mut()[9 * 2] = 0x55;
    ppu.palette_mut()[9 * 2 + 1] = 0x02;

    let mut out = vec![None; SCREEN_WIDTH];
    // Screen x=200 is way outside a 128px-wide map with zero reference.
    render_scanline(&ppu, 2, 0, &mut out);
    assert_eq!(out[200], None, "clamped (non-wrapping) affine BG is transparent out of bounds");

    // Enable wrap (BGxCNT bit 13).
    ppu.write_register(0x0C, 0x00);
    ppu.write_register(0x0D, 0x20);
    let mut out2 = vec![None; SCREEN_WIDTH];
    render_scanline(&ppu, 2, 0, &mut out2);
    // 200 mod 128 = 72 -> tile (72/8=9, 0) -> not tile 0 -> transparent too,
    // but must not panic/None-out purely from the bounds check this time.
    // Use x=128 (mod 128 = 0) to land back on tile (0,0) = the tile we set.
    assert!(out2[128].is_some(), "wrapped coordinate 128 mod 128 = 0 hits tile (0,0)");
}
