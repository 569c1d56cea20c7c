use gba_core::ppu::Ppu;
use gba_core::ppu::window::layer_mask;


fn ppu_with_win0(x1: u8, x2: u8, y1: u8, y2: u8, winin_lo: u8, winout_lo: u8) -> Ppu {
    let mut ppu = Ppu::new();
    ppu.write_register(0x01, 0x20); // DISPCNT high byte: WIN0 enable (bit13)
    ppu.write_register(0x40, x2);
    ppu.write_register(0x41, x1);
    ppu.write_register(0x44, y2);
    ppu.write_register(0x45, y1);
    ppu.write_register(0x48, winin_lo);
    ppu.write_register(0x4A, winout_lo);
    ppu
}

#[test]
fn no_window_enabled_means_everything_is_visible() {
    let ppu = Ppu::new();
    assert_eq!(layer_mask(&ppu, 5, 5, false), 0x3F);
}

#[test]
fn inside_win0_uses_winin_low_byte() {
    let ppu = ppu_with_win0(10, 20, 10, 20, 0x05, 0x00); // WIN0: BG0+BG2
    assert_eq!(layer_mask(&ppu, 15, 15, false), 0x05);
}

#[test]
fn outside_win0_uses_winout_low_byte() {
    let ppu = ppu_with_win0(10, 20, 10, 20, 0x05, 0x1F); // outside: everything but blend
    assert_eq!(layer_mask(&ppu, 0, 0, false), 0x1F);
}

#[test]
fn obj_window_pixel_uses_winout_high_byte() {
    let mut ppu = ppu_with_win0(10, 20, 10, 20, 0x00, 0x00);
    ppu.write_register(0x01, 0x20 | 0x80); // also enable WINOBJ (bit15)
    ppu.write_register(0x4B, 0x10); // WINOBJ enable bits: OBJ only
    assert_eq!(layer_mask(&ppu, 0, 0, true), 0x10);
}

#[test]
fn garbage_bounds_extend_to_the_screen_edge() {
    let mut ppu = Ppu::new();
    ppu.write_register(0x01, 0x20);
    ppu.write_register(0x40, 5); // X2=5
    ppu.write_register(0x41, 200); // X1=200 > X2 -> garbage, X2 becomes SCREEN_WIDTH
    ppu.write_register(0x44, 255);
    ppu.write_register(0x45, 0);
    ppu.write_register(0x48, 0x01);
    // With the garbage fixup, WIN0 spans the whole line, so a far-right pixel still hits it.
    assert_eq!(layer_mask(&ppu, 239, 5, false), 0x01);
}
