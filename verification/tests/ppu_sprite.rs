use gba_core::ppu::Ppu;
use gba_core::ppu::SCREEN_WIDTH;
use gba_core::ppu::sprite::render_scanline;


fn ppu_with_obj_enabled() -> Ppu {
    let mut ppu = Ppu::new();
    ppu.write_register(0x01, 0x10); // DISPCNT high byte: OBJ enable (bit 12)
    ppu
}

fn write_oam_entry(ppu: &mut Ppu, index: usize, a0: u16, a1: u16, a2: u16) {
    let base = index * 8;
    let oam = ppu.oam_mut();
    oam[base] = (a0 & 0xFF) as u8;
    oam[base + 1] = (a0 >> 8) as u8;
    oam[base + 2] = (a1 & 0xFF) as u8;
    oam[base + 3] = (a1 >> 8) as u8;
    oam[base + 4] = (a2 & 0xFF) as u8;
    oam[base + 5] = (a2 >> 8) as u8;
}

/// Writes attr3 (bytes 6-7) of OAM entry `index` — where affine
/// parameter sets actually live, distinct from attr0-2.
fn write_affine_param(ppu: &mut Ppu, index: usize, value: u16) {
    let base = index * 8 + 6;
    let oam = ppu.oam_mut();
    oam[base] = (value & 0xFF) as u8;
    oam[base + 1] = (value >> 8) as u8;
}

fn render(ppu: &Ppu, line: u16) -> (Vec<Option<(u16, u8, bool)>>, Vec<bool>) {
    let mut out = vec![None; SCREEN_WIDTH];
    let mut obj_window = vec![false; SCREEN_WIDTH];
    render_scanline(ppu, line, &mut out, &mut obj_window);
    (out, obj_window)
}

#[test]
fn renders_an_8x8_sprite_pixel_exact() {
    let mut ppu = ppu_with_obj_enabled();
    // Y=10, not affine, not disabled, 4bpp, shape=0 (square).
    // X=20, size=0 (8x8), no flip.
    // tile 1, priority 0, palette bank 3.
    write_oam_entry(&mut ppu, 0, 10, 20, 1 | (3 << 12));

    let tile1 = 0x1_0000 + 32; // OBJ char base + tile_index(1)*32
    ppu.vram_mut()[tile1] = 0x21; // pixel0=1, pixel1=2

    let pal_index1 = 3 * 16 + 1; // bank 3, color 1
    let off1 = 0x200 + pal_index1 * 2;
    ppu.palette_mut()[off1] = 0x1F; // red

    let (out, _) = render(&ppu, 10);

    assert_eq!(out[20], Some((0x001F, 0, false)));
    assert_eq!(out[22], None, "color index 0 is transparent");
    assert_eq!(out[0], None, "outside the sprite's X range");
}

#[test]
fn y_wraps_for_sprites_positioned_above_the_screen() {
    let mut ppu = ppu_with_obj_enabled();
    write_oam_entry(&mut ppu, 0, 250, 0, 0);
    ppu.vram_mut()[0x1_0000 + 6 * 4] = 0x01;
    ppu.palette_mut()[0x200 + 2] = 0x7F;
    ppu.palette_mut()[0x200 + 3] = 0x7F;

    let (out, _) = render(&ppu, 0);
    assert!(out[0].is_some(), "line 0 should hit row 6 of the wrapped sprite");

    let (out2, _) = render(&ppu, 5);
    assert!(out2[0].is_none(), "line 5 is past the 8-tall sprite's wrapped bounds");
}

#[test]
fn lower_oam_index_wins_on_equal_priority_overlap() {
    let mut ppu = ppu_with_obj_enabled();
    write_oam_entry(&mut ppu, 0, 0, 0, 1); // tile 1, priority 0
    write_oam_entry(&mut ppu, 1, 0, 0, 2); // tile 2, priority 0

    ppu.vram_mut()[0x1_0000 + 32] = 0x01;
    ppu.vram_mut()[0x1_0000 + 64] = 0x02;
    ppu.palette_mut()[0x200 + 2] = 0x11;
    ppu.palette_mut()[0x200 + 4] = 0x22;

    let (out, _) = render(&ppu, 0);
    assert_eq!(out[0], Some((0x0011, 0, false)), "sprite 0 (lower OAM index) wins the tie");
}

#[test]
fn better_priority_wins_even_from_a_higher_oam_index() {
    let mut ppu = ppu_with_obj_enabled();
    write_oam_entry(&mut ppu, 0, 0, 0, 1 | (3 << 10)); // priority 3 (worst)
    write_oam_entry(&mut ppu, 1, 0, 0, 2 | (0 << 10)); // priority 0 (best)

    ppu.vram_mut()[0x1_0000 + 32] = 0x01;
    ppu.vram_mut()[0x1_0000 + 64] = 0x02;
    ppu.palette_mut()[0x200 + 2] = 0x11;
    ppu.palette_mut()[0x200 + 4] = 0x22;

    let (out, _) = render(&ppu, 0);
    assert_eq!(out[0], Some((0x0022, 0, false)), "strictly better priority wins regardless of OAM index");
}

#[test]
fn disabled_non_affine_sprite_is_skipped() {
    let mut ppu = ppu_with_obj_enabled();
    write_oam_entry(&mut ppu, 0, (1 << 9) | 0, 0, 1); // disable bit (non-affine)
    ppu.vram_mut()[0x1_0000 + 32] = 0x01;
    ppu.palette_mut()[0x200 + 2] = 0x11;

    let (out, _) = render(&ppu, 0);
    assert!(out.iter().all(|p| p.is_none()));
}

#[test]
fn affine_identity_matrix_renders_like_a_normal_sprite() {
    let mut ppu = ppu_with_obj_enabled();
    // Affine param set 0: PA=1.0, PD=1.0 (identity), stored in OAM
    // entries 0-3's attr3 fields.
    write_affine_param(&mut ppu, 0, 0x0100); // PA
    write_affine_param(&mut ppu, 1, 0); // PB
    write_affine_param(&mut ppu, 2, 0); // PC
    write_affine_param(&mut ppu, 3, 0x0100); // PD

    // Affine sprite at index 4: Y=10, affine=1, param_index=0, X=20, 8x8, tile 1.
    write_oam_entry(&mut ppu, 4, (1 << 8) | 10, 20, 1);
    ppu.vram_mut()[0x1_0000 + 32] = 0x01;
    ppu.palette_mut()[0x200 + 2] = 0x1F;

    let (out, _) = render(&ppu, 10);
    assert_eq!(out[20], Some((0x001F, 0, false)));
}

#[test]
fn affine_double_size_doubles_the_bounding_box_without_moving_the_texture() {
    let mut ppu = ppu_with_obj_enabled();
    write_affine_param(&mut ppu, 0, 0x0100); // PA
    write_affine_param(&mut ppu, 1, 0);
    write_affine_param(&mut ppu, 2, 0);
    write_affine_param(&mut ppu, 3, 0x0100); // PD

    // affine + double-size (bits 8 and 9), Y=0, X=0, 8x8 -> bbox 16x16.
    write_oam_entry(&mut ppu, 4, (1 << 8) | (1 << 9) | 0, 0, 1);
    ppu.vram_mut()[0x1_0000 + 32] = 0x01; // tile1 pixel(0,0)
    ppu.palette_mut()[0x200 + 2] = 0x1F;

    let (out, _) = render(&ppu, 4); // center of the 16-tall bbox is row 8; texture row 0 sits at bbox row 4
    // bbox center (8,8) in an identity transform maps screen(4,4) -> tex(0,0) since dx=4-8=-4, +half_w(4)=0.
    assert_eq!(out[4], Some((0x001F, 0, false)));
}

#[test]
fn semi_transparent_sprite_sets_the_force_blend_flag() {
    let mut ppu = ppu_with_obj_enabled();
    write_oam_entry(&mut ppu, 0, (1 << 10) | 0, 0, 1); // OBJ mode = semi-transparent
    ppu.vram_mut()[0x1_0000 + 32] = 0x01;
    ppu.palette_mut()[0x200 + 2] = 0x11;

    let (out, _) = render(&ppu, 0);
    assert_eq!(out[0], Some((0x0011, 0, true)));
}

#[test]
fn obj_window_mode_sprite_marks_the_window_mask_but_draws_nothing() {
    let mut ppu = ppu_with_obj_enabled();
    write_oam_entry(&mut ppu, 0, (2 << 10) | 0, 0, 1); // OBJ mode = OBJ window
    ppu.vram_mut()[0x1_0000 + 32] = 0x01;
    ppu.palette_mut()[0x200 + 2] = 0x11;

    let (out, obj_window) = render(&ppu, 0);
    assert_eq!(out[0], None, "OBJ-window sprites are never drawn as visible pixels");
    assert!(obj_window[0], "but they do mark the OBJ window mask");
    assert!(!obj_window[1], "only where the sprite is actually opaque");
}

#[test]
fn obj_mosaic_holds_a_sampled_column_across_the_block() {
    let mut ppu = ppu_with_obj_enabled();
    ppu.write_register(0x4D, 0x03); // OBJ mosaic: H size = 4 (3+1)
    // 8x8 sprite, mosaic enabled (attr0 bit12), tile with distinct pixels 0 and 1.
    write_oam_entry(&mut ppu, 0, (1 << 12) | 0, 0, 1);
    ppu.vram_mut()[0x1_0000 + 32] = 0x21; // pixel0=1, pixel1=2
    ppu.palette_mut()[0x200 + 2] = 0x11; // color 1
    ppu.palette_mut()[0x200 + 4] = 0x22; // color 2

    let (out, _) = render(&ppu, 0);
    // Screen x=0..3 all snap to sampled x=0 (color index 1); x=1,2,3 must
    // match x=0 rather than showing their own unsnapped pixel.
    assert_eq!(out[0], out[1]);
    assert_eq!(out[0], out[3]);
}
