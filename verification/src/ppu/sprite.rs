//! Sprites (OBJ): every enabled, on-line sprite's contribution to one
//! scanline.
//!
//! A line entry is `(color, priority, force_blend)` for the winning sprite
//! pixel; `force_blend` marks semi-transparent sprites (OBJ mode 1), which
//! are always alpha-blend candidates. OBJ-window sprites (mode 2) are never
//! drawn: their opaque pixels only mark the OBJ window mask. Among
//! overlapping sprites a strictly better (lower) priority wins and lower
//! OAM index wins ties, as the hardware scans OAM from entry 0 to 127.
use vstd::prelude::*;
use crate::ppu::{Ppu, PpuView, SCREEN_WIDTH};
use crate::ppu::affine::floor_div256;

verus! {

broadcast use crate::bits::group_bits;

pub open spec fn oam_u16(v: PpuView, addr: int) -> u16 {
    (v.oam[addr] as u16) | (((v.oam[addr + 1] as u16) << 8u16) as u16)
}

/// Width and height of a sprite shape (0 square, 1 wide, 2 tall) and size;
/// shape 3 is prohibited.
pub open spec fn spec_shape_size(shape: u16, size: u16) -> Option<(u16, u16)> {
    if size >= 4 {
        None
    } else if shape == 0 {
        if size == 0 {
            Some((8u16, 8u16))
        } else if size == 1 {
            Some((16u16, 16u16))
        } else if size == 2 {
            Some((32u16, 32u16))
        } else {
            Some((64u16, 64u16))
        }
    } else if shape == 1 {
        if size == 0 {
            Some((16u16, 8u16))
        } else if size == 1 {
            Some((32u16, 8u16))
        } else if size == 2 {
            Some((32u16, 16u16))
        } else {
            Some((64u16, 32u16))
        }
    } else if shape == 2 {
        if size == 0 {
            Some((8u16, 16u16))
        } else if size == 1 {
            Some((8u16, 32u16))
        } else if size == 2 {
            Some((16u16, 32u16))
        } else {
            Some((32u16, 64u16))
        }
    } else {
        None
    }
}

pub fn shape_size_to_dimensions(shape: u16, size: u16) -> (r: Option<(u16, u16)>)
    ensures
        r == spec_shape_size(shape, size),
        r matches Some(d) ==> 8 <= d.0 <= 64 && 8 <= d.1 <= 64,
{
    if size >= 4 {
        None
    } else if shape == 0 {
        if size == 0 {
            Some((8, 8))
        } else if size == 1 {
            Some((16, 16))
        } else if size == 2 {
            Some((32, 32))
        } else {
            Some((64, 64))
        }
    } else if shape == 1 {
        if size == 0 {
            Some((16, 8))
        } else if size == 1 {
            Some((32, 8))
        } else if size == 2 {
            Some((32, 16))
        } else {
            Some((64, 32))
        }
    } else if shape == 2 {
        if size == 0 {
            Some((8, 16))
        } else if size == 1 {
            Some((8, 32))
        } else if size == 2 {
            Some((16, 32))
        } else {
            Some((32, 64))
        }
    } else {
        None
    }
}

/// What a sprite that is drawn on a line needs, decoded from its OAM
/// attributes.
#[derive(Debug, Clone, Copy, PartialEq, Eq, Structural)]
pub struct SpriteInfo {
    pub x: i32,
    pub w: i32,
    pub h: i32,
    pub bbox_w: i32,
    pub bbox_h: i32,
    pub rel_y: i32,
    pub affine: bool,
    pub obj_mode: u16,
    pub mosaic: bool,
    pub is_8bpp: bool,
    pub tile_base: usize,
    pub priority: u8,
    pub palette_bank: usize,
    pub hflip: bool,
    pub vflip: bool,
    pub param_index: usize,
}

/// OAM entry `i` decoded for `line`, or `None` when it draws nothing on
/// that line: disabled (attr0 bit 9 without the affine bit), OBJ mode 3,
/// a prohibited shape, or the line outside its (wrapped) bounding box.
pub open spec fn spec_sprite_info(v: PpuView, line: u16, i: int) -> Option<SpriteInfo> {
    let a0 = oam_u16(v, i * 8);
    let a1 = oam_u16(v, i * 8 + 2);
    let a2 = oam_u16(v, i * 8 + 4);
    let affine = (a0 >> 8u16) & 1 == 1;
    let bit9 = (a0 >> 9u16) & 1 == 1;
    let obj_mode = (a0 >> 10u16) & 3;
    let mosaic = (a0 >> 12u16) & 1 == 1;
    if (!affine && bit9) || obj_mode == 3 {
        None
    } else {
        match spec_shape_size((a0 >> 14u16) & 3, (a1 >> 14u16) & 3) {
            None => None,
            Some(d) => {
                let double = affine && bit9;
                let bbox_w = if double {
                    d.0 * 2
                } else {
                    d.0 as int
                };
                let bbox_h = if double {
                    d.1 * 2
                } else {
                    d.1 as int
                };
                let mv = v.mosaic_obj_size().1;
                let sample_line = if mosaic {
                    line - (line as int) % (mv as int)
                } else {
                    line as int
                };
                let rel_y = (sample_line - (a0 & 0xFF)) % 256;
                if rel_y >= bbox_h {
                    None
                } else {
                    let x_raw = a1 & 0x1FF;
                    Some(
                        SpriteInfo {
                            x: (if x_raw >= 256 {
                                x_raw - 512
                            } else {
                                x_raw as int
                            }) as i32,
                            w: d.0 as i32,
                            h: d.1 as i32,
                            bbox_w: bbox_w as i32,
                            bbox_h: bbox_h as i32,
                            rel_y: rel_y as i32,
                            affine,
                            obj_mode,
                            mosaic,
                            is_8bpp: (a0 >> 13u16) & 1 == 1,
                            tile_base: (a2 & 0x3FF) as usize,
                            priority: ((a2 >> 10u16) & 3) as u8,
                            palette_bank: ((a2 >> 12u16) & 0xF) as usize,
                            hflip: (a1 >> 12u16) & 1 == 1,
                            vflip: (a1 >> 13u16) & 1 == 1,
                            param_index: ((a1 >> 9u16) & 0x1F) as usize,
                        },
                    )
                }
            },
        }
    }
}

/// The color index of a sprite tile pixel: 4bpp tiles are 32 bytes, 8bpp
/// tiles 64 (two tile numbers); with 1D mapping a sprite's rows follow each
/// other, with 2D mapping rows are 32 tiles apart.
pub open spec fn spec_sample_color_index(
    v: PpuView,
    tile_base: int,
    width_tiles: int,
    tile_row: int,
    tile_col: int,
    pixel_row: int,
    pixel_col: int,
    is_8bpp: bool,
) -> u8 {
    let col_step: int = if is_8bpp {
        2
    } else {
        1
    };
    let tile_number = if v.obj_mapping_1d() {
        tile_base + tile_row * width_tiles * col_step + tile_col * col_step
    } else {
        tile_base + tile_row * 32 + tile_col * col_step
    };
    let tile_addr = v.obj_char_base() + tile_number * 32;
    if is_8bpp {
        v.vram_at(tile_addr + pixel_row * 8 + pixel_col)
    } else {
        let byte = v.vram_at(tile_addr + pixel_row * 4 + pixel_col / 2);
        if pixel_col % 2 == 0 {
            byte & 0xF
        } else {
            byte >> 4u8
        }
    }
}

/// PA, PB, PC, PD of OBJ affine parameter set `index`: attribute 3 of the 4
/// OAM entries starting at `index * 4`.
pub open spec fn spec_obj_affine_params(v: PpuView, index: int) -> (i16, i16, i16, i16) {
    (
        oam_u16(v, index * 32 + 6) as i16,
        oam_u16(v, index * 32 + 14) as i16,
        oam_u16(v, index * 32 + 22) as i16,
        oam_u16(v, index * 32 + 30) as i16,
    )
}

/// The color index a drawn sprite shows at screen column `x` (which lies
/// in its horizontal range).
pub open spec fn spec_sprite_color_index(v: PpuView, s: SpriteInfo, x: int) -> u8 {
    let mh = v.mosaic_obj_size().0;
    let sample_x = if s.mosaic {
        x - x % (mh as int)
    } else {
        x
    };
    let width_tiles = s.w / 8;
    if s.affine {
        let p = spec_obj_affine_params(v, s.param_index as int);
        let dy = s.rel_y - s.bbox_h / 2;
        let dx = (sample_x - s.x) - s.bbox_w / 2;
        let tex_x = (p.0 * dx + p.1 * dy) / 256 + s.w / 2;
        let tex_y = (p.2 * dx + p.3 * dy) / 256 + s.h / 2;
        if tex_x < 0 || tex_x >= s.w || tex_y < 0 || tex_y >= s.h {
            0
        } else {
            spec_sample_color_index(
                v,
                s.tile_base as int,
                width_tiles,
                tex_y / 8,
                tex_x / 8,
                tex_y % 8,
                tex_x % 8,
                s.is_8bpp,
            )
        }
    } else {
        let py = if s.vflip {
            s.h - 1 - s.rel_y
        } else {
            s.rel_y as int
        };
        let d = sample_x - s.x;
        let sample_dx = if d < 0 {
            0
        } else if d > s.w - 1 {
            s.w - 1
        } else {
            d
        };
        let px = if s.hflip {
            s.w - 1 - sample_dx
        } else {
            sample_dx
        };
        spec_sample_color_index(
            v,
            s.tile_base as int,
            width_tiles,
            py / 8,
            px / 8,
            py % 8,
            px % 8,
            s.is_8bpp,
        )
    }
}

/// What OAM entry `i` contributes at screen column `x` of `line`: its
/// color, priority and OBJ mode where it has an opaque pixel there.
pub open spec fn spec_sprite_contrib(v: PpuView, line: u16, i: int, x: int) -> Option<(u16, u8, u16)> {
    match spec_sprite_info(v, line, i) {
        None => None,
        Some(s) => {
            let range = if s.affine {
                s.bbox_w
            } else {
                s.w
            };
            if !(0 <= x < SCREEN_WIDTH) || !(0 <= x - s.x < range) {
                None
            } else {
                let ci = spec_sprite_color_index(v, s, x);
                if ci == 0 {
                    None
                } else {
                    let pi = if s.is_8bpp {
                        ci as int
                    } else {
                        s.palette_bank * 16 + ci
                    };
                    Some((v.obj_palette_color(pi as usize), s.priority, s.obj_mode))
                }
            }
        },
    }
}

/// A pixel and OBJ-window flag after a sprite contribution: OBJ-window
/// sprites only set the flag; others take the pixel when it is empty or
/// their priority is strictly better.
pub open spec fn spec_commit(pixel: Option<(u16, u8, bool)>, win: bool, c: Option<(u16, u8, u16)>) -> (
    Option<(u16, u8, bool)>,
    bool,
) {
    match c {
        None => (pixel, win),
        Some(t) => if t.2 == 2 {
            (pixel, true)
        } else {
            let better = match pixel {
                None => true,
                Some(p) => t.1 < p.1,
            };
            if better {
                (Some((t.0, t.1, t.2 == 1)), win)
            } else {
                (pixel, win)
            }
        },
    }
}

/// Column `x` after OAM entries 0 to k-1 have been drawn.
pub open spec fn spec_sprites_upto(v: PpuView, line: u16, k: int, x: int) -> (
    Option<(u16, u8, bool)>,
    bool,
)
    decreases k,
{
    if k <= 0 {
        (None, false)
    } else {
        let p = spec_sprites_upto(v, line, k - 1, x);
        spec_commit(p.0, p.1, spec_sprite_contrib(v, line, k - 1, x))
    }
}

/// The whole sprite layer at column `x`: nothing when sprites are off.
pub open spec fn spec_sprite_pixel(v: PpuView, line: u16, x: int) -> (Option<(u16, u8, bool)>, bool) {
    if !v.obj_enabled() {
        (None, false)
    } else {
        spec_sprites_upto(v, line, 128, x)
    }
}

fn oam_u16_at(ppu: &Ppu, addr: usize) -> (r: u16)
    requires
        ppu@.wf(),
        addr + 1 < 0x400,
    ensures
        r == oam_u16(ppu@, addr as int),
{
    let oam = ppu.oam();
    oam[addr] as u16 | ((oam[addr + 1] as u16) << 8u16)
}

#[verifier::rlimit(60)]
fn sprite_info(ppu: &Ppu, line: u16, index: usize) -> (r: Option<SpriteInfo>)
    requires
        ppu@.wf(),
        index < 128,
    ensures
        r == spec_sprite_info(ppu@, line, index as int),
        r matches Some(s) ==> {
            &&& 8 <= s.w <= 64
            &&& 8 <= s.h <= 64
            &&& s.bbox_w <= 128
            &&& s.bbox_h <= 128
            &&& 0 <= s.rel_y < s.bbox_h
            &&& -256 <= s.x < 256
            &&& s.param_index < 32
            &&& s.tile_base < 0x400
            &&& s.palette_bank < 16
            &&& s.priority < 4
            &&& s.w % 8 == 0
            &&& s.h % 8 == 0
            &&& !s.affine ==> s.bbox_w == s.w && s.bbox_h == s.h
        },
{
    let base = index * 8;
    let a0 = oam_u16_at(ppu, base);
    let a1 = oam_u16_at(ppu, base + 2);
    let a2 = oam_u16_at(ppu, base + 4);
    let affine = (a0 >> 8u16) & 1 == 1;
    let bit9 = (a0 >> 9u16) & 1 == 1;
    let obj_mode: u16 = (a0 >> 10u16) & 0x3;
    let mosaic = (a0 >> 12u16) & 1 == 1;
    if (!affine && bit9) || obj_mode == 3 {
        return None;
    }
    let dims = shape_size_to_dimensions((a0 >> 14u16) & 0x3, (a1 >> 14u16) & 0x3);
    let (w, h) = match dims {
        Some(d) => d,
        None => {
            return None;
        },
    };
    let double = affine && bit9;
    let bbox_w: i32 = if double {
        w as i32 * 2
    } else {
        w as i32
    };
    let bbox_h: i32 = if double {
        h as i32 * 2
    } else {
        h as i32
    };
    let (_mh, mv) = ppu.mosaic_obj_size();
    assert(line % mv <= line) by (nonlinear_arith)
        requires
            mv >= 1,
    ;
    let sample_line: u16 = if mosaic {
        line - (line % mv)
    } else {
        line
    };
    let y: i32 = (a0 & 0xFF) as i32;
    let rel_y: i32 = ((sample_line as i32 - y + 256) as u32 % 256) as i32;
    if rel_y >= bbox_h {
        return None;
    }
    let x_raw: i32 = (a1 & 0x1FF) as i32;
    let x: i32 = if x_raw >= 256 {
        x_raw - 512
    } else {
        x_raw
    };
    Some(
        SpriteInfo {
            x,
            w: w as i32,
            h: h as i32,
            bbox_w,
            bbox_h,
            rel_y,
            affine,
            obj_mode,
            mosaic,
            is_8bpp: (a0 >> 13u16) & 1 == 1,
            tile_base: (a2 & 0x3FF) as usize,
            priority: ((a2 >> 10u16) & 0x3) as u8,
            palette_bank: ((a2 >> 12u16) & 0xF) as usize,
            hflip: (a1 >> 12u16) & 1 == 1,
            vflip: (a1 >> 13u16) & 1 == 1,
            param_index: ((a1 >> 9u16) & 0x1F) as usize,
        },
    )
}

#[allow(clippy::too_many_arguments)]
pub fn sample_color_index(
    ppu: &Ppu,
    tile_base: usize,
    width_tiles: usize,
    tile_row: usize,
    tile_col: usize,
    pixel_row: usize,
    pixel_col: usize,
    is_8bpp: bool,
) -> (c: u8)
    requires
        ppu@.wf(),
        tile_base < 0x400,
        width_tiles <= 8,
        tile_row < 8,
        tile_col < 8,
        pixel_row < 8,
        pixel_col < 8,
    ensures
        c == spec_sample_color_index(
            ppu@,
            tile_base as int,
            width_tiles as int,
            tile_row as int,
            tile_col as int,
            pixel_row as int,
            pixel_col as int,
            is_8bpp,
        ),
{
    let col_step: usize = if is_8bpp {
        2
    } else {
        1
    };
    assert(tile_row * width_tiles * col_step <= 7 * 8 * 2) by (nonlinear_arith)
        requires
            tile_row < 8,
            width_tiles <= 8,
            col_step <= 2,
    ;
    let tile_number: usize = if ppu.obj_mapping_1d() {
        tile_base + tile_row * width_tiles * col_step + tile_col * col_step
    } else {
        tile_base + tile_row * 32 + tile_col * col_step
    };
    let tile_addr: usize = ppu.obj_char_base() + tile_number * 32;
    if is_8bpp {
        ppu.vram_at(tile_addr + pixel_row * 8 + pixel_col)
    } else {
        let byte = ppu.vram_at(tile_addr + pixel_row * 4 + pixel_col / 2);
        if pixel_col % 2 == 0 {
            byte & 0xF
        } else {
            byte >> 4u8
        }
    }
}

pub fn read_affine_params(ppu: &Ppu, index: usize) -> (r: (i16, i16, i16, i16))
    requires
        ppu@.wf(),
        index < 32,
    ensures
        r == spec_obj_affine_params(ppu@, index as int),
{
    let e = index * 32;
    (
        oam_u16_at(ppu, e + 6) as i16,
        oam_u16_at(ppu, e + 14) as i16,
        oam_u16_at(ppu, e + 22) as i16,
        oam_u16_at(ppu, e + 30) as i16,
    )
}

#[verifier::rlimit(80)]
fn sprite_color_index(ppu: &Ppu, s: SpriteInfo, x: i32) -> (c: u8)
    requires
        ppu@.wf(),
        8 <= s.w <= 64,
        8 <= s.h <= 64,
        s.bbox_w <= 128,
        s.bbox_h <= 128,
        0 <= s.rel_y < s.bbox_h,
        -256 <= s.x < 256,
        s.param_index < 32,
        s.tile_base < 0x400,
        0 <= x < SCREEN_WIDTH,
        0 <= x - s.x < (if s.affine {
            s.bbox_w
        } else {
            s.w
        }),
        s.w % 8 == 0,
        s.h % 8 == 0,
        !s.affine ==> s.bbox_w == s.w && s.bbox_h == s.h,
    ensures
        c == spec_sprite_color_index(ppu@, s, x as int),
{
    let (mh, _mv) = ppu.mosaic_obj_size();
    assert(x % (mh as i32) <= x) by (nonlinear_arith)
        requires
            mh >= 1,
            x >= 0,
    ;
    let sample_x: i32 = if s.mosaic {
        x - (x % mh as i32)
    } else {
        x
    };
    let width_tiles: usize = (s.w / 8) as usize;
    if s.affine {
        let (pa, pb, pc, pd) = read_affine_params(ppu, s.param_index);
        let dy: i32 = s.rel_y - s.bbox_h / 2;
        let dx: i32 = (sample_x - s.x) - s.bbox_w / 2;
        assert(-(32768 * 512) <= pa * dx <= 32768 * 512) by (nonlinear_arith)
            requires
                -32768 <= pa <= 32767,
                -512 <= dx <= 512,
        ;
        assert(-(32768 * 512) <= pb * dy <= 32768 * 512) by (nonlinear_arith)
            requires
                -32768 <= pb <= 32767,
                -512 <= dy <= 512,
        ;
        assert(-(32768 * 512) <= pc * dx <= 32768 * 512) by (nonlinear_arith)
            requires
                -32768 <= pc <= 32767,
                -512 <= dx <= 512,
        ;
        assert(-(32768 * 512) <= pd * dy <= 32768 * 512) by (nonlinear_arith)
            requires
                -32768 <= pd <= 32767,
                -512 <= dy <= 512,
        ;
        let tex_x: i32 = floor_div256(pa as i32 * dx + pb as i32 * dy) + s.w / 2;
        let tex_y: i32 = floor_div256(pc as i32 * dx + pd as i32 * dy) + s.h / 2;
        if tex_x < 0 || tex_x >= s.w || tex_y < 0 || tex_y >= s.h {
            return 0;
        }
        sample_color_index(
            ppu,
            s.tile_base,
            width_tiles,
            (tex_y / 8) as usize,
            (tex_x / 8) as usize,
            (tex_y % 8) as usize,
            (tex_x % 8) as usize,
            s.is_8bpp,
        )
    } else {
        let py: i32 = if s.vflip {
            s.h - 1 - s.rel_y
        } else {
            s.rel_y
        };
        let d: i32 = sample_x - s.x;
        let sample_dx: i32 = if d < 0 {
            0
        } else if d > s.w - 1 {
            s.w - 1
        } else {
            d
        };
        let px: i32 = if s.hflip {
            s.w - 1 - sample_dx
        } else {
            sample_dx
        };
        sample_color_index(
            ppu,
            s.tile_base,
            width_tiles,
            (py / 8) as usize,
            (px / 8) as usize,
            (py % 8) as usize,
            (px % 8) as usize,
            s.is_8bpp,
        )
    }
}

/// Commits a sprite contribution to a pixel and its OBJ-window flag.
pub fn commit_pixel(
    out: &mut Vec<Option<(u16, u8, bool)>>,
    obj_window: &mut Vec<bool>,
    x: usize,
    obj_mode: u16,
    color: u16,
    priority: u8,
)
    requires
        x < old(out)@.len(),
        x < old(obj_window)@.len(),
    ensures
        final(out)@ == old(out)@.update(
            x as int,
            spec_commit(
                old(out)@[x as int],
                old(obj_window)@[x as int],
                Some((color, priority, obj_mode)),
            ).0,
        ),
        final(obj_window)@ == old(obj_window)@.update(
            x as int,
            spec_commit(
                old(out)@[x as int],
                old(obj_window)@[x as int],
                Some((color, priority, obj_mode)),
            ).1,
        ),
{
    if obj_mode == 2 {
        obj_window.set(x, true);
        assert(out@ =~= old(out)@.update(x as int, old(out)@[x as int]));
        return;
    }
    let better = match out[x] {
        None => true,
        Some((_, existing, _)) => priority < existing,
    };
    if better {
        out.set(x, Some((color, priority, obj_mode == 1)));
    } else {
        assert(out@ =~= old(out)@.update(x as int, old(out)@[x as int]));
    }
    assert(obj_window@ =~= old(obj_window)@.update(x as int, old(obj_window)@[x as int]));
}

/// Draws OAM entry `index` over the line.
fn draw_sprite(
    ppu: &Ppu,
    line: u16,
    index: usize,
    out: &mut Vec<Option<(u16, u8, bool)>>,
    obj_window: &mut Vec<bool>,
)
    requires
        ppu@.wf(),
        index < 128,
        old(out)@.len() == SCREEN_WIDTH,
        old(obj_window)@.len() == SCREEN_WIDTH,
    ensures
        final(out)@.len() == SCREEN_WIDTH,
        final(obj_window)@.len() == SCREEN_WIDTH,
        forall|x: int|
            0 <= x < SCREEN_WIDTH ==> (#[trigger] final(out)@[x], final(obj_window)@[x])
                == spec_commit(
                old(out)@[x],
                old(obj_window)@[x],
                spec_sprite_contrib(ppu@, line, index as int, x),
            ),
{
    let info = sprite_info(ppu, line, index);
    let s = match info {
        Some(s) => s,
        None => {
            return;
        },
    };
    let range: i32 = if s.affine {
        s.bbox_w
    } else {
        s.w
    };
    let mut dx: i32 = 0;
    while dx < range
        invariant
            ppu@.wf(),
            index < 128,
            spec_sprite_info(ppu@, line, index as int) == Some(s),
            8 <= s.w <= 64,
            8 <= s.h <= 64,
            s.bbox_w <= 128,
            s.bbox_h <= 128,
            0 <= s.rel_y < s.bbox_h,
            -256 <= s.x < 256,
            s.param_index < 32,
            s.tile_base < 0x400,
            s.palette_bank < 16,
            s.w % 8 == 0,
            s.h % 8 == 0,
            !s.affine ==> s.bbox_w == s.w && s.bbox_h == s.h,
            range == (if s.affine {
                s.bbox_w
            } else {
                s.w
            }),
            0 <= dx <= range,
            out@.len() == SCREEN_WIDTH,
            obj_window@.len() == SCREEN_WIDTH,
            forall|x: int|
                0 <= x < SCREEN_WIDTH ==> (#[trigger] out@[x], obj_window@[x]) == if x - s.x < dx {
                    spec_commit(
                        old(out)@[x],
                        old(obj_window)@[x],
                        spec_sprite_contrib(ppu@, line, index as int, x),
                    )
                } else {
                    (old(out)@[x], old(obj_window)@[x])
                },
        decreases range - dx,
    {
        let screen_x: i32 = s.x + dx;
        if 0 <= screen_x && screen_x < SCREEN_WIDTH as i32 {
            let ci = sprite_color_index(ppu, s, screen_x);
            if ci != 0 {
                let pi: usize = if s.is_8bpp {
                    ci as usize
                } else {
                    s.palette_bank * 16 + ci as usize
                };
                let color = ppu.obj_palette_color(pi);
                commit_pixel(out, obj_window, screen_x as usize, s.obj_mode, color, s.priority);
            }
        }
        dx = dx + 1;
    }
}

/// Renders every sprite's contribution to `line` into `out` and
/// `obj_window`, which are cleared first.
pub fn render_scanline(
    ppu: &Ppu,
    line: u16,
    out: &mut Vec<Option<(u16, u8, bool)>>,
    obj_window: &mut Vec<bool>,
)
    requires
        ppu@.wf(),
    ensures
        final(out)@.len() == SCREEN_WIDTH,
        final(obj_window)@.len() == SCREEN_WIDTH,
        forall|x: int|
            0 <= x < SCREEN_WIDTH ==> (#[trigger] final(out)@[x], final(obj_window)@[x])
                == spec_sprite_pixel(ppu@, line, x),
{
    *out = vec![None; SCREEN_WIDTH];
    *obj_window = vec![false; SCREEN_WIDTH];
    if !ppu.obj_enabled() {
        return;
    }
    let mut index: usize = 0;
    while index < 128
        invariant
            ppu@.wf(),
            ppu@.obj_enabled(),
            index <= 128,
            out@.len() == SCREEN_WIDTH,
            obj_window@.len() == SCREEN_WIDTH,
            forall|x: int|
                0 <= x < SCREEN_WIDTH ==> (#[trigger] out@[x], obj_window@[x])
                    == spec_sprites_upto(ppu@, line, index as int, x),
        decreases 128 - index,
    {
        draw_sprite(ppu, line, index, out, obj_window);
        index = index + 1;
    }
}

} // verus!
