//! Affine (rotated and scaled) backgrounds: BG2 in mode 1, BG2 and BG3 in
//! mode 2. They use one 256-color palette, 1-byte map entries, square maps
//! of 128 to 1024 pixels, and either wrap or turn transparent outside the
//! map (BGxCNT bit 13). The reference point is taken as constant for the
//! frame.
use vstd::prelude::*;
use crate::ppu::{Ppu, PpuView, SCREEN_WIDTH};
use crate::ppu::background::spec_bg_mosaic;

verus! {

/// `x >> 8` on a signed value: division by 256 rounding down.
pub fn floor_div256(x: i32) -> (r: i32)
    ensures
        r == x as int / 256,
{
    let shifted: u64 = (x as i64 + 0x8000_0000) as u64;
    assert((x + 0x8000_0000) / 256 == x / 256 + 0x80_0000) by (nonlinear_arith);
    ((shifted / 256) as i64 - 0x80_0000) as i32
}

/// Euclidean remainder by a power of two from 128 to 1024.
pub fn rem_pow2(x: i32, m: i32) -> (r: i32)
    requires
        m == 128 || m == 256 || m == 512 || m == 1024,
    ensures
        r == x as int % m as int,
        0 <= r < m,
{
    let shifted: u64 = (x as i64 + 0x8000_0000) as u64;
    assert((x + 0x8000_0000) % (m as int) == (x as int) % (m as int)) by (nonlinear_arith)
        requires
            m == 128 || m == 256 || m == 512 || m == 1024,
    ;
    (shifted % (m as u64)) as i32
}

/// The side of an affine map in pixels for a 2-bit size.
pub open spec fn spec_affine_size_px(size: u8) -> usize {
    if size == 0 {
        128
    } else if size == 1 {
        256
    } else if size == 2 {
        512
    } else {
        1024
    }
}

pub fn affine_size_px(size: u8) -> (r: usize)
    ensures
        r == spec_affine_size_px(size),
{
    if size == 0 {
        128
    } else if size == 1 {
        256
    } else if size == 2 {
        512
    } else {
        1024
    }
}

/// The texture coordinates screen pixel `x` of `line` maps to: the
/// reference point plus the matrix applied to the (mosaic-snapped) screen
/// position, in whole pixels.
pub open spec fn spec_tex(v: PpuView, bg: usize, line: u16, x: int) -> (int, int) {
    let p = v.bg_affine_params(bg);
    let r = v.bg_affine_reference(bg);
    let mosaic = spec_bg_mosaic(v, bg);
    let sy = line - (line as int) % (mosaic.1 as int);
    let sx = x - x % (mosaic.0 as int);
    ((r.0 + sx * p.0 + sy * p.1) / 256, (r.1 + sx * p.2 + sy * p.3) / 256)
}

/// Background `bg`'s pixel at column `x` of `line`: `None` outside a
/// non-wrapping map or where the color index is 0.
pub open spec fn spec_affine_pixel(v: PpuView, bg: usize, line: u16, x: int) -> Option<u16> {
    if !v.bg_enabled(bg) {
        None
    } else {
        let size = spec_affine_size_px(v.bg_screen_size(bg)) as int;
        let t = spec_tex(v, bg, line, x);
        let inside = 0 <= t.0 < size && 0 <= t.1 < size;
        if !v.bg_affine_wraps(bg) && !inside {
            None
        } else {
            let px = if v.bg_affine_wraps(bg) {
                t.0 % size
            } else {
                t.0
            };
            let py = if v.bg_affine_wraps(bg) {
                t.1 % size
            } else {
                t.1
            };
            let map_addr = v.bg_screen_base(bg) + (py / 8) * (size / 8) + px / 8;
            let tile_index = v.vram_at(map_addr);
            let color_index = v.vram_at(v.bg_char_base(bg) + tile_index * 64 + (py % 8) * 8 + px % 8);
            if color_index == 0 {
                None
            } else {
                Some(v.palette_color(color_index as usize))
            }
        }
    }
}

pub open spec fn spec_affine_line(v: PpuView, bg: usize, line: u16) -> Seq<Option<u16>> {
    Seq::new(SCREEN_WIDTH as nat, |x: int| spec_affine_pixel(v, bg, line, x))
}

#[verifier::rlimit(60)]
fn affine_pixel(ppu: &Ppu, bg: usize, line: u16, x: usize) -> (c: Option<u16>)
    requires
        ppu@.wf(),
        bg < 4,
        line < 228,
        x < SCREEN_WIDTH,
        ppu@.bg_enabled(bg),
    ensures
        c == spec_affine_pixel(ppu@, bg, line, x as int),
{
    let (pa, pb, pc, pd) = ppu.bg_affine_params(bg);
    let (ref_x, ref_y) = ppu.bg_affine_reference(bg);
    let size_px: i32 = affine_size_px(ppu.bg_screen_size(bg)) as i32;
    let wraps = ppu.bg_affine_wraps(bg);
    let (mosaic_h, mosaic_v) = if ppu.bg_mosaic_enabled(bg) {
        ppu.mosaic_bg_size()
    } else {
        (1u16, 1u16)
    };
    assert(line % mosaic_v <= line) by (nonlinear_arith)
        requires
            mosaic_v >= 1,
    ;
    assert(x % (mosaic_h as usize) <= x) by (nonlinear_arith)
        requires
            mosaic_h >= 1,
    ;
    let sy: i32 = (line - (line % mosaic_v)) as i32;
    let sx: i32 = (x - (x % mosaic_h as usize)) as i32;
    assert(-(239 * 32768) <= sx * pa <= 239 * 32768) by (nonlinear_arith)
        requires
            0 <= sx <= 239,
            -32768 <= pa <= 32767,
    ;
    assert(-(239 * 32768) <= sx * pc <= 239 * 32768) by (nonlinear_arith)
        requires
            0 <= sx <= 239,
            -32768 <= pc <= 32767,
    ;
    assert(-(227 * 32768) <= sy * pb <= 227 * 32768) by (nonlinear_arith)
        requires
            0 <= sy <= 227,
            -32768 <= pb <= 32767,
    ;
    assert(-(227 * 32768) <= sy * pd <= 227 * 32768) by (nonlinear_arith)
        requires
            0 <= sy <= 227,
            -32768 <= pd <= 32767,
    ;
    let tex_x = floor_div256(ref_x + sx * pa as i32 + sy * pb as i32);
    let tex_y = floor_div256(ref_y + sx * pc as i32 + sy * pd as i32);
    let px: i32;
    let py: i32;
    if wraps {
        px = rem_pow2(tex_x, size_px);
        py = rem_pow2(tex_y, size_px);
    } else if 0 <= tex_x && tex_x < size_px && 0 <= tex_y && tex_y < size_px {
        px = tex_x;
        py = tex_y;
    } else {
        return None;
    }
    let map_tiles: usize = (size_px / 8) as usize;
    let tile_col: usize = (px as usize) / 8;
    let tile_row: usize = (py as usize) / 8;
    let pixel_col: usize = (px as usize) % 8;
    let pixel_row: usize = (py as usize) % 8;
    assert(tile_row * map_tiles <= 127 * 128) by (nonlinear_arith)
        requires
            tile_row < 128,
            map_tiles <= 128,
    ;
    let map_addr: usize = ppu.bg_screen_base(bg) + tile_row * map_tiles + tile_col;
    let tile_index: usize = ppu.vram_at(map_addr) as usize;
    let color_index: usize = ppu.vram_at(
        ppu.bg_char_base(bg) + tile_index * 64 + pixel_row * 8 + pixel_col,
    ) as usize;
    if color_index == 0 {
        None
    } else {
        Some(ppu.palette_color(color_index))
    }
}

/// Renders one affine background's scanline into `out`, overwriting every
/// pixel.
pub fn render_scanline(ppu: &Ppu, bg: usize, line: u16, out: &mut Vec<Option<u16>>)
    requires
        ppu@.wf(),
        bg < 4,
        line < 228,
        old(out)@.len() == SCREEN_WIDTH,
    ensures
        final(out)@ == spec_affine_line(ppu@, bg, line),
{
    let enabled = ppu.bg_enabled(bg);
    let mut x: usize = 0;
    while x < SCREEN_WIDTH
        invariant
            ppu@.wf(),
            bg < 4,
            line < 228,
            enabled == ppu@.bg_enabled(bg),
            x <= SCREEN_WIDTH,
            out@.len() == SCREEN_WIDTH,
            forall|i: int| 0 <= i < x ==> #[trigger] out@[i] == spec_affine_pixel(ppu@, bg, line, i),
        decreases SCREEN_WIDTH - x,
    {
        if !enabled {
            out.set(x, None);
        } else {
            let c = affine_pixel(ppu, bg, line, x);
            out.set(x, c);
        }
        x = x + 1;
    }
    assert(out@ =~= spec_affine_line(ppu@, bg, line));
}

} // verus!
