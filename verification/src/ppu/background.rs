//! Text-mode (tiled, scrolling) backgrounds.
use vstd::prelude::*;
use crate::ppu::{Ppu, PpuView, SCREEN_WIDTH};

verus! {

broadcast use crate::bits::group_bits;

/// 8x8 pixels at 4 bits per pixel.
pub const TILE_SIZE_4BPP: usize = 32;

/// 8x8 pixels at 8 bits per pixel.
pub const TILE_SIZE_8BPP: usize = 64;

/// One 32x32-tile map screen.
pub const SCREEN_BLOCK_SIZE: usize = 0x800;

/// Map width and height in tiles for a 2-bit screen size.
pub open spec fn spec_screen_size_in_tiles(size: u8) -> (usize, usize) {
    if size == 0 {
        (32, 32)
    } else if size == 1 {
        (64, 32)
    } else if size == 2 {
        (32, 64)
    } else {
        (64, 64)
    }
}

pub fn screen_size_in_tiles(size: u8) -> (r: (usize, usize))
    ensures
        r == spec_screen_size_in_tiles(size),
{
    if size == 0 {
        (32, 32)
    } else if size == 1 {
        (64, 32)
    } else if size == 2 {
        (32, 64)
    } else {
        (64, 64)
    }
}

/// Larger maps are made of adjacent 32x32-tile screen blocks; the index of
/// block (block_col, block_row) for each size.
pub open spec fn spec_screen_block_index(size: u8, block_col: usize, block_row: usize) -> usize {
    if size == 0 {
        0
    } else if size == 1 {
        block_col
    } else if size == 2 {
        block_row
    } else if size == 3 {
        (block_row * 2 + block_col) as usize
    } else {
        0
    }
}

pub fn screen_block_index(size: u8, block_col: usize, block_row: usize) -> (r: usize)
    requires
        block_col < 2,
        block_row < 2,
    ensures
        r == spec_screen_block_index(size, block_col, block_row),
        r < 4,
{
    if size == 0 {
        0
    } else if size == 1 {
        block_col
    } else if size == 2 {
        block_row
    } else if size == 3 {
        block_row * 2 + block_col
    } else {
        0
    }
}

/// The mosaic block of a background: (1, 1) when its mosaic is off.
pub open spec fn spec_bg_mosaic(v: PpuView, bg: usize) -> (u16, u16) {
    if v.bg_mosaic_enabled(bg) {
        v.mosaic_bg_size()
    } else {
        (1, 1)
    }
}

/// The color of background `bg` at column `x` of `line`, or `None` where
/// the pixel is transparent (color index 0) or its map entry lies past
/// VRAM. Mosaic snaps the sampled position to the block's corner before
/// scrolling.
pub open spec fn spec_text_color(v: PpuView, bg: usize, line: u16, x: int) -> Option<u16> {
    let size = v.bg_screen_size(bg);
    let tiles = spec_screen_size_in_tiles(size);
    let map_px_w = tiles.0 * 8;
    let map_px_h = tiles.1 * 8;
    let mosaic = spec_bg_mosaic(v, bg);
    let sample_line = line - (line as int) % (mosaic.1 as int);
    let y = (sample_line + v.bg_vofs(bg)) % (map_px_h as int);
    let tile_row = y / 8;
    let pixel_row = y % 8;
    let sample_x = x - x % (mosaic.0 as int);
    let xw = (sample_x + v.bg_hofs(bg)) % (map_px_w as int);
    let tile_col = xw / 8;
    let pixel_col = xw % 8;
    let block = spec_screen_block_index(size, (tile_col / 32) as usize, (tile_row / 32) as usize);
    let entry_addr = v.bg_screen_base(bg) + block * 0x800 + ((tile_row % 32) * 32 + tile_col % 32)
        * 2;
    if entry_addr + 1 >= v.vram.len() {
        None
    } else {
        let entry = (v.vram[entry_addr] as u16) | (((v.vram[entry_addr + 1] as u16) << 8u16) as u16);
        let tile_index = entry & 0x3FF;
        let px = if entry & 0x0400 != 0 {
            7 - pixel_col
        } else {
            pixel_col
        };
        let py = if entry & 0x0800 != 0 {
            7 - pixel_row
        } else {
            pixel_row
        };
        let bank = (entry >> 12u16) & 0xF;
        let color_index: int = if v.bg_is_8bpp(bg) {
            v.vram_at(v.bg_char_base(bg) + tile_index * 64 + py * 8 + px) as int
        } else {
            let byte = v.vram_at(v.bg_char_base(bg) + tile_index * 32 + py * 4 + px / 2);
            if px % 2 == 0 {
                (byte & 0xF) as int
            } else {
                (byte >> 4u8) as int
            }
        };
        if color_index == 0 {
            None
        } else {
            let palette_index = if v.bg_is_8bpp(bg) {
                color_index
            } else {
                bank * 16 + color_index
            };
            Some(v.palette_color(palette_index as usize))
        }
    }
}

/// A text background's scanline over `prev`: a disabled background is
/// fully transparent; otherwise opaque pixels are drawn and transparent
/// ones keep `prev`.
pub open spec fn spec_text_pixel(v: PpuView, bg: usize, line: u16, x: int, prev: Option<u16>) -> Option<u16> {
    if !v.bg_enabled(bg) {
        None
    } else {
        match spec_text_color(v, bg, line, x) {
            Some(c) => Some(c),
            None => prev,
        }
    }
}

pub open spec fn spec_text_line(v: PpuView, bg: usize, line: u16, prev: Seq<Option<u16>>) -> Seq<
    Option<u16>,
> {
    Seq::new(prev.len(), |x: int| spec_text_pixel(v, bg, line, x, prev[x]))
}

#[verifier::rlimit(50)]
fn text_color(ppu: &Ppu, bg: usize, line: u16, x: usize) -> (c: Option<u16>)
    requires
        ppu@.wf(),
        bg < 4,
        x < SCREEN_WIDTH,
    ensures
        c == spec_text_color(ppu@, bg, line, x as int),
{
    let size = ppu.bg_screen_size(bg);
    let (tiles_w, tiles_h) = screen_size_in_tiles(size);
    let map_px_w: usize = tiles_w * 8;
    let map_px_h: usize = tiles_h * 8;
    let (mosaic_h, mosaic_v) = if ppu.bg_mosaic_enabled(bg) {
        ppu.mosaic_bg_size()
    } else {
        (1u16, 1u16)
    };
    assert(line % mosaic_v <= line) by (nonlinear_arith)
        requires
            mosaic_v >= 1,
    ;
    assert(x % (mosaic_h as usize) <= x) by (nonlinear_arith)
        requires
            mosaic_h >= 1,
    ;
    let sample_line: u16 = line - (line % mosaic_v);
    let y: usize = (sample_line as usize + ppu.bg_vofs(bg) as usize) % map_px_h;
    let tile_row: usize = y / 8;
    let pixel_row: usize = y % 8;
    let sample_x: usize = x - (x % mosaic_h as usize);
    let xw: usize = (sample_x + ppu.bg_hofs(bg) as usize) % map_px_w;
    let tile_col: usize = xw / 8;
    let pixel_col: usize = xw % 8;
    let block = screen_block_index(size, tile_col / 32, tile_row / 32);
    let entry_addr: usize = ppu.bg_screen_base(bg) + block * 0x800 + ((tile_row % 32) * 32
        + tile_col % 32) * 2;
    if entry_addr + 1 >= ppu.vram().len() {
        return None;
    }
    let vram = ppu.vram();
    let entry: u16 = vram[entry_addr] as u16 | ((vram[entry_addr + 1] as u16) << 8u16);
    let tile_index: usize = (entry & 0x3FF) as usize;
    let px: usize = if entry & 0x0400 != 0 {
        7 - pixel_col
    } else {
        pixel_col
    };
    let py: usize = if entry & 0x0800 != 0 {
        7 - pixel_row
    } else {
        pixel_row
    };
    let bank: usize = ((entry >> 12u16) & 0xF) as usize;
    let is_8bpp = ppu.bg_is_8bpp(bg);
    let char_base = ppu.bg_char_base(bg);
    let color_index: usize = if is_8bpp {
        ppu.vram_at(char_base + tile_index * 64 + py * 8 + px) as usize
    } else {
        let byte = ppu.vram_at(char_base + tile_index * 32 + py * 4 + px / 2);
        if px % 2 == 0 {
            (byte & 0xF) as usize
        } else {
            (byte >> 4u8) as usize
        }
    };
    if color_index == 0 {
        return None;
    }
    let palette_index: usize = if is_8bpp {
        color_index
    } else {
        bank * 16 + color_index
    };
    Some(ppu.palette_color(palette_index))
}

/// Renders one text background's scanline into `out`: a disabled
/// background clears the line to transparent; otherwise each opaque pixel
/// is written and transparent ones are left as they were.
pub fn render_scanline(ppu: &Ppu, bg: usize, line: u16, out: &mut Vec<Option<u16>>)
    requires
        ppu@.wf(),
        bg < 4,
        old(out)@.len() == SCREEN_WIDTH,
    ensures
        final(out)@ == spec_text_line(ppu@, bg, line, old(out)@),
{
    let enabled = ppu.bg_enabled(bg);
    let mut x: usize = 0;
    while x < SCREEN_WIDTH
        invariant
            ppu@.wf(),
            bg < 4,
            enabled == ppu@.bg_enabled(bg),
            x <= SCREEN_WIDTH,
            out@.len() == SCREEN_WIDTH,
            forall|i: int|
                0 <= i < x ==> #[trigger] out@[i] == spec_text_pixel(ppu@, bg, line, i, old(out)@[i]),
            forall|i: int| x <= i < SCREEN_WIDTH ==> #[trigger] out@[i] == old(out)@[i],
        decreases SCREEN_WIDTH - x,
    {
        if !enabled {
            out.set(x, None);
        } else {
            match text_color(ppu, bg, line, x) {
                Some(c) => {
                    out.set(x, Some(c));
                },
                None => {},
            }
        }
        x = x + 1;
    }
    assert(out@ =~= spec_text_line(ppu@, bg, line, old(out)@));
}


/// Where a text background's scanline `line` falls within its tile: the
/// row (0-7) inside the tile, after mosaic and vertical scrolling.
pub open spec fn text_row_in_tile(v: PpuView, bg: usize, line: u16) -> int {
    let tiles = spec_screen_size_in_tiles(v.bg_screen_size(bg));
    let mv = spec_bg_mosaic(v, bg).1 as int;
    ((line - (line as int) % mv + v.bg_vofs(bg)) % ((tiles.1 * 8) as int)) % 8
}

/// The column (0-7) inside its tile that screen column `x` samples.
pub open spec fn text_col_in_tile(v: PpuView, bg: usize, x: int) -> int {
    let tiles = spec_screen_size_in_tiles(v.bg_screen_size(bg));
    let mh = spec_bg_mosaic(v, bg).0 as int;
    ((x - x % mh + v.bg_hofs(bg)) % ((tiles.0 * 8) as int)) % 8
}

/// The tile map entry that pixel `(x, line)` of a text background uses, or
/// `None` when it would lie past VRAM.
pub open spec fn spec_text_entry(v: PpuView, bg: usize, line: u16, x: int) -> Option<u16> {
    let size = v.bg_screen_size(bg);
    let tiles = spec_screen_size_in_tiles(size);
    let mosaic = spec_bg_mosaic(v, bg);
    let y = (line - (line as int) % (mosaic.1 as int) + v.bg_vofs(bg)) % ((tiles.1 * 8) as int);
    let xw = (x - x % (mosaic.0 as int) + v.bg_hofs(bg)) % ((tiles.0 * 8) as int);
    let block = spec_screen_block_index(size, (xw / 8 / 32) as usize, (y / 8 / 32) as usize);
    let addr = v.bg_screen_base(bg) + block * 0x800 + (((y / 8) % 32) * 32 + (xw / 8) % 32) * 2;
    if addr + 1 >= v.vram.len() {
        None
    } else {
        Some((v.vram[addr] as u16) | (((v.vram[addr + 1] as u16) << 8u16) as u16))
    }
}

/// The color a tile map entry's tile shows at `(row, col)` of the tile as
/// stored in VRAM (no flipping): 8bpp tiles index the palette directly,
/// 4bpp ones through the entry's palette bank (bits 12-15), and color
/// index 0 is transparent.
pub open spec fn tile_texel(v: PpuView, bg: usize, entry: u16, row: int, col: int) -> Option<u16> {
    let tile = (entry & 0x3FF) as int;
    let ci: int = if v.bg_is_8bpp(bg) {
        v.vram_at(v.bg_char_base(bg) + tile * 64 + row * 8 + col) as int
    } else {
        let byte = v.vram_at(v.bg_char_base(bg) + tile * 32 + row * 4 + col / 2);
        if col % 2 == 0 {
            (byte & 0xF) as int
        } else {
            (byte >> 4u8) as int
        }
    };
    if ci == 0 {
        None
    } else if v.bg_is_8bpp(bg) {
        Some(v.palette_color(ci as usize))
    } else {
        Some(v.palette_color((((entry >> 12u16) & 0xF) as int * 16 + ci) as usize))
    }
}

/// Tile flipping: a text-background pixel whose map entry has bit 11 set
/// (vertical flip) shows its tile's row `7 - r` instead of row `r`, and bit
/// 10 (horizontal flip) likewise mirrors the column; with neither bit set
/// the tile is sampled where the pixel falls.
pub proof fn lemma_text_flip(v: PpuView, bg: usize, line: u16, x: int)
    requires
        v.wf(),
        bg < 4,
    ensures
        ({
            let r = text_row_in_tile(v, bg, line);
            let c = text_col_in_tile(v, bg, x);
            let e = spec_text_entry(v, bg, line, x);
            &&& e is None ==> spec_text_color(v, bg, line, x) is None
            &&& e matches Some(en) ==> spec_text_color(v, bg, line, x) == tile_texel(
                v,
                bg,
                en,
                if en & 0x0800 != 0 {
                    7 - r
                } else {
                    r
                },
                if en & 0x0400 != 0 {
                    7 - c
                } else {
                    c
                },
            )
        }),
{
}

} // verus!
