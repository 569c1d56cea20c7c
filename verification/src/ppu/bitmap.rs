//! Bitmap modes 3, 4 and 5: a single framebuffer in VRAM replaces the tiled
//! backgrounds, with BG2's priority.
use vstd::prelude::*;
use crate::ppu::{Ppu, PpuView, SCREEN_WIDTH};

verus! {

pub const MODE5_WIDTH: usize = 160;

pub const MODE5_HEIGHT: usize = 128;

pub const FRAME_1_OFFSET: usize = 0xA000;

/// A little-endian halfword of VRAM (bytes past the end read 0).
pub open spec fn vram_u16(v: PpuView, addr: int) -> u16 {
    (v.vram_at(addr) as u16) | (((v.vram_at(addr + 1) as u16) << 8u16) as u16)
}

pub open spec fn frame_base(v: PpuView) -> int {
    if v.display_frame_select() {
        FRAME_1_OFFSET as int
    } else {
        0
    }
}

/// The pixel a bitmap mode gives column `x` of `line`; where the mode's
/// buffer does not reach (mode 5 past 160x128) the prefilled value `prev`
/// stays.
pub open spec fn spec_bitmap_pixel(v: PpuView, mode: u8, line: u16, x: int, prev: u16) -> u16 {
    if mode == 3 {
        vram_u16(v, line * 480 + x * 2)
    } else if mode == 4 {
        v.palette_color(v.vram_at(frame_base(v) + line * 240 + x) as usize)
    } else if mode == 5 {
        if line >= MODE5_HEIGHT || x >= MODE5_WIDTH {
            prev
        } else {
            vram_u16(v, frame_base(v) + line * 320 + x * 2)
        }
    } else {
        prev
    }
}

pub open spec fn spec_bitmap_line(v: PpuView, mode: u8, line: u16, prev: Seq<u16>) -> Seq<u16> {
    Seq::new(prev.len(), |x: int| spec_bitmap_pixel(v, mode, line, x, prev[x]))
}

fn vram_u16_at(ppu: &Ppu, addr: usize) -> (r: u16)
    requires
        addr < usize::MAX,
    ensures
        r == vram_u16(ppu@, addr as int),
{
    ppu.vram_at(addr) as u16 | ((ppu.vram_at(addr + 1) as u16) << 8u16)
}

/// Renders one scanline of mode 3, 4 or 5 over `out`, which holds the
/// backdrop color beforehand.
pub fn render_scanline(ppu: &Ppu, mode: u8, line: u16, out: &mut Vec<u16>)
    requires
        ppu@.wf(),
        old(out)@.len() == SCREEN_WIDTH,
    ensures
        final(out)@ == spec_bitmap_line(ppu@, mode, line, old(out)@),
{
    if mode == 3 {
        render_mode3(ppu, line, out);
    } else if mode == 4 {
        render_mode4(ppu, line, out);
    } else if mode == 5 {
        render_mode5(ppu, line, out);
    } else {
        assert(out@ =~= spec_bitmap_line(ppu@, mode, line, old(out)@));
    }
}

/// Mode 3: 240x160, one buffer, direct BGR555 color per pixel.
pub fn render_mode3(ppu: &Ppu, line: u16, out: &mut Vec<u16>)
    requires
        ppu@.wf(),
        old(out)@.len() == SCREEN_WIDTH,
    ensures
        final(out)@ == spec_bitmap_line(ppu@, 3, line, old(out)@),
{
    let row_base: usize = line as usize * 480;
    let mut x: usize = 0;
    while x < SCREEN_WIDTH
        invariant
            x <= SCREEN_WIDTH,
            row_base == line * 480,
            out@.len() == SCREEN_WIDTH,
            forall|i: int|
                0 <= i < x ==> #[trigger] out@[i] == spec_bitmap_pixel(ppu@, 3, line, i, old(out)@[i]),
        decreases SCREEN_WIDTH - x,
    {
        out.set(x, vram_u16_at(ppu, row_base + x * 2));
        x = x + 1;
    }
    assert(out@ =~= spec_bitmap_line(ppu@, 3, line, old(out)@));
}

/// Mode 4: 240x160, double-buffered, 8-bit index into the BG palette.
pub fn render_mode4(ppu: &Ppu, line: u16, out: &mut Vec<u16>)
    requires
        ppu@.wf(),
        old(out)@.len() == SCREEN_WIDTH,
    ensures
        final(out)@ == spec_bitmap_line(ppu@, 4, line, old(out)@),
{
    let base: usize = if ppu.display_frame_select() {
        FRAME_1_OFFSET
    } else {
        0
    };
    let row_base: usize = base + line as usize * 240;
    let mut x: usize = 0;
    while x < SCREEN_WIDTH
        invariant
            ppu@.wf(),
            x <= SCREEN_WIDTH,
            row_base == frame_base(ppu@) + line * 240,
            out@.len() == SCREEN_WIDTH,
            forall|i: int|
                0 <= i < x ==> #[trigger] out@[i] == spec_bitmap_pixel(ppu@, 4, line, i, old(out)@[i]),
        decreases SCREEN_WIDTH - x,
    {
        let index = ppu.vram_at(row_base + x) as usize;
        out.set(x, ppu.palette_color(index));
        x = x + 1;
    }
    assert(out@ =~= spec_bitmap_line(ppu@, 4, line, old(out)@));
}

/// Mode 5: 160x128, double-buffered, direct color; the rest of the line
/// keeps the backdrop.
pub fn render_mode5(ppu: &Ppu, line: u16, out: &mut Vec<u16>)
    requires
        ppu@.wf(),
        old(out)@.len() == SCREEN_WIDTH,
    ensures
        final(out)@ == spec_bitmap_line(ppu@, 5, line, old(out)@),
{
    if line as usize >= MODE5_HEIGHT {
        assert(out@ =~= spec_bitmap_line(ppu@, 5, line, old(out)@));
        return;
    }
    let base: usize = if ppu.display_frame_select() {
        FRAME_1_OFFSET
    } else {
        0
    };
    let row_base: usize = base + line as usize * 320;
    let mut x: usize = 0;
    while x < MODE5_WIDTH
        invariant
            ppu@.wf(),
            line < MODE5_HEIGHT,
            x <= MODE5_WIDTH,
            row_base == frame_base(ppu@) + line * 320,
            out@.len() == SCREEN_WIDTH,
            forall|i: int|
                0 <= i < x ==> #[trigger] out@[i] == spec_bitmap_pixel(ppu@, 5, line, i, old(out)@[i]),
            forall|i: int| x <= i < SCREEN_WIDTH ==> #[trigger] out@[i] == old(out)@[i],
        decreases MODE5_WIDTH - x,
    {
        out.set(x, vram_u16_at(ppu, row_base + x * 2));
        x = x + 1;
    }
    assert(out@ =~= spec_bitmap_line(ppu@, 5, line, old(out)@));
}

} // verus!
