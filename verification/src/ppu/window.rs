//! Per-pixel window masking: which layers are visible, and whether color
//! effects may apply, at a screen pixel.
use vstd::prelude::*;
use crate::ppu::{Ppu, PpuView};

verus! {

broadcast use crate::bits::group_bits;

/// Bit layout of WININ/WINOUT's per-window enable byte: bits 0-3 = BG0-3,
/// bit 4 = OBJ, bit 5 = color special effect.
pub open spec fn bg_bit(bg: usize) -> u8 {
    (1u8 << (bg as u8)) as u8
}

pub const OBJ_BIT: u8 = 0x10;

pub const BLEND_BIT: u8 = 0x20;

pub fn bg_bit_of(bg: usize) -> (b: u8)
    requires
        bg < 4,
    ensures
        b == bg_bit(bg),
{
    1u8 << (bg as u8)
}

pub open spec fn in_rect(r: (usize, usize, usize, usize), x: usize, y: usize) -> bool {
    r.0 <= x < r.1 && r.2 <= y < r.3
}

/// The layer mask at screen (x, y): WIN0 first, then WIN1, then WINOBJ
/// (where an OBJ-window sprite covers the pixel), else the outside byte.
/// With no window enabled everything is visible.
pub open spec fn spec_layer_mask(v: PpuView, x: usize, y: usize, in_obj_window: bool) -> u8 {
    if !v.any_window_enabled() {
        0x3F
    } else if v.win0_enabled() && in_rect(v.win0_bounds(), x, y) {
        (v.winin() & 0xFF) as u8
    } else if v.win1_enabled() && in_rect(v.win1_bounds(), x, y) {
        (v.winin() >> 8u16) as u8
    } else if v.winobj_enabled() && in_obj_window {
        (v.winout() >> 8u16) as u8
    } else {
        (v.winout() & 0xFF) as u8
    }
}

pub fn layer_mask(ppu: &Ppu, x: usize, y: usize, in_obj_window: bool) -> (m: u8)
    requires
        ppu@.wf(),
    ensures
        m == spec_layer_mask(ppu@, x, y, in_obj_window),
{
    if !ppu.any_window_enabled() {
        return 0x3F;
    }
    if ppu.win0_enabled() {
        let (x1, x2, y1, y2) = ppu.win0_bounds();
        if x1 <= x && x < x2 && y1 <= y && y < y2 {
            return (ppu.winin() & 0xFF) as u8;
        }
    }
    if ppu.win1_enabled() {
        let (x1, x2, y1, y2) = ppu.win1_bounds();
        if x1 <= x && x < x2 && y1 <= y && y < y2 {
            return (ppu.winin() >> 8u16) as u8;
        }
    }
    if ppu.winobj_enabled() && in_obj_window {
        return (ppu.winout() >> 8u16) as u8;
    }
    (ppu.winout() & 0xFF) as u8
}

} // verus!
