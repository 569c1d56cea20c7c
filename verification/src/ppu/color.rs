//! BGR555 to RGBA8888 conversion for display.
use vstd::prelude::*;

verus! {

broadcast use crate::bits::group_bits;

/// A 5-bit channel widened to 8 bits by replicating its top bits into the
/// low bits, so 0x1F maps to 0xFF exactly.
pub open spec fn spec_scale5(c: u8) -> u8 {
    ((c << 3u8) as u8) | (c >> 2u8)
}

fn scale5(c: u8) -> (r: u8)
    requires
        c < 32,
    ensures
        r == spec_scale5(c),
{
    (c << 3u8) | (c >> 2u8)
}

/// A GBA 15-bit color (0BBBBBGGGGGRRRRR) as 8-bit-per-channel RGBA with
/// full alpha.
pub open spec fn spec_bgr555_to_rgba8888(color: u16) -> Seq<u8> {
    seq![
        spec_scale5((color & 0x1F) as u8),
        spec_scale5(((color >> 5u16) & 0x1F) as u8),
        spec_scale5(((color >> 10u16) & 0x1F) as u8),
        255u8,
    ]
}

pub fn bgr555_to_rgba8888(color: u16) -> (rgba: [u8; 4])
    ensures
        rgba@ == spec_bgr555_to_rgba8888(color),
{
    let r5: u8 = (color & 0x1F) as u8;
    let g5: u8 = ((color >> 5u16) & 0x1F) as u8;
    let b5: u8 = ((color >> 10u16) & 0x1F) as u8;
    let out = [scale5(r5), scale5(g5), scale5(b5), 255u8];
    assert(out@ =~= spec_bgr555_to_rgba8888(color));
    out
}

/// The full-intensity channel value maps to 0xFF and zero to zero.
pub proof fn lemma_scale5_endpoints()
    ensures
        spec_scale5(0x1F) == 0xFF,
        spec_scale5(0) == 0,
{
    assert(((0x1Fu8 << 3u8) as u8) | (0x1Fu8 >> 2u8) == 0xFF) by (bit_vector);
    assert(((0u8 << 3u8) as u8) | (0u8 >> 2u8) == 0) by (bit_vector);
}

} // verus!
