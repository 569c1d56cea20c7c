//! Color special effects: alpha blending of two BGR555 colors and
//! brightness increase or decrease of one. The coefficients EVA, EVB and
//! EVY are in 1/16ths, as on the hardware.
use vstd::prelude::*;

verus! {

broadcast use crate::bits::group_bits;

pub open spec fn spec_combine(r: u16, g: u16, b: u16) -> u16 {
    r | ((g << 5u16) as u16) | ((b << 10u16) as u16)
}

pub open spec fn spec_min31(x: int) -> u16 {
    if x < 31 {
        x as u16
    } else {
        31
    }
}

pub open spec fn spec_mix(a: u16, b: u16, eva: u8, evb: u8) -> u16 {
    spec_min31((a * eva + b * evb) / 16)
}

pub open spec fn spec_up(v: u16, evy: u8) -> u16 {
    spec_min31(v + (31 - v) * evy / 16)
}

pub open spec fn spec_down(v: u16, evy: u8) -> u16 {
    let d = v * evy / 16;
    if d > v {
        0
    } else {
        (v - d) as u16
    }
}

pub open spec fn red(c: u16) -> u16 {
    c & 0x1F
}

pub open spec fn green(c: u16) -> u16 {
    (c >> 5u16) & 0x1F
}

pub open spec fn blue(c: u16) -> u16 {
    (c >> 10u16) & 0x1F
}

/// Each channel weighted EVA/16 from the first color and EVB/16 from the
/// second, capped at full intensity.
pub open spec fn spec_alpha_blend(c1: u16, c2: u16, eva: u8, evb: u8) -> u16 {
    spec_combine(
        spec_mix(red(c1), red(c2), eva, evb),
        spec_mix(green(c1), green(c2), eva, evb),
        spec_mix(blue(c1), blue(c2), eva, evb),
    )
}

/// Each channel moved EVY/16 of the way to white.
pub open spec fn spec_brightness_increase(c: u16, evy: u8) -> u16 {
    spec_combine(spec_up(red(c), evy), spec_up(green(c), evy), spec_up(blue(c), evy))
}

/// Each channel moved EVY/16 of the way to black.
pub open spec fn spec_brightness_decrease(c: u16, evy: u8) -> u16 {
    spec_combine(spec_down(red(c), evy), spec_down(green(c), evy), spec_down(blue(c), evy))
}

pub fn split(c: u16) -> (rgb: (u16, u16, u16))
    ensures
        rgb == (red(c), green(c), blue(c)),
        rgb.0 < 32 && rgb.1 < 32 && rgb.2 < 32,
{
    (c & 0x1F, (c >> 5u16) & 0x1F, (c >> 10u16) & 0x1F)
}

pub fn combine(r: u16, g: u16, b: u16) -> (c: u16)
    ensures
        c == spec_combine(r, g, b),
{
    r | (g << 5u16) | (b << 10u16)
}

fn mix(a: u16, b: u16, eva: u8, evb: u8) -> (m: u16)
    requires
        a < 32,
        b < 32,
    ensures
        m == spec_mix(a, b, eva, evb),
{
    assert(a * eva <= 31 * 255 && b * evb <= 31 * 255) by (nonlinear_arith)
        requires
            a < 32,
            b < 32,
    ;
    let s: u16 = (a * eva as u16 + b * evb as u16) / 16;
    if s < 31 {
        s
    } else {
        31
    }
}

fn up(v: u16, evy: u8) -> (r: u16)
    requires
        v < 32,
    ensures
        r == spec_up(v, evy),
{
    assert((31 - v) * evy <= 31 * 255) by (nonlinear_arith)
        requires
            v < 32,
    ;
    let s: u16 = v + (31 - v) * evy as u16 / 16;
    if s < 31 {
        s
    } else {
        31
    }
}

fn down(v: u16, evy: u8) -> (r: u16)
    requires
        v < 32,
    ensures
        r == spec_down(v, evy),
{
    assert(v * evy <= 31 * 255) by (nonlinear_arith)
        requires
            v < 32,
    ;
    let d: u16 = v * evy as u16 / 16;
    v.saturating_sub(d)
}

pub fn alpha_blend(c1: u16, c2: u16, eva: u8, evb: u8) -> (c: u16)
    ensures
        c == spec_alpha_blend(c1, c2, eva, evb),
{
    let (r1, g1, b1) = split(c1);
    let (r2, g2, b2) = split(c2);
    combine(mix(r1, r2, eva, evb), mix(g1, g2, eva, evb), mix(b1, b2, eva, evb))
}

pub fn brightness_increase(c: u16, evy: u8) -> (r: u16)
    ensures
        r == spec_brightness_increase(c, evy),
{
    let (r, g, b) = split(c);
    combine(up(r, evy), up(g, evy), up(b, evy))
}

pub fn brightness_decrease(c: u16, evy: u8) -> (r: u16)
    ensures
        r == spec_brightness_decrease(c, evy),
{
    let (r, g, b) = split(c);
    combine(down(r, evy), down(g, evy), down(b, evy))
}

/// A zero coefficient leaves a channel unchanged, and the full coefficient
/// drives it to the extreme.
pub proof fn lemma_brightness_endpoints(v: u16)
    requires
        v < 32,
    ensures
        spec_up(v, 0) == v,
        spec_down(v, 0) == v,
        spec_up(v, 16) == 31,
        spec_down(v, 16) == 0,
{
}

/// Full weight on the first color and none on the second leaves each
/// channel as it was.
pub proof fn lemma_alpha_identity(a: u16, b: u16)
    requires
        a < 32,
        b < 32,
    ensures
        spec_mix(a, b, 16, 0) == a,
{
}

} // verus!
