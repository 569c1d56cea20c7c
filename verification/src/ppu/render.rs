//! Scanline composition: which layer shows at each pixel, by priority and
//! window, and the color effects applied to it.
use vstd::prelude::*;
use crate::ppu::{Ppu, PpuView, SCREEN_WIDTH};
use crate::ppu::affine::spec_affine_line;
use crate::ppu::background::spec_text_line;
use crate::ppu::bitmap::spec_bitmap_pixel;
use crate::ppu::blend::{
    alpha_blend, brightness_decrease, brightness_increase, spec_alpha_blend,
    spec_brightness_decrease, spec_brightness_increase,
};
use crate::ppu::sprite::spec_sprite_pixel;
use crate::ppu::window::{bg_bit, bg_bit_of, spec_layer_mask, BLEND_BIT, OBJ_BIT};

verus! {

broadcast use crate::bits::group_bits;

/// A pixel candidate: (layer, color, priority, force_blend), layer 0-3 for
/// BG0-3, 4 for OBJ and 5 for the backdrop, in BLDCNT's bit order.
pub type Candidate = (u8, u16, u8, bool);

/// The backgrounds a video mode uses: mode 0 BG0-3, mode 1 BG0-2, mode 2
/// BG2-3, bitmap modes BG2.
pub open spec fn spec_active_bgs(mode: u8) -> Seq<usize> {
    if mode == 0 {
        seq![0usize, 1, 2, 3]
    } else if mode == 1 {
        seq![0usize, 1, 2]
    } else if mode == 2 {
        seq![2usize, 3]
    } else if mode == 3 || mode == 4 || mode == 5 {
        seq![2usize]
    } else {
        Seq::empty()
    }
}

/// BG2 in mode 1 and BG2-3 in mode 2 are affine.
pub open spec fn spec_is_affine(mode: u8, bg: usize) -> bool {
    (mode == 1 && bg == 2) || (mode == 2 && (bg == 2 || bg == 3))
}

pub open spec fn transparent_line() -> Seq<Option<u16>> {
    Seq::new(SCREEN_WIDTH as nat, |x: int| None::<u16>)
}

/// Background `bg`'s rendered line in the current mode: the bitmap in BG2
/// for the bitmap modes, an affine or text line for the backgrounds the
/// mode uses, transparent otherwise.
pub open spec fn spec_bg_line(v: PpuView, line: u16, bg: usize) -> Seq<Option<u16>> {
    let mode = v.bg_mode();
    if mode == 3 || mode == 4 || mode == 5 {
        if bg == 2 {
            Seq::new(
                SCREEN_WIDTH as nat,
                |x: int| Some(spec_bitmap_pixel(v, mode, line, x, v.palette_color(0))),
            )
        } else {
            transparent_line()
        }
    } else if spec_active_bgs(mode).contains(bg) {
        if spec_is_affine(mode, bg) {
            spec_affine_line(v, bg, line)
        } else {
            spec_text_line(v, bg, line, transparent_line())
        }
    } else {
        transparent_line()
    }
}

/// The visible candidates at a pixel, backgrounds in the mode's order then
/// OBJ, each only where its window bit is set and it is opaque.
pub open spec fn spec_bg_candidates(
    v: PpuView,
    bgs: Seq<usize>,
    lines: Seq<Seq<Option<u16>>>,
    x: int,
    mask: u8,
) -> Seq<Candidate>
    decreases bgs.len(),
{
    if bgs.len() == 0 {
        Seq::empty()
    } else {
        let rest = spec_bg_candidates(v, bgs.drop_last(), lines, x, mask);
        let bg = bgs.last();
        if mask & bg_bit(bg) != 0 && lines[bg as int][x] is Some {
            rest.push((bg as u8, lines[bg as int][x]->0, v.bg_priority(bg), false))
        } else {
            rest
        }
    }
}

pub open spec fn spec_candidates(
    v: PpuView,
    lines: Seq<Seq<Option<u16>>>,
    obj: Option<(u16, u8, bool)>,
    x: int,
    mask: u8,
) -> Seq<Candidate> {
    let bgs = spec_bg_candidates(v, spec_active_bgs(v.bg_mode()), lines, x, mask);
    match obj {
        Some(o) => if mask & OBJ_BIT != 0 {
            bgs.push((4u8, o.0, o.1, o.2))
        } else {
            bgs
        },
        None => bgs,
    }
}

/// The sort key: priority first, then OBJ before BG0 before BG1 and so on.
pub open spec fn spec_key(c: Candidate) -> int {
    c.2 * 8 + (if c.0 == 4 {
        0
    } else {
        c.0 + 1
    })
}

/// The first index below `n` (other than `skip`) with the smallest key, or
/// -1 when there is none.
pub open spec fn spec_argmin(c: Seq<Candidate>, n: int, skip: int) -> int
    decreases n,
{
    if n <= 0 {
        -1
    } else {
        let b = spec_argmin(c, n - 1, skip);
        if n - 1 == skip {
            b
        } else if b == -1 || spec_key(c[n - 1]) < spec_key(c[b]) {
            n - 1
        } else {
            b
        }
    }
}

/// The final color of a pixel: the top candidate (or the backdrop),
/// blended with the second when alpha blending applies (forced by a
/// semi-transparent sprite), or brightened or darkened.
pub open spec fn spec_pixel_color(v: PpuView, cands: Seq<Candidate>, mask: u8) -> u16 {
    let backdrop: Candidate = (5u8, v.palette_color(0), 255u8, false);
    let i1 = spec_argmin(cands, cands.len() as int, -1);
    let i2 = spec_argmin(cands, cands.len() as int, i1);
    let top1 = if i1 >= 0 {
        cands[i1]
    } else {
        backdrop
    };
    let top2 = if i2 >= 0 {
        cands[i2]
    } else {
        backdrop
    };
    let mode = if top1.3 {
        1
    } else {
        v.blend_mode()
    };
    let allowed = mask & BLEND_BIT != 0;
    let ab = v.blend_alpha();
    if mode == 1 && allowed && (top1.3 || v.is_first_target(top1.0 as usize))
        && v.is_second_target(top2.0 as usize) {
        spec_alpha_blend(top1.1, top2.1, ab.0, ab.1)
    } else if mode == 2 && allowed && v.is_first_target(top1.0 as usize) {
        spec_brightness_increase(top1.1, v.blend_brightness())
    } else if mode == 3 && allowed && v.is_first_target(top1.0 as usize) {
        spec_brightness_decrease(top1.1, v.blend_brightness())
    } else {
        top1.1
    }
}

pub open spec fn spec_bg_lines(v: PpuView, line: u16) -> Seq<Seq<Option<u16>>> {
    seq![
        spec_bg_line(v, line, 0),
        spec_bg_line(v, line, 1),
        spec_bg_line(v, line, 2),
        spec_bg_line(v, line, 3),
    ]
}

/// The composited color of column `x` of `line`.
pub open spec fn spec_composite(v: PpuView, line: u16, x: int) -> u16 {
    let obj = spec_sprite_pixel(v, line, x);
    let mask = spec_layer_mask(v, x as usize, line as usize, obj.1);
    spec_pixel_color(v, spec_candidates(v, spec_bg_lines(v, line), obj.0, x, mask), mask)
}

pub fn active_bgs(mode: u8) -> (r: Vec<usize>)
    ensures
        r@ == spec_active_bgs(mode),
        forall|i: int| 0 <= i < r@.len() ==> #[trigger] r@[i] < 4,
{
    let r = if mode == 0 {
        vec![0usize, 1, 2, 3]
    } else if mode == 1 {
        vec![0usize, 1, 2]
    } else if mode == 2 {
        vec![2usize, 3]
    } else if mode == 3 || mode == 4 || mode == 5 {
        vec![2usize]
    } else {
        Vec::new()
    };
    assert(r@ =~= spec_active_bgs(mode));
    r
}

fn key(c: Candidate) -> (k: u16)
    ensures
        k == spec_key(c),
{
    c.2 as u16 * 8 + if c.0 == 4 {
        0
    } else {
        c.0 as u16 + 1
    }
}

fn argmin(c: &Vec<Candidate>, skip: i32) -> (r: i32)
    requires
        c@.len() <= 8,
        -1 <= skip < 8,
    ensures
        r == spec_argmin(c@, c@.len() as int, skip as int),
        -1 <= r < c@.len(),
        r != skip || r == -1,
{
    let mut best: i32 = -1;
    let mut n: usize = 0;
    while n < c.len()
        invariant
            c@.len() <= 8,
            -1 <= skip < 8,
            n <= c@.len(),
            best == spec_argmin(c@, n as int, skip as int),
            -1 <= best < n,
            best != skip || best == -1,
        decreases c@.len() - n,
    {
        if n as i32 == skip {
        } else if best == -1 || key(c[n]) < key(c[best as usize]) {
            best = n as i32;
        }
        n = n + 1;
    }
    best
}

/// Picks the color of one pixel from its candidates.
pub fn pixel_color(ppu: &Ppu, cands: &Vec<Candidate>, mask: u8) -> (c: u16)
    requires
        ppu@.wf(),
        cands@.len() <= 5,
        forall|i: int| 0 <= i < cands@.len() ==> #[trigger] cands@[i].0 < 5,
    ensures
        c == spec_pixel_color(ppu@, cands@, mask),
{
    let backdrop: Candidate = (5u8, ppu.palette_color(0), 255u8, false);
    let i1 = argmin(cands, -1);
    let i2 = argmin(cands, i1);
    let top1: Candidate = if i1 >= 0 {
        cands[i1 as usize]
    } else {
        backdrop
    };
    let top2: Candidate = if i2 >= 0 {
        cands[i2 as usize]
    } else {
        backdrop
    };
    let mode: u8 = if top1.3 {
        1
    } else {
        ppu.blend_mode()
    };
    let allowed = mask & BLEND_BIT != 0;
    let (eva, evb) = ppu.blend_alpha();
    let evy = ppu.blend_brightness();
    if mode == 1 && allowed && (top1.3 || ppu.is_first_target(top1.0 as usize))
        && ppu.is_second_target(top2.0 as usize) {
        alpha_blend(top1.1, top2.1, eva, evb)
    } else if mode == 2 && allowed && ppu.is_first_target(top1.0 as usize) {
        brightness_increase(top1.1, evy)
    } else if mode == 3 && allowed && ppu.is_first_target(top1.0 as usize) {
        brightness_decrease(top1.1, evy)
    } else {
        top1.1
    }
}

pub fn line_of<'a>(
    l0: &'a Vec<Option<u16>>,
    l1: &'a Vec<Option<u16>>,
    l2: &'a Vec<Option<u16>>,
    l3: &'a Vec<Option<u16>>,
    bg: usize,
) -> (l: &'a Vec<Option<u16>>)
    requires
        bg < 4,
    ensures
        l@ == seq![l0@, l1@, l2@, l3@][bg as int],
{
    if bg == 0 {
        l0
    } else if bg == 1 {
        l1
    } else if bg == 2 {
        l2
    } else {
        l3
    }
}

/// The candidates at pixel `x`, in the mode's background order then OBJ.
pub fn candidates(
    ppu: &Ppu,
    bgs: &Vec<usize>,
    l0: &Vec<Option<u16>>,
    l1: &Vec<Option<u16>>,
    l2: &Vec<Option<u16>>,
    l3: &Vec<Option<u16>>,
    obj: Option<(u16, u8, bool)>,
    x: usize,
    mask: u8,
) -> (c: Vec<Candidate>)
    requires
        ppu@.wf(),
        bgs@ == spec_active_bgs(ppu@.bg_mode()),
        forall|i: int| 0 <= i < bgs@.len() ==> #[trigger] bgs@[i] < 4,
        l0@.len() == SCREEN_WIDTH,
        l1@.len() == SCREEN_WIDTH,
        l2@.len() == SCREEN_WIDTH,
        l3@.len() == SCREEN_WIDTH,
        x < SCREEN_WIDTH,
    ensures
        c@ == spec_candidates(ppu@, seq![l0@, l1@, l2@, l3@], obj, x as int, mask),
        c@.len() <= 5,
        forall|i: int| 0 <= i < c@.len() ==> #[trigger] c@[i].0 < 5,
{
    let ghost lines = seq![l0@, l1@, l2@, l3@];
    let mut c: Vec<Candidate> = Vec::new();
    let mut k: usize = 0;
    while k < bgs.len()
        invariant
            ppu@.wf(),
            bgs@ == spec_active_bgs(ppu@.bg_mode()),
            forall|i: int| 0 <= i < bgs@.len() ==> #[trigger] bgs@[i] < 4,
            bgs@.len() <= 4,
            lines == seq![l0@, l1@, l2@, l3@],
            l0@.len() == SCREEN_WIDTH,
            l1@.len() == SCREEN_WIDTH,
            l2@.len() == SCREEN_WIDTH,
            l3@.len() == SCREEN_WIDTH,
            x < SCREEN_WIDTH,
            k <= bgs@.len(),
            c@ == spec_bg_candidates(ppu@, bgs@.subrange(0, k as int), lines, x as int, mask),
            c@.len() <= k,
            forall|i: int| 0 <= i < c@.len() ==> #[trigger] c@[i].0 < 4,
        decreases bgs@.len() - k,
    {
        let bg = bgs[k];
        assert(bgs@.subrange(0, k + 1).drop_last() =~= bgs@.subrange(0, k as int));
        let l = line_of(l0, l1, l2, l3, bg);
        if mask & bg_bit_of(bg) != 0 {
            match l[x] {
                Some(color) => {
                    c.push((bg as u8, color, ppu.bg_priority(bg), false));
                },
                None => {},
            }
        }
        k = k + 1;
    }
    assert(bgs@.subrange(0, bgs@.len() as int) =~= bgs@);
    if mask & OBJ_BIT != 0 {
        match obj {
            Some((color, priority, force)) => {
                c.push((4u8, color, priority, force));
            },
            None => {},
        }
    }
    c
}

} // verus!
