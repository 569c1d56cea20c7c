//! The GBA PPU: VRAM, OAM and palette RAM, the LCD I/O registers, the
//! scanline and dot timing, and the output framebuffer.
//!
//! All 6 video modes render: mode 0 (4 text backgrounds), mode 1 (2 text
//! and 1 affine), mode 2 (2 affine) and the bitmap modes 3, 4 and 5,
//! composited by priority with sprites on top (regular and affine, both
//! mapping modes, 4bpp and 8bpp, all shapes and sizes, semi-transparent and
//! OBJ-window sprites), windows gating each layer's visibility, mosaic, and
//! alpha blending and brightness effects, down to the backdrop color.
//! Mosaic does not apply to the bitmap modes. Each visible scanline is
//! rendered whole when it starts. Interrupt conditions are reported in
//! [`Ppu::tick`]'s result; the PPU raises no interrupt itself.
use vstd::prelude::*;

pub mod affine;
pub mod background;
pub mod bitmap;
pub mod blend;
pub mod color;
pub mod render;
pub mod sprite;
pub mod window;

pub use color::bgr555_to_rgba8888;
use crate::ppu::render::{
    active_bgs, candidates, pixel_color, spec_active_bgs, spec_bg_line, spec_bg_lines,
    spec_composite, spec_is_affine, transparent_line,
};
use crate::ppu::sprite::spec_sprite_pixel;
use crate::ppu::window::{layer_mask, spec_layer_mask};
use crate::ppu::bitmap::spec_bitmap_pixel;

verus! {

broadcast use crate::bits::group_bits;

pub const SCREEN_WIDTH: usize = 240;

pub const SCREEN_HEIGHT: usize = 160;

pub const VRAM_SIZE: usize = 0x18000;

pub const OAM_SIZE: usize = 0x400;

/// First half BG palette, second half OBJ palette.
pub const PALETTE_SIZE: usize = 0x400;

/// Size of the LCD I/O register block (0x04000000..+IO_SIZE).
pub const IO_SIZE: usize = 0x58;

/// 240 dots * 4 cycles.
pub const HDRAW_CYCLES: u32 = 960;

/// 68 dots * 4 cycles.
pub const HBLANK_CYCLES: u32 = 272;

pub const CYCLES_PER_SCANLINE: u32 = HDRAW_CYCLES + HBLANK_CYCLES;

pub const VISIBLE_SCANLINES: u16 = 160;

pub const TOTAL_SCANLINES: u16 = 228;

/// Which PPU conditions newly occurred during a [`Ppu::tick`].
/// `vblank`, `hblank` and `vcounter` are gated by DISPSTAT's IRQ enable
/// bits; `vblank_timing`, `hblank_timing` and `vcounter_raw` are the
/// ungated hardware signals (DMA start timing watches those).
#[derive(Debug, Clone, Copy, PartialEq, Eq, Structural)]
pub struct IrqEvents {
    pub vblank: bool,
    pub hblank: bool,
    pub vcounter: bool,
    pub vblank_timing: bool,
    pub hblank_timing: bool,
    pub vcounter_raw: bool,
}

pub open spec fn no_events() -> IrqEvents {
    IrqEvents {
        vblank: false,
        hblank: false,
        vcounter: false,
        vblank_timing: false,
        hblank_timing: false,
        vcounter_raw: false,
    }
}

impl Default for IrqEvents {
    fn default() -> (e: Self)
        ensures
            e == no_events(),
    {
        IrqEvents {
            vblank: false,
            hblank: false,
            vcounter: false,
            vblank_timing: false,
            hblank_timing: false,
            vcounter_raw: false,
        }
    }
}

/// A 28-bit two's complement value (BGxX/BGxY) held in a u32, as a signed
/// integer.
pub open spec fn spec_sign_extend_28(value: u32) -> i32 {
    let low = value % 0x1000_0000;
    if low >= 0x0800_0000 {
        (low - 0x1000_0000) as i32
    } else {
        low as i32
    }
}

pub fn sign_extend_28(value: u32) -> (r: i32)
    ensures
        r == spec_sign_extend_28(value),
{
    let low: u32 = value % 0x1000_0000;
    if low >= 0x0800_0000 {
        (low as i64 - 0x1000_0000) as i32
    } else {
        low as i32
    }
}

/// A window's bounds (x1, x2, y1, y2) from WINxH/WINxV: an inverted or
/// off-screen right or bottom edge extends to the screen border.
pub open spec fn spec_window_rect(h: u16, v: u16) -> (usize, usize, usize, usize) {
    let x1 = (h >> 8u16) as usize;
    let x2 = (h & 0xFF) as usize;
    let y1 = (v >> 8u16) as usize;
    let y2 = (v & 0xFF) as usize;
    (
        x1,
        if x1 > x2 || x2 > SCREEN_WIDTH {
            SCREEN_WIDTH
        } else {
            x2
        },
        y1,
        if y1 > y2 || y2 > SCREEN_HEIGHT {
            SCREEN_HEIGHT
        } else {
            y2
        },
    )
}

pub fn window_rect(h: u16, v: u16) -> (r: (usize, usize, usize, usize))
    ensures
        r == spec_window_rect(h, v),
{
    let x1 = (h >> 8u16) as usize;
    let mut x2 = (h & 0xFF) as usize;
    if x1 > x2 || x2 > SCREEN_WIDTH {
        x2 = SCREEN_WIDTH;
    }
    let y1 = (v >> 8u16) as usize;
    let mut y2 = (v & 0xFF) as usize;
    if y1 > y2 || y2 > SCREEN_HEIGHT {
        y2 = SCREEN_HEIGHT;
    }
    (x1, x2, y1, y2)
}

pub open spec fn spec_min16(x: u8) -> u8 {
    if x < 16 {
        x
    } else {
        16
    }
}

#[verifier::ext_equal]
pub struct PpuView {
    pub vram: Seq<u8>,
    pub oam: Seq<u8>,
    pub palette: Seq<u8>,
    pub io: Seq<u8>,
    pub scanline: u16,
    pub dot_in_line: u32,
    pub framebuffer: Seq<u16>,
    pub frame_ready: bool,
}

impl PpuView {
    pub open spec fn wf(self) -> bool {
        &&& self.vram.len() == VRAM_SIZE
        &&& self.oam.len() == OAM_SIZE
        &&& self.palette.len() == PALETTE_SIZE
        &&& self.io.len() == IO_SIZE
        &&& self.framebuffer.len() == SCREEN_WIDTH * SCREEN_HEIGHT
        &&& self.scanline < TOTAL_SCANLINES
        &&& self.dot_in_line < CYCLES_PER_SCANLINE
    }

    pub open spec fn in_vblank(self) -> bool {
        self.scanline >= VISIBLE_SCANLINES
    }

    pub open spec fn in_hblank(self) -> bool {
        self.dot_in_line >= HDRAW_CYCLES
    }

    pub open spec fn lyc(self) -> u16 {
        self.io[5] as u16
    }

    pub open spec fn vcounter_match(self) -> bool {
        self.scanline == self.lyc()
    }

    pub open spec fn vblank_irq_enabled(self) -> bool {
        self.io[4] & 0x08 != 0
    }

    pub open spec fn hblank_irq_enabled(self) -> bool {
        self.io[4] & 0x10 != 0
    }

    pub open spec fn vcounter_irq_enabled(self) -> bool {
        self.io[4] & 0x20 != 0
    }

    /// DISPSTAT's read-only status bits: VBlank, HBlank, VCounter match.
    pub open spec fn status_bits(self) -> u8 {
        (if self.in_vblank() {
            1u8
        } else {
            0u8
        }) | (if self.in_hblank() {
            2u8
        } else {
            0u8
        }) | (if self.vcounter_match() {
            4u8
        } else {
            0u8
        })
    }

    /// A byte of the LCD register block: DISPSTAT's status bits and VCOUNT
    /// come from the timing state; offsets past the block read 0.
    pub open spec fn read_reg(self, offset: usize) -> u8 {
        if offset == 4 {
            (self.io[4] & !7u8) | self.status_bits()
        } else if offset == 6 {
            (self.scanline & 0xFF) as u8
        } else if offset == 7 {
            (self.scanline >> 8u16) as u8
        } else if offset < IO_SIZE {
            self.io[offset as int]
        } else {
            0
        }
    }

    /// The LCD register block after a byte write: DISPSTAT's status bits
    /// and VCOUNT are read-only.
    pub open spec fn write_reg(self, offset: usize, value: u8) -> PpuView {
        if offset == 4 {
            PpuView { io: self.io.update(4, value & !7u8), ..self }
        } else if offset == 6 || offset == 7 {
            self
        } else if offset < IO_SIZE {
            PpuView { io: self.io.update(offset as int, value), ..self }
        } else {
            self
        }
    }

    pub open spec fn io_u16(self, offset: usize) -> u16 {
        (self.read_reg(offset) as u16) | (((self.read_reg((offset + 1) as usize) as u16) << 8u16) as u16)
    }

    pub open spec fn io_u32(self, offset: usize) -> u32 {
        (self.io_u16(offset) as u32) | (((self.io_u16((offset + 2) as usize) as u32) << 16u32) as u32)
    }

    pub open spec fn dispcnt(self) -> u16 {
        self.io_u16(0)
    }

    pub open spec fn bg_mode(self) -> u8 {
        (self.dispcnt() & 7) as u8
    }

    pub open spec fn bg_enabled(self, bg: usize) -> bool {
        self.dispcnt() & ((0x100u16 << (bg as u16)) as u16) != 0
    }

    pub open spec fn obj_enabled(self) -> bool {
        self.dispcnt() & 0x1000 != 0
    }

    pub open spec fn obj_mapping_1d(self) -> bool {
        self.dispcnt() & 0x40 != 0
    }

    pub open spec fn bg_control(self, bg: usize) -> u16 {
        self.io_u16((8 + bg * 2) as usize)
    }

    pub open spec fn bg_priority(self, bg: usize) -> u8 {
        (self.bg_control(bg) & 3) as u8
    }

    pub open spec fn bg_char_base(self, bg: usize) -> usize {
        (((self.bg_control(bg) >> 2u16) & 3) * 0x4000) as usize
    }

    pub open spec fn bg_screen_base(self, bg: usize) -> usize {
        (((self.bg_control(bg) >> 8u16) & 0x1F) * 0x800) as usize
    }

    pub open spec fn bg_is_8bpp(self, bg: usize) -> bool {
        self.bg_control(bg) & 0x80 != 0
    }

    pub open spec fn bg_screen_size(self, bg: usize) -> u8 {
        ((self.bg_control(bg) >> 14u16) & 3) as u8
    }

    pub open spec fn bg_hofs(self, bg: usize) -> u16 {
        self.io_u16((0x10 + bg * 4) as usize) & 0x1FF
    }

    pub open spec fn bg_vofs(self, bg: usize) -> u16 {
        self.io_u16((0x12 + bg * 4) as usize) & 0x1FF
    }

    pub open spec fn bg_mosaic_enabled(self, bg: usize) -> bool {
        self.bg_control(bg) & 0x40 != 0
    }

    pub open spec fn bg_affine_wraps(self, bg: usize) -> bool {
        self.bg_control(bg) & 0x2000 != 0
    }

    pub open spec fn affine_param_base(bg: usize) -> usize {
        if bg == 2 {
            0x20
        } else {
            0x30
        }
    }

    /// PA, PB, PC, PD of an affine background (8.8 fixed point).
    pub open spec fn bg_affine_params(self, bg: usize) -> (i16, i16, i16, i16) {
        let base = Self::affine_param_base(bg);
        (
            self.io_u16(base) as i16,
            self.io_u16((base + 2) as usize) as i16,
            self.io_u16((base + 4) as usize) as i16,
            self.io_u16((base + 6) as usize) as i16,
        )
    }

    pub open spec fn affine_ref_base(bg: usize) -> usize {
        if bg == 2 {
            0x28
        } else {
            0x38
        }
    }

    /// The affine reference point BGxX/BGxY (20.8 fixed point, 28-bit
    /// signed), taken as constant for the whole frame.
    pub open spec fn bg_affine_reference(self, bg: usize) -> (i32, i32) {
        let base = Self::affine_ref_base(bg);
        (
            spec_sign_extend_28(self.io_u32(base)),
            spec_sign_extend_28(self.io_u32((base + 4) as usize)),
        )
    }

    /// Sprite tiles start at 0x10000 in tile modes and at 0x14000 in bitmap
    /// modes, whose buffers occupy the lower VRAM.
    pub open spec fn obj_char_base(self) -> usize {
        if self.bg_mode() >= 3 {
            0x1_4000
        } else {
            0x1_0000
        }
    }

    pub open spec fn display_frame_select(self) -> bool {
        self.dispcnt() & 0x10 != 0
    }

    pub open spec fn mosaic_bg_size(self) -> (u16, u16) {
        let reg = self.io[0x4C];
        (((reg & 0xF) + 1) as u16, ((reg >> 4u8) + 1) as u16)
    }

    pub open spec fn mosaic_obj_size(self) -> (u16, u16) {
        let reg = self.io[0x4D];
        (((reg & 0xF) + 1) as u16, ((reg >> 4u8) + 1) as u16)
    }

    pub open spec fn win0_enabled(self) -> bool {
        self.dispcnt() & 0x2000 != 0
    }

    pub open spec fn win1_enabled(self) -> bool {
        self.dispcnt() & 0x4000 != 0
    }

    pub open spec fn winobj_enabled(self) -> bool {
        self.dispcnt() & 0x8000 != 0
    }

    pub open spec fn any_window_enabled(self) -> bool {
        self.win0_enabled() || self.win1_enabled() || self.winobj_enabled()
    }

    pub open spec fn win0_bounds(self) -> (usize, usize, usize, usize) {
        spec_window_rect(self.io_u16(0x40), self.io_u16(0x44))
    }

    pub open spec fn win1_bounds(self) -> (usize, usize, usize, usize) {
        spec_window_rect(self.io_u16(0x42), self.io_u16(0x46))
    }

    pub open spec fn winin(self) -> u16 {
        self.io_u16(0x48)
    }

    pub open spec fn winout(self) -> u16 {
        self.io_u16(0x4A)
    }

    pub open spec fn bldcnt(self) -> u16 {
        self.io_u16(0x50)
    }

    pub open spec fn blend_mode(self) -> u8 {
        ((self.bldcnt() >> 6u16) & 3) as u8
    }

    pub open spec fn is_first_target(self, layer: usize) -> bool {
        self.bldcnt() & ((1u16 << (layer as u16)) as u16) != 0
    }

    pub open spec fn is_second_target(self, layer: usize) -> bool {
        self.bldcnt() & ((1u16 << ((layer + 8) as u16)) as u16) != 0
    }

    /// EVA and EVB, each capped at 16.
    pub open spec fn blend_alpha(self) -> (u8, u8) {
        let reg = self.io_u16(0x52);
        (spec_min16((reg & 0x1F) as u8), spec_min16(((reg >> 8u16) & 0x1F) as u8))
    }

    pub open spec fn blend_brightness(self) -> u8 {
        spec_min16((self.io_u16(0x54) & 0x1F) as u8)
    }

    /// BG palette entry `index` (mod 256) as a little-endian BGR555 color.
    pub open spec fn palette_color(self, index: usize) -> u16 {
        let off = (index % 256) * 2;
        (self.palette[off] as u16) | (((self.palette[off + 1] as u16) << 8u16) as u16)
    }

    /// OBJ palette entry `index` (mod 256), from the second half of palette
    /// RAM.
    pub open spec fn obj_palette_color(self, index: usize) -> u16 {
        let off = 0x200 + (index % 256) * 2;
        (self.palette[off] as u16) | (((self.palette[off + 1] as u16) << 8u16) as u16)
    }

    /// A VRAM byte, or 0 past the end.
    pub open spec fn vram_at(self, addr: int) -> u8 {
        if 0 <= addr < self.vram.len() {
            self.vram[addr]
        } else {
            0
        }
    }
}

/// Sets every byte of `v` to `value`.
pub fn fill_bytes(v: &mut Vec<u8>, value: u8)
    ensures
        final(v)@ == Seq::new(old(v)@.len(), |i: int| value),
{
    let n = v.len();
    let mut i: usize = 0;
    while i < n
        invariant
            n == old(v)@.len(),
            v@.len() == n,
            i <= n,
            forall|k: int| 0 <= k < i ==> #[trigger] v@[k] == value,
        decreases n - i,
    {
        v.set(i, value);
        i = i + 1;
    }
    assert(v@ =~= Seq::new(old(v)@.len(), |k: int| value));
}

#[derive(Debug)]
pub struct Ppu {
    vram: Vec<u8>,
    oam: Vec<u8>,
    palette: Vec<u8>,
    io: Vec<u8>,
    scanline: u16,
    dot_in_line: u32,
    framebuffer: Vec<u16>,
    frame_ready: bool,
}

impl View for Ppu {
    type V = PpuView;

    closed spec fn view(&self) -> PpuView {
        PpuView {
            vram: self.vram@,
            oam: self.oam@,
            palette: self.palette@,
            io: self.io@,
            scanline: self.scanline,
            dot_in_line: self.dot_in_line,
            framebuffer: self.framebuffer@,
            frame_ready: self.frame_ready,
        }
    }
}

/// The power-on PPU: all memory and registers zero, at the start of
/// scanline 0.
pub open spec fn spec_ppu_new(v: PpuView) -> bool {
    &&& v.wf()
    &&& v.vram == Seq::new(VRAM_SIZE as nat, |i: int| 0u8)
    &&& v.oam == Seq::new(OAM_SIZE as nat, |i: int| 0u8)
    &&& v.palette == Seq::new(PALETTE_SIZE as nat, |i: int| 0u8)
    &&& v.io == Seq::new(IO_SIZE as nat, |i: int| 0u8)
    &&& v.framebuffer == Seq::new((SCREEN_WIDTH * SCREEN_HEIGHT) as nat, |i: int| 0u16)
    &&& v.scanline == 0
    &&& v.dot_in_line == 0
    &&& !v.frame_ready
}

impl Ppu {
    pub fn new() -> (p: Self)
        ensures
            spec_ppu_new(p@),
    {
        let p = Ppu {
            vram: vec![0u8; VRAM_SIZE],
            oam: vec![0u8; OAM_SIZE],
            palette: vec![0u8; PALETTE_SIZE],
            io: vec![0u8; IO_SIZE],
            scanline: 0,
            dot_in_line: 0,
            framebuffer: vec![0u16; SCREEN_WIDTH * SCREEN_HEIGHT],
            frame_ready: false,
        };
        assert(p@.vram =~= Seq::new(VRAM_SIZE as nat, |i: int| 0u8));
        assert(p@.oam =~= Seq::new(OAM_SIZE as nat, |i: int| 0u8));
        assert(p@.palette =~= Seq::new(PALETTE_SIZE as nat, |i: int| 0u8));
        assert(p@.io =~= Seq::new(IO_SIZE as nat, |i: int| 0u8));
        assert(p@.framebuffer =~= Seq::new((SCREEN_WIDTH * SCREEN_HEIGHT) as nat, |i: int| 0u16));
        p
    }

    pub fn vram(&self) -> (s: &[u8])
        ensures
            s@ == self@.vram,
    {
        self.vram.as_slice()
    }

    pub fn vram_mut(&mut self) -> (s: &mut [u8])
        ensures
            s@ == old(self)@.vram,
            final(self)@ == (PpuView { vram: final(s)@, ..old(self)@ }),
    {
        self.vram.as_mut_slice()
    }

    pub fn oam(&self) -> (s: &[u8])
        ensures
            s@ == self@.oam,
    {
        self.oam.as_slice()
    }

    pub fn oam_mut(&mut self) -> (s: &mut [u8])
        ensures
            s@ == old(self)@.oam,
            final(self)@ == (PpuView { oam: final(s)@, ..old(self)@ }),
    {
        self.oam.as_mut_slice()
    }

    pub fn palette(&self) -> (s: &[u8])
        ensures
            s@ == self@.palette,
    {
        self.palette.as_slice()
    }

    pub fn palette_mut(&mut self) -> (s: &mut [u8])
        ensures
            s@ == old(self)@.palette,
            final(self)@ == (PpuView { palette: final(s)@, ..old(self)@ }),
    {
        self.palette.as_mut_slice()
    }

    pub fn set_vram(&mut self, index: usize, value: u8)
        requires
            old(self)@.wf(),
            index < VRAM_SIZE,
        ensures
            final(self)@ == (PpuView { vram: old(self)@.vram.update(index as int, value), ..old(self)@ }),
            final(self)@.wf(),
    {
        self.vram.set(index, value);
    }

    pub fn set_oam(&mut self, index: usize, value: u8)
        requires
            old(self)@.wf(),
            index < OAM_SIZE,
        ensures
            final(self)@ == (PpuView { oam: old(self)@.oam.update(index as int, value), ..old(self)@ }),
            final(self)@.wf(),
    {
        self.oam.set(index, value);
    }

    pub fn set_palette(&mut self, index: usize, value: u8)
        requires
            old(self)@.wf(),
            index < PALETTE_SIZE,
        ensures
            final(self)@ == (PpuView {
                palette: old(self)@.palette.update(index as int, value),
                ..old(self)@
            }),
            final(self)@.wf(),
    {
        self.palette.set(index, value);
    }

    /// Sets every byte of palette RAM to `value`.
    pub fn fill_palette(&mut self, value: u8)
        requires
            old(self)@.wf(),
        ensures
            final(self)@ == (PpuView {
                palette: Seq::new(PALETTE_SIZE as nat, |i: int| value),
                ..old(self)@
            }),
            final(self)@.wf(),
    {
        fill_bytes(&mut self.palette, value);
    }

    /// Sets every byte of VRAM to `value`.
    pub fn fill_vram(&mut self, value: u8)
        requires
            old(self)@.wf(),
        ensures
            final(self)@ == (PpuView { vram: Seq::new(VRAM_SIZE as nat, |i: int| value), ..old(self)@ }),
            final(self)@.wf(),
    {
        fill_bytes(&mut self.vram, value);
    }

    /// Sets every byte of OAM to `value`.
    pub fn fill_oam(&mut self, value: u8)
        requires
            old(self)@.wf(),
        ensures
            final(self)@ == (PpuView { oam: Seq::new(OAM_SIZE as nat, |i: int| value), ..old(self)@ }),
            final(self)@.wf(),
    {
        fill_bytes(&mut self.oam, value);
    }

    fn dispstat_status_bits(&self) -> (b: u8)
        requires
            self@.wf(),
        ensures
            b == self@.status_bits(),
    {
        let v: u8 = if self.scanline >= VISIBLE_SCANLINES {
            1
        } else {
            0
        };
        let h: u8 = if self.dot_in_line >= HDRAW_CYCLES {
            2
        } else {
            0
        };
        let m: u8 = if self.scanline == self.io[5] as u16 {
            4
        } else {
            0
        };
        v | h | m
    }

    /// A byte of the LCD register block (offset from 0x04000000).
    pub fn read_register(&self, offset: usize) -> (b: u8)
        requires
            self@.wf(),
        ensures
            b == self@.read_reg(offset),
    {
        if offset == 4 {
            (self.io[4] & !7u8) | self.dispstat_status_bits()
        } else if offset == 6 {
            (self.scanline & 0xFF) as u8
        } else if offset == 7 {
            (self.scanline >> 8u16) as u8
        } else if offset < IO_SIZE {
            self.io[offset]
        } else {
            0
        }
    }

    pub fn write_register(&mut self, offset: usize, value: u8)
        requires
            old(self)@.wf(),
        ensures
            final(self)@ == old(self)@.write_reg(offset, value),
            final(self)@.wf(),
    {
        if offset == 4 {
            self.io.set(4, value & !7u8);
        } else if offset == 6 || offset == 7 {
        } else if offset < IO_SIZE {
            self.io.set(offset, value);
        }
    }

    pub fn io_u16(&self, offset: usize) -> (r: u16)
        requires
            self@.wf(),
            offset < usize::MAX,
        ensures
            r == self@.io_u16(offset),
    {
        self.read_register(offset) as u16 | ((self.read_register(offset + 1) as u16) << 8u16)
    }

    pub fn io_u32(&self, offset: usize) -> (r: u32)
        requires
            self@.wf(),
            offset < usize::MAX - 3,
        ensures
            r == self@.io_u32(offset),
    {
        self.io_u16(offset) as u32 | ((self.io_u16(offset + 2) as u32) << 16u32)
    }

    pub fn dispcnt(&self) -> (r: u16)
        requires
            self@.wf(),
        ensures
            r == self@.dispcnt(),
    {
        self.io_u16(0)
    }

    pub fn bg_mode(&self) -> (r: u8)
        requires
            self@.wf(),
        ensures
            r == self@.bg_mode(),
            r < 8,
    {
        (self.dispcnt() & 0x7) as u8
    }

    pub fn bg_enabled(&self, bg: usize) -> (b: bool)
        requires
            self@.wf(),
            bg < 4,
        ensures
            b == self@.bg_enabled(bg),
    {
        self.dispcnt() & (0x100u16 << (bg as u16)) != 0
    }

    pub fn obj_enabled(&self) -> (b: bool)
        requires
            self@.wf(),
        ensures
            b == self@.obj_enabled(),
    {
        self.dispcnt() & 0x1000 != 0
    }

    /// DISPCNT bit 6: false = 2D sprite tile mapping (32-tile-wide grid),
    /// true = 1D (tiles sequential per sprite row).
    pub fn obj_mapping_1d(&self) -> (b: bool)
        requires
            self@.wf(),
        ensures
            b == self@.obj_mapping_1d(),
    {
        self.dispcnt() & 0x40 != 0
    }

    pub fn bg_control(&self, bg: usize) -> (r: u16)
        requires
            self@.wf(),
            bg < 4,
        ensures
            r == self@.bg_control(bg),
    {
        self.io_u16(0x08 + bg * 2)
    }

    pub fn bg_priority(&self, bg: usize) -> (r: u8)
        requires
            self@.wf(),
            bg < 4,
        ensures
            r == self@.bg_priority(bg),
            r < 4,
    {
        (self.bg_control(bg) & 0x3) as u8
    }

    pub fn bg_char_base(&self, bg: usize) -> (r: usize)
        requires
            self@.wf(),
            bg < 4,
        ensures
            r == self@.bg_char_base(bg),
            r <= 0xC000,
    {
        (((self.bg_control(bg) >> 2u16) & 0x3) as usize) * 0x4000
    }

    pub fn bg_screen_base(&self, bg: usize) -> (r: usize)
        requires
            self@.wf(),
            bg < 4,
        ensures
            r == self@.bg_screen_base(bg),
            r <= 0xF800,
    {
        (((self.bg_control(bg) >> 8u16) & 0x1F) as usize) * 0x800
    }

    pub fn bg_is_8bpp(&self, bg: usize) -> (b: bool)
        requires
            self@.wf(),
            bg < 4,
        ensures
            b == self@.bg_is_8bpp(bg),
    {
        self.bg_control(bg) & 0x80 != 0
    }

    pub fn bg_screen_size(&self, bg: usize) -> (r: u8)
        requires
            self@.wf(),
            bg < 4,
        ensures
            r == self@.bg_screen_size(bg),
            r < 4,
    {
        ((self.bg_control(bg) >> 14u16) & 0x3) as u8
    }

    pub fn bg_hofs(&self, bg: usize) -> (r: u16)
        requires
            self@.wf(),
            bg < 4,
        ensures
            r == self@.bg_hofs(bg),
            r < 0x200,
    {
        self.io_u16(0x10 + bg * 4) & 0x1FF
    }

    pub fn bg_vofs(&self, bg: usize) -> (r: u16)
        requires
            self@.wf(),
            bg < 4,
        ensures
            r == self@.bg_vofs(bg),
            r < 0x200,
    {
        self.io_u16(0x12 + bg * 4) & 0x1FF
    }

    pub fn bg_mosaic_enabled(&self, bg: usize) -> (b: bool)
        requires
            self@.wf(),
            bg < 4,
        ensures
            b == self@.bg_mosaic_enabled(bg),
    {
        self.bg_control(bg) & 0x40 != 0
    }

    /// BGxCNT bit 13 of an affine background: wrap at the map edge instead
    /// of leaving the outside transparent.
    pub fn bg_affine_wraps(&self, bg: usize) -> (b: bool)
        requires
            self@.wf(),
            bg < 4,
        ensures
            b == self@.bg_affine_wraps(bg),
    {
        self.bg_control(bg) & 0x2000 != 0
    }

    pub fn bg_affine_params(&self, bg: usize) -> (r: (i16, i16, i16, i16))
        requires
            self@.wf(),
        ensures
            r == self@.bg_affine_params(bg),
    {
        let base: usize = if bg == 2 {
            0x20
        } else {
            0x30
        };
        (
            self.io_u16(base) as i16,
            self.io_u16(base + 2) as i16,
            self.io_u16(base + 4) as i16,
            self.io_u16(base + 6) as i16,
        )
    }

    pub fn bg_affine_reference(&self, bg: usize) -> (r: (i32, i32))
        requires
            self@.wf(),
        ensures
            r == self@.bg_affine_reference(bg),
    {
        let base: usize = if bg == 2 {
            0x28
        } else {
            0x38
        };
        (sign_extend_28(self.io_u32(base)), sign_extend_28(self.io_u32(base + 4)))
    }

    pub fn obj_char_base(&self) -> (r: usize)
        requires
            self@.wf(),
        ensures
            r == self@.obj_char_base(),
    {
        if self.bg_mode() >= 3 {
            0x1_4000
        } else {
            0x1_0000
        }
    }

    /// DISPCNT bit 4: which buffer modes 4 and 5 display.
    pub fn display_frame_select(&self) -> (b: bool)
        requires
            self@.wf(),
        ensures
            b == self@.display_frame_select(),
    {
        self.dispcnt() & 0x10 != 0
    }

    /// BG mosaic block size, each dimension already 1-based.
    pub fn mosaic_bg_size(&self) -> (r: (u16, u16))
        requires
            self@.wf(),
        ensures
            r == self@.mosaic_bg_size(),
            1 <= r.0 <= 16 && 1 <= r.1 <= 16,
    {
        let reg: u8 = self.io[0x4C];
        assert(reg >> 4u8 < 16) by (bit_vector);
        (((reg & 0xF) as u16) + 1, ((reg >> 4u8) as u16) + 1)
    }

    pub fn mosaic_obj_size(&self) -> (r: (u16, u16))
        requires
            self@.wf(),
        ensures
            r == self@.mosaic_obj_size(),
            1 <= r.0 <= 16 && 1 <= r.1 <= 16,
    {
        let reg: u8 = self.io[0x4D];
        assert(reg >> 4u8 < 16) by (bit_vector);
        (((reg & 0xF) as u16) + 1, ((reg >> 4u8) as u16) + 1)
    }

    pub fn win0_enabled(&self) -> (b: bool)
        requires
            self@.wf(),
        ensures
            b == self@.win0_enabled(),
    {
        self.dispcnt() & 0x2000 != 0
    }

    pub fn win1_enabled(&self) -> (b: bool)
        requires
            self@.wf(),
        ensures
            b == self@.win1_enabled(),
    {
        self.dispcnt() & 0x4000 != 0
    }

    pub fn winobj_enabled(&self) -> (b: bool)
        requires
            self@.wf(),
        ensures
            b == self@.winobj_enabled(),
    {
        self.dispcnt() & 0x8000 != 0
    }

    /// With no window enabled, window masking is bypassed.
    pub fn any_window_enabled(&self) -> (b: bool)
        requires
            self@.wf(),
        ensures
            b == self@.any_window_enabled(),
    {
        self.win0_enabled() || self.win1_enabled() || self.winobj_enabled()
    }

    pub fn win0_bounds(&self) -> (r: (usize, usize, usize, usize))
        requires
            self@.wf(),
        ensures
            r == self@.win0_bounds(),
    {
        window_rect(self.io_u16(0x40), self.io_u16(0x44))
    }

    pub fn win1_bounds(&self) -> (r: (usize, usize, usize, usize))
        requires
            self@.wf(),
        ensures
            r == self@.win1_bounds(),
    {
        window_rect(self.io_u16(0x42), self.io_u16(0x46))
    }

    /// Low byte: WIN0's layer enables; high byte: WIN1's.
    pub fn winin(&self) -> (r: u16)
        requires
            self@.wf(),
        ensures
            r == self@.winin(),
    {
        self.io_u16(0x48)
    }

    /// Low byte: outside all windows; high byte: WINOBJ.
    pub fn winout(&self) -> (r: u16)
        requires
            self@.wf(),
        ensures
            r == self@.winout(),
    {
        self.io_u16(0x4A)
    }

    pub fn bldcnt(&self) -> (r: u16)
        requires
            self@.wf(),
        ensures
            r == self@.bldcnt(),
    {
        self.io_u16(0x50)
    }

    /// 0 = none, 1 = alpha blend, 2 = brightness increase, 3 = decrease.
    pub fn blend_mode(&self) -> (r: u8)
        requires
            self@.wf(),
        ensures
            r == self@.blend_mode(),
            r < 4,
    {
        ((self.bldcnt() >> 6u16) & 0x3) as u8
    }

    /// `layer` in BLDCNT's bit order: 0-3 = BG0-3, 4 = OBJ, 5 = backdrop.
    pub fn is_first_target(&self, layer: usize) -> (b: bool)
        requires
            self@.wf(),
            layer < 8,
        ensures
            b == self@.is_first_target(layer),
    {
        self.bldcnt() & (1u16 << (layer as u16)) != 0
    }

    pub fn is_second_target(&self, layer: usize) -> (b: bool)
        requires
            self@.wf(),
            layer < 8,
        ensures
            b == self@.is_second_target(layer),
    {
        self.bldcnt() & (1u16 << ((layer + 8) as u16)) != 0
    }

    pub fn blend_alpha(&self) -> (r: (u8, u8))
        requires
            self@.wf(),
        ensures
            r == self@.blend_alpha(),
    {
        let reg = self.io_u16(0x52);
        let a: u8 = (reg & 0x1F) as u8;
        let b: u8 = ((reg >> 8u16) & 0x1F) as u8;
        (
            if a < 16 {
                a
            } else {
                16
            },
            if b < 16 {
                b
            } else {
                16
            },
        )
    }

    pub fn blend_brightness(&self) -> (r: u8)
        requires
            self@.wf(),
        ensures
            r == self@.blend_brightness(),
    {
        let y: u8 = (self.io_u16(0x54) & 0x1F) as u8;
        if y < 16 {
            y
        } else {
            16
        }
    }

    pub fn palette_color(&self, index: usize) -> (c: u16)
        requires
            self@.wf(),
        ensures
            c == self@.palette_color(index),
    {
        let off = (index % 256) * 2;
        self.palette[off] as u16 | ((self.palette[off + 1] as u16) << 8u16)
    }

    pub fn obj_palette_color(&self, index: usize) -> (c: u16)
        requires
            self@.wf(),
        ensures
            c == self@.obj_palette_color(index),
    {
        let off = 0x200 + (index % 256) * 2;
        self.palette[off] as u16 | ((self.palette[off + 1] as u16) << 8u16)
    }

    pub fn vram_at(&self, addr: usize) -> (b: u8)
        ensures
            b == self@.vram_at(addr as int),
    {
        if addr < self.vram.len() {
            self.vram[addr]
        } else {
            0
        }
    }

    pub fn scanline(&self) -> (s: u16)
        ensures
            s == self@.scanline,
    {
        self.scanline
    }

    /// The 240x160 framebuffer, BGR555 per pixel, row-major.
    pub fn framebuffer(&self) -> (f: &[u16])
        ensures
            f@ == self@.framebuffer,
    {
        self.framebuffer.as_slice()
    }

    /// True once per frame as VBlank begins; reading clears it.
    pub fn take_frame_ready(&mut self) -> (b: bool)
        ensures
            b == old(self)@.frame_ready,
            final(self)@ == (PpuView { frame_ready: false, ..old(self)@ }),
    {
        let b = self.frame_ready;
        self.frame_ready = false;
        b
    }
}


/// The PPU after rendering `line` into its framebuffer row.
pub open spec fn spec_render(v: PpuView, line: u16) -> PpuView {
    let base = line * 240;
    PpuView {
        framebuffer: Seq::new(
            v.framebuffer.len(),
            |i: int|
                if base <= i < base + 240 {
                    spec_composite(v, line, i - base)
                } else {
                    v.framebuffer[i]
                },
        ),
        ..v
    }
}

/// One pass of the timing loop: render the line if it is just starting,
/// advance by at most the rest of the line, and note HBlank, VBlank and
/// VCounter transitions.
pub open spec fn spec_tick_step(v: PpuView, remaining: u32, ev: IrqEvents) -> (PpuView, u32, IrqEvents) {
    let v1 = if v.dot_in_line == 0 && v.scanline < VISIBLE_SCANLINES {
        spec_render(v, v.scanline)
    } else {
        v
    };
    let was_hdraw = v1.dot_in_line < HDRAW_CYCLES;
    let step: u32 = if remaining < 1232 - v1.dot_in_line {
        remaining
    } else {
        (1232 - v1.dot_in_line) as u32
    };
    let dot = v1.dot_in_line + step;
    let rem = (remaining - step) as u32;
    let ev1 = if was_hdraw && dot >= HDRAW_CYCLES {
        IrqEvents { hblank_timing: true, hblank: ev.hblank || v1.hblank_irq_enabled(), ..ev }
    } else {
        ev
    };
    if dot >= 1232 {
        let sl = ((v1.scanline + 1) % 228) as u16;
        let v2 = PpuView {
            dot_in_line: (dot - 1232) as u32,
            scanline: sl,
            frame_ready: if sl == VISIBLE_SCANLINES {
                true
            } else {
                v1.frame_ready
            },
            ..v1
        };
        let ev2 = if sl == VISIBLE_SCANLINES {
            IrqEvents { vblank_timing: true, vblank: ev1.vblank || v2.vblank_irq_enabled(), ..ev1 }
        } else {
            ev1
        };
        let ev3 = if v2.vcounter_match() {
            IrqEvents {
                vcounter_raw: true,
                vcounter: ev2.vcounter || v2.vcounter_irq_enabled(),
                ..ev2
            }
        } else {
            ev2
        };
        (v2, rem, ev3)
    } else {
        (PpuView { dot_in_line: dot as u32, ..v1 }, rem, ev1)
    }
}

/// The PPU and the events after `remaining` cycles.
pub closed spec fn spec_tick(v: PpuView, remaining: u32, ev: IrqEvents) -> (PpuView, IrqEvents)
    decreases remaining,
{
    if remaining == 0 || v.dot_in_line >= 1232 {
        (v, ev)
    } else {
        let s = spec_tick_step(v, remaining, ev);
        spec_tick(s.0, s.1, s.2)
    }
}

/// How many line ends from scanline `s` until scanline 160, the first
/// line of VBlank, begins.
pub open spec fn lines_to_vblank(s: u16) -> int {
    if s < 160 {
        160 - s
    } else {
        388 - s
    }
}

/// Each gated event comes with its raw timing signal.
pub open spec fn events_consistent(e: IrqEvents) -> bool {
    &&& e.vblank ==> e.vblank_timing
    &&& e.hblank ==> e.hblank_timing
    &&& e.vcounter ==> e.vcounter_raw
}

proof fn lemma_tick_timing(v: PpuView, rem: u32, ev: IrqEvents)
    requires
        v.dot_in_line < 1232,
        v.scanline < 228,
    ensures
        ({
            let r = spec_tick(v, rem, ev);
            &&& r.0.scanline as int == (v.scanline + (v.dot_in_line + rem) / 1232) % 228
            &&& r.0.dot_in_line as int == (v.dot_in_line + rem) % 1232
            &&& events_consistent(ev) ==> events_consistent(r.1)
            &&& rem == 0 ==> r == (v, ev)
            &&& r.0.frame_ready == (v.frame_ready || (v.dot_in_line + rem) / 1232 >= lines_to_vblank(
                v.scanline,
            ))
            &&& r.1.vblank_timing == (ev.vblank_timing || (v.dot_in_line + rem) / 1232
                >= lines_to_vblank(v.scanline))
        }),
    decreases rem,
{
    if rem > 0 {
        let s = spec_tick_step(v, rem, ev);
        let v1 = if v.dot_in_line == 0 && v.scanline < VISIBLE_SCANLINES {
            spec_render(v, v.scanline)
        } else {
            v
        };
        assert(v1.scanline == v.scanline && v1.dot_in_line == v.dot_in_line);
        assert(spec_tick(v, rem, ev) == spec_tick(s.0, s.1, s.2));
        lemma_tick_timing(s.0, s.1, s.2);
        let d = v.dot_in_line as int;
        if rem < 1232 - d {
            assert(s.1 == 0);
            assert((d + rem) / 1232 == 0 && (d + rem) % 1232 == d + rem) by (nonlinear_arith)
                requires
                    0 <= d,
                    0 <= d + rem < 1232,
            ;
        } else {
            let r2 = rem - (1232 - d);
            assert(s.1 as int == r2);
            assert(s.0.dot_in_line == 0);
            assert(s.0.scanline as int == (v.scanline + 1) % 228);
            vstd::arithmetic::div_mod::lemma_div_plus_one(r2, 1232);
            vstd::arithmetic::div_mod::lemma_mod_multiples_vanish(1, r2, 1232);
            vstd::arithmetic::div_mod::lemma_add_mod_noop_right(r2 / 1232, v.scanline + 1, 228);
            assert(d + rem == 1232 + r2);
        }
    }
}

/// The PPU's clock: after `cycles` more cycles it is on scanline
/// `(s + (d + cycles) / 1232) % 228` at dot `(d + cycles) % 1232`, where
/// `s` and `d` are the scanline and dot it started at; the frame is ready,
/// and VBlank timing is reported, exactly when some line end in between
/// began scanline 160; every interrupt event comes with its raw timing
/// signal; and zero cycles change nothing and report nothing.
pub proof fn lemma_tick_law(v: PpuView, cycles: u32)
    requires
        v.wf(),
    ensures
        ({
            let r = spec_tick(v, cycles, no_events());
            &&& r.0.scanline as int == (v.scanline + (v.dot_in_line + cycles) / 1232) % 228
            &&& r.0.dot_in_line as int == (v.dot_in_line + cycles) % 1232
            &&& events_consistent(r.1)
            &&& cycles == 0 ==> r == (v, no_events())
            &&& r.0.frame_ready == (v.frame_ready || (v.dot_in_line + cycles) / 1232
                >= lines_to_vblank(v.scanline))
            &&& r.1.vblank_timing == ((v.dot_in_line + cycles) / 1232 >= lines_to_vblank(
                v.scanline,
            ))
        }),
{
    lemma_tick_timing(v, cycles, no_events());
}

impl Ppu {
    fn in_active(mode: u8, bg: usize) -> (b: bool)
        ensures
            b == spec_active_bgs(mode).contains(bg),
    {
        let bgs = active_bgs(mode);
        let mut i: usize = 0;
        while i < bgs.len()
            invariant
                bgs@ == spec_active_bgs(mode),
                i <= bgs@.len(),
                forall|j: int| 0 <= j < i ==> bgs@[j] != bg,
            decreases bgs@.len() - i,
        {
            if bgs[i] == bg {
                return true;
            }
            i = i + 1;
        }
        false
    }

    /// Renders background `bg` of a tile mode into `l`, which starts
    /// transparent.
    fn render_bg(&self, mode: u8, bg: usize, line: u16, l: &mut Vec<Option<u16>>)
        requires
            self@.wf(),
            bg < 4,
            line < VISIBLE_SCANLINES,
            mode == self@.bg_mode(),
            !(mode == 3 || mode == 4 || mode == 5),
            old(l)@ == transparent_line(),
        ensures
            final(l)@ == spec_bg_line(self@, line, bg),
    {
        if Self::in_active(mode, bg) {
            let is_affine = (mode == 1 && bg == 2) || (mode == 2 && (bg == 2 || bg == 3));
            if is_affine {
                affine::render_scanline(self, bg, line, l);
            } else {
                background::render_scanline(self, bg, line, l);
            }
        }
    }

    /// Composites `line` into the framebuffer: backgrounds for the current
    /// mode, sprites, windows, priority and color effects.
    #[verifier::rlimit(60)]
    fn render_scanline(&mut self, line: u16)
        requires
            old(self)@.wf(),
            line < VISIBLE_SCANLINES,
        ensures
            final(self)@ == spec_render(old(self)@, line),
            final(self)@.wf(),
    {
        let backdrop = self.palette_color(0);
        let mode = self.bg_mode();
        let mut l0: Vec<Option<u16>> = vec![None; SCREEN_WIDTH];
        let mut l1: Vec<Option<u16>> = vec![None; SCREEN_WIDTH];
        let mut l2: Vec<Option<u16>> = vec![None; SCREEN_WIDTH];
        let mut l3: Vec<Option<u16>> = vec![None; SCREEN_WIDTH];
        assert(l0@ =~= transparent_line());
        assert(l1@ =~= transparent_line());
        assert(l2@ =~= transparent_line());
        assert(l3@ =~= transparent_line());
        if mode == 3 || mode == 4 || mode == 5 {
            let mut bmp: Vec<u16> = vec![backdrop; SCREEN_WIDTH];
            bitmap::render_scanline(self, mode, line, &mut bmp);
            let mut x: usize = 0;
            while x < SCREEN_WIDTH
                invariant
                    self@.wf(),
                    mode == self@.bg_mode(),
                    mode == 3 || mode == 4 || mode == 5,
                    backdrop == self@.palette_color(0),
                    x <= SCREEN_WIDTH,
                    bmp@.len() == SCREEN_WIDTH,
                    forall|i: int|
                        0 <= i < SCREEN_WIDTH ==> #[trigger] bmp@[i] == spec_bitmap_pixel(
                            self@,
                            mode,
                            line,
                            i,
                            backdrop,
                        ),
                    l2@.len() == SCREEN_WIDTH,
                    forall|i: int| 0 <= i < x ==> #[trigger] l2@[i] == Some(bmp@[i]),
                decreases SCREEN_WIDTH - x,
            {
                l2.set(x, Some(bmp[x]));
                x = x + 1;
            }
            assert(l2@ =~= spec_bg_line(self@, line, 2));
            assert(l0@ =~= spec_bg_line(self@, line, 0));
            assert(l1@ =~= spec_bg_line(self@, line, 1));
            assert(l3@ =~= spec_bg_line(self@, line, 3));
        } else {
            self.render_bg(mode, 0, line, &mut l0);
            self.render_bg(mode, 1, line, &mut l1);
            self.render_bg(mode, 2, line, &mut l2);
            self.render_bg(mode, 3, line, &mut l3);
        }
        let mut obj_pixels: Vec<Option<(u16, u8, bool)>> = Vec::new();
        let mut obj_window: Vec<bool> = Vec::new();
        sprite::render_scanline(self, line, &mut obj_pixels, &mut obj_window);
        let bgs = active_bgs(mode);
        let ghost v = self@;
        let mut row: Vec<u16> = Vec::new();
        let mut x: usize = 0;
        while x < SCREEN_WIDTH
            invariant
                self@ == v,
                v.wf(),
                line < VISIBLE_SCANLINES,
                bgs@ == spec_active_bgs(v.bg_mode()),
                forall|i: int| 0 <= i < bgs@.len() ==> #[trigger] bgs@[i] < 4,
                seq![l0@, l1@, l2@, l3@] == spec_bg_lines(v, line),
                l0@.len() == SCREEN_WIDTH,
                l1@.len() == SCREEN_WIDTH,
                l2@.len() == SCREEN_WIDTH,
                l3@.len() == SCREEN_WIDTH,
                obj_pixels@.len() == SCREEN_WIDTH,
                obj_window@.len() == SCREEN_WIDTH,
                forall|i: int|
                    0 <= i < SCREEN_WIDTH ==> (#[trigger] obj_pixels@[i], obj_window@[i])
                        == spec_sprite_pixel(v, line, i),
                x <= SCREEN_WIDTH,
                row@.len() == x,
                forall|i: int| 0 <= i < x ==> #[trigger] row@[i] == spec_composite(v, line, i),
            decreases SCREEN_WIDTH - x,
        {
            let mask = layer_mask(self, x, line as usize, obj_window[x]);
            let ghost sp = spec_sprite_pixel(v, line, x as int);
            assert((obj_pixels@[x as int], obj_window@[x as int]) == sp);
            let cands = candidates(self, &bgs, &l0, &l1, &l2, &l3, obj_pixels[x], x, mask);
            row.push(pixel_color(self, &cands, mask));
            x = x + 1;
        }
        let base: usize = line as usize * 240;
        let mut i: usize = 0;
        while i < SCREEN_WIDTH
            invariant
                v.wf(),
                line < VISIBLE_SCANLINES,
                base == line * 240,
                row@.len() == SCREEN_WIDTH,
                forall|k: int| 0 <= k < SCREEN_WIDTH ==> #[trigger] row@[k] == spec_composite(v, line, k),
                self@ == (PpuView { framebuffer: self@.framebuffer, ..v }),
                self@.framebuffer.len() == v.framebuffer.len(),
                i <= SCREEN_WIDTH,
                forall|k: int|
                    0 <= k < self@.framebuffer.len() ==> #[trigger] self@.framebuffer[k] == if base
                        <= k < base + i {
                        spec_composite(v, line, k - base)
                    } else {
                        v.framebuffer[k]
                    },
            decreases SCREEN_WIDTH - i,
        {
            self.framebuffer.set(base + i, row[i]);
            i = i + 1;
        }
        assert(self@.framebuffer =~= spec_render(v, line).framebuffer);
        assert(self@ =~= spec_render(v, line));
    }

    /// Advances the PPU by `cycles` CPU cycles, rendering each visible
    /// scanline whole as it starts, and reports which conditions occurred.
    /// Each pass covers at most the rest of one line, so no HBlank or line
    /// boundary is missed however many cycles are given.
    pub fn tick(&mut self, cycles: u32) -> (e: IrqEvents)
        requires
            old(self)@.wf(),
        ensures
            (final(self)@, e) == spec_tick(old(self)@, cycles, no_events()),
            final(self)@.wf(),
    {
        let mut events = IrqEvents::default();
        let mut remaining = cycles;
        while remaining > 0
            invariant
                self@.wf(),
                spec_tick(self@, remaining, events) == spec_tick(old(self)@, cycles, no_events()),
            decreases remaining,
        {
            let ghost v0 = self@;
            let ghost ev0 = events;
            let ghost r0 = remaining;
            if self.dot_in_line == 0 && self.scanline < VISIBLE_SCANLINES {
                let sl = self.scanline;
                self.render_scanline(sl);
            }
            let was_hdraw = self.dot_in_line < HDRAW_CYCLES;
            let rest: u32 = CYCLES_PER_SCANLINE - self.dot_in_line;
            let step: u32 = if remaining < rest {
                remaining
            } else {
                rest
            };
            self.dot_in_line = self.dot_in_line + step;
            remaining = remaining - step;
            if was_hdraw && self.dot_in_line >= HDRAW_CYCLES {
                events.hblank_timing = true;
                if self.io[4] & 0x10 != 0 {
                    events.hblank = true;
                }
            }
            if self.dot_in_line >= CYCLES_PER_SCANLINE {
                self.dot_in_line = self.dot_in_line - CYCLES_PER_SCANLINE;
                self.scanline = (self.scanline + 1) % TOTAL_SCANLINES;
                if self.scanline == VISIBLE_SCANLINES {
                    self.frame_ready = true;
                    events.vblank_timing = true;
                    if self.io[4] & 0x08 != 0 {
                        events.vblank = true;
                    }
                }
                if self.scanline == self.io[5] as u16 {
                    events.vcounter_raw = true;
                    if self.io[4] & 0x20 != 0 {
                        events.vcounter = true;
                    }
                }
            }
            assert((self@, remaining, events) == spec_tick_step(v0, r0, ev0));
        }
        events
    }
}

} // verus!
