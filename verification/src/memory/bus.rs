//! The GBA's 32-bit address bus: routes CPU accesses to BIOS, EWRAM,
//! IWRAM, I/O, palette RAM, VRAM, OAM or the cartridge, with the mirroring
//! and alignment rules games rely on.
//!
//! VRAM, OAM, palette RAM and the LCD registers belong to the [`Ppu`]; the
//! bus decodes and mirrors addresses and stores through to it. Open bus
//! (unmapped memory, and BIOS past its 16KB) reads as 0 rather than the
//! last value on the bus.
use vstd::prelude::*;
use crate::apu::{Apu, ApuView};
use crate::cartridge::{Cartridge, GbaHeader};
use crate::cartridge::save::SaveView;
use crate::dma::{
    Dma, DmaChannel, DmaTransfer, spec_armed_for_immediate, spec_dma_read, spec_dma_write,
    spec_finish_transfer, spec_latch, spec_step_addr, step_addr,
};
use crate::interrupts::{InterruptSource, Interrupts};
use crate::joypad::Joypad;
use crate::memory::Memory;
use crate::ppu::{Ppu, PpuView};
use crate::timer::{TimerChannel, Timers, spec_write_channel};

verus! {

broadcast use crate::bits::group_bits;

pub const BIOS_SIZE: usize = 0x4000;

pub const EWRAM_SIZE: usize = 0x40000;

pub const IWRAM_SIZE: usize = 0x8000;

/// The whole I/O page; bytes no device claims are plain storage.
pub const IO_SIZE: usize = 0x400;

pub const PALETTE_SIZE: usize = 0x400;

pub const VRAM_SIZE: usize = 0x18000;

pub const OAM_SIZE: usize = 0x400;

pub const VRAM_MIRROR_PERIOD: usize = 0x20000;

/// 32MB: one wait-state window of cartridge ROM.
pub const ROM_WINDOW_MASK: usize = 0x01FF_FFFF;

/// How deeply a DMA transfer that arms another immediate DMA (by writing
/// its control register) may nest; deeper arming leaves the channel armed
/// without running it.
pub const DMA_NEST_LIMIT: u32 = 4;

#[derive(Debug, Clone, Copy, PartialEq, Eq, Structural)]
pub enum Region {
    Bios,
    Ewram,
    Iwram,
    Io,
    Palette,
    Vram,
    Oam,
    Rom,
    Backup,
    Unused,
}

/// The region an address falls in, from its top byte.
pub open spec fn spec_region_of(addr: u32) -> Region {
    let top = addr >> 24u32;
    if top == 0 {
        Region::Bios
    } else if top == 2 {
        Region::Ewram
    } else if top == 3 {
        Region::Iwram
    } else if top == 4 {
        Region::Io
    } else if top == 5 {
        Region::Palette
    } else if top == 6 {
        Region::Vram
    } else if top == 7 {
        Region::Oam
    } else if 8 <= top <= 0x0D {
        Region::Rom
    } else if top == 0x0E || top == 0x0F {
        Region::Backup
    } else {
        Region::Unused
    }
}

pub fn region_of(addr: u32) -> (r: Region)
    ensures
        r == spec_region_of(addr),
{
    let top: u32 = (addr >> 24u32) & 0xFF;
    assert(addr >> 24u32 <= 0xFF && (addr >> 24u32) & 0xFF == addr >> 24u32) by (bit_vector);
    if top == 0 {
        Region::Bios
    } else if top == 2 {
        Region::Ewram
    } else if top == 3 {
        Region::Iwram
    } else if top == 4 {
        Region::Io
    } else if top == 5 {
        Region::Palette
    } else if top == 6 {
        Region::Vram
    } else if top == 7 {
        Region::Oam
    } else if 8 <= top && top <= 0x0D {
        Region::Rom
    } else if top == 0x0E || top == 0x0F {
        Region::Backup
    } else {
        Region::Unused
    }
}

/// VRAM is 96KB, so its mirroring is irregular: every 128KB repeats, and
/// within that the last 32KB mirrors the 32KB before it.
pub open spec fn spec_vram_offset(addr: u32) -> usize {
    let masked = (addr as int) % (VRAM_MIRROR_PERIOD as int);
    if masked >= VRAM_SIZE {
        (masked - 0x8000) as usize
    } else {
        masked as usize
    }
}

pub fn vram_offset(addr: u32) -> (o: usize)
    ensures
        o == spec_vram_offset(addr),
        o < VRAM_SIZE,
{
    let masked: usize = (addr as usize) % VRAM_MIRROR_PERIOD;
    if masked >= VRAM_SIZE {
        masked - 0x8000
    } else {
        masked
    }
}

/// `off - base` when `off` lies in `base..base + size`.
pub open spec fn spec_sub_offset(off: usize, base: usize, size: usize) -> Option<usize> {
    if base <= off < base + size {
        Some((off - base) as usize)
    } else {
        None
    }
}

fn sub_offset(off: usize, base: usize, size: usize) -> (r: Option<usize>)
    requires
        base + size <= usize::MAX,
    ensures
        r == spec_sub_offset(off, base, size),
{
    if base <= off && off < base + size {
        Some(off - base)
    } else {
        None
    }
}

/// KEYINPUT/KEYCNT (0x130..0x134) relative offset.
pub fn joypad_offset(io_offset: usize) -> (r: Option<usize>)
    ensures
        r == spec_sub_offset(io_offset, crate::joypad::IO_BASE, crate::joypad::IO_SIZE),
{
    sub_offset(io_offset, crate::joypad::IO_BASE, crate::joypad::IO_SIZE)
}

/// SOUND1CNT_L..FIFO_B (0x60..0xA8) relative offset.
pub fn apu_offset(io_offset: usize) -> (r: Option<usize>)
    ensures
        r == spec_sub_offset(io_offset, crate::apu::IO_BASE, crate::apu::IO_SIZE),
{
    sub_offset(io_offset, crate::apu::IO_BASE, crate::apu::IO_SIZE)
}

/// DMA0SAD..DMA3CNT_H (0xB0..0xE0) relative offset.
pub fn dma_offset(io_offset: usize) -> (r: Option<usize>)
    ensures
        r == spec_sub_offset(io_offset, crate::dma::IO_BASE, crate::dma::IO_SIZE),
{
    sub_offset(io_offset, crate::dma::IO_BASE, crate::dma::IO_SIZE)
}

/// TM0CNT_L..TM3CNT_H (0x100..0x110) relative offset.
pub fn timer_offset(io_offset: usize) -> (r: Option<usize>)
    ensures
        r == spec_sub_offset(io_offset, crate::timer::IO_BASE, crate::timer::IO_SIZE),
{
    sub_offset(io_offset, crate::timer::IO_BASE, crate::timer::IO_SIZE)
}

/// IE/IF (0x200..0x204) relative offset.
pub fn ie_if_offset(io_offset: usize) -> (r: Option<usize>)
    ensures
        r == spec_sub_offset(
            io_offset,
            crate::interrupts::IE_IF_BASE,
            crate::interrupts::IE_IF_SIZE,
        ),
{
    sub_offset(io_offset, crate::interrupts::IE_IF_BASE, crate::interrupts::IE_IF_SIZE)
}

/// IME (0x208..0x20C) relative offset.
pub fn ime_offset(io_offset: usize) -> (r: Option<usize>)
    ensures
        r == spec_sub_offset(io_offset, crate::interrupts::IME_BASE, crate::interrupts::IME_SIZE),
{
    sub_offset(io_offset, crate::interrupts::IME_BASE, crate::interrupts::IME_SIZE)
}

/// The whole state behind the bus.
#[verifier::ext_equal]
pub struct BusView {
    pub bios: Seq<u8>,
    pub ewram: Seq<u8>,
    pub iwram: Seq<u8>,
    pub io: Seq<u8>,
    pub ppu: PpuView,
    pub joypad: Joypad,
    pub timers: Seq<TimerChannel>,
    pub interrupts: Interrupts,
    pub apu: ApuView,
    pub dma: Seq<DmaChannel>,
    pub cart_rom: Seq<u8>,
    pub cart_header: GbaHeader,
    pub cart_save: SaveView,
}

impl BusView {
    /// Every part of the bus other than the BIOS is as power-on leaves it
    /// around `cartridge`: RAM and I/O zeroed, every device reset.
    pub open spec fn powered_on_except_bios(self, cartridge: Cartridge) -> bool {
        &&& self.ewram == Seq::new(EWRAM_SIZE as nat, |i: int| 0u8)
        &&& self.iwram == Seq::new(IWRAM_SIZE as nat, |i: int| 0u8)
        &&& self.io == Seq::new(IO_SIZE as nat, |i: int| 0u8)
        &&& crate::ppu::spec_ppu_new(self.ppu)
        &&& self.joypad == Joypad::with_values(crate::joypad::RELEASED, 0)
        &&& self.timers.len() == 4
        &&& forall|i: int|
            0 <= i < 4 ==> {
                let c = #[trigger] self.timers[i];
                c.spec_reload() == 0 && c.spec_counter() == 0 && c.spec_control() == 0
            }
        &&& self.interrupts == Interrupts::with_values(0, 0, false)
        &&& self.apu == crate::apu::spec_apu_new()
        &&& self.dma.len() == 4
        &&& forall|i: int|
            0 <= i < 4 ==> #[trigger] self.dma[i] == (DmaChannel { sad: 0, dad: 0, count: 0, control: 0 })
        &&& self.cart_rom == cartridge.spec_rom()
        &&& self.cart_header == cartridge.spec_header()
        &&& self.cart_save == cartridge.spec_save()
    }
}

/// A timer register byte as read.
pub open spec fn spec_timers_read(chs: Seq<TimerChannel>, offset: usize) -> u8 {
    let ch = chs[(offset / 4) as int];
    let b = offset % 4;
    if b == 0 {
        (ch.spec_counter() & 0xFF) as u8
    } else if b == 1 {
        (ch.spec_counter() >> 8) as u8
    } else if b == 2 {
        (ch.spec_control() & 0xFF) as u8
    } else {
        (ch.spec_control() >> 8) as u8
    }
}

impl BusView {
    pub open spec fn wf(self) -> bool {
        &&& self.bios.len() == BIOS_SIZE
        &&& self.ewram.len() == EWRAM_SIZE
        &&& self.iwram.len() == IWRAM_SIZE
        &&& self.io.len() == IO_SIZE
        &&& self.ppu.wf()
        &&& self.timers.len() == 4
        &&& forall|i: int| 0 <= i < 4 ==> #[trigger] self.timers[i].wf()
        &&& self.apu.wf()
        &&& self.dma.len() == 4
        &&& self.cart_save.wf()
    }

    /// The I/O page byte at `off`, dispatched to the device that owns it.
    pub open spec fn io_read(self, off: usize) -> u8 {
        if off < crate::ppu::IO_SIZE {
            self.ppu.read_reg(off)
        } else if spec_sub_offset(off, 0x130, 4) is Some {
            self.joypad.spec_read_register((off - 0x130) as usize)
        } else if spec_sub_offset(off, 0x60, 0x48) is Some {
            self.apu.spec_read((off - 0x60) as usize)
        } else if spec_sub_offset(off, 0xB0, 0x30) is Some {
            spec_dma_read(self.dma, (off - 0xB0) as usize)
        } else if spec_sub_offset(off, 0x100, 16) is Some {
            spec_timers_read(self.timers, (off - 0x100) as usize)
        } else if spec_sub_offset(off, 0x200, 4) is Some {
            self.interrupts.spec_read_ie_if((off - 0x200) as usize)
        } else if spec_sub_offset(off, 0x208, 4) is Some {
            self.interrupts.spec_read_ime((off - 0x208) as usize)
        } else if off < IO_SIZE {
            self.io[off as int]
        } else {
            0
        }
    }

    /// The byte at `addr`.
    pub open spec fn read_byte(self, addr: u32) -> u8 {
        match spec_region_of(addr) {
            Region::Bios => if (addr as int) < self.bios.len() {
                self.bios[addr as int]
            } else {
                0
            },
            Region::Ewram => self.ewram[(addr as int) % (EWRAM_SIZE as int)],
            Region::Iwram => self.iwram[(addr as int) % (IWRAM_SIZE as int)],
            Region::Io => self.io_read((addr as int % 0x100_0000) as usize),
            Region::Palette => self.ppu.palette[(addr as int) % (PALETTE_SIZE as int)],
            Region::Vram => self.ppu.vram[spec_vram_offset(addr) as int],
            Region::Oam => self.ppu.oam[(addr as int) % (OAM_SIZE as int)],
            Region::Rom => {
                let off = (addr as int) % 0x200_0000;
                if off < self.cart_rom.len() {
                    self.cart_rom[off]
                } else {
                    0
                }
            },
            Region::Backup => self.cart_save.spec_read((addr as int % 0x10000) as usize),
            Region::Unused => 0,
        }
    }

    pub open spec fn read16(self, addr: u32) -> u16 {
        let a = addr & 0xFFFF_FFFE;
        (self.read_byte(a) as u16) | (((self.read_byte((a + 1) as u32) as u16) << 8u16) as u16)
    }

    pub open spec fn read32(self, addr: u32) -> u32 {
        let a = addr & 0xFFFF_FFFC;
        (self.read16(a) as u32) | (((self.read16((a + 2) as u32) as u32) << 16u32) as u32)
    }
}

/// The bus after a plain byte store at `addr`. A store to a DMA channel's
/// control high byte that arms it for immediate start runs the transfer
/// at once, nesting at most `depth` deep.
pub closed spec fn spec_write_byte(b: BusView, addr: u32, value: u8, depth: nat) -> BusView
    decreases depth, 5int, 0int,
{
    match spec_region_of(addr) {
        Region::Ewram => BusView {
            ewram: b.ewram.update((addr as int) % (EWRAM_SIZE as int), value),
            ..b
        },
        Region::Iwram => BusView {
            iwram: b.iwram.update((addr as int) % (IWRAM_SIZE as int), value),
            ..b
        },
        Region::Io => {
            let off = (addr as int % 0x100_0000) as usize;
            if off < crate::ppu::IO_SIZE {
                BusView { ppu: b.ppu.write_reg(off, value), ..b }
            } else if spec_sub_offset(off, 0x130, 4) is Some {
                BusView {
                    joypad: b.joypad.spec_write_register((off - 0x130) as usize, value),
                    ..b
                }
            } else if spec_sub_offset(off, 0x60, 0x48) is Some {
                BusView { apu: b.apu.spec_write((off - 0x60) as usize, value), ..b }
            } else if spec_sub_offset(off, 0xB0, 0x30) is Some {
                let doff = (off - 0xB0) as usize;
                let b1 = BusView { dma: spec_dma_write(b.dma, doff, value), ..b };
                let ch = (doff / 12) as usize;
                if doff % 12 == 11 && spec_armed_for_immediate(b1.dma, ch) && depth > 0 {
                    spec_execute_dma(b1, ch, (depth - 1) as nat)
                } else {
                    b1
                }
            } else if spec_sub_offset(off, 0x100, 16) is Some {
                let toff = (off - 0x100) as usize;
                BusView {
                    timers: b.timers.update(
                        (toff / 4) as int,
                        spec_write_channel(b.timers[(toff / 4) as int], toff % 4, value),
                    ),
                    ..b
                }
            } else if spec_sub_offset(off, 0x200, 4) is Some {
                BusView {
                    interrupts: b.interrupts.spec_write_ie_if((off - 0x200) as usize, value),
                    ..b
                }
            } else if spec_sub_offset(off, 0x208, 4) is Some {
                BusView {
                    interrupts: b.interrupts.spec_write_ime((off - 0x208) as usize, value),
                    ..b
                }
            } else if off < IO_SIZE {
                BusView { io: b.io.update(off as int, value), ..b }
            } else {
                b
            }
        },
        Region::Palette => BusView {
            ppu: PpuView {
                palette: b.ppu.palette.update((addr as int) % (PALETTE_SIZE as int), value),
                ..b.ppu
            },
            ..b
        },
        Region::Vram => BusView {
            ppu: PpuView { vram: b.ppu.vram.update(spec_vram_offset(addr) as int, value), ..b.ppu },
            ..b
        },
        Region::Oam => BusView {
            ppu: PpuView {
                oam: b.ppu.oam.update((addr as int) % (OAM_SIZE as int), value),
                ..b.ppu
            },
            ..b
        },
        Region::Backup => BusView {
            cart_save: b.cart_save.spec_write((addr as int % 0x10000) as usize, value),
            ..b
        },
        _ => b,
    }
}

pub closed spec fn spec_write16(b: BusView, addr: u32, value: u16, depth: nat) -> BusView
    decreases depth, 6int, 0int,
{
    let a = addr & 0xFFFF_FFFE;
    spec_write_byte(
        spec_write_byte(b, a, (value & 0xFF) as u8, depth),
        (a + 1) as u32,
        (value >> 8u16) as u8,
        depth,
    )
}

pub closed spec fn spec_write32(b: BusView, addr: u32, value: u32, depth: nat) -> BusView
    decreases depth, 7int, 0int,
{
    let a = addr & 0xFFFF_FFFC;
    spec_write16(
        spec_write16(b, a, (value & 0xFFFF) as u16, depth),
        (a + 2) as u32,
        (value >> 16u32) as u16,
        depth,
    )
}

/// The bus and the source and destination addresses after `k` units of a
/// transfer.
pub closed spec fn spec_dma_units(b: BusView, t: DmaTransfer, k: nat, depth: nat) -> (BusView, u32, u32)
    decreases depth, 8int, k,
{
    if k == 0 {
        (b, t.src, t.dst)
    } else {
        let p = spec_dma_units(b, t, (k - 1) as nat, depth);
        let b2 = if t.word32 {
            spec_write32(p.0, p.2, p.0.read32(p.1), depth)
        } else {
            spec_write16(p.0, p.2, p.0.read16(p.1), depth)
        };
        let unit: u32 = if t.word32 {
            4
        } else {
            2
        };
        (b2, spec_step_addr(p.1, t.src_control, unit), spec_step_addr(p.2, t.dest_control, unit))
    }
}

/// A whole transfer of channel `ch`: every unit copied, the channel's
/// registers updated for a repeat (or the channel disabled), and its
/// interrupt requested when enabled.
pub closed spec fn spec_execute_dma(b: BusView, ch: usize, depth: nat) -> BusView
    decreases depth, 9int, 0int,
{
    let t = spec_latch(b.dma[ch as int], ch);
    let r = spec_dma_units(b, t, t.count as nat, depth);
    let b2 = BusView { dma: spec_finish_transfer(r.0.dma, ch, r.1, r.2), ..r.0 };
    if t.irq_enable {
        BusView { interrupts: b2.interrupts.spec_request((8 + ch) as u16), ..b2 }
    } else {
        b2
    }
}

/// Byte-granularity store: VRAM and palette RAM take the byte in both
/// halves of the halfword, and OAM ignores byte writes.
pub closed spec fn spec_write8(b: BusView, addr: u32, value: u8, depth: nat) -> BusView {
    match spec_region_of(addr) {
        Region::Palette | Region::Vram => {
            let a = addr & 0xFFFF_FFFE;
            spec_write_byte(spec_write_byte(b, a, value, depth), (a + 1) as u32, value, depth)
        },
        Region::Oam => b,
        _ => spec_write_byte(b, addr, value, depth),
    }
}

/// Channels 0 to n-1, each run when it was armed for `timing` in `b0`
/// (the armed set is taken before any of them runs).
pub closed spec fn spec_trigger_upto(b: BusView, b0: BusView, timing: u8, n: int) -> BusView
    decreases n,
{
    if n <= 0 {
        b
    } else {
        let p = spec_trigger_upto(b, b0, timing, n - 1);
        let ch = n - 1;
        if b0.dma[ch].spec_enabled() && b0.dma[ch].spec_start_timing() == timing {
            spec_execute_dma(p, ch as usize, DMA_NEST_LIMIT as nat)
        } else {
            p
        }
    }
}

/// Work RAM reads back the last byte written to any of its mirrors: EWRAM
/// repeats every 256KB and IWRAM every 32KB; a byte store touches nothing
/// else in that RAM.
pub proof fn lemma_ram_byte_round_trip(b: BusView, addr: u32, other: u32, value: u8, depth: nat)
    requires
        b.wf(),
        addr >> 24u32 == 2 || addr >> 24u32 == 3,
        other >> 24u32 == addr >> 24u32,
    ensures
        ({
            let size: int = if addr >> 24u32 == 2 {
                EWRAM_SIZE as int
            } else {
                IWRAM_SIZE as int
            };
            let after = spec_write8(b, addr, value, depth).read_byte(other);
            &&& (other as int) % size == (addr as int) % size ==> after == value
            &&& (other as int) % size != (addr as int) % size ==> after == b.read_byte(other)
        }),
{
}

/// BIOS and cartridge ROM are read-only, and OAM ignores byte stores: such
/// a store leaves the whole bus unchanged.
pub proof fn lemma_read_only_stores(b: BusView, addr: u32, value: u8, depth: nat)
    requires
        addr >> 24u32 == 0 || addr >> 24u32 == 7 || 8 <= addr >> 24u32 <= 0x0D,
    ensures
        spec_write8(b, addr, value, depth) == b,
{
}

/// Facts about the halfword- and word-aligned addresses of `addr`: they
/// lie in the same 16MB region as `addr`, and so do the bytes after them.
proof fn lemma_align(addr: u32)
    ensures
        (addr & 0xFFFF_FFFE) >> 24u32 == addr >> 24u32,
        ((addr & 0xFFFF_FFFE) + 1) as u32 >> 24u32 == addr >> 24u32,
        (addr & 0xFFFF_FFFE) % 2 == 0,
        (addr & 0xFFFF_FFFE) < 0xFFFF_FFFF,
        (addr & 0xFFFF_FFFC) >> 24u32 == addr >> 24u32,
        ((addr & 0xFFFF_FFFC) + 1) as u32 >> 24u32 == addr >> 24u32,
        ((addr & 0xFFFF_FFFC) + 2) as u32 >> 24u32 == addr >> 24u32,
        ((addr & 0xFFFF_FFFC) + 3) as u32 >> 24u32 == addr >> 24u32,
        (addr & 0xFFFF_FFFC) % 4 == 0,
        (addr & 0xFFFF_FFFC) < 0xFFFF_FFFD,
        (addr & 0xFFFF_FFFC) & 0xFFFF_FFFE == addr & 0xFFFF_FFFC,
        (((addr & 0xFFFF_FFFC) + 2) as u32) & 0xFFFF_FFFE == ((addr & 0xFFFF_FFFC) + 2) as u32,
{
    assert((addr & 0xFFFF_FFFE) >> 24u32 == addr >> 24u32 && ((addr & 0xFFFF_FFFE) + 1) as u32
        >> 24u32 == addr >> 24u32 && (addr & 0xFFFF_FFFE) % 2 == 0 && (addr & 0xFFFF_FFFE)
        < 0xFFFF_FFFF && (addr & 0xFFFF_FFFC) >> 24u32 == addr >> 24u32 && ((addr & 0xFFFF_FFFC)
        + 1) as u32 >> 24u32 == addr >> 24u32 && ((addr & 0xFFFF_FFFC) + 2) as u32 >> 24u32 == addr
        >> 24u32 && ((addr & 0xFFFF_FFFC) + 3) as u32 >> 24u32 == addr >> 24u32 && (addr
        & 0xFFFF_FFFC) % 4 == 0 && (addr & 0xFFFF_FFFC) < 0xFFFF_FFFD && (addr & 0xFFFF_FFFC)
        & 0xFFFF_FFFE == addr & 0xFFFF_FFFC && (((addr & 0xFFFF_FFFC) + 2) as u32) & 0xFFFF_FFFE
        == ((addr & 0xFFFF_FFFC) + 2) as u32) by (bit_vector);
}

/// The work RAM byte that `y` (in EWRAM or IWRAM) reads.
pub open spec fn ram_read(b: BusView, y: u32) -> u8 {
    if y >> 24u32 == 2 {
        b.ewram[(y as int) % (EWRAM_SIZE as int)]
    } else {
        b.iwram[(y as int) % (IWRAM_SIZE as int)]
    }
}

/// Work RAM with `v` stored at the byte `x` (in EWRAM or IWRAM) mirrors to.
pub open spec fn ram_store(b: BusView, x: u32, v: u8) -> BusView {
    if x >> 24u32 == 2 {
        BusView { ewram: b.ewram.update((x as int) % (EWRAM_SIZE as int), v), ..b }
    } else {
        BusView { iwram: b.iwram.update((x as int) % (IWRAM_SIZE as int), v), ..b }
    }
}

proof fn lemma_ram_read(b: BusView, y: u32)
    requires
        y >> 24u32 == 2 || y >> 24u32 == 3,
    ensures
        b.read_byte(y) == ram_read(b, y),
{
}

proof fn lemma_ram_store(b: BusView, x: u32, v: u8, depth: nat)
    requires
        x >> 24u32 == 2 || x >> 24u32 == 3,
    ensures
        spec_write_byte(b, x, v, depth) == ram_store(b, x, v),
{
}

/// Byte `k` (0 = least significant) of `w`.
pub open spec fn byte_of(w: u32, k: int) -> u8 {
    if k == 0 {
        (w & 0xFF) as u8
    } else if k == 1 {
        ((w >> 8u32) & 0xFF) as u8
    } else if k == 2 {
        ((w >> 16u32) & 0xFF) as u8
    } else {
        (w >> 24u32) as u8
    }
}

proof fn lemma_ram_store_half_shape(b: BusView, x: u32, h: u16, depth: nat)
    requires
        x >> 24u32 == 2 || x >> 24u32 == 3,
    ensures
        ({
            let a = x & 0xFFFF_FFFE;
            spec_write16(b, x, h, depth) == ram_store(
                ram_store(b, a, (h & 0xFF) as u8),
                (a + 1) as u32,
                (h >> 8u16) as u8,
            )
        }),
{
    let a = x & 0xFFFF_FFFE;
    let a1 = (a + 1) as u32;
    lemma_align(x);
    let b1 = spec_write_byte(b, a, (h & 0xFF) as u8, depth);
    lemma_ram_store(b, a, (h & 0xFF) as u8, depth);
    lemma_ram_store(b1, a1, (h >> 8u16) as u8, depth);
}

/// Halfword and word stores to work RAM read back little-endian: a word
/// store reads back as that word, as its two halfwords (low one first) and
/// as its four bytes (least significant first); a halfword store reads back
/// as that halfword and as its two bytes.
#[verifier::rlimit(40)]
pub proof fn lemma_ram_wide_round_trip(b: BusView, addr: u32, h: u16, w: u32, depth: nat)
    requires
        b.wf(),
        addr >> 24u32 == 2 || addr >> 24u32 == 3,
    ensures
        ({
            let a = addr & 0xFFFF_FFFE;
            let after = spec_write16(b, addr, h, depth);
            &&& after.read16(addr) == h
            &&& after.read_byte(a) == (h & 0xFF) as u8
            &&& after.read_byte((a + 1) as u32) == (h >> 8u16) as u8
        }),
        ({
            let a = addr & 0xFFFF_FFFC;
            let after = spec_write32(b, addr, w, depth);
            &&& after.read32(addr) == w
            &&& after.read16(a) == (w & 0xFFFF) as u16
            &&& after.read16((a + 2) as u32) == (w >> 16u32) as u16
            &&& after.read_byte(a) == byte_of(w, 0)
            &&& after.read_byte((a + 1) as u32) == byte_of(w, 1)
            &&& after.read_byte((a + 2) as u32) == byte_of(w, 2)
            &&& after.read_byte((a + 3) as u32) == byte_of(w, 3)
        }),
{
    lemma_half_round_trip(b, addr, h, depth);
    lemma_word_round_trip(b, addr, w, depth);
}

/// Two stores to neighbouring work RAM bytes, the first at an even
/// address, read back as stored.
proof fn lemma_ram_two(b: BusView, a: u32, lo: u8, hi: u8)
    requires
        b.ewram.len() == EWRAM_SIZE,
        b.iwram.len() == IWRAM_SIZE,
        a >> 24u32 == 2 || a >> 24u32 == 3,
        (a + 1) as u32 >> 24u32 == a >> 24u32,
        a % 2 == 0,
        a < 0xFFFF_FFFF,
    ensures
        ram_read(ram_store(ram_store(b, a, lo), (a + 1) as u32, hi), a) == lo,
        ram_read(ram_store(ram_store(b, a, lo), (a + 1) as u32, hi), (a + 1) as u32) == hi,
        ram_store(ram_store(b, a, lo), (a + 1) as u32, hi).ewram.len() == EWRAM_SIZE,
        ram_store(ram_store(b, a, lo), (a + 1) as u32, hi).iwram.len() == IWRAM_SIZE,
{
    lemma_mod_next(a as int, ram_size(a >> 24u32), 1);
}

/// Within a 4-aligned group, offsets past an aligned address stay in the
/// same block of a RAM whose size is a multiple of 4.
proof fn lemma_mod_next(a: int, n: int, k: int)
    requires
        n == EWRAM_SIZE || n == IWRAM_SIZE,
        0 <= a,
        0 <= k < 4,
        k == 0 || k == 2 ==> a % 2 == 0,
        k == 1 ==> a % 2 == 0,
        k >= 2 ==> a % 4 == 0,
    ensures
        (a + k) % n == a % n + k,
{
    let q = a / n;
    let r = a % n;
    assert(a == q * n + r && 0 <= r < n) by (nonlinear_arith)
        requires
            n > 0,
            q == a / n,
            r == a % n,
    ;
    let t = q * (n / 4);
    assert(a == 4 * t + r && a == 2 * (2 * t) + r) by (nonlinear_arith)
        requires
            a == q * n + r,
            n == 4 * (n / 4),
            t == q * (n / 4),
    ;
    vstd::arithmetic::div_mod::lemma_mod_multiples_vanish(t, r, 4);
    vstd::arithmetic::div_mod::lemma_mod_multiples_vanish(2 * t, r, 2);
    assert((a + k) % n == r + k) by (nonlinear_arith)
        requires
            a == q * n + r,
            0 <= r + k < n,
    ;
}

/// The size of the work RAM that the top address byte `top` selects.
pub open spec fn ram_size(top: u32) -> int {
    if top == 2 {
        EWRAM_SIZE as int
    } else {
        IWRAM_SIZE as int
    }
}

/// A halfword store's two bytes, as work RAM holds them.
proof fn lemma_half_ram(b: BusView, addr: u32, h: u16, depth: nat)
    requires
        b.ewram.len() == EWRAM_SIZE,
        b.iwram.len() == IWRAM_SIZE,
        addr >> 24u32 == 2 || addr >> 24u32 == 3,
    ensures
        ({
            let a = addr & 0xFFFF_FFFE;
            let after = spec_write16(b, addr, h, depth);
            &&& a >> 24u32 == addr >> 24u32
            &&& (a + 1) as u32 >> 24u32 == addr >> 24u32
            &&& ram_read(after, a) == (h & 0xFF) as u8
            &&& ram_read(after, (a + 1) as u32) == (h >> 8u16) as u8
        }),
{
    let a = addr & 0xFFFF_FFFE;
    let a1 = (a + 1) as u32;
    lemma_align(addr);
    lemma_ram_store_half_shape(b, addr, h, depth);
    lemma_ram_two(b, a, (h & 0xFF) as u8, (h >> 8u16) as u8);
}

#[verifier::rlimit(40)]
proof fn lemma_half_round_trip(b: BusView, addr: u32, h: u16, depth: nat)
    requires
        b.ewram.len() == EWRAM_SIZE,
        b.iwram.len() == IWRAM_SIZE,
        addr >> 24u32 == 2 || addr >> 24u32 == 3,
    ensures
        ({
            let a = addr & 0xFFFF_FFFE;
            let after = spec_write16(b, addr, h, depth);
            &&& after.read16(addr) == h
            &&& after.read_byte(a) == (h & 0xFF) as u8
            &&& after.read_byte((a + 1) as u32) == (h >> 8u16) as u8
        }),
{
    let a = addr & 0xFFFF_FFFE;
    let a1 = (a + 1) as u32;
    let after = spec_write16(b, addr, h, depth);
    lemma_half_ram(b, addr, h, depth);
    lemma_ram_read(after, a);
    lemma_ram_read(after, a1);
    let lo = (h & 0xFF) as u8;
    let hi = (h >> 8u16) as u8;
    assert(((lo as u16) | (((hi as u16) << 8u16) as u16)) == h) by (bit_vector)
        requires
            lo == (h & 0xFF) as u8,
            hi == (h >> 8u16) as u8,
    ;
}

/// Four stores to the bytes of a 4-aligned work RAM word read back as
/// stored.
proof fn lemma_ram_four(b: BusView, c: u32, w0: u8, w1: u8, w2: u8, w3: u8)
    requires
        b.ewram.len() == EWRAM_SIZE,
        b.iwram.len() == IWRAM_SIZE,
        c >> 24u32 == 2 || c >> 24u32 == 3,
        (c + 1) as u32 >> 24u32 == c >> 24u32,
        (c + 2) as u32 >> 24u32 == c >> 24u32,
        (c + 3) as u32 >> 24u32 == c >> 24u32,
        c % 4 == 0,
        c < 0xFFFF_FFFD,
    ensures
        ({
            let after = ram_store(
                ram_store(ram_store(ram_store(b, c, w0), (c + 1) as u32, w1), (c + 2) as u32, w2),
                (c + 3) as u32,
                w3,
            );
            &&& ram_read(after, c) == w0
            &&& ram_read(after, (c + 1) as u32) == w1
            &&& ram_read(after, (c + 2) as u32) == w2
            &&& ram_read(after, (c + 3) as u32) == w3
        }),
{
    let n = ram_size(c >> 24u32);
    lemma_mod_next(c as int, n, 1);
    lemma_mod_next(c as int, n, 2);
    lemma_mod_next(c as int, n, 3);
}

/// A word store's four bytes, as work RAM holds them.
proof fn lemma_word_ram(b: BusView, addr: u32, w: u32, depth: nat)
    requires
        b.ewram.len() == EWRAM_SIZE,
        b.iwram.len() == IWRAM_SIZE,
        addr >> 24u32 == 2 || addr >> 24u32 == 3,
    ensures
        ({
            let c = addr & 0xFFFF_FFFC;
            let after = spec_write32(b, addr, w, depth);
            &&& c >> 24u32 == addr >> 24u32
            &&& (c + 1) as u32 >> 24u32 == addr >> 24u32
            &&& (c + 2) as u32 >> 24u32 == addr >> 24u32
            &&& (c + 3) as u32 >> 24u32 == addr >> 24u32
            &&& ram_read(after, c) == byte_of(w, 0)
            &&& ram_read(after, (c + 1) as u32) == byte_of(w, 1)
            &&& ram_read(after, (c + 2) as u32) == byte_of(w, 2)
            &&& ram_read(after, (c + 3) as u32) == byte_of(w, 3)
        }),
{
    let c = addr & 0xFFFF_FFFC;
    let c1 = (c + 1) as u32;
    let c2 = (c + 2) as u32;
    let c3 = (c + 3) as u32;
    lemma_align(addr);
    let lo = (w & 0xFFFF) as u16;
    let hi = (w >> 16u32) as u16;
    let w0 = (lo & 0xFF) as u8;
    let w1 = (lo >> 8u16) as u8;
    let w2 = (hi & 0xFF) as u8;
    let w3 = (hi >> 8u16) as u8;
    assert(w0 == (w & 0xFF) as u8 && w1 == ((w >> 8u32) & 0xFF) as u8 && w2 == ((w >> 16u32)
        & 0xFF) as u8 && w3 == (w >> 24u32) as u8) by (bit_vector)
        requires
            lo == (w & 0xFFFF) as u16,
            hi == (w >> 16u32) as u16,
            w0 == (lo & 0xFF) as u8,
            w1 == (lo >> 8u16) as u8,
            w2 == (hi & 0xFF) as u8,
            w3 == (hi >> 8u16) as u8,
    ;
    let b1 = spec_write16(b, c, lo, depth);
    lemma_ram_store_half_shape(b, c, lo, depth);
    lemma_ram_store_half_shape(b1, c2, hi, depth);
    lemma_ram_four(b, c, w0, w1, w2, w3);
}

#[verifier::rlimit(40)]
proof fn lemma_word_round_trip(b: BusView, addr: u32, w: u32, depth: nat)
    requires
        b.ewram.len() == EWRAM_SIZE,
        b.iwram.len() == IWRAM_SIZE,
        addr >> 24u32 == 2 || addr >> 24u32 == 3,
    ensures
        ({
            let a = addr & 0xFFFF_FFFC;
            let after = spec_write32(b, addr, w, depth);
            &&& after.read32(addr) == w
            &&& after.read16(a) == (w & 0xFFFF) as u16
            &&& after.read16((a + 2) as u32) == (w >> 16u32) as u16
            &&& after.read_byte(a) == byte_of(w, 0)
            &&& after.read_byte((a + 1) as u32) == byte_of(w, 1)
            &&& after.read_byte((a + 2) as u32) == byte_of(w, 2)
            &&& after.read_byte((a + 3) as u32) == byte_of(w, 3)
        }),
{
    let c = addr & 0xFFFF_FFFC;
    let c1 = (c + 1) as u32;
    let c2 = (c + 2) as u32;
    let c3 = (c + 3) as u32;
    lemma_align(addr);
    let after = spec_write32(b, addr, w, depth);
    lemma_word_ram(b, addr, w, depth);
    lemma_ram_read(after, c);
    lemma_ram_read(after, c1);
    lemma_ram_read(after, c2);
    lemma_ram_read(after, c3);
    let w0 = byte_of(w, 0);
    let w1 = byte_of(w, 1);
    let w2 = byte_of(w, 2);
    let w3 = byte_of(w, 3);
    let l = ((w0 as u16) | (((w1 as u16) << 8u16) as u16));
    let u = ((w2 as u16) | (((w3 as u16) << 8u16) as u16));
    assert(l == (w & 0xFFFF) as u16 && u == (w >> 16u32) as u16 && ((l as u32) | (((u as u32)
        << 16u32) as u32)) == w) by (bit_vector)
        requires
            w0 == (w & 0xFF) as u8,
            w1 == ((w >> 8u32) & 0xFF) as u8,
            w2 == ((w >> 16u32) & 0xFF) as u8,
            w3 == (w >> 24u32) as u8,
            l == ((w0 as u16) | (((w1 as u16) << 8u16) as u16)),
            u == ((w2 as u16) | (((w3 as u16) << 8u16) as u16)),
    ;
}

/// A halfword or word store to work RAM changes nothing but the bytes it
/// writes: every other byte of that RAM reads as before, and every other
/// part of the bus (the other RAM, I/O, video memory, the cartridge, every
/// device) is left exactly as it was.
#[verifier::rlimit(40)]
pub proof fn lemma_ram_wide_frame(b: BusView, addr: u32, h: u16, w: u32, depth: nat)
    requires
        b.wf(),
        addr >> 24u32 == 2 || addr >> 24u32 == 3,
    ensures
        ({
            let n = ram_size(addr >> 24u32);
            let a = addr & 0xFFFF_FFFE;
            let after = spec_write16(b, addr, h, depth);
            &&& addr >> 24u32 == 2 ==> after == BusView { ewram: after.ewram, ..b }
            &&& addr >> 24u32 == 3 ==> after == BusView { iwram: after.iwram, ..b }
            &&& forall|y: u32|
                y >> 24u32 == addr >> 24u32 && (y as int) % n != (a as int) % n && (y as int) % n
                    != (a as int + 1) % n ==> #[trigger] after.read_byte(y) == b.read_byte(y)
        }),
        ({
            let n = ram_size(addr >> 24u32);
            let c = addr & 0xFFFF_FFFC;
            let after = spec_write32(b, addr, w, depth);
            &&& addr >> 24u32 == 2 ==> after == BusView { ewram: after.ewram, ..b }
            &&& addr >> 24u32 == 3 ==> after == BusView { iwram: after.iwram, ..b }
            &&& forall|y: u32|
                y >> 24u32 == addr >> 24u32 && (y as int) % n != (c as int) % n && (y as int) % n
                    != (c as int + 1) % n && (y as int) % n != (c as int + 2) % n && (y as int) % n
                    != (c as int + 3) % n ==> #[trigger] after.read_byte(y) == b.read_byte(y)
        }),
{
    let a = addr & 0xFFFF_FFFE;
    let a1 = (a + 1) as u32;
    let c = addr & 0xFFFF_FFFC;
    let c1 = (c + 1) as u32;
    let c2 = (c + 2) as u32;
    let c3 = (c + 3) as u32;
    lemma_align(addr);
    let lo = (w & 0xFFFF) as u16;
    let hi = (w >> 16u32) as u16;
    lemma_ram_store_half_shape(b, addr, h, depth);
    let b1 = spec_write16(b, c, lo, depth);
    lemma_ram_store_half_shape(b, c, lo, depth);
    lemma_ram_store_half_shape(b1, c2, hi, depth);
    let after16 = spec_write16(b, addr, h, depth);
    let after32 = spec_write32(b, addr, w, depth);
    assert(after32 == spec_write16(b1, c2, hi, depth));
    assert forall|y: u32|
        y >> 24u32 == addr >> 24u32 && (y as int) % ram_size(addr >> 24u32) != (a as int) % ram_size(
            addr >> 24u32,
        ) && (y as int) % ram_size(addr >> 24u32) != (a as int + 1) % ram_size(
            addr >> 24u32,
        ) implies #[trigger] after16.read_byte(y) == b.read_byte(y) by {
        lemma_ram_read(after16, y);
        lemma_ram_read(b, y);
    }
    assert forall|y: u32|
        y >> 24u32 == addr >> 24u32 && (y as int) % ram_size(addr >> 24u32) != (c as int) % ram_size(
            addr >> 24u32,
        ) && (y as int) % ram_size(addr >> 24u32) != (c as int + 1) % ram_size(addr >> 24u32)
            && (y as int) % ram_size(addr >> 24u32) != (c as int + 2) % ram_size(addr >> 24u32)
            && (y as int) % ram_size(addr >> 24u32) != (c as int + 3) % ram_size(
            addr >> 24u32,
        ) implies #[trigger] after32.read_byte(y) == b.read_byte(y) by {
        lemma_ram_read(after32, y);
        lemma_ram_read(b, y);
    }
}

/// The addresses a halfword copy of `n` units from `src` to `dst` in work
/// RAM touches: both halfword-aligned in EWRAM or IWRAM, neither range
/// running past its RAM's end or its 16MB region, and the two ranges not
/// overlapping.
pub open spec fn ram_copy_ok(src: u32, dst: u32, n: nat) -> bool {
    let ns = ram_size(src >> 24u32);
    let nd = ram_size(dst >> 24u32);
    &&& src >> 24u32 == 2 || src >> 24u32 == 3
    &&& dst >> 24u32 == 2 || dst >> 24u32 == 3
    &&& src % 2 == 0
    &&& dst % 2 == 0
    &&& (src as int) % 0x100_0000 + 2 * n <= 0x100_0000
    &&& (dst as int) % 0x100_0000 + 2 * n <= 0x100_0000
    &&& (src as int) % ns + 2 * n <= ns
    &&& (dst as int) % nd + 2 * n <= nd
    &&& src >> 24u32 != dst >> 24u32 || (src as int) % ns + 2 * n <= (dst as int) % nd || (dst as int)
        % nd + 2 * n <= (src as int) % ns
}

/// The work RAM byte at `y` after `k` halfwords were copied from `src`
/// upward to `dst` upward: a byte of the destination range holds the
/// source byte at the same offset; every other byte is as it was.
pub open spec fn ram_copied(b: BusView, src: u32, dst: u32, k: nat, y: u32) -> u8 {
    let nd = ram_size(dst >> 24u32);
    let off = (y as int) % nd - (dst as int) % nd;
    if y >> 24u32 == dst >> 24u32 && 0 <= off < 2 * k {
        ram_read(b, (src + off) as u32)
    } else {
        ram_read(b, y)
    }
}

/// `k` halfwords copied one at a time through work RAM, each read from
/// the memory the earlier copies left.
pub closed spec fn ram_copy16(b: BusView, src: u32, dst: u32, k: nat) -> BusView
    decreases k,
{
    if k == 0 {
        b
    } else {
        let p = ram_copy16(b, src, dst, (k - 1) as nat);
        let s = (src + 2 * (k - 1)) as u32;
        let d = (dst + 2 * (k - 1)) as u32;
        ram_store(ram_store(p, d, ram_read(p, s)), (d + 1) as u32, ram_read(p, (s + 1) as u32))
    }
}

/// An address `m` bytes past `a`, staying in `a`'s 16MB region and RAM,
/// keeps its region and lies `m` further into the RAM.
proof fn lemma_offset(a: u32, m: int)
    requires
        a >> 24u32 == 2 || a >> 24u32 == 3,
        0 <= m,
        (a as int) % 0x100_0000 + m < 0x100_0000,
    ensures
        a < 0x400_0000,
        ((a + m) as u32) as int == a + m,
        ((a + m) as u32) >> 24u32 == a >> 24u32,
        (a as int) % ram_size(a >> 24u32) + m < ram_size(a >> 24u32) ==> ((a + m) as u32 as int)
            % ram_size(a >> 24u32) == (a as int) % ram_size(a >> 24u32) + m,
{
    let t = a >> 24u32;
    assert(forall|x: u32| #[trigger] (x >> 24u32) == x / 0x100_0000) by (bit_vector);
    let q = (a as int) / 0x100_0000;
    let r = (a as int) % 0x100_0000;
    assert(a == q * 0x100_0000 + r && 0 <= r < 0x100_0000);
    assert(q <= 3);
    assert(a + m < 0x1_0000_0000);
    let x = (a + m) as u32;
    assert((x as int) / 0x100_0000 == q);
    let n = ram_size(t);
    if (a as int) % n + m < n {
        let qn = (a as int) / n;
        let rn = (a as int) % n;
        assert(a == qn * n + rn && 0 <= rn < n) by (nonlinear_arith)
            requires
                n > 0,
                qn == (a as int) / n,
                rn == (a as int) % n,
        ;
        assert((a + m) % n == rn + m) by (nonlinear_arith)
            requires
                a == qn * n + rn,
                0 <= rn + m < n,
        ;
    }
}

/// One unit of a halfword copy within work RAM: the halfword store of what
/// the source halfword reads stores its two bytes, low byte first.
pub proof fn lemma_copy_step(p: BusView, s: u32, d: u32, depth: nat)
    requires
        s >> 24u32 == 2 || s >> 24u32 == 3,
        d >> 24u32 == 2 || d >> 24u32 == 3,
        s % 2 == 0,
        d % 2 == 0,
    ensures
        spec_write16(p, d, p.read16(s), depth) == ram_store(
            ram_store(p, d, ram_read(p, s)),
            (d + 1) as u32,
            ram_read(p, (s + 1) as u32),
        ),
        p.read16(s) == (ram_read(p, s) as u16) | (((ram_read(p, (s + 1) as u32) as u16) << 8u16) as u16),
{
    lemma_align(s);
    lemma_align(d);
    let x0 = ram_read(p, s);
    let x1 = ram_read(p, (s + 1) as u32);
    let h = (x0 as u16) | (((x1 as u16) << 8u16) as u16);
    assert(s & 0xFFFF_FFFE == s && d & 0xFFFF_FFFE == d && (h & 0xFF) as u8 == x0 && (h >> 8u16) as u8
        == x1) by (bit_vector)
        requires
            s % 2 == 0,
            d % 2 == 0,
            h == (x0 as u16) | (((x1 as u16) << 8u16) as u16),
    ;
    lemma_ram_read(p, s);
    lemma_ram_read(p, (s + 1) as u32);
    assert(p.read16(s) == h);
    lemma_ram_store_half_shape(p, d, h, depth);
}

/// What a halfword copy through work RAM leaves: the destination range
/// holds the source bytes, everything else in RAM is as it was, and
/// nothing outside RAM changes.
proof fn lemma_ram_copy16(b: BusView, src: u32, dst: u32, n: nat, k: nat)
    requires
        b.ewram.len() == EWRAM_SIZE,
        b.iwram.len() == IWRAM_SIZE,
        ram_copy_ok(src, dst, n),
        k <= n,
    ensures
        ram_copy16(b, src, dst, k).ewram.len() == EWRAM_SIZE,
        ram_copy16(b, src, dst, k).iwram.len() == IWRAM_SIZE,
        ram_copy16(b, src, dst, k) == (BusView {
            ewram: ram_copy16(b, src, dst, k).ewram,
            iwram: ram_copy16(b, src, dst, k).iwram,
            ..b
        }),
        forall|y: u32|
            (y >> 24u32 == 2 || y >> 24u32 == 3) ==> #[trigger] ram_read(ram_copy16(b, src, dst, k), y)
                == ram_copied(b, src, dst, k, y),
    decreases k,
{
    if k > 0 {
        let k1 = (k - 1) as nat;
        lemma_ram_copy16(b, src, dst, n, k1);
        let p = ram_copy16(b, src, dst, k1);
        let m: int = 2 * (k1 as int);
        lemma_offset(src, m);
        lemma_offset(src, m + 1);
        lemma_offset(dst, m);
        lemma_offset(dst, m + 1);
        let s = (src + m) as u32;
        let d = (dst + m) as u32;
        assert((s + 1) as u32 == (src + (m + 1)) as u32);
        assert((d + 1) as u32 == (dst + (m + 1)) as u32);
        let nd = ram_size(dst >> 24u32);
        let ns = ram_size(src >> 24u32);
        // The source bytes of this unit were not written by earlier units.
        assert(ram_read(p, s) == ram_read(b, s));
        assert(ram_read(p, (s + 1) as u32) == ram_read(b, (s + 1) as u32));
        let after = ram_copy16(b, src, dst, k);
        assert forall|y: u32|
            (y >> 24u32 == 2 || y >> 24u32 == 3) implies #[trigger] ram_read(after, y)
            == ram_copied(b, src, dst, k, y) by {
            assert(ram_read(p, y) == ram_copied(b, src, dst, k1, y));
            let off = (y as int) % nd - (dst as int) % nd;
            if y >> 24u32 == dst >> 24u32 && off == m {
                assert((src + off) as u32 == s);
            } else if y >> 24u32 == dst >> 24u32 && off == m + 1 {
                assert((src + off) as u32 == (s + 1) as u32);
            }
        }
    }
}

/// The bytes of work RAM after a halfword copy, as [`ram_copied`] says,
/// read through the bus.
pub open spec fn bus_copied(b: BusView, src: u32, dst: u32, k: nat, y: u32) -> u8 {
    let nd = ram_size(dst >> 24u32);
    let off = (y as int) % nd - (dst as int) % nd;
    if y >> 24u32 == dst >> 24u32 && 0 <= off < 2 * k {
        b.read_byte((src + off) as u32)
    } else {
        b.read_byte(y)
    }
}

proof fn lemma_copy_reads(b: BusView, after: BusView, src: u32, dst: u32, n: nat)
    requires
        ram_copy_ok(src, dst, n),
        forall|y: u32|
            (y >> 24u32 == 2 || y >> 24u32 == 3) ==> #[trigger] ram_read(after, y) == ram_copied(
                b,
                src,
                dst,
                n,
                y,
            ),
    ensures
        forall|y: u32|
            (y >> 24u32 == 2 || y >> 24u32 == 3) ==> #[trigger] after.read_byte(y) == bus_copied(
                b,
                src,
                dst,
                n,
                y,
            ),
{
    assert forall|y: u32| (y >> 24u32 == 2 || y >> 24u32 == 3) implies #[trigger] after.read_byte(y)
        == bus_copied(b, src, dst, n, y) by {
        lemma_ram_read(after, y);
        lemma_ram_read(b, y);
        assert(ram_read(after, y) == ram_copied(b, src, dst, n, y));
        let nd = ram_size(dst >> 24u32);
        let off = (y as int) % nd - (dst as int) % nd;
        if y >> 24u32 == dst >> 24u32 && 0 <= off < 2 * n {
            lemma_offset(src, off);
            lemma_ram_read(b, (src + off) as u32);
        }
    }
}

/// One more unit of a halfword transfer.
proof fn lemma_dma_units_unfold(b: BusView, t: DmaTransfer, k: nat, depth: nat)
    requires
        k > 0,
        !t.word32,
    ensures
        ({
            let p = spec_dma_units(b, t, (k - 1) as nat, depth);
            spec_dma_units(b, t, k, depth) == (
                spec_write16(p.0, p.2, p.0.read16(p.1), depth),
                spec_step_addr(p.1, t.src_control, 2),
                spec_step_addr(p.2, t.dest_control, 2),
            )
        }),
{
}

proof fn lemma_dma_copy_step(b: BusView, t: DmaTransfer, k1: nat, depth: nat, sa: u32, da: u32)
    requires
        !t.word32,
        t.src_control is Increment || t.src_control is IncrementReload,
        t.dest_control is Increment || t.dest_control is IncrementReload,
        spec_dma_units(b, t, k1, depth) == (ram_copy16(b, t.src, t.dst, k1), sa, da),
        sa as int == t.src + 2 * k1,
        da as int == t.dst + 2 * k1,
        sa + 2 <= u32::MAX,
        da + 2 <= u32::MAX,
        sa >> 24u32 == 2 || sa >> 24u32 == 3,
        da >> 24u32 == 2 || da >> 24u32 == 3,
        sa % 2 == 0,
        da % 2 == 0,
    ensures
        spec_dma_units(b, t, k1 + 1, depth) == (
            ram_copy16(b, t.src, t.dst, k1 + 1),
            (sa + 2) as u32,
            (da + 2) as u32,
        ),
{
    let c = ram_copy16(b, t.src, t.dst, k1);
    lemma_dma_units_unfold(b, t, k1 + 1, depth);
    lemma_copy_step(c, sa, da, depth);
    assert((t.src + 2 * k1) as u32 == sa);
    assert((t.dst + 2 * k1) as u32 == da);
}

/// The addresses of unit `k` of a halfword copy that [`ram_copy_ok`] admits:
/// in work RAM, halfword aligned, with room for the next unit.
proof fn lemma_copy_addrs(src: u32, dst: u32, n: nat, k: nat)
    requires
        ram_copy_ok(src, dst, n),
        k < n,
    ensures
        ((src + 2 * k) as u32) as int == src + 2 * k,
        ((dst + 2 * k) as u32) as int == dst + 2 * k,
        src + 2 * k + 2 <= u32::MAX,
        dst + 2 * k + 2 <= u32::MAX,
        ((src + 2 * k) as u32) >> 24u32 == src >> 24u32,
        ((dst + 2 * k) as u32) >> 24u32 == dst >> 24u32,
        ((src + 2 * k) as u32) % 2 == 0,
        ((dst + 2 * k) as u32) % 2 == 0,
        ((src + 2 * k + 2) as u32) as int == src + 2 * k + 2,
        ((dst + 2 * k + 2) as u32) as int == dst + 2 * k + 2,
{
    lemma_offset(src, 2 * (k as int));
    lemma_offset(dst, 2 * (k as int));
}

#[verifier::rlimit(60)]
proof fn lemma_dma_units_copy(b: BusView, t: DmaTransfer, k: nat, depth: nat)
    requires
        !t.word32,
        t.src_control is Increment || t.src_control is IncrementReload,
        t.dest_control is Increment || t.dest_control is IncrementReload,
        ram_copy_ok(t.src, t.dst, t.count as nat),
        k <= t.count,
    ensures
        spec_dma_units(b, t, k, depth) == (
            ram_copy16(b, t.src, t.dst, k),
            (t.src + 2 * k) as u32,
            (t.dst + 2 * k) as u32,
        ),
    decreases k,
{
    if k > 0 {
        let k1 = (k - 1) as nat;
        lemma_dma_units_copy(b, t, k1, depth);
        lemma_copy_addrs(t.src, t.dst, t.count as nat, k1);
        let sa = (t.src + 2 * k1) as u32;
        let da = (t.dst + 2 * k1) as u32;
        lemma_dma_copy_step(b, t, k1, depth, sa, da);
    }
}

/// Where a transfer's addresses end up after `k` units: each moves by the
/// unit size (2 bytes, or 4 for a word transfer) per unit, up when
/// incrementing, down when decrementing, and not at all when fixed,
/// wrapping at 2^32.
pub proof fn lemma_dma_unit_addresses(b: BusView, t: DmaTransfer, k: nat, depth: nat)
    ensures
        ({
            let unit: int = if t.word32 {
                4
            } else {
                2
            };
            let r = spec_dma_units(b, t, k, depth);
            &&& (t.src_control is Increment || t.src_control is IncrementReload) ==> r.1 as int == (
            t.src + unit * k) % 0x1_0000_0000
            &&& t.src_control is Decrement ==> r.1 as int == (t.src - unit * k) % 0x1_0000_0000
            &&& t.src_control is Fixed ==> r.1 == t.src
            &&& (t.dest_control is Increment || t.dest_control is IncrementReload) ==> r.2 as int == (
            t.dst + unit * k) % 0x1_0000_0000
            &&& t.dest_control is Decrement ==> r.2 as int == (t.dst - unit * k) % 0x1_0000_0000
            &&& t.dest_control is Fixed ==> r.2 == t.dst
        }),
    decreases k,
{
    if k > 0 {
        let k1 = (k - 1) as nat;
        lemma_dma_unit_addresses(b, t, k1, depth);
        let unit: int = if t.word32 {
            4
        } else {
            2
        };
        let p = spec_dma_units(b, t, k1, depth);
        assert(spec_dma_units(b, t, k, depth).1 == spec_step_addr(p.1, t.src_control, unit as u32));
        assert(spec_dma_units(b, t, k, depth).2 == spec_step_addr(p.2, t.dest_control, unit as u32));
        lemma_wrap_step(t.src as int, p.1, unit, k1);
        lemma_wrap_step(t.dst as int, p.2, unit, k1);
    }
}

/// Stepping a wrapped address by `unit` keeps it the wrapped running sum.
proof fn lemma_wrap_step(a: int, x: u32, unit: int, k1: nat)
    requires
        unit == 2 || unit == 4,
    ensures
        x as int == (a + unit * k1) % 0x1_0000_0000 ==> x.wrapping_add(unit as u32) as int == (a
            + unit * (k1 + 1)) % 0x1_0000_0000,
        x as int == (a - unit * k1) % 0x1_0000_0000 ==> x.wrapping_sub(unit as u32) as int == (a
            - unit * (k1 + 1)) % 0x1_0000_0000,
{
    let m = 0x1_0000_0000int;
    if x as int == (a + unit * k1) % m {
        vstd::arithmetic::div_mod::lemma_add_mod_noop(a + unit * k1, unit, m);
        vstd::arithmetic::div_mod::lemma_small_mod((unit as nat), m as nat);
        assert(a + unit * (k1 + 1) == (a + unit * k1) + unit) by (nonlinear_arith);
    }
    if x as int == (a - unit * k1) % m {
        vstd::arithmetic::div_mod::lemma_sub_mod_noop(a - unit * k1, unit, m);
        vstd::arithmetic::div_mod::lemma_small_mod((unit as nat), m as nat);
        assert(a - unit * (k1 + 1) == (a - unit * k1) - unit) by (nonlinear_arith);
    }
}

/// A halfword DMA whose source and destination both increment, within
/// work RAM, copies its `count` halfwords in order: the destination's
/// `2 * count` bytes take the source's bytes at the same offsets, every
/// other RAM byte and every other part of the bus are as they were, and the
/// source and destination addresses end `2 * count` bytes further on.
pub proof fn lemma_dma_halfword_copy(b: BusView, t: DmaTransfer, depth: nat)
    requires
        b.wf(),
        !t.word32,
        t.src_control is Increment || t.src_control is IncrementReload,
        t.dest_control is Increment || t.dest_control is IncrementReload,
        ram_copy_ok(t.src, t.dst, t.count as nat),
    ensures
        ({
            let r = spec_dma_units(b, t, t.count as nat, depth);
            &&& r.1 as int == t.src + 2 * t.count
            &&& r.2 as int == t.dst + 2 * t.count
            &&& r.0 == (BusView { ewram: r.0.ewram, iwram: r.0.iwram, ..b })
            &&& forall|y: u32|
                (y >> 24u32 == 2 || y >> 24u32 == 3) ==> #[trigger] r.0.read_byte(y) == bus_copied(
                    b,
                    t.src,
                    t.dst,
                    t.count as nat,
                    y,
                )
        }),
{
    lemma_dma_units_copy(b, t, t.count as nat, depth);
    if t.count > 0 {
        lemma_copy_addrs(t.src, t.dst, t.count as nat, (t.count - 1) as nat);
    }
    lemma_ram_copy16(b, t.src, t.dst, t.count as nat, t.count as nat);
    lemma_copy_reads(b, ram_copy16(b, t.src, t.dst, t.count as nat), t.src, t.dst, t.count as nat);
}

proof fn lemma_copy_units_step(b: BusView, src: u32, dst: u32, k1: nat, sa: u32, da: u32)
    requires
        crate::bios::spec_copy_units(b, src, dst, false, false, k1) == (
            ram_copy16(b, src, dst, k1),
            sa,
            da,
        ),
        sa as int == src + 2 * k1,
        da as int == dst + 2 * k1,
        sa + 2 <= u32::MAX,
        da + 2 <= u32::MAX,
        sa >> 24u32 == 2 || sa >> 24u32 == 3,
        da >> 24u32 == 2 || da >> 24u32 == 3,
        sa % 2 == 0,
        da % 2 == 0,
    ensures
        crate::bios::spec_copy_units(b, src, dst, false, false, k1 + 1) == (
            ram_copy16(b, src, dst, k1 + 1),
            (sa + 2) as u32,
            (da + 2) as u32,
        ),
{
    let c = ram_copy16(b, src, dst, k1);
    lemma_copy_step(c, sa, da, DMA_NEST_LIMIT as nat);
    assert((src + 2 * k1) as u32 == sa);
    assert((dst + 2 * k1) as u32 == da);
}

#[verifier::rlimit(60)]
proof fn lemma_copy_units_copy(b: BusView, src: u32, dst: u32, n: nat, k: nat)
    requires
        ram_copy_ok(src, dst, n),
        k <= n,
    ensures
        crate::bios::spec_copy_units(b, src, dst, false, false, k) == (
            ram_copy16(b, src, dst, k),
            (src + 2 * k) as u32,
            (dst + 2 * k) as u32,
        ),
    decreases k,
{
    if k > 0 {
        let k1 = (k - 1) as nat;
        lemma_copy_units_copy(b, src, dst, n, k1);
        lemma_copy_addrs(src, dst, n, k1);
        lemma_copy_units_step(b, src, dst, k1, (src + 2 * k1) as u32, (dst + 2 * k1) as u32);
    }
}

/// A halfword copy of `n` units with both addresses incrementing (CpuSet's
/// 16-bit mode), within work RAM, copies in order: the destination's
/// `2 * n` bytes take the source's bytes at the same offsets, and every
/// other RAM byte and every other part of the bus are as they were.
pub proof fn lemma_copy_units_halfwords(b: BusView, src: u32, dst: u32, n: nat)
    requires
        b.wf(),
        ram_copy_ok(src, dst, n),
    ensures
        ({
            let after = crate::bios::spec_copy_units(b, src, dst, false, false, n).0;
            &&& after == (BusView { ewram: after.ewram, iwram: after.iwram, ..b })
            &&& forall|y: u32|
                (y >> 24u32 == 2 || y >> 24u32 == 3) ==> #[trigger] after.read_byte(y) == bus_copied(
                    b,
                    src,
                    dst,
                    n,
                    y,
                )
        }),
{
    lemma_copy_units_copy(b, src, dst, n, n);
    lemma_ram_copy16(b, src, dst, n, n);
    lemma_copy_reads(b, ram_copy16(b, src, dst, n), src, dst, n);
}

/// The video memory index that `y` (in palette RAM or VRAM) selects.
pub open spec fn video_index(y: u32) -> int {
    if y >> 24u32 == 5 {
        (y as int) % (PALETTE_SIZE as int)
    } else {
        spec_vram_offset(y) as int
    }
}

/// The palette RAM or VRAM byte that `y` reads.
pub open spec fn video_read(b: BusView, y: u32) -> u8 {
    if y >> 24u32 == 5 {
        b.ppu.palette[video_index(y)]
    } else {
        b.ppu.vram[video_index(y)]
    }
}

/// Palette RAM or VRAM with `v` stored at the byte `x` selects.
pub open spec fn video_store(b: BusView, x: u32, v: u8) -> BusView {
    if x >> 24u32 == 5 {
        BusView { ppu: PpuView { palette: b.ppu.palette.update(video_index(x), v), ..b.ppu }, ..b }
    } else {
        BusView { ppu: PpuView { vram: b.ppu.vram.update(video_index(x), v), ..b.ppu }, ..b }
    }
}

proof fn lemma_video_shapes(b: BusView, x: u32, v: u8, depth: nat)
    requires
        x >> 24u32 == 5 || x >> 24u32 == 6,
    ensures
        spec_write_byte(b, x, v, depth) == video_store(b, x, v),
        b.read_byte(x) == video_read(b, x),
{
}

/// The odd byte of a halfword in video memory sits just after the even one.
proof fn lemma_video_index_next(a: u32)
    requires
        a >> 24u32 == 5 || a >> 24u32 == 6,
        (a + 1) as u32 >> 24u32 == a >> 24u32,
        a % 2 == 0,
        a < 0xFFFF_FFFF,
    ensures
        video_index((a + 1) as u32) == video_index(a) + 1,
        a >> 24u32 == 5 ==> video_index(a) + 1 < PALETTE_SIZE,
        a >> 24u32 == 6 ==> video_index(a) + 1 < VRAM_SIZE,
{
    if a >> 24u32 == 5 {
        lemma_mod_even_next(a as int, PALETTE_SIZE as int);
    } else {
        lemma_mod_even_next(a as int, VRAM_MIRROR_PERIOD as int);
        let m = (a as int) % (VRAM_MIRROR_PERIOD as int);
        assert(m + 1 != VRAM_SIZE as int);
        assert(((a + 1) as u32) as int == a as int + 1);
    }
}

proof fn lemma_mod_even_next(a: int, n: int)
    requires
        n == PALETTE_SIZE || n == VRAM_MIRROR_PERIOD,
        0 <= a,
        a % 2 == 0,
    ensures
        (a + 1) % n == a % n + 1,
        (a % n) % 2 == 0,
{
    let q = a / n;
    let r = a % n;
    assert(a == q * n + r && 0 <= r < n) by (nonlinear_arith)
        requires
            n > 0,
            q == a / n,
            r == a % n,
    ;
    let t = q * (n / 2);
    assert(a == 2 * t + r) by (nonlinear_arith)
        requires
            a == q * n + r,
            n == 2 * (n / 2),
            t == q * (n / 2),
    ;
    vstd::arithmetic::div_mod::lemma_mod_multiples_vanish(t, r, 2);
    assert((a + 1) % n == r + 1) by (nonlinear_arith)
        requires
            a == q * n + r,
            0 <= r + 1 < n,
    ;
}

/// A byte store to palette RAM or VRAM lands in both halves of its
/// halfword: the halfword reads back as the byte repeated.
pub proof fn lemma_video_byte_duplicated(b: BusView, addr: u32, value: u8, depth: nat)
    requires
        b.wf(),
        addr >> 24u32 == 5 || addr >> 24u32 == 6,
    ensures
        spec_write8(b, addr, value, depth).read16(addr) == (value as u16) | (((value as u16)
            << 8u16) as u16),
{
    let a = addr & 0xFFFF_FFFE;
    let a1 = (a + 1) as u32;
    lemma_align(addr);
    lemma_video_index_next(a);
    let b1 = spec_write_byte(b, a, value, depth);
    lemma_video_shapes(b, a, value, depth);
    lemma_video_shapes(b1, a1, value, depth);
    let after = spec_write_byte(b1, a1, value, depth);
    assert(spec_write8(b, addr, value, depth) == after);
    lemma_video_shapes(after, a, 0, depth);
    lemma_video_shapes(after, a1, 0, depth);
    assert(video_read(after, a) == value);
    assert(video_read(after, a1) == value);
}

#[derive(Debug)]
pub struct Bus {
    bios: Vec<u8>,
    ewram: Vec<u8>,
    iwram: Vec<u8>,
    io: Vec<u8>,
    ppu: Ppu,
    joypad: Joypad,
    timers: Timers,
    interrupts: Interrupts,
    apu: Apu,
    dma: Dma,
    cartridge: Cartridge,
}

impl View for Bus {
    type V = BusView;

    closed spec fn view(&self) -> BusView {
        BusView {
            bios: self.bios@,
            ewram: self.ewram@,
            iwram: self.iwram@,
            io: self.io@,
            ppu: self.ppu@,
            joypad: self.joypad,
            timers: self.timers.spec_channels(),
            interrupts: self.interrupts,
            apu: self.apu@,
            dma: self.dma@,
            cart_rom: self.cartridge.spec_rom(),
            cart_header: self.cartridge.spec_header(),
            cart_save: self.cartridge.spec_save(),
        }
    }
}

impl Bus {
    /// A bus around `cartridge` with every memory zeroed and every device
    /// at power-on.
    pub fn new(cartridge: Cartridge) -> (b: Self)
        requires
            cartridge.wf(),
        ensures
            b@.wf(),
            b@.bios == Seq::new(BIOS_SIZE as nat, |i: int| 0u8),
            b@.powered_on_except_bios(cartridge),
    {
        let b = Bus {
            bios: vec![0u8; BIOS_SIZE],
            ewram: vec![0u8; EWRAM_SIZE],
            iwram: vec![0u8; IWRAM_SIZE],
            io: vec![0u8; IO_SIZE],
            ppu: Ppu::new(),
            joypad: Joypad::new(),
            timers: Timers::new(),
            interrupts: Interrupts::new(),
            apu: Apu::new(),
            dma: Dma::new(),
            cartridge,
        };
        assert(b@.bios =~= Seq::new(BIOS_SIZE as nat, |i: int| 0u8));
        assert(b@.ewram =~= Seq::new(EWRAM_SIZE as nat, |i: int| 0u8));
        assert(b@.iwram =~= Seq::new(IWRAM_SIZE as nat, |i: int| 0u8));
        assert(b@.io =~= Seq::new(IO_SIZE as nat, |i: int| 0u8));
        b
    }
    /// Installs a BIOS dump (user-provided); until then BIOS reads are 0.
    /// Data longer than 16KB is truncated.
    pub fn load_bios(&mut self, data: &[u8])
        requires
            old(self)@.wf(),
        ensures
            final(self)@ == (BusView {
                bios: crate::cartridge::save::sram::spec_load_prefix(old(self)@.bios, data@),
                ..old(self)@
            }),
            final(self)@.wf(),
    {
        crate::cartridge::save::sram::load_prefix(&mut self.bios, data);
    }

    /// Zeroes all of EWRAM (the BIOS RAM reset).
    pub fn clear_ewram(&mut self)
        requires
            old(self)@.wf(),
        ensures
            final(self)@ == (BusView {
                ewram: Seq::new(EWRAM_SIZE as nat, |i: int| 0u8),
                ..old(self)@
            }),
            final(self)@.wf(),
    {
        let mut i: usize = 0;
        while i < EWRAM_SIZE
            invariant
                i <= EWRAM_SIZE,
                self.ewram@.len() == EWRAM_SIZE,
                forall|k: int| 0 <= k < i ==> #[trigger] self.ewram@[k] == 0,
                self@ == (BusView { ewram: self.ewram@, ..old(self)@ }),
            decreases EWRAM_SIZE - i,
        {
            self.ewram.set(i, 0);
            i = i + 1;
        }
        assert(self.ewram@ =~= Seq::new(EWRAM_SIZE as nat, |k: int| 0u8));
    }

    /// Zeroes IWRAM except its last 0x200 bytes, which hold the BIOS's
    /// interrupt-check mirror and reset-parameter area.
    pub fn clear_iwram_except_top(&mut self)
        requires
            old(self)@.wf(),
        ensures
            final(self)@ == (BusView {
                iwram: Seq::new(
                    IWRAM_SIZE as nat,
                    |i: int|
                        if i < IWRAM_SIZE - 0x200 {
                            0u8
                        } else {
                            old(self)@.iwram[i]
                        },
                ),
                ..old(self)@
            }),
            final(self)@.wf(),
    {
        let preserved_from = self.iwram.len() - 0x200;
        let mut i: usize = 0;
        while i < preserved_from
            invariant
                preserved_from == IWRAM_SIZE - 0x200,
                i <= preserved_from,
                self.iwram@.len() == IWRAM_SIZE,
                forall|k: int| 0 <= k < i ==> #[trigger] self.iwram@[k] == 0,
                forall|k: int| i <= k < IWRAM_SIZE ==> #[trigger] self.iwram@[k] == old(self)@.iwram[k],
                self@ == (BusView { iwram: self.iwram@, ..old(self)@ }),
            decreases preserved_from - i,
        {
            self.iwram.set(i, 0);
            i = i + 1;
        }
        assert(self.iwram@ =~= Seq::new(
            IWRAM_SIZE as nat,
            |k: int|
                if k < IWRAM_SIZE - 0x200 {
                    0u8
                } else {
                    old(self)@.iwram[k]
                },
        ));
    }

    pub fn cartridge(&self) -> (c: &Cartridge)
        ensures
            c.spec_rom() == self@.cart_rom,
            c.spec_header() == self@.cart_header,
            c.spec_save() == self@.cart_save,
    {
        &self.cartridge
    }

    pub fn cartridge_mut(&mut self) -> (c: &mut Cartridge)
        ensures
            c.spec_rom() == old(self)@.cart_rom,
            c.spec_header() == old(self)@.cart_header,
            c.spec_save() == old(self)@.cart_save,
            final(self)@ == (BusView {
                cart_rom: final(c).spec_rom(),
                cart_header: final(c).spec_header(),
                cart_save: final(c).spec_save(),
                ..old(self)@
            }),
    {
        &mut self.cartridge
    }

    pub fn ppu(&self) -> (p: &Ppu)
        ensures
            p@ == self@.ppu,
    {
        &self.ppu
    }

    pub fn ppu_mut(&mut self) -> (p: &mut Ppu)
        ensures
            p@ == old(self)@.ppu,
            final(self)@ == (BusView { ppu: final(p)@, ..old(self)@ }),
    {
        &mut self.ppu
    }

    pub fn joypad(&self) -> (j: &Joypad)
        ensures
            *j == self@.joypad,
    {
        &self.joypad
    }

    pub fn joypad_mut(&mut self) -> (j: &mut Joypad)
        ensures
            *j == old(self)@.joypad,
            final(self)@ == (BusView { joypad: *final(j), ..old(self)@ }),
    {
        &mut self.joypad
    }

    pub fn timers(&self) -> (t: &Timers)
        ensures
            t.spec_channels() == self@.timers,
    {
        &self.timers
    }

    pub fn timers_mut(&mut self) -> (t: &mut Timers)
        ensures
            t.spec_channels() == old(self)@.timers,
            final(self)@ == (BusView { timers: final(t).spec_channels(), ..old(self)@ }),
    {
        &mut self.timers
    }

    pub fn interrupts(&self) -> (i: &Interrupts)
        ensures
            *i == self@.interrupts,
    {
        &self.interrupts
    }

    pub fn interrupts_mut(&mut self) -> (i: &mut Interrupts)
        ensures
            *i == old(self)@.interrupts,
            final(self)@ == (BusView { interrupts: *final(i), ..old(self)@ }),
    {
        &mut self.interrupts
    }

    pub fn apu(&self) -> (a: &Apu)
        ensures
            a@ == self@.apu,
    {
        &self.apu
    }

    pub fn apu_mut(&mut self) -> (a: &mut Apu)
        ensures
            a@ == old(self)@.apu,
            final(self)@ == (BusView { apu: final(a)@, ..old(self)@ }),
    {
        &mut self.apu
    }

    pub fn dma(&self) -> (d: &Dma)
        ensures
            d@ == self@.dma,
    {
        &self.dma
    }

    fn io_read(&self, off: usize) -> (b: u8)
        requires
            self@.wf(),
        ensures
            b == self@.io_read(off),
    {
        if off < crate::ppu::IO_SIZE {
            self.ppu.read_register(off)
        } else if let Some(o) = joypad_offset(off) {
            self.joypad.read_register(o)
        } else if let Some(o) = apu_offset(off) {
            self.apu.read_register(o)
        } else if let Some(o) = dma_offset(off) {
            self.dma.read_register(o)
        } else if let Some(o) = timer_offset(off) {
            self.timers.read_register(o)
        } else if let Some(o) = ie_if_offset(off) {
            self.interrupts.read_ie_if(o)
        } else if let Some(o) = ime_offset(off) {
            self.interrupts.read_ime(o)
        } else if off < IO_SIZE {
            self.io[off]
        } else {
            0
        }
    }

    fn read_region_byte(&self, addr: u32) -> (b: u8)
        requires
            self@.wf(),
        ensures
            b == self@.read_byte(addr),
    {
        match region_of(addr) {
            Region::Bios => {
                let off = addr as usize;
                if off < self.bios.len() {
                    self.bios[off]
                } else {
                    0
                }
            },
            Region::Ewram => self.ewram[(addr as usize) % EWRAM_SIZE],
            Region::Iwram => self.iwram[(addr as usize) % IWRAM_SIZE],
            Region::Io => self.io_read((addr as usize) % 0x100_0000),
            Region::Palette => self.ppu.palette()[(addr as usize) % PALETTE_SIZE],
            Region::Vram => self.ppu.vram()[vram_offset(addr)],
            Region::Oam => self.ppu.oam()[(addr as usize) % OAM_SIZE],
            Region::Rom => self.cartridge.read_rom_byte((addr as usize) % 0x200_0000),
            Region::Backup => self.cartridge.read_save_byte((addr as usize) % 0x10000),
            Region::Unused => 0,
        }
    }

    pub fn read8(&self, addr: u32) -> (b: u8)
        requires
            self@.wf(),
        ensures
            b == self@.read_byte(addr),
    {
        self.read_region_byte(addr)
    }

    pub fn read16(&self, addr: u32) -> (h: u16)
        requires
            self@.wf(),
        ensures
            h == self@.read16(addr),
    {
        let a: u32 = addr & 0xFFFF_FFFE;
        let lo = self.read_region_byte(a) as u16;
        let hi = self.read_region_byte(a + 1) as u16;
        lo | (hi << 8u16)
    }

    pub fn read32(&self, addr: u32) -> (w: u32)
        requires
            self@.wf(),
        ensures
            w == self@.read32(addr),
    {
        let a: u32 = addr & 0xFFFF_FFFC;
        let lo = self.read16(a) as u32;
        let hi = self.read16(a + 2) as u32;
        lo | (hi << 16u32)
    }
    #[verifier::rlimit(60)]
    fn write_region_byte(&mut self, addr: u32, value: u8, depth: u32)
        requires
            old(self)@.wf(),
        ensures
            final(self)@ == spec_write_byte(old(self)@, addr, value, depth as nat),
            final(self)@.wf(),
        decreases depth, 5int, 0int,
    {
        match region_of(addr) {
            Region::Ewram => {
                self.ewram.set((addr as usize) % EWRAM_SIZE, value);
            },
            Region::Iwram => {
                self.iwram.set((addr as usize) % IWRAM_SIZE, value);
            },
            Region::Io => {
                let off: usize = (addr as usize) % 0x100_0000;
                if off < crate::ppu::IO_SIZE {
                    self.ppu.write_register(off, value);
                } else if let Some(o) = joypad_offset(off) {
                    self.joypad.write_register(o, value);
                } else if let Some(o) = apu_offset(off) {
                    self.apu.write_register(o, value);
                } else if let Some(o) = dma_offset(off) {
                    self.dma.write_register(o, value);
                    if let Some(channel) = Dma::touched_control_high_byte(o) {
                        if self.dma.armed_for_immediate(channel) && depth > 0 {
                            self.execute_dma_transfer(channel, depth - 1);
                        }
                    }
                } else if let Some(o) = timer_offset(off) {
                    self.timers.write_register(o, value);
                } else if let Some(o) = ie_if_offset(off) {
                    self.interrupts.write_ie_if(o, value);
                } else if let Some(o) = ime_offset(off) {
                    self.interrupts.write_ime(o, value);
                } else if off < IO_SIZE {
                    self.io.set(off, value);
                }
            },
            Region::Palette => {
                self.ppu.set_palette((addr as usize) % PALETTE_SIZE, value);
            },
            Region::Vram => {
                self.ppu.set_vram(vram_offset(addr), value);
            },
            Region::Oam => {
                self.ppu.set_oam((addr as usize) % OAM_SIZE, value);
            },
            Region::Backup => {
                self.cartridge.write_save_byte((addr as usize) % 0x10000, value);
            },
            _ => {},
        }
        assert(self@ =~= spec_write_byte(old(self)@, addr, value, depth as nat));
    }

    fn write16_d(&mut self, addr: u32, value: u16, depth: u32)
        requires
            old(self)@.wf(),
        ensures
            final(self)@ == spec_write16(old(self)@, addr, value, depth as nat),
            final(self)@.wf(),
        decreases depth, 6int, 0int,
    {
        let a: u32 = addr & 0xFFFF_FFFE;
        self.write_region_byte(a, (value & 0xFF) as u8, depth);
        self.write_region_byte(a + 1, (value >> 8u16) as u8, depth);
    }

    fn write32_d(&mut self, addr: u32, value: u32, depth: u32)
        requires
            old(self)@.wf(),
        ensures
            final(self)@ == spec_write32(old(self)@, addr, value, depth as nat),
            final(self)@.wf(),
        decreases depth, 7int, 0int,
    {
        let a: u32 = addr & 0xFFFF_FFFC;
        self.write16_d(a, (value & 0xFFFF) as u16, depth);
        self.write16_d(a + 2, (value >> 16u32) as u16, depth);
    }

    /// Performs one DMA channel's whole transfer at once, then updates the
    /// channel for a repeat (or disables it) and requests its interrupt
    /// when enabled.
    fn execute_dma_transfer(&mut self, channel: usize, depth: u32)
        requires
            old(self)@.wf(),
            channel < 4,
        ensures
            final(self)@ == spec_execute_dma(old(self)@, channel, depth as nat),
            final(self)@.wf(),
        decreases depth, 9int, 0int,
    {
        let t = self.dma.latch_for_transfer(channel);
        let unit: u32 = if t.word32 {
            4
        } else {
            2
        };
        let ghost start = self@;
        let mut src = t.src;
        let mut dst = t.dst;
        let mut k: u32 = 0;
        while k < t.count
            invariant
                self@.wf(),
                channel < 4,
                t == spec_latch(start.dma[channel as int], channel),
                unit == (if t.word32 {
                    4u32
                } else {
                    2u32
                }),
                k <= t.count,
                (self@, src, dst) == spec_dma_units(start, t, k as nat, depth as nat),
            decreases t.count - k,
        {
            if t.word32 {
                let v = self.read32(src);
                self.write32_d(dst, v, depth);
            } else {
                let v = self.read16(src);
                self.write16_d(dst, v, depth);
            }
            src = step_addr(src, t.src_control, unit);
            dst = step_addr(dst, t.dest_control, unit);
            k = k + 1;
        }
        self.dma.finish_transfer(channel, src, dst);
        if t.irq_enable {
            self.interrupts.request(InterruptSource::from_dma_index(channel));
        }
        assert(self@ =~= spec_execute_dma(start, channel, depth as nat));
    }

    /// Runs every DMA channel armed for `timing` (1 = VBlank, 2 = HBlank),
    /// in channel order.
    #[verifier::spinoff_prover]
    #[verifier::rlimit(50)]
    pub fn trigger_dma_for_timing(&mut self, timing: u8)
        requires
            old(self)@.wf(),
        ensures
            final(self)@ == spec_trigger_upto(old(self)@, old(self)@, timing, 4),
            final(self)@.wf(),
    {
        let armed = self.dma.channels_armed_for(timing);
        let ghost b0 = self@;
        let mut ch: usize = 0;
        while ch < 4
            invariant
                self@.wf(),
                ch <= 4,
                forall|i: int|
                    0 <= i < 4 ==> #[trigger] armed[i] == (b0.dma[i].spec_enabled()
                        && b0.dma[i].spec_start_timing() == timing),
                self@ == spec_trigger_upto(b0, b0, timing, ch as int),
            decreases 4 - ch,
        {
            if armed[ch] {
                self.execute_dma_transfer(ch, DMA_NEST_LIMIT);
            }
            ch = ch + 1;
        }
    }

    /// Byte store: VRAM and palette RAM take the byte in both halves of the
    /// halfword; OAM ignores byte writes.
    pub fn write8(&mut self, addr: u32, value: u8)
        requires
            old(self)@.wf(),
        ensures
            final(self)@ == spec_write8(old(self)@, addr, value, DMA_NEST_LIMIT as nat),
            final(self)@.wf(),
    {
        match region_of(addr) {
            Region::Palette | Region::Vram => {
                let a: u32 = addr & 0xFFFF_FFFE;
                self.write_region_byte(a, value, DMA_NEST_LIMIT);
                self.write_region_byte(a + 1, value, DMA_NEST_LIMIT);
            },
            Region::Oam => {},
            _ => self.write_region_byte(addr, value, DMA_NEST_LIMIT),
        }
    }

    pub fn write16(&mut self, addr: u32, value: u16)
        requires
            old(self)@.wf(),
        ensures
            final(self)@ == spec_write16(old(self)@, addr, value, DMA_NEST_LIMIT as nat),
            final(self)@.wf(),
    {
        self.write16_d(addr, value, DMA_NEST_LIMIT);
    }

    pub fn write32(&mut self, addr: u32, value: u32)
        requires
            old(self)@.wf(),
        ensures
            final(self)@ == spec_write32(old(self)@, addr, value, DMA_NEST_LIMIT as nat),
            final(self)@.wf(),
    {
        self.write32_d(addr, value, DMA_NEST_LIMIT);
    }
}

impl Memory for Bus {
    open spec fn inv(m: BusView) -> bool {
        m.wf()
    }

    open spec fn spec_read8(m: BusView, addr: u32) -> u8 {
        m.read_byte(addr)
    }

    open spec fn spec_read16(m: BusView, addr: u32) -> u16 {
        m.read16(addr)
    }

    open spec fn spec_read32(m: BusView, addr: u32) -> u32 {
        m.read32(addr)
    }

    open spec fn spec_write8(m: BusView, addr: u32, value: u8) -> BusView {
        spec_write8(m, addr, value, DMA_NEST_LIMIT as nat)
    }

    open spec fn spec_write16(m: BusView, addr: u32, value: u16) -> BusView {
        spec_write16(m, addr, value, DMA_NEST_LIMIT as nat)
    }

    open spec fn spec_write32(m: BusView, addr: u32, value: u32) -> BusView {
        spec_write32(m, addr, value, DMA_NEST_LIMIT as nat)
    }

    fn read8(&self, addr: u32) -> (r: u8) {
        Bus::read8(self, addr)
    }

    fn write8(&mut self, addr: u32, value: u8) {
        Bus::write8(self, addr, value);
    }

    fn read16(&self, addr: u32) -> (r: u16) {
        Bus::read16(self, addr)
    }

    fn write16(&mut self, addr: u32, value: u16) {
        Bus::write16(self, addr, value);
    }

    fn read32(&self, addr: u32) -> (r: u32) {
        Bus::read32(self, addr)
    }

    fn write32(&mut self, addr: u32, value: u32) {
        Bus::write32(self, addr, value);
    }
}

} // verus!
