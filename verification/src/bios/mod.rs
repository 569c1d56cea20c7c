//! High-level emulation of the GBA BIOS.
//!
//! No BIOS ROM ships with this project, yet games call BIOS functions with
//! `SWI` from their first instructions and every interrupt vectors through
//! BIOS code at 0x18. The emulator intercepts both instead:
//! - an `SWI` about to execute is recognized, [`try_handle_swi`] performs
//!   the function's documented effect on registers and memory, and PC moves
//!   past the `SWI`;
//! - PC on the IRQ vector in IRQ mode is recognized and
//!   [`service_interrupt`] acknowledges the firing IE&IF bits, ORs them into
//!   the RAM mirror at [`INTR_CHECK_ADDR`] that `IntrWait` polls, and then
//!   calls the game's handler at 0x03007FFC for real (return address pushed
//!   to the IRQ stack, LR pointed at [`IRQ_RETURN_STUB`]) or, with none
//!   installed, returns from the interrupt at once. Landing on the stub
//!   completes the return ([`finish_interrupt_after_handler`]).
use vstd::prelude::*;
use crate::cpu::{Registers, RegsView};
use crate::cpu::psr;
use crate::memory::Bus;
use crate::memory::bus::{BusView, DMA_NEST_LIMIT, spec_write16, spec_write32, spec_write8};
use crate::ppu::{OAM_SIZE, PALETTE_SIZE, PpuView, VRAM_SIZE};
use crate::interrupts::Interrupts;

verus! {

broadcast use crate::bits::group_bits;

/// Where an IRQ enters.
pub const IRQ_VECTOR: u32 = 0x0000_0018;

/// A BIOS address never executed otherwise, used as the return point from
/// a game's interrupt handler.
pub const IRQ_RETURN_STUB: u32 = 0x0000_01FC;

/// IWRAM word holding the game's interrupt handler address (0 = none).
pub const USER_HANDLER_PTR_ADDR: u32 = 0x0300_7FFC;

/// IWRAM halfword `IntrWait` polls: acknowledged interrupts are ORed in,
/// and a satisfied wait clears its bits.
pub const INTR_CHECK_ADDR: u32 = 0x0300_7FF8;

/// What [`try_handle_swi`] did.
#[derive(Debug, Clone, Copy, PartialEq, Eq, Structural)]
pub enum SwiOutcome {
    /// Handled here, PC already past the SWI; `halt_mask` is the wait mask
    /// to install (Halt, IntrWait, VBlankIntrWait).
    Handled { halt_mask: Option<u16> },
    /// SoftReset (SWI 0): the caller reruns its boot sequence.
    SoftReset,
}

pub open spec fn lim() -> nat {
    DMA_NEST_LIMIT as nat
}

// Div.
pub open spec fn iabs(x: int) -> int {
    if x < 0 {
        -x
    } else {
        x
    }
}

/// `Div` (or `DivArm` when `swapped`, which takes the operands in the other
/// order): r0 = quotient rounded toward zero, r1 = remainder with the
/// numerator's sign, r3 = |quotient|, as 32-bit two's complement (so
/// i32::MIN / -1 gives i32::MIN and remainder 0). Division by zero leaves
/// r0 = 0, r1 = numerator, r3 = 0.
pub open spec fn spec_div(r: RegsView, swapped: bool) -> RegsView {
    let num = (if swapped {
        r.r[1]
    } else {
        r.r[0]
    }) as i32;
    let den = (if swapped {
        r.r[0]
    } else {
        r.r[1]
    }) as i32;
    if den == 0 {
        r.with_r(0, 0).with_r(1, num as u32).with_r(3, 0)
    } else {
        let qm = iabs(num as int) / iabs(den as int);
        let rm = iabs(num as int) % iabs(den as int);
        let q = if (num < 0) != (den < 0) {
            -qm
        } else {
            qm
        };
        let rem = if num < 0 {
            -rm
        } else {
            rm
        };
        r.with_r(0, q as u32).with_r(1, rem as u32).with_r(3, qm as u32)
    }
}

pub fn div(regs: &mut Registers, swapped: bool)
    ensures
        final(regs)@ == spec_div(old(regs)@, swapped),
{
    let num: i32 = if swapped {
        regs.r(1)
    } else {
        regs.r(0)
    } as i32;
    let den: i32 = if swapped {
        regs.r(0)
    } else {
        regs.r(1)
    } as i32;
    if den == 0 {
        regs.set_r(0, 0);
        regs.set_r(1, num as u32);
        regs.set_r(3, 0);
        return;
    }
    let an: u32 = if num < 0 {
        (-(num as i64)) as u32
    } else {
        num as u32
    };
    let ad: u32 = if den < 0 {
        (-(den as i64)) as u32
    } else {
        den as u32
    };
    let qm: u32 = an / ad;
    let rm: u32 = an % ad;
    let q: i64 = if (num < 0) != (den < 0) {
        -(qm as i64)
    } else {
        qm as i64
    };
    let rem: i64 = if num < 0 {
        -(rm as i64)
    } else {
        rm as i64
    };
    regs.set_r(0, q as u32);
    regs.set_r(1, rem as u32);
    regs.set_r(3, qm);
}

// Sqrt.
/// The integer square root: the largest `s` with `s * s <= v`.
pub open spec fn is_isqrt(v: int, s: int) -> bool {
    0 <= s && s * s <= v < (s + 1) * (s + 1)
}

/// The integer square root of `v`.
pub open spec fn spec_isqrt(v: u32) -> u32 {
    choose|s: u32| is_isqrt(v as int, s as int)
}

/// At most one number is the integer square root of `v`.
pub proof fn lemma_isqrt_unique(v: int, s: int, t: int)
    requires
        is_isqrt(v, s),
        is_isqrt(v, t),
    ensures
        s == t,
{
    if s < t {
        assert((s + 1) * (s + 1) <= t * t) by (nonlinear_arith)
            requires
                0 <= s,
                s + 1 <= t,
        ;
    } else if t < s {
        assert((t + 1) * (t + 1) <= s * s) by (nonlinear_arith)
            requires
                0 <= t,
                t + 1 <= s,
        ;
    }
}

/// Integer square root by bisection.
pub fn isqrt(value: u32) -> (s: u32)
    ensures
        is_isqrt(value as int, s as int),
        s == spec_isqrt(value),
{
    let v: u64 = value as u64;
    let mut lo: u64 = 0;
    let mut hi: u64 = 65536;
    assert(65536 * 65536 > 0xFFFF_FFFFu64) by (nonlinear_arith);
    while hi - lo > 1
        invariant
            lo < hi <= 65536,
            lo * lo <= v,
            v < hi * hi,
            v <= 0xFFFF_FFFF,
        decreases hi - lo,
    {
        let mid: u64 = lo + (hi - lo) / 2;
        assert(mid * mid <= 65536 * 65536) by (nonlinear_arith)
            requires
                mid <= 65536,
        ;
        if mid * mid <= v {
            lo = mid;
        } else {
            hi = mid;
        }
    }
    assert(hi == lo + 1);
    let s = lo as u32;
    assert(is_isqrt(value as int, s as int));
    proof {
        lemma_isqrt_unique(value as int, s as int, spec_isqrt(value) as int);
    }
    s
}

/// `Sqrt` (SWI 8): r0 = integer square root of unsigned r0.
pub open spec fn spec_sqrt(r: RegsView) -> RegsView {
    r.with_r(0, spec_isqrt(r.r[0]))
}

pub fn sqrt(regs: &mut Registers)
    ensures
        final(regs)@ == spec_sqrt(old(regs)@),
{
    let v = regs.r(0);
    regs.set_r(0, isqrt(v));
}

// CpuSet and CpuFastSet.
/// The bus and addresses after `k` units of a CpuSet copy: each unit reads
/// at the source and writes at the destination; the destination always
/// advances, the source unless fixed.
pub open spec fn spec_copy_units(b: BusView, src: u32, dst: u32, word32: bool, fixed: bool, k: nat) -> (
    BusView,
    u32,
    u32,
)
    decreases k,
{
    if k == 0 {
        (b, src, dst)
    } else {
        let p = spec_copy_units(b, src, dst, word32, fixed, (k - 1) as nat);
        let unit: u32 = if word32 {
            4
        } else {
            2
        };
        let b2 = if word32 {
            spec_write32(p.0, p.2, p.0.read32(p.1), lim())
        } else {
            spec_write16(p.0, p.2, p.0.read16(p.1), lim())
        };
        (
            b2,
            if fixed {
                p.1
            } else {
                p.1.wrapping_add(unit)
            },
            p.2.wrapping_add(unit),
        )
    }
}

fn copy_units(bus: &mut Bus, src: u32, dst: u32, word32: bool, fixed: bool, count: u32)
    requires
        old(bus)@.wf(),
    ensures
        final(bus)@ == spec_copy_units(old(bus)@, src, dst, word32, fixed, count as nat).0,
        final(bus)@.wf(),
{
    let mut s = src;
    let mut d = dst;
    let mut k: u32 = 0;
    while k < count
        invariant
            bus@.wf(),
            k <= count,
            (bus@, s, d) == spec_copy_units(old(bus)@, src, dst, word32, fixed, k as nat),
        decreases count - k,
    {
        if word32 {
            let v = bus.read32(s);
            bus.write32(d, v);
            d = d.wrapping_add(4);
            if !fixed {
                s = s.wrapping_add(4);
            }
        } else {
            let v = bus.read16(s);
            bus.write16(d, v);
            d = d.wrapping_add(2);
            if !fixed {
                s = s.wrapping_add(2);
            }
        }
        k = k + 1;
    }
}

/// `CpuSet` (SWI 0x0B): r0 = source, r1 = destination, r2 = control (bits
/// 0-20 count, bit 24 fixed source, bit 26 words rather than halfwords).
pub open spec fn spec_cpu_set(r: RegsView, b: BusView) -> BusView {
    let control = r.r[2];
    spec_copy_units(
        b,
        r.r[0],
        r.r[1],
        control & 0x0400_0000 != 0,
        control & 0x0100_0000 != 0,
        (control & 0x1F_FFFF) as nat,
    ).0
}

/// CpuSet in 16-bit mode (control bit 26 clear) with an incrementing
/// source (bit 24 clear), within work RAM, copies exactly `count` (bits
/// 0-20) halfwords: the `2 * count` bytes from r1 on take the bytes from r0
/// on at the same offsets, and every byte from r1 + 2 * count on, every
/// other RAM byte and every other part of the bus are as they were.
pub proof fn lemma_cpu_set_halfwords(r: RegsView, b: BusView)
    requires
        b.wf(),
        r.wf(),
        r.r[2] & 0x0400_0000 == 0,
        r.r[2] & 0x0100_0000 == 0,
        crate::memory::bus::ram_copy_ok(r.r[0], r.r[1], (r.r[2] & 0x1F_FFFF) as nat),
    ensures
        ({
            let after = spec_cpu_set(r, b);
            &&& after == (BusView { ewram: after.ewram, iwram: after.iwram, ..b })
            &&& forall|y: u32|
                (y >> 24u32 == 2 || y >> 24u32 == 3) ==> #[trigger] after.read_byte(y)
                    == crate::memory::bus::bus_copied(
                    b,
                    r.r[0],
                    r.r[1],
                    (r.r[2] & 0x1F_FFFF) as nat,
                    y,
                )
        }),
{
    crate::memory::bus::lemma_copy_units_halfwords(
        b,
        r.r[0],
        r.r[1],
        (r.r[2] & 0x1F_FFFF) as nat,
    );
}

pub fn cpu_set(regs: &Registers, bus: &mut Bus)
    requires
        old(bus)@.wf(),
    ensures
        final(bus)@ == spec_cpu_set(regs@, old(bus)@),
        final(bus)@.wf(),
{
    let control = regs.r(2);
    copy_units(
        bus,
        regs.r(0),
        regs.r(1),
        control & 0x0400_0000 != 0,
        control & 0x0100_0000 != 0,
        control & 0x1F_FFFF,
    );
}

/// `CpuFastSet` (SWI 0x0C): like CpuSet, always in words; exactly `count`
/// words are processed (hardware expects a multiple of 8).
pub open spec fn spec_cpu_fast_set(r: RegsView, b: BusView) -> BusView {
    let control = r.r[2];
    spec_copy_units(
        b,
        r.r[0],
        r.r[1],
        true,
        control & 0x0100_0000 != 0,
        (control & 0x1F_FFFF) as nat,
    ).0
}

pub fn cpu_fast_set(regs: &Registers, bus: &mut Bus)
    requires
        old(bus)@.wf(),
    ensures
        final(bus)@ == spec_cpu_fast_set(regs@, old(bus)@),
        final(bus)@.wf(),
{
    let control = regs.r(2);
    copy_units(bus, regs.r(0), regs.r(1), true, control & 0x0100_0000 != 0, control & 0x1F_FFFF);
}

// LZ77.
/// Copies `n` bytes from `disp` bytes back in the output (each copy may
/// read bytes this copy produced), stopping at `size`.
pub open spec fn spec_lz_copy(out: Seq<u8>, disp: int, n: nat, size: nat) -> Seq<u8>
    decreases n,
{
    if n == 0 || out.len() >= size {
        out
    } else {
        spec_lz_copy(out.push(out[out.len() - disp]), disp, (n - 1) as nat, size)
    }
}

/// One flag byte's worth of tokens, bit 7 first: a clear bit is a literal
/// byte, a set bit a back-reference (length = high nibble + 3,
/// displacement = 12 bits + 1). Stops at `size`; a back-reference before
/// the start of the output ends decompression (the flag is false).
pub open spec fn spec_lz_bits(b: BusView, out: Seq<u8>, src: u32, flags: u8, bit: int, size: nat) -> (
    Seq<u8>,
    u32,
    bool,
)
    decreases bit + 1,
{
    if bit < 0 || out.len() >= size {
        (out, src, true)
    } else if flags & ((1u8 << (bit as u8)) as u8) == 0 {
        spec_lz_bits(b, out.push(b.read_byte(src)), src.wrapping_add(1), flags, bit - 1, size)
    } else {
        let b0 = b.read_byte(src);
        let b1 = b.read_byte(src.wrapping_add(1));
        let length = (b0 >> 4u8) + 3;
        let disp = (((b0 & 0xF) as u32) << 8u32 | (b1 as u32)) + 1;
        if disp > out.len() {
            (out, src.wrapping_add(2), false)
        } else {
            spec_lz_bits(
                b,
                spec_lz_copy(out, disp as int, length as nat, size),
                src.wrapping_add(2),
                flags,
                bit - 1,
                size,
            )
        }
    }
}

/// Flag bytes and their tokens until `size` bytes are out or the stream
/// turns out malformed.
pub open spec fn spec_lz_run(b: BusView, out: Seq<u8>, src: u32, size: nat) -> Seq<u8>
    decreases size - out.len(),
{
    if out.len() >= size {
        out
    } else {
        let r = spec_lz_bits(b, out, src.wrapping_add(1), b.read_byte(src), 7, size);
        if !r.2 || r.0.len() <= out.len() || r.0.len() > size {
            r.0
        } else {
            spec_lz_run(b, r.0, r.1, size)
        }
    }
}

/// The bus after storing `out[i..]` byte by byte at `dest + i` onward.
pub open spec fn spec_store_bytes(b: BusView, dest: u32, out: Seq<u8>, i: nat) -> BusView
    decreases i,
{
    if i == 0 {
        b
    } else {
        let p = spec_store_bytes(b, dest, out, (i - 1) as nat);
        spec_write8(p, dest.wrapping_add((i - 1) as u32), out[i - 1], lim())
    }
}

/// `LZ77UnCompWram`/`LZ77UnCompVram` (SWI 0x11/0x12): a block whose header
/// word has type 0x10 and the decompressed size in bits 8-31 is
/// decompressed and stored at `dest`; anything else is left alone.
pub open spec fn spec_lz77(b: BusView, source: u32, dest: u32) -> BusView {
    let header = b.read32(source);
    if header & 0xFF != 0x10 {
        b
    } else {
        let out = spec_lz_run(b, Seq::empty(), source.wrapping_add(4), (header >> 8u32) as nat);
        spec_store_bytes(b, dest, out, out.len())
    }
}

fn lz_copy(out: &mut Vec<u8>, disp: usize, n: u32, size: usize)
    requires
        1 <= disp <= old(out)@.len(),
        old(out)@.len() <= size,
    ensures
        final(out)@ == spec_lz_copy(old(out)@, disp as int, n as nat, size as nat),
        final(out)@.len() <= size,
{
    let mut k: u32 = n;
    while k > 0 && out.len() < size
        invariant
            1 <= disp <= out@.len(),
            out@.len() <= size,
            spec_lz_copy(out@, disp as int, k as nat, size as nat) == spec_lz_copy(
                old(out)@,
                disp as int,
                n as nat,
                size as nat,
            ),
        decreases k,
    {
        let byte = out[out.len() - disp];
        out.push(byte);
        k = k - 1;
    }
}

fn lz_bits(bus: &Bus, out: &mut Vec<u8>, src: u32, flags: u8, size: usize) -> (r: (u32, bool))
    requires
        bus@.wf(),
        old(out)@.len() <= size,
    ensures
        (final(out)@, r.0, r.1) == spec_lz_bits(bus@, old(out)@, src, flags, 7, size as nat),
        final(out)@.len() <= size,
{
    let mut s = src;
    let mut bit: i32 = 7;
    while bit >= 0 && out.len() < size
        invariant
            bus@.wf(),
            -1 <= bit <= 7,
            out@.len() <= size,
            spec_lz_bits(bus@, out@, s, flags, bit as int, size as nat) == spec_lz_bits(
                bus@,
                old(out)@,
                src,
                flags,
                7,
                size as nat,
            ),
        decreases bit + 1,
    {
        if flags & (1u8 << (bit as u8)) == 0 {
            out.push(bus.read8(s));
            s = s.wrapping_add(1);
        } else {
            let b0 = bus.read8(s);
            let b1 = bus.read8(s.wrapping_add(1));
            s = s.wrapping_add(2);
            let length: u32 = (b0 >> 4u8) as u32 + 3;
            assert(((b0 & 0xF) as u32) << 8u32 | (b1 as u32) <= 0xFFF) by (bit_vector);
            let disp: u32 = (((b0 & 0xF) as u32) << 8u32 | (b1 as u32)) + 1;
            if disp as usize > out.len() {
                return (s, false);
            }
            lz_copy(out, disp as usize, length, size);
        }
        bit = bit - 1;
    }
    (s, true)
}

fn lz_run(bus: &Bus, source: u32, size: usize) -> (out: Vec<u8>)
    requires
        bus@.wf(),
    ensures
        out@ == spec_lz_run(bus@, Seq::empty(), source, size as nat),
        out@.len() <= size,
{
    let mut out: Vec<u8> = Vec::new();
    let mut src = source;
    while out.len() < size
        invariant
            bus@.wf(),
            out@.len() <= size,
            spec_lz_run(bus@, out@, src, size as nat) == spec_lz_run(
                bus@,
                Seq::empty(),
                source,
                size as nat,
            ),
        decreases size - out@.len(),
    {
        let flags = bus.read8(src);
        let before = out.len();
        let (s, ok) = lz_bits(bus, &mut out, src.wrapping_add(1), flags, size);
        if !ok || out.len() <= before {
            return out;
        }
        src = s;
    }
    out
}

/// Decompresses an LZ77 block at `source` into memory at `dest`.
pub fn lz77_decompress(bus: &mut Bus, source: u32, dest: u32)
    requires
        old(bus)@.wf(),
    ensures
        final(bus)@ == spec_lz77(old(bus)@, source, dest),
        final(bus)@.wf(),
{
    let header = bus.read32(source);
    if header & 0xFF != 0x10 {
        return;
    }
    let size: usize = (header >> 8u32) as usize;
    let out = lz_run(bus, source.wrapping_add(4), size);
    let ghost b0 = bus@;
    let mut i: usize = 0;
    while i < out.len()
        invariant
            bus@.wf(),
            i <= out@.len(),
            out@.len() <= size,
            size <= 0xFFFF_FFFF,
            bus@ == spec_store_bytes(b0, dest, out@, i as nat),
        decreases out@.len() - i,
    {
        bus.write8(dest.wrapping_add(i as u32), out[i]);
        i = i + 1;
    }
}

// RegisterRamReset.
/// `RegisterRamReset` (SWI 1): r0's bits 0-4 select EWRAM, IWRAM (all but
/// its top 0x200 bytes), palette RAM, VRAM and OAM to zero.
pub open spec fn spec_ram_reset(b: BusView, flags: u32) -> BusView {
    let b1 = if flags & 0x01 != 0 {
        BusView { ewram: Seq::new(b.ewram.len(), |i: int| 0u8), ..b }
    } else {
        b
    };
    let b2 = if flags & 0x02 != 0 {
        BusView {
            iwram: Seq::new(
                b1.iwram.len(),
                |i: int|
                    if i < b1.iwram.len() - 0x200 {
                        0u8
                    } else {
                        b1.iwram[i]
                    },
            ),
            ..b1
        }
    } else {
        b1
    };
    let b3 = if flags & 0x04 != 0 {
        BusView {
            ppu: PpuView { palette: Seq::new(PALETTE_SIZE as nat, |i: int| 0u8), ..b2.ppu },
            ..b2
        }
    } else {
        b2
    };
    let b4 = if flags & 0x08 != 0 {
        BusView { ppu: PpuView { vram: Seq::new(VRAM_SIZE as nat, |i: int| 0u8), ..b3.ppu }, ..b3 }
    } else {
        b3
    };
    if flags & 0x10 != 0 {
        BusView { ppu: PpuView { oam: Seq::new(OAM_SIZE as nat, |i: int| 0u8), ..b4.ppu }, ..b4 }
    } else {
        b4
    }
}

pub fn register_ram_reset(regs: &Registers, bus: &mut Bus)
    requires
        old(bus)@.wf(),
    ensures
        final(bus)@ == spec_ram_reset(old(bus)@, regs@.r[0]),
        final(bus)@.wf(),
{
    let flags = regs.r(0);
    if flags & 0x01 != 0 {
        bus.clear_ewram();
    }
    if flags & 0x02 != 0 {
        bus.clear_iwram_except_top();
    }
    if flags & 0x04 != 0 {
        bus.ppu_mut().fill_palette(0);
    }
    if flags & 0x08 != 0 {
        bus.ppu_mut().fill_vram(0);
    }
    if flags & 0x10 != 0 {
        bus.ppu_mut().fill_oam(0);
    }
    assert(bus@ =~= spec_ram_reset(old(bus)@, regs@.r[0]));
}

// SWI dispatch.
/// The SWI at PC, if any: its function number and the address after it.
/// A Thumb SWI is 0xDFnn; an ARM one has 0xF in bits 24-27 and the number
/// in bits 16-23.
pub open spec fn spec_swi_at_pc(r: RegsView, b: BusView) -> Option<(u16, u32)> {
    if r.flag(psr::T) {
        let pc = r.r[15] & 0xFFFF_FFFE;
        let op = b.read16(pc);
        if op & 0xFF00 != 0xDF00 {
            None
        } else {
            Some((op & 0xFF, pc.wrapping_add(2)))
        }
    } else {
        let pc = r.r[15] & 0xFFFF_FFFC;
        let op = b.read32(pc);
        if op & 0x0F00_0000 != 0x0F00_0000 {
            None
        } else {
            Some((((op >> 16u32) & 0xFF) as u16, pc.wrapping_add(4)))
        }
    }
}

/// The effect of SWI function `n` (not SoftReset): the registers and bus
/// after it, and the wait mask it installs. Unimplemented functions do
/// nothing.
pub open spec fn spec_swi_effect(r: RegsView, b: BusView, n: u16) -> (RegsView, BusView, Option<u16>) {
    if n == 0x01 {
        (r, spec_ram_reset(b, r.r[0]), None)
    } else if n == 0x02 {
        (r, b, Some(0xFFFFu16))
    } else if n == 0x04 {
        let mask = r.r[1] as u16;
        (
            r,
            if r.r[0] != 0 {
                spec_write16(b, INTR_CHECK_ADDR, b.read16(INTR_CHECK_ADDR) & !mask, lim())
            } else {
                b
            },
            Some(mask),
        )
    } else if n == 0x05 {
        (r, spec_write16(b, INTR_CHECK_ADDR, b.read16(INTR_CHECK_ADDR) & !1u16, lim()), Some(1u16))
    } else if n == 0x06 {
        (spec_div(r, false), b, None)
    } else if n == 0x07 {
        (spec_div(r, true), b, None)
    } else if n == 0x08 {
        (spec_sqrt(r), b, None)
    } else if n == 0x0B {
        (r, spec_cpu_set(r, b), None)
    } else if n == 0x0C {
        (r, spec_cpu_fast_set(r, b), None)
    } else if n == 0x11 || n == 0x12 {
        (r, spec_lz77(b, r.r[0], r.r[1]), None)
    } else {
        (r, b, None)
    }
}

fn swi_effect(regs: &mut Registers, bus: &mut Bus, number: u16) -> (halt_mask: Option<u16>)
    requires
        old(bus)@.wf(),
    ensures
        (final(regs)@, final(bus)@, halt_mask) == spec_swi_effect(old(regs)@, old(bus)@, number),
        final(bus)@.wf(),
{
    let mut halt_mask: Option<u16> = None;
    if number == 0x01 {
        register_ram_reset(regs, bus);
    } else if number == 0x02 {
        halt_mask = Some(0xFFFF);
    } else if number == 0x04 {
        let mask = regs.r(1) as u16;
        if regs.r(0) != 0 {
            let mirror = bus.read16(INTR_CHECK_ADDR);
            bus.write16(INTR_CHECK_ADDR, mirror & !mask);
        }
        halt_mask = Some(mask);
    } else if number == 0x05 {
        let mirror = bus.read16(INTR_CHECK_ADDR);
        bus.write16(INTR_CHECK_ADDR, mirror & !1u16);
        halt_mask = Some(0x0001);
    } else if number == 0x06 {
        div(regs, false);
    } else if number == 0x07 {
        div(regs, true);
    } else if number == 0x08 {
        sqrt(regs);
    } else if number == 0x0B {
        cpu_set(regs, bus);
    } else if number == 0x0C {
        cpu_fast_set(regs, bus);
    } else if number == 0x11 || number == 0x12 {
        let src = regs.r(0);
        let dst = regs.r(1);
        lz77_decompress(bus, src, dst);
    }
    halt_mask
}

/// The outcome of an SWI check at PC and the registers and bus after it.
pub closed spec fn spec_try_handle_swi(r: RegsView, b: BusView) -> (Option<SwiOutcome>, RegsView, BusView) {
    match spec_swi_at_pc(r, b) {
        None => (None, r, b),
        Some(p) => if p.0 == 0 {
            (Some(SwiOutcome::SoftReset), r, b)
        } else {
            let e = spec_swi_effect(r, b, p.0);
            (Some(SwiOutcome::Handled { halt_mask: e.2 }), e.0.with_r(15, p.1), e.1)
        },
    }
}

/// Performs the SWI at PC, if there is one: SoftReset is left to the
/// caller; any other function number takes effect (unimplemented ones do
/// nothing) and PC moves past the SWI.
pub fn try_handle_swi(regs: &mut Registers, bus: &mut Bus) -> (out: Option<SwiOutcome>)
    requires
        old(bus)@.wf(),
    ensures
        (out, final(regs)@, final(bus)@) == spec_try_handle_swi(old(regs)@, old(bus)@),
        out is None ==> final(regs)@ == old(regs)@ && final(bus)@ == old(bus)@,
        final(bus)@.wf(),
{
    let number: u16;
    let next_pc: u32;
    if regs.in_thumb_state() {
        let pc = regs.pc() & 0xFFFF_FFFE;
        let opcode = bus.read16(pc);
        if opcode & 0xFF00 != 0xDF00 {
            return None;
        }
        number = opcode & 0xFF;
        next_pc = pc.wrapping_add(2);
    } else {
        let pc = regs.pc() & 0xFFFF_FFFC;
        let opcode = bus.read32(pc);
        if opcode & 0x0F00_0000 != 0x0F00_0000 {
            return None;
        }
        number = ((opcode >> 16u32) & 0xFF) as u16;
        next_pc = pc.wrapping_add(4);
    }
    if number == 0 {
        return Some(SwiOutcome::SoftReset);
    }
    let halt_mask = swi_effect(regs, bus, number);
    regs.set_pc(next_pc);
    Some(SwiOutcome::Handled { halt_mask })
}

// Interrupts.
/// The bus after acknowledging `acked` and ORing it into the IntrWait
/// mirror.
pub open spec fn spec_ack_into_mirror(b: BusView, acked: u16) -> BusView {
    let b1 = BusView { interrupts: b.interrupts.spec_acknowledge(acked), ..b };
    spec_write16(b1, INTR_CHECK_ADDR, b1.read16(INTR_CHECK_ADDR) | acked, lim())
}

/// Servicing an IRQ at the vector: the firing IE&IF bits are acknowledged
/// and recorded in the mirror; then, with no handler installed, CPSR is
/// restored from SPSR and PC returns to LR - 4; with one installed, LR - 4
/// is pushed on the IRQ stack, LR becomes the return stub, and PC jumps to
/// the handler (in Thumb state when its address is odd).
pub closed spec fn spec_service_interrupt(r: RegsView, b: BusView) -> (RegsView, BusView) {
    let acked = b.interrupts.spec_ie() & b.interrupts.spec_iflag();
    let b2 = spec_ack_into_mirror(b, acked);
    let ret = r.r[14].wrapping_sub(4);
    let handler = b2.read32(USER_HANDLER_PTR_ADDR);
    if handler == 0 {
        (r.with_cpsr(r.spsr()).with_r(15, ret), b2)
    } else {
        let sp = r.r[13].wrapping_sub(4);
        (
            r.with_r(13, sp).with_r(14, IRQ_RETURN_STUB).with_flag(psr::T, handler & 1 != 0).with_r(
                15,
                handler & 0xFFFF_FFFE,
            ),
            spec_write32(b2, sp, ret, lim()),
        )
    }
}

pub fn service_interrupt(regs: &mut Registers, bus: &mut Bus)
    requires
        old(bus)@.wf(),
    ensures
        (final(regs)@, final(bus)@) == spec_service_interrupt(old(regs)@, old(bus)@),
        final(bus)@.wf(),
{
    let acked = bus.interrupts().ie_and_iflag();
    bus.interrupts_mut().acknowledge(acked);
    let mirror = bus.read16(INTR_CHECK_ADDR);
    bus.write16(INTR_CHECK_ADDR, mirror | acked);
    let return_addr = regs.r(14).wrapping_sub(4);
    let handler = bus.read32(USER_HANDLER_PTR_ADDR);
    if handler == 0 {
        let spsr = regs.spsr();
        regs.set_cpsr(spsr);
        regs.set_pc(return_addr);
        return;
    }
    let sp = regs.r(13).wrapping_sub(4);
    regs.set_r(13, sp);
    bus.write32(sp, return_addr);
    regs.set_r(14, IRQ_RETURN_STUB);
    regs.set_flag(psr::T, handler & 1 != 0);
    regs.set_pc(handler & 0xFFFF_FFFE);
}

/// After the game's handler returns to the stub: the true return address
/// is popped from the IRQ stack, CPSR restored from SPSR, and PC set to it.
pub open spec fn spec_finish_interrupt(r: RegsView, b: BusView) -> RegsView {
    let sp = r.r[13];
    r.with_r(13, sp.wrapping_add(4)).with_cpsr(r.spsr()).with_r(15, b.read32(sp))
}

pub fn finish_interrupt_after_handler(regs: &mut Registers, bus: &mut Bus)
    requires
        old(bus)@.wf(),
    ensures
        final(regs)@ == spec_finish_interrupt(old(regs)@, old(bus)@),
        final(bus)@ == old(bus)@,
{
    let sp = regs.r(13);
    let return_addr = bus.read32(sp);
    regs.set_r(13, sp.wrapping_add(4));
    let spsr = regs.spsr();
    regs.set_cpsr(spsr);
    regs.set_pc(return_addr);
}

/// Whether a halted CPU's wait mask is satisfied by the raw IE&IF bits
/// (independent of IME, as on hardware); when it is, the matching bits are
/// acknowledged and recorded in the mirror.
pub open spec fn spec_halt_fired(b: BusView, mask: u16) -> u16 {
    b.interrupts.spec_ie() & b.interrupts.spec_iflag() & mask
}

pub fn check_halt_wakeup(bus: &mut Bus, mask: u16) -> (woke: bool)
    requires
        old(bus)@.wf(),
    ensures
        woke == (spec_halt_fired(old(bus)@, mask) != 0),
        woke ==> final(bus)@ == spec_ack_into_mirror(old(bus)@, spec_halt_fired(old(bus)@, mask)),
        !woke ==> final(bus)@ == old(bus)@,
        final(bus)@.wf(),
{
    let fired = bus.interrupts().ie_and_iflag() & mask;
    if fired == 0 {
        return false;
    }
    bus.interrupts_mut().acknowledge(fired);
    let mirror = bus.read16(INTR_CHECK_ADDR);
    bus.write16(INTR_CHECK_ADDR, mirror | fired);
    true
}

} // verus!
