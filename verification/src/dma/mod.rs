//! The GBA's 4 general-purpose DMA channels (DMA0-3). This module holds
//! each channel's register state and decides when a channel is armed; the
//! bus performs the transfer itself, using [`Dma::latch_for_transfer`].
//! Immediate, VBlank and HBlank start timing are implemented; a channel
//! armed with "Special" timing never fires.
use vstd::prelude::*;

verus! {

broadcast use crate::bits::group_bits;

pub const IO_BASE: usize = 0xB0;

/// 4 channels * 12 bytes.
pub const IO_SIZE: usize = 0x30;

/// DMAxCNT_H's 2-bit address-control encoding.
#[derive(Debug, Clone, Copy, PartialEq, Eq, Structural)]
pub enum AddrControl {
    Increment,
    Decrement,
    Fixed,
    IncrementReload,
}

impl AddrControl {
    pub open spec fn spec_from_bits(bits: u16) -> AddrControl {
        let b = bits & 3;
        if b == 0 {
            AddrControl::Increment
        } else if b == 1 {
            AddrControl::Decrement
        } else if b == 2 {
            AddrControl::Fixed
        } else {
            AddrControl::IncrementReload
        }
    }

    pub fn from_bits(bits: u16) -> (c: Self)
        ensures
            c == Self::spec_from_bits(bits),
    {
        let b: u16 = bits & 0x3;
        if b == 0 {
            AddrControl::Increment
        } else if b == 1 {
            AddrControl::Decrement
        } else if b == 2 {
            AddrControl::Fixed
        } else {
            AddrControl::IncrementReload
        }
    }
}

/// One channel's registers.
#[derive(Debug, Clone, Copy, PartialEq, Eq, Structural)]
pub struct DmaChannel {
    pub sad: u32,
    pub dad: u32,
    pub count: u16,
    pub control: u16,
}

/// The transfer count a channel's count register means: DMA0-2 use 14 bits
/// and DMA3 16 bits, and 0 means the maximum.
pub open spec fn spec_effective_count(count: u16, channel_index: usize) -> u32 {
    let masked = if channel_index == 3 {
        count as u32
    } else {
        (count & 0x3FFF) as u32
    };
    if masked == 0 {
        if channel_index == 3 {
            0x1_0000
        } else {
            0x4000
        }
    } else {
        masked
    }
}

impl DmaChannel {
    pub fn new() -> (c: Self)
        ensures
            c == (DmaChannel { sad: 0, dad: 0, count: 0, control: 0 }),
    {
        DmaChannel { sad: 0, dad: 0, count: 0, control: 0 }
    }

    pub open spec fn spec_enabled(self) -> bool {
        self.control & 0x8000 != 0
    }

    pub open spec fn spec_start_timing(self) -> u8 {
        ((self.control >> 12) & 0x3) as u8
    }

    pub fn enabled(&self) -> (b: bool)
        ensures
            b == self.spec_enabled(),
    {
        self.control & 0x8000 != 0
    }

    pub fn irq_enable(&self) -> (b: bool)
        ensures
            b == (self.control & 0x4000 != 0),
    {
        self.control & 0x4000 != 0
    }

    /// 0=Immediate, 1=VBlank, 2=HBlank, 3=Special.
    pub fn start_timing(&self) -> (t: u8)
        ensures
            t == self.spec_start_timing(),
    {
        ((self.control >> 12) & 0x3) as u8
    }

    pub fn word32(&self) -> (b: bool)
        ensures
            b == (self.control & 0x0400 != 0),
    {
        self.control & 0x0400 != 0
    }

    pub fn repeat(&self) -> (b: bool)
        ensures
            b == (self.control & 0x0200 != 0),
    {
        self.control & 0x0200 != 0
    }

    pub fn src_control(&self) -> (c: AddrControl)
        ensures
            c == AddrControl::spec_from_bits(self.control >> 7),
    {
        AddrControl::from_bits(self.control >> 7)
    }

    pub fn dest_control(&self) -> (c: AddrControl)
        ensures
            c == AddrControl::spec_from_bits(self.control >> 5),
    {
        AddrControl::from_bits(self.control >> 5)
    }

    /// The count register per the "0 means max" rule.
    pub fn effective_count(&self, channel_index: usize) -> (n: u32)
        ensures
            n == spec_effective_count(self.count, channel_index),
            1 <= n <= 0x1_0000,
    {
        let mask: u32 = if channel_index == 3 {
            0xFFFF
        } else {
            0x3FFF
        };
        let max: u32 = if channel_index == 3 {
            0x1_0000
        } else {
            0x4000
        };
        let c: u16 = self.count;
        let masked: u32 = c as u32 & mask;
        assert(c as u32 & 0xFFFF == c as u32 && (c as u32) & 0x3FFF == (c & 0x3FFF) as u32)
            by (bit_vector);
        if masked == 0 {
            max
        } else {
            masked
        }
    }

    pub fn disable(&mut self)
        ensures
            *final(self) == (DmaChannel { control: old(self).control & !0x8000u16, ..*old(self) }),
    {
        self.control = self.control & !0x8000u16;
    }
}

/// A channel register byte (offset 0-11 within the channel) as read.
pub open spec fn spec_channel_byte(ch: DmaChannel, b: usize) -> u8 {
    if b == 0 {
        (ch.sad & 0xFF) as u8
    } else if b == 1 {
        (ch.sad >> 8) as u8
    } else if b == 2 {
        (ch.sad >> 16) as u8
    } else if b == 3 {
        (ch.sad >> 24) as u8
    } else if b == 4 {
        (ch.dad & 0xFF) as u8
    } else if b == 5 {
        (ch.dad >> 8) as u8
    } else if b == 6 {
        (ch.dad >> 16) as u8
    } else if b == 7 {
        (ch.dad >> 24) as u8
    } else if b == 8 {
        (ch.count & 0xFF) as u8
    } else if b == 9 {
        (ch.count >> 8) as u8
    } else if b == 10 {
        (ch.control & 0xFF) as u8
    } else {
        (ch.control >> 8) as u8
    }
}

/// A channel after register byte `b` (0-11) is written with `v`.
pub open spec fn spec_channel_write(ch: DmaChannel, b: usize, v: u8) -> DmaChannel {
    let v32 = v as u32;
    let v16 = v as u16;
    if b == 0 {
        DmaChannel { sad: (ch.sad & 0xFFFF_FF00) | v32, ..ch }
    } else if b == 1 {
        DmaChannel { sad: (ch.sad & 0xFFFF_00FF) | (v32 << 8), ..ch }
    } else if b == 2 {
        DmaChannel { sad: (ch.sad & 0xFF00_FFFF) | (v32 << 16), ..ch }
    } else if b == 3 {
        DmaChannel { sad: (ch.sad & 0x00FF_FFFF) | (v32 << 24), ..ch }
    } else if b == 4 {
        DmaChannel { dad: (ch.dad & 0xFFFF_FF00) | v32, ..ch }
    } else if b == 5 {
        DmaChannel { dad: (ch.dad & 0xFFFF_00FF) | (v32 << 8), ..ch }
    } else if b == 6 {
        DmaChannel { dad: (ch.dad & 0xFF00_FFFF) | (v32 << 16), ..ch }
    } else if b == 7 {
        DmaChannel { dad: (ch.dad & 0x00FF_FFFF) | (v32 << 24), ..ch }
    } else if b == 8 {
        DmaChannel { count: (ch.count & 0xFF00) | v16, ..ch }
    } else if b == 9 {
        DmaChannel { count: (ch.count & 0x00FF) | (v16 << 8), ..ch }
    } else if b == 10 {
        DmaChannel { control: (ch.control & 0xFF00) | v16, ..ch }
    } else {
        DmaChannel { control: (ch.control & 0x00FF) | (v16 << 8), ..ch }
    }
}

/// Everything needed to execute one DMA transfer, read out of a channel at
/// the moment it fires.
#[derive(Debug, Clone, Copy, PartialEq, Eq, Structural)]
pub struct DmaTransfer {
    pub src: u32,
    pub dst: u32,
    pub count: u32,
    pub word32: bool,
    pub src_control: AddrControl,
    pub dest_control: AddrControl,
    pub irq_enable: bool,
}

/// The transfer channel `index` describes.
pub open spec fn spec_latch(ch: DmaChannel, index: usize) -> DmaTransfer {
    DmaTransfer {
        src: ch.sad,
        dst: ch.dad,
        count: spec_effective_count(ch.count, index),
        word32: ch.control & 0x0400 != 0,
        src_control: AddrControl::spec_from_bits(ch.control >> 7),
        dest_control: AddrControl::spec_from_bits(ch.control >> 5),
        irq_enable: ch.control & 0x4000 != 0,
    }
}

/// A channel after its transfer completes: source and (unless
/// increment-reload) destination resume where the transfer stopped, and
/// the channel disables itself unless it repeats.
pub open spec fn spec_finish(ch: DmaChannel, final_src: u32, final_dst: u32) -> DmaChannel {
    DmaChannel {
        sad: final_src,
        dad: if AddrControl::spec_from_bits(ch.control >> 5) == AddrControl::IncrementReload {
            ch.dad
        } else {
            final_dst
        },
        count: ch.count,
        control: if ch.control & 0x0200 != 0 {
            ch.control
        } else {
            ch.control & !0x8000u16
        },
    }
}

/// An address after one transfer unit under `control`.
pub open spec fn spec_step_addr(addr: u32, control: AddrControl, unit: u32) -> u32 {
    match control {
        AddrControl::Increment | AddrControl::IncrementReload => addr.wrapping_add(unit),
        AddrControl::Decrement => addr.wrapping_sub(unit),
        AddrControl::Fixed => addr,
    }
}

/// Applies a channel's address control after one transfer unit (2 or 4
/// bytes).
pub fn step_addr(addr: u32, control: AddrControl, unit: u32) -> (a: u32)
    ensures
        a == spec_step_addr(addr, control, unit),
{
    match control {
        AddrControl::Increment | AddrControl::IncrementReload => addr.wrapping_add(unit),
        AddrControl::Decrement => addr.wrapping_sub(unit),
        AddrControl::Fixed => addr,
    }
}

#[derive(Debug, Clone, Copy)]
pub struct Dma {
    pub channels: [DmaChannel; 4],
}

impl View for Dma {
    type V = Seq<DmaChannel>;

    open spec fn view(&self) -> Seq<DmaChannel> {
        self.channels@
    }
}

pub open spec fn spec_dma_read(chs: Seq<DmaChannel>, offset: usize) -> u8 {
    spec_channel_byte(chs[(offset / 12) as int], offset % 12)
}

pub open spec fn spec_dma_write(chs: Seq<DmaChannel>, offset: usize, value: u8) -> Seq<DmaChannel> {
    chs.update((offset / 12) as int, spec_channel_write(chs[(offset / 12) as int], offset % 12, value))
}

pub open spec fn spec_armed_for_immediate(chs: Seq<DmaChannel>, channel: usize) -> bool {
    chs[channel as int].spec_enabled() && chs[channel as int].spec_start_timing() == 0
}

pub open spec fn spec_finish_transfer(chs: Seq<DmaChannel>, index: usize, final_src: u32, final_dst: u32) -> Seq<
    DmaChannel,
> {
    chs.update(index as int, spec_finish(chs[index as int], final_src, final_dst))
}

impl Dma {
    pub fn new() -> (d: Self)
        ensures
            d@.len() == 4,
            forall|i: int|
                0 <= i < 4 ==> #[trigger] d@[i] == (DmaChannel {
                    sad: 0,
                    dad: 0,
                    count: 0,
                    control: 0,
                }),
    {
        Dma { channels: [DmaChannel::new(), DmaChannel::new(), DmaChannel::new(), DmaChannel::new()] }
    }


    pub fn read_register(&self, offset: usize) -> (b: u8)
        requires
            offset < IO_SIZE,
        ensures
            b == spec_dma_read(self@, offset),
    {
        let ch = &self.channels[offset / 12];
        let b = offset % 12;
        if b == 0 {
            (ch.sad & 0xFF) as u8
        } else if b == 1 {
            (ch.sad >> 8) as u8
        } else if b == 2 {
            (ch.sad >> 16) as u8
        } else if b == 3 {
            (ch.sad >> 24) as u8
        } else if b == 4 {
            (ch.dad & 0xFF) as u8
        } else if b == 5 {
            (ch.dad >> 8) as u8
        } else if b == 6 {
            (ch.dad >> 16) as u8
        } else if b == 7 {
            (ch.dad >> 24) as u8
        } else if b == 8 {
            (ch.count & 0xFF) as u8
        } else if b == 9 {
            (ch.count >> 8) as u8
        } else if b == 10 {
            (ch.control & 0xFF) as u8
        } else {
            (ch.control >> 8) as u8
        }
    }

    pub fn write_register(&mut self, offset: usize, value: u8)
        requires
            offset < IO_SIZE,
        ensures
            final(self)@ == spec_dma_write(old(self)@, offset, value),
    {
        let idx = offset / 12;
        let mut ch = self.channels[idx];
        let b = offset % 12;
        let v32 = value as u32;
        let v16 = value as u16;
        if b == 0 {
            ch.sad = (ch.sad & 0xFFFF_FF00) | v32;
        } else if b == 1 {
            ch.sad = (ch.sad & 0xFFFF_00FF) | (v32 << 8);
        } else if b == 2 {
            ch.sad = (ch.sad & 0xFF00_FFFF) | (v32 << 16);
        } else if b == 3 {
            ch.sad = (ch.sad & 0x00FF_FFFF) | (v32 << 24);
        } else if b == 4 {
            ch.dad = (ch.dad & 0xFFFF_FF00) | v32;
        } else if b == 5 {
            ch.dad = (ch.dad & 0xFFFF_00FF) | (v32 << 8);
        } else if b == 6 {
            ch.dad = (ch.dad & 0xFF00_FFFF) | (v32 << 16);
        } else if b == 7 {
            ch.dad = (ch.dad & 0x00FF_FFFF) | (v32 << 24);
        } else if b == 8 {
            ch.count = (ch.count & 0xFF00) | v16;
        } else if b == 9 {
            ch.count = (ch.count & 0x00FF) | (v16 << 8);
        } else if b == 10 {
            ch.control = (ch.control & 0xFF00) | v16;
        } else {
            ch.control = (ch.control & 0x00FF) | (v16 << 8);
        }
        self.channels[idx] = ch;
        assert(self.channels@ =~= spec_dma_write(old(self)@, offset, value));
    }

    /// The channel whose DMAxCNT_H high byte (the only byte that can newly
    /// arm a channel) sits at `offset`, if any.
    pub fn touched_control_high_byte(offset: usize) -> (c: Option<usize>)
        ensures
            c == if offset % 12 == 11 {
                Some(offset / 12)
            } else {
                None::<usize>
            },
    {
        if offset % 12 == 11 {
            Some(offset / 12)
        } else {
            None
        }
    }

    pub fn armed_for_immediate(&self, channel: usize) -> (b: bool)
        requires
            channel < 4,
        ensures
            b == spec_armed_for_immediate(self@, channel),
    {
        self.channels[channel].enabled() && self.channels[channel].start_timing() == 0
    }

    /// Every channel currently enabled and armed for `timing` (1=VBlank,
    /// 2=HBlank).
    pub fn channels_armed_for(&self, timing: u8) -> (out: [bool; 4])
        ensures
            forall|i: int|
                0 <= i < 4 ==> #[trigger] out[i] == (self.channels[i].spec_enabled()
                    && self.channels[i].spec_start_timing() == timing),
    {
        let mut out = [false; 4];
        let mut i: usize = 0;
        while i < 4
            invariant
                i <= 4,
                forall|j: int|
                    0 <= j < i ==> #[trigger] out[j] == (self.channels[j].spec_enabled()
                        && self.channels[j].spec_start_timing() == timing),
            decreases 4 - i,
        {
            out[i] = self.channels[i].enabled() && self.channels[i].start_timing() == timing;
            i = i + 1;
        }
        out
    }

    /// Reads out everything a transfer of channel `index` needs.
    pub fn latch_for_transfer(&self, index: usize) -> (t: DmaTransfer)
        requires
            index < 4,
        ensures
            t == spec_latch(self.channels[index as int], index),
    {
        let ch = &self.channels[index];
        DmaTransfer {
            src: ch.sad,
            dst: ch.dad,
            count: ch.effective_count(index),
            word32: ch.word32(),
            src_control: ch.src_control(),
            dest_control: ch.dest_control(),
            irq_enable: ch.irq_enable(),
        }
    }

    /// Called after a transfer completes: updates the source/dest registers
    /// to resume correctly on a repeat, and clears the enable bit unless
    /// the channel repeats.
    pub fn finish_transfer(&mut self, index: usize, final_src: u32, final_dst: u32)
        requires
            index < 4,
        ensures
            final(self)@ == spec_finish_transfer(old(self)@, index, final_src, final_dst),
    {
        let mut ch = self.channels[index];
        let keep_original_dad = ch.dest_control() == AddrControl::IncrementReload;
        let original_dad = ch.dad;
        ch.sad = final_src;
        ch.dad = if keep_original_dad {
            original_dad
        } else {
            final_dst
        };
        if !ch.repeat() {
            ch.disable();
        }
        self.channels[index] = ch;
        assert(self.channels@ =~= spec_finish_transfer(old(self)@, index, final_src, final_dst));
    }
}

/// A non-repeating channel is disarmed by completing its transfer, so it
/// cannot fire again until the program re-enables it.
pub proof fn lemma_finish_disarms_non_repeating(ch: DmaChannel, src: u32, dst: u32)
    requires
        ch.control & 0x0200 == 0,
    ensures
        !spec_finish(ch, src, dst).spec_enabled(),
{
    let c = ch.control;
    assert((c & !0x8000u16) & 0x8000 == 0) by (bit_vector);
}

} // verus!
