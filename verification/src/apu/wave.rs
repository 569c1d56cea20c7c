//! Sound channel 3: plays back a 4-bit waveform stored in Wave RAM.
//!
//! Real hardware's one-bank mode plays from the bank opposite the one
//! selected for CPU access; this channel plays from whichever bank was
//! selected at trigger time, which covers the common write-once-and-loop
//! use of Wave RAM but not double-buffered waveforms.
use vstd::prelude::*;
use crate::apu::pulse::spec_bit;

verus! {

broadcast use crate::bits::group_bits;

/// Cycles per sample step per unit of (2048 - frequency).
pub const FREQ_TIMER_SCALE: u32 = 8;

/// The channel with Wave RAM as a sequence: bank `b`, byte `i` is at
/// `b * 16 + i`.
#[verifier::ext_equal]
pub struct WaveView {
    pub dac_power: bool,
    pub two_banks: bool,
    pub bank_select: bool,
    pub wave_ram: Seq<u8>,
    pub length_data: u16,
    pub volume_code: u8,
    pub force_75_percent: bool,
    pub frequency: u16,
    pub length_enable: bool,
    pub enabled: bool,
    pub length_counter: u16,
    pub freq_timer: u32,
    pub sample_index: u8,
    pub playing_bank_start: bool,
}

pub open spec fn bank_index(b: bool) -> int {
    if b {
        1
    } else {
        0
    }
}

impl WaveView {
    pub open spec fn wf(self) -> bool {
        &&& self.wave_ram.len() == 32
        &&& self.length_data < 256
        &&& self.volume_code < 4
        &&& self.frequency < 2048
        &&& self.length_counter <= 256
        &&& self.freq_timer >= 1
        &&& self.sample_index < 64
    }

    pub open spec fn spec_sample_count(self) -> u8 {
        if self.two_banks {
            64
        } else {
            32
        }
    }

    pub open spec fn spec_period(self) -> u32 {
        ((2048 - self.frequency) * 8) as u32
    }

    pub open spec fn spec_read_wave_ram(self, offset: usize) -> u8 {
        self.wave_ram[bank_index(self.bank_select) * 16 + (offset % 16)]
    }

    pub open spec fn spec_write_wave_ram(self, offset: usize, value: u8) -> WaveView {
        WaveView {
            wave_ram: self.wave_ram.update(bank_index(self.bank_select) * 16 + (offset % 16), value),
            ..self
        }
    }

    /// The 4-bit sample at position `index` of the playing waveform: the
    /// high nibble of each byte plays first.
    pub open spec fn spec_sample_at(self, index: u8) -> u8 {
        let bank = if self.two_banks && index >= 32 {
            !self.playing_bank_start
        } else {
            self.playing_bank_start
        };
        let local = index % 32;
        let byte = self.wave_ram[bank_index(bank) * 16 + local / 2];
        if local % 2 == 0 {
            byte >> 4u8
        } else {
            byte & 0xF
        }
    }

    pub open spec fn spec_write_control_l(self, value: u8) -> WaveView {
        WaveView {
            two_banks: value & 0x20 != 0,
            bank_select: value & 0x40 != 0,
            dac_power: value & 0x80 != 0,
            ..self
        }
    }

    pub open spec fn spec_read_control_l(self) -> u8 {
        spec_bit(self.two_banks, 5) | spec_bit(self.bank_select, 6) | spec_bit(self.dac_power, 7)
    }

    pub open spec fn spec_write_control_h_hi(self, value: u8) -> WaveView {
        WaveView { volume_code: (value >> 5) & 3, force_75_percent: value & 0x80 != 0, ..self }
    }

    pub open spec fn spec_read_control_h_hi(self) -> u8 {
        ((self.volume_code << 5u8) as u8) | spec_bit(self.force_75_percent, 7)
    }

    pub open spec fn spec_write_control_x_lo(self, value: u8) -> WaveView {
        WaveView { frequency: (self.frequency & 0x0700) | (value as u16), ..self }
    }

    pub open spec fn spec_trigger(self) -> WaveView {
        WaveView {
            enabled: self.dac_power,
            length_counter: if self.length_counter == 0 {
                (256 - self.length_data) as u16
            } else {
                self.length_counter
            },
            freq_timer: self.spec_period(),
            sample_index: 0,
            playing_bank_start: self.bank_select,
            ..self
        }
    }

    pub open spec fn spec_write_control_x_hi(self, value: u8) -> WaveView {
        let c = WaveView {
            frequency: (self.frequency & 0x00FF) | (((value & 7) as u16) << 8u16),
            length_enable: value & 0x40 != 0,
            ..self
        };
        if value & 0x80 != 0 {
            c.spec_trigger()
        } else {
            c
        }
    }

    pub open spec fn spec_clock_length(self) -> WaveView {
        if self.length_enable && self.length_counter > 0 {
            let n = (self.length_counter - 1) as u16;
            WaveView {
                length_counter: n,
                enabled: if n == 0 {
                    false
                } else {
                    self.enabled
                },
                ..self
            }
        } else {
            self
        }
    }

    /// The channel after `remaining` cycles: each time the frequency timer
    /// runs out the sample position advances (wrapping at the waveform's
    /// length) and the timer reloads.
    pub open spec fn spec_tick(self, remaining: u32) -> WaveView
        decreases remaining,
    {
        if remaining == 0 || self.freq_timer == 0 {
            self
        } else if self.freq_timer <= remaining {
            WaveView {
                sample_index: ((self.sample_index + 1) % (self.spec_sample_count() as int)) as u8,
                freq_timer: if self.spec_period() == 0 {
                    1
                } else {
                    self.spec_period()
                },
                ..self
            }.spec_tick((remaining - self.freq_timer) as u32)
        } else {
            WaveView { freq_timer: (self.freq_timer - remaining) as u32, ..self }
        }
    }

    /// The sample scaled by the output level: mute, 100%, 50%, 25%, or 75%
    /// when forced.
    pub open spec fn spec_amplitude(self) -> u8 {
        if !self.enabled || !self.dac_power {
            0
        } else {
            let raw = self.spec_sample_at(self.sample_index);
            if self.force_75_percent {
                (raw * 3 / 4) as u8
            } else if self.volume_code == 0 {
                0
            } else if self.volume_code == 1 {
                raw
            } else if self.volume_code == 2 {
                raw >> 1u8
            } else {
                raw >> 2u8
            }
        }
    }
}

#[derive(Debug, Clone, Copy)]
pub struct WaveChannel {
    pub dac_power: bool,
    pub two_banks: bool,
    pub bank_select: bool,
    pub wave_ram: [u8; 32],
    pub length_data: u16,
    pub volume_code: u8,
    pub force_75_percent: bool,
    pub frequency: u16,
    pub length_enable: bool,
    pub enabled: bool,
    pub length_counter: u16,
    pub freq_timer: u32,
    pub sample_index: u8,
    pub playing_bank_start: bool,
}

impl View for WaveChannel {
    type V = WaveView;

    open spec fn view(&self) -> WaveView {
        WaveView {
            dac_power: self.dac_power,
            two_banks: self.two_banks,
            bank_select: self.bank_select,
            wave_ram: self.wave_ram@,
            length_data: self.length_data,
            volume_code: self.volume_code,
            force_75_percent: self.force_75_percent,
            frequency: self.frequency,
            length_enable: self.length_enable,
            enabled: self.enabled,
            length_counter: self.length_counter,
            freq_timer: self.freq_timer,
            sample_index: self.sample_index,
            playing_bank_start: self.playing_bank_start,
        }
    }
}

pub open spec fn spec_wave_new() -> WaveView {
    WaveView {
        dac_power: false,
        two_banks: false,
        bank_select: false,
        wave_ram: Seq::new(32, |i: int| 0u8),
        length_data: 0,
        volume_code: 0,
        force_75_percent: false,
        frequency: 0,
        length_enable: false,
        enabled: false,
        length_counter: 0,
        freq_timer: 1,
        sample_index: 0,
        playing_bank_start: false,
    }
}

fn bank_base(b: bool) -> (i: usize)
    ensures
        i == bank_index(b) * 16,
{
    if b {
        16
    } else {
        0
    }
}

impl WaveChannel {
    pub fn new() -> (c: Self)
        ensures
            c@ == spec_wave_new(),
            c@.wf(),
    {
        let c = WaveChannel {
            dac_power: false,
            two_banks: false,
            bank_select: false,
            wave_ram: [0u8; 32],
            length_data: 0,
            volume_code: 0,
            force_75_percent: false,
            frequency: 0,
            length_enable: false,
            enabled: false,
            length_counter: 0,
            freq_timer: 1,
            sample_index: 0,
            playing_bank_start: false,
        };
        assert(c.wave_ram@ =~= Seq::new(32, |i: int| 0u8));
        c
    }

    pub fn enabled(&self) -> (b: bool)
        ensures
            b == self@.enabled,
    {
        self.enabled
    }

    pub fn write_control_l(&mut self, value: u8)
        requires
            old(self)@.wf(),
        ensures
            final(self)@ == old(self)@.spec_write_control_l(value),
            final(self)@.wf(),
    {
        self.two_banks = value & 0x20 != 0;
        self.bank_select = value & 0x40 != 0;
        self.dac_power = value & 0x80 != 0;
    }

    pub fn read_control_l(&self) -> (b: u8)
        ensures
            b == self@.spec_read_control_l(),
    {
        let t: u8 = if self.two_banks {
            1u8 << 5u8
        } else {
            0
        };
        let s: u8 = if self.bank_select {
            1u8 << 6u8
        } else {
            0
        };
        let d: u8 = if self.dac_power {
            1u8 << 7u8
        } else {
            0
        };
        t | s | d
    }

    pub fn write_control_h_lo(&mut self, value: u8)
        requires
            old(self)@.wf(),
        ensures
            final(self)@ == (WaveView { length_data: value as u16, ..old(self)@ }),
            final(self)@.wf(),
    {
        self.length_data = value as u16;
    }

    pub fn write_control_h_hi(&mut self, value: u8)
        requires
            old(self)@.wf(),
        ensures
            final(self)@ == old(self)@.spec_write_control_h_hi(value),
            final(self)@.wf(),
    {
        self.volume_code = (value >> 5) & 0x3;
        self.force_75_percent = value & 0x80 != 0;
    }

    pub fn read_control_h_hi(&self) -> (b: u8)
        ensures
            b == self@.spec_read_control_h_hi(),
    {
        let f: u8 = if self.force_75_percent {
            1u8 << 7u8
        } else {
            0
        };
        (self.volume_code << 5u8) | f
    }

    pub fn write_control_x_lo(&mut self, value: u8)
        requires
            old(self)@.wf(),
        ensures
            final(self)@ == old(self)@.spec_write_control_x_lo(value),
            final(self)@.wf(),
    {
        let f: u16 = self.frequency;
        let v: u16 = value as u16;
        assert((f & 0x0700) | v < 2048) by (bit_vector)
            requires
                v < 256,
        ;
        self.frequency = (f & 0x0700) | v;
    }

    /// Bit 7 of this byte is the trigger bit.
    pub fn write_control_x_hi(&mut self, value: u8)
        requires
            old(self)@.wf(),
        ensures
            final(self)@ == old(self)@.spec_write_control_x_hi(value),
            final(self)@.wf(),
    {
        let f: u16 = self.frequency;
        let hi: u16 = (value & 0x7) as u16;
        assert((f & 0x00FF) | (hi << 8u16) < 2048) by (bit_vector)
            requires
                hi < 8,
        ;
        self.frequency = (f & 0x00FF) | (hi << 8u16);
        self.length_enable = value & 0x40 != 0;
        if value & 0x80 != 0 {
            self.trigger();
        }
    }

    pub fn read_control_x_hi(&self) -> (b: u8)
        ensures
            b == spec_bit(self.length_enable, 6),
    {
        if self.length_enable {
            1u8 << 6u8
        } else {
            0
        }
    }

    /// CPU access to Wave RAM targets the bank currently selected.
    pub fn read_wave_ram(&self, offset: usize) -> (b: u8)
        ensures
            b == self@.spec_read_wave_ram(offset),
    {
        self.wave_ram[bank_base(self.bank_select) + offset % 16]
    }

    pub fn write_wave_ram(&mut self, offset: usize, value: u8)
        requires
            old(self)@.wf(),
        ensures
            final(self)@ == old(self)@.spec_write_wave_ram(offset, value),
            final(self)@.wf(),
    {
        let i: usize = bank_base(self.bank_select) + offset % 16;
        self.wave_ram[i] = value;
        assert(self@.wave_ram =~= old(self)@.spec_write_wave_ram(offset, value).wave_ram);
    }

    pub fn sample_count(&self) -> (n: u8)
        ensures
            n == self@.spec_sample_count(),
    {
        if self.two_banks {
            64
        } else {
            32
        }
    }

    pub fn sample_at(&self, index: u8) -> (s: u8)
        ensures
            s == self@.spec_sample_at(index),
            s < 16,
    {
        let bank = if self.two_banks && index >= 32 {
            !self.playing_bank_start
        } else {
            self.playing_bank_start
        };
        let local: u8 = index % 32;
        let byte: u8 = self.wave_ram[bank_base(bank) + (local / 2) as usize];
        assert(byte >> 4u8 < 16) by (bit_vector);
        if local % 2 == 0 {
            byte >> 4u8
        } else {
            byte & 0xF
        }
    }

    /// Cycles per sample step: (2048 - frequency) * 8.
    pub fn period(&self) -> (p: u32)
        requires
            self@.wf(),
        ensures
            p == self@.spec_period(),
            8 <= p <= 16384,
    {
        (2048 - self.frequency as u32) * FREQ_TIMER_SCALE
    }

    fn trigger(&mut self)
        requires
            old(self)@.wf(),
        ensures
            final(self)@ == old(self)@.spec_trigger(),
            final(self)@.wf(),
    {
        self.enabled = self.dac_power;
        if self.length_counter == 0 {
            self.length_counter = 256 - self.length_data;
        }
        self.freq_timer = self.period();
        self.sample_index = 0;
        self.playing_bank_start = self.bank_select;
    }

    pub fn clock_length(&mut self)
        requires
            old(self)@.wf(),
        ensures
            final(self)@ == old(self)@.spec_clock_length(),
            final(self)@.wf(),
    {
        if self.length_enable && self.length_counter > 0 {
            self.length_counter -= 1;
            if self.length_counter == 0 {
                self.enabled = false;
            }
        }
    }

    pub fn tick(&mut self, cycles: u32)
        requires
            old(self)@.wf(),
        ensures
            final(self)@ == old(self)@.spec_tick(cycles),
            final(self)@.wf(),
    {
        let mut remaining = cycles;
        while remaining > 0
            invariant
                self@.wf(),
                self@.spec_tick(remaining) == old(self)@.spec_tick(cycles),
            decreases remaining,
        {
            if self.freq_timer <= remaining {
                remaining -= self.freq_timer;
                self.sample_index = (self.sample_index + 1) % self.sample_count();
                let p = self.period();
                self.freq_timer = if p == 0 {
                    1
                } else {
                    p
                };
            } else {
                self.freq_timer -= remaining;
                remaining = 0;
            }
        }
    }

    pub fn amplitude(&self) -> (a: u8)
        requires
            self@.wf(),
        ensures
            a == self@.spec_amplitude(),
            a < 16,
    {
        if !self.enabled || !self.dac_power {
            return 0;
        }
        let raw = self.sample_at(self.sample_index);
        if self.force_75_percent {
            (raw as u16 * 3 / 4) as u8
        } else if self.volume_code == 0 {
            0
        } else if self.volume_code == 1 {
            raw
        } else if self.volume_code == 2 {
            raw >> 1u8
        } else {
            raw >> 2u8
        }
    }
}

} // verus!
