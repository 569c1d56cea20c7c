//! Sound channel 4: pseudo-random noise from a linear feedback shift
//! register (LFSR), with the same length and envelope hardware as the pulse
//! channels.
use vstd::prelude::*;
use crate::apu::pulse::{spec_bit, spec_reload8};

verus! {

broadcast use crate::bits::group_bits;

/// The GB "dividing ratio" table, in GB clocks (scaled by 4 in the period).
pub open spec fn spec_divisor(code: u8) -> u32 {
    if code == 0 {
        8
    } else {
        (16 * code) as u32
    }
}

pub fn divisor(code: u8) -> (d: u32)
    requires
        code < 8,
    ensures
        d == spec_divisor(code),
        d <= 112,
{
    if code == 0 {
        8
    } else {
        16 * code as u32
    }
}

/// One LFSR step: bits 0 and 1 are XORed, the register shifts right and
/// the result enters at bit 14 (and also at bit 6 in 7-bit mode).
pub open spec fn spec_step_lfsr(lfsr: u16, width_7bit: bool) -> u16 {
    let x: u16 = (lfsr & 1) ^ ((lfsr >> 1u16) & 1);
    let l: u16 = (lfsr >> 1u16) | ((x << 14u16) as u16);
    if width_7bit {
        (l & !(1u16 << 6u16)) | ((x << 6u16) as u16)
    } else {
        l
    }
}

#[derive(Debug, Clone, Copy, PartialEq, Eq, Structural)]
pub struct NoiseChannel {
    pub length_data: u8,
    pub envelope_initial_volume: u8,
    pub envelope_increasing: bool,
    pub envelope_period: u8,
    pub divisor_code: u8,
    pub width_7bit: bool,
    pub shift: u8,
    pub length_enable: bool,
    pub enabled: bool,
    pub length_counter: u16,
    pub volume: u8,
    pub envelope_timer: u8,
    pub freq_timer: u32,
    pub lfsr: u16,
}

impl NoiseChannel {
    pub open spec fn wf(self) -> bool {
        &&& self.length_data < 64
        &&& self.envelope_initial_volume < 16
        &&& self.envelope_period < 8
        &&& self.divisor_code < 8
        &&& self.shift < 16
        &&& self.length_counter <= 64
        &&& self.volume < 16
        &&& self.envelope_timer <= 8
        &&& self.freq_timer >= 1
    }

    pub open spec fn spec_new() -> NoiseChannel {
        NoiseChannel {
            length_data: 0,
            envelope_initial_volume: 0,
            envelope_increasing: false,
            envelope_period: 0,
            divisor_code: 0,
            width_7bit: false,
            shift: 0,
            length_enable: false,
            enabled: false,
            length_counter: 0,
            volume: 0,
            envelope_timer: 0,
            freq_timer: 1,
            lfsr: 0x7FFF,
        }
    }

    pub fn new() -> (c: Self)
        ensures
            c == Self::spec_new(),
            c.wf(),
    {
        NoiseChannel {
            length_data: 0,
            envelope_initial_volume: 0,
            envelope_increasing: false,
            envelope_period: 0,
            divisor_code: 0,
            width_7bit: false,
            shift: 0,
            length_enable: false,
            enabled: false,
            length_counter: 0,
            volume: 0,
            envelope_timer: 0,
            freq_timer: 1,
            lfsr: 0x7FFF,
        }
    }

    pub fn enabled(&self) -> (b: bool)
        ensures
            b == self.enabled,
    {
        self.enabled
    }

    pub open spec fn spec_write_length_envelope_lo(self, value: u8) -> NoiseChannel {
        NoiseChannel { length_data: value & 0x3F, ..self }
    }

    pub fn write_length_envelope_lo(&mut self, value: u8)
        requires
            old(self).wf(),
        ensures
            *final(self) == old(self).spec_write_length_envelope_lo(value),
            final(self).wf(),
    {
        self.length_data = value & 0x3F;
    }

    pub open spec fn spec_write_length_envelope_hi(self, value: u8) -> NoiseChannel {
        NoiseChannel {
            envelope_period: value & 7,
            envelope_increasing: value & 0x08 != 0,
            envelope_initial_volume: (value >> 4) & 0xF,
            ..self
        }
    }

    pub fn write_length_envelope_hi(&mut self, value: u8)
        requires
            old(self).wf(),
        ensures
            *final(self) == old(self).spec_write_length_envelope_hi(value),
            final(self).wf(),
    {
        self.envelope_period = value & 0x7;
        self.envelope_increasing = value & 0x08 != 0;
        self.envelope_initial_volume = (value >> 4) & 0xF;
    }

    pub open spec fn spec_read_length_envelope_hi(self) -> u8 {
        self.envelope_period | spec_bit(self.envelope_increasing, 3) | ((
        self.envelope_initial_volume << 4u8) as u8)
    }

    pub fn read_length_envelope_hi(&self) -> (b: u8)
        ensures
            b == self.spec_read_length_envelope_hi(),
    {
        let inc: u8 = if self.envelope_increasing {
            1u8 << 3u8
        } else {
            0
        };
        self.envelope_period | inc | (self.envelope_initial_volume << 4u8)
    }

    pub open spec fn spec_write_control_lo(self, value: u8) -> NoiseChannel {
        NoiseChannel {
            divisor_code: value & 7,
            width_7bit: value & 0x08 != 0,
            shift: (value >> 4) & 0xF,
            ..self
        }
    }

    pub fn write_control_lo(&mut self, value: u8)
        requires
            old(self).wf(),
        ensures
            *final(self) == old(self).spec_write_control_lo(value),
            final(self).wf(),
    {
        self.divisor_code = value & 0x7;
        self.width_7bit = value & 0x08 != 0;
        self.shift = (value >> 4) & 0xF;
    }

    pub open spec fn spec_read_control_lo(self) -> u8 {
        self.divisor_code | spec_bit(self.width_7bit, 3) | ((self.shift << 4u8) as u8)
    }

    pub fn read_control_lo(&self) -> (b: u8)
        ensures
            b == self.spec_read_control_lo(),
    {
        let w: u8 = if self.width_7bit {
            1u8 << 3u8
        } else {
            0
        };
        self.divisor_code | w | (self.shift << 4u8)
    }

    /// Bit 7 of this byte is the trigger bit.
    pub open spec fn spec_write_control_hi(self, value: u8) -> NoiseChannel {
        let c = NoiseChannel { length_enable: value & 0x40 != 0, ..self };
        if value & 0x80 != 0 {
            c.spec_trigger()
        } else {
            c
        }
    }

    pub fn write_control_hi(&mut self, value: u8)
        requires
            old(self).wf(),
        ensures
            *final(self) == old(self).spec_write_control_hi(value),
            final(self).wf(),
    {
        self.length_enable = value & 0x40 != 0;
        if value & 0x80 != 0 {
            self.trigger();
        }
    }

    pub fn read_control_hi(&self) -> (b: u8)
        ensures
            b == spec_bit(self.length_enable, 6),
    {
        if self.length_enable {
            1u8 << 6u8
        } else {
            0
        }
    }

    pub open spec fn spec_period(self) -> u32 {
        ((spec_divisor(self.divisor_code) << self.shift) * 4) as u32
    }

    /// Cycles per LFSR step: (divisor << shift) * 4.
    pub fn period(&self) -> (p: u32)
        requires
            self.wf(),
        ensures
            p == self.spec_period(),
            p >= 1,
    {
        let d: u32 = divisor(self.divisor_code);
        let s: u8 = self.shift;
        assert(1 <= (d << s) <= 3670016) by (bit_vector)
            requires
                1 <= d <= 112,
                s < 16,
        ;
        (d << s) * 4
    }

    pub open spec fn spec_trigger(self) -> NoiseChannel {
        NoiseChannel {
            enabled: true,
            length_counter: if self.length_counter == 0 {
                (64 - self.length_data) as u16
            } else {
                self.length_counter
            },
            freq_timer: self.spec_period(),
            volume: self.envelope_initial_volume,
            envelope_timer: spec_reload8(self.envelope_period),
            lfsr: 0x7FFF,
            ..self
        }
    }

    fn trigger(&mut self)
        requires
            old(self).wf(),
        ensures
            *final(self) == old(self).spec_trigger(),
            final(self).wf(),
    {
        self.enabled = true;
        if self.length_counter == 0 {
            self.length_counter = 64 - self.length_data as u16;
        }
        self.freq_timer = self.period();
        self.volume = self.envelope_initial_volume;
        self.envelope_timer = if self.envelope_period == 0 {
            8
        } else {
            self.envelope_period
        };
        self.lfsr = 0x7FFF;
    }

    pub open spec fn spec_clock_length(self) -> NoiseChannel {
        if self.length_enable && self.length_counter > 0 {
            let n = (self.length_counter - 1) as u16;
            NoiseChannel {
                length_counter: n,
                enabled: if n == 0 {
                    false
                } else {
                    self.enabled
                },
                ..self
            }
        } else {
            self
        }
    }

    pub fn clock_length(&mut self)
        requires
            old(self).wf(),
        ensures
            *final(self) == old(self).spec_clock_length(),
            final(self).wf(),
    {
        if self.length_enable && self.length_counter > 0 {
            self.length_counter -= 1;
            if self.length_counter == 0 {
                self.enabled = false;
            }
        }
    }

    pub open spec fn spec_clock_envelope(self) -> NoiseChannel {
        if self.envelope_period == 0 {
            self
        } else {
            let t: u8 = if self.envelope_timer > 0 {
                (self.envelope_timer - 1) as u8
            } else {
                0
            };
            if t == 0 {
                NoiseChannel {
                    envelope_timer: self.envelope_period,
                    volume: if self.envelope_increasing && self.volume < 15 {
                        (self.volume + 1) as u8
                    } else if !self.envelope_increasing && self.volume > 0 {
                        (self.volume - 1) as u8
                    } else {
                        self.volume
                    },
                    ..self
                }
            } else {
                NoiseChannel { envelope_timer: t, ..self }
            }
        }
    }

    pub fn clock_envelope(&mut self)
        requires
            old(self).wf(),
        ensures
            *final(self) == old(self).spec_clock_envelope(),
            final(self).wf(),
    {
        if self.envelope_period == 0 {
            return;
        }
        if self.envelope_timer > 0 {
            self.envelope_timer -= 1;
        }
        if self.envelope_timer == 0 {
            self.envelope_timer = self.envelope_period;
            if self.envelope_increasing && self.volume < 15 {
                self.volume += 1;
            } else if !self.envelope_increasing && self.volume > 0 {
                self.volume -= 1;
            }
        }
    }

    fn step_lfsr(&mut self)
        ensures
            *final(self) == (NoiseChannel {
                lfsr: spec_step_lfsr(old(self).lfsr, old(self).width_7bit),
                ..*old(self)
            }),
    {
        let l: u16 = self.lfsr;
        let xor_bit: u16 = (l & 1) ^ ((l >> 1u16) & 1);
        assert(xor_bit << 14u16 == ((xor_bit << 14u16) as u16) && xor_bit << 6u16 == ((xor_bit
            << 6u16) as u16)) by (bit_vector);
        self.lfsr = (l >> 1u16) | (xor_bit << 14u16);
        if self.width_7bit {
            self.lfsr = (self.lfsr & !(1u16 << 6u16)) | (xor_bit << 6u16);
        }
    }

    /// The channel after `remaining` cycles: each time the frequency timer
    /// runs out the LFSR steps once and the timer reloads.
    pub open spec fn spec_tick(self, remaining: u32) -> NoiseChannel
        decreases remaining,
    {
        if remaining == 0 || self.freq_timer == 0 {
            self
        } else if self.freq_timer <= remaining {
            NoiseChannel {
                lfsr: spec_step_lfsr(self.lfsr, self.width_7bit),
                freq_timer: if self.spec_period() == 0 {
                    1
                } else {
                    self.spec_period()
                },
                ..self
            }.spec_tick((remaining - self.freq_timer) as u32)
        } else {
            NoiseChannel { freq_timer: (self.freq_timer - remaining) as u32, ..self }
        }
    }

    pub fn tick(&mut self, cycles: u32)
        requires
            old(self).wf(),
        ensures
            *final(self) == old(self).spec_tick(cycles),
            final(self).wf(),
    {
        let mut remaining = cycles;
        while remaining > 0
            invariant
                self.wf(),
                self.spec_tick(remaining) == old(self).spec_tick(cycles),
            decreases remaining,
        {
            if self.freq_timer <= remaining {
                remaining -= self.freq_timer;
                self.step_lfsr();
                let p = self.period();
                self.freq_timer = if p == 0 {
                    1
                } else {
                    p
                };
            } else {
                self.freq_timer -= remaining;
                remaining = 0;
            }
        }
    }

    pub open spec fn spec_amplitude(self) -> u8 {
        if !self.enabled || self.lfsr & 1 != 0 {
            0
        } else {
            self.volume
        }
    }

    /// The current volume while LFSR bit 0 is clear, silence while it is
    /// set.
    pub fn amplitude(&self) -> (a: u8)
        requires
            self.wf(),
        ensures
            a == self.spec_amplitude(),
            a < 16,
    {
        if !self.enabled || self.lfsr & 1 != 0 {
            0
        } else {
            self.volume
        }
    }
}

} // verus!
