//! Sound channels 1 and 2: a square wave at one of 4 duty cycles, with a
//! volume envelope and (channel 1 only) a frequency sweep. The hardware is
//! the DMG/CGB design clocked 4x faster, so every GB cycle count here is
//! multiplied by 4.
use vstd::prelude::*;

verus! {

broadcast use crate::bits::group_bits;

/// Whether step `step` (0-7) of duty pattern `duty` (0-3) is high:
/// 12.5% = step 7; 25% = steps 0 and 7; 50% = steps 0, 5, 6, 7;
/// 75% = steps 1 to 6.
pub open spec fn spec_duty_high(duty: u8, step: u8) -> bool {
    if duty == 0 {
        step == 7
    } else if duty == 1 {
        step == 0 || step == 7
    } else if duty == 2 {
        step == 0 || step >= 5
    } else {
        1 <= step <= 6
    }
}

pub fn duty_high(duty: u8, step: u8) -> (b: bool)
    ensures
        b == spec_duty_high(duty, step),
{
    if duty == 0 {
        step == 7
    } else if duty == 1 {
        step == 0 || step == 7
    } else if duty == 2 {
        step == 0 || step >= 5
    } else {
        1 <= step && step <= 6
    }
}

/// A timer period of 0 reloads as 8 (envelope and sweep timers).
pub open spec fn spec_reload8(p: u8) -> u8 {
    if p == 0 {
        8
    } else {
        p
    }
}

pub open spec fn spec_bit(b: bool, shift: u8) -> u8 {
    if b {
        (1u8 << shift) as u8
    } else {
        0
    }
}

#[derive(Debug, Clone, Copy, PartialEq, Eq, Structural)]
pub struct PulseChannel {
    pub has_sweep: bool,
    pub sweep_period: u8,
    pub sweep_negate: bool,
    pub sweep_shift: u8,
    pub duty: u8,
    pub length_data: u8,
    pub envelope_initial_volume: u8,
    pub envelope_increasing: bool,
    pub envelope_period: u8,
    pub frequency: u16,
    pub length_enable: bool,
    pub enabled: bool,
    pub length_counter: u16,
    pub volume: u8,
    pub envelope_timer: u8,
    pub freq_timer: u32,
    pub duty_step: u8,
    pub sweep_timer: u8,
    pub sweep_enabled: bool,
    pub sweep_shadow_freq: u16,
}

impl PulseChannel {
    /// Every field stays inside the range its register encoding allows.
    pub open spec fn wf(self) -> bool {
        &&& self.sweep_period < 8
        &&& self.sweep_shift < 8
        &&& self.duty < 4
        &&& self.length_data < 64
        &&& self.envelope_initial_volume < 16
        &&& self.envelope_period < 8
        &&& self.frequency < 2048
        &&& self.length_counter <= 64
        &&& self.volume < 16
        &&& self.envelope_timer <= 8
        &&& self.freq_timer >= 1
        &&& self.duty_step < 8
        &&& self.sweep_timer <= 8
        &&& self.sweep_shadow_freq < 2048
    }

    pub open spec fn spec_new(has_sweep: bool) -> PulseChannel {
        PulseChannel {
            has_sweep,
            sweep_period: 0,
            sweep_negate: false,
            sweep_shift: 0,
            duty: 0,
            length_data: 0,
            envelope_initial_volume: 0,
            envelope_increasing: false,
            envelope_period: 0,
            frequency: 0,
            length_enable: false,
            enabled: false,
            length_counter: 0,
            volume: 0,
            envelope_timer: 0,
            freq_timer: 1,
            duty_step: 0,
            sweep_timer: 0,
            sweep_enabled: false,
            sweep_shadow_freq: 0,
        }
    }

    pub fn new(has_sweep: bool) -> (c: Self)
        ensures
            c == Self::spec_new(has_sweep),
            c.wf(),
    {
        PulseChannel {
            has_sweep,
            sweep_period: 0,
            sweep_negate: false,
            sweep_shift: 0,
            duty: 0,
            length_data: 0,
            envelope_initial_volume: 0,
            envelope_increasing: false,
            envelope_period: 0,
            frequency: 0,
            length_enable: false,
            enabled: false,
            length_counter: 0,
            volume: 0,
            envelope_timer: 0,
            freq_timer: 1,
            duty_step: 0,
            sweep_timer: 0,
            sweep_enabled: false,
            sweep_shadow_freq: 0,
        }
    }

    // Register writes and reads.
    pub open spec fn spec_write_sweep(self, value: u8) -> PulseChannel {
        PulseChannel {
            sweep_shift: value & 7,
            sweep_negate: value & 0x08 != 0,
            sweep_period: (value >> 4) & 7,
            ..self
        }
    }

    pub fn write_sweep(&mut self, value: u8)
        requires
            old(self).wf(),
        ensures
            *final(self) == old(self).spec_write_sweep(value),
            final(self).wf(),
    {
        self.sweep_shift = value & 0x7;
        self.sweep_negate = value & 0x08 != 0;
        self.sweep_period = (value >> 4) & 0x7;
    }

    pub open spec fn spec_read_sweep(self) -> u8 {
        self.sweep_shift | spec_bit(self.sweep_negate, 3) | ((self.sweep_period << 4u8) as u8)
    }

    pub fn read_sweep(&self) -> (b: u8)
        ensures
            b == self.spec_read_sweep(),
    {
        let neg: u8 = if self.sweep_negate {
            1u8 << 3u8
        } else {
            0
        };
        self.sweep_shift | neg | (self.sweep_period << 4u8)
    }

    pub open spec fn spec_write_length_envelope_lo(self, value: u8) -> PulseChannel {
        PulseChannel { length_data: value & 0x3F, duty: (value >> 6) & 3, ..self }
    }

    pub fn write_length_envelope_lo(&mut self, value: u8)
        requires
            old(self).wf(),
        ensures
            *final(self) == old(self).spec_write_length_envelope_lo(value),
            final(self).wf(),
    {
        self.length_data = value & 0x3F;
        self.duty = (value >> 6) & 0x3;
    }

    pub open spec fn spec_write_length_envelope_hi(self, value: u8) -> PulseChannel {
        PulseChannel {
            envelope_period: value & 7,
            envelope_increasing: value & 0x08 != 0,
            envelope_initial_volume: (value >> 4) & 0xF,
            ..self
        }
    }

    pub fn write_length_envelope_hi(&mut self, value: u8)
        requires
            old(self).wf(),
        ensures
            *final(self) == old(self).spec_write_length_envelope_hi(value),
            final(self).wf(),
    {
        self.envelope_period = value & 0x7;
        self.envelope_increasing = value & 0x08 != 0;
        self.envelope_initial_volume = (value >> 4) & 0xF;
    }

    pub fn read_length_envelope_lo(&self) -> (b: u8)
        ensures
            b == (self.duty << 6u8) as u8,
    {
        self.duty << 6u8
    }

    pub open spec fn spec_read_length_envelope_hi(self) -> u8 {
        self.envelope_period | spec_bit(self.envelope_increasing, 3) | ((
        self.envelope_initial_volume << 4u8) as u8)
    }

    pub fn read_length_envelope_hi(&self) -> (b: u8)
        ensures
            b == self.spec_read_length_envelope_hi(),
    {
        let inc: u8 = if self.envelope_increasing {
            1u8 << 3u8
        } else {
            0
        };
        self.envelope_period | inc | (self.envelope_initial_volume << 4u8)
    }

    pub open spec fn spec_write_freq_lo(self, value: u8) -> PulseChannel {
        PulseChannel { frequency: (self.frequency & 0x0700) | (value as u16), ..self }
    }

    pub fn write_freq_lo(&mut self, value: u8)
        requires
            old(self).wf(),
        ensures
            *final(self) == old(self).spec_write_freq_lo(value),
            final(self).wf(),
    {
        let f: u16 = self.frequency;
        let v: u16 = value as u16;
        assert((f & 0x0700) | v < 2048) by (bit_vector)
            requires
                v < 256,
        ;
        self.frequency = (f & 0x0700) | v;
    }

    /// The register state after the high byte of the frequency register is
    /// written, before any trigger.
    pub open spec fn spec_set_freq_hi(self, value: u8) -> PulseChannel {
        PulseChannel {
            frequency: (self.frequency & 0x00FF) | (((value & 7) as u16) << 8u16),
            length_enable: value & 0x40 != 0,
            ..self
        }
    }

    /// Bit 7 of this byte is the trigger bit, the only write that restarts
    /// the channel.
    pub open spec fn spec_write_freq_hi(self, value: u8) -> PulseChannel {
        let c = self.spec_set_freq_hi(value);
        if value & 0x80 != 0 {
            c.spec_trigger()
        } else {
            c
        }
    }

    pub fn write_freq_hi(&mut self, value: u8)
        requires
            old(self).wf(),
        ensures
            *final(self) == old(self).spec_write_freq_hi(value),
            final(self).wf(),
    {
        let f: u16 = self.frequency;
        let hi: u16 = (value & 0x7) as u16;
        assert((f & 0x00FF) | (hi << 8u16) < 2048) by (bit_vector)
            requires
                hi < 8,
        ;
        self.frequency = (f & 0x00FF) | (hi << 8u16);
        self.length_enable = value & 0x40 != 0;
        if value & 0x80 != 0 {
            self.trigger();
        }
    }

    pub fn read_freq_hi(&self) -> (b: u8)
        ensures
            b == spec_bit(self.length_enable, 6),
    {
        if self.length_enable {
            1u8 << 6u8
        } else {
            0
        }
    }

    pub fn enabled(&self) -> (b: bool)
        ensures
            b == self.enabled,
    {
        self.enabled
    }

    pub open spec fn spec_period(self) -> u32 {
        ((2048 - self.frequency) * 16) as u32
    }

    /// Cycles per duty step: (2048 - frequency) * 16.
    pub fn period(&self) -> (p: u32)
        requires
            self.wf(),
        ensures
            p == self.spec_period(),
            16 <= p <= 32768,
    {
        (2048 - self.frequency as u32) * 16
    }

    /// The frequency one sweep step moves to: the shadow frequency plus or
    /// minus itself shifted right by the sweep shift.
    pub open spec fn spec_sweep_target(self) -> u16 {
        let delta = self.sweep_shadow_freq >> self.sweep_shift;
        if self.sweep_negate {
            self.sweep_shadow_freq.wrapping_sub(delta)
        } else {
            self.sweep_shadow_freq.wrapping_add(delta)
        }
    }

    /// The overflow check: a target past 11 bits silences the channel.
    pub open spec fn spec_sweep_check(self) -> PulseChannel {
        if self.spec_sweep_target() > 2047 {
            PulseChannel { enabled: false, ..self }
        } else {
            self
        }
    }

    pub open spec fn spec_trigger(self) -> PulseChannel {
        let c = PulseChannel {
            enabled: true,
            length_counter: if self.length_counter == 0 {
                (64 - self.length_data) as u16
            } else {
                self.length_counter
            },
            freq_timer: self.spec_period(),
            volume: self.envelope_initial_volume,
            envelope_timer: spec_reload8(self.envelope_period),
            ..self
        };
        if self.has_sweep {
            let s = PulseChannel {
                sweep_shadow_freq: self.frequency,
                sweep_timer: spec_reload8(self.sweep_period),
                sweep_enabled: self.sweep_period != 0 || self.sweep_shift != 0,
                ..c
            };
            if self.sweep_shift != 0 {
                s.spec_sweep_check()
            } else {
                s
            }
        } else {
            c
        }
    }

    fn trigger(&mut self)
        requires
            old(self).wf(),
        ensures
            *final(self) == old(self).spec_trigger(),
            final(self).wf(),
    {
        self.enabled = true;
        if self.length_counter == 0 {
            self.length_counter = 64 - self.length_data as u16;
        }
        self.freq_timer = self.period();
        self.volume = self.envelope_initial_volume;
        self.envelope_timer = if self.envelope_period == 0 {
            8
        } else {
            self.envelope_period
        };
        if self.has_sweep {
            self.sweep_shadow_freq = self.frequency;
            self.sweep_timer = if self.sweep_period == 0 {
                8
            } else {
                self.sweep_period
            };
            self.sweep_enabled = self.sweep_period != 0 || self.sweep_shift != 0;
            if self.sweep_shift != 0 {
                self.compute_sweep_frequency();
            }
        }
    }

    /// Computes the sweep target and silences the channel if it overflows
    /// past 11 bits (checked on trigger too).
    fn compute_sweep_frequency(&mut self) -> (f: u16)
        requires
            old(self).wf(),
        ensures
            f == old(self).spec_sweep_target(),
            f < 4096,
            *final(self) == old(self).spec_sweep_check(),
            final(self).wf(),
    {
        let shadow: u16 = self.sweep_shadow_freq;
        let shift: u8 = self.sweep_shift;
        let delta: u16 = shadow >> shift;
        let new_freq: u16 = if self.sweep_negate {
            shadow.wrapping_sub(delta)
        } else {
            shadow.wrapping_add(delta)
        };
        assert(shadow.wrapping_add(shadow >> shift) < 4096 && shadow.wrapping_sub(shadow >> shift)
            < 4096) by (bit_vector)
            requires
                shadow < 2048,
        ;
        if new_freq > 2047 {
            self.enabled = false;
        }
        new_freq
    }

    pub open spec fn spec_clock_sweep(self) -> PulseChannel {
        if !self.has_sweep || !self.sweep_enabled {
            self
        } else {
            let t: u8 = if self.sweep_timer > 0 {
                (self.sweep_timer - 1) as u8
            } else {
                0
            };
            if t != 0 {
                PulseChannel { sweep_timer: t, ..self }
            } else {
                let c1 = PulseChannel { sweep_timer: spec_reload8(self.sweep_period), ..self };
                if self.sweep_period == 0 {
                    c1
                } else {
                    let nf = c1.spec_sweep_target();
                    let c2 = c1.spec_sweep_check();
                    if nf <= 2047 && self.sweep_shift != 0 {
                        PulseChannel { sweep_shadow_freq: nf, frequency: nf, ..c2 }.spec_sweep_check()
                    } else {
                        c2
                    }
                }
            }
        }
    }

    /// One sweep clock from the frame sequencer.
    pub fn clock_sweep(&mut self)
        requires
            old(self).wf(),
        ensures
            *final(self) == old(self).spec_clock_sweep(),
            final(self).wf(),
    {
        if !self.has_sweep || !self.sweep_enabled {
            return;
        }
        if self.sweep_timer > 0 {
            self.sweep_timer -= 1;
        }
        if self.sweep_timer != 0 {
            return;
        }
        self.sweep_timer = if self.sweep_period == 0 {
            8
        } else {
            self.sweep_period
        };
        if self.sweep_period == 0 {
            return;
        }
        let new_freq = self.compute_sweep_frequency();
        if new_freq <= 2047 && self.sweep_shift != 0 {
            self.sweep_shadow_freq = new_freq;
            self.frequency = new_freq;
            self.compute_sweep_frequency();
        }
    }

    pub open spec fn spec_clock_length(self) -> PulseChannel {
        if self.length_enable && self.length_counter > 0 {
            let n = (self.length_counter - 1) as u16;
            PulseChannel {
                length_counter: n,
                enabled: if n == 0 {
                    false
                } else {
                    self.enabled
                },
                ..self
            }
        } else {
            self
        }
    }

    /// One length clock: an enabled length counter counts down and silences
    /// the channel when it reaches 0.
    pub fn clock_length(&mut self)
        requires
            old(self).wf(),
        ensures
            *final(self) == old(self).spec_clock_length(),
            final(self).wf(),
    {
        if self.length_enable && self.length_counter > 0 {
            self.length_counter -= 1;
            if self.length_counter == 0 {
                self.enabled = false;
            }
        }
    }

    pub open spec fn spec_clock_envelope(self) -> PulseChannel {
        if self.envelope_period == 0 {
            self
        } else {
            let t: u8 = if self.envelope_timer > 0 {
                (self.envelope_timer - 1) as u8
            } else {
                0
            };
            if t == 0 {
                PulseChannel {
                    envelope_timer: self.envelope_period,
                    volume: if self.envelope_increasing && self.volume < 15 {
                        (self.volume + 1) as u8
                    } else if !self.envelope_increasing && self.volume > 0 {
                        (self.volume - 1) as u8
                    } else {
                        self.volume
                    },
                    ..self
                }
            } else {
                PulseChannel { envelope_timer: t, ..self }
            }
        }
    }

    /// One envelope clock: every `envelope_period` clocks the volume moves
    /// one step up or down, staying within 0-15.
    pub fn clock_envelope(&mut self)
        requires
            old(self).wf(),
        ensures
            *final(self) == old(self).spec_clock_envelope(),
            final(self).wf(),
    {
        if self.envelope_period == 0 {
            return;
        }
        if self.envelope_timer > 0 {
            self.envelope_timer -= 1;
        }
        if self.envelope_timer == 0 {
            self.envelope_timer = self.envelope_period;
            if self.envelope_increasing && self.volume < 15 {
                self.volume += 1;
            } else if !self.envelope_increasing && self.volume > 0 {
                self.volume -= 1;
            }
        }
    }

    /// The channel after `remaining` cycles: each time the frequency timer
    /// runs out the duty step advances and the timer reloads.
    pub open spec fn spec_tick(self, remaining: u32) -> PulseChannel
        decreases remaining,
    {
        if remaining == 0 || self.freq_timer == 0 {
            self
        } else if self.freq_timer <= remaining {
            PulseChannel {
                duty_step: ((self.duty_step + 1) % 8) as u8,
                freq_timer: if self.spec_period() == 0 {
                    1
                } else {
                    self.spec_period()
                },
                ..self
            }.spec_tick((remaining - self.freq_timer) as u32)
        } else {
            PulseChannel { freq_timer: (self.freq_timer - remaining) as u32, ..self }
        }
    }

    pub fn tick(&mut self, cycles: u32)
        requires
            old(self).wf(),
        ensures
            *final(self) == old(self).spec_tick(cycles),
            final(self).wf(),
    {
        let mut remaining = cycles;
        while remaining > 0
            invariant
                self.wf(),
                self.spec_tick(remaining) == old(self).spec_tick(cycles),
            decreases remaining,
        {
            if self.freq_timer <= remaining {
                remaining -= self.freq_timer;
                self.duty_step = (self.duty_step + 1) % 8;
                let p = self.period();
                self.freq_timer = if p == 0 {
                    1
                } else {
                    p
                };
            } else {
                self.freq_timer -= remaining;
                remaining = 0;
            }
        }
    }

    pub open spec fn spec_amplitude(self) -> u8 {
        if !self.enabled || !spec_duty_high(self.duty, self.duty_step) {
            0
        } else {
            self.volume
        }
    }

    /// The instantaneous 0-15 amplitude: 0 while silent or on a low duty
    /// step.
    pub fn amplitude(&self) -> (a: u8)
        requires
            self.wf(),
        ensures
            a == self.spec_amplitude(),
            a < 16,
    {
        if !self.enabled || !duty_high(self.duty, self.duty_step) {
            0
        } else {
            self.volume
        }
    }
}

} // verus!
