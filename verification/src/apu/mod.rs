//! The GBA APU: the 4 legacy PSG channels (pulse with sweep, pulse, wave,
//! noise) and the 2 Direct Sound FIFO channels, mixed into one stereo
//! sample on demand. There is no output sample rate or buffering here: the
//! host asks for the instantaneous sample whenever it wants one. The FIFOs
//! are fed by writes to FIFO_A/FIFO_B.
use vstd::prelude::*;
use crate::apu::dma_sound::{DmaSoundChannel, DmaSoundView};
use crate::apu::noise::NoiseChannel;
use crate::apu::pulse::{PulseChannel, spec_bit};
use crate::apu::wave::{WaveChannel, WaveView, spec_wave_new};

pub mod dma_sound;
pub mod noise;
pub mod pulse;
pub mod wave;

verus! {

broadcast use crate::bits::group_bits;

/// The I/O block this module owns: SOUND1CNT_L..FIFO_B.
pub const IO_BASE: usize = 0x60;

pub const IO_SIZE: usize = 0x48;

/// The frame sequencer clocks length, envelope and sweep at 512 Hz of the
/// CPU clock.
pub const FRAME_SEQUENCER_PERIOD: u32 = crate::emulator::CPU_CLOCK_HZ / 512;

#[verifier::ext_equal]
pub struct ApuView {
    pub pulse1: PulseChannel,
    pub pulse2: PulseChannel,
    pub wave: WaveView,
    pub noise: NoiseChannel,
    pub dma_a: DmaSoundView,
    pub dma_b: DmaSoundView,
    pub soundcnt_l: u16,
    pub soundcnt_h: u16,
    pub master_enable: bool,
    pub soundbias: u16,
    pub frame_sequencer_timer: u32,
    pub frame_sequencer_step: u8,
}

/// Rust's `/` on a non-negative divisor: the quotient rounds toward zero.
pub open spec fn trunc_div(x: int, d: int) -> int {
    if x >= 0 {
        x / d
    } else {
        -((-x) / d)
    }
}

/// A 0-15 amplitude as a signed DAC level centered on zero; a channel that
/// is not playing contributes silence.
pub open spec fn spec_dac(amplitude: u8, active: bool) -> int {
    if active {
        amplitude * 2 - 15
    } else {
        0
    }
}

pub open spec fn spec_clamp_i16(x: int) -> i16 {
    if x < -32768 {
        -32768i16
    } else if x > 32767 {
        32767i16
    } else {
        x as i16
    }
}

impl ApuView {
    /// Every channel is well formed and the sequencer step is in range.
    pub open spec fn channels_wf(self) -> bool {
        &&& self.pulse1.wf()
        &&& self.pulse2.wf()
        &&& self.wave.wf()
        &&& self.noise.wf()
        &&& self.dma_a.wf()
        &&& self.dma_b.wf()
        &&& self.frame_sequencer_step < 8
    }

    pub open spec fn wf(self) -> bool {
        &&& self.channels_wf()
        &&& self.frame_sequencer_timer < FRAME_SEQUENCER_PERIOD
    }

    pub open spec fn spec_channel_status(self) -> u8 {
        spec_bit(self.pulse1.enabled, 0) | spec_bit(self.pulse2.enabled, 1) | spec_bit(
            self.wave.enabled,
            2,
        ) | spec_bit(self.noise.enabled, 3) | spec_bit(self.master_enable, 7)
    }

    /// The byte a read at `offset` within the sound block returns; write-only
    /// and unused registers read as 0.
    pub open spec fn spec_read(self, offset: usize) -> u8 {
        if offset == 0x00 {
            self.pulse1.spec_read_sweep()
        } else if offset == 0x02 {
            (self.pulse1.duty << 6u8) as u8
        } else if offset == 0x03 {
            self.pulse1.spec_read_length_envelope_hi()
        } else if offset == 0x05 {
            spec_bit(self.pulse1.length_enable, 6)
        } else if offset == 0x08 {
            (self.pulse2.duty << 6u8) as u8
        } else if offset == 0x09 {
            self.pulse2.spec_read_length_envelope_hi()
        } else if offset == 0x0D {
            spec_bit(self.pulse2.length_enable, 6)
        } else if offset == 0x10 {
            self.wave.spec_read_control_l()
        } else if offset == 0x13 {
            self.wave.spec_read_control_h_hi()
        } else if offset == 0x15 {
            spec_bit(self.wave.length_enable, 6)
        } else if offset == 0x19 {
            self.noise.spec_read_length_envelope_hi()
        } else if offset == 0x1C {
            self.noise.spec_read_control_lo()
        } else if offset == 0x1D {
            spec_bit(self.noise.length_enable, 6)
        } else if offset == 0x20 {
            (self.soundcnt_l & 0xFF) as u8
        } else if offset == 0x21 {
            (self.soundcnt_l >> 8u16) as u8
        } else if offset == 0x22 {
            (self.soundcnt_h & 0xFF) as u8
        } else if offset == 0x23 {
            (self.soundcnt_h >> 8u16) as u8
        } else if offset == 0x24 {
            self.spec_channel_status()
        } else if offset == 0x28 {
            (self.soundbias & 0xFF) as u8
        } else if offset == 0x29 {
            (self.soundbias >> 8u16) as u8
        } else if 0x30 <= offset <= 0x3F {
            self.wave.spec_read_wave_ram((offset - 0x30) as usize)
        } else {
            0
        }
    }

    /// The APU after a byte write at `offset` within the sound block.
    pub open spec fn spec_write(self, offset: usize, value: u8) -> ApuView {
        let v16 = value as u16;
        if offset == 0x00 {
            ApuView { pulse1: self.pulse1.spec_write_sweep(value), ..self }
        } else if offset == 0x02 {
            ApuView { pulse1: self.pulse1.spec_write_length_envelope_lo(value), ..self }
        } else if offset == 0x03 {
            ApuView { pulse1: self.pulse1.spec_write_length_envelope_hi(value), ..self }
        } else if offset == 0x04 {
            ApuView { pulse1: self.pulse1.spec_write_freq_lo(value), ..self }
        } else if offset == 0x05 {
            ApuView { pulse1: self.pulse1.spec_write_freq_hi(value), ..self }
        } else if offset == 0x08 {
            ApuView { pulse2: self.pulse2.spec_write_length_envelope_lo(value), ..self }
        } else if offset == 0x09 {
            ApuView { pulse2: self.pulse2.spec_write_length_envelope_hi(value), ..self }
        } else if offset == 0x0C {
            ApuView { pulse2: self.pulse2.spec_write_freq_lo(value), ..self }
        } else if offset == 0x0D {
            ApuView { pulse2: self.pulse2.spec_write_freq_hi(value), ..self }
        } else if offset == 0x10 {
            ApuView { wave: self.wave.spec_write_control_l(value), ..self }
        } else if offset == 0x12 {
            ApuView { wave: WaveView { length_data: v16, ..self.wave }, ..self }
        } else if offset == 0x13 {
            ApuView { wave: self.wave.spec_write_control_h_hi(value), ..self }
        } else if offset == 0x14 {
            ApuView { wave: self.wave.spec_write_control_x_lo(value), ..self }
        } else if offset == 0x15 {
            ApuView { wave: self.wave.spec_write_control_x_hi(value), ..self }
        } else if offset == 0x18 {
            ApuView { noise: self.noise.spec_write_length_envelope_lo(value), ..self }
        } else if offset == 0x19 {
            ApuView { noise: self.noise.spec_write_length_envelope_hi(value), ..self }
        } else if offset == 0x1C {
            ApuView { noise: self.noise.spec_write_control_lo(value), ..self }
        } else if offset == 0x1D {
            ApuView { noise: self.noise.spec_write_control_hi(value), ..self }
        } else if offset == 0x20 {
            ApuView { soundcnt_l: (self.soundcnt_l & 0xFF00) | v16, ..self }
        } else if offset == 0x21 {
            ApuView { soundcnt_l: (self.soundcnt_l & 0x00FF) | ((v16 << 8u16) as u16), ..self }
        } else if offset == 0x22 {
            ApuView { soundcnt_h: (self.soundcnt_h & 0xFF00) | v16, ..self }
        } else if offset == 0x23 {
            ApuView {
                soundcnt_h: (self.soundcnt_h & 0x00FF) | ((v16 << 8u16) as u16),
                dma_a: if value & 0x08 != 0 {
                    self.dma_a.spec_reset()
                } else {
                    self.dma_a
                },
                dma_b: if value & 0x80 != 0 {
                    self.dma_b.spec_reset()
                } else {
                    self.dma_b
                },
                ..self
            }
        } else if offset == 0x24 {
            ApuView { master_enable: value & 0x80 != 0, ..self }
        } else if offset == 0x28 {
            ApuView { soundbias: (self.soundbias & 0xFF00) | v16, ..self }
        } else if offset == 0x29 {
            ApuView { soundbias: (self.soundbias & 0x00FF) | ((v16 << 8u16) as u16), ..self }
        } else if 0x30 <= offset <= 0x3F {
            ApuView { wave: self.wave.spec_write_wave_ram((offset - 0x30) as usize, value), ..self }
        } else if 0x40 <= offset <= 0x43 {
            ApuView { dma_a: self.dma_a.spec_push(value), ..self }
        } else if 0x44 <= offset <= 0x47 {
            ApuView { dma_b: self.dma_b.spec_push(value), ..self }
        } else {
            self
        }
    }

    pub open spec fn spec_clock_length(self) -> ApuView {
        ApuView {
            pulse1: self.pulse1.spec_clock_length(),
            pulse2: self.pulse2.spec_clock_length(),
            wave: self.wave.spec_clock_length(),
            noise: self.noise.spec_clock_length(),
            ..self
        }
    }

    /// One frame-sequencer step: steps 0 and 4 clock length, steps 2 and 6
    /// clock length and the sweep, step 7 clocks the envelopes.
    pub open spec fn spec_clock_frame_sequencer(self) -> ApuView {
        let s = self.frame_sequencer_step;
        let next = ((s + 1) % 8) as u8;
        if s == 0 || s == 4 {
            ApuView { frame_sequencer_step: next, ..self.spec_clock_length() }
        } else if s == 2 || s == 6 {
            let c = self.spec_clock_length();
            ApuView { pulse1: c.pulse1.spec_clock_sweep(), frame_sequencer_step: next, ..c }
        } else if s == 7 {
            ApuView {
                pulse1: self.pulse1.spec_clock_envelope(),
                pulse2: self.pulse2.spec_clock_envelope(),
                noise: self.noise.spec_clock_envelope(),
                frame_sequencer_step: next,
                ..self
            }
        } else {
            ApuView { frame_sequencer_step: next, ..self }
        }
    }

    /// Runs one frame-sequencer step per whole period accumulated in the
    /// timer.
    pub open spec fn spec_run_frame_sequencer(self) -> ApuView
        decreases self.frame_sequencer_timer,
    {
        if self.frame_sequencer_timer >= FRAME_SEQUENCER_PERIOD {
            ApuView {
                frame_sequencer_timer: (self.frame_sequencer_timer - FRAME_SEQUENCER_PERIOD) as u32,
                ..self
            }.spec_clock_frame_sequencer().spec_run_frame_sequencer()
        } else {
            self
        }
    }

    /// The timer (0 or 1) a Direct Sound channel is driven by, from its
    /// SOUNDCNT_H select bit.
    pub closed spec fn spec_tick(self, cycles: u32, timer_overflowed: Seq<bool>) -> ApuView {
        if !self.master_enable {
            self
        } else {
            let c = ApuView {
                pulse1: self.pulse1.spec_tick(cycles),
                pulse2: self.pulse2.spec_tick(cycles),
                wave: self.wave.spec_tick(cycles),
                noise: self.noise.spec_tick(cycles),
                frame_sequencer_timer: (self.frame_sequencer_timer + cycles) as u32,
                ..self
            }.spec_run_frame_sequencer();
            let a_timer: int = if self.soundcnt_h & 0x0400 != 0 {
                1
            } else {
                0
            };
            let b_timer: int = if self.soundcnt_h & 0x4000 != 0 {
                1
            } else {
                0
            };
            ApuView {
                dma_a: if timer_overflowed[a_timer] {
                    c.dma_a.spec_pop()
                } else {
                    c.dma_a
                },
                dma_b: if timer_overflowed[b_timer] {
                    c.dma_b.spec_pop()
                } else {
                    c.dma_b
                },
                ..c
            }
        }
    }

    /// One side's PSG mix: the DAC levels of the channels whose enable bit
    /// (`base << ch` in SOUNDCNT_L) is set.
    pub open spec fn spec_psg_sum(self, base: u16) -> int {
        (if self.soundcnt_l & base != 0 {
            spec_dac(self.pulse1.spec_amplitude(), self.pulse1.enabled)
        } else {
            0
        }) + (if self.soundcnt_l & ((base << 1u16) as u16) != 0 {
            spec_dac(self.pulse2.spec_amplitude(), self.pulse2.enabled)
        } else {
            0
        }) + (if self.soundcnt_l & ((base << 2u16) as u16) != 0 {
            spec_dac(self.wave.spec_amplitude(), self.wave.enabled)
        } else {
            0
        }) + (if self.soundcnt_l & ((base << 3u16) as u16) != 0 {
            spec_dac(self.noise.spec_amplitude(), self.noise.enabled)
        } else {
            0
        })
    }

    /// The PSG output ratio's divisor (SOUNDCNT_H bits 0-1): 25%, 50%,
    /// 100%, and the forbidden code 3 as 100%.
    pub open spec fn spec_psg_ratio_den(self) -> int {
        let r = self.soundcnt_h & 3;
        if r == 0 {
            4
        } else if r == 1 {
            2
        } else {
            1
        }
    }

    /// One side's full mix: PSG scaled by master volume (1-8 of 8) and the
    /// PSG ratio, plus the enabled Direct Sound channels at 50% or 100%,
    /// clamped to 16 bits.
    pub open spec fn spec_side(self, psg_base: u16, vol: int, a_bit: u16, b_bit: u16) -> i16 {
        let psg = trunc_div(
            trunc_div(self.spec_psg_sum(psg_base) * vol, 8),
            self.spec_psg_ratio_den(),
        );
        let a = self.dma_a.current_sample * (if self.soundcnt_h & 0x04 != 0 {
            2int
        } else {
            1int
        });
        let b = self.dma_b.current_sample * (if self.soundcnt_h & 0x08 != 0 {
            2int
        } else {
            1int
        });
        spec_clamp_i16(
            psg + (if self.soundcnt_h & a_bit != 0 {
                a
            } else {
                0
            }) + (if self.soundcnt_h & b_bit != 0 {
                b
            } else {
                0
            }),
        )
    }

    /// The mixed (right, left) sample; silence while the master enable is
    /// off.
    pub open spec fn spec_sample(self) -> (i16, i16) {
        if !self.master_enable {
            (0, 0)
        } else {
            (
                self.spec_side(0x0100, (self.soundcnt_l & 7) + 1, 0x0100, 0x1000),
                self.spec_side(0x1000, ((self.soundcnt_l >> 4u16) & 7) + 1, 0x0200, 0x2000),
            )
        }
    }
}

#[derive(Debug)]
pub struct Apu {
    pub pulse1: PulseChannel,
    pub pulse2: PulseChannel,
    pub wave: WaveChannel,
    pub noise: NoiseChannel,
    pub dma_a: DmaSoundChannel,
    pub dma_b: DmaSoundChannel,
    pub soundcnt_l: u16,
    pub soundcnt_h: u16,
    pub master_enable: bool,
    pub soundbias: u16,
    pub frame_sequencer_timer: u32,
    pub frame_sequencer_step: u8,
}

impl View for Apu {
    type V = ApuView;

    open spec fn view(&self) -> ApuView {
        ApuView {
            pulse1: self.pulse1,
            pulse2: self.pulse2,
            wave: self.wave@,
            noise: self.noise,
            dma_a: self.dma_a@,
            dma_b: self.dma_b@,
            soundcnt_l: self.soundcnt_l,
            soundcnt_h: self.soundcnt_h,
            master_enable: self.master_enable,
            soundbias: self.soundbias,
            frame_sequencer_timer: self.frame_sequencer_timer,
            frame_sequencer_step: self.frame_sequencer_step,
        }
    }
}

pub open spec fn spec_apu_new() -> ApuView {
    ApuView {
        pulse1: PulseChannel::spec_new(true),
        pulse2: PulseChannel::spec_new(false),
        wave: spec_wave_new(),
        noise: NoiseChannel::spec_new(),
        dma_a: DmaSoundView { fifo: Seq::empty(), current_sample: 0 },
        dma_b: DmaSoundView { fifo: Seq::empty(), current_sample: 0 },
        soundcnt_l: 0,
        soundcnt_h: 0,
        master_enable: false,
        soundbias: 0,
        frame_sequencer_timer: 0,
        frame_sequencer_step: 0,
    }
}

/// The DAC level of a 0-15 amplitude.
fn dac_contribution(amplitude: u8, active: bool) -> (d: i32)
    requires
        amplitude < 16,
    ensures
        d == spec_dac(amplitude, active),
        -15 <= d <= 15,
{
    if active {
        amplitude as i32 * 2 - 15
    } else {
        0
    }
}

/// Division rounding toward zero, as Rust's `/` on `i32`.
fn div_toward_zero(x: i32, d: i32) -> (q: i32)
    requires
        d > 0,
        -1_000_000 <= x <= 1_000_000,
    ensures
        q == trunc_div(x as int, d as int),
        -1_000_000 <= q <= 1_000_000,
{
    if x >= 0 {
        x / d
    } else {
        let n: i32 = -x;
        -(n / d)
    }
}

fn clamp_i16(x: i32) -> (r: i16)
    ensures
        r == spec_clamp_i16(x as int),
{
    if x < -32768 {
        -32768
    } else if x > 32767 {
        32767
    } else {
        x as i16
    }
}

impl Apu {
    pub fn new() -> (a: Self)
        ensures
            a@ == spec_apu_new(),
            a@.wf(),
    {
        Apu {
            pulse1: PulseChannel::new(true),
            pulse2: PulseChannel::new(false),
            wave: WaveChannel::new(),
            noise: NoiseChannel::new(),
            dma_a: DmaSoundChannel::new(),
            dma_b: DmaSoundChannel::new(),
            soundcnt_l: 0,
            soundcnt_h: 0,
            master_enable: false,
            soundbias: 0,
            frame_sequencer_timer: 0,
            frame_sequencer_step: 0,
        }
    }

    pub fn read_register(&self, offset: usize) -> (b: u8)
        requires
            self@.wf(),
        ensures
            b == self@.spec_read(offset),
    {
        if offset == 0x00 {
            self.pulse1.read_sweep()
        } else if offset == 0x02 {
            self.pulse1.read_length_envelope_lo()
        } else if offset == 0x03 {
            self.pulse1.read_length_envelope_hi()
        } else if offset == 0x05 {
            self.pulse1.read_freq_hi()
        } else if offset == 0x08 {
            self.pulse2.read_length_envelope_lo()
        } else if offset == 0x09 {
            self.pulse2.read_length_envelope_hi()
        } else if offset == 0x0D {
            self.pulse2.read_freq_hi()
        } else if offset == 0x10 {
            self.wave.read_control_l()
        } else if offset == 0x13 {
            self.wave.read_control_h_hi()
        } else if offset == 0x15 {
            self.wave.read_control_x_hi()
        } else if offset == 0x19 {
            self.noise.read_length_envelope_hi()
        } else if offset == 0x1C {
            self.noise.read_control_lo()
        } else if offset == 0x1D {
            self.noise.read_control_hi()
        } else if offset == 0x20 {
            (self.soundcnt_l & 0xFF) as u8
        } else if offset == 0x21 {
            (self.soundcnt_l >> 8u16) as u8
        } else if offset == 0x22 {
            (self.soundcnt_h & 0xFF) as u8
        } else if offset == 0x23 {
            (self.soundcnt_h >> 8u16) as u8
        } else if offset == 0x24 {
            self.channel_status()
        } else if offset == 0x28 {
            (self.soundbias & 0xFF) as u8
        } else if offset == 0x29 {
            (self.soundbias >> 8u16) as u8
        } else if 0x30 <= offset && offset <= 0x3F {
            self.wave.read_wave_ram(offset - 0x30)
        } else {
            0
        }
    }

    #[verifier::rlimit(40)]
    pub fn write_register(&mut self, offset: usize, value: u8)
        requires
            old(self)@.wf(),
        ensures
            final(self)@ == old(self)@.spec_write(offset, value),
            final(self)@.wf(),
    {
        let v16: u16 = value as u16;
        if offset == 0x00 {
            self.pulse1.write_sweep(value);
        } else if offset == 0x02 {
            self.pulse1.write_length_envelope_lo(value);
        } else if offset == 0x03 {
            self.pulse1.write_length_envelope_hi(value);
        } else if offset == 0x04 {
            self.pulse1.write_freq_lo(value);
        } else if offset == 0x05 {
            self.pulse1.write_freq_hi(value);
        } else if offset == 0x08 {
            self.pulse2.write_length_envelope_lo(value);
        } else if offset == 0x09 {
            self.pulse2.write_length_envelope_hi(value);
        } else if offset == 0x0C {
            self.pulse2.write_freq_lo(value);
        } else if offset == 0x0D {
            self.pulse2.write_freq_hi(value);
        } else if offset == 0x10 {
            self.wave.write_control_l(value);
        } else if offset == 0x12 {
            self.wave.write_control_h_lo(value);
        } else if offset == 0x13 {
            self.wave.write_control_h_hi(value);
        } else if offset == 0x14 {
            self.wave.write_control_x_lo(value);
        } else if offset == 0x15 {
            self.wave.write_control_x_hi(value);
        } else if offset == 0x18 {
            self.noise.write_length_envelope_lo(value);
        } else if offset == 0x19 {
            self.noise.write_length_envelope_hi(value);
        } else if offset == 0x1C {
            self.noise.write_control_lo(value);
        } else if offset == 0x1D {
            self.noise.write_control_hi(value);
        } else if offset == 0x20 {
            self.soundcnt_l = (self.soundcnt_l & 0xFF00) | v16;
        } else if offset == 0x21 {
            self.soundcnt_l = (self.soundcnt_l & 0x00FF) | (v16 << 8u16);
        } else if offset == 0x22 {
            self.soundcnt_h = (self.soundcnt_h & 0xFF00) | v16;
        } else if offset == 0x23 {
            self.soundcnt_h = (self.soundcnt_h & 0x00FF) | (v16 << 8u16);
            if value & 0x08 != 0 {
                self.dma_a.reset();
            }
            if value & 0x80 != 0 {
                self.dma_b.reset();
            }
        } else if offset == 0x24 {
            self.master_enable = value & 0x80 != 0;
        } else if offset == 0x28 {
            self.soundbias = (self.soundbias & 0xFF00) | v16;
        } else if offset == 0x29 {
            self.soundbias = (self.soundbias & 0x00FF) | (v16 << 8u16);
        } else if 0x30 <= offset && offset <= 0x3F {
            self.wave.write_wave_ram(offset - 0x30, value);
        } else if 0x40 <= offset && offset <= 0x43 {
            self.dma_a.push(value);
        } else if 0x44 <= offset && offset <= 0x47 {
            self.dma_b.push(value);
        }
        assert(self@ =~= old(self)@.spec_write(offset, value));
    }

    fn channel_status(&self) -> (b: u8)
        ensures
            b == self@.spec_channel_status(),
    {
        let p1: u8 = if self.pulse1.enabled() {
            1
        } else {
            0
        };
        let p2: u8 = if self.pulse2.enabled() {
            2
        } else {
            0
        };
        let w: u8 = if self.wave.enabled() {
            4
        } else {
            0
        };
        let n: u8 = if self.noise.enabled() {
            8
        } else {
            0
        };
        let m: u8 = if self.master_enable {
            0x80
        } else {
            0
        };
        assert(1u8 << 0u8 == 1 && 1u8 << 1u8 == 2 && 1u8 << 2u8 == 4 && 1u8 << 3u8 == 8 && 1u8
            << 7u8 == 0x80) by (bit_vector);
        p1 | p2 | w | n | m
    }

    fn clock_length(&mut self)
        requires
            old(self)@.channels_wf(),
        ensures
            final(self)@ == old(self)@.spec_clock_length(),
            final(self)@.channels_wf(),
    {
        self.pulse1.clock_length();
        self.pulse2.clock_length();
        self.wave.clock_length();
        self.noise.clock_length();
        assert(self@ =~= old(self)@.spec_clock_length());
    }

    fn clock_frame_sequencer(&mut self)
        requires
            old(self)@.channels_wf(),
        ensures
            final(self)@ == old(self)@.spec_clock_frame_sequencer(),
            final(self)@.channels_wf(),
    {
        let s: u8 = self.frame_sequencer_step;
        if s == 0 || s == 4 {
            self.clock_length();
        } else if s == 2 || s == 6 {
            self.clock_length();
            self.pulse1.clock_sweep();
        } else if s == 7 {
            self.pulse1.clock_envelope();
            self.pulse2.clock_envelope();
            self.noise.clock_envelope();
        }
        self.frame_sequencer_step = (s + 1) % 8;
        assert(self@ =~= old(self)@.spec_clock_frame_sequencer());
    }

    /// Advances every channel and the frame sequencer by `cycles`, and pops
    /// a Direct Sound sample for A and B when the timer each is routed to
    /// (SOUNDCNT_H bits 10 and 14) overflowed this step.
    pub fn tick(&mut self, cycles: u32, timer_overflowed: [bool; 4])
        requires
            old(self)@.wf(),
            cycles <= u32::MAX - FRAME_SEQUENCER_PERIOD,
        ensures
            final(self)@ == old(self)@.spec_tick(cycles, timer_overflowed@),
            final(self)@.wf(),
    {
        if !self.master_enable {
            return;
        }
        self.pulse1.tick(cycles);
        self.pulse2.tick(cycles);
        self.wave.tick(cycles);
        self.noise.tick(cycles);
        self.frame_sequencer_timer = self.frame_sequencer_timer + cycles;
        let ghost start = self@;
        while self.frame_sequencer_timer >= FRAME_SEQUENCER_PERIOD
            invariant
                self@.channels_wf(),
                self@.spec_run_frame_sequencer() == start.spec_run_frame_sequencer(),
                self@.dma_a == old(self)@.dma_a,
                self@.dma_b == old(self)@.dma_b,
                self.soundcnt_h == old(self).soundcnt_h,
            decreases self.frame_sequencer_timer,
        {
            self.frame_sequencer_timer = self.frame_sequencer_timer - FRAME_SEQUENCER_PERIOD;
            self.clock_frame_sequencer();
        }
        let a_timer: usize = if self.soundcnt_h & 0x0400 != 0 {
            1
        } else {
            0
        };
        let b_timer: usize = if self.soundcnt_h & 0x4000 != 0 {
            1
        } else {
            0
        };
        if timer_overflowed[a_timer] {
            self.dma_a.pop();
        }
        if timer_overflowed[b_timer] {
            self.dma_b.pop();
        }
        assert(self@ =~= old(self)@.spec_tick(cycles, timer_overflowed@));
    }

    /// The enabled channels' DAC levels summed for one side.
    fn psg_sum(&self, base: u16) -> (s: i32)
        requires
            self@.wf(),
            base == 0x0100 || base == 0x1000,
        ensures
            s == self@.spec_psg_sum(base),
            -60 <= s <= 60,
    {
        let d1 = dac_contribution(self.pulse1.amplitude(), self.pulse1.enabled());
        let d2 = dac_contribution(self.pulse2.amplitude(), self.pulse2.enabled());
        let d3 = dac_contribution(self.wave.amplitude(), self.wave.enabled());
        let d4 = dac_contribution(self.noise.amplitude(), self.noise.enabled());
        let m1: u16 = base;
        let m2: u16 = base << 1u16;
        let m3: u16 = base << 2u16;
        let m4: u16 = base << 3u16;
        let cnt: u16 = self.soundcnt_l;
        let s1: i32 = if cnt & m1 != 0 {
            d1
        } else {
            0
        };
        let s2: i32 = if cnt & m2 != 0 {
            d2
        } else {
            0
        };
        let s3: i32 = if cnt & m3 != 0 {
            d3
        } else {
            0
        };
        let s4: i32 = if cnt & m4 != 0 {
            d4
        } else {
            0
        };
        s1 + s2 + s3 + s4
    }

    fn side(&self, psg_base: u16, vol: i32, a_bit: u16, b_bit: u16) -> (r: i16)
        requires
            self@.wf(),
            psg_base == 0x0100 || psg_base == 0x1000,
            1 <= vol <= 8,
        ensures
            r == self@.spec_side(psg_base, vol as int, a_bit, b_bit),
    {
        let den: i32 = if self.soundcnt_h & 0x3 == 0 {
            4
        } else if self.soundcnt_h & 0x3 == 1 {
            2
        } else {
            1
        };
        let sum: i32 = self.psg_sum(psg_base);
        assert(-480 <= sum * vol <= 480) by (nonlinear_arith)
            requires
                -60 <= sum <= 60,
                1 <= vol <= 8,
        ;
        let psg = div_toward_zero(div_toward_zero(sum * vol, 8), den);
        let a_scale: i32 = if self.soundcnt_h & 0x04 != 0 {
            2
        } else {
            1
        };
        let b_scale: i32 = if self.soundcnt_h & 0x08 != 0 {
            2
        } else {
            1
        };
        let a: i32 = self.dma_a.sample() as i32 * a_scale;
        let b: i32 = self.dma_b.sample() as i32 * b_scale;
        let mut total: i32 = psg;
        if self.soundcnt_h & a_bit != 0 {
            total = total + a;
        }
        if self.soundcnt_h & b_bit != 0 {
            total = total + b;
        }
        clamp_i16(total)
    }

    /// The current mixed stereo sample (right, left), computed from live
    /// channel state.
    pub fn sample(&self) -> (s: (i16, i16))
        requires
            self@.wf(),
        ensures
            s == self@.spec_sample(),
    {
        if !self.master_enable {
            return (0, 0);
        }
        let vol_right: i32 = (self.soundcnt_l & 0x7) as i32 + 1;
        let vol_left: i32 = ((self.soundcnt_l >> 4u16) & 0x7) as i32 + 1;
        let right = self.side(0x0100, vol_right, 0x0100, 0x1000);
        let left = self.side(0x1000, vol_left, 0x0200, 0x2000);
        (right, left)
    }
}

/// With the master enable off the APU outputs silence, whatever the
/// channels hold.
pub proof fn lemma_master_disable_silences(v: ApuView)
    requires
        !v.master_enable,
    ensures
        v.spec_sample() == (0i16, 0i16),
{
}

/// A byte written to Wave RAM through the sound block reads back through
/// it.
pub proof fn lemma_wave_ram_round_trip(v: ApuView, offset: usize, value: u8)
    requires
        v.wf(),
        0x30 <= offset <= 0x3F,
    ensures
        v.spec_write(offset, value).spec_read(offset) == value,
{
}

impl Default for Apu {
    fn default() -> (a: Self)
        ensures
            a@ == spec_apu_new(),
    {
        Self::new()
    }
}

} // verus!
