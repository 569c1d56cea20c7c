//! The GBA's 4 hardware timers (TM0-TM3) at 0x04000100+4*n: TMxCNT_L (the
//! reload value on write, the live counter on read) and TMxCNT_H (prescaler
//! select, cascade mode, IRQ enable, start/stop). A timer's counter
//! increments every 1/64/256/1024 CPU cycles and reloads on overflow;
//! timers 1-3 can instead cascade, counting the previous timer's overflows.
use vstd::prelude::*;

verus! {

broadcast use crate::bits::group_bits;

pub const IO_BASE: usize = 0x100;

/// 4 timers * 4 bytes each.
pub const IO_SIZE: usize = 16;

/// Which timers overflowed with their IRQ enabled during a tick.
#[derive(Debug, Clone, Copy)]
pub struct TimerIrqEvents {
    overflowed: [bool; 4],
}

impl TimerIrqEvents {
    pub closed spec fn spec_overflowed(self) -> Seq<bool> {
        self.overflowed@
    }

    pub fn overflowed(&self, index: usize) -> (b: bool)
        requires
            index < 4,
        ensures
            b == self.spec_overflowed()[index as int],
    {
        self.overflowed[index]
    }
}

/// There is one overflow flag per timer.
pub broadcast proof fn lemma_overflowed_len(e: TimerIrqEvents)
    ensures
        #[trigger] e.spec_overflowed().len() == 4,
{
}

/// Cycles per counter increment for prescaler selection `sel` (0-3).
pub open spec fn prescaler_period(sel: u16) -> u32 {
    if sel == 0 {
        1
    } else if sel == 1 {
        64
    } else if sel == 2 {
        256
    } else {
        1024
    }
}

#[derive(Debug, Clone, Copy)]
pub struct TimerChannel {
    reload: u16,
    counter: u16,
    control: u16,
    subcycles: u32,
}

impl TimerChannel {
    pub closed spec fn spec_reload(self) -> u16 {
        self.reload
    }

    pub closed spec fn spec_counter(self) -> u16 {
        self.counter
    }

    pub closed spec fn spec_control(self) -> u16 {
        self.control
    }

    pub closed spec fn spec_subcycles(self) -> u32 {
        self.subcycles
    }

    /// Cycles accumulated toward the next increment stay below one period.
    pub open spec fn wf(self) -> bool {
        self.spec_subcycles() < 1024
    }

    pub open spec fn spec_enabled(self) -> bool {
        self.spec_control() & 0x80 != 0
    }

    pub open spec fn spec_cascade(self) -> bool {
        self.spec_control() & 0x04 != 0
    }

    pub open spec fn spec_irq_enable(self) -> bool {
        self.spec_control() & 0x40 != 0
    }

    pub open spec fn spec_period(self) -> u32 {
        prescaler_period(self.spec_control() & 3)
    }

    pub closed spec fn with_counter_sub(self, counter: u16, subcycles: u32) -> TimerChannel {
        TimerChannel { counter, subcycles, ..self }
    }

    /// One increment: the counter wraps to the reload value on overflow.
    pub open spec fn spec_increment(self) -> (TimerChannel, u32) {
        if self.spec_counter() == 0xFFFF {
            (self.with_counter_sub(self.spec_reload(), self.spec_subcycles()), 1)
        } else {
            (self.with_counter_sub((self.spec_counter() + 1) as u16, self.spec_subcycles()), 0)
        }
    }

    /// `k` increments, with how many of them overflowed.
    pub open spec fn spec_increments(self, k: nat) -> (TimerChannel, u32)
        decreases k,
    {
        if k == 0 {
            (self, 0)
        } else {
            let (c, n) = self.spec_increments((k - 1) as nat);
            let (d, m) = c.spec_increment();
            (d, (n + m) as u32)
        }
    }

    /// Advancing by `cycles` CPU cycles through the prescaler (no-op when
    /// disabled): one increment per full period accumulated. Whether a
    /// channel counts cycles or cascade pulses is its caller's choice:
    /// timer 0 always counts cycles, whatever its cascade bit says.
    pub open spec fn spec_tick_cycles(self, cycles: u32) -> (TimerChannel, u32) {
        if !self.spec_enabled() {
            (self, 0)
        } else {
            let total = self.spec_subcycles() + cycles;
            let period = self.spec_period();
            let (c, n) = self.spec_increments((total / period as int) as nat);
            (c.with_counter_sub(c.spec_counter(), (total % period as int) as u32), n)
        }
    }

    /// Advancing by `pulses` overflows of the previous timer (no-op unless
    /// enabled and cascading).
    pub open spec fn spec_tick_cascade(self, pulses: u32) -> (TimerChannel, u32) {
        if !self.spec_enabled() || !self.spec_cascade() {
            (self, 0)
        } else {
            self.spec_increments(pulses as nat)
        }
    }

    pub fn new() -> (ch: Self)
        ensures
            ch.wf(),
            ch.spec_reload() == 0 && ch.spec_counter() == 0 && ch.spec_control() == 0,
    {
        TimerChannel { reload: 0, counter: 0, control: 0, subcycles: 0 }
    }

    pub fn enabled(&self) -> (b: bool)
        ensures
            b == self.spec_enabled(),
    {
        self.control & 0x80 != 0
    }

    pub fn cascade(&self) -> (b: bool)
        ensures
            b == self.spec_cascade(),
    {
        self.control & 0x04 != 0
    }

    pub fn irq_enable(&self) -> (b: bool)
        ensures
            b == self.spec_irq_enable(),
    {
        self.control & 0x40 != 0
    }

    pub fn prescaler_cycles(&self) -> (p: u32)
        ensures
            p == self.spec_period(),
            1 <= p <= 1024,
    {
        let sel: u16 = self.control & 0x3;
        if sel == 0 {
            1
        } else if sel == 1 {
            64
        } else if sel == 2 {
            256
        } else {
            1024
        }
    }

    pub proof fn lemma_increments_bound(self, k: nat)
        ensures
            self.spec_increments(k).1 <= k,
            self.spec_increments(k).0.spec_subcycles() == self.spec_subcycles(),
            self.spec_increments(k).0.spec_reload() == self.spec_reload(),
            self.spec_increments(k).0.spec_control() == self.spec_control(),
        decreases k,
    {
        if k > 0 {
            self.lemma_increments_bound((k - 1) as nat);
        }
    }

    pub proof fn lemma_increments_step(self, k: nat)
        ensures
            self.spec_increments(k + 1) == ({
                let (c, n) = self.spec_increments(k);
                let (d, m) = c.spec_increment();
                (d, (n + m) as u32)
            }),
    {
    }

    /// Advances by direct CPU cycles through the prescaler; returns how
    /// many times the counter overflowed.
    pub fn tick_cycles(&mut self, cycles: u32) -> (n: u32)
        requires
            old(self).wf(),
            cycles <= u32::MAX - 1024,
        ensures
            final(self).wf(),
            (*final(self), n) == old(self).spec_tick_cycles(cycles),
    {
        if !self.enabled() {
            return 0;
        }
        let ghost start = *self;
        self.subcycles = self.subcycles + cycles;
        let period = self.prescaler_cycles();
        let ghost total: int = start.subcycles + cycles;
        let mut overflow_count: u32 = 0;
        let ghost mut k: nat = 0;
        while self.subcycles >= period
            invariant
                1 <= period <= 1024,
                period == start.spec_period(),
                self.subcycles as int == total - k * period,
                self.subcycles as int <= total,
                k <= total,
                total < u32::MAX,
                overflow_count <= k,
                (self.with_counter_sub(self.counter, start.subcycles), overflow_count)
                    == start.spec_increments(k),
            decreases self.subcycles,
        {
            proof {
                start.lemma_increments_step(k);
                start.lemma_increments_bound(k);
                assert(k + 1 <= total) by (nonlinear_arith)
                    requires
                        self.subcycles as int == total - k * period,
                        self.subcycles >= period,
                        period >= 1,
                        k >= 0,
                ;
            }
            self.subcycles = self.subcycles - period;
            let overflowed = self.step_counter();
            proof {
                start.lemma_increments_bound(k + 1);
                assert(overflow_count + overflowed <= k + 1) by {
                    start.lemma_increments_bound(k);
                    start.lemma_increments_bound(k + 1);
                }
            }
            overflow_count = overflow_count + overflowed;
            proof {
                k = k + 1;
            }
        }
        proof {
            assert(self.subcycles as int == total - k * period);
            assert(0 <= self.subcycles < period);
            assert(k == total / period as int) by (nonlinear_arith)
                requires
                    self.subcycles as int == total - k * period,
                    0 <= self.subcycles < period,
                    period > 0,
            ;
            assert(self.subcycles == total % period as int) by (nonlinear_arith)
                requires
                    self.subcycles as int == total - k * period,
                    0 <= self.subcycles < period,
                    period > 0,
            ;
        }
        overflow_count
    }

    /// Advances by `pulses` (the previous timer's overflow count this
    /// tick); returns how many times this counter overflowed.
    pub fn tick_cascade(&mut self, pulses: u32) -> (n: u32)
        requires
            old(self).wf(),
        ensures
            final(self).wf(),
            (*final(self), n) == old(self).spec_tick_cascade(pulses),
    {
        if !self.enabled() || !self.cascade() {
            return 0;
        }
        let ghost start = *self;
        let mut overflow_count: u32 = 0;
        let mut i: u32 = 0;
        while i < pulses
            invariant
                i <= pulses,
                overflow_count <= i,
                (*self, overflow_count) == start.spec_increments(i as nat),
                start.wf(),
            decreases pulses - i,
        {
            proof {
                start.lemma_increments_step(i as nat);
                start.lemma_increments_bound(i as nat);
                start.lemma_increments_bound(i as nat + 1);
            }
            let overflowed = self.step_counter();
            overflow_count = overflow_count + overflowed;
            i = i + 1;
        }
        proof {
            start.lemma_increments_bound(pulses as nat);
        }
        overflow_count
    }

    pub fn step_counter(&mut self) -> (n: u32)
        ensures
            (*final(self), n) == old(self).spec_increment(),
    {
        if self.counter == 0xFFFF {
            self.counter = self.reload;
            1
        } else {
            self.counter = self.counter + 1;
            0
        }
    }
}

/// The per-timer tick rule of [`Timers::tick`] for channel `i`, given the
/// previous channel's overflow count.
pub open spec fn spec_tick_one(ch: TimerChannel, i: int, cycles: u32, pulses: u32) -> (TimerChannel, u32) {
    if i == 0 {
        ch.spec_tick_cycles(cycles)
    } else if ch.spec_cascade() {
        ch.spec_tick_cascade(pulses)
    } else {
        ch.spec_tick_cycles(cycles)
    }
}

/// Channels 0..n after a tick of `cycles`: `(channels, overflow reports,
/// last channel's overflow count)`.
pub closed spec fn spec_tick_channels(chs: Seq<TimerChannel>, cycles: u32, n: int) -> (
    Seq<TimerChannel>,
    Seq<bool>,
    u32,
)
    decreases n,
{
    if n <= 0 {
        (chs, seq![false, false, false, false], 0)
    } else {
        let (c, ev, pulses) = spec_tick_channels(chs, cycles, n - 1);
        let (ch, count) = spec_tick_one(c[n - 1], n - 1, cycles, pulses);
        (c.update(n - 1, ch), if count > 0 && ch.spec_irq_enable() {
            ev.update(n - 1, true)
        } else {
            ev
        }, count)
    }
}

/// Channels at or past `n` are untouched by the first `n` steps of a tick,
/// and report no overflow yet.
proof fn lemma_tick_prefix(chs: Seq<TimerChannel>, cycles: u32, n: int)
    requires
        chs.len() == 4,
        0 <= n <= 4,
    ensures
        spec_tick_channels(chs, cycles, n).0.len() == 4,
        spec_tick_channels(chs, cycles, n).1.len() == 4,
        forall|j: int|
            n <= j < 4 ==> spec_tick_channels(chs, cycles, n).0[j] == chs[j]
                && !spec_tick_channels(chs, cycles, n).1[j],
    decreases n,
{
    if n > 0 {
        lemma_tick_prefix(chs, cycles, n - 1);
    }
}

/// Once channel `i` has been ticked, later steps leave it and its report
/// alone.
proof fn lemma_tick_stable(chs: Seq<TimerChannel>, cycles: u32, i: int, n: int)
    requires
        chs.len() == 4,
        0 <= i < n <= 4,
    ensures
        spec_tick_channels(chs, cycles, n).0[i] == spec_tick_channels(chs, cycles, i + 1).0[i],
        spec_tick_channels(chs, cycles, n).1[i] == spec_tick_channels(chs, cycles, i + 1).1[i],
    decreases n,
{
    lemma_tick_prefix(chs, cycles, n - 1);
    if n > i + 1 {
        lemma_tick_stable(chs, cycles, i, n - 1);
    }
}

/// What a tick does to one timer: channel 0 (whatever its cascade bit says)
/// and every channel that does
/// not cascade count CPU cycles through their prescaler, and report an
/// overflow exactly when they overflowed with their IRQ enabled; a
/// disabled channel keeps its state and reports nothing.
pub proof fn lemma_timer_tick(chs: Seq<TimerChannel>, cycles: u32, i: int)
    requires
        chs.len() == 4,
        0 <= i < 4,
    ensures
        ({
            let r = spec_tick_channels(chs, cycles, 4);
            let (ch, n) = chs[i].spec_tick_cycles(cycles);
            &&& r.0.len() == 4
            &&& (i == 0 || !chs[i].spec_cascade()) ==> r.0[i] == ch && r.1[i] == (n > 0
                && ch.spec_irq_enable())
            &&& !chs[i].spec_enabled() ==> r.0[i] == chs[i] && !r.1[i]
        }),
{
    lemma_tick_prefix(chs, cycles, 4);
    lemma_tick_prefix(chs, cycles, i);
    lemma_tick_stable(chs, cycles, i, 4);
}

impl TimerChannel {
    /// `k` increments from a counter with room for them: the counter
    /// advances by exactly `k` with no overflow.
    pub proof fn lemma_increments_count(self, k: nat)
        requires
            self.spec_counter() + k <= 0xFFFF,
        ensures
            self.spec_increments(k).0.spec_counter() == self.spec_counter() + k,
            self.spec_increments(k).1 == 0,
        decreases k,
    {
        if k > 0 {
            self.lemma_increments_count((k - 1) as nat);
        }
    }

    /// An enabled timer counting CPU cycles advances its counter by one per
    /// full prescaler period accumulated (`[1, 64, 256, 1024][control & 3]`
    /// cycles), keeps the remainder toward the next increment, and does
    /// not overflow while the counter has room.
    pub proof fn lemma_tick_cycles_counts(self, cycles: u32)
        requires
            self.spec_enabled(),
            self.spec_counter() + (self.spec_subcycles() + cycles) / (self.spec_period() as int)
                <= 0xFFFF,
        ensures
            ({
                let k = (self.spec_subcycles() + cycles) / (self.spec_period() as int);
                let (c, n) = self.spec_tick_cycles(cycles);
                &&& c.spec_counter() == self.spec_counter() + k
                &&& c.spec_subcycles() == (self.spec_subcycles() + cycles) % (self.spec_period() as int)
                &&& c.spec_reload() == self.spec_reload()
                &&& c.spec_control() == self.spec_control()
                &&& n == 0
            }),
    {
        let p = self.spec_period();
        assert(p >= 1);
        let k = ((self.spec_subcycles() + cycles) / (p as int)) as nat;
        self.lemma_increments_count(k);
        self.lemma_increments_bound(k);
    }
}

#[derive(Debug, Clone, Copy)]
pub struct Timers {
    channels: [TimerChannel; 4],
}

impl Timers {
    pub closed spec fn spec_channels(self) -> Seq<TimerChannel> {
        self.channels@
    }

    pub open spec fn wf(self) -> bool {
        &&& self.spec_channels().len() == 4
        &&& forall|i: int| 0 <= i < 4 ==> #[trigger] self.spec_channels()[i].wf()
    }

    pub closed spec fn with_channels(chs: Seq<TimerChannel>) -> Timers
        recommends
            chs.len() == 4,
    {
        Timers { channels: [chs[0], chs[1], chs[2], chs[3]] }
    }

    pub open spec fn spec_read_register(self, offset: usize) -> u8 {
        let ch = self.spec_channels()[(offset / 4) as int];
        let b = offset % 4;
        if b == 0 {
            (ch.spec_counter() & 0xFF) as u8
        } else if b == 1 {
            (ch.spec_counter() >> 8) as u8
        } else if b == 2 {
            (ch.spec_control() & 0xFF) as u8
        } else {
            (ch.spec_control() >> 8) as u8
        }
    }

    pub fn new() -> (t: Self)
        ensures
            t.wf(),
            forall|i: int|
                0 <= i < 4 ==> {
                    let c = #[trigger] t.spec_channels()[i];
                    c.spec_reload() == 0 && c.spec_counter() == 0 && c.spec_control() == 0
                },
    {
        Timers {
            channels: [TimerChannel::new(), TimerChannel::new(), TimerChannel::new(), TimerChannel::new()],
        }
    }

    /// Advances every timer by `cycles` CPU cycles, chaining cascade-mode
    /// channels off the previous channel's overflow count in the same
    /// call. Channel 0 never cascades.
    pub fn tick(&mut self, cycles: u32) -> (events: TimerIrqEvents)
        requires
            old(self).wf(),
            cycles <= u32::MAX - 1024,
        ensures
            final(self).wf(),
            (final(self).spec_channels(), events.spec_overflowed()) == ({
                let (chs, ev, _) = spec_tick_channels(old(self).spec_channels(), cycles, 4);
                (chs, ev)
            }),
    {
        let mut events = TimerIrqEvents { overflowed: [false; 4] };
        let mut cascade_pulses: u32 = 0;
        let ghost chs0 = self.channels@;
        assert(events.overflowed@ =~= seq![false, false, false, false]);
        let mut i: usize = 0;
        while i < 4
            invariant
                i <= 4,
                self.wf(),
                (self.channels@, events.overflowed@, cascade_pulses) == spec_tick_channels(
                    chs0,
                    cycles,
                    i as int,
                ),
                cycles <= u32::MAX - 1024,
            decreases 4 - i,
        {
            let mut ch = self.channels[i];
            assert(self.spec_channels()[i as int].wf());
            let overflow_count = if i == 0 {
                ch.tick_cycles(cycles)
            } else if ch.cascade() {
                ch.tick_cascade(cascade_pulses)
            } else {
                ch.tick_cycles(cycles)
            };
            self.channels[i] = ch;
            if overflow_count > 0 && ch.irq_enable() {
                events.overflowed[i] = true;
            }
            cascade_pulses = overflow_count;
            assert forall|j: int| 0 <= j < 4 implies #[trigger] self.spec_channels()[j].wf() by {}
            i = i + 1;
        }
        events
    }

    pub fn read_register(&self, offset: usize) -> (b: u8)
        requires
            offset < IO_SIZE,
        ensures
            b == self.spec_read_register(offset),
    {
        let idx = offset / 4;
        let ch = &self.channels[idx];
        let b = offset % 4;
        if b == 0 {
            (ch.counter & 0xFF) as u8
        } else if b == 1 {
            (ch.counter >> 8) as u8
        } else if b == 2 {
            (ch.control & 0xFF) as u8
        } else {
            (ch.control >> 8) as u8
        }
    }

    /// TMxCNT_L bytes set the reload value; TMxCNT_H's low byte is control,
    /// and a 0->1 transition of its start bit loads the counter from the
    /// reload value immediately.
    pub fn write_register(&mut self, offset: usize, value: u8)
        requires
            old(self).wf(),
            offset < IO_SIZE,
        ensures
            final(self).wf(),
            final(self).spec_channels() == old(self).spec_channels().update(
                (offset / 4) as int,
                spec_write_channel(old(self).spec_channels()[(offset / 4) as int], offset % 4, value),
            ),
    {
        let idx = offset / 4;
        let mut ch = self.channels[idx];
        assert(self.spec_channels()[idx as int].wf());
        ch.write(offset % 4, value);
        self.channels[idx] = ch;
        assert forall|j: int| 0 <= j < 4 implies #[trigger] self.spec_channels()[j].wf() by {
            if j != idx {
                assert(old(self).spec_channels()[j].wf());
            }
        }
    }
}

/// Timer channel register byte `b` (0-3) written with `value`.
pub open spec fn spec_write_channel(ch: TimerChannel, b: usize, value: u8) -> TimerChannel {
    ch.spec_written(b, value)
}

impl TimerChannel {
    pub closed spec fn spec_written(self, b: usize, value: u8) -> TimerChannel {
        if b == 0 {
            TimerChannel { reload: (self.reload & 0xFF00) | value as u16, ..self }
        } else if b == 1 {
            TimerChannel { reload: (self.reload & 0x00FF) | ((value as u16) << 8), ..self }
        } else if b == 2 {
            let control = (self.control & 0xFF00) | value as u16;
            if self.control & 0x80 == 0 && control & 0x80 != 0 {
                TimerChannel { control, counter: self.reload, subcycles: 0, ..self }
            } else {
                TimerChannel { control, ..self }
            }
        } else {
            TimerChannel { control: (self.control & 0x00FF) | ((value as u16) << 8), ..self }
        }
    }

    /// Writing the control byte with a 0->1 start-bit transition loads the
    /// counter from the reload value.
    pub proof fn lemma_start_loads_counter(self, value: u8)
        requires
            !self.spec_enabled(),
            value & 0x80 != 0,
        ensures
            self.spec_written(2, value).spec_counter() == self.spec_reload(),
            self.spec_written(2, value).spec_enabled(),
    {
        let c = self.control;
        assert(value & 0x80 != 0 ==> ((c & 0xFF00) | value as u16) & 0x80 != 0) by (bit_vector);
    }

    fn write(&mut self, b: usize, value: u8)
        requires
            old(self).wf(),
        ensures
            final(self).wf(),
            *final(self) == old(self).spec_written(b, value),
    {
        if b == 0 {
            self.reload = (self.reload & 0xFF00) | value as u16;
        } else if b == 1 {
            self.reload = (self.reload & 0x00FF) | ((value as u16) << 8);
        } else if b == 2 {
            let was_enabled = self.enabled();
            self.control = (self.control & 0xFF00) | value as u16;
            if !was_enabled && self.enabled() {
                self.counter = self.reload;
                self.subcycles = 0;
            }
        } else {
            self.control = (self.control & 0x00FF) | ((value as u16) << 8);
        }
    }
}

} // verus!
