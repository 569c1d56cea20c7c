//! Direct Sound channels A and B: a 32-byte FIFO of signed 8-bit PCM
//! samples, filled by writes to FIFO_A/FIFO_B and drained one byte each
//! time the timer selected in SOUNDCNT_H overflows.
use vstd::prelude::*;
use std::collections::VecDeque;

verus! {

pub const FIFO_CAPACITY: usize = 32;

/// The FIFO's contents, oldest first, and the latched output sample.
pub struct DmaSoundView {
    pub fifo: Seq<i8>,
    pub current_sample: i8,
}

impl DmaSoundView {
    pub open spec fn wf(self) -> bool {
        self.fifo.len() <= FIFO_CAPACITY
    }

    pub open spec fn spec_push(self, value: u8) -> DmaSoundView {
        if self.fifo.len() < FIFO_CAPACITY {
            DmaSoundView { fifo: self.fifo.push(value as i8), ..self }
        } else {
            self
        }
    }

    pub open spec fn spec_reset(self) -> DmaSoundView {
        DmaSoundView { fifo: Seq::empty(), current_sample: 0 }
    }

    pub open spec fn spec_pop(self) -> DmaSoundView {
        if self.fifo.len() > 0 {
            DmaSoundView { fifo: self.fifo.drop_first(), current_sample: self.fifo[0] }
        } else {
            self
        }
    }
}

#[derive(Debug)]
pub struct DmaSoundChannel {
    pub fifo: VecDeque<i8>,
    pub current_sample: i8,
}

impl View for DmaSoundChannel {
    type V = DmaSoundView;

    open spec fn view(&self) -> DmaSoundView {
        DmaSoundView { fifo: self.fifo@, current_sample: self.current_sample }
    }
}

impl DmaSoundChannel {
    pub fn new() -> (c: Self)
        ensures
            c@ == (DmaSoundView { fifo: Seq::empty(), current_sample: 0 }),
    {
        DmaSoundChannel { fifo: VecDeque::with_capacity(FIFO_CAPACITY), current_sample: 0 }
    }

    /// Appends one byte to the FIFO; a write to a full FIFO is dropped.
    pub fn push(&mut self, value: u8)
        ensures
            final(self)@ == old(self)@.spec_push(value),
    {
        if self.fifo.len() < FIFO_CAPACITY {
            self.fifo.push_back(value as i8);
        }
    }

    /// Empties the FIFO and silences the output (SOUNDCNT_H's reset bit).
    pub fn reset(&mut self)
        ensures
            final(self)@ == old(self)@.spec_reset(),
    {
        self.fifo.clear();
        self.current_sample = 0;
    }

    /// Latches the oldest byte as the output sample; on an empty FIFO the
    /// last sample is held.
    pub fn pop(&mut self)
        ensures
            final(self)@ == old(self)@.spec_pop(),
    {
        if let Some(sample) = self.fifo.pop_front() {
            self.current_sample = sample;
        }
        proof {
            if old(self)@.fifo.len() > 0 {
                assert(self@.fifo =~= old(self)@.fifo.drop_first());
            }
        }
    }

    pub fn len(&self) -> (n: usize)
        ensures
            n == self@.fifo.len(),
    {
        self.fifo.len()
    }

    /// The signed sample currently latched for output.
    pub fn sample(&self) -> (s: i8)
        ensures
            s == self@.current_sample,
    {
        self.current_sample
    }
}

/// The FIFO is first-in first-out: after pushing `x` into a FIFO with
/// room, popping latches the oldest byte, which is `x` itself when the FIFO
/// was empty.
pub proof fn lemma_fifo_order(v: DmaSoundView, x: u8)
    requires
        v.fifo.len() < FIFO_CAPACITY,
    ensures
        v.spec_push(x).spec_pop().current_sample == (if v.fifo.len() == 0 {
            x as i8
        } else {
            v.fifo[0]
        }),
        v.spec_push(x).spec_pop().fifo.len() == v.fifo.len(),
{
}

/// A full FIFO ignores pushes, and popping an empty FIFO holds the last
/// sample instead of going silent.
pub proof fn lemma_fifo_bounds(v: DmaSoundView, x: u8)
    ensures
        v.fifo.len() >= FIFO_CAPACITY ==> v.spec_push(x) == v,
        v.fifo.len() == 0 ==> v.spec_pop() == v,
{
}

impl Default for DmaSoundChannel {
    fn default() -> (c: Self)
        ensures
            c@ == (DmaSoundView { fifo: Seq::empty(), current_sample: 0 }),
    {
        Self::new()
    }
}

} // verus!
