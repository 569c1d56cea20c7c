//! 32KB battery-backed SRAM: a flat byte array with no command protocol.
//! Mirroring across the backup region is the bus's job.
use vstd::prelude::*;

verus! {

pub const SRAM_SIZE: usize = 32 * 1024;

/// `data` copied over the start of `bytes`, as far as both reach.
pub open spec fn spec_load_prefix(bytes: Seq<u8>, data: Seq<u8>) -> Seq<u8> {
    Seq::new(bytes.len(), |i: int| if i < data.len() { data[i] } else { bytes[i] })
}

/// Copies `data` over the start of `bytes`; a longer `data` is truncated.
pub fn load_prefix(bytes: &mut Vec<u8>, data: &[u8])
    ensures
        final(bytes)@ == spec_load_prefix(old(bytes)@, data@),
{
    let n: usize = if data.len() < bytes.len() {
        data.len()
    } else {
        bytes.len()
    };
    let mut i: usize = 0;
    while i < n
        invariant
            n <= data.len(),
            n <= bytes.len(),
            i <= n,
            bytes@.len() == old(bytes)@.len(),
            forall|j: int| 0 <= j < i ==> bytes@[j] == data@[j],
            forall|j: int| i <= j < bytes@.len() ==> bytes@[j] == old(bytes)@[j],
        decreases n - i,
    {
        bytes.set(i, data[i]);
        i = i + 1;
    }
    assert(bytes@ =~= spec_load_prefix(old(bytes)@, data@));
}

#[derive(Debug)]
pub struct Sram {
    bytes: Vec<u8>,
}

impl View for Sram {
    type V = Seq<u8>;

    closed spec fn view(&self) -> Seq<u8> {
        self.bytes@
    }
}

impl Sram {
    pub open spec fn wf(&self) -> bool {
        self@.len() == SRAM_SIZE
    }

    /// A new chip reads as erased (0xFF) everywhere.
    pub fn new() -> (s: Self)
        ensures
            s.wf(),
            forall|i: int| 0 <= i < SRAM_SIZE ==> #[trigger] s@[i] == 0xFF,
    {
        Sram { bytes: vec![0xFFu8; SRAM_SIZE] }
    }

    pub fn read(&self, offset: usize) -> (b: u8)
        requires
            self.wf(),
        ensures
            b == self@[(offset % SRAM_SIZE) as int],
    {
        self.bytes[offset % SRAM_SIZE]
    }

    pub fn write(&mut self, offset: usize, value: u8)
        requires
            old(self).wf(),
        ensures
            final(self)@ == old(self)@.update((offset % SRAM_SIZE) as int, value),
            final(self).wf(),
    {
        let len = self.bytes.len();
        self.bytes.set(offset % len, value);
    }

    pub fn as_bytes(&self) -> (s: &[u8])
        ensures
            s@ == self@,
    {
        self.bytes.as_slice()
    }

    /// Restores contents saved earlier; shorter data leaves the rest
    /// untouched and longer data is truncated.
    pub fn load_bytes(&mut self, data: &[u8])
        requires
            old(self).wf(),
        ensures
            final(self)@ == spec_load_prefix(old(self)@, data@),
            final(self).wf(),
    {
        load_prefix(&mut self.bytes, data);
    }
}

impl Default for Sram {
    fn default() -> (s: Self)
        ensures
            s.wf(),
            forall|i: int| 0 <= i < SRAM_SIZE ==> #[trigger] s@[i] == 0xFF,
    {
        Self::new()
    }
}

} // verus!
