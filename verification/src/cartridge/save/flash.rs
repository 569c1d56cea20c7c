//! The command state machine of a Flash backup chip. Every operation
//! (programming a byte, erasing a sector or the chip, reading the chip ID,
//! switching banks on a 128KB chip) is unlocked by writing 0xAA to 0x5555
//! then 0x55 to 0x2AAA, followed by a command byte at 0x5555. Operations
//! complete at once: games poll for the expected data, so that is
//! transparent to them.
use vstd::prelude::*;
use crate::cartridge::save::FlashSize;
use crate::cartridge::save::sram::{load_prefix, spec_load_prefix};

verus! {

broadcast use crate::bits::group_bits;

pub const SECTOR_SIZE: usize = 0x1000;

pub const BANK_SIZE: usize = 0x10000;

#[derive(Debug, Clone, Copy, PartialEq, Eq, Structural)]
pub enum State {
    Ready,
    Unlocked1,
    Unlocked2,
    IdMode,
    ErasePrefixReady,
    ErasePrefixUnlocked1,
    ErasePrefixUnlocked2,
    PendingProgram,
    PendingBankSwitch,
}

pub struct FlashView {
    pub size: FlashSize,
    pub bytes: Seq<u8>,
    pub bank: usize,
    pub state: State,
}

pub open spec fn spec_manufacturer_id(size: FlashSize) -> u8 {
    match size {
        FlashSize::Kb64 => 0xBF,
        FlashSize::Kb128 => 0x62,
    }
}

pub open spec fn spec_device_id(size: FlashSize) -> u8 {
    match size {
        FlashSize::Kb64 => 0xD4,
        FlashSize::Kb128 => 0x13,
    }
}

impl FlashView {
    /// The chip holds its full capacity and a 64KB chip stays in bank 0.
    pub open spec fn wf(self) -> bool {
        &&& self.bytes.len() == self.size.spec_bytes()
        &&& self.bank < 2
        &&& self.size == FlashSize::Kb64 ==> self.bank == 0
    }

    pub open spec fn spec_data_index(self, addr: int) -> int {
        self.bank * BANK_SIZE + addr
    }

    /// In ID mode addresses 0 and 1 read the manufacturer and device IDs;
    /// everything else reads the selected bank.
    pub open spec fn spec_read(self, offset: usize) -> u8 {
        let addr = offset % 0x10000;
        if self.state == State::IdMode && addr == 0 {
            spec_manufacturer_id(self.size)
        } else if self.state == State::IdMode && addr == 1 {
            spec_device_id(self.size)
        } else {
            self.bytes[self.spec_data_index(addr as int)]
        }
    }

    /// The bank after a bank-switch command with data `value`.
    pub open spec fn spec_switched_bank(self, value: u8) -> usize {
        if self.size == FlashSize::Kb128 {
            (value & 1) as usize
        } else {
            self.bank
        }
    }

    /// The chip after a byte write at `offset`.
    pub open spec fn spec_write(self, offset: usize, value: u8) -> FlashView {
        let addr = offset % 0x10000;
        let ready = FlashView { state: State::Ready, ..self };
        match self.state {
            State::Ready | State::IdMode => if addr == 0x5555 && value == 0xAA {
                FlashView { state: State::Unlocked1, ..self }
            } else {
                self
            },
            State::Unlocked1 => if addr == 0x2AAA && value == 0x55 {
                FlashView { state: State::Unlocked2, ..self }
            } else {
                ready
            },
            State::Unlocked2 => FlashView {
                state: if addr == 0x5555 && value == 0x90 {
                    State::IdMode
                } else if addr == 0x5555 && value == 0x80 {
                    State::ErasePrefixReady
                } else if addr == 0x5555 && value == 0xA0 {
                    State::PendingProgram
                } else if addr == 0x5555 && value == 0xB0 {
                    State::PendingBankSwitch
                } else {
                    State::Ready
                },
                ..self
            },
            State::ErasePrefixReady => if addr == 0x5555 && value == 0xAA {
                FlashView { state: State::ErasePrefixUnlocked1, ..self }
            } else {
                ready
            },
            State::ErasePrefixUnlocked1 => if addr == 0x2AAA && value == 0x55 {
                FlashView { state: State::ErasePrefixUnlocked2, ..self }
            } else {
                ready
            },
            State::ErasePrefixUnlocked2 => if addr == 0x5555 && value == 0x10 {
                FlashView { bytes: Seq::new(self.bytes.len(), |i: int| 0xFFu8), ..ready }
            } else if value == 0x30 {
                let base = self.spec_data_index(addr - (addr % SECTOR_SIZE) as int);
                FlashView {
                    bytes: Seq::new(
                        self.bytes.len(),
                        |i: int|
                            if base <= i < base + SECTOR_SIZE {
                                0xFFu8
                            } else {
                                self.bytes[i]
                            },
                    ),
                    ..ready
                }
            } else {
                ready
            },
            State::PendingProgram => {
                let i = self.spec_data_index(addr as int);
                FlashView { bytes: self.bytes.update(i, self.bytes[i] & value), ..ready }
            },
            State::PendingBankSwitch => FlashView { bank: self.spec_switched_bank(value), ..ready },
        }
    }
}

/// Data changes only on the write that completes a program or erase
/// command; every other write at most moves the command state.
pub proof fn lemma_data_changes_only_on_commands(f: FlashView, offset: usize, value: u8)
    requires
        f.state != State::PendingProgram,
        f.state != State::ErasePrefixUnlocked2,
    ensures
        f.spec_write(offset, value).bytes == f.bytes,
        f.state != State::PendingBankSwitch ==> f.spec_write(offset, value).bank == f.bank,
{
}

/// Programming a byte can only clear bits: no bit that was 0 becomes 1.
pub proof fn lemma_program_only_clears_bits(f: FlashView, offset: usize, value: u8)
    requires
        f.wf(),
        f.state == State::PendingProgram,
    ensures
        ({
            let i = f.spec_data_index((offset % 0x10000) as int);
            let after = f.spec_write(offset, value).bytes[i];
            &&& after == f.bytes[i] & value
            &&& after & !f.bytes[i] == 0
        }),
{
    let i = f.spec_data_index((offset % 0x10000) as int);
    let b = f.bytes[i];
    assert((b & value) & !b == 0) by (bit_vector);
}

/// The full unlock sequence followed by the byte-program command programs
/// the next byte written, then returns the chip to the ready state.
pub proof fn lemma_unlock_then_program(f: FlashView, a: usize, v: u8)
    requires
        f.wf(),
        f.state == State::Ready,
        a < 0x10000,
    ensures
        ({
            let g = f.spec_write(0x5555, 0xAA).spec_write(0x2AAA, 0x55).spec_write(
                0x5555,
                0xA0,
            ).spec_write(a, v);
            &&& g.state == State::Ready
            &&& g.bytes == f.bytes.update(
                f.spec_data_index(a as int),
                f.bytes[f.spec_data_index(a as int)] & v,
            )
        }),
{
}

#[derive(Debug)]
pub struct Flash {
    size: FlashSize,
    bytes: Vec<u8>,
    bank: usize,
    state: State,
}

impl View for Flash {
    type V = FlashView;

    closed spec fn view(&self) -> FlashView {
        FlashView { size: self.size, bytes: self.bytes@, bank: self.bank, state: self.state }
    }
}

impl Flash {
    /// A new chip is erased, in bank 0 and ready for commands.
    pub fn new(size: FlashSize) -> (f: Self)
        ensures
            f@.wf(),
            f@.size == size,
            f@.bank == 0,
            f@.state == State::Ready,
            forall|i: int| 0 <= i < size.spec_bytes() ==> #[trigger] f@.bytes[i] == 0xFF,
    {
        Flash { size, bytes: vec![0xFFu8; size.bytes()], bank: 0, state: State::Ready }
    }

    fn manufacturer_id(&self) -> (b: u8)
        ensures
            b == spec_manufacturer_id(self@.size),
    {
        match self.size {
            FlashSize::Kb64 => 0xBF,
            FlashSize::Kb128 => 0x62,
        }
    }

    fn device_id(&self) -> (b: u8)
        ensures
            b == spec_device_id(self@.size),
    {
        match self.size {
            FlashSize::Kb64 => 0xD4,
            FlashSize::Kb128 => 0x13,
        }
    }

    fn data_at(&self, addr: usize) -> (b: u8)
        requires
            self@.wf(),
            addr < 0x10000,
        ensures
            b == self@.bytes[self@.spec_data_index(addr as int)],
    {
        self.bytes[self.bank * BANK_SIZE + addr]
    }

    /// Programming can only clear bits; only erasing sets them back to 1.
    fn program_byte(&mut self, addr: usize, value: u8)
        requires
            old(self)@.wf(),
            addr < 0x10000,
        ensures
            final(self)@ == (FlashView {
                bytes: old(self)@.bytes.update(
                    old(self)@.spec_data_index(addr as int),
                    old(self)@.bytes[old(self)@.spec_data_index(addr as int)] & value,
                ),
                ..old(self)@
            }),
    {
        let index = self.bank * BANK_SIZE + addr;
        let old_byte = self.bytes[index];
        self.bytes.set(index, old_byte & value);
    }

    fn erase_sector(&mut self, addr: usize)
        requires
            old(self)@.wf(),
            addr < 0x10000,
        ensures
            ({
                let base = old(self)@.spec_data_index(addr - (addr % SECTOR_SIZE) as int);
                final(self)@ == (FlashView {
                    bytes: Seq::new(
                        old(self)@.bytes.len(),
                        |i: int|
                            if base <= i < base + SECTOR_SIZE {
                                0xFFu8
                            } else {
                                old(self)@.bytes[i]
                            },
                    ),
                    ..old(self)@
                })
            }),
    {
        let base = self.bank * BANK_SIZE + (addr - addr % SECTOR_SIZE);
        let mut i: usize = base;
        while i < base + SECTOR_SIZE
            invariant
                old(self)@.wf(),
                base == old(self)@.spec_data_index(addr - (addr % SECTOR_SIZE) as int),
                base + SECTOR_SIZE <= old(self)@.bytes.len(),
                base <= i <= base + SECTOR_SIZE,
                self.size == old(self).size,
                self.bank == old(self).bank,
                self.state == old(self).state,
                self.bytes@.len() == old(self)@.bytes.len(),
                forall|j: int|
                    0 <= j < self.bytes@.len() ==> #[trigger] self.bytes@[j] == if base <= j < i {
                        0xFFu8
                    } else {
                        old(self)@.bytes[j]
                    },
            decreases base + SECTOR_SIZE - i,
        {
            self.bytes.set(i, 0xFF);
            i = i + 1;
        }
        proof {
            let base_s = old(self)@.spec_data_index(addr - (addr % SECTOR_SIZE) as int);
            assert(self@.bytes =~= Seq::new(
                old(self)@.bytes.len(),
                |k: int|
                    if base_s <= k < base_s + SECTOR_SIZE {
                        0xFFu8
                    } else {
                        old(self)@.bytes[k]
                    },
            ));
        }
    }

    fn erase_chip(&mut self)
        requires
            old(self)@.wf(),
        ensures
            final(self)@ == (FlashView {
                bytes: Seq::new(old(self)@.bytes.len(), |i: int| 0xFFu8),
                ..old(self)@
            }),
    {
        let n = self.bytes.len();
        let mut i: usize = 0;
        while i < n
            invariant
                n == old(self)@.bytes.len(),
                i <= n,
                self.size == old(self).size,
                self.bank == old(self).bank,
                self.state == old(self).state,
                self.bytes@.len() == n,
                forall|j: int| 0 <= j < i ==> #[trigger] self.bytes@[j] == 0xFF,
            decreases n - i,
        {
            self.bytes.set(i, 0xFF);
            i = i + 1;
        }
        assert(self@.bytes =~= Seq::new(old(self)@.bytes.len(), |k: int| 0xFFu8));
    }

    pub fn save_type_size(&self) -> (s: FlashSize)
        ensures
            s == self@.size,
    {
        self.size
    }

    pub fn read(&self, offset: usize) -> (b: u8)
        requires
            self@.wf(),
        ensures
            b == self@.spec_read(offset),
    {
        let addr = offset % 0x10000;
        if self.state == State::IdMode && addr == 0 {
            self.manufacturer_id()
        } else if self.state == State::IdMode && addr == 1 {
            self.device_id()
        } else {
            self.data_at(addr)
        }
    }

    #[verifier::rlimit(30)]
    pub fn write(&mut self, offset: usize, value: u8)
        requires
            old(self)@.wf(),
        ensures
            final(self)@ == old(self)@.spec_write(offset, value),
            final(self)@.wf(),
    {
        let addr = offset % 0x10000;
        let next = match self.state {
            State::Ready | State::IdMode => {
                if addr == 0x5555 && value == 0xAA {
                    State::Unlocked1
                } else {
                    self.state
                }
            },
            State::Unlocked1 => {
                if addr == 0x2AAA && value == 0x55 {
                    State::Unlocked2
                } else {
                    State::Ready
                }
            },
            State::Unlocked2 => {
                if addr == 0x5555 && value == 0x90 {
                    State::IdMode
                } else if addr == 0x5555 && value == 0xF0 {
                    State::Ready
                } else if addr == 0x5555 && value == 0x80 {
                    State::ErasePrefixReady
                } else if addr == 0x5555 && value == 0xA0 {
                    State::PendingProgram
                } else if addr == 0x5555 && value == 0xB0 {
                    State::PendingBankSwitch
                } else {
                    State::Ready
                }
            },
            State::ErasePrefixReady => {
                if addr == 0x5555 && value == 0xAA {
                    State::ErasePrefixUnlocked1
                } else {
                    State::Ready
                }
            },
            State::ErasePrefixUnlocked1 => {
                if addr == 0x2AAA && value == 0x55 {
                    State::ErasePrefixUnlocked2
                } else {
                    State::Ready
                }
            },
            State::ErasePrefixUnlocked2 => {
                if addr == 0x5555 && value == 0x10 {
                    self.erase_chip();
                } else if value == 0x30 {
                    self.erase_sector(addr);
                }
                State::Ready
            },
            State::PendingProgram => {
                self.program_byte(addr, value);
                State::Ready
            },
            State::PendingBankSwitch => {
                if self.size == FlashSize::Kb128 {
                    self.bank = (value & 0x01) as usize;
                }
                State::Ready
            },
        };
        self.state = next;
        assert(self@.bytes =~= old(self)@.spec_write(offset, value).bytes);
    }

    pub fn as_bytes(&self) -> (s: &[u8])
        ensures
            s@ == self@.bytes,
    {
        self.bytes.as_slice()
    }

    /// Restores contents saved earlier; shorter data leaves the rest
    /// untouched and longer data is truncated.
    pub fn load_bytes(&mut self, data: &[u8])
        requires
            old(self)@.wf(),
        ensures
            final(self)@ == (FlashView {
                bytes: spec_load_prefix(old(self)@.bytes, data@),
                ..old(self)@
            }),
            final(self)@.wf(),
    {
        load_prefix(&mut self.bytes, data);
    }
}

} // verus!
