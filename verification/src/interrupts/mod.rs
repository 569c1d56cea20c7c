//! The GBA interrupt controller: IE (enable), IF (request/acknowledge) and
//! IME (master enable) at 0x04000200/0x04000202/0x04000208. Peripherals
//! call [`Interrupts::request`] when their own condition fires and their
//! own IRQ-enable bit is set; this controller only decides whether that
//! request actually reaches the CPU.
use vstd::prelude::*;

verus! {

/// I/O block for IE (0x200-0x201) + IF (0x202-0x203).
pub const IE_IF_BASE: usize = 0x200;

pub const IE_IF_SIZE: usize = 4;

/// I/O block for IME. Only bit 0 of the low byte is used.
pub const IME_BASE: usize = 0x208;

pub const IME_SIZE: usize = 4;

#[derive(Debug, Clone, Copy, PartialEq, Eq, Structural)]
pub enum InterruptSource {
    VBlank,
    HBlank,
    VCounter,
    Timer0,
    Timer1,
    Timer2,
    Timer3,
    Serial,
    Dma0,
    Dma1,
    Dma2,
    Dma3,
    Keypad,
    GamePak,
}

impl InterruptSource {
    /// IE/IF bit index — fixed by hardware.
    pub open spec fn spec_bit(self) -> u16 {
        match self {
            InterruptSource::VBlank => 0,
            InterruptSource::HBlank => 1,
            InterruptSource::VCounter => 2,
            InterruptSource::Timer0 => 3,
            InterruptSource::Timer1 => 4,
            InterruptSource::Timer2 => 5,
            InterruptSource::Timer3 => 6,
            InterruptSource::Serial => 7,
            InterruptSource::Dma0 => 8,
            InterruptSource::Dma1 => 9,
            InterruptSource::Dma2 => 10,
            InterruptSource::Dma3 => 11,
            InterruptSource::Keypad => 12,
            InterruptSource::GamePak => 13,
        }
    }

    pub fn bit(self) -> (b: u16)
        ensures
            b == self.spec_bit(),
            b < 14,
    {
        match self {
            InterruptSource::VBlank => 0,
            InterruptSource::HBlank => 1,
            InterruptSource::VCounter => 2,
            InterruptSource::Timer0 => 3,
            InterruptSource::Timer1 => 4,
            InterruptSource::Timer2 => 5,
            InterruptSource::Timer3 => 6,
            InterruptSource::Serial => 7,
            InterruptSource::Dma0 => 8,
            InterruptSource::Dma1 => 9,
            InterruptSource::Dma2 => 10,
            InterruptSource::Dma3 => 11,
            InterruptSource::Keypad => 12,
            InterruptSource::GamePak => 13,
        }
    }

    /// The overflow interrupt of timer `index` (0-3).
    pub fn from_timer_index(index: usize) -> (s: InterruptSource)
        requires
            index < 4,
        ensures
            s.spec_bit() == 3 + index,
            s == seq![
                InterruptSource::Timer0,
                InterruptSource::Timer1,
                InterruptSource::Timer2,
                InterruptSource::Timer3,
            ][index as int],
    {
        if index == 0 {
            InterruptSource::Timer0
        } else if index == 1 {
            InterruptSource::Timer1
        } else if index == 2 {
            InterruptSource::Timer2
        } else {
            InterruptSource::Timer3
        }
    }

    /// The completion interrupt of DMA channel `index` (0-3).
    pub fn from_dma_index(index: usize) -> (s: InterruptSource)
        requires
            index < 4,
        ensures
            s.spec_bit() == 8 + index,
            s == seq![
                InterruptSource::Dma0,
                InterruptSource::Dma1,
                InterruptSource::Dma2,
                InterruptSource::Dma3,
            ][index as int],
    {
        if index == 0 {
            InterruptSource::Dma0
        } else if index == 1 {
            InterruptSource::Dma1
        } else if index == 2 {
            InterruptSource::Dma2
        } else {
            InterruptSource::Dma3
        }
    }
}

/// The interrupt controller's registers.
#[derive(Debug, Clone, Copy)]
pub struct Interrupts {
    ie: u16,
    iflag: u16,
    ime: bool,
}

impl Interrupts {
    pub closed spec fn spec_ie(self) -> u16 {
        self.ie
    }

    pub closed spec fn spec_iflag(self) -> u16 {
        self.iflag
    }

    pub closed spec fn spec_ime(self) -> bool {
        self.ime
    }

    /// The controller holding exactly these register values.
    pub closed spec fn with_values(ie: u16, iflag: u16, ime: bool) -> Interrupts {
        Interrupts { ie, iflag, ime }
    }

    pub open spec fn spec_pending(self) -> bool {
        self.spec_ime() && self.spec_ie() & self.spec_iflag() != 0
    }

    /// The controller after IF bit `bit` is set.
    pub open spec fn spec_request(self, bit: u16) -> Interrupts {
        Self::with_values(self.spec_ie(), self.spec_iflag() | (1u16 << bit), self.spec_ime())
    }

    /// The controller after the IF bits of `mask` are cleared.
    pub open spec fn spec_acknowledge(self, mask: u16) -> Interrupts {
        Self::with_values(self.spec_ie(), self.spec_iflag() & !mask, self.spec_ime())
    }

    pub open spec fn spec_read_ie_if(self, offset: usize) -> u8 {
        if offset == 0 {
            (self.spec_ie() & 0xFF) as u8
        } else if offset == 1 {
            (self.spec_ie() >> 8) as u8
        } else if offset == 2 {
            (self.spec_iflag() & 0xFF) as u8
        } else if offset == 3 {
            (self.spec_iflag() >> 8) as u8
        } else {
            0
        }
    }

    /// IE bytes are plain storage; IF bytes are write-1-to-clear.
    pub open spec fn spec_write_ie_if(self, offset: usize, value: u8) -> Interrupts {
        if offset == 0 {
            Self::with_values((self.spec_ie() & 0xFF00) | value as u16, self.spec_iflag(), self.spec_ime())
        } else if offset == 1 {
            Self::with_values(
                (self.spec_ie() & 0x00FF) | ((value as u16) << 8),
                self.spec_iflag(),
                self.spec_ime(),
            )
        } else if offset == 2 {
            Self::with_values(self.spec_ie(), self.spec_iflag() & !(value as u16), self.spec_ime())
        } else if offset == 3 {
            Self::with_values(
                self.spec_ie(),
                self.spec_iflag() & !((value as u16) << 8),
                self.spec_ime(),
            )
        } else {
            self
        }
    }

    pub open spec fn spec_read_ime(self, offset: usize) -> u8 {
        if offset == 0 && self.spec_ime() {
            1
        } else {
            0
        }
    }

    pub open spec fn spec_write_ime(self, offset: usize, value: u8) -> Interrupts {
        if offset == 0 {
            Self::with_values(self.spec_ie(), self.spec_iflag(), value & 1 != 0)
        } else {
            self
        }
    }

    pub fn new() -> (irq: Self)
        ensures
            irq == Self::with_values(0, 0, false),
    {
        Interrupts { ie: 0, iflag: 0, ime: false }
    }

    /// Sets a source's IF bit. Idempotent — safe to call every tick while a
    /// level-held condition is true.
    pub fn request(&mut self, source: InterruptSource)
        ensures
            *final(self) == old(self).spec_request(source.spec_bit()),
    {
        self.iflag = self.iflag | (1u16 << source.bit());
    }

    /// Whether the CPU should take an IRQ exception right now: master
    /// enable on, and some source both enabled (IE) and pending (IF). Does
    /// not check CPSR's I bit — that's the CPU's own gate.
    pub fn pending(&self) -> (b: bool)
        ensures
            b == self.spec_pending(),
    {
        self.ime && (self.ie & self.iflag != 0)
    }

    /// The bits currently both enabled (IE) and requested (IF), regardless
    /// of IME.
    pub fn ie_and_iflag(&self) -> (b: u16)
        ensures
            b == self.spec_ie() & self.spec_iflag(),
    {
        self.ie & self.iflag
    }

    /// Write-1-to-clear acknowledgement of specific IF bits.
    pub fn acknowledge(&mut self, mask: u16)
        ensures
            *final(self) == old(self).spec_acknowledge(mask),
    {
        self.iflag = self.iflag & !mask;
    }

    pub fn read_ie_if(&self, offset: usize) -> (b: u8)
        ensures
            b == self.spec_read_ie_if(offset),
    {
        if offset == 0 {
            (self.ie & 0xFF) as u8
        } else if offset == 1 {
            (self.ie >> 8) as u8
        } else if offset == 2 {
            (self.iflag & 0xFF) as u8
        } else if offset == 3 {
            (self.iflag >> 8) as u8
        } else {
            0
        }
    }

    pub fn write_ie_if(&mut self, offset: usize, value: u8)
        ensures
            *final(self) == old(self).spec_write_ie_if(offset, value),
    {
        if offset == 0 {
            self.ie = (self.ie & 0xFF00) | value as u16;
        } else if offset == 1 {
            self.ie = (self.ie & 0x00FF) | ((value as u16) << 8);
        } else if offset == 2 {
            // IF is write-1-to-clear: a written 1 bit clears that IF bit.
            self.iflag = self.iflag & !(value as u16);
        } else if offset == 3 {
            self.iflag = self.iflag & !((value as u16) << 8);
        }
    }

    pub fn read_ime(&self, offset: usize) -> (b: u8)
        ensures
            b == self.spec_read_ime(offset),
    {
        if offset == 0 && self.ime {
            1
        } else {
            0
        }
    }

    pub fn write_ime(&mut self, offset: usize, value: u8)
        ensures
            *final(self) == old(self).spec_write_ime(offset, value),
    {
        if offset == 0 {
            self.ime = value & 1 != 0;
        }
    }
}

/// A controller built from register values holds exactly those values,
/// and two controllers with the same register values are the same.
pub broadcast proof fn lemma_with_values(ie: u16, iflag: u16, ime: bool)
    ensures
        #[trigger] Interrupts::with_values(ie, iflag, ime).spec_ie() == ie,
        Interrupts::with_values(ie, iflag, ime).spec_iflag() == iflag,
        Interrupts::with_values(ie, iflag, ime).spec_ime() == ime,
{
}

/// An interrupt controller is determined by its IE, IF and IME values.
pub proof fn lemma_interrupts_ext(a: Interrupts, b: Interrupts)
    requires
        a.spec_ie() == b.spec_ie(),
        a.spec_iflag() == b.spec_iflag(),
        a.spec_ime() == b.spec_ime(),
    ensures
        a == b,
{
}

/// Requesting a source makes the controller report it pending exactly when
/// IME is on and the source is enabled in IE.
pub proof fn lemma_request_then_pending(irq: Interrupts, source: InterruptSource)
    requires
        irq.spec_ime(),
        irq.spec_ie() & (1u16 << source.spec_bit()) != 0,
    ensures
        irq.spec_request(source.spec_bit()).spec_pending(),
{
    let b = source.spec_bit();
    let ie = irq.spec_ie();
    let f = irq.spec_iflag();
    assert(b < 14);
    assert(ie & (1u16 << b) != 0 ==> ie & (f | (1u16 << b)) != 0) by (bit_vector);
}

/// Acknowledging every pending bit through IF leaves nothing pending.
pub proof fn lemma_acknowledge_all_clears_pending(irq: Interrupts)
    ensures
        !irq.spec_acknowledge(irq.spec_ie() & irq.spec_iflag()).spec_pending(),
{
    let ie = irq.spec_ie();
    let f = irq.spec_iflag();
    assert(ie & (f & !(ie & f)) == 0) by (bit_vector);
}

/// Writing a byte of IE and reading it back gives the byte written.
pub proof fn lemma_ie_round_trip(irq: Interrupts, offset: usize, value: u8)
    requires
        offset < 2,
    ensures
        irq.spec_write_ie_if(offset, value).spec_read_ie_if(offset) == value,
{
    let ie = irq.spec_ie();
    assert(((ie & 0xFF00) | value as u16) & 0xFF == value as u16) by (bit_vector);
    assert(((((ie & 0x00FF) | ((value as u16) << 8)) >> 8) as u8) == value) by (bit_vector);
}

} // verus!
