//! Cartridge backup memory: which chip a ROM expects, found from the ASCII
//! signature its linker embeds, and the backends that emulate each chip.
use vstd::prelude::*;
use crate::cartridge::save::flash::{Flash, FlashView};
use crate::cartridge::save::none::NoSave;
use crate::cartridge::save::sram::{Sram, SRAM_SIZE, spec_load_prefix};

pub mod flash;
pub mod none;
pub mod sram;

verus! {

/// Size of a Flash backup chip.
#[derive(Debug, Clone, Copy, PartialEq, Eq, Structural)]
pub enum FlashSize {
    Kb64,
    Kb128,
}

impl FlashSize {
    pub open spec fn spec_bytes(self) -> usize {
        match self {
            FlashSize::Kb64 => 0x10000usize,
            FlashSize::Kb128 => 0x20000usize,
        }
    }

    pub fn bytes(self) -> (n: usize)
        ensures
            n == self.spec_bytes(),
    {
        match self {
            FlashSize::Kb64 => 64 * 1024,
            FlashSize::Kb128 => 128 * 1024,
        }
    }
}

/// The kind of backup memory a cartridge exposes.
#[derive(Debug, Clone, Copy, PartialEq, Eq, Structural)]
pub enum SaveType {
    /// No backup memory signature found in the ROM.
    NoBackup,
    /// 32KB battery-backed SRAM.
    Sram32K,
    /// Flash chip behind the AA/55 command protocol.
    Flash(FlashSize),
    /// Serial EEPROM; the signature does not tell the 512-byte chip from the
    /// 8KB one.
    EepromUnknownSize,
}

/// The signatures searched for, in priority order.
pub open spec fn spec_signature(k: int) -> Seq<u8> {
    if k == 0 {
        seq![0x45u8, 0x45, 0x50, 0x52, 0x4f, 0x4d, 0x5f, 0x56]
    } else if k == 1 {
        seq![0x53u8, 0x52, 0x41, 0x4d, 0x5f, 0x56]
    } else if k == 2 {
        seq![0x53u8, 0x52, 0x41, 0x4d, 0x5f, 0x46, 0x5f, 0x56]
    } else if k == 3 {
        seq![0x46u8, 0x4c, 0x41, 0x53, 0x48, 0x31, 0x4d, 0x5f, 0x56]
    } else if k == 4 {
        seq![0x46u8, 0x4c, 0x41, 0x53, 0x48, 0x35, 0x31, 0x32, 0x5f, 0x56]
    } else {
        seq![0x46u8, 0x4c, 0x41, 0x53, 0x48, 0x5f, 0x56]
    }
}

/// The save type signature `k` announces: "EEPROM_V", "SRAM_V", "SRAM_F_V",
/// "FLASH1M_V", "FLASH512_V", "FLASH_V".
pub open spec fn spec_signature_type(k: int) -> SaveType {
    if k == 0 {
        SaveType::EepromUnknownSize
    } else if k == 1 || k == 2 {
        SaveType::Sram32K
    } else if k == 3 {
        SaveType::Flash(FlashSize::Kb128)
    } else {
        SaveType::Flash(FlashSize::Kb64)
    }
}

pub const SIGNATURE_COUNT: usize = 6;

fn signature(k: usize) -> (s: Vec<u8>)
    requires
        k < SIGNATURE_COUNT,
    ensures
        s@ == spec_signature(k as int),
{
    let s = if k == 0 {
        vec![0x45u8, 0x45, 0x50, 0x52, 0x4f, 0x4d, 0x5f, 0x56]
    } else if k == 1 {
        vec![0x53u8, 0x52, 0x41, 0x4d, 0x5f, 0x56]
    } else if k == 2 {
        vec![0x53u8, 0x52, 0x41, 0x4d, 0x5f, 0x46, 0x5f, 0x56]
    } else if k == 3 {
        vec![0x46u8, 0x4c, 0x41, 0x53, 0x48, 0x31, 0x4d, 0x5f, 0x56]
    } else if k == 4 {
        vec![0x46u8, 0x4c, 0x41, 0x53, 0x48, 0x35, 0x31, 0x32, 0x5f, 0x56]
    } else {
        vec![0x46u8, 0x4c, 0x41, 0x53, 0x48, 0x5f, 0x56]
    };
    assert(s@ =~= spec_signature(k as int));
    s
}

fn signature_type(k: usize) -> (t: SaveType)
    ensures
        t == spec_signature_type(k as int),
{
    if k == 0 {
        SaveType::EepromUnknownSize
    } else if k == 1 || k == 2 {
        SaveType::Sram32K
    } else if k == 3 {
        SaveType::Flash(FlashSize::Kb128)
    } else {
        SaveType::Flash(FlashSize::Kb64)
    }
}

/// `sig` occurs in `rom` starting at `i`.
pub open spec fn occurs_at(rom: Seq<u8>, sig: Seq<u8>, i: int) -> bool {
    0 <= i && i + sig.len() <= rom.len() && rom.subrange(i, i + sig.len()) == sig
}

pub open spec fn occurs(rom: Seq<u8>, sig: Seq<u8>) -> bool {
    exists|i: int| occurs_at(rom, sig, i)
}

/// The save type of the first signature, in priority order, that occurs in
/// the ROM; `NoBackup` when none does.
pub open spec fn spec_detect_from(rom: Seq<u8>, k: int) -> SaveType
    decreases 6 - k,
{
    if k >= 6 {
        SaveType::NoBackup
    } else if occurs(rom, spec_signature(k)) {
        spec_signature_type(k)
    } else {
        spec_detect_from(rom, k + 1)
    }
}

pub open spec fn spec_detect_save_type(rom: Seq<u8>) -> SaveType {
    spec_detect_from(rom, 0)
}

fn matches_at(rom: &[u8], sig: &[u8], i: usize) -> (b: bool)
    requires
        i + sig@.len() <= rom@.len(),
    ensures
        b == occurs_at(rom@, sig@, i as int),
{
    let n: usize = rom.len();
    let mut j: usize = 0;
    while j < sig.len()
        invariant
            n == rom@.len(),
            i + sig@.len() <= n,
            j <= sig@.len(),
            forall|k: int| 0 <= k < j ==> rom@[i + k] == sig@[k],
        decreases sig@.len() - j,
    {
        if rom[i + j] != sig[j] {
            assert(rom@.subrange(i as int, i + sig@.len())[j as int] != sig@[j as int]);
            return false;
        }
        j = j + 1;
    }
    assert(rom@.subrange(i as int, i + sig@.len()) =~= sig@);
    true
}

/// Whether `sig` occurs anywhere in `rom`.
fn contains(rom: &[u8], sig: &[u8]) -> (b: bool)
    ensures
        b == occurs(rom@, sig@),
{
    if sig.len() > rom.len() {
        return false;
    }
    if sig.len() == 0 {
        assert(rom@.subrange(0, 0) =~= sig@);
        assert(occurs_at(rom@, sig@, 0));
        return true;
    }
    let count: usize = rom.len() - sig.len() + 1;
    let mut i: usize = 0;
    while i < count
        invariant
            count == rom@.len() - sig@.len() + 1,
            i <= count,
            forall|k: int| 0 <= k < i ==> !occurs_at(rom@, sig@, k),
        decreases count - i,
    {
        if matches_at(rom, sig, i) {
            return true;
        }
        i = i + 1;
    }
    false
}

/// Scans a ROM image for the ASCII backup-type signature the linker embeds
/// in the binary (such as "FLASH1M_V110"): cartridges have no register that
/// reports their backup chip.
pub fn detect_save_type(rom: &[u8]) -> (t: SaveType)
    ensures
        t == spec_detect_save_type(rom@),
{
    let mut k: usize = 0;
    while k < SIGNATURE_COUNT
        invariant
            k <= SIGNATURE_COUNT,
            spec_detect_from(rom@, k as int) == spec_detect_save_type(rom@),
        decreases SIGNATURE_COUNT - k,
    {
        let sig = signature(k);
        if contains(rom, sig.as_slice()) {
            return signature_type(k);
        }
        k = k + 1;
    }
    SaveType::NoBackup
}

/// The contents of one of the backends.
pub enum SaveView {
    Empty,
    Sram(Seq<u8>),
    Flash(FlashView),
}

impl SaveView {
    pub open spec fn wf(self) -> bool {
        match self {
            SaveView::Empty => true,
            SaveView::Sram(b) => b.len() == SRAM_SIZE,
            SaveView::Flash(f) => f.wf(),
        }
    }

    pub open spec fn spec_save_type(self) -> SaveType {
        match self {
            SaveView::Empty => SaveType::NoBackup,
            SaveView::Sram(_) => SaveType::Sram32K,
            SaveView::Flash(f) => SaveType::Flash(f.size),
        }
    }

    pub open spec fn spec_read(self, offset: usize) -> u8 {
        match self {
            SaveView::Empty => 0xFF,
            SaveView::Sram(b) => b[(offset % SRAM_SIZE) as int],
            SaveView::Flash(f) => f.spec_read(offset),
        }
    }

    pub open spec fn spec_write(self, offset: usize, value: u8) -> SaveView {
        match self {
            SaveView::Empty => SaveView::Empty,
            SaveView::Sram(b) => SaveView::Sram(b.update((offset % SRAM_SIZE) as int, value)),
            SaveView::Flash(f) => SaveView::Flash(f.spec_write(offset, value)),
        }
    }

    pub open spec fn spec_bytes(self) -> Seq<u8> {
        match self {
            SaveView::Empty => Seq::empty(),
            SaveView::Sram(b) => b,
            SaveView::Flash(f) => f.bytes,
        }
    }

    pub open spec fn spec_load(self, data: Seq<u8>) -> SaveView {
        match self {
            SaveView::Empty => SaveView::Empty,
            SaveView::Sram(b) => SaveView::Sram(spec_load_prefix(b, data)),
            SaveView::Flash(f) => SaveView::Flash(
                FlashView { bytes: spec_load_prefix(f.bytes, data), ..f },
            ),
        }
    }
}

/// SRAM reads back what was written, at every offset that mirrors the
/// written one every 32KB, and leaves every other byte alone.
pub proof fn lemma_sram_write_read(b: Seq<u8>, offset: usize, value: u8, other: usize)
    requires
        b.len() == SRAM_SIZE,
    ensures
        other % SRAM_SIZE == offset % SRAM_SIZE ==> SaveView::Sram(b).spec_write(
            offset,
            value,
        ).spec_read(other) == value,
        other % SRAM_SIZE != offset % SRAM_SIZE ==> SaveView::Sram(b).spec_write(
            offset,
            value,
        ).spec_read(other) == SaveView::Sram(b).spec_read(other),
{
}

/// Read/write access to a cartridge's backup memory. SRAM is a flat byte
/// array and Flash needs the AA/55 command protocol; EEPROM has no backend.
#[derive(Debug)]
pub enum SaveBackend {
    NoSave(NoSave),
    Sram(Sram),
    Flash(Flash),
}

impl View for SaveBackend {
    type V = SaveView;

    open spec fn view(&self) -> SaveView {
        match self {
            SaveBackend::NoSave(_) => SaveView::Empty,
            SaveBackend::Sram(s) => SaveView::Sram(s@),
            SaveBackend::Flash(f) => SaveView::Flash(f@),
        }
    }
}

impl SaveBackend {
    pub fn save_type(&self) -> (t: SaveType)
        ensures
            t == self@.spec_save_type(),
    {
        match self {
            SaveBackend::NoSave(_) => SaveType::NoBackup,
            SaveBackend::Sram(_) => SaveType::Sram32K,
            SaveBackend::Flash(f) => SaveType::Flash(f.save_type_size()),
        }
    }

    pub fn read(&self, offset: usize) -> (b: u8)
        requires
            self@.wf(),
        ensures
            b == self@.spec_read(offset),
    {
        match self {
            SaveBackend::NoSave(n) => n.read(offset),
            SaveBackend::Sram(s) => s.read(offset),
            SaveBackend::Flash(f) => f.read(offset),
        }
    }

    pub fn write(&mut self, offset: usize, value: u8)
        requires
            old(self)@.wf(),
        ensures
            final(self)@ == old(self)@.spec_write(offset, value),
            final(self)@.wf(),
    {
        match self {
            SaveBackend::NoSave(n) => n.write(offset, value),
            SaveBackend::Sram(s) => s.write(offset, value),
            SaveBackend::Flash(f) => f.write(offset, value),
        }
    }

    /// Raw contents, for persisting to a `.sav` file, in `read` order.
    pub fn as_bytes(&self) -> (s: &[u8])
        ensures
            s@ == self@.spec_bytes(),
    {
        match self {
            SaveBackend::NoSave(n) => n.as_bytes(),
            SaveBackend::Sram(s) => s.as_bytes(),
            SaveBackend::Flash(f) => f.as_bytes(),
        }
    }

    /// Restores contents obtained from [`Self::as_bytes`]: shorter data
    /// leaves the rest untouched, longer data is truncated.
    pub fn load_bytes(&mut self, data: &[u8])
        requires
            old(self)@.wf(),
        ensures
            final(self)@ == old(self)@.spec_load(data@),
            final(self)@.wf(),
    {
        match self {
            SaveBackend::NoSave(n) => n.load_bytes(data),
            SaveBackend::Sram(s) => s.load_bytes(data),
            SaveBackend::Flash(f) => f.load_bytes(data),
        }
    }
}

/// A fresh backend for `save_type`: SRAM and Flash start erased. EEPROM
/// has no backend.
pub fn build_backend(save_type: SaveType) -> (b: Option<SaveBackend>)
    ensures
        b is None <==> save_type == SaveType::EepromUnknownSize,
        b matches Some(s) ==> s@.wf() && s@.spec_save_type() == save_type && (forall|i: int|
            0 <= i < s@.spec_bytes().len() ==> #[trigger] s@.spec_bytes()[i] == 0xFF),
        b matches Some(s) ==> s@ matches SaveView::Flash(f) ==> f.bank == 0 && f.state
            == crate::cartridge::save::flash::State::Ready,
{
    match save_type {
        SaveType::NoBackup => Some(SaveBackend::NoSave(NoSave)),
        SaveType::Sram32K => Some(SaveBackend::Sram(Sram::new())),
        SaveType::Flash(size) => Some(SaveBackend::Flash(Flash::new(size))),
        SaveType::EepromUnknownSize => None,
    }
}

} // verus!
