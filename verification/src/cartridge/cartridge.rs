//! A loaded cartridge: ROM bytes, the parsed header, and the backup memory
//! backend matching the save-type signature in the ROM. GBA ROM is
//! flat-mapped with no bank switching, so the backup chip is the only
//! per-cartridge variation.
use vstd::prelude::*;
use crate::cartridge::header::{GbaHeader, HeaderError, HEADER_SIZE};
use crate::cartridge::save::{
    SaveBackend, SaveType, SaveView, build_backend, detect_save_type, spec_detect_save_type,
};

verus! {

#[derive(Debug)]
pub enum CartridgeError {
    Header(HeaderError),
    /// The detected save type has no backend (EEPROM).
    UnsupportedSaveType(SaveType),
}

#[derive(Debug)]
pub struct Cartridge {
    rom: Vec<u8>,
    header: GbaHeader,
    save: SaveBackend,
}

impl Cartridge {
    pub closed spec fn spec_rom(&self) -> Seq<u8> {
        self.rom@
    }

    pub closed spec fn spec_header(&self) -> GbaHeader {
        self.header
    }

    pub closed spec fn spec_save(&self) -> SaveView {
        self.save@
    }

    pub open spec fn wf(&self) -> bool {
        self.spec_save().wf()
    }

    /// Parses the header and builds the backup backend the ROM's signature
    /// asks for. Fails on a ROM too small for a header, or on an EEPROM
    /// signature, which has no backend.
    pub fn load(rom: Vec<u8>) -> (r: Result<Self, CartridgeError>)
        ensures
            rom@.len() < HEADER_SIZE <==> r matches Err(CartridgeError::Header(_)),
            r matches Err(CartridgeError::Header(e)) ==> e == (HeaderError::RomTooSmall {
                actual: rom@.len() as usize,
                required: HEADER_SIZE,
            }),
            (rom@.len() >= HEADER_SIZE && spec_detect_save_type(rom@)
                == SaveType::EepromUnknownSize) <==> r matches Err(
                CartridgeError::UnsupportedSaveType(_),
            ),
            r matches Err(CartridgeError::UnsupportedSaveType(t)) ==> t
                == SaveType::EepromUnknownSize,
            r matches Ok(c) ==> {
                &&& c.wf()
                &&& c.spec_rom() == rom@
                &&& c.spec_header().parsed_from(rom@)
                &&& c.spec_save().spec_save_type() == spec_detect_save_type(rom@)
                &&& forall|i: int|
                    0 <= i < c.spec_save().spec_bytes().len() ==> #[trigger] c.spec_save().spec_bytes()[i]
                        == 0xFF
            },
    {
        let header = match GbaHeader::parse(rom.as_slice()) {
            Ok(h) => h,
            Err(e) => {
                return Err(CartridgeError::Header(e));
            },
        };
        let save_type = detect_save_type(rom.as_slice());
        let save = match build_backend(save_type) {
            Some(s) => s,
            None => {
                return Err(CartridgeError::UnsupportedSaveType(save_type));
            },
        };
        Ok(Cartridge { rom, header, save })
    }

    pub fn header(&self) -> (h: &GbaHeader)
        ensures
            *h == self.spec_header(),
    {
        &self.header
    }

    pub fn save_type(&self) -> (t: SaveType)
        ensures
            t == self.spec_save().spec_save_type(),
    {
        self.save.save_type()
    }

    pub fn rom_size(&self) -> (n: usize)
        ensures
            n == self.spec_rom().len(),
    {
        self.rom.len()
    }

    /// The ROM byte at `offset`; past the end of the image this reads 0
    /// (open-bus data would need the full bus address).
    pub fn read_rom_byte(&self, offset: usize) -> (b: u8)
        ensures
            b == if offset < self.spec_rom().len() {
                self.spec_rom()[offset as int]
            } else {
                0
            },
    {
        if offset < self.rom.len() {
            self.rom[offset]
        } else {
            0
        }
    }

    pub fn read_save_byte(&self, offset: usize) -> (b: u8)
        requires
            self.wf(),
        ensures
            b == self.spec_save().spec_read(offset),
    {
        self.save.read(offset)
    }

    pub fn write_save_byte(&mut self, offset: usize, value: u8)
        requires
            old(self).wf(),
        ensures
            final(self).spec_save() == old(self).spec_save().spec_write(offset, value),
            final(self).spec_rom() == old(self).spec_rom(),
            final(self).spec_header() == old(self).spec_header(),
            final(self).wf(),
    {
        self.save.write(offset, value);
    }

    /// The raw backup memory, for persisting to a `.sav` file.
    pub fn save_bytes(&self) -> (s: &[u8])
        ensures
            s@ == self.spec_save().spec_bytes(),
    {
        self.save.as_bytes()
    }

    /// Restores backup memory obtained from [`Self::save_bytes`].
    pub fn load_save_bytes(&mut self, data: &[u8])
        requires
            old(self).wf(),
        ensures
            final(self).spec_save() == old(self).spec_save().spec_load(data@),
            final(self).spec_rom() == old(self).spec_rom(),
            final(self).spec_header() == old(self).spec_header(),
            final(self).wf(),
    {
        self.save.load_bytes(data);
    }
}

} // verus!
