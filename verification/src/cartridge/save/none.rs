//! The backend of a cartridge with no backup memory.
use vstd::prelude::*;

verus! {

/// Reads return 0xFF; writes are discarded.
#[derive(Debug, Default, Clone, Copy)]
pub struct NoSave;

impl NoSave {
    pub fn read(&self, offset: usize) -> (b: u8)
        ensures
            b == 0xFF,
    {
        0xFF
    }

    pub fn write(&mut self, offset: usize, value: u8) {
    }

    pub fn as_bytes(&self) -> (s: &[u8])
        ensures
            s@.len() == 0,
    {
        &[]
    }

    pub fn load_bytes(&mut self, data: &[u8]) {
    }
}

} // verus!
