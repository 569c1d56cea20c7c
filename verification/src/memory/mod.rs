//! Byte/halfword/word access to the address bus.
use vstd::prelude::*;

pub mod bus;

pub use bus::Bus;

verus! {

/// Byte/halfword/word access to the address bus. Exists as a trait (rather
/// than making every consumer depend on the concrete `Bus`) so the CPU can
/// be exercised against a small in-memory fake instead of a full
/// `Bus` + `Cartridge`. Each access is described by a function of the
/// memory's model: reads by the value they return, writes by the model
/// they leave behind.
pub trait Memory: View + Sized {
    /// The memory's invariant, which every access keeps.
    spec fn inv(m: Self::V) -> bool;

    spec fn spec_read8(m: Self::V, addr: u32) -> u8;

    spec fn spec_read16(m: Self::V, addr: u32) -> u16;

    spec fn spec_read32(m: Self::V, addr: u32) -> u32;

    spec fn spec_write8(m: Self::V, addr: u32, value: u8) -> Self::V;

    spec fn spec_write16(m: Self::V, addr: u32, value: u16) -> Self::V;

    spec fn spec_write32(m: Self::V, addr: u32, value: u32) -> Self::V;

    fn read8(&self, addr: u32) -> (r: u8)
        requires
            Self::inv(self@),
        ensures
            r == Self::spec_read8(self@, addr),
    ;

    fn write8(&mut self, addr: u32, value: u8)
        requires
            Self::inv(old(self)@),
        ensures
            Self::inv(final(self)@),
            final(self)@ == Self::spec_write8(old(self)@, addr, value),
    ;

    fn read16(&self, addr: u32) -> (r: u16)
        requires
            Self::inv(self@),
        ensures
            r == Self::spec_read16(self@, addr),
    ;

    fn write16(&mut self, addr: u32, value: u16)
        requires
            Self::inv(old(self)@),
        ensures
            Self::inv(final(self)@),
            final(self)@ == Self::spec_write16(old(self)@, addr, value),
    ;

    fn read32(&self, addr: u32) -> (r: u32)
        requires
            Self::inv(self@),
        ensures
            r == Self::spec_read32(self@, addr),
    ;

    fn write32(&mut self, addr: u32, value: u32)
        requires
            Self::inv(old(self)@),
        ensures
            Self::inv(final(self)@),
            final(self)@ == Self::spec_write32(old(self)@, addr, value),
    ;
}

} // verus!
