//! CPSR/SPSR bit masks (ARM7TDMI Program Status Register layout).
use vstd::prelude::*;

verus! {

/// Negative flag.
pub const N: u32 = 0x8000_0000;
/// Zero flag.
pub const Z: u32 = 0x4000_0000;
/// Carry flag.
pub const C: u32 = 0x2000_0000;
/// Overflow flag.
pub const V: u32 = 0x1000_0000;
/// IRQ disable.
pub const I: u32 = 0x0000_0080;
/// FIQ disable.
pub const F: u32 = 0x0000_0040;
/// Thumb state.
pub const T: u32 = 0x0000_0020;
/// Mode field.
pub const MODE_MASK: u32 = 0x1F;

} // verus!
