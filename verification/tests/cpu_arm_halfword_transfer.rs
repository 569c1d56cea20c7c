use gba_core::cpu::registers::Registers;
use gba_core::cpu::arm::halfword_transfer::execute;

use gba_core::cartridge::{Cartridge, HEADER_SIZE};
use gba_core::memory::Bus;

fn test_bus() -> Bus {
    Bus::new(Cartridge::load(vec![0u8; HEADER_SIZE + 16]).unwrap())
}

fn encode(load: bool, signed: bool, half: bool, pre: bool, add: bool, imm_offset: bool, writeback: bool, rn: u32, rd: u32, offset: u32) -> u32 {
    let (hi, lo) = ((offset >> 4) & 0xF, offset & 0xF);
    (0xE << 28) | ((pre as u32) << 24) | ((add as u32) << 23) | ((imm_offset as u32) << 22)
        | ((writeback as u32) << 21) | ((load as u32) << 20) | (rn << 16) | (rd << 12)
        | (hi << 8) | (1 << 7) | ((signed as u32) << 6) | ((half as u32) << 5) | (1 << 4) | lo
}

#[test]
fn ldrh_and_strh_roundtrip() {
    let mut bus = test_bus();
    let mut regs = Registers::reset();
    regs.set_r(0, 0x0300_0000);
    regs.set_r(1, 0xBEEF);

    let strh = encode(false, false, true, true, true, true, false, 0, 1, 0);
    execute(&mut regs, &mut bus, strh, 0);
    assert_eq!(bus.read16(0x0300_0000), 0xBEEF);

    let ldrh = encode(true, false, true, true, true, true, false, 0, 2, 0);
    execute(&mut regs, &mut bus, ldrh, 0);
    assert_eq!(regs.r(2), 0xBEEF);
}

#[test]
fn ldrsb_sign_extends() {
    let mut bus = test_bus();
    bus.write8(0x0300_0000, 0x80); // -128 as i8
    let mut regs = Registers::reset();
    regs.set_r(0, 0x0300_0000);

    let op = encode(true, true, false, true, true, true, false, 0, 1, 0);
    execute(&mut regs, &mut bus, op, 0);
    assert_eq!(regs.r(1), 0xFFFF_FF80);
}

#[test]
fn ldrsh_sign_extends_when_aligned() {
    let mut bus = test_bus();
    bus.write16(0x0300_0000, 0x8000); // negative i16
    let mut regs = Registers::reset();
    regs.set_r(0, 0x0300_0000);

    let op = encode(true, true, true, true, true, true, false, 0, 1, 0);
    execute(&mut regs, &mut bus, op, 0);
    assert_eq!(regs.r(1), 0xFFFF_8000);
}

#[test]
fn ldrsh_misaligned_degrades_to_signed_byte_read() {
    let mut bus = test_bus();
    bus.write8(0x0300_0001, 0x80); // the byte at the odd address
    let mut regs = Registers::reset();
    regs.set_r(0, 0x0300_0001);

    let op = encode(true, true, true, true, true, true, false, 0, 1, 0);
    execute(&mut regs, &mut bus, op, 0);
    assert_eq!(regs.r(1), 0xFFFF_FF80, "GBA quirk: misaligned LDRSH reads a signed byte");
}

#[test]
fn ldrh_misaligned_rotates() {
    let mut bus = test_bus();
    bus.write16(0x0300_0000, 0x1234);
    let mut regs = Registers::reset();
    regs.set_r(0, 0x0300_0001);

    let op = encode(true, false, true, true, true, true, false, 0, 1, 0);
    execute(&mut regs, &mut bus, op, 0);
    // The rotate happens within the 16-bit halfword (byte swap), which
    // is what brings the actually-addressed byte to the LSB — same
    // principle as LDR's word rotate — before zero-extending to 32 bits.
    assert_eq!(regs.r(1), 0x1234u16.rotate_right(8) as u32);
}
