use gba_core::cpu::registers::Registers;
use gba_core::cpu::thumb::load_store::halfword;
use gba_core::cpu::thumb::load_store::immediate_offset;
use gba_core::cpu::thumb::load_store::pc_relative_load;
use gba_core::cpu::thumb::load_store::register_offset;
use gba_core::cpu::thumb::load_store::sign_extended;

use gba_core::cartridge::{Cartridge, HEADER_SIZE};
use gba_core::memory::Bus;

fn test_bus() -> Bus {
    Bus::new(Cartridge::load(vec![0u8; HEADER_SIZE + 16]).unwrap())
}

#[test]
fn pc_relative_load_word_aligns_pc_and_scales_offset() {
    let mut bus = test_bus();
    // IWRAM, not the 0x0000xxxx BIOS range — that's read-only, so a
    // write there would silently no-op and this test would read back 0.
    bus.write32(0x0300_0008, 0xCAFEBABE);
    let mut regs = Registers::reset();
    // LDR r0, [PC, #4]; instr at ...0002 (odd word-align case: +4 -> ...0006, &!3 -> ...0004, +4 -> ...0008)
    let op = (0b01001 << 11) | (0 << 8) | 1u16; // word8=1 -> offset 4
    pc_relative_load(&mut regs, &mut bus, op, 0x0300_0002);
    assert_eq!(regs.r(0), 0xCAFEBABE);
}

#[test]
fn register_offset_ldr_and_str_roundtrip() {
    let mut bus = test_bus();
    let mut regs = Registers::reset();
    regs.set_r(1, 0x0300_0000); // Rb
    regs.set_r(2, 4); // Ro
    regs.set_r(3, 0x1234_5678); // value

    // STR r3, [r1, r2]
    let str_op = (0b0101 << 12) | (0 << 11) | (0 << 10) | (0 << 9) | (2 << 6) | (1 << 3) | 3;
    register_offset(&mut regs, &mut bus, str_op);
    assert_eq!(bus.read32(0x0300_0004), 0x1234_5678);

    // LDR r0, [r1, r2]
    let ldr_op = (0b0101 << 12) | (1 << 11) | (0 << 10) | (0 << 9) | (2 << 6) | (1 << 3) | 0;
    register_offset(&mut regs, &mut bus, ldr_op);
    assert_eq!(regs.r(0), 0x1234_5678);
}

#[test]
fn sign_extended_ldsb_and_ldsh() {
    let mut bus = test_bus();
    bus.write8(0x0300_0000, 0x80);
    bus.write16(0x0300_0002, 0x8000);
    let mut regs = Registers::reset();
    regs.set_r(1, 0x0300_0000);
    regs.set_r(2, 0);

    let ldsb = (0b0101 << 12) | (0 << 11) | (1 << 10) | (1 << 9) | (2 << 6) | (1 << 3) | 0;
    sign_extended(&mut regs, &mut bus, ldsb);
    assert_eq!(regs.r(0), 0xFFFF_FF80);

    regs.set_r(2, 2);
    let ldsh = (0b0101 << 12) | (1 << 11) | (1 << 10) | (1 << 9) | (2 << 6) | (1 << 3) | 4;
    sign_extended(&mut regs, &mut bus, ldsh);
    assert_eq!(regs.r(4), 0xFFFF_8000);
}

#[test]
fn immediate_offset_scales_by_4_for_words_and_not_for_bytes() {
    let mut bus = test_bus();
    bus.write32(0x0300_0008, 0xAABBCCDD);
    bus.write8(0x0300_001F, 0x11); // separate address: must not overlap the word above
    let mut regs = Registers::reset();
    regs.set_r(1, 0x0300_0000);

    // LDR r0, [r1, #8]  (offset5=2 -> 2*4=8)
    let ldr = (0b011 << 13) | (0 << 12) | (1 << 11) | (2 << 6) | (1 << 3) | 0;
    immediate_offset(&mut regs, &mut bus, ldr);
    assert_eq!(regs.r(0), 0xAABBCCDD);

    // LDRB r2, [r1, #31] (offset5=31, byte -> literal 31)
    let ldrb = (0b011 << 13) | (1 << 12) | (1 << 11) | (31 << 6) | (1 << 3) | 2;
    immediate_offset(&mut regs, &mut bus, ldrb);
    assert_eq!(regs.r(2), 0x11);
}

#[test]
fn halfword_format_scales_by_2() {
    let mut bus = test_bus();
    let mut regs = Registers::reset();
    regs.set_r(1, 0x0300_0000);
    regs.set_r(2, 0xBEEF);

    // STRH r2, [r1, #6] (offset5=3 -> 3*2=6)
    let strh = (0b1000 << 12) | (0 << 11) | (3 << 6) | (1 << 3) | 2;
    halfword(&mut regs, &mut bus, strh);
    assert_eq!(bus.read16(0x0300_0006), 0xBEEF);

    let ldrh = (0b1000 << 12) | (1 << 11) | (3 << 6) | (1 << 3) | 4;
    halfword(&mut regs, &mut bus, ldrh);
    assert_eq!(regs.r(4), 0xBEEF);
}
