use gba_core::cpu::psr;
use gba_core::memory::bus::Bus;
use gba_core::cpu::psr::C;
use gba_core::cpu::registers::Registers;
use gba_core::bios::cpu_fast_set;
use gba_core::bios::cpu_set;
use gba_core::bios::div;
use gba_core::bios::lz77_decompress;
use gba_core::bios::register_ram_reset;
use gba_core::bios::sqrt;

use gba_core::cartridge::{Cartridge, HEADER_SIZE};

fn test_bus() -> Bus {
    let rom = vec![0u8; HEADER_SIZE + 16];
    Bus::new(Cartridge::load(rom).unwrap())
}

#[test]
fn div_computes_quotient_remainder_and_abs() {
    let mut regs = Registers::reset();
    regs.set_r(0, (-7i32) as u32);
    regs.set_r(1, 2);
    div(&mut regs, false);
    assert_eq!(regs.r(0) as i32, -3);
    assert_eq!(regs.r(1) as i32, -1);
    assert_eq!(regs.r(3), 3);
}

#[test]
fn div_arm_swaps_operand_order() {
    let mut regs = Registers::reset();
    regs.set_r(0, 2); // denominator in the swapped convention
    regs.set_r(1, 10); // numerator
    div(&mut regs, true);
    assert_eq!(regs.r(0), 5);
}

#[test]
fn div_by_zero_does_not_panic() {
    let mut regs = Registers::reset();
    regs.set_r(0, 5);
    regs.set_r(1, 0);
    div(&mut regs, false);
}

#[test]
fn sqrt_computes_integer_root() {
    let mut regs = Registers::reset();
    regs.set_r(0, 100);
    sqrt(&mut regs);
    assert_eq!(regs.r(0), 10);
}

#[test]
fn cpu_set_copies_words() {
    let mut bus = test_bus();
    bus.write32(0x0300_0000, 0xAABBCCDD);
    bus.write32(0x0300_0004, 0x11223344);

    let mut regs = Registers::reset();
    regs.set_r(0, 0x0300_0000);
    regs.set_r(1, 0x0300_1000);
    regs.set_r(2, 2 | 0x0400_0000); // count=2, 32-bit
    cpu_set(&regs, &mut bus);

    assert_eq!(bus.read32(0x0300_1000), 0xAABBCCDD);
    assert_eq!(bus.read32(0x0300_1004), 0x11223344);
}

#[test]
fn cpu_set_fixed_source_repeats_the_same_word() {
    let mut bus = test_bus();
    bus.write32(0x0300_0000, 0x5555_5555);

    let mut regs = Registers::reset();
    regs.set_r(0, 0x0300_0000);
    regs.set_r(1, 0x0300_1000);
    regs.set_r(2, 3 | 0x0100_0000 | 0x0400_0000); // count=3, fixed source, 32-bit
    cpu_set(&regs, &mut bus);

    assert_eq!(bus.read32(0x0300_1000), 0x5555_5555);
    assert_eq!(bus.read32(0x0300_1004), 0x5555_5555);
    assert_eq!(bus.read32(0x0300_1008), 0x5555_5555);
}

#[test]
fn cpu_fast_set_copies_words() {
    let mut bus = test_bus();
    bus.write32(0x0300_0000, 0x1234_5678);

    let mut regs = Registers::reset();
    regs.set_r(0, 0x0300_0000);
    regs.set_r(1, 0x0300_1000);
    regs.set_r(2, 1);
    cpu_fast_set(&regs, &mut bus);

    assert_eq!(bus.read32(0x0300_1000), 0x1234_5678);
}

#[test]
fn register_ram_reset_clears_only_the_requested_regions() {
    let mut bus = test_bus();
    bus.write8(0x0200_0000, 0xFF); // EWRAM
    bus.write8(0x0300_0000, 0xFF); // IWRAM
    bus.ppu_mut().palette_mut()[0] = 0xFF;

    let mut regs = Registers::reset();
    regs.set_r(0, 0x01); // EWRAM only
    register_ram_reset(&regs, &mut bus);

    assert_eq!(bus.read8(0x0200_0000), 0);
    assert_eq!(bus.read8(0x0300_0000), 0xFF, "IWRAM flag wasn't set");
    assert_eq!(bus.ppu().palette()[0], 0xFF, "palette flag wasn't set");
}

#[test]
fn register_ram_reset_preserves_the_top_of_iwram() {
    let mut bus = test_bus();
    let preserved_addr = 0x0300_0000 + 0x8000 - 0x100; // within the preserved top 0x200
    bus.write8(preserved_addr, 0xAB);
    bus.write8(0x0300_0000, 0xFF); // well below the preserved area

    let mut regs = Registers::reset();
    regs.set_r(0, 0x02); // IWRAM
    register_ram_reset(&regs, &mut bus);

    assert_eq!(bus.read8(0x0300_0000), 0, "the bulk of IWRAM must be cleared");
    assert_eq!(bus.read8(preserved_addr), 0xAB, "the top 0x200 bytes must survive a reset");
}

#[test]
fn lz77_decompress_expands_literals_and_back_references() {
    let mut bus = test_bus();
    // Source lives in IWRAM (ROM is read-only on the bus). Header:
    // type 0x10, decompressed size = 6. Stream: 3 literal bytes "ABC",
    // then a back-reference (length=3, disp=3) that re-copies them,
    // producing "ABCABC".
    let source = 0x0300_0000u32;
    let dest = 0x0300_1000u32;
    bus.write32(source, 0x10 | (6 << 8));
    bus.write8(source + 4, 0b0001_0000); // bits: literal,literal,literal,reference,...
    bus.write8(source + 5, b'A');
    bus.write8(source + 6, b'B');
    bus.write8(source + 7, b'C');
    // Reference: length=3 (encoded as 0), disp=3 (encoded as 2).
    bus.write8(source + 8, 0x00); // (length-3)<<4 | high nibble of (disp-1) = 0<<4|0
    bus.write8(source + 9, 0x02); // low byte of (disp-1) = 2 -> disp=3

    lz77_decompress(&mut bus, source, dest);

    let mut out = [0u8; 6];
    for (i, byte) in out.iter_mut().enumerate() {
        *byte = bus.read8(dest + i as u32);
    }
    assert_eq!(&out, b"ABCABC");
}
