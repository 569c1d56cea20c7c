use gba_core::cpu::registers::Registers;
use gba_core::cpu::thumb::block::execute;

use gba_core::cartridge::{Cartridge, HEADER_SIZE};
use gba_core::memory::Bus;

fn test_bus() -> Bus {
    Bus::new(Cartridge::load(vec![0u8; HEADER_SIZE + 16]).unwrap())
}

#[test]
fn block_stmia_then_ldmia_roundtrip() {
    let mut bus = test_bus();
    let mut regs = Registers::reset();
    regs.set_r(0, 0x0300_0000);
    regs.set_r(1, 0xAAAA_AAAA);
    regs.set_r(2, 0xBBBB_BBBB);

    // STMIA r0!, {r1, r2}
    let stm = (0b1100 << 12) | (0 << 11) | (0 << 8) | 0b0000_0110u16;
    execute(&mut regs, &mut bus, stm);
    assert_eq!(regs.r(0), 0x0300_0008);
    assert_eq!(bus.read32(0x0300_0000), 0xAAAA_AAAA);
    assert_eq!(bus.read32(0x0300_0004), 0xBBBB_BBBB);

    regs.set_r(3, 0x0300_0000);
    // LDMIA r3!, {r4, r5}
    let ldm = (0b1100 << 12) | (1 << 11) | (3 << 8) | 0b0011_0000u16;
    execute(&mut regs, &mut bus, ldm);
    assert_eq!(regs.r(4), 0xAAAA_AAAA);
    assert_eq!(regs.r(5), 0xBBBB_BBBB);
    assert_eq!(regs.r(3), 0x0300_0008);
}

#[test]
fn ldmia_with_base_in_list_keeps_the_loaded_value() {
    let mut bus = test_bus();
    bus.write32(0x0300_0000, 0xDEAD_BEEF);
    let mut regs = Registers::reset();
    regs.set_r(0, 0x0300_0000);

    let ldm = (0b1100 << 12) | (1 << 11) | (0 << 8) | 0b0000_0001u16; // LDMIA r0!, {r0}
    execute(&mut regs, &mut bus, ldm);
    assert_eq!(regs.r(0), 0xDEAD_BEEF);
}
