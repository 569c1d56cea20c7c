use gba_core::cpu::registers::Registers;
use gba_core::cpu::arm::single_transfer::execute;

use gba_core::cartridge::{Cartridge, HEADER_SIZE};
use gba_core::memory::Bus;

fn test_bus() -> Bus {
    Bus::new(Cartridge::load(vec![0u8; HEADER_SIZE + 16]).unwrap())
}

fn encode(load: bool, byte: bool, pre: bool, add: bool, writeback: bool, rn: u32, rd: u32, imm12: u32) -> u32 {
    (0xE << 28) | (0b01 << 26) | ((pre as u32) << 24) | ((add as u32) << 23) | ((byte as u32) << 22)
        | ((writeback as u32) << 21) | ((load as u32) << 20) | (rn << 16) | (rd << 12) | imm12
}

#[test]
fn ldr_pre_indexed_with_writeback() {
    let mut bus = test_bus();
    bus.write32(0x0300_0010, 0xCAFEBABE);
    let mut regs = Registers::reset();
    regs.set_r(0, 0x0300_0000);

    let op = encode(true, false, true, true, true, 0, 1, 0x10);
    let (_, pc_written) = execute(&mut regs, &mut bus, op, 0);

    assert_eq!(regs.r(1), 0xCAFEBABE);
    assert_eq!(regs.r(0), 0x0300_0010, "base written back on pre-index with W=1");
    assert!(!pc_written);
}

#[test]
fn str_post_indexed_always_writes_back() {
    let mut bus = test_bus();
    let mut regs = Registers::reset();
    regs.set_r(0, 0x0300_0000);
    regs.set_r(1, 0x1234_5678);

    let op = encode(false, false, false, true, false, 0, 1, 4);
    execute(&mut regs, &mut bus, op, 0);

    assert_eq!(bus.read32(0x0300_0000), 0x1234_5678, "store uses the base, not base+offset");
    assert_eq!(regs.r(0), 0x0300_0004, "post-index always writes back");
}

#[test]
fn ldrb_zero_extends() {
    let mut bus = test_bus();
    bus.write8(0x0300_0000, 0xFF);
    let mut regs = Registers::reset();
    regs.set_r(0, 0x0300_0000);

    let op = encode(true, true, true, true, false, 0, 1, 0);
    execute(&mut regs, &mut bus, op, 0);
    assert_eq!(regs.r(1), 0xFF, "byte load must not sign-extend");
}

#[test]
fn unaligned_ldr_word_rotates() {
    let mut bus = test_bus();
    bus.write32(0x0300_0000, 0x1122_3344);
    let mut regs = Registers::reset();
    regs.set_r(0, 0x0300_0001); // unaligned by 1

    let op = encode(true, false, true, true, false, 0, 1, 0);
    execute(&mut regs, &mut bus, op, 0);
    assert_eq!(regs.r(1), 0x1122_3344u32.rotate_right(8));
}

#[test]
fn str_pc_stores_instruction_address_plus_12() {
    let mut bus = test_bus();
    let mut regs = Registers::reset();
    regs.set_r(0, 0x0300_0000);

    let op = encode(false, false, true, true, false, 0, 15, 0);
    execute(&mut regs, &mut bus, op, 0x0800_1000);
    assert_eq!(bus.read32(0x0300_0000), 0x0800_1000 + 12);
}
