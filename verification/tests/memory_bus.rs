use gba_core::memory::bus::Bus;
use gba_core::cartridge::cartridge::Cartridge;
use gba_core::memory::bus::EWRAM_SIZE;
use gba_core::memory::bus::IWRAM_SIZE;

use gba_core::cartridge::HEADER_SIZE;

fn test_bus() -> Bus {
    let rom = vec![0u8; HEADER_SIZE + 16];
    Bus::new(Cartridge::load(rom).unwrap())
}

#[test]
fn ewram_read_write_and_mirroring() {
    let mut bus = test_bus();
    bus.write8(0x0200_1234, 0xAB);
    assert_eq!(bus.read8(0x0200_1234), 0xAB);
    assert_eq!(
        bus.read8(0x0200_1234 + EWRAM_SIZE as u32),
        0xAB,
        "EWRAM mirrors every 256KB"
    );
}

#[test]
fn iwram_read_write_and_mirroring() {
    let mut bus = test_bus();
    bus.write8(0x0300_0010, 0x7A);
    assert_eq!(bus.read8(0x0300_0010), 0x7A);
    assert_eq!(
        bus.read8(0x0300_0010 + IWRAM_SIZE as u32),
        0x7A,
        "IWRAM mirrors every 32KB"
    );
}

#[test]
fn bios_is_zero_until_loaded_and_ignores_writes() {
    let mut bus = test_bus();
    assert_eq!(bus.read8(0x0000_0010), 0);
    bus.write8(0x0000_0010, 0xFF);
    assert_eq!(bus.read8(0x0000_0010), 0, "BIOS is read-only");

    bus.load_bios(&[0x11, 0x22, 0x33]);
    assert_eq!(bus.read8(0x0000_0000), 0x11);
    assert_eq!(bus.read8(0x0000_0002), 0x33);
}

#[test]
fn io_read_write_roundtrip_and_out_of_range_is_open_bus() {
    let mut bus = test_bus();
    // 0xB0 = a DMA transfer register (DMA0SAD): no general DMA
    // controller exists yet, so it's still a plain placeholder byte.
    bus.write8(0x0400_00B0, 0x5A);
    assert_eq!(bus.read8(0x0400_00B0), 0x5A);
    assert_eq!(bus.read8(0x0400_0FFF), 0, "past the placeholder I/O block");
}

#[test]
fn ppu_lcd_registers_route_through_the_bus_to_the_ppu() {
    let mut bus = test_bus();
    bus.write16(0x0400_0000, 0x0403); // DISPCNT: mode 3, BG2 not yet enabled here
    assert_eq!(bus.ppu().dispcnt(), 0x0403);
    assert_eq!(bus.ppu().bg_mode(), 3);
}

#[test]
fn keyinput_is_readable_through_the_bus_and_reflects_pressed_buttons() {
    let mut bus = test_bus();
    assert_eq!(bus.read16(0x0400_0130), 0xFFFF, "every button starts released");

    bus.joypad_mut().press(gba_core::joypad::Button::A);
    assert_eq!(bus.read16(0x0400_0130) & 0x01, 0, "A's bit goes low when held");

    bus.write16(0x0400_0130, 0x0000); // KEYINPUT is read-only
    assert_eq!(bus.read16(0x0400_0130) & 0x01, 0, "write must not un-press A");
}

#[test]
fn timer_registers_route_through_the_bus() {
    let mut bus = test_bus();
    bus.write16(0x0400_0100, 0xFFF0); // TM0CNT_L reload
    bus.write16(0x0400_0102, 0x0080); // TM0CNT_H: enable, prescaler=1
    assert_eq!(bus.read16(0x0400_0100), 0xFFF0, "enabling loads the counter immediately");

    bus.timers_mut().tick(4);
    assert_eq!(bus.read16(0x0400_0100), 0xFFF4);
}

#[test]
fn interrupt_registers_route_through_the_bus() {
    let mut bus = test_bus();
    bus.write16(0x0400_0200, 0x0001); // IE: VBlank
    bus.write16(0x0400_0208, 0x0001); // IME on
    assert_eq!(bus.read16(0x0400_0200), 0x0001);
    assert_eq!(bus.read16(0x0400_0208), 0x0001);

    assert!(!bus.interrupts().pending());
    bus.interrupts_mut().request(gba_core::interrupts::InterruptSource::VBlank);
    assert!(bus.interrupts().pending());
    assert_eq!(bus.read16(0x0400_0202) & 0x01, 0x01, "IF must reflect the pending request");

    bus.write16(0x0400_0202, 0x0001); // acknowledge
    assert!(!bus.interrupts().pending());
}

#[test]
fn apu_registers_route_through_the_bus() {
    let mut bus = test_bus();
    bus.write8(0x0400_0090, 0xAB); // wave RAM byte 0
    assert_eq!(bus.read8(0x0400_0090), 0xAB);

    bus.write8(0x0400_0084, 0x80); // SOUNDCNT_X: master enable
    assert_eq!(bus.read8(0x0400_0084) & 0x80, 0x80);
}

#[test]
fn immediate_dma_fires_the_instant_control_h_arms_it() {
    let mut bus = test_bus();
    bus.write32(0x0300_0000, 0x1122_3344); // source word in IWRAM
    bus.write32(0x0400_00B0, 0x0300_0000); // DMA0SAD
    bus.write32(0x0400_00B4, 0x0300_1000); // DMA0DAD
    bus.write16(0x0400_00B8, 1); // DMA0CNT_L: 1 unit
    bus.write16(0x0400_00BA, 0x8400); // DMA0CNT_H: enable, 32-bit, immediate

    assert_eq!(bus.read32(0x0300_1000), 0x1122_3344, "transfer must run synchronously on arm");
    assert_eq!(bus.read16(0x0400_00BA) & 0x8000, 0, "non-repeat channel must auto-disable after firing");
}

#[test]
fn dma_with_fixed_source_control_repeats_the_same_word() {
    let mut bus = test_bus();
    bus.write32(0x0300_0000, 0xCAFE_BABE);
    bus.write32(0x0400_00B0, 0x0300_0000); // SAD
    bus.write32(0x0400_00B4, 0x0300_2000); // DAD
    bus.write16(0x0400_00B8, 3); // 3 units
    // control: enable, 32-bit, immediate, src=Fixed(0b10 at bits 7-8), dest=Increment(0)
    bus.write16(0x0400_00BA, 0x8400 | (0b10 << 7));

    assert_eq!(bus.read32(0x0300_2000), 0xCAFE_BABE);
    assert_eq!(bus.read32(0x0300_2004), 0xCAFE_BABE);
    assert_eq!(bus.read32(0x0300_2008), 0xCAFE_BABE);
}

#[test]
fn dma_irq_enable_requests_the_matching_interrupt_source() {
    let mut bus = test_bus();
    bus.write16(0x0400_0200, 0x0100); // IE: DMA0 (bit8)
    bus.write16(0x0400_0208, 0x0001); // IME on
    bus.write32(0x0400_00B0, 0x0300_0000);
    bus.write32(0x0400_00B4, 0x0300_1000);
    bus.write16(0x0400_00B8, 1);
    bus.write16(0x0400_00BA, 0x8400 | 0x4000); // enable, 32-bit, immediate, IRQ enable

    assert!(bus.interrupts().pending(), "DMA0's completion IRQ must be requested");
}

#[test]
fn vblank_triggers_an_armed_dma_channel() {
    let mut bus = test_bus();
    bus.write32(0x0300_0000, 0x9999_9999);
    bus.write32(0x0400_00B0, 0x0300_0000);
    bus.write32(0x0400_00B4, 0x0300_3000);
    bus.write16(0x0400_00B8, 1);
    bus.write16(0x0400_00BA, 0x9400); // enable, 32-bit, VBlank timing
    assert_eq!(bus.read32(0x0300_3000), 0, "must not fire until VBlank actually occurs");

    bus.trigger_dma_for_timing(1);
    assert_eq!(bus.read32(0x0300_3000), 0x9999_9999);
}

#[test]
fn keycnt_is_writable_through_the_bus() {
    let mut bus = test_bus();
    bus.write16(0x0400_0132, 0xC003); // select A+B, IRQ enable, AND mode
    assert_eq!(bus.read16(0x0400_0132), 0xC003);
}

#[test]
fn palette_byte_write_duplicates_across_the_halfword() {
    let mut bus = test_bus();
    bus.write8(0x0500_0000, 0x3C);
    assert_eq!(bus.read16(0x0500_0000), 0x3C3C);
}

#[test]
fn oam_byte_writes_are_ignored() {
    let mut bus = test_bus();
    bus.write16(0x0700_0000, 0x1234);
    bus.write8(0x0700_0000, 0xFF);
    assert_eq!(
        bus.read16(0x0700_0000),
        0x1234,
        "OAM cannot be byte-written on real hardware"
    );
}

#[test]
fn vram_byte_write_duplicates_and_mirrors_past_96kb() {
    let mut bus = test_bus();
    bus.write8(0x0601_0005, 0x77);
    assert_eq!(bus.read16(0x0601_0004), 0x7777);

    // 0x06018000..0x06020000 mirrors 0x06010000..0x06018000, not the
    // whole 96KB region.
    assert_eq!(bus.read8(0x0601_8005), 0x77);
}

#[test]
fn rom_is_mirrored_across_all_three_wait_state_windows() {
    let mut rom = vec![0u8; HEADER_SIZE + 16];
    rom[HEADER_SIZE] = 0x42;
    let bus = Bus::new(Cartridge::load(rom).unwrap());

    let offset = HEADER_SIZE as u32;
    assert_eq!(bus.read8(0x0800_0000 + offset), 0x42);
    assert_eq!(bus.read8(0x0A00_0000 + offset), 0x42);
    assert_eq!(bus.read8(0x0C00_0000 + offset), 0x42);
}

#[test]
fn backup_memory_writes_route_to_the_cartridge_save_backend() {
    let mut rom = vec![0u8; HEADER_SIZE + 16];
    rom[HEADER_SIZE..HEADER_SIZE + 6].copy_from_slice(b"SRAM_V");
    let mut bus = Bus::new(Cartridge::load(rom).unwrap());

    bus.write8(0x0E00_0010, 0x99);
    assert_eq!(bus.read8(0x0E00_0010), 0x99);
    assert_eq!(bus.cartridge().read_save_byte(0x10), 0x99);
}

#[test]
fn word_and_halfword_access_is_little_endian() {
    let mut bus = test_bus();
    bus.write32(0x0300_0000, 0x1122_3344);
    assert_eq!(bus.read8(0x0300_0000), 0x44);
    assert_eq!(bus.read8(0x0300_0001), 0x33);
    assert_eq!(bus.read8(0x0300_0002), 0x22);
    assert_eq!(bus.read8(0x0300_0003), 0x11);
    assert_eq!(bus.read16(0x0300_0002), 0x1122);
    assert_eq!(bus.read32(0x0300_0000), 0x1122_3344);
}
