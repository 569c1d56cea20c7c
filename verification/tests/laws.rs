use gba_core::ppu::sprite::shape_size_to_dimensions;
use gba_core::apu::dma_sound::DmaSoundChannel;
use gba_core::apu::Apu;
use gba_core::bios::isqrt;
use gba_core::cartridge::header::{
    compute_header_checksum, decode_padded_ascii, GbaHeader, HeaderError, EXPECTED_FIXED_VALUE,
    FIXED_VALUE, GAME_TITLE_START, HEADER_CHECKSUM,
};
use gba_core::cartridge::save::flash::Flash;
use gba_core::cartridge::save::{build_backend, FlashSize, SaveType};
use gba_core::cartridge::{Cartridge, CartridgeError, HEADER_SIZE};
use gba_core::cpu::arm::alu::{add_with_carry, sub_with_carry};
use gba_core::cpu::arm::shifter::{lsl, rotate_right};
use gba_core::cpu::registers::{Mode, Registers};
use gba_core::cpu::CpuError;
use gba_core::dma::Dma;
use gba_core::emulator::{Emulator, CYCLES_PER_FRAME};
use gba_core::interrupts::{InterruptSource, Interrupts};
use gba_core::joypad::{Button, Joypad};
use gba_core::memory::Bus;
use gba_core::ppu::blend::{alpha_blend, brightness_decrease, brightness_increase};
use gba_core::ppu::bgr555_to_rgba8888;

fn blank_rom() -> Vec<u8> {
    vec![0u8; HEADER_SIZE + 16]
}

fn blank_bus() -> Bus {
    Bus::new(Cartridge::load(blank_rom()).unwrap())
}

fn valid_header_rom() -> Vec<u8> {
    let mut rom = blank_rom();
    rom[GAME_TITLE_START..GAME_TITLE_START + 4].copy_from_slice(b"GAME");
    rom[FIXED_VALUE] = EXPECTED_FIXED_VALUE;
    rom[HEADER_CHECKSUM] = compute_header_checksum(&rom);
    rom
}

#[test]
fn ewram_byte_reads_back_through_every_mirror() {
    let mut bus = blank_bus();
    bus.write8(0x0200_1234, 0x5A);
    assert_eq!(bus.read8(0x0200_1234), 0x5A);
    assert_eq!(bus.read8(0x0204_1234), 0x5A, "EWRAM repeats every 256KB");
    assert_eq!(bus.read8(0x0200_1235), 0x00, "neighbouring byte untouched");
}

#[test]
fn iwram_byte_reads_back_through_every_mirror() {
    let mut bus = blank_bus();
    bus.write8(0x0300_0010, 0xC3);
    assert_eq!(bus.read8(0x0300_8010), 0xC3, "IWRAM repeats every 32KB");
    assert_eq!(bus.read8(0x0300_0011), 0x00);
}

#[test]
fn stores_to_rom_and_bios_change_nothing() {
    let mut bus = blank_bus();
    let rom_before = bus.read8(0x0800_0000 + HEADER_SIZE as u32);
    bus.write8(0x0800_0000 + HEADER_SIZE as u32, 0x77);
    assert_eq!(bus.read8(0x0800_0000 + HEADER_SIZE as u32), rom_before);
    bus.write8(0x0000_0010, 0x77);
    assert_eq!(bus.read8(0x0000_0010), 0x00);
}

#[test]
fn oam_ignores_byte_stores_but_takes_halfwords() {
    let mut bus = blank_bus();
    bus.write8(0x0700_0000, 0x12);
    assert_eq!(bus.read8(0x0700_0000), 0x00);
    bus.write16(0x0700_0000, 0x3412);
    assert_eq!(bus.read16(0x0700_0000), 0x3412);
}

#[test]
fn fifo_hands_samples_out_in_push_order_up_to_its_capacity() {
    let mut ch = DmaSoundChannel::new();
    for v in [1u8, 2, 3] {
        ch.push(v);
    }
    let mut seen = Vec::new();
    for _ in 0..3 {
        ch.pop();
        seen.push(ch.sample());
    }
    assert_eq!(seen, vec![1, 2, 3]);
    for v in 0..100u8 {
        ch.push(v);
    }
    assert_eq!(ch.len(), 32);
}

#[test]
fn master_disable_keeps_a_configured_apu_silent() {
    let mut apu = Apu::new();
    apu.write_register(0x20, 0x77);
    apu.write_register(0x21, 0xFF);
    apu.write_register(0x22, 0x0E);
    apu.write_register(0x03, 0xF0);
    apu.write_register(0x05, 0x80);
    assert_eq!(apu.sample(), (0, 0));
}

#[test]
fn wave_ram_byte_reads_back() {
    let mut apu = Apu::new();
    for i in 0..16usize {
        apu.write_register(0x30 + i, (i as u8) * 17);
    }
    for i in 0..16usize {
        assert_eq!(apu.read_register(0x30 + i), (i as u8) * 17);
    }
}

#[test]
fn header_checksum_detects_a_corrupted_byte() {
    let rom = valid_header_rom();
    assert!(GbaHeader::parse(&rom).unwrap().checksum_valid());
    let mut bad = rom.clone();
    bad[GAME_TITLE_START] ^= 0x01;
    assert!(!GbaHeader::parse(&bad).unwrap().checksum_valid());
}

#[test]
fn header_checksum_does_not_read_its_own_byte() {
    let mut rom = valid_header_rom();
    let c = compute_header_checksum(&rom);
    rom[HEADER_CHECKSUM] = rom[HEADER_CHECKSUM].wrapping_add(9);
    assert_eq!(compute_header_checksum(&rom), c);
}

#[test]
fn header_checksum_exact_value_for_a_blank_header() {
    // 0 - 0x19 over an all-zero 0xA0..0xBC range.
    assert_eq!(compute_header_checksum(&[0u8; HEADER_SIZE]), 0xE7);
}

#[test]
fn header_parse_errors_and_cartridge_errors() {
    match GbaHeader::parse(&[0u8; HEADER_SIZE - 1]) {
        Err(HeaderError::RomTooSmall { actual, required }) => assert_eq!((actual, required), (HEADER_SIZE - 1, HEADER_SIZE)),
        _ => panic!("one byte short of a header"),
    }
    match Cartridge::load(vec![0u8; 4]) {
        Err(CartridgeError::Header(HeaderError::RomTooSmall { actual: 4, .. })) => {}
        _ => panic!("a 4-byte ROM cannot hold a header"),
    }
    let mut eeprom = blank_rom();
    eeprom.extend_from_slice(b"EEPROM_V124");
    match Cartridge::load(eeprom) {
        Err(CartridgeError::UnsupportedSaveType(SaveType::EepromUnknownSize)) => {}
        _ => panic!("EEPROM carts have no save backend"),
    }
}

#[test]
fn title_bytes_are_decoded_lossily_and_trimmed_at_padding() {
    assert_eq!(decode_padded_ascii(b"ZELDA\0\0\0"), "ZELDA");
    assert_eq!(decode_padded_ascii(b"AB\xFFC\0"), "AB\u{FFFD}C");
    assert_eq!(decode_padded_ascii(b"\0XYZ"), "");
}

#[test]
fn sram_backend_reads_back_a_write() {
    let mut b = build_backend(SaveType::Sram32K).unwrap();
    b.write(0x7FFF, 0x12);
    assert_eq!(b.read(0x7FFF), 0x12);
    assert_eq!(b.read(0x7FFE), 0xFF);
}

#[test]
fn flash_program_without_unlock_changes_nothing_and_only_clears_bits() {
    let mut f = Flash::new(FlashSize::Kb128);
    f.write(0x20, 0x00);
    assert_eq!(f.read(0x20), 0xFF);
    f.write(0x5555, 0xAA);
    f.write(0x2AAA, 0x55);
    f.write(0x5555, 0xA0);
    f.write(0x20, 0x0F);
    assert_eq!(f.read(0x20), 0x0F);
    f.write(0x5555, 0xAA);
    f.write(0x2AAA, 0x55);
    f.write(0x5555, 0xA0);
    f.write(0x20, 0xF3);
    assert_eq!(f.read(0x20), 0x03);
}

#[test]
fn isqrt_is_the_floor_square_root() {
    assert_eq!(isqrt(0), 0);
    assert_eq!(isqrt(1), 1);
    assert_eq!(isqrt(99), 9);
    assert_eq!(isqrt(100), 10);
    assert_eq!(isqrt(u32::MAX), 65535);
}

#[test]
fn mode_encoding_round_trips() {
    for m in [Mode::User, Mode::Fiq, Mode::Irq, Mode::Supervisor, Mode::Abort, Mode::Undefined, Mode::System] {
        assert_eq!(Mode::from_bits(m.bits()), Some(m));
    }
    assert_eq!(Mode::from_bits(0x00), None);
}

#[test]
fn leaving_a_mode_and_returning_restores_its_registers() {
    let mut regs = Registers::reset();
    regs.set_mode(Mode::Irq);
    regs.set_r(13, 0x0300_7FA0);
    regs.set_r(14, 0x1234);
    regs.set_spsr(0x1F);
    regs.set_mode(Mode::System);
    regs.set_r(13, 0x0300_7F00);
    assert_eq!(regs.r(13), 0x0300_7F00);
    regs.set_mode(Mode::Irq);
    assert_eq!(regs.r(13), 0x0300_7FA0);
    assert_eq!(regs.r(14), 0x1234);
    assert_eq!(regs.spsr(), 0x1F);
}

#[test]
fn low_registers_are_shared_by_every_mode_but_fiq_banks_r8() {
    let mut regs = Registers::reset();
    regs.set_mode(Mode::System);
    regs.set_r(3, 33);
    regs.set_r(8, 88);
    regs.set_mode(Mode::Fiq);
    assert_eq!(regs.r(3), 33);
    assert_eq!(regs.r(8), 0);
    regs.set_mode(Mode::Irq);
    assert_eq!(regs.r(8), 88);
}

#[test]
fn rotate_right_then_by_the_rest_gives_the_word_back() {
    let v = 0x8000_0F01u32;
    assert_eq!(rotate_right(v, 4), 0x1800_00F0);
    assert_eq!(rotate_right(rotate_right(v, 4), 28), v);
    let r = lsl(v, 0, true);
    assert_eq!((r.value, r.carry_out), (v, true));
}

#[test]
fn alu_laws_on_concrete_values() {
    let a = add_with_carry(0x9000_0000, 0x7000_0001, true);
    let b = add_with_carry(0x7000_0001, 0x9000_0000, true);
    assert_eq!((a.value, a.carry, a.overflow), (b.value, b.carry, b.overflow));
    assert_eq!(a.value, 2);
    let s = sub_with_carry(77, 77, true);
    assert_eq!((s.value, s.carry, s.overflow), (0, true, false));
    let d = sub_with_carry(10, 3, false);
    let e = add_with_carry(10, !3, false);
    assert_eq!((d.value, d.carry, d.overflow), (e.value, e.carry, e.overflow));
}

#[test]
fn finishing_a_non_repeating_transfer_disarms_the_channel() {
    let mut dma = Dma::new();
    dma.write_register(0x0B, 0x80); // DMA0CNT_H high byte: enable, immediate, no repeat
    assert!(dma.channels[0].enabled());
    dma.finish_transfer(0, 0x100, 0x200);
    assert!(!dma.channels[0].enabled());
}

#[test]
fn press_then_release_touches_only_that_button() {
    let mut j = Joypad::new();
    j.press(Button::B);
    assert!(j.is_pressed(Button::B));
    assert!(!j.is_pressed(Button::A));
    j.press(Button::A);
    j.release(Button::B);
    assert!(!j.is_pressed(Button::B));
    assert!(j.is_pressed(Button::A));
}

#[test]
fn requested_and_enabled_source_is_pending_until_acknowledged() {
    let mut irq = Interrupts::new();
    irq.write_ime(0, 1);
    irq.write_ie_if(1, 0x10); // IE bit 12: Keypad
    irq.request(InterruptSource::Keypad);
    assert!(irq.pending());
    let both = irq.ie_and_iflag();
    irq.acknowledge(both);
    assert!(!irq.pending());
    irq.write_ie_if(0, 0xA5);
    assert_eq!(irq.read_ie_if(0), 0xA5);
}

#[test]
fn a_frame_is_exactly_280896_cycles() {
    assert_eq!(CYCLES_PER_FRAME, 280_896);
    let mut emu = Emulator::new(Cartridge::load(blank_rom()).unwrap());
    let before = emu.total_cycles();
    let r = emu.step();
    match r {
        Ok(c) => {
            assert!((1..=64).contains(&c));
            assert_eq!(emu.total_cycles(), before + c as u64);
        }
        Err(e) => assert!(matches!(e, CpuError::UnimplementedArm { .. } | CpuError::UnimplementedThumb { .. })),
    }
}

#[test]
fn blending_formulas_give_exact_values() {
    assert_eq!(alpha_blend(0x7FFF, 0x0000, 16, 0), 0x7FFF);
    assert_eq!(alpha_blend(0x001F, 0x03E0, 8, 8), 0x01EF);
    assert_eq!(brightness_increase(0x0000, 16), 0x7FFF);
    assert_eq!(brightness_decrease(0x7FFF, 16), 0x0000);
    assert_eq!(bgr555_to_rgba8888(0x7FFF), [255, 255, 255, 255]);
}

#[test]
fn system_and_user_mode_read_cpsr_as_spsr() {
    let mut regs = Registers::reset();
    regs.set_mode(Mode::System);
    assert_eq!(regs.spsr(), regs.cpsr());
    assert_eq!(regs.cpsr() & 0x1F, 0x1F);
    regs.set_spsr(0x1234_5678);
    assert_eq!(regs.spsr(), regs.cpsr(), "System has no SPSR of its own");
    regs.set_mode(Mode::User);
    assert_eq!(regs.spsr(), regs.cpsr());
    regs.set_mode(Mode::Irq);
    regs.set_spsr(0x10);
    assert_eq!(regs.spsr(), 0x10);
}

#[test]
fn vblank_is_requested_on_ie_alone_whatever_dispstat_says() {
    let mut emu = Emulator::new(Cartridge::load(blank_rom()).unwrap());
    emu.bus.write16(0x0400_0200, 0x0001); // IE: VBlank; DISPSTAT and IME stay 0
    let before = emu.total_cycles();
    let n = emu.run_frame().unwrap();
    assert!(n >= CYCLES_PER_FRAME && n < CYCLES_PER_FRAME + 64);
    assert_eq!(emu.total_cycles(), before + n as u64);
    assert_eq!(emu.bus.read16(0x0400_0202) & 1, 1);
}

#[test]
fn word_and_halfword_stores_read_back_little_endian_in_work_ram() {
    let mut bus = blank_bus();
    bus.write32(0x0200_0102, 0xA1B2_C3D4); // aligned down to 0x0200_0100
    assert_eq!(bus.read32(0x0200_0100), 0xA1B2_C3D4);
    assert_eq!(bus.read16(0x0200_0100), 0xC3D4);
    assert_eq!(bus.read16(0x0200_0102), 0xA1B2);
    assert_eq!(bus.read8(0x0200_0103), 0xA1);
    bus.write16(0x0300_0011, 0xBEEF); // aligned down to 0x0300_0010
    assert_eq!(bus.read16(0x0300_0010), 0xBEEF);
    assert_eq!(bus.read8(0x0300_0010), 0xEF);
    assert_eq!(bus.read8(0x0300_0011), 0xBE);
}

#[test]
fn byte_stores_to_video_memory_fill_the_halfword() {
    let mut bus = blank_bus();
    bus.write8(0x0500_0003, 0x5C);
    assert_eq!(bus.read16(0x0500_0002), 0x5C5C);
    bus.write8(0x0600_0100, 0x21);
    assert_eq!(bus.read16(0x0600_0100), 0x2121);
}

#[test]
fn timer_counts_one_per_prescaler_period() {
    let mut bus = blank_bus();
    bus.write8(0x0400_0102, 0x81); // TM0CNT_H: enable, prescaler 64
    let t = bus.timers_mut();
    t.tick(640 + 63);
    assert_eq!(t.read_register(0), 10);
    t.tick(1);
    assert_eq!(t.read_register(0), 11);
}

#[test]
fn ppu_clock_advances_one_scanline_per_1232_cycles() {
    let mut bus = blank_bus();
    let ppu = bus.ppu_mut();
    let ev = ppu.tick(0);
    assert!(!ev.vblank && !ev.vblank_timing && ppu.scanline() == 0);
    ppu.tick(1232 * 3 + 5);
    assert_eq!(ppu.scanline(), 3);
    let ev = ppu.tick(1232 * 157);
    assert_eq!(ppu.scanline(), 160);
    assert!(ev.vblank_timing && !ev.vblank, "DISPSTAT's VBlank enable is off");
}

#[test]
fn timer_zero_counts_cycles_even_with_its_cascade_bit_set() {
    let mut bus = blank_bus();
    bus.write8(0x0400_0102, 0x84); // TM0CNT_H: enable, cascade bit, prescaler 1
    let t = bus.timers_mut();
    t.tick(5);
    assert_eq!(t.read_register(0), 5, "timer 0 has no previous timer to cascade from");
}

#[test]
fn out_of_range_sprite_size_has_no_dimensions() {
    assert_eq!(shape_size_to_dimensions(0, 4), None);
    assert_eq!(shape_size_to_dimensions(3, 0), None);
    assert_eq!(shape_size_to_dimensions(2, 3), Some((32, 64)));
}
