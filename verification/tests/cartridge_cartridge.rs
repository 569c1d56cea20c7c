use gba_core::cartridge::cartridge::Cartridge;
use gba_core::cartridge::cartridge::CartridgeError;
use gba_core::cartridge::save::SaveType;

use gba_core::cartridge::save::FlashSize;
use gba_core::cartridge::header::HEADER_SIZE;

fn rom_with_signature(signature: &[u8]) -> Vec<u8> {
    let mut rom = vec![0u8; HEADER_SIZE + 64];
    rom[0xB2] = 0x96; // fixed value
    rom[HEADER_SIZE..HEADER_SIZE + signature.len()].copy_from_slice(signature);
    rom
}

#[test]
fn rejects_a_rom_too_small_for_a_header() {
    let err = Cartridge::load(vec![0u8; 10]).unwrap_err();
    assert!(matches!(err, CartridgeError::Header(_)));
}

#[test]
fn detects_save_type_from_embedded_signature() {
    let cart = Cartridge::load(rom_with_signature(b"FLASH1M_V110")).unwrap();
    assert_eq!(cart.save_type(), SaveType::Flash(FlashSize::Kb128));
}

#[test]
fn rom_without_signature_gets_no_save_backend() {
    let cart = Cartridge::load(rom_with_signature(b"nothing here")).unwrap();
    assert_eq!(cart.save_type(), SaveType::NoBackup);
}

#[test]
fn eeprom_signature_is_rejected_until_dma_exists() {
    let err = Cartridge::load(rom_with_signature(b"EEPROM_V111")).unwrap_err();
    assert!(matches!(err, CartridgeError::UnsupportedSaveType(_)));
}

#[test]
fn save_read_write_goes_through_the_backend() {
    let mut cart = Cartridge::load(rom_with_signature(b"SRAM_V113")).unwrap();
    cart.write_save_byte(5, 0xAB);
    assert_eq!(cart.read_save_byte(5), 0xAB);
}
