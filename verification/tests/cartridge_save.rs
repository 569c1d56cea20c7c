use gba_core::cartridge::save::FlashSize;
use gba_core::cartridge::save::SaveType;
use gba_core::cartridge::save::build_backend;
use gba_core::cartridge::save::detect_save_type;


#[test]
fn detects_each_signature() {
    assert_eq!(detect_save_type(b"...SRAM_V113..."), SaveType::Sram32K);
    assert_eq!(
        detect_save_type(b"...SRAM_F_V102..."),
        SaveType::Sram32K,
        "the SRAM_F_V variant (e.g. Fire Emblem) is the same flat 32KB chip as SRAM_V"
    );
    assert_eq!(
        detect_save_type(b"...FLASH1M_V110..."),
        SaveType::Flash(FlashSize::Kb128)
    );
    assert_eq!(
        detect_save_type(b"...FLASH512_V130..."),
        SaveType::Flash(FlashSize::Kb64)
    );
    assert_eq!(
        detect_save_type(b"...FLASH_V120..."),
        SaveType::Flash(FlashSize::Kb64)
    );
    assert_eq!(
        detect_save_type(b"...EEPROM_V111..."),
        SaveType::EepromUnknownSize
    );
}

#[test]
fn no_signature_means_no_save() {
    assert_eq!(detect_save_type(b"just some ordinary bytes"), SaveType::NoBackup);
}

#[test]
fn eeprom_has_no_backend_yet() {
    assert!(build_backend(SaveType::EepromUnknownSize).is_none());
}
