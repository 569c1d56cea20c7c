use gba_core::cartridge::save::flash::Flash;
use gba_core::cartridge::save::FlashSize;
use gba_core::cartridge::save::flash::SECTOR_SIZE;


fn unlock(flash: &mut Flash) {
    flash.write(0x5555, 0xAA);
    flash.write(0x2AAA, 0x55);
}

#[test]
fn flash_starts_erased() {
    let flash = Flash::new(FlashSize::Kb64);
    assert_eq!(flash.read(0), 0xFF);
}

#[test]
fn program_byte_requires_full_unlock_sequence() {
    let mut flash = Flash::new(FlashSize::Kb64);
    // No unlock sequence: stray writes must not program anything.
    flash.write(0x1234, 0x42);
    assert_eq!(flash.read(0x1234), 0xFF);

    unlock(&mut flash);
    flash.write(0x5555, 0xA0); // byte-program command
    flash.write(0x1234, 0x42); // data + address for the program
    assert_eq!(flash.read(0x1234), 0x42);
}

#[test]
fn program_can_only_clear_bits() {
    let mut flash = Flash::new(FlashSize::Kb64);
    unlock(&mut flash);
    flash.write(0x5555, 0xA0);
    flash.write(0x10, 0b1100_1100);

    // Programming again without erasing ANDs with the existing byte.
    unlock(&mut flash);
    flash.write(0x5555, 0xA0);
    flash.write(0x10, 0b1111_0000);
    assert_eq!(flash.read(0x10), 0b1100_0000);
}

#[test]
fn sector_erase_resets_only_that_sector() {
    let mut flash = Flash::new(FlashSize::Kb64);
    unlock(&mut flash);
    flash.write(0x5555, 0xA0);
    flash.write(0x10, 0x00);
    unlock(&mut flash);
    flash.write(0x5555, 0xA0);
    flash.write(SECTOR_SIZE + 0x10, 0x00);

    unlock(&mut flash);
    flash.write(0x5555, 0x80);
    unlock(&mut flash);
    flash.write(0x10, 0x30); // sector erase, sector 0

    assert_eq!(flash.read(0x10), 0xFF, "sector 0 should be erased");
    assert_eq!(
        flash.read(SECTOR_SIZE + 0x10),
        0x00,
        "sector 1 must be untouched"
    );
}

#[test]
fn chip_erase_resets_everything() {
    let mut flash = Flash::new(FlashSize::Kb64);
    unlock(&mut flash);
    flash.write(0x5555, 0xA0);
    flash.write(0x10, 0x00);

    unlock(&mut flash);
    flash.write(0x5555, 0x80);
    unlock(&mut flash);
    flash.write(0x5555, 0x10); // chip erase

    assert_eq!(flash.read(0x10), 0xFF);
}

#[test]
fn reads_manufacturer_and_device_id_in_id_mode() {
    let mut flash = Flash::new(FlashSize::Kb128);
    unlock(&mut flash);
    flash.write(0x5555, 0x90); // enter ID mode
    assert_eq!(flash.read(0x0000), 0x62);
    assert_eq!(flash.read(0x0001), 0x13);

    unlock(&mut flash);
    flash.write(0x5555, 0xF0); // exit ID mode
    assert_eq!(flash.read(0x0000), 0xFF, "back to normal data reads");
}

#[test]
fn bank_switch_only_applies_to_128kb_chips() {
    let mut flash64 = Flash::new(FlashSize::Kb64);
    unlock(&mut flash64);
    flash64.write(0x5555, 0xB0);
    flash64.write(0x0000, 0x01); // ignored: 64KB chip has one bank
    unlock(&mut flash64);
    flash64.write(0x5555, 0xA0);
    flash64.write(0x10, 0x00);
    assert_eq!(flash64.read(0x10), 0x00);

    let mut flash128 = Flash::new(FlashSize::Kb128);
    unlock(&mut flash128);
    flash128.write(0x5555, 0xA0);
    flash128.write(0x10, 0x11); // bank 0

    unlock(&mut flash128);
    flash128.write(0x5555, 0xB0);
    flash128.write(0x0000, 0x01); // switch to bank 1
    unlock(&mut flash128);
    flash128.write(0x5555, 0xA0);
    flash128.write(0x10, 0x22); // bank 1

    assert_eq!(flash128.read(0x10), 0x22, "bank 1 active");

    unlock(&mut flash128);
    flash128.write(0x5555, 0xB0);
    flash128.write(0x0000, 0x00); // back to bank 0
    assert_eq!(flash128.read(0x10), 0x11, "bank 0 untouched by bank 1 write");
}
