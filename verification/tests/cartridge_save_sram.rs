use gba_core::cartridge::save::sram::SRAM_SIZE;
use gba_core::cartridge::save::sram::Sram;


#[test]
fn sram_starts_erased() {
    let sram = Sram::new();
    assert_eq!(sram.read(0), 0xFF);
    assert_eq!(sram.read(SRAM_SIZE - 1), 0xFF);
}

#[test]
fn read_write_roundtrip() {
    let mut sram = Sram::new();
    sram.write(0x100, 0x42);
    assert_eq!(sram.read(0x100), 0x42);
}

#[test]
fn wraps_at_32kb() {
    let mut sram = Sram::new();
    sram.write(0, 0x7A);
    assert_eq!(sram.read(SRAM_SIZE), 0x7A);
}

#[test]
fn load_bytes_restores_a_save() {
    let mut sram = Sram::new();
    let mut saved = vec![0u8; SRAM_SIZE];
    saved[10] = 0x99;
    sram.load_bytes(&saved);
    assert_eq!(sram.read(10), 0x99);
}
