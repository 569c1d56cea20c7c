pub mod bits;
pub mod cpu;
pub mod memory;
pub mod interrupts;
pub mod joypad;
pub mod timer;
pub mod dma;
pub mod apu;
pub mod emulator;
pub mod cartridge;
pub mod ppu;
pub mod bios;
