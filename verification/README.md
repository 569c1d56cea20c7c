# gba_core

The core of a Game Boy Advance emulator — ARM7TDMI CPU (ARM and Thumb),
memory bus, PPU, APU, DMA, timers, interrupts, joypad, cartridge with its
backup memory, and a high-level stand-in for the BIOS — written in Verus.
Every function of the library carries a contract over a mathematical model
of the machine (register file, bus, device state as `Seq`s, integers and
enums), and Verus proves each body against it.

Layout:

- `src/` — the verified library, one module per hardware block:
  `cpu` (registers and banking, ARM and Thumb decoders), `memory` (the
  `Memory` trait and the `Bus` with its address map and DMA triggering),
  `ppu` (register decoding, text/affine/bitmap backgrounds, sprites,
  windows, blending, frame timing), `apu` (two pulse channels, wave,
  noise, DMA-sound FIFOs, mixing), `dma`, `timer`, `interrupts`,
  `joypad`, `cartridge` (header, save-type detection, SRAM and Flash),
  `bios` (SWI functions and IRQ servicing) and `emulator` (the stepping
  loop). Laws that span several calls are public proof functions beside
  the code they speak of.
- `tests/` — executable tests of the library.
- `app/` — host-side error types with `Display` messages.
