pub mod save;
pub mod header;
pub mod cartridge;
pub use cartridge::{Cartridge, CartridgeError};
pub use header::{GbaHeader, HeaderError, HEADER_SIZE};
pub use save::{FlashSize, SaveType};
