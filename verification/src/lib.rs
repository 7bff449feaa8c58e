pub mod cartridge;
pub mod ppu;
