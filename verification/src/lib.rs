//! A Game Boy (DMG) emulator core: the SM83 processor, the memory bus with its
//! cartridge mappers, and the picture-processing unit.
pub mod cpu;
pub mod memory;
pub mod ppu;
pub mod text;
