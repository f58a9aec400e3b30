//! The logic of a Nintendo Entertainment System emulator: the 6502 CPU and its
//! bus, the picture processing unit, the audio processing unit, cartridge
//! mappers, iNES parsing and input handling.

pub mod chip;
pub mod system;
pub mod instructions;
pub mod mapper;
pub mod parse_ines;
pub mod ppu;
pub mod input;
pub mod clock;
pub mod system_control;
