//! Core of an NES emulator: the MOS 6502 interpreter, the CPU-side bus and
//! the cartridge mapper that feed it.
pub mod cpu;
pub mod cpu_bus;
pub mod mapper;
pub mod rom_loader;
