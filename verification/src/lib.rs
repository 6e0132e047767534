//! A cycle-stepped emulator of the NES's 6502 CPU, its memory bus and
//! cartridge loading, with the front-end state that drives it.
pub mod cpu;
pub mod emulator;
pub mod ui;
