//! A cycle-stepped model of an 8-bit game console: a 6502-family processor,
//! a tile-based picture processor and the memory bus that joins them.

pub mod bits;
pub mod bus;
pub mod cartridge;
pub mod controller;
pub mod cpu;
pub mod opcodes;
pub mod ppu;
pub mod render;
pub mod screen;
