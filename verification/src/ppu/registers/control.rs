//! The control register.
//!
//! ```text
//! 7  bit  0
//! VPHB SINN
//! |||| ||++- base nametable (0: $2000, 1: $2400, 2: $2800, 3: $2C00)
//! |||| |+--- address step per data access (0: 1, across; 1: 32, down)
//! |||| +---- pattern table of 8x8 sprites (0: $0000, 1: $1000)
//! |||+------ pattern table of the background (0: $0000, 1: $1000)
//! ||+------- sprite size (0: 8x8, 1: 8x16)
//! |+-------- master/slave select
//! +--------- raise an interrupt at the start of vertical blanking
//! ```

use vstd::prelude::*;
use crate::bits::{has_bits, test_bits};

verus! {

pub const NAMETABLE1: u8 = 0b0000_0001;
pub const NAMETABLE2: u8 = 0b0000_0010;
pub const VRAM_ADDR_INCREMENT: u8 = 0b0000_0100;
pub const SPRITE_PATTERN_ADDR: u8 = 0b0000_1000;
pub const BACKGROUND_PATTERN_ADDR: u8 = 0b0001_0000;
pub const SPRITE_SIZE: u8 = 0b0010_0000;
pub const MASTER_SLAVE_SELECT: u8 = 0b0100_0000;
pub const GENERATE_NMI: u8 = 0b1000_0000;

#[derive(Debug)]
pub struct ControlRegister {
    value: u8,
}

impl View for ControlRegister {
    type V = u8;

    closed spec fn view(&self) -> u8 {
        self.value
    }
}

impl ControlRegister {
    pub fn new() -> (reg: ControlRegister)
        ensures
            reg@ == 0,
    {
        ControlRegister { value: 0 }
    }

    /// Video address of the nametable chosen by the two low bits.
    pub fn nametable_addr(&self) -> (addr: u16)
        ensures
            addr == 0x2000 + 0x400 * (self@ % 4),
    {
        match self.value % 4 {
            0 => 0x2000,
            1 => 0x2400,
            2 => 0x2800,
            _ => 0x2C00,
        }
    }

    pub fn vram_addr_increment(&self) -> (step: u8)
        ensures
            step == (if has_bits(self@, VRAM_ADDR_INCREMENT) { 32u8 } else { 1u8 }),
    {
        if !test_bits(self.value, VRAM_ADDR_INCREMENT) {
            1
        } else {
            32
        }
    }

    pub fn sprite_pattern_addr(&self) -> (addr: u16)
        ensures
            addr == (if has_bits(self@, SPRITE_PATTERN_ADDR) { 0x1000u16 } else { 0u16 }),
    {
        if !test_bits(self.value, SPRITE_PATTERN_ADDR) {
            0
        } else {
            0x1000
        }
    }

    pub fn background_pattern_addr(&self) -> (addr: u16)
        ensures
            addr == (if has_bits(self@, BACKGROUND_PATTERN_ADDR) { 0x1000u16 } else { 0u16 }),
    {
        if !test_bits(self.value, BACKGROUND_PATTERN_ADDR) {
            0
        } else {
            0x1000
        }
    }

    pub fn sprite_size(&self) -> (size: u8)
        ensures
            size == (if has_bits(self@, SPRITE_SIZE) { 16u8 } else { 0u8 }),
    {
        if !test_bits(self.value, SPRITE_SIZE) {
            0
        } else {
            16
        }
    }

    pub fn master_slave_select(&self) -> (select: u8)
        ensures
            select == (if has_bits(self@, MASTER_SLAVE_SELECT) { 1u8 } else { 0u8 }),
    {
        if !test_bits(self.value, MASTER_SLAVE_SELECT) {
            0
        } else {
            1
        }
    }

    pub fn generate_vblank_nmi(&self) -> (on: bool)
        ensures
            on == has_bits(self@, GENERATE_NMI),
    {
        test_bits(self.value, GENERATE_NMI)
    }

    pub fn update(&mut self, data: u8)
        ensures
            final(self)@ == data,
    {
        self.value = data;
    }
}

} // verus!
