//! The status register.
//!
//! ```text
//! 7  bit  0
//! VSOx xxxx
//! |||+------ open bus
//! ||+------- sprite overflow
//! |+-------- sprite 0 hit
//! +--------- vertical blanking, cleared when the register is read
//! ```

use vstd::prelude::*;
use crate::bits::{assign_bits, has_bits, test_bits, with_bits};

verus! {

pub const PPU_OPEN_BUS: u8 = 0b0001_0000;
pub const SPRITE_OVERFLOW: u8 = 0b0010_0000;
pub const SPRITE_0_HIT: u8 = 0b0100_0000;
pub const VBLANK: u8 = 0b1000_0000;

#[derive(Debug)]
pub struct StatusRegister {
    value: u8,
}

impl View for StatusRegister {
    type V = u8;

    closed spec fn view(&self) -> u8 {
        self.value
    }
}

impl StatusRegister {
    pub fn new() -> (reg: StatusRegister)
        ensures
            reg@ == 0,
    {
        StatusRegister { value: 0 }
    }

    pub fn snapshot(&self) -> (bits: u8)
        ensures
            bits == self@,
    {
        self.value
    }

    pub fn set_vblank_status(&mut self, flagged: bool)
        ensures
            final(self)@ == with_bits(old(self)@, VBLANK, flagged),
    {
        self.value = assign_bits(self.value, VBLANK, flagged);
    }

    pub fn set_sprite_zero_hit(&mut self, flagged: bool)
        ensures
            final(self)@ == with_bits(old(self)@, SPRITE_0_HIT, flagged),
    {
        self.value = assign_bits(self.value, SPRITE_0_HIT, flagged);
    }

    pub fn set_sprite_overflow(&mut self, flagged: bool)
        ensures
            final(self)@ == with_bits(old(self)@, SPRITE_OVERFLOW, flagged),
    {
        self.value = assign_bits(self.value, SPRITE_OVERFLOW, flagged);
    }

    pub fn is_in_vblank(&self) -> (on: bool)
        ensures
            on == has_bits(self@, VBLANK),
    {
        test_bits(self.value, VBLANK)
    }

    pub fn reset_vblank_status(&mut self)
        ensures
            final(self)@ == with_bits(old(self)@, VBLANK, false),
    {
        self.value = assign_bits(self.value, VBLANK, false);
    }
}

} // verus!
