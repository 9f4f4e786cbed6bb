//! The mask register.
//!
//! ```text
//! 7  bit  0
//! BGRs bMmG
//! |||| |||+- greyscale
//! |||| ||+-- show the background in the leftmost 8 pixels
//! |||| |+--- show sprites in the leftmost 8 pixels
//! |||| +---- render the background
//! |||+------ render sprites
//! ||+------- emphasize red
//! |+-------- emphasize green
//! +--------- emphasize blue
//! ```

use vstd::prelude::*;
use crate::bits::{has_bits, test_bits};

verus! {

pub const GREYSCALE: u8 = 0b0000_0001;
pub const BACKGROUND_LEFT_BOOL: u8 = 0b0000_0010;
pub const SPRITE_LEFT_BOOL: u8 = 0b0000_0100;
pub const BACKGROUND_RENDERING: u8 = 0b0000_1000;
pub const SPRITE_RENDERING: u8 = 0b0001_0000;
pub const EMPHASIZE_RED: u8 = 0b0010_0000;
pub const EMPHASIZE_GREEN: u8 = 0b0100_0000;
pub const EMPHASIZE_BLUE: u8 = 0b1000_0000;

#[derive(Debug, Clone, Copy, PartialEq, Eq, Structural)]
pub enum Color {
    Red,
    Green,
    Blue,
}

#[derive(Debug)]
pub struct MaskRegister {
    value: u8,
}

impl View for MaskRegister {
    type V = u8;

    closed spec fn view(&self) -> u8 {
        self.value
    }
}

/// The colours that a mask byte emphasizes: red, then blue, then green.
pub open spec fn emphasized(bits: u8) -> Seq<Color> {
    let red = if has_bits(bits, EMPHASIZE_RED) {
        seq![Color::Red]
    } else {
        Seq::<Color>::empty()
    };
    let blue = if has_bits(bits, EMPHASIZE_BLUE) {
        seq![Color::Blue]
    } else {
        Seq::<Color>::empty()
    };
    let green = if has_bits(bits, EMPHASIZE_GREEN) {
        seq![Color::Green]
    } else {
        Seq::<Color>::empty()
    };
    red + blue + green
}

impl MaskRegister {
    pub fn new() -> (reg: MaskRegister)
        ensures
            reg@ == 0,
    {
        MaskRegister { value: 0 }
    }

    pub fn update(&mut self, data: u8)
        ensures
            final(self)@ == data,
    {
        self.value = data;
    }

    pub fn is_grayscale(&self) -> (on: bool)
        ensures
            on == has_bits(self@, GREYSCALE),
    {
        test_bits(self.value, GREYSCALE)
    }

    pub fn leftmost_8pixels_background(&self) -> (on: bool)
        ensures
            on == has_bits(self@, BACKGROUND_LEFT_BOOL),
    {
        test_bits(self.value, BACKGROUND_LEFT_BOOL)
    }

    pub fn leftmost_8pixels_sprite(&self) -> (on: bool)
        ensures
            on == has_bits(self@, SPRITE_LEFT_BOOL),
    {
        test_bits(self.value, SPRITE_LEFT_BOOL)
    }

    pub fn show_background(&self) -> (on: bool)
        ensures
            on == has_bits(self@, BACKGROUND_RENDERING),
    {
        test_bits(self.value, BACKGROUND_RENDERING)
    }

    pub fn show_sprites(&self) -> (on: bool)
        ensures
            on == has_bits(self@, SPRITE_RENDERING),
    {
        test_bits(self.value, SPRITE_RENDERING)
    }

    pub fn emphasize(&self) -> (colors: Vec<Color>)
        ensures
            colors@ == emphasized(self@),
    {
        let mut result = Vec::<Color>::new();
        if test_bits(self.value, EMPHASIZE_RED) {
            result.push(Color::Red);
        }
        if test_bits(self.value, EMPHASIZE_BLUE) {
            result.push(Color::Blue);
        }
        if test_bits(self.value, EMPHASIZE_GREEN) {
            result.push(Color::Green);
        }
        assert(result@ =~= emphasized(self@));
        result
    }
}

} // verus!
