//! A game controller: eight buttons read one bit at a time through a
//! shift register.

use vstd::prelude::*;
use crate::bits::{assign_bits, with_bits};

verus! {

/// Number of buttons.
pub const BUTTON_COUNT: u8 = 8;

#[allow(non_camel_case_types)]
#[derive(Debug, Clone, Copy, PartialEq, Eq, Structural)]
pub enum ControllerButtons {
    BUTTON_A,
    BUTTON_B,
    SELECT,
    START,
    UP,
    DOWN,
    LEFT,
    RIGHT,
}

impl ControllerButtons {
    /// The place of a button in the order in which they are read.
    pub open spec fn index(self) -> u8 {
        match self {
            ControllerButtons::BUTTON_A => 0,
            ControllerButtons::BUTTON_B => 1,
            ControllerButtons::SELECT => 2,
            ControllerButtons::START => 3,
            ControllerButtons::UP => 4,
            ControllerButtons::DOWN => 5,
            ControllerButtons::LEFT => 6,
            ControllerButtons::RIGHT => 7,
        }
    }

    /// The bit of a button in the status byte.
    pub open spec fn spec_mask(self) -> u8 {
        match self {
            ControllerButtons::BUTTON_A => 0b0000_0001,
            ControllerButtons::BUTTON_B => 0b0000_0010,
            ControllerButtons::SELECT => 0b0000_0100,
            ControllerButtons::START => 0b0000_1000,
            ControllerButtons::UP => 0b0001_0000,
            ControllerButtons::DOWN => 0b0010_0000,
            ControllerButtons::LEFT => 0b0100_0000,
            ControllerButtons::RIGHT => 0b1000_0000,
        }
    }

    /// The bit of a button in the status byte.
    #[verifier::when_used_as_spec(spec_mask)]
    pub fn mask(self) -> (mask: u8)
        ensures
            mask == self.spec_mask(),
    {
        match self {
            ControllerButtons::BUTTON_A => 0b0000_0001,
            ControllerButtons::BUTTON_B => 0b0000_0010,
            ControllerButtons::SELECT => 0b0000_0100,
            ControllerButtons::START => 0b0000_1000,
            ControllerButtons::UP => 0b0001_0000,
            ControllerButtons::DOWN => 0b0010_0000,
            ControllerButtons::LEFT => 0b0100_0000,
            ControllerButtons::RIGHT => 0b1000_0000,
        }
    }
}

#[derive(Debug, Clone, Copy)]
pub struct Controller {
    strobe: bool,
    button_idx: u8,
    pub button_status: u8,
}

/// The controller as a mathematical value.
pub struct ControllerState {
    /// While the strobe is on, reads return the first button again and
    /// again.
    pub strobe: bool,
    /// The button that the next read returns.
    pub button_idx: u8,
    pub button_status: u8,
}

/// Bit `index` of a byte, as 0 or 1.
pub open spec fn bit_at(bits: u8, index: u8) -> u8 {
    (bits & (1u8 << index)) >> index
}

impl ControllerState {
    /// A write sets the strobe from bit 0; while it is on, the next
    /// button is the first.
    pub open spec fn write(self, data: u8) -> ControllerState {
        let strobe = data & 1 == 1;
        ControllerState {
            strobe,
            button_idx: if strobe {
                0
            } else {
                self.button_idx
            },
            ..self
        }
    }

    /// A read returns the next button's bit and, with the strobe off,
    /// moves on to the button after it; past the last button it returns
    /// 1.
    pub open spec fn read(self) -> (ControllerState, u8) {
        if self.button_idx >= BUTTON_COUNT {
            (self, 1)
        } else {
            (
                ControllerState {
                    button_idx: if self.strobe {
                        self.button_idx
                    } else {
                        (self.button_idx + 1) as u8
                    },
                    ..self
                },
                bit_at(self.button_status, self.button_idx),
            )
        }
    }

    pub open spec fn set_button_pressed_status(
        self,
        button: ControllerButtons,
        pressed: bool,
    ) -> ControllerState {
        ControllerState {
            button_status: with_bits(self.button_status, button.spec_mask(), pressed),
            ..self
        }
    }
}

impl View for Controller {
    type V = ControllerState;

    closed spec fn view(&self) -> ControllerState {
        ControllerState {
            strobe: self.strobe,
            button_idx: self.button_idx,
            button_status: self.button_status,
        }
    }
}

impl Controller {
    pub fn new() -> (controller: Controller)
        ensures
            controller@ == (ControllerState { strobe: false, button_idx: 0, button_status: 0 }),
    {
        Controller { strobe: false, button_idx: 0, button_status: 0 }
    }

    pub fn write(&mut self, data: u8)
        ensures
            final(self)@ == old(self)@.write(data),
    {
        self.strobe = data & 1 == 1;
        if self.strobe {
            self.button_idx = 0
        }
    }

    pub fn read(&mut self) -> (bit: u8)
        ensures
            (final(self)@, bit) == old(self)@.read(),
    {
        if self.button_idx > 7 {
            return 1;
        }
        let response = (self.button_status & (1u8 << self.button_idx)) >> self.button_idx;
        if !self.strobe && self.button_idx <= 7 {
            self.button_idx += 1;
        }
        response
    }

    pub fn set_button_pressed_status(&mut self, init_button: ControllerButtons, pressed: bool)
        ensures
            final(self)@ == old(self)@.set_button_pressed_status(init_button, pressed),
    {
        let button = init_button.mask();
        self.button_status = assign_bits(self.button_status, button, pressed);
    }
}

/// The bit read for a button is 1 exactly when the bit of that button
/// is set in the status byte.
pub proof fn lemma_bit_read_is_button(bits: u8, button: ControllerButtons)
    ensures
        bit_at(bits, button.index()) == (if bits & button.spec_mask() == button.spec_mask() {
            1u8
        } else {
            0u8
        }),
{
    assert(forall|b: u8| #![auto] (b & (1u8 << 0u8)) >> 0u8 == (if b & 1 == 1 { 1u8 } else { 0u8 })) by (bit_vector);
    assert(forall|b: u8| #![auto] (b & (1u8 << 1u8)) >> 1u8 == (if b & 2 == 2 { 1u8 } else { 0u8 })) by (bit_vector);
    assert(forall|b: u8| #![auto] (b & (1u8 << 2u8)) >> 2u8 == (if b & 4 == 4 { 1u8 } else { 0u8 })) by (bit_vector);
    assert(forall|b: u8| #![auto] (b & (1u8 << 3u8)) >> 3u8 == (if b & 8 == 8 { 1u8 } else { 0u8 })) by (bit_vector);
    assert(forall|b: u8| #![auto] (b & (1u8 << 4u8)) >> 4u8 == (if b & 16 == 16 { 1u8 } else { 0u8 })) by (bit_vector);
    assert(forall|b: u8| #![auto] (b & (1u8 << 5u8)) >> 5u8 == (if b & 32 == 32 { 1u8 } else { 0u8 })) by (bit_vector);
    assert(forall|b: u8| #![auto] (b & (1u8 << 6u8)) >> 6u8 == (if b & 64 == 64 { 1u8 } else { 0u8 })) by (bit_vector);
    assert(forall|b: u8| #![auto] (b & (1u8 << 7u8)) >> 7u8 == (if b & 128 == 128 { 1u8 } else { 0u8 })) by (bit_vector);
}

} // verus!
