//! The video address register: a 14-bit address written one byte at a time.

use vstd::prelude::*;

verus! {

/// Number of addresses on the video bus.
pub const VIDEO_ADDRESS_SPACE: u16 = 0x4000;

/// The address after a byte was shifted in: into the high half with its two
/// top bits dropped, or into the low half.
pub open spec fn addr_after_write(value: u16, high: bool, data: u8) -> u16 {
    if high {
        ((data % 64) * 256 + value % 256) as u16
    } else {
        ((value / 256) * 256 + data) as u16
    }
}

/// The address after an access moved it on by `inc`.
pub open spec fn addr_after_increment(value: u16, inc: u8) -> u16 {
    ((value + inc) % (VIDEO_ADDRESS_SPACE as int)) as u16
}

#[derive(Debug)]
pub struct AddrRegister {
    value: u16,
    hi_ptr: bool,
}

impl AddrRegister {
    #[verifier::type_invariant]
    closed spec fn in_video_space(&self) -> bool {
        self.value < VIDEO_ADDRESS_SPACE
    }

    /// The address held.
    pub closed spec fn value(&self) -> u16 {
        self.value
    }

    /// Whether the next byte written goes to the high half.
    pub closed spec fn expects_high(&self) -> bool {
        self.hi_ptr
    }

    pub fn new() -> (reg: AddrRegister)
        ensures
            reg.value() == 0,
            reg.expects_high(),
    {
        AddrRegister { value: 0, hi_ptr: true }
    }

    /// Shifts one byte in and flips the latch.
    pub fn update(&mut self, data: u8)
        ensures
            final(self).value() == addr_after_write(
                old(self).value(),
                old(self).expects_high(),
                data,
            ),
            final(self).expects_high() == !old(self).expects_high(),
    {
        proof {
            use_type_invariant(&*self);
        }
        if self.hi_ptr {
            self.value = ((data % 64) as u16) * 256 + self.value % 256;
        } else {
            self.value = (self.value / 256) * 256 + data as u16;
        }
        self.hi_ptr = !self.hi_ptr;
    }

    /// Moves the address on, wrapping inside the video address space.
    pub fn increment(&mut self, inc: u8)
        ensures
            final(self).value() == addr_after_increment(old(self).value(), inc),
            final(self).expects_high() == old(self).expects_high(),
    {
        proof {
            use_type_invariant(&*self);
        }
        self.value = (self.value + inc as u16) % VIDEO_ADDRESS_SPACE;
    }

    /// Makes the next byte written the high one.
    pub fn reset_latch(&mut self)
        ensures
            final(self).value() == old(self).value(),
            final(self).expects_high(),
    {
        proof {
            use_type_invariant(&*self);
        }
        self.hi_ptr = true;
    }

    /// The address held; it always lies inside the video address space.
    pub fn get(&self) -> (value: u16)
        ensures
            value == self.value(),
            value < VIDEO_ADDRESS_SPACE,
    {
        proof {
            use_type_invariant(self);
        }
        self.value
    }
}

} // verus!
