//! The scroll register: written twice, first the horizontal offset, then
//! the vertical one.

use vstd::prelude::*;

verus! {

#[derive(Debug)]
pub struct ScrollRegister {
    pub scroll_x: u8,
    pub scroll_y: u8,
    pub latch: bool,
}

impl ScrollRegister {
    pub fn new() -> (reg: ScrollRegister)
        ensures
            reg.scroll_x == 0,
            reg.scroll_y == 0,
            !reg.latch,
    {
        ScrollRegister { scroll_x: 0, scroll_y: 0, latch: false }
    }

    /// Makes the next write the horizontal one.
    pub fn reset_latch(&mut self)
        ensures
            final(self).scroll_x == old(self).scroll_x,
            final(self).scroll_y == old(self).scroll_y,
            !final(self).latch,
    {
        self.latch = false;
    }

    /// Stores one offset and flips the latch.
    pub fn write(&mut self, data: u8)
        ensures
            final(self).scroll_x == (if old(self).latch { old(self).scroll_x } else { data }),
            final(self).scroll_y == (if old(self).latch { data } else { old(self).scroll_y }),
            final(self).latch == !old(self).latch,
    {
        if !self.latch {
            self.scroll_x = data;
        } else {
            self.scroll_y = data;
        }
        self.latch = !self.latch;
    }
}

} // verus!
