//! Comparisons: a register against an operand, through the flags alone.

use vstd::prelude::*;
use crate::bus::FrameCallback;
use crate::cpu::alu::{difference, subtract};
use crate::cpu::{AddressingMode, CpuState, CARRY_BIT, CPU};

verus! {

impl CpuState {
    /// The carry flag says whether the register is at least the operand;
    /// the zero and negative flags follow their wrapping difference. No
    /// register changes.
    #[verifier::opaque]
    pub open spec fn compare(self, register: u8, value: u8) -> CpuState {
        self.with_flag(CARRY_BIT, register >= value).set_zero_and_neg_flags(
            difference(register, value),
        )
    }

    pub open spec fn cmp(self, mode: AddressingMode) -> CpuState {
        let (s, value, page_crossed) = self.operand(mode);
        s.compare(s.register_a, value).charge(page_crossed)
    }

    pub open spec fn cpx(self, mode: AddressingMode) -> CpuState {
        let (s, value, _) = self.operand(mode);
        s.compare(s.register_x, value)
    }

    pub open spec fn cpy(self, mode: AddressingMode) -> CpuState {
        let (s, value, _) = self.operand(mode);
        s.compare(s.register_y, value)
    }

    /// Decrement, then compare.
    pub open spec fn dcp(self, mode: AddressingMode) -> CpuState {
        self.dec(mode).cmp(mode)
    }
}

impl<F: FrameCallback> CPU<F> {
    /// Sets the carry, zero and negative flags from a register and an
    /// operand.
    pub fn compare(&mut self, register: u8, value: u8)
        ensures
            final(self)@ == old(self)@.compare(register, value),
    {
        reveal(CpuState::compare);
        self.set_flag(CARRY_BIT, register >= value);
        self.set_zero_and_neg_flags(subtract(register, value));
    }

    /// CMP: compares the accumulator.
    pub fn cmp(&mut self, mode: &AddressingMode)
        requires
            mode.has_address(),
        ensures
            final(self)@ == old(self)@.cmp(*mode),
    {
        let (value, page_cross) = self.fetch_operand(mode);
        self.compare(self.register_a, value);
        self.charge(page_cross);
    }

    /// CPX: compares X.
    pub fn cpx(&mut self, mode: &AddressingMode)
        requires
            mode.has_address(),
        ensures
            final(self)@ == old(self)@.cpx(*mode),
    {
        let (value, _) = self.fetch_operand(mode);
        self.compare(self.register_x, value);
    }

    /// CPY: compares Y.
    pub fn cpy(&mut self, mode: &AddressingMode)
        requires
            mode.has_address(),
        ensures
            final(self)@ == old(self)@.cpy(*mode),
    {
        let (value, _) = self.fetch_operand(mode);
        self.compare(self.register_y, value);
    }

    /// DCP: one less in memory, then the accumulator compared with it.
    pub fn dcp(&mut self, mode: &AddressingMode)
        requires
            mode.has_address(),
        ensures
            final(self)@ == old(self)@.dcp(*mode),
    {
        self.dec(mode);
        self.cmp(mode);
    }
}

} // verus!
