//! The stack: 256 bytes in page 1, growing down.

use vstd::prelude::*;
use crate::bits::with_bits;
use crate::bus::{
    lemma_ram_read_after_other_write, lemma_ram_read_after_write, word, FrameCallback,
};
use crate::cpu::control::interrupted_status;
use crate::cpu::{
    CpuState, Memory, BREAK_BIT, CPU, NOT_A_FLAG_BIT, STACK, STATUS_RESET_CODE,
};

verus! {

/// The address of a slot of the stack.
pub open spec fn stack_addr(stack_pointer: u8) -> u16 {
    (STACK + stack_pointer) as u16
}

/// The status as `PHP` pushes it: with the break bit and bit 5 set.
pub open spec fn pushed_status(status: u8) -> u8 {
    status | BREAK_BIT | NOT_A_FLAG_BIT
}

/// The status as `PLP` and `RTI` take it from the stack: with bit 5 set
/// and the break bit clear.
pub open spec fn pulled_status(status: u8) -> u8 {
    (status | NOT_A_FLAG_BIT) & !BREAK_BIT
}

impl CpuState {
    /// What a push leaves alone: the registers, the flags and the
    /// program counter.
    pub open spec fn unstacked(self) -> (u8, u8, u8, u8, u16) {
        (self.register_a, self.register_x, self.register_y, self.status, self.program_counter)
    }

    /// Pop: the stack pointer goes up, wrapping, then the slot it points
    /// to is read.
    #[verifier::opaque]
    pub open spec fn stack_pop(self) -> (CpuState, u8) {
        let stack_pointer = ((self.stack_pointer + 1) % 256) as u8;
        CpuState { stack_pointer, ..self }.read(stack_addr(stack_pointer))
    }

    /// Push: the slot the stack pointer points to is written, then the
    /// stack pointer goes down, wrapping.
    #[verifier::opaque]
    pub open spec fn stack_push(self, data: u8) -> CpuState {
        CpuState {
            stack_pointer: ((self.stack_pointer + 255) % 256) as u8,
            ..self.write(stack_addr(self.stack_pointer), data)
        }
    }

    /// Pushes a word, high byte first.
    #[verifier::opaque]
    pub open spec fn stack_push_u16(self, data: u16) -> CpuState {
        self.stack_push((data / 256) as u8).stack_push((data % 256) as u8)
    }

    /// Pops a word, low byte first.
    #[verifier::opaque]
    pub open spec fn stack_pop_u16(self) -> (CpuState, u16) {
        let (s, lo) = self.stack_pop();
        let (s1, hi) = s.stack_pop();
        (s1, word(lo, hi))
    }

    pub open spec fn pha(self) -> CpuState {
        self.stack_push(self.register_a)
    }

    pub open spec fn php(self) -> CpuState {
        self.stack_push(pushed_status(self.status))
    }

    pub open spec fn pla(self) -> CpuState {
        let (s, value) = self.stack_pop();
        CpuState { register_a: value, ..s }.set_zero_and_neg_flags(value)
    }

    pub open spec fn plp(self) -> CpuState {
        let (s, value) = self.stack_pop();
        CpuState { status: pulled_status(value), ..s }
    }
}

impl<F: FrameCallback> CPU<F> {
    pub fn stack_pop(&mut self) -> (value: u8)
        ensures
            (final(self)@, value) == old(self)@.stack_pop(),
    {
        reveal(CpuState::stack_pop);
        self.stack_pointer = self.stack_pointer.wrapping_add(1);
        self.mem_read(STACK + self.stack_pointer as u16)
    }

    pub fn stack_push(&mut self, data: u8)
        ensures
            final(self)@ == old(self)@.stack_push(data),
            final(self)@.unstacked() == old(self)@.unstacked(),
    {
        reveal(CpuState::stack_push);
        self.mem_write(STACK + self.stack_pointer as u16, data);
        self.stack_pointer = self.stack_pointer.wrapping_sub(1);
    }

    pub fn stack_push_u16(&mut self, data: u16)
        ensures
            final(self)@ == old(self)@.stack_push_u16(data),
            final(self)@.unstacked() == old(self)@.unstacked(),
    {
        reveal(CpuState::stack_push_u16);
        let hi = (data / 256) as u8;
        let lo = (data % 256) as u8;
        self.stack_push(hi);
        self.stack_push(lo);
    }

    pub fn stack_pop_u16(&mut self) -> (value: u16)
        ensures
            (final(self)@, value) == old(self)@.stack_pop_u16(),
    {
        reveal(CpuState::stack_pop_u16);
        let lo = self.stack_pop() as u16;
        let hi = self.stack_pop() as u16;
        hi * 256 + lo
    }

    /// PHA: pushes the accumulator.
    pub fn pha(&mut self)
        ensures
            final(self)@ == old(self)@.pha(),
    {
        self.stack_push(self.register_a);
    }

    /// PHP: pushes the status with the break bit and bit 5 set.
    pub fn php(&mut self)
        ensures
            final(self)@ == old(self)@.php(),
    {
        let cur_flags = self.status | BREAK_BIT | NOT_A_FLAG_BIT;
        self.stack_push(cur_flags);
    }

    /// PLA: pulls the accumulator and sets the zero and negative flags
    /// from it.
    pub fn pla(&mut self)
        ensures
            final(self)@ == old(self)@.pla(),
    {
        self.register_a = self.stack_pop();
        self.set_zero_and_neg_flags(self.register_a);
    }

    /// PLP: pulls the status, then sets bit 5 and clears the break bit.
    pub fn plp(&mut self)
        ensures
            final(self)@ == old(self)@.plp(),
    {
        self.status = self.stack_pop();
        self.status = (self.status | NOT_A_FLAG_BIT) & !BREAK_BIT;
    }
}

/// A byte that was pushed is what the next pop returns, and the pop
/// puts the machine back as it was but for the slot written.
pub proof fn lemma_pop_after_push(s: CpuState, data: u8)
    requires
        s.bus.wf(),
    ensures
        s.stack_push(data).stack_pop().1 == data,
        s.stack_push(data).stack_pop().0 == s.write(stack_addr(s.stack_pointer), data),
        s.stack_push(data).stack_pop().0.stack_pointer == s.stack_pointer,
        s.stack_push(data).bus.wf(),
{
    reveal(CpuState::stack_pop);
    reveal(CpuState::stack_push);
    lemma_ram_read_after_write(s.bus, stack_addr(s.stack_pointer), data);
}

/// A word that was pushed is what popping a word returns next, and the
/// stack pointer is then where it was.
pub proof fn lemma_pop_u16_after_push_u16(s: CpuState, data: u16)
    requires
        s.bus.wf(),
    ensures
        s.stack_push_u16(data).stack_pop_u16().1 == data,
        s.stack_push_u16(data).stack_pop_u16().0.stack_pointer == s.stack_pointer,
{
    reveal(CpuState::stack_push_u16);
    reveal(CpuState::stack_pop_u16);
    reveal(CpuState::stack_pop);
    reveal(CpuState::stack_push);
    let hi = (data / 256) as u8;
    let lo = (data % 256) as u8;
    let s1 = s.stack_push(hi);
    let high_slot = stack_addr(s.stack_pointer);
    let low_slot = stack_addr(s1.stack_pointer);
    lemma_pop_after_push(s, hi);
    lemma_pop_after_push(s1, lo);
    let s3 = s1.stack_push(lo).stack_pop().0;
    assert(s3 == s1.write(low_slot, lo));
    lemma_ram_read_after_write(s.bus, high_slot, hi);
    lemma_ram_read_after_other_write(s1.bus, low_slot, lo, high_slot);
    assert(s1.bus.read(high_slot).1 == hi);
    assert(s3.stack_pop().1 == hi);
}

/// A status pushed by `PHP` and pulled by `PLP` comes back with bit 5
/// set and the break bit clear and is otherwise the same; the stack
/// pointer is then where it was.
pub proof fn lemma_plp_after_php(s: CpuState)
    requires
        s.bus.wf(),
    ensures
        s.php().plp().status == with_bits(with_bits(s.status, NOT_A_FLAG_BIT, true), BREAK_BIT, false),
        s.php().plp().status & NOT_A_FLAG_BIT == NOT_A_FLAG_BIT,
        s.php().plp().status & BREAK_BIT == 0,
        s.php().plp().status & !(NOT_A_FLAG_BIT | BREAK_BIT) == s.status & !(NOT_A_FLAG_BIT
            | BREAK_BIT),
        s.php().plp().stack_pointer == s.stack_pointer,
{
    lemma_pop_after_push(s, pushed_status(s.status));
    let status = s.status;
    assert(((status | 0x10 | 0x20) | 0x20) & !0x10u8 == (status | 0x20) & !0x10u8) by (bit_vector);
    assert(((status | 0x20) & !0x10u8) & 0x20 == 0x20) by (bit_vector);
    assert(((status | 0x20) & !0x10u8) & 0x10 == 0) by (bit_vector);
    assert(((status | 0x20) & !0x10u8) & !(0x20u8 | 0x10u8) == status & !(0x20u8 | 0x10u8))
        by (bit_vector);
}

/// Wherever the status is pushed bit 5 is set, and wherever it is
/// pulled bit 5 is set and the break bit clear; an interrupt pushes the
/// break bit clear, `PHP` and `BRK` push it set.
pub proof fn lemma_bits_4_and_5_on_the_stack(status: u8)
    ensures
        pushed_status(status) & NOT_A_FLAG_BIT == NOT_A_FLAG_BIT,
        pushed_status(status) & BREAK_BIT == BREAK_BIT,
        pulled_status(status) & NOT_A_FLAG_BIT == NOT_A_FLAG_BIT,
        pulled_status(status) & BREAK_BIT == 0,
        interrupted_status(status) & NOT_A_FLAG_BIT == NOT_A_FLAG_BIT,
        interrupted_status(status) & BREAK_BIT == 0,
        STATUS_RESET_CODE & NOT_A_FLAG_BIT == NOT_A_FLAG_BIT,
{
    assert((status | 0x10 | 0x20) & 0x20 == 0x20 && (status | 0x10 | 0x20) & 0x10 == 0x10)
        by (bit_vector);
    assert(((status | 0x20) & !0x10u8) & 0x20 == 0x20 && ((status | 0x20) & !0x10u8) & 0x10 == 0)
        by (bit_vector);
    assert(((status & !0x10u8) | 0x20) & 0x20 == 0x20 && ((status & !0x10u8) | 0x20) & 0x10 == 0)
        by (bit_vector);
    assert(0x24u8 & 0x20 == 0x20) by (bit_vector);
}

} // verus!
