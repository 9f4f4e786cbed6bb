//! Instructions that move the program counter, and interrupts.

use vstd::prelude::*;
use crate::bits::with_bits;
use crate::bus::{next_addr, word, FrameCallback, MAX_TICK};
use crate::cpu::addressing::make_word;
use crate::cpu::interrupt::Interrupt;
use crate::cpu::stack::{pulled_status, pushed_status};
use crate::cpu::{
    AddressingMode, CpuState, Memory, BREAK_BIT, BREAK_VECTOR, CARRY_BIT, CPU,
    INTERRUPT_DISABLE_BIT, NEGATIVE_BIT, NOT_A_FLAG_BIT, OVERFLOW_BIT, ZERO_BIT,
};

verus! {

/// The status as an interrupt pushes it: with the break bit clear and
/// bit 5 set.
pub open spec fn interrupted_status(status: u8) -> u8 {
    with_bits(with_bits(status, BREAK_BIT, false), NOT_A_FLAG_BIT, true)
}

impl CpuState {
    /// A branch. Not taken, it changes nothing: the step over the
    /// operand byte is left to the loop that runs the instructions.
    /// Taken, it costs a cycle, and one more where the target lies in
    /// another page than the next instruction.
    #[verifier::opaque]
    pub open spec fn branch(self, condition: bool) -> CpuState {
        if condition {
            let (s, target, page_crossed) = self.tick(1).operand_address(AddressingMode::Relative);
            CpuState { program_counter: target, ..s.charge(page_crossed) }
        } else {
            self
        }
    }

    pub open spec fn jmp_absolute(self) -> CpuState {
        let (s, target) = self.read_u16(self.program_counter);
        CpuState { program_counter: target, ..s }
    }

    /// The jump through a pointer. A pointer in the last byte of a page
    /// takes its high byte from the first byte of that page, not of the
    /// next.
    pub open spec fn jmp_indirect(self) -> CpuState {
        let (s, pointer) = self.read_u16(self.program_counter);
        if pointer % 256 == 255 {
            let (s1, lo) = s.read(pointer);
            let (s2, hi) = s1.read((pointer - 255) as u16);
            CpuState { program_counter: word(lo, hi), ..s2 }
        } else {
            let (s1, target) = s.read_u16(pointer);
            CpuState { program_counter: target, ..s1 }
        }
    }

    /// The call: the address of the last byte of the instruction is
    /// pushed, then the program counter takes the operand.
    pub open spec fn jsr(self) -> CpuState {
        let (s, target) = self.stack_push_u16(next_addr(self.program_counter)).read_u16(
            self.program_counter,
        );
        CpuState { program_counter: target, ..s }
    }

    /// The return: the address after the one popped.
    pub open spec fn rts(self) -> CpuState {
        let (s, addr) = self.stack_pop_u16();
        CpuState { program_counter: next_addr(addr), ..s }
    }

    /// The return from an interrupt: the status is pulled, with bit 5
    /// set and the break bit clear, then the program counter.
    pub open spec fn rti(self) -> CpuState {
        let (s, status) = self.stack_pop();
        let (s1, addr) = CpuState { status: pulled_status(status), ..s }.stack_pop_u16();
        CpuState { program_counter: addr, ..s1 }
    }

    /// The forced interrupt: the program counter is pushed, then the
    /// status with the break bit and bit 5 set; interrupts are disabled
    /// and the program counter comes from the break vector.
    pub open spec fn brk(self) -> CpuState {
        let pushed = self.stack_push_u16(self.program_counter).stack_push(
            pushed_status(self.status),
        );
        let (s, target) = pushed.with_flag(INTERRUPT_DISABLE_BIT, true).read_u16(BREAK_VECTOR);
        CpuState { program_counter: target, ..s }
    }

    /// Entry into an interrupt handler: the program counter is pushed,
    /// then the status with the break bit clear and bit 5 set;
    /// interrupts are disabled, the entry is charged, and the program
    /// counter comes from the interrupt's vector.
    pub open spec fn interrupt(self, interrupt: Interrupt) -> CpuState {
        let pushed = self.stack_push_u16(self.program_counter).stack_push(
            interrupted_status(self.status),
        );
        let (s, target) = pushed.with_flag(INTERRUPT_DISABLE_BIT, true).tick(
            interrupt.cpu_cycles,
        ).read_u16(interrupt.vector_addr);
        CpuState { program_counter: target, ..s }
    }
}

impl<F: FrameCallback> CPU<F> {
    /// Branches when the condition holds.
    pub fn branch(&mut self, condition: bool)
        ensures
            final(self)@ == old(self)@.branch(condition),
    {
        reveal(CpuState::branch);
        if condition {
            self.bus.tick(1);
            let (jump_addr, page_cross) = self.get_operand_address(&AddressingMode::Relative);
            self.charge(page_cross);
            self.program_counter = jump_addr;
        }
    }

    /// BCC: branches when the carry flag is clear.
    pub fn bcc(&mut self)
        ensures
            final(self)@ == old(self)@.branch(!old(self)@.flag(CARRY_BIT)),
    {
        self.branch(!self.flag(CARRY_BIT));
    }

    /// BCS: branches when the carry flag is set.
    pub fn bcs(&mut self)
        ensures
            final(self)@ == old(self)@.branch(old(self)@.flag(CARRY_BIT)),
    {
        self.branch(self.flag(CARRY_BIT));
    }

    /// BEQ: branches when the zero flag is set.
    pub fn beq(&mut self)
        ensures
            final(self)@ == old(self)@.branch(old(self)@.flag(ZERO_BIT)),
    {
        self.branch(self.flag(ZERO_BIT));
    }

    /// BMI: branches when the negative flag is set.
    pub fn bmi(&mut self)
        ensures
            final(self)@ == old(self)@.branch(old(self)@.flag(NEGATIVE_BIT)),
    {
        self.branch(self.flag(NEGATIVE_BIT));
    }

    /// BNE: branches when the zero flag is clear.
    pub fn bne(&mut self)
        ensures
            final(self)@ == old(self)@.branch(!old(self)@.flag(ZERO_BIT)),
    {
        self.branch(!self.flag(ZERO_BIT));
    }

    /// BPL: branches when the negative flag is clear.
    pub fn bpl(&mut self)
        ensures
            final(self)@ == old(self)@.branch(!old(self)@.flag(NEGATIVE_BIT)),
    {
        self.branch(!self.flag(NEGATIVE_BIT));
    }

    /// BVC: branches when the overflow flag is clear.
    pub fn bvc(&mut self)
        ensures
            final(self)@ == old(self)@.branch(!old(self)@.flag(OVERFLOW_BIT)),
    {
        self.branch(!self.flag(OVERFLOW_BIT));
    }

    /// BVS: branches when the overflow flag is set.
    pub fn bvs(&mut self)
        ensures
            final(self)@ == old(self)@.branch(old(self)@.flag(OVERFLOW_BIT)),
    {
        self.branch(self.flag(OVERFLOW_BIT));
    }

    /// JMP with an address as operand.
    pub fn jmp_absolute(&mut self)
        ensures
            final(self)@ == old(self)@.jmp_absolute(),
    {
        let addr = self.mem_read_u16(self.program_counter);
        self.program_counter = addr;
    }

    /// JMP through a pointer.
    pub fn jmp_indirect(&mut self)
        ensures
            final(self)@ == old(self)@.jmp_indirect(),
    {
        let mem_addr = self.mem_read_u16(self.program_counter);
        let indirect_ref = if mem_addr % 256 == 255 {
            let lo = self.mem_read(mem_addr);
            let hi = self.mem_read(mem_addr - 255);
            make_word(lo, hi)
        } else {
            self.mem_read_u16(mem_addr)
        };
        self.program_counter = indirect_ref;
    }

    /// JSR: calls a subroutine.
    pub fn jsr(&mut self)
        ensures
            final(self)@ == old(self)@.jsr(),
    {
        self.stack_push_u16(self.program_counter.wrapping_add(1));
        let target_address = self.mem_read_u16(self.program_counter);
        self.program_counter = target_address;
    }

    /// RTS: returns from a subroutine.
    pub fn rts(&mut self)
        ensures
            final(self)@ == old(self)@.rts(),
    {
        self.program_counter = self.stack_pop_u16().wrapping_add(1);
    }

    /// RTI: returns from an interrupt handler.
    pub fn rti(&mut self)
        ensures
            final(self)@ == old(self)@.rti(),
    {
        self.status = self.stack_pop();
        self.status = (self.status | NOT_A_FLAG_BIT) & !BREAK_BIT;
        self.program_counter = self.stack_pop_u16();
    }

    /// BRK: forces an interrupt.
    pub fn brk(&mut self)
        ensures
            final(self)@ == old(self)@.brk(),
    {
        self.stack_push_u16(self.program_counter);
        self.stack_push(self.status | BREAK_BIT | NOT_A_FLAG_BIT);
        self.set_flag(INTERRUPT_DISABLE_BIT, true);
        self.program_counter = self.mem_read_u16(BREAK_VECTOR);
    }

    /// Enters the handler of an interrupt.
    pub fn interrupt(&mut self, interrupt: Interrupt)
        requires
            interrupt.cpu_cycles <= MAX_TICK,
        ensures
            final(self)@ == old(self)@.interrupt(interrupt),
    {
        self.stack_push_u16(self.program_counter);
        let flag = (self.status & !BREAK_BIT) | NOT_A_FLAG_BIT;
        self.stack_push(flag);
        self.set_flag(INTERRUPT_DISABLE_BIT, true);
        self.bus.tick(interrupt.cpu_cycles);
        self.program_counter = self.mem_read_u16(interrupt.vector_addr);
    }

    /// NOP: does nothing.
    pub fn nop(&mut self)
        ensures
            final(self)@ == old(self)@,
    {
    }
}

} // verus!
