//! Loads, stores, moves between registers, and the instructions that
//! set or clear one flag.

use vstd::prelude::*;
use crate::bus::FrameCallback;
use crate::cpu::{
    AddressingMode, CpuState, Memory, CARRY_BIT, CPU, DECIMAL_MODE, INTERRUPT_DISABLE_BIT,
    OVERFLOW_BIT,
};

verus! {

impl CpuState {
    pub open spec fn lda(self, mode: AddressingMode) -> CpuState {
        let (s, value, page_crossed) = self.operand(mode);
        s.load_a(value).charge(page_crossed)
    }

    pub open spec fn ldx(self, mode: AddressingMode) -> CpuState {
        let (s, value, page_crossed) = self.operand(mode);
        s.load_x(value).charge(page_crossed)
    }

    pub open spec fn ldy(self, mode: AddressingMode) -> CpuState {
        let (s, value, page_crossed) = self.operand(mode);
        s.load_y(value).charge(page_crossed)
    }

    /// Writes a byte to the effective address.
    #[verifier::opaque]
    pub open spec fn store(self, mode: AddressingMode, value: u8) -> CpuState {
        let (s, addr, _) = self.operand_address(mode);
        s.write(addr, value)
    }

    pub open spec fn sta(self, mode: AddressingMode) -> CpuState {
        self.store(mode, self.register_a)
    }

    pub open spec fn stx(self, mode: AddressingMode) -> CpuState {
        self.store(mode, self.register_x)
    }

    pub open spec fn sty(self, mode: AddressingMode) -> CpuState {
        self.store(mode, self.register_y)
    }

    pub open spec fn tax(self) -> CpuState {
        self.load_x(self.register_a)
    }

    pub open spec fn tay(self) -> CpuState {
        self.load_y(self.register_a)
    }

    pub open spec fn tsx(self) -> CpuState {
        self.load_x(self.stack_pointer)
    }

    pub open spec fn txa(self) -> CpuState {
        self.load_a(self.register_x)
    }

    /// The one move that leaves the flags alone.
    pub open spec fn txs(self) -> CpuState {
        CpuState { stack_pointer: self.register_x, ..self }
    }

    pub open spec fn tya(self) -> CpuState {
        self.load_a(self.register_y)
    }
}

impl<F: FrameCallback> CPU<F> {
    /// LDA: loads the accumulator.
    pub fn lda(&mut self, mode: &AddressingMode)
        requires
            mode.has_address(),
        ensures
            final(self)@ == old(self)@.lda(*mode),
    {
        let (value, page_cross) = self.fetch_operand(mode);
        self.load_a(value);
        self.charge(page_cross);
    }

    /// LDX: loads X.
    pub fn ldx(&mut self, mode: &AddressingMode)
        requires
            mode.has_address(),
        ensures
            final(self)@ == old(self)@.ldx(*mode),
    {
        let (value, page_cross) = self.fetch_operand(mode);
        self.load_x(value);
        self.charge(page_cross);
    }

    /// LDY: loads Y.
    pub fn ldy(&mut self, mode: &AddressingMode)
        requires
            mode.has_address(),
        ensures
            final(self)@ == old(self)@.ldy(*mode),
    {
        let (value, page_cross) = self.fetch_operand(mode);
        self.load_y(value);
        self.charge(page_cross);
    }

    /// Writes a byte to the effective address.
    pub fn store(&mut self, mode: &AddressingMode, value: u8)
        requires
            mode.has_address(),
        ensures
            final(self)@ == old(self)@.store(*mode, value),
    {
        reveal(CpuState::store);
        let (addr, _) = self.get_operand_address(mode);
        self.mem_write(addr, value);
    }

    /// STA: stores the accumulator.
    pub fn sta(&mut self, mode: &AddressingMode)
        requires
            mode.has_address(),
        ensures
            final(self)@ == old(self)@.sta(*mode),
    {
        self.store(mode, self.register_a);
    }

    /// STX: stores X.
    pub fn stx(&mut self, mode: &AddressingMode)
        requires
            mode.has_address(),
        ensures
            final(self)@ == old(self)@.stx(*mode),
    {
        self.store(mode, self.register_x);
    }

    /// STY: stores Y.
    pub fn sty(&mut self, mode: &AddressingMode)
        requires
            mode.has_address(),
        ensures
            final(self)@ == old(self)@.sty(*mode),
    {
        self.store(mode, self.register_y);
    }

    /// TAX: accumulator to X.
    pub fn tax(&mut self)
        ensures
            final(self)@ == old(self)@.tax(),
    {
        self.load_x(self.register_a);
    }

    /// TAY: accumulator to Y.
    pub fn tay(&mut self)
        ensures
            final(self)@ == old(self)@.tay(),
    {
        self.load_y(self.register_a);
    }

    /// TSX: stack pointer to X.
    pub fn tsx(&mut self)
        ensures
            final(self)@ == old(self)@.tsx(),
    {
        self.load_x(self.stack_pointer);
    }

    /// TXA: X to accumulator.
    pub fn txa(&mut self)
        ensures
            final(self)@ == old(self)@.txa(),
    {
        self.load_a(self.register_x);
    }

    /// TXS: X to stack pointer; no flag changes.
    pub fn txs(&mut self)
        ensures
            final(self)@ == old(self)@.txs(),
    {
        self.stack_pointer = self.register_x;
    }

    /// TYA: Y to accumulator.
    pub fn tya(&mut self)
        ensures
            final(self)@ == old(self)@.tya(),
    {
        self.load_a(self.register_y);
    }

    /// CLC: clears the carry flag.
    pub fn clc(&mut self)
        ensures
            final(self)@ == old(self)@.with_flag(CARRY_BIT, false),
    {
        self.set_flag(CARRY_BIT, false);
    }

    /// CLD: clears the decimal flag.
    pub fn cld(&mut self)
        ensures
            final(self)@ == old(self)@.with_flag(DECIMAL_MODE, false),
    {
        self.set_flag(DECIMAL_MODE, false);
    }

    /// CLI: clears the interrupt-disable flag.
    pub fn cli(&mut self)
        ensures
            final(self)@ == old(self)@.with_flag(INTERRUPT_DISABLE_BIT, false),
    {
        self.set_flag(INTERRUPT_DISABLE_BIT, false);
    }

    /// CLV: clears the overflow flag.
    pub fn clv(&mut self)
        ensures
            final(self)@ == old(self)@.with_flag(OVERFLOW_BIT, false),
    {
        self.set_flag(OVERFLOW_BIT, false);
    }

    /// SEC: sets the carry flag.
    pub fn sec(&mut self)
        ensures
            final(self)@ == old(self)@.with_flag(CARRY_BIT, true),
    {
        self.set_flag(CARRY_BIT, true);
    }

    /// SED: sets the decimal flag.
    pub fn sed(&mut self)
        ensures
            final(self)@ == old(self)@.with_flag(DECIMAL_MODE, true),
    {
        self.set_flag(DECIMAL_MODE, true);
    }

    /// SEI: sets the interrupt-disable flag.
    pub fn sei(&mut self)
        ensures
            final(self)@ == old(self)@.with_flag(INTERRUPT_DISABLE_BIT, true),
    {
        self.set_flag(INTERRUPT_DISABLE_BIT, true);
    }
}

} // verus!
