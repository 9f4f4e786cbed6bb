//! Arithmetic, logic, shifts, increments and decrements.

use vstd::prelude::*;
use crate::bus::FrameCallback;
use crate::cpu::alu::{
    add_bytes, add_carries, add_overflows, add_result, decrement, decremented, increment,
    incremented, low_bit, rotate_left, rotate_right, rotated_left, rotated_right, top_bit,
};
use crate::cpu::{
    AddressingMode, CpuState, Memory, CARRY_BIT, CPU, NEGATIVE_BIT, OVERFLOW_BIT, ZERO_BIT,
};

verus! {

impl AddressingMode {
    /// The modes of an instruction that changes a byte where it is: in
    /// the accumulator or in memory.
    pub open spec fn has_target(self) -> bool {
        self is Accumulator || self.has_address()
    }
}

impl CpuState {
    /// The accumulator takes a value, and the zero and negative flags
    /// follow it.
    #[verifier::opaque]
    pub open spec fn load_a(self, value: u8) -> CpuState {
        CpuState { register_a: value, ..self }.set_zero_and_neg_flags(value)
    }

    #[verifier::opaque]
    pub open spec fn load_x(self, value: u8) -> CpuState {
        CpuState { register_x: value, ..self }.set_zero_and_neg_flags(value)
    }

    #[verifier::opaque]
    pub open spec fn load_y(self, value: u8) -> CpuState {
        CpuState { register_y: value, ..self }.set_zero_and_neg_flags(value)
    }

    /// Accumulator + operand + carry: the low 8 bits go to the
    /// accumulator, the carry flag says whether the sum exceeded them,
    /// the overflow flag whether the sign is wrong.
    #[verifier::opaque]
    pub open spec fn add_to_accumulator(self, operand: u8) -> CpuState {
        let carry_in = self.flag(CARRY_BIT);
        let result = add_result(self.register_a, operand, carry_in);
        self.with_flag(CARRY_BIT, add_carries(self.register_a, operand, carry_in)).with_flag(
            OVERFLOW_BIT,
            add_overflows(self.register_a, operand, result),
        ).load_a(result)
    }

    pub open spec fn adc(self, mode: AddressingMode) -> CpuState {
        let (s, value, page_crossed) = self.operand(mode);
        s.add_to_accumulator(value).charge(page_crossed)
    }

    /// Subtraction is the addition of the complemented operand.
    pub open spec fn sbc(self, mode: AddressingMode) -> CpuState {
        let (s, value, page_crossed) = self.operand(mode);
        s.add_to_accumulator(!value).charge(page_crossed)
    }

    pub open spec fn and(self, mode: AddressingMode) -> CpuState {
        let (s, value, page_crossed) = self.operand(mode);
        s.load_a(s.register_a & value).charge(page_crossed)
    }

    pub open spec fn ora(self, mode: AddressingMode) -> CpuState {
        let (s, value, page_crossed) = self.operand(mode);
        s.load_a(s.register_a | value).charge(page_crossed)
    }

    pub open spec fn eor(self, mode: AddressingMode) -> CpuState {
        let (s, value, page_crossed) = self.operand(mode);
        s.load_a(s.register_a ^ value).charge(page_crossed)
    }

    /// The zero flag says whether accumulator and operand share no bit;
    /// bits 6 and 7 of the operand go to the overflow and negative flags.
    pub open spec fn bit(self, mode: AddressingMode) -> CpuState {
        let (s, value, _) = self.operand(mode);
        s.with_flag(ZERO_BIT, value & s.register_a == 0).with_flag(
            OVERFLOW_BIT,
            value & OVERFLOW_BIT > 0,
        ).with_flag(NEGATIVE_BIT, value & NEGATIVE_BIT > 0)
    }

    /// The byte that an instruction changes where it is, with its
    /// address (0 for the accumulator).
    #[verifier::opaque]
    pub open spec fn target(self, mode: AddressingMode) -> (CpuState, u16, u8) {
        if mode is Accumulator {
            (self, 0, self.register_a)
        } else {
            let (s, addr, _) = self.operand_address(mode);
            let (s1, value) = s.read(addr);
            (s1, addr, value)
        }
    }

    /// Puts a changed byte back where it came from.
    pub open spec fn store_target(self, mode: AddressingMode, addr: u16, value: u8) -> CpuState {
        if mode is Accumulator {
            CpuState { register_a: value, ..self }
        } else {
            self.write(addr, value)
        }
    }

    /// The target becomes `result`, the carry flag the bit shifted off,
    /// and the zero and negative flags follow the result.
    #[verifier::opaque]
    pub open spec fn shift(
        self,
        mode: AddressingMode,
        addr: u16,
        result: u8,
        carry_out: bool,
    ) -> CpuState {
        self.with_flag(CARRY_BIT, carry_out).store_target(
            mode,
            addr,
            result,
        ).set_zero_and_neg_flags(result)
    }

    pub open spec fn asl(self, mode: AddressingMode) -> CpuState {
        let (s, addr, value) = self.target(mode);
        s.shift(mode, addr, rotated_left(value, false), top_bit(value))
    }

    pub open spec fn lsr(self, mode: AddressingMode) -> CpuState {
        let (s, addr, value) = self.target(mode);
        s.shift(mode, addr, rotated_right(value, false), low_bit(value))
    }

    pub open spec fn rol(self, mode: AddressingMode) -> CpuState {
        let (s, addr, value) = self.target(mode);
        s.shift(mode, addr, rotated_left(value, s.flag(CARRY_BIT)), top_bit(value))
    }

    pub open spec fn ror(self, mode: AddressingMode) -> CpuState {
        let (s, addr, value) = self.target(mode);
        s.shift(mode, addr, rotated_right(value, s.flag(CARRY_BIT)), low_bit(value))
    }

    pub open spec fn inc(self, mode: AddressingMode) -> CpuState {
        let (s, addr, _) = self.operand_address(mode);
        let (s1, value) = s.read(addr);
        s1.write(addr, incremented(value)).set_zero_and_neg_flags(incremented(value))
    }

    pub open spec fn dec(self, mode: AddressingMode) -> CpuState {
        let (s, addr, _) = self.operand_address(mode);
        let (s1, value) = s.read(addr);
        s1.write(addr, decremented(value)).set_zero_and_neg_flags(decremented(value))
    }

    pub open spec fn inx(self) -> CpuState {
        self.load_x(incremented(self.register_x))
    }

    pub open spec fn iny(self) -> CpuState {
        self.load_y(incremented(self.register_y))
    }

    pub open spec fn dex(self) -> CpuState {
        self.load_x(decremented(self.register_x))
    }

    pub open spec fn dey(self) -> CpuState {
        self.load_y(decremented(self.register_y))
    }
}

impl<F: FrameCallback> CPU<F> {
    pub fn load_a(&mut self, value: u8)
        ensures
            final(self)@ == old(self)@.load_a(value),
    {
        reveal(CpuState::load_a);
        self.register_a = value;
        self.set_zero_and_neg_flags(value);
    }

    pub fn load_x(&mut self, value: u8)
        ensures
            final(self)@ == old(self)@.load_x(value),
    {
        reveal(CpuState::load_x);
        self.register_x = value;
        self.set_zero_and_neg_flags(value);
    }

    pub fn load_y(&mut self, value: u8)
        ensures
            final(self)@ == old(self)@.load_y(value),
    {
        reveal(CpuState::load_y);
        self.register_y = value;
        self.set_zero_and_neg_flags(value);
    }

    /// Adds `operand` and the carry to the accumulator and sets the
    /// carry, overflow, zero and negative flags.
    pub fn add_to_accumulator(&mut self, operand: u8)
        ensures
            final(self)@ == old(self)@.add_to_accumulator(operand),
    {
        reveal(CpuState::add_to_accumulator);
        let (result, carry, overflow) = add_bytes(self.register_a, operand, self.flag(CARRY_BIT));
        self.set_flag(CARRY_BIT, carry);
        self.set_flag(OVERFLOW_BIT, overflow);
        self.load_a(result);
    }

    /// ADC: add with carry.
    pub fn adc(&mut self, mode: &AddressingMode)
        requires
            mode.has_address(),
        ensures
            final(self)@ == old(self)@.adc(*mode),
    {
        let (value_to_add, page_cross) = self.fetch_operand(mode);
        self.add_to_accumulator(value_to_add);
        self.charge(page_cross);
    }

    /// SBC: subtract with borrow, the borrow being the carry flag
    /// inverted.
    pub fn sbc(&mut self, mode: &AddressingMode)
        requires
            mode.has_address(),
        ensures
            final(self)@ == old(self)@.sbc(*mode),
    {
        let (value, page_cross) = self.fetch_operand(mode);
        self.add_to_accumulator(!value);
        self.charge(page_cross);
    }

    /// AND: accumulator and operand, bit by bit.
    pub fn and(&mut self, mode: &AddressingMode)
        requires
            mode.has_address(),
        ensures
            final(self)@ == old(self)@.and(*mode),
    {
        let (value, page_cross) = self.fetch_operand(mode);
        self.load_a(self.register_a & value);
        self.charge(page_cross);
    }

    /// ORA: accumulator or operand, bit by bit.
    pub fn ora(&mut self, mode: &AddressingMode)
        requires
            mode.has_address(),
        ensures
            final(self)@ == old(self)@.ora(*mode),
    {
        let (value, page_cross) = self.fetch_operand(mode);
        self.load_a(self.register_a | value);
        self.charge(page_cross);
    }

    /// EOR: accumulator exclusive-or operand, bit by bit.
    pub fn eor(&mut self, mode: &AddressingMode)
        requires
            mode.has_address(),
        ensures
            final(self)@ == old(self)@.eor(*mode),
    {
        let (value, page_cross) = self.fetch_operand(mode);
        self.load_a(self.register_a ^ value);
        self.charge(page_cross);
    }

    /// BIT: tests the operand against the accumulator without keeping
    /// the result.
    pub fn bit(&mut self, mode: &AddressingMode)
        requires
            mode.has_address(),
        ensures
            final(self)@ == old(self)@.bit(*mode),
    {
        let (value_in_memory, _) = self.fetch_operand(mode);
        self.set_flag(ZERO_BIT, value_in_memory & self.register_a == 0);
        self.set_flag(OVERFLOW_BIT, value_in_memory & OVERFLOW_BIT > 0);
        self.set_flag(NEGATIVE_BIT, value_in_memory & NEGATIVE_BIT > 0);
    }

    /// Reads the byte that an instruction changes where it is.
    pub fn read_target(&mut self, mode: &AddressingMode) -> (found: (u16, u8))
        requires
            mode.has_target(),
        ensures
            (final(self)@, found.0, found.1) == old(self)@.target(*mode),
    {
        reveal(CpuState::target);
        if matches!(mode, AddressingMode::Accumulator) {
            (0, self.register_a)
        } else {
            let (addr, _) = self.get_operand_address(mode);
            let value = self.mem_read(addr);
            (addr, value)
        }
    }

    /// Stores the outcome of a shift and sets the flags from it.
    pub fn finish_shift(&mut self, mode: &AddressingMode, addr: u16, result: u8, carry_out: bool)
        ensures
            final(self)@ == old(self)@.shift(*mode, addr, result, carry_out),
    {
        reveal(CpuState::shift);
        self.set_flag(CARRY_BIT, carry_out);
        if matches!(mode, AddressingMode::Accumulator) {
            self.register_a = result;
        } else {
            self.mem_write(addr, result);
        }
        self.set_zero_and_neg_flags(result);
    }

    /// ASL: shifts left; bit 7 goes to the carry flag, bit 0 becomes 0.
    pub fn asl(&mut self, mode: &AddressingMode)
        requires
            mode.has_target(),
        ensures
            final(self)@ == old(self)@.asl(*mode),
    {
        let (addr, value_to_modify) = self.read_target(mode);
        let (result, carry) = rotate_left(value_to_modify, false);
        self.finish_shift(mode, addr, result, carry);
    }

    /// LSR: shifts right; bit 0 goes to the carry flag, bit 7 becomes 0.
    pub fn lsr(&mut self, mode: &AddressingMode)
        requires
            mode.has_target(),
        ensures
            final(self)@ == old(self)@.lsr(*mode),
    {
        let (addr, value_to_modify) = self.read_target(mode);
        let (result, carry) = rotate_right(value_to_modify, false);
        self.finish_shift(mode, addr, result, carry);
    }

    /// ROL: rotates left through the carry flag.
    pub fn rol(&mut self, mode: &AddressingMode)
        requires
            mode.has_target(),
        ensures
            final(self)@ == old(self)@.rol(*mode),
    {
        let (addr, value_to_modify) = self.read_target(mode);
        let (result, carry) = rotate_left(value_to_modify, self.flag(CARRY_BIT));
        self.finish_shift(mode, addr, result, carry);
    }

    /// ROR: rotates right through the carry flag.
    pub fn ror(&mut self, mode: &AddressingMode)
        requires
            mode.has_target(),
        ensures
            final(self)@ == old(self)@.ror(*mode),
    {
        let (addr, value_to_modify) = self.read_target(mode);
        let (result, carry) = rotate_right(value_to_modify, self.flag(CARRY_BIT));
        self.finish_shift(mode, addr, result, carry);
    }

    /// INC: one more in memory.
    pub fn inc(&mut self, mode: &AddressingMode)
        requires
            mode.has_address(),
        ensures
            final(self)@ == old(self)@.inc(*mode),
    {
        let (addr, _) = self.get_operand_address(mode);
        let value = increment(self.mem_read(addr));
        self.mem_write(addr, value);
        self.set_zero_and_neg_flags(value);
    }

    /// DEC: one less in memory.
    pub fn dec(&mut self, mode: &AddressingMode)
        requires
            mode.has_address(),
        ensures
            final(self)@ == old(self)@.dec(*mode),
    {
        let (addr, _) = self.get_operand_address(mode);
        let value = decrement(self.mem_read(addr));
        self.mem_write(addr, value);
        self.set_zero_and_neg_flags(value);
    }

    /// INX: one more in X.
    pub fn inx(&mut self)
        ensures
            final(self)@ == old(self)@.inx(),
    {
        self.load_x(increment(self.register_x));
    }

    /// INY: one more in Y.
    pub fn iny(&mut self)
        ensures
            final(self)@ == old(self)@.iny(),
    {
        self.load_y(increment(self.register_y));
    }

    /// DEX: one less in X.
    pub fn dex(&mut self)
        ensures
            final(self)@ == old(self)@.dex(),
    {
        self.load_x(decrement(self.register_x));
    }

    /// DEY: one less in Y.
    pub fn dey(&mut self)
        ensures
            final(self)@ == old(self)@.dey(),
    {
        self.load_y(decrement(self.register_y));
    }
}

} // verus!
