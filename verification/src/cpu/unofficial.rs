//! The undocumented instructions. Those that join two documented ones
//! are just that: the first, then the second, each decoding the operand
//! for itself.

use vstd::prelude::*;
use crate::bits::{has_bits, test_bits};
use crate::bus::FrameCallback;
use crate::cpu::addressing::{index_absolute, indexed};
use crate::cpu::alu::{
    difference, high, high_byte, increment, incremented, low_bit, rotate_right, rotated_right,
    subtract,
};
use crate::cpu::{
    AddressingMode, CpuState, Memory, CARRY_BIT, CPU, NEGATIVE_BIT, NOT_A_FLAG_BIT, OVERFLOW_BIT,
};

verus! {

impl CpuState {
    /// AND, then the carry flag is set where the result is negative.
    pub open spec fn aac(self, mode: AddressingMode) -> CpuState {
        let (s, value, _) = self.operand(mode);
        let s1 = s.load_a(s.register_a & value);
        if s1.flag(NEGATIVE_BIT) {
            s1.with_flag(CARRY_BIT, true)
        } else {
            s1
        }
    }

    pub open spec fn sax(self, mode: AddressingMode) -> CpuState {
        self.store(mode, self.register_x & self.register_a)
    }

    /// AND, then the accumulator is rotated right by one bit in itself;
    /// the carry flag is bit 6 of the outcome, the overflow flag says
    /// whether its bits 5 and 6 differ.
    pub open spec fn arr(self, mode: AddressingMode) -> CpuState {
        let (s, value, _) = self.operand(mode);
        let masked = s.register_a & value;
        let rotated = rotated_right(masked, low_bit(masked));
        let bit_5 = has_bits(rotated, NOT_A_FLAG_BIT);
        let bit_6 = has_bits(rotated, OVERFLOW_BIT);
        s.with_flag(CARRY_BIT, bit_6).with_flag(OVERFLOW_BIT, bit_5 != bit_6).load_a(rotated)
    }

    /// AND, then the accumulator is shifted right.
    pub open spec fn asr(self, mode: AddressingMode) -> CpuState {
        let (s, value, _) = self.operand(mode);
        s.load_a(rotated_right(s.register_a & value, false))
    }

    /// AND into X.
    pub open spec fn atx(self, mode: AddressingMode) -> CpuState {
        let (s, value, _) = self.operand(mode);
        s.load_x(s.register_a & value)
    }

    pub open spec fn axa(self, mode: AddressingMode) -> CpuState {
        self.store(mode, (self.register_x & self.register_a) & 7)
    }

    /// X and accumulator, less the operand, into X.
    pub open spec fn axs(self, mode: AddressingMode) -> CpuState {
        let (s, value, _) = self.operand(mode);
        s.load_x(difference(s.register_x & s.register_a, value))
    }

    /// An instruction that only decodes its operand.
    #[verifier::opaque]
    pub open spec fn skip_operand(self, mode: AddressingMode) -> CpuState {
        let (s, _, page_crossed) = self.operand_address(mode);
        s.charge(page_crossed)
    }

    /// Operand and stack pointer into accumulator, X and stack pointer.
    pub open spec fn lar(self, mode: AddressingMode) -> CpuState {
        let (s, value, page_crossed) = self.operand(mode);
        let result = value & s.stack_pointer;
        CpuState {
            stack_pointer: result,
            register_a: result,
            register_x: result,
            ..s
        }.set_zero_and_neg_flags(result).charge(page_crossed)
    }

    /// Loads accumulator and X.
    pub open spec fn lax(self, mode: AddressingMode) -> CpuState {
        let (s, value, page_crossed) = self.operand(mode);
        CpuState { register_a: value, register_x: value, ..s }.set_zero_and_neg_flags(
            value,
        ).charge(page_crossed)
    }

    /// Increment, then subtract.
    pub open spec fn isb(self, mode: AddressingMode) -> CpuState {
        self.inc(mode).sbc(mode)
    }

    /// Rotate left, then AND.
    pub open spec fn rla(self, mode: AddressingMode) -> CpuState {
        self.rol(mode).and(mode)
    }

    /// Rotate right, then add.
    pub open spec fn rra(self, mode: AddressingMode) -> CpuState {
        self.ror(mode).adc(mode)
    }

    /// Shift left, then OR.
    pub open spec fn slo(self, mode: AddressingMode) -> CpuState {
        self.asl(mode).ora(mode)
    }

    /// Shift right, then exclusive-or.
    pub open spec fn sre(self, mode: AddressingMode) -> CpuState {
        self.lsr(mode).eor(mode)
    }

    /// Stores `register` and the high byte of the address: the address
    /// is the word at the program counter moved on by `index`.
    #[verifier::opaque]
    pub open spec fn store_with_high_byte(self, register: u8, index: u8) -> CpuState {
        let (s, base) = self.read_u16(self.program_counter);
        let addr = indexed(base, index);
        s.write(addr, register & high_byte(addr))
    }

    pub open spec fn sxa(self) -> CpuState {
        self.store_with_high_byte(self.register_x, self.register_y)
    }

    pub open spec fn sya(self) -> CpuState {
        self.store_with_high_byte(self.register_y, self.register_x)
    }

    /// Accumulator and X go to the stack pointer; it is stored, masked
    /// with the high byte of the address plus one.
    pub open spec fn xas(self) -> CpuState {
        let stack_pointer = self.register_a & self.register_x;
        let (s, base) = CpuState { stack_pointer, ..self }.read_u16(self.program_counter);
        let addr = indexed(base, self.register_y);
        s.write(addr, incremented(high_byte(addr)) & stack_pointer)
    }
}

impl<F: FrameCallback> CPU<F> {
    /// AAC: AND, then the carry flag is set where the result is
    /// negative.
    pub fn aac(&mut self, mode: &AddressingMode)
        requires
            mode.has_address(),
        ensures
            final(self)@ == old(self)@.aac(*mode),
    {
        let (value_to_and, _) = self.fetch_operand(mode);
        self.load_a(self.register_a & value_to_and);
        if self.flag(NEGATIVE_BIT) {
            self.set_flag(CARRY_BIT, true);
        }
    }

    /// SAX: stores X and accumulator.
    pub fn sax(&mut self, mode: &AddressingMode)
        requires
            mode.has_address(),
        ensures
            final(self)@ == old(self)@.sax(*mode),
    {
        self.store(mode, self.register_x & self.register_a);
    }

    /// ARR: AND, then the accumulator rotated right in itself.
    pub fn arr(&mut self, mode: &AddressingMode)
        requires
            mode.has_address(),
        ensures
            final(self)@ == old(self)@.arr(*mode),
    {
        let (value, _) = self.fetch_operand(mode);
        let masked = self.register_a & value;
        let (rotated, _) = rotate_right(masked, masked % 2 == 1);
        let bit_5_set = test_bits(rotated, NOT_A_FLAG_BIT);
        let bit_6_set = test_bits(rotated, OVERFLOW_BIT);
        self.set_flag(CARRY_BIT, bit_6_set);
        self.set_flag(OVERFLOW_BIT, bit_5_set != bit_6_set);
        self.load_a(rotated);
    }

    /// ASR: AND, then the accumulator shifted right.
    pub fn asr(&mut self, mode: &AddressingMode)
        requires
            mode.has_address(),
        ensures
            final(self)@ == old(self)@.asr(*mode),
    {
        let (value_in_memory, _) = self.fetch_operand(mode);
        let (result, _) = rotate_right(self.register_a & value_in_memory, false);
        self.load_a(result);
    }

    /// ATX: AND into X.
    pub fn atx(&mut self, mode: &AddressingMode)
        requires
            mode.has_address(),
        ensures
            final(self)@ == old(self)@.atx(*mode),
    {
        let (value_in_memory, _) = self.fetch_operand(mode);
        self.load_x(self.register_a & value_in_memory);
    }

    /// AXA: stores X and accumulator and 7.
    pub fn axa(&mut self, mode: &AddressingMode)
        requires
            mode.has_address(),
        ensures
            final(self)@ == old(self)@.axa(*mode),
    {
        let first_res = self.register_x & self.register_a;
        self.store(mode, first_res & 7);
    }

    /// AXS: X and accumulator, less the operand, into X.
    pub fn axs(&mut self, mode: &AddressingMode)
        requires
            mode.has_address(),
        ensures
            final(self)@ == old(self)@.axs(*mode),
    {
        let (value_to_subtract, _) = self.fetch_operand(mode);
        let first_res = self.register_x & self.register_a;
        self.load_x(subtract(first_res, value_to_subtract));
    }

    /// Decodes an operand that nothing is done with.
    pub fn skip_operand(&mut self, mode: &AddressingMode)
        requires
            mode.has_address(),
        ensures
            final(self)@ == old(self)@.skip_operand(*mode),
    {
        reveal(CpuState::skip_operand);
        let (_addr, page_cross) = self.get_operand_address(mode);
        self.charge(page_cross);
    }

    /// DOP: a NOP of two bytes.
    pub fn dop(&mut self)
        ensures
            final(self)@ == old(self)@,
    {
    }

    /// TOP: a NOP of three bytes.
    pub fn top(&mut self)
        ensures
            final(self)@ == old(self)@,
    {
    }

    /// KIL: would stop the processor; here it does nothing.
    pub fn kil(&mut self)
        ensures
            final(self)@ == old(self)@,
    {
    }

    /// XAA: does nothing.
    pub fn xaa(&mut self)
        ensures
            final(self)@ == old(self)@,
    {
    }

    /// LAR: operand and stack pointer into accumulator, X and stack
    /// pointer.
    pub fn lar(&mut self, mode: &AddressingMode)
        requires
            mode.has_address(),
        ensures
            final(self)@ == old(self)@.lar(*mode),
    {
        let (value, page_cross) = self.fetch_operand(mode);
        let anded_value = value & self.stack_pointer;
        self.stack_pointer = anded_value;
        self.register_a = anded_value;
        self.register_x = anded_value;
        self.set_zero_and_neg_flags(anded_value);
        self.charge(page_cross);
    }

    /// LAX: loads accumulator and X.
    pub fn lax(&mut self, mode: &AddressingMode)
        requires
            mode.has_address(),
        ensures
            final(self)@ == old(self)@.lax(*mode),
    {
        let (value, page_cross) = self.fetch_operand(mode);
        self.register_a = value;
        self.register_x = value;
        self.set_zero_and_neg_flags(value);
        self.charge(page_cross);
    }

    /// ISB: increment, then subtract.
    pub fn isb(&mut self, mode: &AddressingMode)
        requires
            mode.has_address(),
        ensures
            final(self)@ == old(self)@.isb(*mode),
    {
        self.inc(mode);
        self.sbc(mode);
    }

    /// RLA: rotate left, then AND.
    pub fn rla(&mut self, mode: &AddressingMode)
        requires
            mode.has_address(),
        ensures
            final(self)@ == old(self)@.rla(*mode),
    {
        self.rol(mode);
        self.and(mode);
    }

    /// RRA: rotate right, then add.
    pub fn rra(&mut self, mode: &AddressingMode)
        requires
            mode.has_address(),
        ensures
            final(self)@ == old(self)@.rra(*mode),
    {
        self.ror(mode);
        self.adc(mode);
    }

    /// SLO: shift left, then OR.
    pub fn slo(&mut self, mode: &AddressingMode)
        requires
            mode.has_address(),
        ensures
            final(self)@ == old(self)@.slo(*mode),
    {
        self.asl(mode);
        self.ora(mode);
    }

    /// SRE: shift right, then exclusive-or.
    pub fn sre(&mut self, mode: &AddressingMode)
        requires
            mode.has_address(),
        ensures
            final(self)@ == old(self)@.sre(*mode),
    {
        self.lsr(mode);
        self.eor(mode);
    }

    /// Stores `register` and the high byte of the address.
    pub fn store_with_high_byte(&mut self, register: u8, index: u8)
        ensures
            final(self)@ == old(self)@.store_with_high_byte(register, index),
    {
        reveal(CpuState::store_with_high_byte);
        let base = self.mem_read_u16(self.program_counter);
        let mem_address = index_absolute(base, index);
        self.mem_write(mem_address, register & high(mem_address));
    }

    /// SXA: stores X and the high byte of the address indexed by Y.
    pub fn sxa(&mut self)
        ensures
            final(self)@ == old(self)@.sxa(),
    {
        self.store_with_high_byte(self.register_x, self.register_y);
    }

    /// SYA: stores Y and the high byte of the address indexed by X.
    pub fn sya(&mut self)
        ensures
            final(self)@ == old(self)@.sya(),
    {
        self.store_with_high_byte(self.register_y, self.register_x);
    }

    /// XAS: accumulator and X into the stack pointer, which is stored
    /// masked with the high byte of the address plus one.
    pub fn xas(&mut self)
        ensures
            final(self)@ == old(self)@.xas(),
    {
        self.stack_pointer = self.register_a & self.register_x;
        let base = self.mem_read_u16(self.program_counter);
        let mem_address = index_absolute(base, self.register_y);
        let data = increment(high(mem_address)) & self.stack_pointer;
        self.mem_write(mem_address, data);
    }
}

} // verus!
