//! The processor: registers, flags, and the instructions as functions on
//! the whole machine.
//!
//! The status register:
//!
//! ```text
//!  7 6 5 4 3 2 1 0
//!  N V _ B D I Z C
//!  | |   | | | | +--- carry
//!  | |   | | | +----- zero
//!  | |   | | +------- interrupt disable
//!  | |   | +--------- decimal mode (without effect)
//!  | |   +----------- break
//!  | +--------------- overflow
//!  +----------------- negative
//! ```

pub mod addressing;
pub mod alu;
pub mod arithmetic;
pub mod compare;
pub mod control;
pub mod interrupt;
pub mod run;
pub mod stack;
pub mod transfer;
pub mod unofficial;
pub mod well_formed;

use vstd::prelude::*;
use crate::bits::{assign_bits, has_bits, test_bits, with_bits};
use crate::bus::{Bus, BusState, FrameCallback, MAX_TICK};

verus! {

pub const CARRY_BIT: u8 = 0b0000_0001;

pub const ZERO_BIT: u8 = 0b0000_0010;

pub const INTERRUPT_DISABLE_BIT: u8 = 0b0000_0100;

pub const DECIMAL_MODE: u8 = 0b0000_1000;

pub const BREAK_BIT: u8 = 0b0001_0000;

/// Bit 5 stands for no flag; wherever the status is initialised or
/// pushed it is 1.
pub const NOT_A_FLAG_BIT: u8 = 0b0010_0000;

pub const OVERFLOW_BIT: u8 = 0b0100_0000;

pub const NEGATIVE_BIT: u8 = 0b1000_0000;

/// First address of the stack page.
pub const STACK: u16 = 0x0100;

/// The stack pointer after a reset.
pub const STACK_RESET_CODE: u8 = 0xFD;

/// The status after a reset.
pub const STATUS_RESET_CODE: u8 = 0b0010_0100;

/// Where the address to start at after a reset is kept.
pub const RESET_VECTOR: u16 = 0xFFFC;

/// Where the address of the handler of `BRK` is kept.
pub const BREAK_VECTOR: u16 = 0xFFFE;

/// Where `load` puts a program.
pub const PROGRAM_START: u16 = 0x0600;

/// How an instruction finds its operand.
#[allow(non_camel_case_types)]
#[derive(Debug, Clone, Copy, PartialEq, Eq, Structural)]
pub enum AddressingMode {
    /// The operand is the byte after the opcode.
    Immediate,
    ZeroPage,
    ZeroPage_X,
    ZeroPage_Y,
    Absolute,
    Absolute_X,
    Absolute_Y,
    Indirect_X,
    Indirect_Y,
    /// The byte after the opcode is a signed distance to jump.
    Relative,
    /// The operand is the accumulator.
    Accumulator,
    /// The instruction has no operand.
    Implied,
    /// The instruction reads its operand bytes itself.
    NoneAddressing,
}

/// Byte-addressed memory with a 16-bit address space. Reads take `&mut`
/// because reading a memory-mapped register may change the device.
pub trait Memory {
    fn mem_read(&mut self, addr: u16) -> u8;

    fn mem_write(&mut self, addr: u16, data: u8);

    /// Reads a little-endian word; the second byte comes from the next
    /// address, which wraps at the end of the address space.
    fn mem_read_u16(&mut self, pos: u16) -> u16;

    /// Writes a little-endian word, low byte first.
    fn mem_write_u16(&mut self, pos: u16, data: u16);
}

pub struct CPU<F: FrameCallback> {
    pub register_a: u8,
    pub register_x: u8,
    pub register_y: u8,
    pub status: u8,
    pub program_counter: u16,
    /// Offset of the top of the stack inside the stack page; it goes down
    /// when a byte is pushed.
    pub stack_pointer: u8,
    pub bus: Bus<F>,
}

/// The whole machine as a mathematical value.
pub struct CpuState {
    pub register_a: u8,
    pub register_x: u8,
    pub register_y: u8,
    pub status: u8,
    pub program_counter: u16,
    pub stack_pointer: u8,
    pub bus: BusState,
}

/// Whether two addresses lie in different pages of 256 bytes.
pub open spec fn pages_differ(addr1: u16, addr2: u16) -> bool {
    addr1 / 256 != addr2 / 256
}

/// The status with the zero and negative flags set from a result: zero
/// when it is 0, negative when its top bit is 1.
pub open spec fn status_for_result(status: u8, result: u8) -> u8 {
    with_bits(with_bits(status, ZERO_BIT, result == 0), NEGATIVE_BIT, result >= 0x80)
}

impl CpuState {
    pub open spec fn power_on(bus: BusState) -> CpuState {
        CpuState {
            register_a: 0,
            register_x: 0,
            register_y: 0,
            status: STATUS_RESET_CODE,
            program_counter: 0,
            stack_pointer: STACK_RESET_CODE,
            bus,
        }
    }

    pub open spec fn read(self, addr: u16) -> (CpuState, u8) {
        let (bus, value) = self.bus.read(addr);
        (CpuState { bus, ..self }, value)
    }

    pub open spec fn write(self, addr: u16, data: u8) -> CpuState {
        CpuState { bus: self.bus.write(addr, data), ..self }
    }

    pub open spec fn read_u16(self, pos: u16) -> (CpuState, u16) {
        let (bus, value) = self.bus.read_u16(pos);
        (CpuState { bus, ..self }, value)
    }

    pub open spec fn write_u16(self, pos: u16, data: u16) -> CpuState {
        CpuState { bus: self.bus.write_u16(pos, data), ..self }
    }

    /// The machine after `cycles` more processor cycles.
    pub open spec fn tick(self, cycles: u8) -> CpuState {
        CpuState { bus: self.bus.tick(cycles).0, ..self }
    }

    /// One more cycle where an indexed read left its page.
    #[verifier::opaque]
    pub open spec fn charge(self, page_crossed: bool) -> CpuState {
        if page_crossed {
            self.tick(1)
        } else {
            self
        }
    }

    #[verifier::opaque]
    pub open spec fn flag(self, mask: u8) -> bool {
        has_bits(self.status, mask)
    }

    #[verifier::opaque]
    pub open spec fn with_flag(self, mask: u8, on: bool) -> CpuState {
        CpuState { status: with_bits(self.status, mask, on), ..self }
    }

    #[verifier::opaque]
    pub open spec fn set_zero_and_neg_flags(self, result: u8) -> CpuState {
        CpuState { status: status_for_result(self.status, result), ..self }
    }

    /// Writes the bytes of a program to consecutive addresses from `base`
    /// on.
    pub open spec fn write_block(self, base: u16, bytes: Seq<u8>) -> CpuState
        decreases bytes.len(),
    {
        if bytes.len() == 0 {
            self
        } else {
            self.write_block(base, bytes.drop_last()).write(
                (base + bytes.len() - 1) as u16,
                bytes.last(),
            )
        }
    }

    pub open spec fn load(self, program: Seq<u8>) -> CpuState {
        self.write_block(PROGRAM_START, program)
    }

    /// Registers, flags and stack pointer as at power-on; the program
    /// counter comes from the reset vector.
    pub open spec fn reset(self) -> CpuState {
        let (after, start) = CpuState::power_on(self.bus).read_u16(RESET_VECTOR);
        CpuState { program_counter: start, ..after }
    }
}

impl<F: FrameCallback> View for CPU<F> {
    type V = CpuState;

    open spec fn view(&self) -> CpuState {
        CpuState {
            register_a: self.register_a,
            register_x: self.register_x,
            register_y: self.register_y,
            status: self.status,
            program_counter: self.program_counter,
            stack_pointer: self.stack_pointer,
            bus: self.bus@,
        }
    }
}

impl<F: FrameCallback> Memory for CPU<F> {
    fn mem_read(&mut self, addr: u16) -> (value: u8)
        ensures
            (final(self)@, value) == old(self)@.read(addr),
    {
        self.bus.mem_read(addr)
    }

    fn mem_write(&mut self, addr: u16, data: u8)
        ensures
            final(self)@ == old(self)@.write(addr, data),
    {
        self.bus.mem_write(addr, data)
    }

    fn mem_read_u16(&mut self, pos: u16) -> (value: u16)
        ensures
            (final(self)@, value) == old(self)@.read_u16(pos),
    {
        self.bus.mem_read_u16(pos)
    }

    fn mem_write_u16(&mut self, pos: u16, data: u16)
        ensures
            final(self)@ == old(self)@.write_u16(pos, data),
    {
        self.bus.mem_write_u16(pos, data)
    }
}

/// Whether two addresses lie in different pages.
pub fn page_cross(addr1: u16, addr2: u16) -> (crossed: bool)
    ensures
        crossed == pages_differ(addr1, addr2),
{
    addr1 / 256 != addr2 / 256
}

/// The zero flag of a status written for a result is set exactly when
/// the result is 0, and the negative flag exactly when the result's top
/// bit is 1.
pub proof fn lemma_result_flags(status: u8, result: u8)
    ensures
        (status_for_result(status, result) & ZERO_BIT != 0) <==> result == 0,
        (status_for_result(status, result) & NEGATIVE_BIT != 0) <==> (result & 0x80 != 0),
{
    let zero = result == 0;
    let negative = result >= 0x80;
    let first = with_bits(status, ZERO_BIT, zero);
    assert((result & 0x80 != 0) <==> result >= 0x80) by (bit_vector);
    assert(((first | 0x80) & 0x80 != 0) && ((first & !0x80u8) & 0x80 == 0)) by (bit_vector);
    assert((((status | 2) | 0x80) & 2 != 0) && (((status | 2) & !0x80u8) & 2 != 0) && (((status
        & !2u8) | 0x80) & 2 == 0) && (((status & !2u8) & !0x80u8) & 2 == 0)) by (bit_vector);
}

impl<F: FrameCallback> CPU<F> {
    /// A processor at power-on, wired to a bus.
    pub fn new(bus_: Bus<F>) -> (cpu: CPU<F>)
        ensures
            cpu@ == CpuState::power_on(bus_@),
    {
        CPU {
            register_a: 0,
            register_x: 0,
            register_y: 0,
            status: STATUS_RESET_CODE,
            program_counter: 0,
            stack_pointer: STACK_RESET_CODE,
            bus: bus_,
        }
    }

    /// Charges cycles to the bus.
    pub fn tick(&mut self, cycles: u8)
        requires
            cycles <= MAX_TICK,
        ensures
            final(self)@ == old(self)@.tick(cycles),
            old(self)@.bus.tick(cycles).1 ==> F::notified(
                old(self).bus.callback(),
                final(self)@.bus.ppu,
                final(self).bus.callback(),
            ),
            !old(self)@.bus.tick(cycles).1 ==> final(self).bus.callback() == old(
                self,
            ).bus.callback(),
    {
        self.bus.tick(cycles);
    }

    /// Charges one more cycle where an indexed read left its page.
    pub fn charge(&mut self, page_crossed: bool)
        ensures
            final(self)@ == old(self)@.charge(page_crossed),
            page_crossed && old(self)@.bus.tick(1).1 ==> F::notified(
                old(self).bus.callback(),
                final(self)@.bus.ppu,
                final(self).bus.callback(),
            ),
            !(page_crossed && old(self)@.bus.tick(1).1) ==> final(self).bus.callback() == old(
                self,
            ).bus.callback(),
    {
        reveal(CpuState::charge);
        if page_crossed {
            self.bus.tick(1);
        }
    }

    /// Whether the flags of `mask` are set.
    pub fn flag(&self, mask: u8) -> (on: bool)
        ensures
            on == self@.flag(mask),
    {
        reveal(CpuState::flag);
        test_bits(self.status, mask)
    }

    /// Sets or clears the flags of `mask`.
    pub fn set_flag(&mut self, mask: u8, on: bool)
        ensures
            final(self)@ == old(self)@.with_flag(mask, on),
    {
        reveal(CpuState::with_flag);
        self.status = assign_bits(self.status, mask, on);
    }

    /// Sets the zero flag exactly when `result` is 0 and the negative
    /// flag exactly when its top bit is 1; the other flags stay.
    pub fn set_zero_and_neg_flags(&mut self, result: u8)
        ensures
            final(self)@ == old(self)@.set_zero_and_neg_flags(result),
            (final(self).status & ZERO_BIT != 0) <==> result == 0,
            (final(self).status & NEGATIVE_BIT != 0) <==> (result & 0x80 != 0),
    {
        reveal(CpuState::set_zero_and_neg_flags);
        proof {
            lemma_result_flags(self.status, result);
        }
        self.status = assign_bits(self.status, ZERO_BIT, result == 0);
        self.status = assign_bits(self.status, NEGATIVE_BIT, result >= 0x80);
    }

    pub fn reset(&mut self)
        ensures
            final(self)@ == old(self)@.reset(),
    {
        self.register_a = 0;
        self.register_x = 0;
        self.register_y = 0;
        self.status = STATUS_RESET_CODE;
        self.stack_pointer = STACK_RESET_CODE;
        self.program_counter = self.mem_read_u16(RESET_VECTOR);
    }

    /// Writes a program to memory, from `PROGRAM_START` on.
    pub fn load(&mut self, program: Vec<u8>)
        requires
            PROGRAM_START + program@.len() <= 0x10000,
        ensures
            final(self)@ == old(self)@.load(program@),
    {
        let ghost before = self@;
        let mut i: usize = 0;
        while i < program.len()
            invariant
                i <= program@.len(),
                PROGRAM_START + program@.len() <= 0x10000,
                self@ == before.write_block(PROGRAM_START, program@.take(i as int)),
            decreases program@.len() - i,
        {
            assert(program@.take(i + 1).drop_last() =~= program@.take(i as int));
            self.mem_write(PROGRAM_START + i as u16, program[i]);
            i += 1;
        }
        assert(program@.take(i as int) =~= program@);
    }
}

} // verus!
