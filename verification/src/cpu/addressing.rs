//! Address decoding: from an addressing mode and the place of the operand
//! bytes to the effective address, and whether indexing left the page.

use vstd::prelude::*;
use crate::bus::{next_addr, word, FrameCallback};
use crate::cpu::{page_cross, pages_differ, AddressingMode, CpuState, Memory, CPU};

verus! {

/// A zero-page address moved on by an index register: it stays in page 0.
#[verifier::opaque]
pub open spec fn zero_page_indexed(base: u8, index: u8) -> u16 {
    ((base + index) % 256) as u16
}

/// An address moved on by an index register, wrapping at the end of the
/// address space.
#[verifier::opaque]
pub open spec fn indexed(base: u16, index: u8) -> u16 {
    ((base + index) % 0x10000) as u16
}

/// Where a branch goes: the signed distance `offset` away from the
/// address after the operand byte.
#[verifier::opaque]
pub open spec fn branch_target(next: u16, offset: u8) -> u16 {
    let distance = if offset < 0x80 {
        offset as int
    } else {
        offset - 256
    };
    ((next + distance) % 0x10000) as u16
}

impl AddressingMode {
    /// The modes whose operand lies in memory at an address that the
    /// operand bytes lead to.
    pub open spec fn in_memory(self) -> bool {
        self is ZeroPage || self is ZeroPage_X || self is ZeroPage_Y || self is Absolute
            || self is Absolute_X || self is Absolute_Y || self is Indirect_X
            || self is Indirect_Y
    }

    /// The modes that give an address at all.
    pub open spec fn has_address(self) -> bool {
        self is Immediate || self is Relative || self.in_memory()
    }
}

impl CpuState {
    /// Decodes the operand bytes at `addr`: the machine after the reads
    /// that this takes, the effective address, and whether indexing
    /// crossed a page. Of a mode without an address in memory, nothing
    /// is read and the address is 0.
    #[verifier::opaque]
    pub open spec fn absolute_address(self, mode: AddressingMode, addr: u16) -> (
        CpuState,
        u16,
        bool,
    ) {
        match mode {
            AddressingMode::ZeroPage => {
                let (s, base) = self.read(addr);
                (s, base as u16, false)
            },
            AddressingMode::Absolute => {
                let (s, base) = self.read_u16(addr);
                (s, base, false)
            },
            AddressingMode::ZeroPage_X => {
                let (s, base) = self.read(addr);
                (s, zero_page_indexed(base, self.register_x), false)
            },
            AddressingMode::ZeroPage_Y => {
                let (s, base) = self.read(addr);
                (s, zero_page_indexed(base, self.register_y), false)
            },
            AddressingMode::Absolute_X => {
                let (s, base) = self.read_u16(addr);
                let target = indexed(base, self.register_x);
                (s, target, pages_differ(base, target))
            },
            AddressingMode::Absolute_Y => {
                let (s, base) = self.read_u16(addr);
                let target = indexed(base, self.register_y);
                (s, target, pages_differ(base, target))
            },
            AddressingMode::Indirect_X => {
                let (s, base) = self.read(addr);
                let pointer = zero_page_indexed(base, self.register_x);
                let (s1, lo) = s.read(pointer);
                let (s2, hi) = s1.read(zero_page_indexed(pointer as u8, 1));
                (s2, word(lo, hi), false)
            },
            AddressingMode::Indirect_Y => {
                let (s, base) = self.read(addr);
                let (s1, lo) = s.read(base as u16);
                let (s2, hi) = s1.read(zero_page_indexed(base, 1));
                let pointer = word(lo, hi);
                let target = indexed(pointer, self.register_y);
                (s2, target, pages_differ(target, pointer))
            },
            _ => (self, 0, false),
        }
    }

    /// Decodes the operand bytes at the program counter. An immediate
    /// operand is the byte there; a relative one names the target of the
    /// branch, and crosses a page when the target lies in another page
    /// than the address after the operand.
    #[verifier::opaque]
    pub open spec fn operand_address(self, mode: AddressingMode) -> (CpuState, u16, bool) {
        match mode {
            AddressingMode::Immediate => (self, self.program_counter, false),
            AddressingMode::Relative => {
                let (s, offset) = self.read(self.program_counter);
                let next = next_addr(self.program_counter);
                let target = branch_target(next, offset);
                (s, target, pages_differ(next, target))
            },
            _ => self.absolute_address(mode, self.program_counter),
        }
    }

    /// The operand itself: the byte at the effective address.
    #[verifier::opaque]
    pub open spec fn operand(self, mode: AddressingMode) -> (CpuState, u8, bool) {
        let (s, addr, page_crossed) = self.operand_address(mode);
        let (s1, value) = s.read(addr);
        (s1, value, page_crossed)
    }
}

/// Moves a zero-page address on by an index register.
pub fn index_zero_page(base: u8, index: u8) -> (addr: u16)
    ensures
        addr == zero_page_indexed(base, index),
{
    reveal(zero_page_indexed);
    base.wrapping_add(index) as u16
}

/// Moves an address on by an index register.
pub fn index_absolute(base: u16, index: u8) -> (addr: u16)
    ensures
        addr == indexed(base, index),
{
    reveal(indexed);
    base.wrapping_add(index as u16)
}

/// The little-endian word made of two bytes.
pub fn make_word(lo: u8, hi: u8) -> (value: u16)
    ensures
        value == word(lo, hi),
{
    (hi as u16) * 256 + (lo as u16)
}

/// The target of a branch over the signed distance `offset`.
pub fn branch_to(next: u16, offset: u8) -> (target: u16)
    ensures
        target == branch_target(next, offset),
{
    reveal(branch_target);
    if offset < 0x80 {
        next.wrapping_add(offset as u16)
    } else {
        next.wrapping_add(0xFF00 + offset as u16)
    }
}

impl<F: FrameCallback> CPU<F> {
    /// Decodes the operand bytes at `addr` for a mode whose operand lies
    /// in memory.
    pub fn get_absolute_address(&mut self, mode: &AddressingMode, addr: u16) -> (decoded: (
        u16,
        bool,
    ))
        requires
            mode.in_memory(),
        ensures
            (final(self)@, decoded.0, decoded.1) == old(self)@.absolute_address(*mode, addr),
    {
        reveal(CpuState::absolute_address);
        match mode {
            AddressingMode::ZeroPage => (self.mem_read(addr) as u16, false),
            AddressingMode::Absolute => (self.mem_read_u16(addr), false),
            AddressingMode::ZeroPage_X => {
                let pos = self.mem_read(addr);
                (index_zero_page(pos, self.register_x), false)
            },
            AddressingMode::ZeroPage_Y => {
                let pos = self.mem_read(addr);
                (index_zero_page(pos, self.register_y), false)
            },
            AddressingMode::Absolute_X => {
                let base = self.mem_read_u16(addr);
                let addr = index_absolute(base, self.register_x);
                (addr, page_cross(base, addr))
            },
            AddressingMode::Absolute_Y => {
                let base = self.mem_read_u16(addr);
                let addr = index_absolute(base, self.register_y);
                (addr, page_cross(base, addr))
            },
            AddressingMode::Indirect_X => {
                let base = self.mem_read(addr);
                let ptr = index_zero_page(base, self.register_x);
                let lo = self.mem_read(ptr);
                let hi = self.mem_read(index_zero_page(ptr as u8, 1));
                (make_word(lo, hi), false)
            },
            AddressingMode::Indirect_Y => {
                let base = self.mem_read(addr);
                let lo = self.mem_read(base as u16);
                let hi = self.mem_read(index_zero_page(base, 1));
                let deref_base = make_word(lo, hi);
                let deref = index_absolute(deref_base, self.register_y);
                (deref, page_cross(deref, deref_base))
            },
            _ => (0, false),
        }
    }

    /// Decodes the operand bytes at the program counter.
    pub fn get_operand_address(&mut self, mode: &AddressingMode) -> (decoded: (u16, bool))
        requires
            mode.has_address(),
        ensures
            (final(self)@, decoded.0, decoded.1) == old(self)@.operand_address(*mode),
    {
        reveal(CpuState::operand_address);
        match mode {
            AddressingMode::Immediate => (self.program_counter, false),
            AddressingMode::Relative => {
                let offset = self.mem_read(self.program_counter);
                let next = self.program_counter.wrapping_add(1);
                let target = branch_to(next, offset);
                (target, page_cross(next, target))
            },
            _ => self.get_absolute_address(mode, self.program_counter),
        }
    }

    /// Reads the operand: the byte at the effective address.
    pub fn fetch_operand(&mut self, mode: &AddressingMode) -> (fetched: (u8, bool))
        requires
            mode.has_address(),
        ensures
            (final(self)@, fetched.0, fetched.1) == old(self)@.operand(*mode),
    {
        reveal(CpuState::operand);
        let (addr, page_cross) = self.get_operand_address(mode);
        let value = self.mem_read(addr);
        (value, page_cross)
    }
}

} // verus!
