//! The fetch-decode-execute loop.

use std::collections::HashMap;
use vstd::prelude::*;
use crate::bus::{next_addr, FrameCallback};
use crate::cpu::interrupt::{nmi, non_maskable};
use crate::cpu::{
    AddressingMode, CpuState, Memory, CARRY_BIT, CPU, DECIMAL_MODE, INTERRUPT_DISABLE_BIT,
    NEGATIVE_BIT, OVERFLOW_BIT, PROGRAM_START, ZERO_BIT,
};
use crate::opcodes::{
    init_opcodes_hashmap, is_opcode_table, lemma_entry_keeps_its_byte,
    lemma_entry_length_and_cost, opcode_entry, OpCode,
};

verus! {

broadcast use vstd::std_specs::hash::group_hash_axioms;

/// The most instructions that one call of `run` executes. The loop has
/// this bound so that it is known to end; no program reaches it.
pub const RUN_LIMIT: u64 = 0xFFFF_FFFF_FFFF_FFFF;

/// The opcode that ends a run.
pub const HALT_OPCODE: u8 = 0x00;

/// What is called before each instruction of `run_with_callback`. It may
/// change the machine in any way.
pub trait CpuCallback<F: FrameCallback>: Sized {
    /// What one call may make of the callback and of the machine: whether
    /// a callback that was `before` and was handed `machine` can be
    /// `after` and have left `left`. Every callback says this of itself;
    /// one that says nothing may make anything of them.
    open spec fn changes(before: Self, machine: CpuState, after: Self, left: CpuState) -> bool {
        true
    }

    fn before_instruction(&mut self, cpu: &mut CPU<F>)
        ensures
            Self::changes(*old(self), old(cpu)@, *final(self), final(cpu)@),
    ;
}

/// A callback that does nothing.
#[derive(Debug, Clone, Copy)]
pub struct NoCallback;

impl<F: FrameCallback> CpuCallback<F> for NoCallback {
    open spec fn changes(before: Self, machine: CpuState, after: Self, left: CpuState) -> bool {
        left == machine
    }

    fn before_instruction(&mut self, cpu: &mut CPU<F>) {
    }
}

/// The machine that call `i` of a run is handed: the machine at the
/// start, or what the instruction after the call before left, with a
/// pending interrupt serviced.
pub open spec fn handed_to_call<C>(start: CpuState, calls: Seq<(C, CpuState)>, i: int) -> CpuState {
    if i == 0 {
        start.service_interrupt()
    } else {
        calls[i - 1].1.step().0.service_interrupt()
    }
}

/// The callback as it is when call `i` of a run is made.
pub open spec fn callback_at_call<C>(callback: C, calls: Seq<(C, CpuState)>, i: int) -> C {
    if i == 0 {
        callback
    } else {
        calls[i - 1].0
    }
}

/// Whether call `i` of a run was handed what it is due and left what
/// its callback says it may.
pub open spec fn call_made<F: FrameCallback, C: CpuCallback<F>>(
    start: CpuState,
    callback: C,
    calls: Seq<(C, CpuState)>,
    i: int,
) -> bool {
    C::changes(
        callback_at_call(callback, calls, i),
        handed_to_call(start, calls, i),
        calls[i].0,
        calls[i].1,
    )
}

/// A run with a callback from `start` to `end`, told by what each call
/// left of the callback and of the machine. Each call is handed the
/// machine with a pending interrupt serviced and changes what its
/// callback says it may; one instruction is executed on what it left.
/// The run ends with the first instruction that halts, or with the
/// last that the bound of a run allows.
pub open spec fn runs_with_callback<F: FrameCallback, C: CpuCallback<F>>(
    start: CpuState,
    callback: C,
    calls: Seq<(C, CpuState)>,
    end: CpuState,
) -> bool {
    &&& 0 < calls.len() <= RUN_LIMIT
    &&& forall|i: int|
        0 <= i < calls.len() ==> #[trigger] call_made::<F, C>(start, callback, calls, i)
    &&& forall|i: int| 0 <= i < calls.len() - 1 ==> !(#[trigger] calls[i]).1.step().1
    &&& end == calls.last().1.step().0
    &&& (calls.last().1.step().1 || calls.len() == RUN_LIMIT)
}

/// The instructions that always set the program counter themselves:
/// jumps, calls, returns and `BRK`. A branch sets it when it is taken.
/// After any other instruction, and after a branch not taken, the
/// program counter steps over the operand bytes.
pub open spec fn sets_program_counter(opcode_num: u8) -> bool {
    opcode_num == 0x00 || opcode_num == 0x20 || opcode_num == 0x40 || opcode_num == 0x60
        || opcode_num == 0x4C || opcode_num == 0x6C
}

/// The program counter moved over the operand bytes of an instruction
/// of `bytes` bytes.
#[verifier::opaque]
pub open spec fn after_operand(program_counter: u16, bytes: u8) -> u16 {
    ((program_counter + bytes - 1) % 0x10000) as u16
}

impl CpuState {
    /// Opcodes whose two low bits are 00: flags, branches, jumps, the stack,
    /// comparisons of the index registers, loads and stores of Y.
    pub open spec fn execute_control(self, opcode_num: u8, mode: AddressingMode) -> CpuState {
        match opcode_num {
            0x00 => self.brk(),
            0x90 => self.branch(!self.flag(CARRY_BIT)),
            0xB0 => self.branch(self.flag(CARRY_BIT)),
            0xF0 => self.branch(self.flag(ZERO_BIT)),
            0x24 | 0x2C => self.bit(mode),
            0x30 => self.branch(self.flag(NEGATIVE_BIT)),
            0xD0 => self.branch(!self.flag(ZERO_BIT)),
            0x10 => self.branch(!self.flag(NEGATIVE_BIT)),
            0x50 => self.branch(!self.flag(OVERFLOW_BIT)),
            0x70 => self.branch(self.flag(OVERFLOW_BIT)),
            0x18 => self.with_flag(CARRY_BIT, false),
            0xD8 => self.with_flag(DECIMAL_MODE, false),
            0x58 => self.with_flag(INTERRUPT_DISABLE_BIT, false),
            0xB8 => self.with_flag(OVERFLOW_BIT, false),
            0xE0 | 0xE4 | 0xEC => self.cpx(mode),
            0xC0 | 0xC4 | 0xCC => self.cpy(mode),
            0x88 => self.dey(),
            0xE8 => self.inx(),
            0xC8 => self.iny(),
            0x4C => self.jmp_absolute(),
            0x6C => self.jmp_indirect(),
            0x20 => self.jsr(),
            0xA0 | 0xA4 | 0xB4 | 0xAC | 0xBC => self.ldy(mode),
            0x48 => self.pha(),
            0x08 => self.php(),
            0x68 => self.pla(),
            0x28 => self.plp(),
            0x40 => self.rti(),
            0x60 => self.rts(),
            0x38 => self.with_flag(CARRY_BIT, true),
            0xF8 => self.with_flag(DECIMAL_MODE, true),
            0x78 => self.with_flag(INTERRUPT_DISABLE_BIT, true),
            0x84 | 0x94 | 0x8C => self.sty(mode),
            0xA8 => self.tay(),
            0x98 => self.tya(),
            0x04 | 0x14 | 0x34 | 0x44 | 0x54 | 0x64 | 0x74 | 0x80 | 0xD4 | 0xF4 => self.skip_operand(mode),
            0x9C => self.sya(),
            0x0C | 0x1C | 0x3C | 0x5C | 0x7C | 0xDC | 0xFC => self.skip_operand(mode),
            _ => self,
        }
    }

    /// Opcodes whose two low bits are 01: arithmetic and logic on the
    /// accumulator, its loads and stores.
    pub open spec fn execute_accumulator(self, opcode_num: u8, mode: AddressingMode) -> CpuState {
        match opcode_num {
            0x69 | 0x65 | 0x75 | 0x6D | 0x7D | 0x79 | 0x61 | 0x71 => self.adc(mode),
            0x29 | 0x25 | 0x35 | 0x2D | 0x3D | 0x39 | 0x21 | 0x31 => self.and(mode),
            0xC9 | 0xC5 | 0xD5 | 0xCD | 0xDD | 0xD9 | 0xC1 | 0xD1 => self.cmp(mode),
            0x49 | 0x45 | 0x55 | 0x4D | 0x5D | 0x59 | 0x41 | 0x51 => self.eor(mode),
            0xA1 | 0xA5 | 0xA9 | 0xAD | 0xB1 | 0xB5 | 0xB9 | 0xBD => self.lda(mode),
            0x09 | 0x05 | 0x15 | 0x0D | 0x1D | 0x19 | 0x01 | 0x11 => self.ora(mode),
            0xE9 | 0xE5 | 0xF5 | 0xED | 0xFD | 0xF9 | 0xE1 | 0xF1 => self.sbc(mode),
            0x81 | 0x85 | 0x8D | 0x91 | 0x95 | 0x99 | 0x9D => self.sta(mode),
            0x89 => self.skip_operand(mode),
            _ => self,
        }
    }

    /// Opcodes whose two low bits are 10: shifts and rotations, increments
    /// and decrements, loads, stores and moves of X.
    pub open spec fn execute_shift(self, opcode_num: u8, mode: AddressingMode) -> CpuState {
        match opcode_num {
            0x0A | 0x06 | 0x16 | 0x0E | 0x1E => self.asl(mode),
            0xC6 | 0xD6 | 0xCE | 0xDE => self.dec(mode),
            0xCA => self.dex(),
            0xE6 | 0xF6 | 0xEE | 0xFE => self.inc(mode),
            0xA2 | 0xA6 | 0xB6 | 0xAE | 0xBE => self.ldx(mode),
            0x4A | 0x46 | 0x56 | 0x4E | 0x5E => self.lsr(mode),
            0xEA | 0x1A | 0x3A | 0x5A | 0x7A | 0xDA | 0xFA => self,
            0x2A | 0x26 | 0x36 | 0x2E | 0x3E => self.rol(mode),
            0x6A | 0x66 | 0x76 | 0x6E | 0x7E => self.ror(mode),
            0x86 | 0x96 | 0x8E => self.stx(mode),
            0xAA => self.tax(),
            0xBA => self.tsx(),
            0x8A => self.txa(),
            0x9A => self.txs(),
            0x82 | 0xC2 | 0xE2 => self.skip_operand(mode),
            0x02 | 0x12 | 0x22 | 0x32 | 0x42 | 0x52 | 0x62 | 0x72 | 0x92 | 0xB2 | 0xD2 | 0xF2 => self,
            0x9E => self.sxa(),
            _ => self,
        }
    }

    /// Opcodes whose two low bits are 11: all of them undocumented.
    pub open spec fn execute_undocumented(self, opcode_num: u8, mode: AddressingMode) -> CpuState {
        match opcode_num {
            0xEB => self.sbc(mode),
            0x0B | 0x2B => self.aac(mode),
            0x87 | 0x97 | 0x83 | 0x8F => self.sax(mode),
            0x6B => self.arr(mode),
            0x4B => self.asr(mode),
            0xAB => self.atx(mode),
            0x9F | 0x93 => self.axa(mode),
            0xCB => self.axs(mode),
            0xC7 | 0xD7 | 0xCF | 0xDF | 0xDB | 0xC3 | 0xD3 => self.dcp(mode),
            0xE7 | 0xF7 | 0xEF | 0xFF | 0xFB | 0xE3 | 0xF3 => self.isb(mode),
            0xBB => self.lar(mode),
            0xA7 | 0xB7 | 0xAF | 0xBF | 0xA3 | 0xB3 => self.lax(mode),
            0x27 | 0x37 | 0x2F | 0x3F | 0x3B | 0x23 | 0x33 => self.rla(mode),
            0x67 | 0x77 | 0x6F | 0x7F | 0x7B | 0x63 | 0x73 => self.rra(mode),
            0x07 | 0x17 | 0x0F | 0x1F | 0x1B | 0x03 | 0x13 => self.slo(mode),
            0x47 | 0x57 | 0x4F | 0x5F | 0x5B | 0x43 | 0x53 => self.sre(mode),
            0x8B => self,
            0x9B => self.xas(),
            _ => self,
        }
    }

    /// What an instruction does, the program counter standing on its
    /// operand bytes; without the base cost and without the step over
    /// the operand.
    #[verifier::opaque]
    pub open spec fn execute(self, opcode_num: u8, mode: AddressingMode) -> CpuState {
        match opcode_num % 4 {
            0 => self.execute_control(opcode_num, mode),
            1 => self.execute_accumulator(opcode_num, mode),
            2 => self.execute_shift(opcode_num, mode),
            _ => self.execute_undocumented(opcode_num, mode),
        }
    }

    /// A pending interrupt of the picture processor is taken and its
    /// handler entered.
    pub open spec fn service_interrupt(self) -> CpuState {
        let (bus, pending) = self.bus.poll_nmi_status();
        let polled = CpuState { bus, ..self };
        if pending is Some {
            polled.interrupt(nmi())
        } else {
            polled
        }
    }

    /// Whether an opcode is a branch whose condition holds of the flags.
    pub open spec fn takes_branch(self, opcode_num: u8) -> bool {
        match opcode_num {
            0x90 => !self.flag(CARRY_BIT),
            0xB0 => self.flag(CARRY_BIT),
            0xF0 => self.flag(ZERO_BIT),
            0xD0 => !self.flag(ZERO_BIT),
            0x30 => self.flag(NEGATIVE_BIT),
            0x10 => !self.flag(NEGATIVE_BIT),
            0x50 => !self.flag(OVERFLOW_BIT),
            0x70 => self.flag(OVERFLOW_BIT),
            _ => false,
        }
    }

    /// One instruction: the opcode is fetched; `HALT_OPCODE` halts, with
    /// the program counter behind it; any other is executed, its base
    /// cost charged, and the program counter moved over its operand
    /// unless the instruction set it: a branch not taken leaves it on
    /// its operand, so it is moved too. The flag says whether the
    /// machine halted.
    #[verifier::opaque]
    pub open spec fn step(self) -> (CpuState, bool) {
        let (fetched, opcode_num) = self.read(self.program_counter);
        let decoding = CpuState { program_counter: next_addr(self.program_counter), ..fetched };
        if opcode_num == HALT_OPCODE {
            (decoding, true)
        } else {
            let opcode = opcode_entry(opcode_num);
            let done = decoding.execute(opcode_num, opcode.addressing_mode).tick(opcode.cycles);
            if sets_program_counter(opcode_num) || decoding.takes_branch(opcode_num) {
                (done, false)
            } else {
                (
                    CpuState {
                        program_counter: after_operand(done.program_counter, opcode.bytes),
                        ..done
                    },
                    false,
                )
            }
        }
    }

    /// The machine after it ran until it halted, or for `limit`
    /// instructions; before each instruction a pending interrupt is
    /// serviced.
    pub open spec fn run(self, limit: nat) -> CpuState
        decreases limit,
    {
        if limit == 0 {
            self
        } else {
            let (next, halted) = self.service_interrupt().step();
            if halted {
                next
            } else {
                next.run((limit - 1) as nat)
            }
        }
    }

    /// Whether the machine halts within `limit` instructions.
    pub open spec fn halts_within(self, limit: nat) -> bool
        decreases limit,
    {
        if limit == 0 {
            false
        } else {
            let (next, halted) = self.service_interrupt().step();
            halted || next.halts_within((limit - 1) as nat)
        }
    }

    pub open spec fn load_and_run(self, program: Seq<u8>) -> CpuState {
        CpuState { program_counter: PROGRAM_START, ..self.load(program).reset() }.run(
            RUN_LIMIT as nat,
        )
    }
}

impl<F: FrameCallback> CPU<F> {
    /// The instructions of the opcodes $00 to $0F.
    #[verifier::rlimit(50)]
    fn execute_0x(&mut self, opcode: &OpCode)
        requires
            *opcode == opcode_entry(opcode.opcode_num),
            opcode.opcode_num / 16 == 0,
        ensures
            final(self)@ == old(self)@.execute(opcode.opcode_num, opcode.addressing_mode),
    {
        reveal(opcode_entry);
        reveal(CpuState::execute);
        match opcode.opcode_num % 16 {
            0 => self.brk(),
            1 => self.ora(&opcode.addressing_mode),
            2 => self.kil(),
            3 => self.slo(&opcode.addressing_mode),
            4 => {
                self.skip_operand(&opcode.addressing_mode);
                self.dop();
            },
            5 => self.ora(&opcode.addressing_mode),
            6 => self.asl(&opcode.addressing_mode),
            7 => self.slo(&opcode.addressing_mode),
            8 => self.php(),
            9 => self.ora(&opcode.addressing_mode),
            10 => self.asl(&opcode.addressing_mode),
            11 => self.aac(&opcode.addressing_mode),
            12 => {
                self.skip_operand(&opcode.addressing_mode);
                self.top();
            },
            13 => self.ora(&opcode.addressing_mode),
            14 => self.asl(&opcode.addressing_mode),
            _ => self.slo(&opcode.addressing_mode),
        }
    }

    /// The instructions of the opcodes $10 to $1F.
    #[verifier::rlimit(50)]
    fn execute_1x(&mut self, opcode: &OpCode)
        requires
            *opcode == opcode_entry(opcode.opcode_num),
            opcode.opcode_num / 16 == 1,
        ensures
            final(self)@ == old(self)@.execute(opcode.opcode_num, opcode.addressing_mode),
    {
        reveal(opcode_entry);
        reveal(CpuState::execute);
        match opcode.opcode_num % 16 {
            0 => self.bpl(),
            1 => self.ora(&opcode.addressing_mode),
            2 => self.kil(),
            3 => self.slo(&opcode.addressing_mode),
            4 => {
                self.skip_operand(&opcode.addressing_mode);
                self.dop();
            },
            5 => self.ora(&opcode.addressing_mode),
            6 => self.asl(&opcode.addressing_mode),
            7 => self.slo(&opcode.addressing_mode),
            8 => self.clc(),
            9 => self.ora(&opcode.addressing_mode),
            10 => self.nop(),
            11 => self.slo(&opcode.addressing_mode),
            12 => {
                self.skip_operand(&opcode.addressing_mode);
                self.top();
            },
            13 => self.ora(&opcode.addressing_mode),
            14 => self.asl(&opcode.addressing_mode),
            _ => self.slo(&opcode.addressing_mode),
        }
    }

    /// The instructions of the opcodes $20 to $2F.
    #[verifier::rlimit(50)]
    fn execute_2x(&mut self, opcode: &OpCode)
        requires
            *opcode == opcode_entry(opcode.opcode_num),
            opcode.opcode_num / 16 == 2,
        ensures
            final(self)@ == old(self)@.execute(opcode.opcode_num, opcode.addressing_mode),
    {
        reveal(opcode_entry);
        reveal(CpuState::execute);
        match opcode.opcode_num % 16 {
            0 => self.jsr(),
            1 => self.and(&opcode.addressing_mode),
            2 => self.kil(),
            3 => self.rla(&opcode.addressing_mode),
            4 => self.bit(&opcode.addressing_mode),
            5 => self.and(&opcode.addressing_mode),
            6 => self.rol(&opcode.addressing_mode),
            7 => self.rla(&opcode.addressing_mode),
            8 => self.plp(),
            9 => self.and(&opcode.addressing_mode),
            10 => self.rol(&opcode.addressing_mode),
            11 => self.aac(&opcode.addressing_mode),
            12 => self.bit(&opcode.addressing_mode),
            13 => self.and(&opcode.addressing_mode),
            14 => self.rol(&opcode.addressing_mode),
            _ => self.rla(&opcode.addressing_mode),
        }
    }

    /// The instructions of the opcodes $30 to $3F.
    #[verifier::rlimit(50)]
    fn execute_3x(&mut self, opcode: &OpCode)
        requires
            *opcode == opcode_entry(opcode.opcode_num),
            opcode.opcode_num / 16 == 3,
        ensures
            final(self)@ == old(self)@.execute(opcode.opcode_num, opcode.addressing_mode),
    {
        reveal(opcode_entry);
        reveal(CpuState::execute);
        match opcode.opcode_num % 16 {
            0 => self.bmi(),
            1 => self.and(&opcode.addressing_mode),
            2 => self.kil(),
            3 => self.rla(&opcode.addressing_mode),
            4 => {
                self.skip_operand(&opcode.addressing_mode);
                self.dop();
            },
            5 => self.and(&opcode.addressing_mode),
            6 => self.rol(&opcode.addressing_mode),
            7 => self.rla(&opcode.addressing_mode),
            8 => self.sec(),
            9 => self.and(&opcode.addressing_mode),
            10 => self.nop(),
            11 => self.rla(&opcode.addressing_mode),
            12 => {
                self.skip_operand(&opcode.addressing_mode);
                self.top();
            },
            13 => self.and(&opcode.addressing_mode),
            14 => self.rol(&opcode.addressing_mode),
            _ => self.rla(&opcode.addressing_mode),
        }
    }

    /// The instructions of the opcodes $40 to $4F.
    #[verifier::rlimit(50)]
    fn execute_4x(&mut self, opcode: &OpCode)
        requires
            *opcode == opcode_entry(opcode.opcode_num),
            opcode.opcode_num / 16 == 4,
        ensures
            final(self)@ == old(self)@.execute(opcode.opcode_num, opcode.addressing_mode),
    {
        reveal(opcode_entry);
        reveal(CpuState::execute);
        match opcode.opcode_num % 16 {
            0 => self.rti(),
            1 => self.eor(&opcode.addressing_mode),
            2 => self.kil(),
            3 => self.sre(&opcode.addressing_mode),
            4 => {
                self.skip_operand(&opcode.addressing_mode);
                self.dop();
            },
            5 => self.eor(&opcode.addressing_mode),
            6 => self.lsr(&opcode.addressing_mode),
            7 => self.sre(&opcode.addressing_mode),
            8 => self.pha(),
            9 => self.eor(&opcode.addressing_mode),
            10 => self.lsr(&opcode.addressing_mode),
            11 => self.asr(&opcode.addressing_mode),
            12 => self.jmp_absolute(),
            13 => self.eor(&opcode.addressing_mode),
            14 => self.lsr(&opcode.addressing_mode),
            _ => self.sre(&opcode.addressing_mode),
        }
    }

    /// The instructions of the opcodes $50 to $5F.
    #[verifier::rlimit(50)]
    fn execute_5x(&mut self, opcode: &OpCode)
        requires
            *opcode == opcode_entry(opcode.opcode_num),
            opcode.opcode_num / 16 == 5,
        ensures
            final(self)@ == old(self)@.execute(opcode.opcode_num, opcode.addressing_mode),
    {
        reveal(opcode_entry);
        reveal(CpuState::execute);
        match opcode.opcode_num % 16 {
            0 => self.bvc(),
            1 => self.eor(&opcode.addressing_mode),
            2 => self.kil(),
            3 => self.sre(&opcode.addressing_mode),
            4 => {
                self.skip_operand(&opcode.addressing_mode);
                self.dop();
            },
            5 => self.eor(&opcode.addressing_mode),
            6 => self.lsr(&opcode.addressing_mode),
            7 => self.sre(&opcode.addressing_mode),
            8 => self.cli(),
            9 => self.eor(&opcode.addressing_mode),
            10 => self.nop(),
            11 => self.sre(&opcode.addressing_mode),
            12 => {
                self.skip_operand(&opcode.addressing_mode);
                self.top();
            },
            13 => self.eor(&opcode.addressing_mode),
            14 => self.lsr(&opcode.addressing_mode),
            _ => self.sre(&opcode.addressing_mode),
        }
    }

    /// The instructions of the opcodes $60 to $6F.
    #[verifier::rlimit(50)]
    fn execute_6x(&mut self, opcode: &OpCode)
        requires
            *opcode == opcode_entry(opcode.opcode_num),
            opcode.opcode_num / 16 == 6,
        ensures
            final(self)@ == old(self)@.execute(opcode.opcode_num, opcode.addressing_mode),
    {
        reveal(opcode_entry);
        reveal(CpuState::execute);
        match opcode.opcode_num % 16 {
            0 => self.rts(),
            1 => self.adc(&opcode.addressing_mode),
            2 => self.kil(),
            3 => self.rra(&opcode.addressing_mode),
            4 => {
                self.skip_operand(&opcode.addressing_mode);
                self.dop();
            },
            5 => self.adc(&opcode.addressing_mode),
            6 => self.ror(&opcode.addressing_mode),
            7 => self.rra(&opcode.addressing_mode),
            8 => self.pla(),
            9 => self.adc(&opcode.addressing_mode),
            10 => self.ror(&opcode.addressing_mode),
            11 => self.arr(&opcode.addressing_mode),
            12 => self.jmp_indirect(),
            13 => self.adc(&opcode.addressing_mode),
            14 => self.ror(&opcode.addressing_mode),
            _ => self.rra(&opcode.addressing_mode),
        }
    }

    /// The instructions of the opcodes $70 to $7F.
    #[verifier::rlimit(50)]
    fn execute_7x(&mut self, opcode: &OpCode)
        requires
            *opcode == opcode_entry(opcode.opcode_num),
            opcode.opcode_num / 16 == 7,
        ensures
            final(self)@ == old(self)@.execute(opcode.opcode_num, opcode.addressing_mode),
    {
        reveal(opcode_entry);
        reveal(CpuState::execute);
        match opcode.opcode_num % 16 {
            0 => self.bvs(),
            1 => self.adc(&opcode.addressing_mode),
            2 => self.kil(),
            3 => self.rra(&opcode.addressing_mode),
            4 => {
                self.skip_operand(&opcode.addressing_mode);
                self.dop();
            },
            5 => self.adc(&opcode.addressing_mode),
            6 => self.ror(&opcode.addressing_mode),
            7 => self.rra(&opcode.addressing_mode),
            8 => self.sei(),
            9 => self.adc(&opcode.addressing_mode),
            10 => self.nop(),
            11 => self.rra(&opcode.addressing_mode),
            12 => {
                self.skip_operand(&opcode.addressing_mode);
                self.top();
            },
            13 => self.adc(&opcode.addressing_mode),
            14 => self.ror(&opcode.addressing_mode),
            _ => self.rra(&opcode.addressing_mode),
        }
    }

    /// The instructions of the opcodes $80 to $8F.
    #[verifier::rlimit(50)]
    fn execute_8x(&mut self, opcode: &OpCode)
        requires
            *opcode == opcode_entry(opcode.opcode_num),
            opcode.opcode_num / 16 == 8,
        ensures
            final(self)@ == old(self)@.execute(opcode.opcode_num, opcode.addressing_mode),
    {
        reveal(opcode_entry);
        reveal(CpuState::execute);
        match opcode.opcode_num % 16 {
            0 => {
                self.skip_operand(&opcode.addressing_mode);
                self.dop();
            },
            1 => self.sta(&opcode.addressing_mode),
            2 => {
                self.skip_operand(&opcode.addressing_mode);
                self.dop();
            },
            3 => self.sax(&opcode.addressing_mode),
            4 => self.sty(&opcode.addressing_mode),
            5 => self.sta(&opcode.addressing_mode),
            6 => self.stx(&opcode.addressing_mode),
            7 => self.sax(&opcode.addressing_mode),
            8 => self.dey(),
            9 => {
                self.skip_operand(&opcode.addressing_mode);
                self.dop();
            },
            10 => self.txa(),
            11 => self.xaa(),
            12 => self.sty(&opcode.addressing_mode),
            13 => self.sta(&opcode.addressing_mode),
            14 => self.stx(&opcode.addressing_mode),
            _ => self.sax(&opcode.addressing_mode),
        }
    }

    /// The instructions of the opcodes $90 to $9F.
    #[verifier::rlimit(50)]
    fn execute_9x(&mut self, opcode: &OpCode)
        requires
            *opcode == opcode_entry(opcode.opcode_num),
            opcode.opcode_num / 16 == 9,
        ensures
            final(self)@ == old(self)@.execute(opcode.opcode_num, opcode.addressing_mode),
    {
        reveal(opcode_entry);
        reveal(CpuState::execute);
        match opcode.opcode_num % 16 {
            0 => self.bcc(),
            1 => self.sta(&opcode.addressing_mode),
            2 => self.kil(),
            3 => self.axa(&opcode.addressing_mode),
            4 => self.sty(&opcode.addressing_mode),
            5 => self.sta(&opcode.addressing_mode),
            6 => self.stx(&opcode.addressing_mode),
            7 => self.sax(&opcode.addressing_mode),
            8 => self.tya(),
            9 => self.sta(&opcode.addressing_mode),
            10 => self.txs(),
            11 => self.xas(),
            12 => self.sya(),
            13 => self.sta(&opcode.addressing_mode),
            14 => self.sxa(),
            _ => self.axa(&opcode.addressing_mode),
        }
    }

    /// The instructions of the opcodes $A0 to $AF.
    #[verifier::rlimit(50)]
    fn execute_ax(&mut self, opcode: &OpCode)
        requires
            *opcode == opcode_entry(opcode.opcode_num),
            opcode.opcode_num / 16 == 10,
        ensures
            final(self)@ == old(self)@.execute(opcode.opcode_num, opcode.addressing_mode),
    {
        reveal(opcode_entry);
        reveal(CpuState::execute);
        match opcode.opcode_num % 16 {
            0 => self.ldy(&opcode.addressing_mode),
            1 => self.lda(&opcode.addressing_mode),
            2 => self.ldx(&opcode.addressing_mode),
            3 => self.lax(&opcode.addressing_mode),
            4 => self.ldy(&opcode.addressing_mode),
            5 => self.lda(&opcode.addressing_mode),
            6 => self.ldx(&opcode.addressing_mode),
            7 => self.lax(&opcode.addressing_mode),
            8 => self.tay(),
            9 => self.lda(&opcode.addressing_mode),
            10 => self.tax(),
            11 => self.atx(&opcode.addressing_mode),
            12 => self.ldy(&opcode.addressing_mode),
            13 => self.lda(&opcode.addressing_mode),
            14 => self.ldx(&opcode.addressing_mode),
            _ => self.lax(&opcode.addressing_mode),
        }
    }

    /// The instructions of the opcodes $B0 to $BF.
    #[verifier::rlimit(50)]
    fn execute_bx(&mut self, opcode: &OpCode)
        requires
            *opcode == opcode_entry(opcode.opcode_num),
            opcode.opcode_num / 16 == 11,
        ensures
            final(self)@ == old(self)@.execute(opcode.opcode_num, opcode.addressing_mode),
    {
        reveal(opcode_entry);
        reveal(CpuState::execute);
        match opcode.opcode_num % 16 {
            0 => self.bcs(),
            1 => self.lda(&opcode.addressing_mode),
            2 => self.kil(),
            3 => self.lax(&opcode.addressing_mode),
            4 => self.ldy(&opcode.addressing_mode),
            5 => self.lda(&opcode.addressing_mode),
            6 => self.ldx(&opcode.addressing_mode),
            7 => self.lax(&opcode.addressing_mode),
            8 => self.clv(),
            9 => self.lda(&opcode.addressing_mode),
            10 => self.tsx(),
            11 => self.lar(&opcode.addressing_mode),
            12 => self.ldy(&opcode.addressing_mode),
            13 => self.lda(&opcode.addressing_mode),
            14 => self.ldx(&opcode.addressing_mode),
            _ => self.lax(&opcode.addressing_mode),
        }
    }

    /// The instructions of the opcodes $C0 to $CF.
    #[verifier::rlimit(50)]
    fn execute_cx(&mut self, opcode: &OpCode)
        requires
            *opcode == opcode_entry(opcode.opcode_num),
            opcode.opcode_num / 16 == 12,
        ensures
            final(self)@ == old(self)@.execute(opcode.opcode_num, opcode.addressing_mode),
    {
        reveal(opcode_entry);
        reveal(CpuState::execute);
        match opcode.opcode_num % 16 {
            0 => self.cpy(&opcode.addressing_mode),
            1 => self.cmp(&opcode.addressing_mode),
            2 => {
                self.skip_operand(&opcode.addressing_mode);
                self.dop();
            },
            3 => self.dcp(&opcode.addressing_mode),
            4 => self.cpy(&opcode.addressing_mode),
            5 => self.cmp(&opcode.addressing_mode),
            6 => self.dec(&opcode.addressing_mode),
            7 => self.dcp(&opcode.addressing_mode),
            8 => self.iny(),
            9 => self.cmp(&opcode.addressing_mode),
            10 => self.dex(),
            11 => self.axs(&opcode.addressing_mode),
            12 => self.cpy(&opcode.addressing_mode),
            13 => self.cmp(&opcode.addressing_mode),
            14 => self.dec(&opcode.addressing_mode),
            _ => self.dcp(&opcode.addressing_mode),
        }
    }

    /// The instructions of the opcodes $D0 to $DF.
    #[verifier::rlimit(50)]
    fn execute_dx(&mut self, opcode: &OpCode)
        requires
            *opcode == opcode_entry(opcode.opcode_num),
            opcode.opcode_num / 16 == 13,
        ensures
            final(self)@ == old(self)@.execute(opcode.opcode_num, opcode.addressing_mode),
    {
        reveal(opcode_entry);
        reveal(CpuState::execute);
        match opcode.opcode_num % 16 {
            0 => self.bne(),
            1 => self.cmp(&opcode.addressing_mode),
            2 => self.kil(),
            3 => self.dcp(&opcode.addressing_mode),
            4 => {
                self.skip_operand(&opcode.addressing_mode);
                self.dop();
            },
            5 => self.cmp(&opcode.addressing_mode),
            6 => self.dec(&opcode.addressing_mode),
            7 => self.dcp(&opcode.addressing_mode),
            8 => self.cld(),
            9 => self.cmp(&opcode.addressing_mode),
            10 => self.nop(),
            11 => self.dcp(&opcode.addressing_mode),
            12 => {
                self.skip_operand(&opcode.addressing_mode);
                self.top();
            },
            13 => self.cmp(&opcode.addressing_mode),
            14 => self.dec(&opcode.addressing_mode),
            _ => self.dcp(&opcode.addressing_mode),
        }
    }

    /// The instructions of the opcodes $E0 to $EF.
    #[verifier::rlimit(50)]
    fn execute_ex(&mut self, opcode: &OpCode)
        requires
            *opcode == opcode_entry(opcode.opcode_num),
            opcode.opcode_num / 16 == 14,
        ensures
            final(self)@ == old(self)@.execute(opcode.opcode_num, opcode.addressing_mode),
    {
        reveal(opcode_entry);
        reveal(CpuState::execute);
        match opcode.opcode_num % 16 {
            0 => self.cpx(&opcode.addressing_mode),
            1 => self.sbc(&opcode.addressing_mode),
            2 => {
                self.skip_operand(&opcode.addressing_mode);
                self.dop();
            },
            3 => self.isb(&opcode.addressing_mode),
            4 => self.cpx(&opcode.addressing_mode),
            5 => self.sbc(&opcode.addressing_mode),
            6 => self.inc(&opcode.addressing_mode),
            7 => self.isb(&opcode.addressing_mode),
            8 => self.inx(),
            9 => self.sbc(&opcode.addressing_mode),
            10 => self.nop(),
            11 => self.sbc(&opcode.addressing_mode),
            12 => self.cpx(&opcode.addressing_mode),
            13 => self.sbc(&opcode.addressing_mode),
            14 => self.inc(&opcode.addressing_mode),
            _ => self.isb(&opcode.addressing_mode),
        }
    }

    /// The instructions of the opcodes $F0 to $FF.
    #[verifier::rlimit(50)]
    fn execute_fx(&mut self, opcode: &OpCode)
        requires
            *opcode == opcode_entry(opcode.opcode_num),
            opcode.opcode_num / 16 == 15,
        ensures
            final(self)@ == old(self)@.execute(opcode.opcode_num, opcode.addressing_mode),
    {
        reveal(opcode_entry);
        reveal(CpuState::execute);
        match opcode.opcode_num % 16 {
            0 => self.beq(),
            1 => self.sbc(&opcode.addressing_mode),
            2 => self.kil(),
            3 => self.isb(&opcode.addressing_mode),
            4 => {
                self.skip_operand(&opcode.addressing_mode);
                self.dop();
            },
            5 => self.sbc(&opcode.addressing_mode),
            6 => self.inc(&opcode.addressing_mode),
            7 => self.isb(&opcode.addressing_mode),
            8 => self.sed(),
            9 => self.sbc(&opcode.addressing_mode),
            10 => self.nop(),
            11 => self.isb(&opcode.addressing_mode),
            12 => {
                self.skip_operand(&opcode.addressing_mode);
                self.top();
            },
            13 => self.sbc(&opcode.addressing_mode),
            14 => self.inc(&opcode.addressing_mode),
            _ => self.isb(&opcode.addressing_mode),
        }
    }

    /// Executes one instruction whose opcode was fetched; the program
    /// counter stands on its operand bytes.
    pub fn execute(&mut self, opcode: &OpCode)
        requires
            *opcode == opcode_entry(opcode.opcode_num),
        ensures
            final(self)@ == old(self)@.execute(opcode.opcode_num, opcode.addressing_mode),
    {
        match opcode.opcode_num / 16 {
            0 => self.execute_0x(opcode),
            1 => self.execute_1x(opcode),
            2 => self.execute_2x(opcode),
            3 => self.execute_3x(opcode),
            4 => self.execute_4x(opcode),
            5 => self.execute_5x(opcode),
            6 => self.execute_6x(opcode),
            7 => self.execute_7x(opcode),
            8 => self.execute_8x(opcode),
            9 => self.execute_9x(opcode),
            10 => self.execute_ax(opcode),
            11 => self.execute_bx(opcode),
            12 => self.execute_cx(opcode),
            13 => self.execute_dx(opcode),
            14 => self.execute_ex(opcode),
            _ => self.execute_fx(opcode),
        }
    }

    /// Takes a pending interrupt of the picture processor and enters its
    /// handler.
    pub fn service_interrupt(&mut self)
        ensures
            final(self)@ == old(self)@.service_interrupt(),
    {
        if let Some(_nmi) = self.bus.poll_nmi_status() {
            self.interrupt(non_maskable());
        }
    }

    /// Moves the program counter over the operand bytes.
    fn skip_operand_bytes(&mut self, bytes: u8)
        requires
            1 <= bytes,
        ensures
            final(self)@ == (CpuState {
                program_counter: after_operand(old(self).program_counter, bytes),
                ..old(self)@
            }),
    {
        reveal(after_operand);
        self.program_counter = self.program_counter.wrapping_add((bytes - 1) as u16);
    }

    /// Whether an opcode is a branch whose condition holds of the flags.
    pub fn takes_branch(&self, opcode_num: u8) -> (taken: bool)
        ensures
            taken == self@.takes_branch(opcode_num),
    {
        match opcode_num {
            0x90 => !self.flag(CARRY_BIT),
            0xB0 => self.flag(CARRY_BIT),
            0xF0 => self.flag(ZERO_BIT),
            0xD0 => !self.flag(ZERO_BIT),
            0x30 => self.flag(NEGATIVE_BIT),
            0x10 => !self.flag(NEGATIVE_BIT),
            0x50 => !self.flag(OVERFLOW_BIT),
            0x70 => self.flag(OVERFLOW_BIT),
            _ => false,
        }
    }

    /// Fetches, decodes and executes one instruction. The result says
    /// whether the machine halted.
    pub fn execute_next(&mut self, table: &HashMap<u8, OpCode>) -> (halted: bool)
        requires
            is_opcode_table(table@),
        ensures
            (final(self)@, halted) == old(self)@.step(),
    {
        reveal(CpuState::step);
        let opcode_num = self.mem_read(self.program_counter);
        self.program_counter = self.program_counter.wrapping_add(1);
        if opcode_num == HALT_OPCODE {
            return true;
        }
        assert(table@.contains_key(opcode_num) && table@[opcode_num] == opcode_entry(opcode_num));
        let opcode = match table.get(&opcode_num) {
            Some(found) => *found,
            None => vstd::pervasive::unreached(),
        };
        proof {
            lemma_entry_keeps_its_byte(opcode_num);
            lemma_entry_length_and_cost(opcode_num);
        }
        let moves = jumps(opcode_num) || self.takes_branch(opcode_num);
        self.execute(&opcode);
        self.bus.tick(opcode.cycles);
        if !moves {
            self.skip_operand_bytes(opcode.bytes);
        }
        false
    }

    /// Runs until the machine halts. Before each instruction a pending
    /// interrupt is serviced, then the callback is called, and the
    /// instruction is executed on the machine as the callback left it.
    pub fn run_with_callback<C: CpuCallback<F>>(&mut self, callback: C)
        ensures
            exists|calls: Seq<(C, CpuState)>|
                runs_with_callback::<F, C>(old(self)@, callback, calls, final(self)@),
    {
        let table = init_opcodes_hashmap();
        let ghost start = self@;
        let ghost mut calls: Seq<(C, CpuState)> = Seq::empty();
        let ghost first = callback;
        let mut current = callback;
        let mut executed: u64 = 0;
        while executed < RUN_LIMIT
            invariant
                is_opcode_table(table@),
                start == old(self)@,
                first == callback,
                executed <= RUN_LIMIT,
                calls.len() == executed,
                executed == 0 ==> self@ == start,
                executed > 0 ==> self@ == calls.last().1.step().0,
                current == callback_at_call(first, calls, executed as int),
                forall|i: int|
                    0 <= i < calls.len() ==> #[trigger] call_made::<F, C>(start, first, calls, i),
                forall|i: int| 0 <= i < calls.len() ==> !(#[trigger] calls[i]).1.step().1,
            ensures
                executed == RUN_LIMIT,
            decreases RUN_LIMIT - executed,
        {
            self.service_interrupt();
            let ghost handed = self@;
            current.before_instruction(self);
            let ghost earlier = calls;
            proof {
                calls = earlier.push((current, self@));
                assert(handed == handed_to_call(start, calls, executed as int));
                assert forall|i: int| 0 <= i < calls.len() implies #[trigger] call_made::<F, C>(
                    start,
                    first,
                    calls,
                    i,
                ) by {
                    if i < earlier.len() {
                        assert(call_made::<F, C>(start, first, earlier, i));
                        assert(calls[i] == earlier[i]);
                        if i > 0 {
                            assert(calls[i - 1] == earlier[i - 1]);
                        }
                    }
                }
                assert forall|i: int| 0 <= i < calls.len() - 1 implies !(
                #[trigger] calls[i]).1.step().1 by {
                    assert(calls[i] == earlier[i]);
                }
            }
            if self.execute_next(&table) {
                assert(runs_with_callback::<F, C>(start, first, calls, self@));
                return ;
            }
            executed += 1;
        }
        assert(runs_with_callback::<F, C>(start, first, calls, self@));
    }

    /// Runs until the machine halts.
    pub fn run(&mut self)
        ensures
            final(self)@ == old(self)@.run(RUN_LIMIT as nat),
    {
        let table = init_opcodes_hashmap();
        let ghost start = self@;
        let mut left: u64 = RUN_LIMIT;
        while left > 0
            invariant
                is_opcode_table(table@),
                start == old(self)@,
                start.run(RUN_LIMIT as nat) == self@.run(left as nat),
            decreases left,
        {
            let ghost before = self@;
            assert(before.run(left as nat) == (if before.service_interrupt().step().1 {
                before.service_interrupt().step().0
            } else {
                before.service_interrupt().step().0.run((left - 1) as nat)
            }));
            self.service_interrupt();
            if self.execute_next(&table) {
                return ;
            }
            left -= 1;
        }
    }

    /// Loads a program, resets the machine and runs the program from
    /// its first byte.
    pub fn load_and_run(&mut self, program: Vec<u8>)
        requires
            PROGRAM_START + program@.len() <= 0x10000,
        ensures
            final(self)@ == old(self)@.load_and_run(program@),
    {
        self.load(program);
        self.reset();
        self.program_counter = PROGRAM_START;
        self.run();
    }
}

/// Once the machine has halted within a number of instructions, a
/// higher bound changes nothing: the bound of `run` shows only where a
/// program does not halt within it.
pub proof fn lemma_bound_is_immaterial_once_halted(s: CpuState, limit: nat, higher: nat)
    requires
        s.halts_within(limit),
        limit <= higher,
    ensures
        s.run(higher) == s.run(limit),
        s.halts_within(higher),
    decreases limit,
{
    let (next, halted) = s.service_interrupt().step();
    if !halted {
        lemma_bound_is_immaterial_once_halted(next, (limit - 1) as nat, (higher - 1) as nat);
    }
}

/// With a callback that does nothing, a run with a callback is a run.
pub proof fn lemma_run_with_no_callback<F: FrameCallback>(
    start: CpuState,
    calls: Seq<(NoCallback, CpuState)>,
    end: CpuState,
)
    requires
        runs_with_callback::<F, NoCallback>(start, NoCallback, calls, end),
    ensures
        end == start.run(RUN_LIMIT as nat),
{
    lemma_run_from_call::<F>(start, calls, end, 0);
}

/// From any call of a run with a callback that does nothing, the rest
/// of the run is a run.
proof fn lemma_run_from_call<F: FrameCallback>(
    start: CpuState,
    calls: Seq<(NoCallback, CpuState)>,
    end: CpuState,
    i: int,
)
    requires
        runs_with_callback::<F, NoCallback>(start, NoCallback, calls, end),
        0 <= i < calls.len(),
    ensures
        end == (if i == 0 {
            start
        } else {
            calls[i - 1].1.step().0
        }).run((RUN_LIMIT - i) as nat),
    decreases calls.len() - i,
{
    let machine = if i == 0 {
        start
    } else {
        calls[i - 1].1.step().0
    };
    assert(call_made::<F, NoCallback>(start, NoCallback, calls, i));
    assert(calls[i].1 == machine.service_interrupt());
    if i < calls.len() - 1 {
        lemma_run_from_call::<F>(start, calls, end, i + 1);
    } else if !calls[i].1.step().1 {
        assert(calls[i].1.step().0.run(0) == calls[i].1.step().0);
    }
}

/// Whether an instruction always sets the program counter itself.
pub fn jumps(opcode_num: u8) -> (jumps: bool)
    ensures
        jumps == sets_program_counter(opcode_num),
{
    opcode_num == 0x00 || opcode_num == 0x20 || opcode_num == 0x40 || opcode_num == 0x60
        || opcode_num == 0x4C || opcode_num == 0x6C
}

} // verus!
