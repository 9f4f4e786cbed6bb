//! What no instruction breaks: the memories of the machine keep their
//! sizes, and the counters and the video address stay in range.

use vstd::prelude::*;
use crate::bus::{lemma_bus_stays_wf, next_addr, BusState};
use crate::cartridge::Mirroring;
use crate::cpu::interrupt::Interrupt;
use crate::cpu::{AddressingMode, CpuState};
use crate::ppu::PpuState;

verus! {

impl CpuState {
    /// Whether the machine is well-formed.
    pub open spec fn wf(self) -> bool {
        self.bus.wf()
    }
}

/// A machine at power-on is well-formed, whatever the cartridge.
pub proof fn lemma_power_on_is_wf(prg_rom: Seq<u8>, chr_rom: Seq<u8>, mirroring: Mirroring)
    ensures
        CpuState::power_on(
            BusState::power_on(prg_rom, PpuState::power_on(chr_rom, mirroring)),
        ).wf(),
{
}

/// What the instructions are made of keeps the machine well-formed.
pub proof fn lemma_parts_keep_wf()
    ensures
        forall|s: CpuState, addr: u16| s.wf() ==> (#[trigger] s.read(addr)).0.wf(),
        forall|s: CpuState, addr: u16| s.wf() ==> (#[trigger] s.read_u16(addr)).0.wf(),
        forall|s: CpuState, addr: u16, data: u8| s.wf() ==> (#[trigger] s.write(addr, data)).wf(),
        forall|s: CpuState, addr: u16, data: u16|
            s.wf() ==> (#[trigger] s.write_u16(addr, data)).wf(),
        forall|s: CpuState, cycles: u8| s.wf() ==> (#[trigger] s.tick(cycles)).wf(),
        forall|s: CpuState, crossed: bool| s.wf() ==> (#[trigger] s.charge(crossed)).wf(),
        forall|s: CpuState, mask: u8, on: bool|
            (#[trigger] s.with_flag(mask, on)).bus == s.bus,
        forall|s: CpuState, result: u8| (#[trigger] s.set_zero_and_neg_flags(result)).bus == s.bus,
        forall|s: CpuState, value: u8| (#[trigger] s.load_a(value)).bus == s.bus,
        forall|s: CpuState, value: u8| (#[trigger] s.load_x(value)).bus == s.bus,
        forall|s: CpuState, value: u8| (#[trigger] s.load_y(value)).bus == s.bus,
        forall|s: CpuState, value: u8| (#[trigger] s.add_to_accumulator(value)).bus == s.bus,
        forall|s: CpuState, register: u8, value: u8|
            (#[trigger] s.compare(register, value)).bus == s.bus,
        forall|s: CpuState, mode: AddressingMode, addr: u16|
            s.wf() ==> (#[trigger] s.absolute_address(mode, addr)).0.wf(),
        forall|s: CpuState, mode: AddressingMode|
            s.wf() ==> (#[trigger] s.operand_address(mode)).0.wf(),
        forall|s: CpuState, mode: AddressingMode| s.wf() ==> (#[trigger] s.operand(mode)).0.wf(),
        forall|s: CpuState, mode: AddressingMode| s.wf() ==> (#[trigger] s.target(mode)).0.wf(),
        forall|s: CpuState, mode: AddressingMode, addr: u16, result: u8, carry: bool|
            s.wf() ==> (#[trigger] s.shift(mode, addr, result, carry)).wf(),
        forall|s: CpuState, mode: AddressingMode, value: u8|
            s.wf() ==> (#[trigger] s.store(mode, value)).wf(),
        forall|s: CpuState, mode: AddressingMode| s.wf() ==> (#[trigger] s.skip_operand(mode)).wf(),
        forall|s: CpuState, register: u8, index: u8|
            s.wf() ==> (#[trigger] s.store_with_high_byte(register, index)).wf(),
        forall|s: CpuState, data: u8| s.wf() ==> (#[trigger] s.stack_push(data)).wf(),
        forall|s: CpuState, data: u16| s.wf() ==> (#[trigger] s.stack_push_u16(data)).wf(),
        forall|s: CpuState| s.wf() ==> (#[trigger] s.stack_pop()).0.wf(),
        forall|s: CpuState| s.wf() ==> (#[trigger] s.stack_pop_u16()).0.wf(),
        forall|s: CpuState, condition: bool| s.wf() ==> (#[trigger] s.branch(condition)).wf(),
{
    lemma_bus_stays_wf();
    reveal(CpuState::charge);
    reveal(CpuState::with_flag);
    reveal(CpuState::set_zero_and_neg_flags);
    reveal(CpuState::load_a);
    reveal(CpuState::load_x);
    reveal(CpuState::load_y);
    reveal(CpuState::add_to_accumulator);
    reveal(CpuState::compare);
    reveal(CpuState::stack_push);
    reveal(CpuState::stack_pop);
    assert forall|s: CpuState, mode: AddressingMode, addr: u16| s.wf() implies (
    #[trigger] s.absolute_address(mode, addr)).0.wf() by {
        reveal(CpuState::absolute_address);
    }
    assert forall|s: CpuState, mode: AddressingMode| s.wf() implies (#[trigger] s.operand_address(
        mode,
    )).0.wf() by {
        reveal(CpuState::operand_address);
    }
    assert forall|s: CpuState, mode: AddressingMode| s.wf() implies (#[trigger] s.operand(
        mode,
    )).0.wf() by {
        reveal(CpuState::operand);
    }
    assert forall|s: CpuState, mode: AddressingMode| s.wf() implies (#[trigger] s.target(
        mode,
    )).0.wf() by {
        reveal(CpuState::target);
    }
    assert forall|
        s: CpuState,
        mode: AddressingMode,
        addr: u16,
        result: u8,
        carry: bool,
    | s.wf() implies (#[trigger] s.shift(mode, addr, result, carry)).wf() by {
        reveal(CpuState::shift);
    }
    assert forall|s: CpuState, mode: AddressingMode, value: u8| s.wf() implies (#[trigger] s.store(
        mode,
        value,
    )).wf() by {
        reveal(CpuState::store);
    }
    assert forall|s: CpuState, mode: AddressingMode| s.wf() implies (#[trigger] s.skip_operand(
        mode,
    )).wf() by {
        reveal(CpuState::skip_operand);
    }
    assert forall|s: CpuState, register: u8, index: u8| s.wf() implies (
    #[trigger] s.store_with_high_byte(register, index)).wf() by {
        reveal(CpuState::store_with_high_byte);
    }
    assert forall|s: CpuState, data: u16| s.wf() implies (#[trigger] s.stack_push_u16(
        data,
    )).wf() by {
        reveal(CpuState::stack_push_u16);
    }
    assert forall|s: CpuState| s.wf() implies (#[trigger] s.stack_pop_u16()).0.wf() by {
        reveal(CpuState::stack_pop_u16);
    }
    assert forall|s: CpuState, condition: bool| s.wf() implies (#[trigger] s.branch(
        condition,
    )).wf() by {
        reveal(CpuState::branch);
    }
}

/// No instruction breaks the machine.
pub proof fn lemma_execute_keeps_wf(s: CpuState, opcode_num: u8, mode: AddressingMode)
    requires
        s.wf(),
    ensures
        s.execute(opcode_num, mode).wf(),
{
    lemma_parts_keep_wf();
    reveal(CpuState::execute);
    match opcode_num % 4 {
        0 => {
            assert(s.execute_control(opcode_num, mode).wf());
        },
        1 => {
            assert(s.execute_accumulator(opcode_num, mode).wf());
        },
        2 => {
            assert(s.execute_shift(opcode_num, mode).wf());
        },
        _ => {
            assert(s.execute_undocumented(opcode_num, mode).wf());
        },
    }
}

/// Entering an interrupt handler does not break the machine.
pub proof fn lemma_interrupt_keeps_wf(s: CpuState, interrupt: Interrupt)
    requires
        s.wf(),
    ensures
        s.interrupt(interrupt).wf(),
        s.service_interrupt().wf(),
{
    lemma_parts_keep_wf();
    lemma_bus_stays_wf();
}

/// A reset and the loading of a program do not break the machine.
pub proof fn lemma_reset_and_load_keep_wf(s: CpuState, program: Seq<u8>)
    requires
        s.wf(),
    ensures
        s.reset().wf(),
        s.load(program).wf(),
{
    lemma_parts_keep_wf();
    lemma_write_block_keeps_wf(s, crate::cpu::PROGRAM_START, program);
}

/// Writing a block does not break the machine.
pub proof fn lemma_write_block_keeps_wf(s: CpuState, base: u16, bytes: Seq<u8>)
    requires
        s.wf(),
    ensures
        s.write_block(base, bytes).wf(),
    decreases bytes.len(),
{
    lemma_parts_keep_wf();
    if bytes.len() > 0 {
        lemma_write_block_keeps_wf(s, base, bytes.drop_last());
    }
}

/// No step breaks the machine.
pub proof fn lemma_step_keeps_wf(s: CpuState)
    requires
        s.wf(),
    ensures
        s.step().0.wf(),
{
    lemma_parts_keep_wf();
    reveal(CpuState::step);
    let (fetched, opcode_num) = s.read(s.program_counter);
    let decoding = CpuState { program_counter: next_addr(s.program_counter), ..fetched };
    lemma_execute_keeps_wf(
        decoding,
        opcode_num,
        crate::opcodes::opcode_entry(opcode_num).addressing_mode,
    );
}

/// However long the machine runs, it stays well-formed.
pub proof fn lemma_run_keeps_wf(s: CpuState, limit: nat)
    requires
        s.wf(),
    ensures
        s.run(limit).wf(),
    decreases limit,
{
    if limit > 0 {
        lemma_interrupt_keeps_wf(s, crate::cpu::interrupt::nmi());
        lemma_step_keeps_wf(s.service_interrupt());
        let (next, halted) = s.service_interrupt().step();
        if !halted {
            lemma_run_keeps_wf(next, (limit - 1) as nat);
        }
    }
}

} // verus!
