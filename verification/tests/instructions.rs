use nes::bus::{Bus, IgnoreFrames};
use nes::cartridge::{Mirroring, Rom};
use nes::cpu::alu::{add_bytes, decrement, high, increment, low, rotate_left, rotate_right, subtract};
use nes::cpu::{AddressingMode, Memory, CPU};

const C: u8 = 0x01;
const Z: u8 = 0x02;
const I: u8 = 0x04;
const D: u8 = 0x08;
const V: u8 = 0x40;
const N: u8 = 0x80;

fn new_cpu() -> CPU<IgnoreFrames> {
    let rom = Rom { prg_rom: vec![1; 2 * 0x4000], chr_rom: vec![2; 0x2000], screen_mirroring: Mirroring::VERTICAL };
    let mut cpu = CPU::new(Bus::new(rom, IgnoreFrames));
    cpu.program_counter = 0x0600;
    cpu
}

/// A processor whose immediate operand is `operand`.
fn with_operand(operand: u8) -> CPU<IgnoreFrames> {
    let mut cpu = new_cpu();
    cpu.mem_write(0x0600, operand);
    cpu
}

const IMM: AddressingMode = AddressingMode::Immediate;

#[test]
fn add_bytes_values() {
    assert_eq!(add_bytes(0x01, 0x01, false), (0x02, false, false));
    assert_eq!(add_bytes(0xFF, 0x01, false), (0x00, true, false));
    assert_eq!(add_bytes(0xFF, 0xFF, true), (0xFF, true, false));
    assert_eq!(add_bytes(0x7F, 0x01, false), (0x80, false, true));
    assert_eq!(add_bytes(0x80, 0x80, false), (0x00, true, true));
    assert_eq!(add_bytes(0x50, 0x50, false), (0xA0, false, true));
    assert_eq!(add_bytes(0xD0, 0x90, false), (0x60, true, true));
    assert_eq!(add_bytes(0x00, 0x00, true), (0x01, false, false));
}

#[test]
fn shifts_and_small_arithmetic() {
    assert_eq!(rotate_left(0b1000_0001, false), (0b0000_0010, true));
    assert_eq!(rotate_left(0b0100_0000, true), (0b1000_0001, false));
    assert_eq!(rotate_right(0b1000_0001, false), (0b0100_0000, true));
    assert_eq!(rotate_right(0b0000_0010, true), (0b1000_0001, false));
    assert_eq!(increment(0xFF), 0);
    assert_eq!(increment(0x7F), 0x80);
    assert_eq!(decrement(0x00), 0xFF);
    assert_eq!(decrement(0x80), 0x7F);
    assert_eq!(subtract(5, 7), 0xFE);
    assert_eq!(subtract(7, 5), 2);
    assert_eq!(high(0xABCD), 0xAB);
    assert_eq!(low(0xABCD), 0xCD);
}

#[test]
fn adc_adds_the_carry() {
    let mut cpu = with_operand(0x10);
    cpu.register_a = 0x20;
    cpu.status = C;
    cpu.adc(&IMM);
    assert_eq!(cpu.register_a, 0x31);
    assert_eq!(cpu.status, 0);
}

#[test]
fn adc_signed_overflow() {
    let mut cpu = with_operand(0x50);
    cpu.register_a = 0x50;
    cpu.status = 0;
    cpu.adc(&IMM);
    assert_eq!(cpu.register_a, 0xA0);
    assert_eq!(cpu.status, V | N);
}

#[test]
fn sbc_subtracts_with_borrow() {
    let mut cpu = with_operand(0x10);
    cpu.register_a = 0x50;
    cpu.status = C;
    cpu.sbc(&IMM);
    assert_eq!(cpu.register_a, 0x40);
    assert_eq!(cpu.status, C);

    // without carry one more is taken away
    let mut cpu = with_operand(0x10);
    cpu.register_a = 0x50;
    cpu.status = 0;
    cpu.sbc(&IMM);
    assert_eq!(cpu.register_a, 0x3F);
    assert_eq!(cpu.status, C);

    // 0 - 1: borrow, negative
    let mut cpu = with_operand(0x01);
    cpu.register_a = 0x00;
    cpu.status = C;
    cpu.sbc(&IMM);
    assert_eq!(cpu.register_a, 0xFF);
    assert_eq!(cpu.status, N);

    // 0x80 - 1: signed overflow
    let mut cpu = with_operand(0x01);
    cpu.register_a = 0x80;
    cpu.status = C;
    cpu.sbc(&IMM);
    assert_eq!(cpu.register_a, 0x7F);
    assert_eq!(cpu.status, C | V);

    // equal operands: zero
    let mut cpu = with_operand(0x33);
    cpu.register_a = 0x33;
    cpu.status = C;
    cpu.sbc(&IMM);
    assert_eq!(cpu.register_a, 0x00);
    assert_eq!(cpu.status, C | Z);
}

#[test]
fn logic_instructions() {
    let mut cpu = with_operand(0b1100_1010);
    cpu.register_a = 0b1010_0110;
    cpu.status = 0;
    cpu.and(&IMM);
    assert_eq!(cpu.register_a, 0b1000_0010);
    assert_eq!(cpu.status, N);

    cpu.register_a = 0b1010_0110;
    cpu.ora(&IMM);
    assert_eq!(cpu.register_a, 0b1110_1110);
    assert_eq!(cpu.status, N);

    cpu.register_a = 0b1010_0110;
    cpu.eor(&IMM);
    assert_eq!(cpu.register_a, 0b0110_1100);
    assert_eq!(cpu.status, 0);

    cpu.register_a = 0b1100_1010;
    cpu.eor(&IMM);
    assert_eq!(cpu.register_a, 0);
    assert_eq!(cpu.status, Z);
}

#[test]
fn bit_copies_bits_6_and_7() {
    let mut cpu = new_cpu();
    cpu.mem_write(0x0600, 0x10);
    cpu.mem_write(0x0010, 0b1100_0001);
    cpu.register_a = 0b0000_0010;
    cpu.status = 0;
    cpu.bit(&AddressingMode::ZeroPage);
    assert_eq!(cpu.status, Z | V | N);
    assert_eq!(cpu.register_a, 0b0000_0010);

    cpu.mem_write(0x0010, 0b0000_0011);
    cpu.bit(&AddressingMode::ZeroPage);
    assert_eq!(cpu.status, 0);
}

#[test]
fn compare_sets_carry_zero_negative() {
    let mut cpu = with_operand(0x30);
    cpu.status = 0;
    cpu.register_a = 0x30;
    cpu.cmp(&IMM);
    assert_eq!(cpu.status, C | Z);
    assert_eq!(cpu.register_a, 0x30);

    cpu.register_a = 0x40;
    cpu.cmp(&IMM);
    assert_eq!(cpu.status, C);

    cpu.register_a = 0x20;
    cpu.cmp(&IMM);
    assert_eq!(cpu.status, N);

    cpu.register_x = 0x31;
    cpu.cpx(&IMM);
    assert_eq!(cpu.status, C);
    assert_eq!(cpu.register_x, 0x31);

    cpu.register_y = 0x00;
    cpu.cpy(&IMM);
    // 0x00 - 0x30 = 0xD0
    assert_eq!(cpu.status, N);
    assert_eq!(cpu.register_y, 0x00);

    cpu.register_y = 0xB0;
    cpu.cpy(&IMM);
    // 0xB0 - 0x30 = 0x80
    assert_eq!(cpu.status, C | N);
}

#[test]
fn shifts_on_the_accumulator() {
    let acc = AddressingMode::Accumulator;
    let mut cpu = new_cpu();
    cpu.status = 0;
    cpu.register_a = 0b1100_0001;
    cpu.asl(&acc);
    assert_eq!(cpu.register_a, 0b1000_0010);
    assert_eq!(cpu.status, C | N);

    cpu.register_a = 0b0000_0001;
    cpu.status = 0;
    cpu.lsr(&acc);
    assert_eq!(cpu.register_a, 0);
    assert_eq!(cpu.status, C | Z);

    cpu.register_a = 0b0100_0000;
    cpu.status = C;
    cpu.rol(&acc);
    assert_eq!(cpu.register_a, 0b1000_0001);
    assert_eq!(cpu.status, N);

    cpu.register_a = 0b0000_0011;
    cpu.status = C;
    cpu.ror(&acc);
    assert_eq!(cpu.register_a, 0b1000_0001);
    assert_eq!(cpu.status, C | N);

    cpu.register_a = 0b0000_0010;
    cpu.status = 0;
    cpu.ror(&acc);
    assert_eq!(cpu.register_a, 0b0000_0001);
    assert_eq!(cpu.status, 0);
}

#[test]
fn shifts_in_memory() {
    let mut cpu = new_cpu();
    cpu.mem_write(0x0600, 0x10);
    cpu.mem_write(0x0010, 0b1000_0001);
    cpu.register_a = 0x55;
    cpu.status = 0;
    cpu.asl(&AddressingMode::ZeroPage);
    assert_eq!(cpu.mem_read(0x0010), 0b0000_0010);
    assert_eq!(cpu.register_a, 0x55);
    assert_eq!(cpu.status, C);

    cpu.rol(&AddressingMode::ZeroPage);
    assert_eq!(cpu.mem_read(0x0010), 0b0000_0101);
    assert_eq!(cpu.status, 0);

    cpu.lsr(&AddressingMode::ZeroPage);
    assert_eq!(cpu.mem_read(0x0010), 0b0000_0010);
    assert_eq!(cpu.status, C);

    cpu.ror(&AddressingMode::ZeroPage);
    assert_eq!(cpu.mem_read(0x0010), 0b1000_0001);
    assert_eq!(cpu.status, N);
}

#[test]
fn increments_and_decrements() {
    let mut cpu = new_cpu();
    cpu.mem_write(0x0600, 0x10);
    cpu.mem_write(0x0010, 0xFF);
    cpu.status = 0;
    cpu.inc(&AddressingMode::ZeroPage);
    assert_eq!(cpu.mem_read(0x0010), 0x00);
    assert_eq!(cpu.status, Z);
    cpu.dec(&AddressingMode::ZeroPage);
    assert_eq!(cpu.mem_read(0x0010), 0xFF);
    assert_eq!(cpu.status, N);

    cpu.register_x = 0x7F;
    cpu.inx();
    assert_eq!(cpu.register_x, 0x80);
    assert_eq!(cpu.status, N);
    cpu.dex();
    assert_eq!(cpu.register_x, 0x7F);
    assert_eq!(cpu.status, 0);

    cpu.register_y = 0x00;
    cpu.dey();
    assert_eq!(cpu.register_y, 0xFF);
    assert_eq!(cpu.status, N);
    cpu.iny();
    assert_eq!(cpu.register_y, 0x00);
    assert_eq!(cpu.status, Z);
}

#[test]
fn loads_and_stores() {
    let mut cpu = with_operand(0x80);
    cpu.status = 0;
    cpu.lda(&IMM);
    assert_eq!((cpu.register_a, cpu.status), (0x80, N));
    cpu.mem_write(0x0600, 0x00);
    cpu.ldx(&IMM);
    assert_eq!((cpu.register_x, cpu.status), (0x00, Z));
    cpu.mem_write(0x0600, 0x01);
    cpu.ldy(&IMM);
    assert_eq!((cpu.register_y, cpu.status), (0x01, 0));

    cpu.mem_write(0x0600, 0x20);
    cpu.register_a = 0xA1;
    cpu.register_x = 0xB2;
    cpu.register_y = 0xC3;
    cpu.sta(&AddressingMode::ZeroPage);
    assert_eq!(cpu.mem_read(0x0020), 0xA1);
    cpu.stx(&AddressingMode::ZeroPage);
    assert_eq!(cpu.mem_read(0x0020), 0xB2);
    cpu.sty(&AddressingMode::ZeroPage);
    assert_eq!(cpu.mem_read(0x0020), 0xC3);
    assert_eq!(cpu.status, 0);
}

#[test]
fn page_crossing_reads_cost_a_cycle() {
    let mut cpu = new_cpu();
    cpu.mem_write_u16(0x0600, 0x02F0);
    cpu.mem_write(0x0300, 0x77);
    cpu.mem_write(0x02F1, 0x66);
    cpu.register_x = 0x10;
    cpu.lda(&AddressingMode::Absolute_X);
    assert_eq!(cpu.register_a, 0x77);
    assert_eq!(cpu.bus.cycles(), 1);
    cpu.register_x = 0x01;
    cpu.lda(&AddressingMode::Absolute_X);
    assert_eq!(cpu.register_a, 0x66);
    assert_eq!(cpu.bus.cycles(), 1);

    cpu.register_y = 0x10;
    cpu.register_a = 0xFF;
    cpu.and(&AddressingMode::Absolute_Y);
    assert_eq!(cpu.register_a, 0x77);
    assert_eq!(cpu.bus.cycles(), 2);
    cpu.ldx(&AddressingMode::Absolute_Y);
    assert_eq!(cpu.bus.cycles(), 3);
    cpu.lax(&AddressingMode::Absolute_Y);
    assert_eq!(cpu.bus.cycles(), 4);
    cpu.cmp(&AddressingMode::Absolute_Y);
    assert_eq!(cpu.bus.cycles(), 5);
    // a store does not pay
    cpu.sta(&AddressingMode::Absolute_Y);
    assert_eq!(cpu.bus.cycles(), 5);
    // nor does a shift in memory
    cpu.asl(&AddressingMode::Absolute_X);
    cpu.register_x = 0x10;
    cpu.asl(&AddressingMode::Absolute_X);
    assert_eq!(cpu.bus.cycles(), 5);
}

#[test]
fn whole_instruction_charges_base_cost_and_page_cross() {
    let mut cpu = new_cpu();
    cpu.register_x = 0x10;
    // LDA $02F0,X ; BRK
    cpu.load(vec![0xbd, 0xf0, 0x02, 0x00]);
    cpu.run();
    assert_eq!(cpu.bus.cycles(), 5);
    assert_eq!(cpu.program_counter, 0x0604);
}

#[test]
fn transfers() {
    let mut cpu = new_cpu();
    cpu.status = 0;
    cpu.register_a = 0x80;
    cpu.tax();
    assert_eq!((cpu.register_x, cpu.status), (0x80, N));
    cpu.register_a = 0;
    cpu.tay();
    assert_eq!((cpu.register_y, cpu.status), (0, Z));
    cpu.stack_pointer = 0x42;
    cpu.tsx();
    assert_eq!((cpu.register_x, cpu.status), (0x42, 0));
    cpu.register_x = 0x99;
    cpu.txa();
    assert_eq!((cpu.register_a, cpu.status), (0x99, N));
    cpu.status = Z;
    cpu.txs();
    assert_eq!((cpu.stack_pointer, cpu.status), (0x99, Z));
    cpu.register_y = 0x01;
    cpu.tya();
    assert_eq!((cpu.register_a, cpu.status), (0x01, 0));
}

#[test]
fn flag_instructions() {
    let mut cpu = new_cpu();
    cpu.status = 0;
    cpu.sec();
    assert_eq!(cpu.status, C);
    cpu.sed();
    assert_eq!(cpu.status, C | D);
    cpu.sei();
    assert_eq!(cpu.status, C | D | I);
    cpu.status = 0xFF;
    cpu.clc();
    assert_eq!(cpu.status, 0xFF & !C);
    cpu.cld();
    assert_eq!(cpu.status, 0xFF & !C & !D);
    cpu.cli();
    assert_eq!(cpu.status, 0xFF & !C & !D & !I);
    cpu.clv();
    assert_eq!(cpu.status, 0xFF & !C & !D & !I & !V);
}

#[test]
fn nops_change_nothing() {
    let mut cpu = new_cpu();
    cpu.register_a = 1;
    cpu.status = 0x65;
    cpu.nop();
    cpu.dop();
    cpu.top();
    cpu.kil();
    cpu.xaa();
    assert_eq!(cpu.register_a, 1);
    assert_eq!(cpu.status, 0x65);
    assert_eq!(cpu.program_counter, 0x0600);
    assert_eq!(cpu.stack_pointer, 0xFD);
    assert_eq!(cpu.bus.cycles(), 0);
}

#[test]
fn nop_with_operand_pays_for_a_page_cross() {
    let mut cpu = new_cpu();
    cpu.register_x = 0x20;
    // *NOP $02F0,X ; BRK
    cpu.load(vec![0x1c, 0xf0, 0x02, 0x00]);
    cpu.run();
    assert_eq!(cpu.bus.cycles(), 5);
    assert_eq!(cpu.program_counter, 0x0604);
}

#[test]
fn aac_sets_carry_when_negative() {
    let mut cpu = with_operand(0xF0);
    cpu.register_a = 0x8F;
    cpu.status = 0;
    cpu.aac(&IMM);
    assert_eq!(cpu.register_a, 0x80);
    assert_eq!(cpu.status, N | C);

    let mut cpu = with_operand(0x0F);
    cpu.register_a = 0x8F;
    cpu.status = C;
    cpu.aac(&IMM);
    assert_eq!(cpu.register_a, 0x0F);
    // the carry is left as it was
    assert_eq!(cpu.status, C);
}

#[test]
fn sax_and_axa_store() {
    let mut cpu = with_operand(0x20);
    cpu.register_a = 0b1111_0110;
    cpu.register_x = 0b0011_1111;
    cpu.status = 0;
    cpu.sax(&AddressingMode::ZeroPage);
    assert_eq!(cpu.mem_read(0x0020), 0b0011_0110);
    cpu.axa(&AddressingMode::ZeroPage);
    assert_eq!(cpu.mem_read(0x0020), 0b0000_0110);
    assert_eq!(cpu.status, 0);
}

#[test]
fn arr_rotates_and_sets_flags_from_bits_5_and_6() {
    // a & operand = 0b1100_0001 -> rotated 0b1110_0000: bits 5 and 6 set
    let mut cpu = with_operand(0b1100_0001);
    cpu.register_a = 0xFF;
    cpu.status = V;
    cpu.arr(&IMM);
    assert_eq!(cpu.register_a, 0b1110_0000);
    assert_eq!(cpu.status, C | N);

    // 0b0100_0000 -> 0b0010_0000: bit 5 only
    let mut cpu = with_operand(0b0100_0000);
    cpu.register_a = 0xFF;
    cpu.status = C;
    cpu.arr(&IMM);
    assert_eq!(cpu.register_a, 0b0010_0000);
    assert_eq!(cpu.status, V);

    // 0b1000_0000 -> 0b0100_0000: bit 6 only
    let mut cpu = with_operand(0b1000_0000);
    cpu.register_a = 0xFF;
    cpu.status = 0;
    cpu.arr(&IMM);
    assert_eq!(cpu.register_a, 0b0100_0000);
    assert_eq!(cpu.status, C | V);

    // 0 -> 0: neither
    let mut cpu = with_operand(0);
    cpu.register_a = 0xFF;
    cpu.status = C | V;
    cpu.arr(&IMM);
    assert_eq!(cpu.register_a, 0);
    assert_eq!(cpu.status, Z);
}

#[test]
fn asr_atx_axs() {
    let mut cpu = with_operand(0b0000_0111);
    cpu.register_a = 0b1111_1110;
    cpu.status = C;
    cpu.asr(&IMM);
    assert_eq!(cpu.register_a, 0b0000_0011);
    assert_eq!(cpu.status, C);

    let mut cpu = with_operand(0xF0);
    cpu.register_a = 0x9F;
    cpu.status = 0;
    cpu.atx(&IMM);
    assert_eq!(cpu.register_x, 0x90);
    assert_eq!(cpu.register_a, 0x9F);
    assert_eq!(cpu.status, N);

    let mut cpu = with_operand(0x05);
    cpu.register_a = 0x0F;
    cpu.register_x = 0x03;
    cpu.status = 0;
    cpu.axs(&IMM);
    // 3 - 5 wraps
    assert_eq!(cpu.register_x, 0xFE);
    assert_eq!(cpu.status, N);
}

#[test]
fn lar_and_lax() {
    let mut cpu = with_operand(0xF0);
    cpu.stack_pointer = 0x9C;
    cpu.status = 0;
    cpu.lar(&IMM);
    assert_eq!(cpu.register_a, 0x90);
    assert_eq!(cpu.register_x, 0x90);
    assert_eq!(cpu.stack_pointer, 0x90);
    assert_eq!(cpu.status, N);

    let mut cpu = with_operand(0x00);
    cpu.register_a = 1;
    cpu.register_x = 2;
    cpu.status = 0;
    cpu.lax(&IMM);
    assert_eq!(cpu.register_a, 0);
    assert_eq!(cpu.register_x, 0);
    assert_eq!(cpu.status, Z);
}

#[test]
fn dcp_decrements_then_compares() {
    let mut cpu = with_operand(0x10);
    cpu.mem_write(0x0010, 0x41);
    cpu.register_a = 0x40;
    cpu.status = 0;
    cpu.dcp(&AddressingMode::ZeroPage);
    assert_eq!(cpu.mem_read(0x0010), 0x40);
    assert_eq!(cpu.status, C | Z);
    cpu.dcp(&AddressingMode::ZeroPage);
    assert_eq!(cpu.mem_read(0x0010), 0x3F);
    assert_eq!(cpu.status, C);
    cpu.register_a = 0x10;
    cpu.dcp(&AddressingMode::ZeroPage);
    assert_eq!(cpu.mem_read(0x0010), 0x3E);
    // 0x10 - 0x3E = 0xD2
    assert_eq!(cpu.status, N);
}

#[test]
fn isb_increments_then_subtracts() {
    let mut cpu = with_operand(0x10);
    cpu.mem_write(0x0010, 0x0F);
    cpu.register_a = 0x50;
    cpu.status = C;
    cpu.isb(&AddressingMode::ZeroPage);
    assert_eq!(cpu.mem_read(0x0010), 0x10);
    assert_eq!(cpu.register_a, 0x40);
    assert_eq!(cpu.status, C);
}

#[test]
fn slo_shifts_then_ors() {
    let mut cpu = with_operand(0x10);
    cpu.mem_write(0x0010, 0b1000_0001);
    cpu.register_a = 0b0100_0000;
    cpu.status = 0;
    cpu.slo(&AddressingMode::ZeroPage);
    assert_eq!(cpu.mem_read(0x0010), 0b0000_0010);
    assert_eq!(cpu.register_a, 0b0100_0010);
    assert_eq!(cpu.status, C);
}

#[test]
fn sre_shifts_then_eors() {
    let mut cpu = with_operand(0x10);
    cpu.mem_write(0x0010, 0b0000_0011);
    cpu.register_a = 0b1000_0001;
    cpu.status = 0;
    cpu.sre(&AddressingMode::ZeroPage);
    assert_eq!(cpu.mem_read(0x0010), 0b0000_0001);
    assert_eq!(cpu.register_a, 0b1000_0000);
    assert_eq!(cpu.status, C | N);
}

#[test]
fn rla_rotates_then_ands() {
    let mut cpu = with_operand(0x10);
    cpu.mem_write(0x0010, 0b1100_0000);
    cpu.register_a = 0b1000_0011;
    cpu.status = C;
    cpu.rla(&AddressingMode::ZeroPage);
    assert_eq!(cpu.mem_read(0x0010), 0b1000_0001);
    assert_eq!(cpu.register_a, 0b1000_0001);
    assert_eq!(cpu.status, C | N);
}

#[test]
fn rra_rotates_then_adds() {
    let mut cpu = with_operand(0x10);
    cpu.mem_write(0x0010, 0b0000_0101);
    cpu.register_a = 0x10;
    cpu.status = 0;
    cpu.rra(&AddressingMode::ZeroPage);
    // rotated: 0b0000_0010, carry out 1; then 0x10 + 0x02 + 1
    assert_eq!(cpu.mem_read(0x0010), 0b0000_0010);
    assert_eq!(cpu.register_a, 0x13);
    assert_eq!(cpu.status, 0);
}

#[test]
fn sxa_sya_xas() {
    let mut cpu = new_cpu();
    cpu.mem_write_u16(0x0600, 0x0310);
    cpu.register_x = 0b0000_0111;
    cpu.register_y = 0x05;
    cpu.sxa();
    // address 0x0315, high byte 3
    assert_eq!(cpu.mem_read(0x0315), 0b0000_0011);

    cpu.register_x = 0x06;
    cpu.register_y = 0b0000_0110;
    cpu.sya();
    // address 0x0316
    assert_eq!(cpu.mem_read(0x0316), 0b0000_0010);

    cpu.register_a = 0b0000_1111;
    cpu.register_x = 0b0000_0101;
    cpu.register_y = 0x07;
    cpu.xas();
    assert_eq!(cpu.stack_pointer, 0b0000_0101);
    // address 0x0317; (3 + 1) & 5 = 4
    assert_eq!(cpu.mem_read(0x0317), 0b0000_0100);
}

#[test]
fn undocumented_opcodes_in_a_program() {
    let mut cpu = new_cpu();
    cpu.bus.mem_write(0x0010, 0x0F);
    // LAX $10; *NOP #$FF; AXS #$01; SAX $11; KIL; BRK
    cpu.load(vec![0xa7, 0x10, 0x80, 0xff, 0xcb, 0x01, 0x87, 0x11, 0x02, 0x00]);
    cpu.run();
    assert_eq!(cpu.register_a, 0x0F);
    assert_eq!(cpu.register_x, 0x0E);
    assert_eq!(cpu.mem_read(0x0011), 0x0E);
    assert_eq!(cpu.program_counter, 0x060A);
    assert_eq!(cpu.bus.cycles(), 3 + 2 + 2 + 3 + 2);
}
