use nes::bits::{assign_bits, test_bits};
use nes::bus::{Bus, IgnoreFrames};
use nes::cartridge::{Mirroring, Rom};
use nes::cpu::addressing::{branch_to, index_absolute, index_zero_page, make_word};
use nes::cpu::run::jumps;
use nes::cpu::{AddressingMode, Memory, CPU};

fn new_cpu() -> CPU<IgnoreFrames> {
    let rom = Rom { prg_rom: vec![0; 0x8000], chr_rom: vec![0; 0x2000], screen_mirroring: Mirroring::HORIZONTAL };
    let mut cpu = CPU::new(Bus::new(rom, IgnoreFrames));
    cpu.program_counter = 0x0600;
    cpu
}

#[test]
fn bits_are_tested_and_assigned_by_mask() {
    assert_eq!(test_bits(0b1010_0000, 0b1000_0000), true);
    assert_eq!(test_bits(0b1010_0000, 0b0100_0000), false);
    assert_eq!(test_bits(0b1010_0000, 0b1010_0000), true);
    assert_eq!(test_bits(0b1010_0000, 0b1110_0000), false);
    assert_eq!(assign_bits(0b1010_0000, 0b0000_0001, true), 0b1010_0001);
    assert_eq!(assign_bits(0b1010_0000, 0b1000_0000, false), 0b0010_0000);
    assert_eq!(assign_bits(0b1010_0000, 0b1000_0000, true), 0b1010_0000);
    assert_eq!(assign_bits(0b1010_0000, 0b0000_0001, false), 0b1010_0000);
}

#[test]
fn address_arithmetic() {
    assert_eq!(index_zero_page(0xF0, 0x0F), 0x00FF);
    assert_eq!(index_zero_page(0xF0, 0x10), 0x0000);
    assert_eq!(index_zero_page(0xFF, 0xFF), 0x00FE);
    assert_eq!(index_absolute(0x12F0, 0x0F), 0x12FF);
    assert_eq!(index_absolute(0x12F0, 0x10), 0x1300);
    assert_eq!(index_absolute(0xFFFF, 0x01), 0x0000);
    assert_eq!(make_word(0x34, 0x12), 0x1234);
    assert_eq!(make_word(0xFF, 0x00), 0x00FF);
    assert_eq!(branch_to(0x1000, 0x00), 0x1000);
    assert_eq!(branch_to(0x1000, 0x7F), 0x107F);
    assert_eq!(branch_to(0x1000, 0x80), 0x0F80);
    assert_eq!(branch_to(0x1000, 0xFF), 0x0FFF);
    assert_eq!(branch_to(0x0000, 0xFF), 0xFFFF);
    assert_eq!(branch_to(0xFFFF, 0x01), 0x0000);
}

#[test]
fn which_opcodes_set_the_program_counter() {
    // jumps, calls, returns and BRK; a branch only when it is taken
    let jumping = [0x00u8, 0x20, 0x40, 0x60, 0x4C, 0x6C];
    for opcode in 0..=255u8 {
        assert_eq!(jumps(opcode), jumping.contains(&opcode));
    }
}

#[test]
fn flags_and_cycles() {
    let mut cpu = new_cpu();
    cpu.status = 0b0100_0001;
    assert_eq!(cpu.flag(0x01), true);
    assert_eq!(cpu.flag(0x02), false);
    assert_eq!(cpu.flag(0x41), true);
    cpu.set_flag(0x80, true);
    assert_eq!(cpu.status, 0b1100_0001);
    cpu.set_flag(0x01, false);
    assert_eq!(cpu.status, 0b1100_0000);
    cpu.tick(5);
    assert_eq!(cpu.bus.cycles(), 5);
    cpu.charge(false);
    assert_eq!(cpu.bus.cycles(), 5);
    cpu.charge(true);
    assert_eq!(cpu.bus.cycles(), 6);
}

#[test]
fn register_loads_set_flags() {
    let mut cpu = new_cpu();
    cpu.status = 0;
    cpu.load_a(0x80);
    assert_eq!((cpu.register_a, cpu.status), (0x80, 0x80));
    cpu.load_x(0);
    assert_eq!((cpu.register_x, cpu.status), (0, 0x02));
    cpu.load_y(1);
    assert_eq!((cpu.register_y, cpu.status), (1, 0));
    assert_eq!(cpu.register_a, 0x80);
}

#[test]
fn operand_parts() {
    let mut cpu = new_cpu();
    cpu.mem_write(0x0600, 0x10);
    cpu.mem_write(0x0010, 0x77);
    assert_eq!(cpu.fetch_operand(&AddressingMode::Immediate), (0x10, false));
    assert_eq!(cpu.fetch_operand(&AddressingMode::ZeroPage), (0x77, false));
    cpu.register_a = 0x33;
    assert_eq!(cpu.read_target(&AddressingMode::Accumulator), (0, 0x33));
    assert_eq!(cpu.read_target(&AddressingMode::ZeroPage), (0x0010, 0x77));
    cpu.status = 0;
    cpu.finish_shift(&AddressingMode::ZeroPage, 0x0010, 0x80, true);
    assert_eq!(cpu.mem_read(0x0010), 0x80);
    assert_eq!(cpu.register_a, 0x33);
    assert_eq!(cpu.status, 0x81);
    cpu.finish_shift(&AddressingMode::Accumulator, 0, 0x00, false);
    assert_eq!(cpu.register_a, 0);
    assert_eq!(cpu.mem_read(0x0010), 0x80);
    assert_eq!(cpu.status, 0x02);
    cpu.store(&AddressingMode::ZeroPage, 0x5A);
    assert_eq!(cpu.mem_read(0x0010), 0x5A);
    cpu.status = 0;
    cpu.compare(0x10, 0x20);
    assert_eq!(cpu.status, 0x80);
    cpu.compare(0x20, 0x20);
    assert_eq!(cpu.status, 0x03);
}

#[test]
fn add_to_accumulator_sets_four_flags() {
    let mut cpu = new_cpu();
    cpu.register_a = 0x7F;
    cpu.status = 0x01;
    cpu.add_to_accumulator(0x00);
    assert_eq!(cpu.register_a, 0x80);
    // overflow and negative; carry and zero clear
    assert_eq!(cpu.status, 0xC0);
    cpu.add_to_accumulator(0x80);
    assert_eq!(cpu.register_a, 0x00);
    assert_eq!(cpu.status, 0x43);
}

#[test]
fn skip_operand_and_service_interrupt() {
    let mut cpu = new_cpu();
    cpu.mem_write_u16(0x0600, 0x02FF);
    cpu.register_x = 1;
    cpu.skip_operand(&AddressingMode::Absolute_X);
    assert_eq!(cpu.bus.cycles(), 1);
    cpu.skip_operand(&AddressingMode::Absolute);
    assert_eq!(cpu.bus.cycles(), 1);
    assert_eq!(cpu.program_counter, 0x0600);
    // nothing pending: nothing happens
    cpu.service_interrupt();
    assert_eq!(cpu.program_counter, 0x0600);
    assert_eq!(cpu.stack_pointer, 0xFD);
    assert_eq!(cpu.bus.cycles(), 1);
}

#[test]
fn jsr_pushes_the_address_of_its_last_byte() {
    let mut cpu = new_cpu();
    cpu.program_counter = 0x06FF;
    cpu.mem_write(0x06FF, 0x34);
    cpu.mem_write(0x0700, 0x12);
    cpu.jsr();
    assert_eq!(cpu.program_counter, 0x1234);
    assert_eq!(cpu.mem_read(0x01FD), 0x07);
    assert_eq!(cpu.mem_read(0x01FC), 0x00);
    assert_eq!(cpu.stack_pointer, 0xFB);
}

#[test]
fn store_with_high_byte_masks_with_the_page() {
    let mut cpu = new_cpu();
    cpu.mem_write_u16(0x0600, 0x05F0);
    cpu.store_with_high_byte(0xFF, 0x20);
    // address 0x0610, high byte 6
    assert_eq!(cpu.mem_read(0x0610), 0x06);
    cpu.store_with_high_byte(0x03, 0x00);
    assert_eq!(cpu.mem_read(0x05F0), 0x01);
}
