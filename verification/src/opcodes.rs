//! The instruction table: for each of the 256 opcode bytes its name, its
//! length in bytes, its base cost in cycles and its addressing mode.
//! Names with a star are the undocumented instructions.

use std::collections::HashMap;
use vstd::prelude::*;
use crate::cpu::AddressingMode;

verus! {

broadcast use vstd::std_specs::hash::group_hash_axioms;

/// Number of opcode bytes.
pub const OPCODE_COUNT: usize = 256;

#[derive(Debug, Clone, Copy)]
pub struct OpCode {
    pub opcode_num: u8,
    pub instruction_type: &'static str,
    pub bytes: u8,
    pub cycles: u8,
    pub addressing_mode: AddressingMode,
}

impl OpCode {
    pub fn new(
        opcode_num: u8,
        instruction_type: &'static str,
        bytes: u8,
        cycles: u8,
        addressing_mode: AddressingMode,
    ) -> (opcode: OpCode)
        ensures
            opcode == entry(opcode_num, instruction_type, bytes, cycles, addressing_mode),
    {
        OpCode { opcode_num, instruction_type, bytes, cycles, addressing_mode }
    }
}

/// One line of the table.
pub open spec fn entry(
    opcode_num: u8,
    instruction_type: &'static str,
    bytes: u8,
    cycles: u8,
    addressing_mode: AddressingMode,
) -> OpCode {
    OpCode { opcode_num, instruction_type, bytes, cycles, addressing_mode }
}

/// The opcodes $00 to $0F, by their low half.
pub open spec fn opcodes_0x(column: u8) -> OpCode {
    match column {
        0 => entry(0x00, "BRK", 1, 7, AddressingMode::Implied),
        1 => entry(0x01, "ORA", 2, 6, AddressingMode::Indirect_X),
        2 => entry(0x02, "*KIL", 1, 2, AddressingMode::NoneAddressing),
        3 => entry(0x03, "*SLO", 2, 8, AddressingMode::Indirect_X),
        4 => entry(0x04, "*NOP", 2, 3, AddressingMode::ZeroPage),
        5 => entry(0x05, "ORA", 2, 3, AddressingMode::ZeroPage),
        6 => entry(0x06, "ASL", 2, 5, AddressingMode::ZeroPage),
        7 => entry(0x07, "*SLO", 2, 5, AddressingMode::ZeroPage),
        8 => entry(0x08, "PHP", 1, 3, AddressingMode::Implied),
        9 => entry(0x09, "ORA", 2, 2, AddressingMode::Immediate),
        10 => entry(0x0A, "ASL", 1, 2, AddressingMode::Accumulator),
        11 => entry(0x0B, "*AAC", 2, 2, AddressingMode::Immediate),
        12 => entry(0x0C, "*NOP", 3, 4, AddressingMode::Absolute),
        13 => entry(0x0D, "ORA", 3, 4, AddressingMode::Absolute),
        14 => entry(0x0E, "ASL", 3, 6, AddressingMode::Absolute),
        _ => entry(0x0F, "*SLO", 3, 6, AddressingMode::Absolute),
    }
}

/// The opcodes $10 to $1F, by their low half.
pub open spec fn opcodes_1x(column: u8) -> OpCode {
    match column {
        0 => entry(0x10, "BPL", 2, 2, AddressingMode::Relative),
        1 => entry(0x11, "ORA", 2, 5, AddressingMode::Indirect_Y),
        2 => entry(0x12, "*KIL", 1, 2, AddressingMode::NoneAddressing),
        3 => entry(0x13, "*SLO", 2, 8, AddressingMode::Indirect_Y),
        4 => entry(0x14, "*NOP", 2, 4, AddressingMode::ZeroPage_X),
        5 => entry(0x15, "ORA", 2, 4, AddressingMode::ZeroPage_X),
        6 => entry(0x16, "ASL", 2, 6, AddressingMode::ZeroPage_X),
        7 => entry(0x17, "*SLO", 2, 6, AddressingMode::ZeroPage_X),
        8 => entry(0x18, "CLC", 1, 2, AddressingMode::Implied),
        9 => entry(0x19, "ORA", 3, 4, AddressingMode::Absolute_Y),
        10 => entry(0x1A, "*NOP", 1, 2, AddressingMode::Implied),
        11 => entry(0x1B, "*SLO", 3, 7, AddressingMode::Absolute_Y),
        12 => entry(0x1C, "*NOP", 3, 4, AddressingMode::Absolute_X),
        13 => entry(0x1D, "ORA", 3, 4, AddressingMode::Absolute_X),
        14 => entry(0x1E, "ASL", 3, 7, AddressingMode::Absolute_X),
        _ => entry(0x1F, "*SLO", 3, 7, AddressingMode::Absolute_X),
    }
}

/// The opcodes $20 to $2F, by their low half.
pub open spec fn opcodes_2x(column: u8) -> OpCode {
    match column {
        0 => entry(0x20, "JSR", 3, 6, AddressingMode::NoneAddressing),
        1 => entry(0x21, "AND", 2, 6, AddressingMode::Indirect_X),
        2 => entry(0x22, "*KIL", 1, 2, AddressingMode::NoneAddressing),
        3 => entry(0x23, "*RLA", 2, 8, AddressingMode::Indirect_X),
        4 => entry(0x24, "BIT", 2, 3, AddressingMode::ZeroPage),
        5 => entry(0x25, "AND", 2, 3, AddressingMode::ZeroPage),
        6 => entry(0x26, "ROL", 2, 5, AddressingMode::ZeroPage),
        7 => entry(0x27, "*RLA", 2, 5, AddressingMode::ZeroPage),
        8 => entry(0x28, "PLP", 1, 4, AddressingMode::Implied),
        9 => entry(0x29, "AND", 2, 2, AddressingMode::Immediate),
        10 => entry(0x2A, "ROL", 1, 2, AddressingMode::Accumulator),
        11 => entry(0x2B, "*AAC", 2, 2, AddressingMode::Immediate),
        12 => entry(0x2C, "BIT", 3, 4, AddressingMode::Absolute),
        13 => entry(0x2D, "AND", 3, 4, AddressingMode::Absolute),
        14 => entry(0x2E, "ROL", 3, 6, AddressingMode::Absolute),
        _ => entry(0x2F, "*RLA", 3, 6, AddressingMode::Absolute),
    }
}

/// The opcodes $30 to $3F, by their low half.
pub open spec fn opcodes_3x(column: u8) -> OpCode {
    match column {
        0 => entry(0x30, "BMI", 2, 2, AddressingMode::Relative),
        1 => entry(0x31, "AND", 2, 5, AddressingMode::Indirect_Y),
        2 => entry(0x32, "*KIL", 1, 2, AddressingMode::NoneAddressing),
        3 => entry(0x33, "*RLA", 2, 8, AddressingMode::Indirect_Y),
        4 => entry(0x34, "*NOP", 2, 4, AddressingMode::ZeroPage_X),
        5 => entry(0x35, "AND", 2, 4, AddressingMode::ZeroPage_X),
        6 => entry(0x36, "ROL", 2, 6, AddressingMode::ZeroPage_X),
        7 => entry(0x37, "*RLA", 2, 6, AddressingMode::ZeroPage_X),
        8 => entry(0x38, "SEC", 1, 2, AddressingMode::Implied),
        9 => entry(0x39, "AND", 3, 4, AddressingMode::Absolute_Y),
        10 => entry(0x3A, "*NOP", 1, 2, AddressingMode::Implied),
        11 => entry(0x3B, "*RLA", 3, 7, AddressingMode::Absolute_Y),
        12 => entry(0x3C, "*NOP", 3, 4, AddressingMode::Absolute_X),
        13 => entry(0x3D, "AND", 3, 4, AddressingMode::Absolute_X),
        14 => entry(0x3E, "ROL", 3, 7, AddressingMode::Absolute_X),
        _ => entry(0x3F, "*RLA", 3, 7, AddressingMode::Absolute_X),
    }
}

/// The opcodes $40 to $4F, by their low half.
pub open spec fn opcodes_4x(column: u8) -> OpCode {
    match column {
        0 => entry(0x40, "RTI", 1, 6, AddressingMode::Implied),
        1 => entry(0x41, "EOR", 2, 6, AddressingMode::Indirect_X),
        2 => entry(0x42, "*KIL", 1, 2, AddressingMode::NoneAddressing),
        3 => entry(0x43, "*SRE", 2, 8, AddressingMode::Indirect_X),
        4 => entry(0x44, "*NOP", 2, 3, AddressingMode::ZeroPage),
        5 => entry(0x45, "EOR", 2, 3, AddressingMode::ZeroPage),
        6 => entry(0x46, "LSR", 2, 5, AddressingMode::ZeroPage),
        7 => entry(0x47, "*SRE", 2, 5, AddressingMode::ZeroPage),
        8 => entry(0x48, "PHA", 1, 3, AddressingMode::Implied),
        9 => entry(0x49, "EOR", 2, 2, AddressingMode::Immediate),
        10 => entry(0x4A, "LSR", 1, 2, AddressingMode::Accumulator),
        11 => entry(0x4B, "*ASR", 2, 2, AddressingMode::Immediate),
        12 => entry(0x4C, "JMP", 3, 3, AddressingMode::NoneAddressing),
        13 => entry(0x4D, "EOR", 3, 4, AddressingMode::Absolute),
        14 => entry(0x4E, "LSR", 3, 6, AddressingMode::Absolute),
        _ => entry(0x4F, "*SRE", 3, 6, AddressingMode::Absolute),
    }
}

/// The opcodes $50 to $5F, by their low half.
pub open spec fn opcodes_5x(column: u8) -> OpCode {
    match column {
        0 => entry(0x50, "BVC", 2, 2, AddressingMode::Relative),
        1 => entry(0x51, "EOR", 2, 5, AddressingMode::Indirect_Y),
        2 => entry(0x52, "*KIL", 1, 2, AddressingMode::NoneAddressing),
        3 => entry(0x53, "*SRE", 2, 8, AddressingMode::Indirect_Y),
        4 => entry(0x54, "*NOP", 2, 4, AddressingMode::ZeroPage_X),
        5 => entry(0x55, "EOR", 2, 4, AddressingMode::ZeroPage_X),
        6 => entry(0x56, "LSR", 2, 6, AddressingMode::ZeroPage_X),
        7 => entry(0x57, "*SRE", 2, 6, AddressingMode::ZeroPage_X),
        8 => entry(0x58, "CLI", 1, 2, AddressingMode::Implied),
        9 => entry(0x59, "EOR", 3, 4, AddressingMode::Absolute_Y),
        10 => entry(0x5A, "*NOP", 1, 2, AddressingMode::Implied),
        11 => entry(0x5B, "*SRE", 3, 7, AddressingMode::Absolute_Y),
        12 => entry(0x5C, "*NOP", 3, 4, AddressingMode::Absolute_X),
        13 => entry(0x5D, "EOR", 3, 4, AddressingMode::Absolute_X),
        14 => entry(0x5E, "LSR", 3, 7, AddressingMode::Absolute_X),
        _ => entry(0x5F, "*SRE", 3, 7, AddressingMode::Absolute_X),
    }
}

/// The opcodes $60 to $6F, by their low half.
pub open spec fn opcodes_6x(column: u8) -> OpCode {
    match column {
        0 => entry(0x60, "RTS", 1, 6, AddressingMode::Implied),
        1 => entry(0x61, "ADC", 2, 6, AddressingMode::Indirect_X),
        2 => entry(0x62, "*KIL", 1, 2, AddressingMode::NoneAddressing),
        3 => entry(0x63, "*RRA", 2, 8, AddressingMode::Indirect_X),
        4 => entry(0x64, "*NOP", 2, 3, AddressingMode::ZeroPage),
        5 => entry(0x65, "ADC", 2, 3, AddressingMode::ZeroPage),
        6 => entry(0x66, "ROR", 2, 5, AddressingMode::ZeroPage),
        7 => entry(0x67, "*RRA", 2, 5, AddressingMode::ZeroPage),
        8 => entry(0x68, "PLA", 1, 4, AddressingMode::Implied),
        9 => entry(0x69, "ADC", 2, 2, AddressingMode::Immediate),
        10 => entry(0x6A, "ROR", 1, 2, AddressingMode::Accumulator),
        11 => entry(0x6B, "*ARR", 2, 2, AddressingMode::Immediate),
        12 => entry(0x6C, "JMP", 3, 5, AddressingMode::NoneAddressing),
        13 => entry(0x6D, "ADC", 3, 4, AddressingMode::Absolute),
        14 => entry(0x6E, "ROR", 3, 6, AddressingMode::Absolute),
        _ => entry(0x6F, "*RRA", 3, 6, AddressingMode::Absolute),
    }
}

/// The opcodes $70 to $7F, by their low half.
pub open spec fn opcodes_7x(column: u8) -> OpCode {
    match column {
        0 => entry(0x70, "BVS", 2, 2, AddressingMode::Relative),
        1 => entry(0x71, "ADC", 2, 5, AddressingMode::Indirect_Y),
        2 => entry(0x72, "*KIL", 1, 2, AddressingMode::NoneAddressing),
        3 => entry(0x73, "*RRA", 2, 8, AddressingMode::Indirect_Y),
        4 => entry(0x74, "*NOP", 2, 4, AddressingMode::ZeroPage_X),
        5 => entry(0x75, "ADC", 2, 4, AddressingMode::ZeroPage_X),
        6 => entry(0x76, "ROR", 2, 6, AddressingMode::ZeroPage_X),
        7 => entry(0x77, "*RRA", 2, 6, AddressingMode::ZeroPage_X),
        8 => entry(0x78, "SEI", 1, 2, AddressingMode::Implied),
        9 => entry(0x79, "ADC", 3, 4, AddressingMode::Absolute_Y),
        10 => entry(0x7A, "*NOP", 1, 2, AddressingMode::Implied),
        11 => entry(0x7B, "*RRA", 3, 7, AddressingMode::Absolute_Y),
        12 => entry(0x7C, "*NOP", 3, 4, AddressingMode::Absolute_X),
        13 => entry(0x7D, "ADC", 3, 4, AddressingMode::Absolute_X),
        14 => entry(0x7E, "ROR", 3, 7, AddressingMode::Absolute_X),
        _ => entry(0x7F, "*RRA", 3, 7, AddressingMode::Absolute_X),
    }
}

/// The opcodes $80 to $8F, by their low half.
pub open spec fn opcodes_8x(column: u8) -> OpCode {
    match column {
        0 => entry(0x80, "*NOP", 2, 2, AddressingMode::Immediate),
        1 => entry(0x81, "STA", 2, 6, AddressingMode::Indirect_X),
        2 => entry(0x82, "*NOP", 2, 2, AddressingMode::Immediate),
        3 => entry(0x83, "*SAX", 2, 6, AddressingMode::Indirect_X),
        4 => entry(0x84, "STY", 2, 3, AddressingMode::ZeroPage),
        5 => entry(0x85, "STA", 2, 3, AddressingMode::ZeroPage),
        6 => entry(0x86, "STX", 2, 3, AddressingMode::ZeroPage),
        7 => entry(0x87, "*SAX", 2, 3, AddressingMode::ZeroPage),
        8 => entry(0x88, "DEY", 1, 2, AddressingMode::Implied),
        9 => entry(0x89, "*NOP", 2, 2, AddressingMode::Immediate),
        10 => entry(0x8A, "TXA", 1, 2, AddressingMode::Implied),
        11 => entry(0x8B, "*XAA", 2, 2, AddressingMode::Immediate),
        12 => entry(0x8C, "STY", 3, 4, AddressingMode::Absolute),
        13 => entry(0x8D, "STA", 3, 4, AddressingMode::Absolute),
        14 => entry(0x8E, "STX", 3, 4, AddressingMode::Absolute),
        _ => entry(0x8F, "*SAX", 3, 4, AddressingMode::Absolute),
    }
}

/// The opcodes $90 to $9F, by their low half.
pub open spec fn opcodes_9x(column: u8) -> OpCode {
    match column {
        0 => entry(0x90, "BCC", 2, 2, AddressingMode::Relative),
        1 => entry(0x91, "STA", 2, 6, AddressingMode::Indirect_Y),
        2 => entry(0x92, "*KIL", 1, 2, AddressingMode::NoneAddressing),
        3 => entry(0x93, "*AXA", 2, 6, AddressingMode::Indirect_Y),
        4 => entry(0x94, "STY", 2, 4, AddressingMode::ZeroPage_X),
        5 => entry(0x95, "STA", 2, 4, AddressingMode::ZeroPage_X),
        6 => entry(0x96, "STX", 2, 4, AddressingMode::ZeroPage_Y),
        7 => entry(0x97, "*SAX", 2, 4, AddressingMode::ZeroPage_Y),
        8 => entry(0x98, "TYA", 1, 2, AddressingMode::Implied),
        9 => entry(0x99, "STA", 3, 5, AddressingMode::Absolute_Y),
        10 => entry(0x9A, "TXS", 1, 2, AddressingMode::Implied),
        11 => entry(0x9B, "*XAS", 3, 5, AddressingMode::Absolute_Y),
        12 => entry(0x9C, "*SYA", 3, 5, AddressingMode::Absolute_X),
        13 => entry(0x9D, "STA", 3, 5, AddressingMode::Absolute_X),
        14 => entry(0x9E, "*SXA", 3, 5, AddressingMode::Absolute_Y),
        _ => entry(0x9F, "*AXA", 3, 5, AddressingMode::Absolute_Y),
    }
}

/// The opcodes $A0 to $AF, by their low half.
pub open spec fn opcodes_ax(column: u8) -> OpCode {
    match column {
        0 => entry(0xA0, "LDY", 2, 2, AddressingMode::Immediate),
        1 => entry(0xA1, "LDA", 2, 6, AddressingMode::Indirect_X),
        2 => entry(0xA2, "LDX", 2, 2, AddressingMode::Immediate),
        3 => entry(0xA3, "*LAX", 2, 6, AddressingMode::Indirect_X),
        4 => entry(0xA4, "LDY", 2, 3, AddressingMode::ZeroPage),
        5 => entry(0xA5, "LDA", 2, 3, AddressingMode::ZeroPage),
        6 => entry(0xA6, "LDX", 2, 3, AddressingMode::ZeroPage),
        7 => entry(0xA7, "*LAX", 2, 3, AddressingMode::ZeroPage),
        8 => entry(0xA8, "TAY", 1, 2, AddressingMode::Implied),
        9 => entry(0xA9, "LDA", 2, 2, AddressingMode::Immediate),
        10 => entry(0xAA, "TAX", 1, 2, AddressingMode::Implied),
        11 => entry(0xAB, "*ATX", 2, 2, AddressingMode::Immediate),
        12 => entry(0xAC, "LDY", 3, 4, AddressingMode::Absolute),
        13 => entry(0xAD, "LDA", 3, 4, AddressingMode::Absolute),
        14 => entry(0xAE, "LDX", 3, 4, AddressingMode::Absolute),
        _ => entry(0xAF, "*LAX", 3, 4, AddressingMode::Absolute),
    }
}

/// The opcodes $B0 to $BF, by their low half.
pub open spec fn opcodes_bx(column: u8) -> OpCode {
    match column {
        0 => entry(0xB0, "BCS", 2, 2, AddressingMode::Relative),
        1 => entry(0xB1, "LDA", 2, 5, AddressingMode::Indirect_Y),
        2 => entry(0xB2, "*KIL", 1, 2, AddressingMode::NoneAddressing),
        3 => entry(0xB3, "*LAX", 2, 5, AddressingMode::Indirect_Y),
        4 => entry(0xB4, "LDY", 2, 4, AddressingMode::ZeroPage_X),
        5 => entry(0xB5, "LDA", 2, 4, AddressingMode::ZeroPage_X),
        6 => entry(0xB6, "LDX", 2, 4, AddressingMode::ZeroPage_Y),
        7 => entry(0xB7, "*LAX", 2, 4, AddressingMode::ZeroPage_Y),
        8 => entry(0xB8, "CLV", 1, 2, AddressingMode::Implied),
        9 => entry(0xB9, "LDA", 3, 4, AddressingMode::Absolute_Y),
        10 => entry(0xBA, "TSX", 1, 2, AddressingMode::Implied),
        11 => entry(0xBB, "*LAR", 3, 4, AddressingMode::Absolute_Y),
        12 => entry(0xBC, "LDY", 3, 4, AddressingMode::Absolute_X),
        13 => entry(0xBD, "LDA", 3, 4, AddressingMode::Absolute_X),
        14 => entry(0xBE, "LDX", 3, 4, AddressingMode::Absolute_Y),
        _ => entry(0xBF, "*LAX", 3, 4, AddressingMode::Absolute_Y),
    }
}

/// The opcodes $C0 to $CF, by their low half.
pub open spec fn opcodes_cx(column: u8) -> OpCode {
    match column {
        0 => entry(0xC0, "CPY", 2, 2, AddressingMode::Immediate),
        1 => entry(0xC1, "CMP", 2, 6, AddressingMode::Indirect_X),
        2 => entry(0xC2, "*NOP", 2, 2, AddressingMode::Immediate),
        3 => entry(0xC3, "*DCP", 2, 8, AddressingMode::Indirect_X),
        4 => entry(0xC4, "CPY", 2, 3, AddressingMode::ZeroPage),
        5 => entry(0xC5, "CMP", 2, 3, AddressingMode::ZeroPage),
        6 => entry(0xC6, "DEC", 2, 5, AddressingMode::ZeroPage),
        7 => entry(0xC7, "*DCP", 2, 5, AddressingMode::ZeroPage),
        8 => entry(0xC8, "INY", 1, 2, AddressingMode::Implied),
        9 => entry(0xC9, "CMP", 2, 2, AddressingMode::Immediate),
        10 => entry(0xCA, "DEX", 1, 2, AddressingMode::Implied),
        11 => entry(0xCB, "*AXS", 2, 2, AddressingMode::Immediate),
        12 => entry(0xCC, "CPY", 3, 4, AddressingMode::Absolute),
        13 => entry(0xCD, "CMP", 3, 4, AddressingMode::Absolute),
        14 => entry(0xCE, "DEC", 3, 6, AddressingMode::Absolute),
        _ => entry(0xCF, "*DCP", 3, 6, AddressingMode::Absolute),
    }
}

/// The opcodes $D0 to $DF, by their low half.
pub open spec fn opcodes_dx(column: u8) -> OpCode {
    match column {
        0 => entry(0xD0, "BNE", 2, 2, AddressingMode::Relative),
        1 => entry(0xD1, "CMP", 2, 5, AddressingMode::Indirect_Y),
        2 => entry(0xD2, "*KIL", 1, 2, AddressingMode::NoneAddressing),
        3 => entry(0xD3, "*DCP", 2, 8, AddressingMode::Indirect_Y),
        4 => entry(0xD4, "*NOP", 2, 4, AddressingMode::ZeroPage_X),
        5 => entry(0xD5, "CMP", 2, 4, AddressingMode::ZeroPage_X),
        6 => entry(0xD6, "DEC", 2, 6, AddressingMode::ZeroPage_X),
        7 => entry(0xD7, "*DCP", 2, 6, AddressingMode::ZeroPage_X),
        8 => entry(0xD8, "CLD", 1, 2, AddressingMode::Implied),
        9 => entry(0xD9, "CMP", 3, 4, AddressingMode::Absolute_Y),
        10 => entry(0xDA, "*NOP", 1, 2, AddressingMode::Implied),
        11 => entry(0xDB, "*DCP", 3, 7, AddressingMode::Absolute_Y),
        12 => entry(0xDC, "*NOP", 3, 4, AddressingMode::Absolute_X),
        13 => entry(0xDD, "CMP", 3, 4, AddressingMode::Absolute_X),
        14 => entry(0xDE, "DEC", 3, 7, AddressingMode::Absolute_X),
        _ => entry(0xDF, "*DCP", 3, 7, AddressingMode::Absolute_X),
    }
}

/// The opcodes $E0 to $EF, by their low half.
pub open spec fn opcodes_ex(column: u8) -> OpCode {
    match column {
        0 => entry(0xE0, "CPX", 2, 2, AddressingMode::Immediate),
        1 => entry(0xE1, "SBC", 2, 6, AddressingMode::Indirect_X),
        2 => entry(0xE2, "*NOP", 2, 2, AddressingMode::Immediate),
        3 => entry(0xE3, "*ISB", 2, 8, AddressingMode::Indirect_X),
        4 => entry(0xE4, "CPX", 2, 3, AddressingMode::ZeroPage),
        5 => entry(0xE5, "SBC", 2, 3, AddressingMode::ZeroPage),
        6 => entry(0xE6, "INC", 2, 5, AddressingMode::ZeroPage),
        7 => entry(0xE7, "*ISB", 2, 5, AddressingMode::ZeroPage),
        8 => entry(0xE8, "INX", 1, 2, AddressingMode::Implied),
        9 => entry(0xE9, "SBC", 2, 2, AddressingMode::Immediate),
        10 => entry(0xEA, "NOP", 1, 2, AddressingMode::Implied),
        11 => entry(0xEB, "*SBC", 2, 2, AddressingMode::Immediate),
        12 => entry(0xEC, "CPX", 3, 4, AddressingMode::Absolute),
        13 => entry(0xED, "SBC", 3, 4, AddressingMode::Absolute),
        14 => entry(0xEE, "INC", 3, 6, AddressingMode::Absolute),
        _ => entry(0xEF, "*ISB", 3, 6, AddressingMode::Absolute),
    }
}

/// The opcodes $F0 to $FF, by their low half.
pub open spec fn opcodes_fx(column: u8) -> OpCode {
    match column {
        0 => entry(0xF0, "BEQ", 2, 2, AddressingMode::Relative),
        1 => entry(0xF1, "SBC", 2, 5, AddressingMode::Indirect_Y),
        2 => entry(0xF2, "*KIL", 1, 2, AddressingMode::NoneAddressing),
        3 => entry(0xF3, "*ISB", 2, 8, AddressingMode::Indirect_Y),
        4 => entry(0xF4, "*NOP", 2, 4, AddressingMode::ZeroPage_X),
        5 => entry(0xF5, "SBC", 2, 4, AddressingMode::ZeroPage_X),
        6 => entry(0xF6, "INC", 2, 6, AddressingMode::ZeroPage_X),
        7 => entry(0xF7, "*ISB", 2, 6, AddressingMode::ZeroPage_X),
        8 => entry(0xF8, "SED", 1, 2, AddressingMode::Implied),
        9 => entry(0xF9, "SBC", 3, 4, AddressingMode::Absolute_Y),
        10 => entry(0xFA, "*NOP", 1, 2, AddressingMode::Implied),
        11 => entry(0xFB, "*ISB", 3, 7, AddressingMode::Absolute_Y),
        12 => entry(0xFC, "*NOP", 3, 4, AddressingMode::Absolute_X),
        13 => entry(0xFD, "SBC", 3, 4, AddressingMode::Absolute_X),
        14 => entry(0xFE, "INC", 3, 7, AddressingMode::Absolute_X),
        _ => entry(0xFF, "*ISB", 3, 7, AddressingMode::Absolute_X),
    }
}

/// The table, laid out as the usual matrix: a row for each high half of
/// the opcode byte, a column for each low half.
#[verifier::opaque]
pub open spec fn opcode_entry(opcode_num: u8) -> OpCode {
    match opcode_num / 16 {
        0 => opcodes_0x(opcode_num % 16),
        1 => opcodes_1x(opcode_num % 16),
        2 => opcodes_2x(opcode_num % 16),
        3 => opcodes_3x(opcode_num % 16),
        4 => opcodes_4x(opcode_num % 16),
        5 => opcodes_5x(opcode_num % 16),
        6 => opcodes_6x(opcode_num % 16),
        7 => opcodes_7x(opcode_num % 16),
        8 => opcodes_8x(opcode_num % 16),
        9 => opcodes_9x(opcode_num % 16),
        10 => opcodes_ax(opcode_num % 16),
        11 => opcodes_bx(opcode_num % 16),
        12 => opcodes_cx(opcode_num % 16),
        13 => opcodes_dx(opcode_num % 16),
        14 => opcodes_ex(opcode_num % 16),
        _ => opcodes_fx(opcode_num % 16),
    }
}

/// The table as a list, in the order of the opcode bytes.
pub open spec fn opcode_list() -> Seq<OpCode> {
    Seq::new(OPCODE_COUNT as nat, |i: int| opcode_entry(i as u8))
}

/// The map that a list of descriptors makes: each is found under its
/// opcode byte, and of two with one byte the later one stays.
pub open spec fn opcode_map_of(list: Seq<OpCode>) -> Map<u8, OpCode>
    decreases list.len(),
{
    if list.len() == 0 {
        Map::empty()
    } else {
        opcode_map_of(list.drop_last()).insert(list.last().opcode_num, list.last())
    }
}

/// Whether a map holds the whole table: every byte, with its descriptor.
pub open spec fn is_opcode_table(table: Map<u8, OpCode>) -> bool {
    forall|opcode_num: u8|
        table.contains_key(opcode_num) && #[trigger] table[opcode_num] == opcode_entry(opcode_num)
}

fn describe_0x(column: u8) -> (opcode: OpCode)
    ensures
        opcode == opcodes_0x(column),
{
    match column {
        0 => OpCode::new(0x00, "BRK", 1, 7, AddressingMode::Implied),
        1 => OpCode::new(0x01, "ORA", 2, 6, AddressingMode::Indirect_X),
        2 => OpCode::new(0x02, "*KIL", 1, 2, AddressingMode::NoneAddressing),
        3 => OpCode::new(0x03, "*SLO", 2, 8, AddressingMode::Indirect_X),
        4 => OpCode::new(0x04, "*NOP", 2, 3, AddressingMode::ZeroPage),
        5 => OpCode::new(0x05, "ORA", 2, 3, AddressingMode::ZeroPage),
        6 => OpCode::new(0x06, "ASL", 2, 5, AddressingMode::ZeroPage),
        7 => OpCode::new(0x07, "*SLO", 2, 5, AddressingMode::ZeroPage),
        8 => OpCode::new(0x08, "PHP", 1, 3, AddressingMode::Implied),
        9 => OpCode::new(0x09, "ORA", 2, 2, AddressingMode::Immediate),
        10 => OpCode::new(0x0A, "ASL", 1, 2, AddressingMode::Accumulator),
        11 => OpCode::new(0x0B, "*AAC", 2, 2, AddressingMode::Immediate),
        12 => OpCode::new(0x0C, "*NOP", 3, 4, AddressingMode::Absolute),
        13 => OpCode::new(0x0D, "ORA", 3, 4, AddressingMode::Absolute),
        14 => OpCode::new(0x0E, "ASL", 3, 6, AddressingMode::Absolute),
        _ => OpCode::new(0x0F, "*SLO", 3, 6, AddressingMode::Absolute),
    }
}

fn describe_1x(column: u8) -> (opcode: OpCode)
    ensures
        opcode == opcodes_1x(column),
{
    match column {
        0 => OpCode::new(0x10, "BPL", 2, 2, AddressingMode::Relative),
        1 => OpCode::new(0x11, "ORA", 2, 5, AddressingMode::Indirect_Y),
        2 => OpCode::new(0x12, "*KIL", 1, 2, AddressingMode::NoneAddressing),
        3 => OpCode::new(0x13, "*SLO", 2, 8, AddressingMode::Indirect_Y),
        4 => OpCode::new(0x14, "*NOP", 2, 4, AddressingMode::ZeroPage_X),
        5 => OpCode::new(0x15, "ORA", 2, 4, AddressingMode::ZeroPage_X),
        6 => OpCode::new(0x16, "ASL", 2, 6, AddressingMode::ZeroPage_X),
        7 => OpCode::new(0x17, "*SLO", 2, 6, AddressingMode::ZeroPage_X),
        8 => OpCode::new(0x18, "CLC", 1, 2, AddressingMode::Implied),
        9 => OpCode::new(0x19, "ORA", 3, 4, AddressingMode::Absolute_Y),
        10 => OpCode::new(0x1A, "*NOP", 1, 2, AddressingMode::Implied),
        11 => OpCode::new(0x1B, "*SLO", 3, 7, AddressingMode::Absolute_Y),
        12 => OpCode::new(0x1C, "*NOP", 3, 4, AddressingMode::Absolute_X),
        13 => OpCode::new(0x1D, "ORA", 3, 4, AddressingMode::Absolute_X),
        14 => OpCode::new(0x1E, "ASL", 3, 7, AddressingMode::Absolute_X),
        _ => OpCode::new(0x1F, "*SLO", 3, 7, AddressingMode::Absolute_X),
    }
}

fn describe_2x(column: u8) -> (opcode: OpCode)
    ensures
        opcode == opcodes_2x(column),
{
    match column {
        0 => OpCode::new(0x20, "JSR", 3, 6, AddressingMode::NoneAddressing),
        1 => OpCode::new(0x21, "AND", 2, 6, AddressingMode::Indirect_X),
        2 => OpCode::new(0x22, "*KIL", 1, 2, AddressingMode::NoneAddressing),
        3 => OpCode::new(0x23, "*RLA", 2, 8, AddressingMode::Indirect_X),
        4 => OpCode::new(0x24, "BIT", 2, 3, AddressingMode::ZeroPage),
        5 => OpCode::new(0x25, "AND", 2, 3, AddressingMode::ZeroPage),
        6 => OpCode::new(0x26, "ROL", 2, 5, AddressingMode::ZeroPage),
        7 => OpCode::new(0x27, "*RLA", 2, 5, AddressingMode::ZeroPage),
        8 => OpCode::new(0x28, "PLP", 1, 4, AddressingMode::Implied),
        9 => OpCode::new(0x29, "AND", 2, 2, AddressingMode::Immediate),
        10 => OpCode::new(0x2A, "ROL", 1, 2, AddressingMode::Accumulator),
        11 => OpCode::new(0x2B, "*AAC", 2, 2, AddressingMode::Immediate),
        12 => OpCode::new(0x2C, "BIT", 3, 4, AddressingMode::Absolute),
        13 => OpCode::new(0x2D, "AND", 3, 4, AddressingMode::Absolute),
        14 => OpCode::new(0x2E, "ROL", 3, 6, AddressingMode::Absolute),
        _ => OpCode::new(0x2F, "*RLA", 3, 6, AddressingMode::Absolute),
    }
}

fn describe_3x(column: u8) -> (opcode: OpCode)
    ensures
        opcode == opcodes_3x(column),
{
    match column {
        0 => OpCode::new(0x30, "BMI", 2, 2, AddressingMode::Relative),
        1 => OpCode::new(0x31, "AND", 2, 5, AddressingMode::Indirect_Y),
        2 => OpCode::new(0x32, "*KIL", 1, 2, AddressingMode::NoneAddressing),
        3 => OpCode::new(0x33, "*RLA", 2, 8, AddressingMode::Indirect_Y),
        4 => OpCode::new(0x34, "*NOP", 2, 4, AddressingMode::ZeroPage_X),
        5 => OpCode::new(0x35, "AND", 2, 4, AddressingMode::ZeroPage_X),
        6 => OpCode::new(0x36, "ROL", 2, 6, AddressingMode::ZeroPage_X),
        7 => OpCode::new(0x37, "*RLA", 2, 6, AddressingMode::ZeroPage_X),
        8 => OpCode::new(0x38, "SEC", 1, 2, AddressingMode::Implied),
        9 => OpCode::new(0x39, "AND", 3, 4, AddressingMode::Absolute_Y),
        10 => OpCode::new(0x3A, "*NOP", 1, 2, AddressingMode::Implied),
        11 => OpCode::new(0x3B, "*RLA", 3, 7, AddressingMode::Absolute_Y),
        12 => OpCode::new(0x3C, "*NOP", 3, 4, AddressingMode::Absolute_X),
        13 => OpCode::new(0x3D, "AND", 3, 4, AddressingMode::Absolute_X),
        14 => OpCode::new(0x3E, "ROL", 3, 7, AddressingMode::Absolute_X),
        _ => OpCode::new(0x3F, "*RLA", 3, 7, AddressingMode::Absolute_X),
    }
}

fn describe_4x(column: u8) -> (opcode: OpCode)
    ensures
        opcode == opcodes_4x(column),
{
    match column {
        0 => OpCode::new(0x40, "RTI", 1, 6, AddressingMode::Implied),
        1 => OpCode::new(0x41, "EOR", 2, 6, AddressingMode::Indirect_X),
        2 => OpCode::new(0x42, "*KIL", 1, 2, AddressingMode::NoneAddressing),
        3 => OpCode::new(0x43, "*SRE", 2, 8, AddressingMode::Indirect_X),
        4 => OpCode::new(0x44, "*NOP", 2, 3, AddressingMode::ZeroPage),
        5 => OpCode::new(0x45, "EOR", 2, 3, AddressingMode::ZeroPage),
        6 => OpCode::new(0x46, "LSR", 2, 5, AddressingMode::ZeroPage),
        7 => OpCode::new(0x47, "*SRE", 2, 5, AddressingMode::ZeroPage),
        8 => OpCode::new(0x48, "PHA", 1, 3, AddressingMode::Implied),
        9 => OpCode::new(0x49, "EOR", 2, 2, AddressingMode::Immediate),
        10 => OpCode::new(0x4A, "LSR", 1, 2, AddressingMode::Accumulator),
        11 => OpCode::new(0x4B, "*ASR", 2, 2, AddressingMode::Immediate),
        12 => OpCode::new(0x4C, "JMP", 3, 3, AddressingMode::NoneAddressing),
        13 => OpCode::new(0x4D, "EOR", 3, 4, AddressingMode::Absolute),
        14 => OpCode::new(0x4E, "LSR", 3, 6, AddressingMode::Absolute),
        _ => OpCode::new(0x4F, "*SRE", 3, 6, AddressingMode::Absolute),
    }
}

fn describe_5x(column: u8) -> (opcode: OpCode)
    ensures
        opcode == opcodes_5x(column),
{
    match column {
        0 => OpCode::new(0x50, "BVC", 2, 2, AddressingMode::Relative),
        1 => OpCode::new(0x51, "EOR", 2, 5, AddressingMode::Indirect_Y),
        2 => OpCode::new(0x52, "*KIL", 1, 2, AddressingMode::NoneAddressing),
        3 => OpCode::new(0x53, "*SRE", 2, 8, AddressingMode::Indirect_Y),
        4 => OpCode::new(0x54, "*NOP", 2, 4, AddressingMode::ZeroPage_X),
        5 => OpCode::new(0x55, "EOR", 2, 4, AddressingMode::ZeroPage_X),
        6 => OpCode::new(0x56, "LSR", 2, 6, AddressingMode::ZeroPage_X),
        7 => OpCode::new(0x57, "*SRE", 2, 6, AddressingMode::ZeroPage_X),
        8 => OpCode::new(0x58, "CLI", 1, 2, AddressingMode::Implied),
        9 => OpCode::new(0x59, "EOR", 3, 4, AddressingMode::Absolute_Y),
        10 => OpCode::new(0x5A, "*NOP", 1, 2, AddressingMode::Implied),
        11 => OpCode::new(0x5B, "*SRE", 3, 7, AddressingMode::Absolute_Y),
        12 => OpCode::new(0x5C, "*NOP", 3, 4, AddressingMode::Absolute_X),
        13 => OpCode::new(0x5D, "EOR", 3, 4, AddressingMode::Absolute_X),
        14 => OpCode::new(0x5E, "LSR", 3, 7, AddressingMode::Absolute_X),
        _ => OpCode::new(0x5F, "*SRE", 3, 7, AddressingMode::Absolute_X),
    }
}

fn describe_6x(column: u8) -> (opcode: OpCode)
    ensures
        opcode == opcodes_6x(column),
{
    match column {
        0 => OpCode::new(0x60, "RTS", 1, 6, AddressingMode::Implied),
        1 => OpCode::new(0x61, "ADC", 2, 6, AddressingMode::Indirect_X),
        2 => OpCode::new(0x62, "*KIL", 1, 2, AddressingMode::NoneAddressing),
        3 => OpCode::new(0x63, "*RRA", 2, 8, AddressingMode::Indirect_X),
        4 => OpCode::new(0x64, "*NOP", 2, 3, AddressingMode::ZeroPage),
        5 => OpCode::new(0x65, "ADC", 2, 3, AddressingMode::ZeroPage),
        6 => OpCode::new(0x66, "ROR", 2, 5, AddressingMode::ZeroPage),
        7 => OpCode::new(0x67, "*RRA", 2, 5, AddressingMode::ZeroPage),
        8 => OpCode::new(0x68, "PLA", 1, 4, AddressingMode::Implied),
        9 => OpCode::new(0x69, "ADC", 2, 2, AddressingMode::Immediate),
        10 => OpCode::new(0x6A, "ROR", 1, 2, AddressingMode::Accumulator),
        11 => OpCode::new(0x6B, "*ARR", 2, 2, AddressingMode::Immediate),
        12 => OpCode::new(0x6C, "JMP", 3, 5, AddressingMode::NoneAddressing),
        13 => OpCode::new(0x6D, "ADC", 3, 4, AddressingMode::Absolute),
        14 => OpCode::new(0x6E, "ROR", 3, 6, AddressingMode::Absolute),
        _ => OpCode::new(0x6F, "*RRA", 3, 6, AddressingMode::Absolute),
    }
}

fn describe_7x(column: u8) -> (opcode: OpCode)
    ensures
        opcode == opcodes_7x(column),
{
    match column {
        0 => OpCode::new(0x70, "BVS", 2, 2, AddressingMode::Relative),
        1 => OpCode::new(0x71, "ADC", 2, 5, AddressingMode::Indirect_Y),
        2 => OpCode::new(0x72, "*KIL", 1, 2, AddressingMode::NoneAddressing),
        3 => OpCode::new(0x73, "*RRA", 2, 8, AddressingMode::Indirect_Y),
        4 => OpCode::new(0x74, "*NOP", 2, 4, AddressingMode::ZeroPage_X),
        5 => OpCode::new(0x75, "ADC", 2, 4, AddressingMode::ZeroPage_X),
        6 => OpCode::new(0x76, "ROR", 2, 6, AddressingMode::ZeroPage_X),
        7 => OpCode::new(0x77, "*RRA", 2, 6, AddressingMode::ZeroPage_X),
        8 => OpCode::new(0x78, "SEI", 1, 2, AddressingMode::Implied),
        9 => OpCode::new(0x79, "ADC", 3, 4, AddressingMode::Absolute_Y),
        10 => OpCode::new(0x7A, "*NOP", 1, 2, AddressingMode::Implied),
        11 => OpCode::new(0x7B, "*RRA", 3, 7, AddressingMode::Absolute_Y),
        12 => OpCode::new(0x7C, "*NOP", 3, 4, AddressingMode::Absolute_X),
        13 => OpCode::new(0x7D, "ADC", 3, 4, AddressingMode::Absolute_X),
        14 => OpCode::new(0x7E, "ROR", 3, 7, AddressingMode::Absolute_X),
        _ => OpCode::new(0x7F, "*RRA", 3, 7, AddressingMode::Absolute_X),
    }
}

fn describe_8x(column: u8) -> (opcode: OpCode)
    ensures
        opcode == opcodes_8x(column),
{
    match column {
        0 => OpCode::new(0x80, "*NOP", 2, 2, AddressingMode::Immediate),
        1 => OpCode::new(0x81, "STA", 2, 6, AddressingMode::Indirect_X),
        2 => OpCode::new(0x82, "*NOP", 2, 2, AddressingMode::Immediate),
        3 => OpCode::new(0x83, "*SAX", 2, 6, AddressingMode::Indirect_X),
        4 => OpCode::new(0x84, "STY", 2, 3, AddressingMode::ZeroPage),
        5 => OpCode::new(0x85, "STA", 2, 3, AddressingMode::ZeroPage),
        6 => OpCode::new(0x86, "STX", 2, 3, AddressingMode::ZeroPage),
        7 => OpCode::new(0x87, "*SAX", 2, 3, AddressingMode::ZeroPage),
        8 => OpCode::new(0x88, "DEY", 1, 2, AddressingMode::Implied),
        9 => OpCode::new(0x89, "*NOP", 2, 2, AddressingMode::Immediate),
        10 => OpCode::new(0x8A, "TXA", 1, 2, AddressingMode::Implied),
        11 => OpCode::new(0x8B, "*XAA", 2, 2, AddressingMode::Immediate),
        12 => OpCode::new(0x8C, "STY", 3, 4, AddressingMode::Absolute),
        13 => OpCode::new(0x8D, "STA", 3, 4, AddressingMode::Absolute),
        14 => OpCode::new(0x8E, "STX", 3, 4, AddressingMode::Absolute),
        _ => OpCode::new(0x8F, "*SAX", 3, 4, AddressingMode::Absolute),
    }
}

fn describe_9x(column: u8) -> (opcode: OpCode)
    ensures
        opcode == opcodes_9x(column),
{
    match column {
        0 => OpCode::new(0x90, "BCC", 2, 2, AddressingMode::Relative),
        1 => OpCode::new(0x91, "STA", 2, 6, AddressingMode::Indirect_Y),
        2 => OpCode::new(0x92, "*KIL", 1, 2, AddressingMode::NoneAddressing),
        3 => OpCode::new(0x93, "*AXA", 2, 6, AddressingMode::Indirect_Y),
        4 => OpCode::new(0x94, "STY", 2, 4, AddressingMode::ZeroPage_X),
        5 => OpCode::new(0x95, "STA", 2, 4, AddressingMode::ZeroPage_X),
        6 => OpCode::new(0x96, "STX", 2, 4, AddressingMode::ZeroPage_Y),
        7 => OpCode::new(0x97, "*SAX", 2, 4, AddressingMode::ZeroPage_Y),
        8 => OpCode::new(0x98, "TYA", 1, 2, AddressingMode::Implied),
        9 => OpCode::new(0x99, "STA", 3, 5, AddressingMode::Absolute_Y),
        10 => OpCode::new(0x9A, "TXS", 1, 2, AddressingMode::Implied),
        11 => OpCode::new(0x9B, "*XAS", 3, 5, AddressingMode::Absolute_Y),
        12 => OpCode::new(0x9C, "*SYA", 3, 5, AddressingMode::Absolute_X),
        13 => OpCode::new(0x9D, "STA", 3, 5, AddressingMode::Absolute_X),
        14 => OpCode::new(0x9E, "*SXA", 3, 5, AddressingMode::Absolute_Y),
        _ => OpCode::new(0x9F, "*AXA", 3, 5, AddressingMode::Absolute_Y),
    }
}

fn describe_ax(column: u8) -> (opcode: OpCode)
    ensures
        opcode == opcodes_ax(column),
{
    match column {
        0 => OpCode::new(0xA0, "LDY", 2, 2, AddressingMode::Immediate),
        1 => OpCode::new(0xA1, "LDA", 2, 6, AddressingMode::Indirect_X),
        2 => OpCode::new(0xA2, "LDX", 2, 2, AddressingMode::Immediate),
        3 => OpCode::new(0xA3, "*LAX", 2, 6, AddressingMode::Indirect_X),
        4 => OpCode::new(0xA4, "LDY", 2, 3, AddressingMode::ZeroPage),
        5 => OpCode::new(0xA5, "LDA", 2, 3, AddressingMode::ZeroPage),
        6 => OpCode::new(0xA6, "LDX", 2, 3, AddressingMode::ZeroPage),
        7 => OpCode::new(0xA7, "*LAX", 2, 3, AddressingMode::ZeroPage),
        8 => OpCode::new(0xA8, "TAY", 1, 2, AddressingMode::Implied),
        9 => OpCode::new(0xA9, "LDA", 2, 2, AddressingMode::Immediate),
        10 => OpCode::new(0xAA, "TAX", 1, 2, AddressingMode::Implied),
        11 => OpCode::new(0xAB, "*ATX", 2, 2, AddressingMode::Immediate),
        12 => OpCode::new(0xAC, "LDY", 3, 4, AddressingMode::Absolute),
        13 => OpCode::new(0xAD, "LDA", 3, 4, AddressingMode::Absolute),
        14 => OpCode::new(0xAE, "LDX", 3, 4, AddressingMode::Absolute),
        _ => OpCode::new(0xAF, "*LAX", 3, 4, AddressingMode::Absolute),
    }
}

fn describe_bx(column: u8) -> (opcode: OpCode)
    ensures
        opcode == opcodes_bx(column),
{
    match column {
        0 => OpCode::new(0xB0, "BCS", 2, 2, AddressingMode::Relative),
        1 => OpCode::new(0xB1, "LDA", 2, 5, AddressingMode::Indirect_Y),
        2 => OpCode::new(0xB2, "*KIL", 1, 2, AddressingMode::NoneAddressing),
        3 => OpCode::new(0xB3, "*LAX", 2, 5, AddressingMode::Indirect_Y),
        4 => OpCode::new(0xB4, "LDY", 2, 4, AddressingMode::ZeroPage_X),
        5 => OpCode::new(0xB5, "LDA", 2, 4, AddressingMode::ZeroPage_X),
        6 => OpCode::new(0xB6, "LDX", 2, 4, AddressingMode::ZeroPage_Y),
        7 => OpCode::new(0xB7, "*LAX", 2, 4, AddressingMode::ZeroPage_Y),
        8 => OpCode::new(0xB8, "CLV", 1, 2, AddressingMode::Implied),
        9 => OpCode::new(0xB9, "LDA", 3, 4, AddressingMode::Absolute_Y),
        10 => OpCode::new(0xBA, "TSX", 1, 2, AddressingMode::Implied),
        11 => OpCode::new(0xBB, "*LAR", 3, 4, AddressingMode::Absolute_Y),
        12 => OpCode::new(0xBC, "LDY", 3, 4, AddressingMode::Absolute_X),
        13 => OpCode::new(0xBD, "LDA", 3, 4, AddressingMode::Absolute_X),
        14 => OpCode::new(0xBE, "LDX", 3, 4, AddressingMode::Absolute_Y),
        _ => OpCode::new(0xBF, "*LAX", 3, 4, AddressingMode::Absolute_Y),
    }
}

fn describe_cx(column: u8) -> (opcode: OpCode)
    ensures
        opcode == opcodes_cx(column),
{
    match column {
        0 => OpCode::new(0xC0, "CPY", 2, 2, AddressingMode::Immediate),
        1 => OpCode::new(0xC1, "CMP", 2, 6, AddressingMode::Indirect_X),
        2 => OpCode::new(0xC2, "*NOP", 2, 2, AddressingMode::Immediate),
        3 => OpCode::new(0xC3, "*DCP", 2, 8, AddressingMode::Indirect_X),
        4 => OpCode::new(0xC4, "CPY", 2, 3, AddressingMode::ZeroPage),
        5 => OpCode::new(0xC5, "CMP", 2, 3, AddressingMode::ZeroPage),
        6 => OpCode::new(0xC6, "DEC", 2, 5, AddressingMode::ZeroPage),
        7 => OpCode::new(0xC7, "*DCP", 2, 5, AddressingMode::ZeroPage),
        8 => OpCode::new(0xC8, "INY", 1, 2, AddressingMode::Implied),
        9 => OpCode::new(0xC9, "CMP", 2, 2, AddressingMode::Immediate),
        10 => OpCode::new(0xCA, "DEX", 1, 2, AddressingMode::Implied),
        11 => OpCode::new(0xCB, "*AXS", 2, 2, AddressingMode::Immediate),
        12 => OpCode::new(0xCC, "CPY", 3, 4, AddressingMode::Absolute),
        13 => OpCode::new(0xCD, "CMP", 3, 4, AddressingMode::Absolute),
        14 => OpCode::new(0xCE, "DEC", 3, 6, AddressingMode::Absolute),
        _ => OpCode::new(0xCF, "*DCP", 3, 6, AddressingMode::Absolute),
    }
}

fn describe_dx(column: u8) -> (opcode: OpCode)
    ensures
        opcode == opcodes_dx(column),
{
    match column {
        0 => OpCode::new(0xD0, "BNE", 2, 2, AddressingMode::Relative),
        1 => OpCode::new(0xD1, "CMP", 2, 5, AddressingMode::Indirect_Y),
        2 => OpCode::new(0xD2, "*KIL", 1, 2, AddressingMode::NoneAddressing),
        3 => OpCode::new(0xD3, "*DCP", 2, 8, AddressingMode::Indirect_Y),
        4 => OpCode::new(0xD4, "*NOP", 2, 4, AddressingMode::ZeroPage_X),
        5 => OpCode::new(0xD5, "CMP", 2, 4, AddressingMode::ZeroPage_X),
        6 => OpCode::new(0xD6, "DEC", 2, 6, AddressingMode::ZeroPage_X),
        7 => OpCode::new(0xD7, "*DCP", 2, 6, AddressingMode::ZeroPage_X),
        8 => OpCode::new(0xD8, "CLD", 1, 2, AddressingMode::Implied),
        9 => OpCode::new(0xD9, "CMP", 3, 4, AddressingMode::Absolute_Y),
        10 => OpCode::new(0xDA, "*NOP", 1, 2, AddressingMode::Implied),
        11 => OpCode::new(0xDB, "*DCP", 3, 7, AddressingMode::Absolute_Y),
        12 => OpCode::new(0xDC, "*NOP", 3, 4, AddressingMode::Absolute_X),
        13 => OpCode::new(0xDD, "CMP", 3, 4, AddressingMode::Absolute_X),
        14 => OpCode::new(0xDE, "DEC", 3, 7, AddressingMode::Absolute_X),
        _ => OpCode::new(0xDF, "*DCP", 3, 7, AddressingMode::Absolute_X),
    }
}

fn describe_ex(column: u8) -> (opcode: OpCode)
    ensures
        opcode == opcodes_ex(column),
{
    match column {
        0 => OpCode::new(0xE0, "CPX", 2, 2, AddressingMode::Immediate),
        1 => OpCode::new(0xE1, "SBC", 2, 6, AddressingMode::Indirect_X),
        2 => OpCode::new(0xE2, "*NOP", 2, 2, AddressingMode::Immediate),
        3 => OpCode::new(0xE3, "*ISB", 2, 8, AddressingMode::Indirect_X),
        4 => OpCode::new(0xE4, "CPX", 2, 3, AddressingMode::ZeroPage),
        5 => OpCode::new(0xE5, "SBC", 2, 3, AddressingMode::ZeroPage),
        6 => OpCode::new(0xE6, "INC", 2, 5, AddressingMode::ZeroPage),
        7 => OpCode::new(0xE7, "*ISB", 2, 5, AddressingMode::ZeroPage),
        8 => OpCode::new(0xE8, "INX", 1, 2, AddressingMode::Implied),
        9 => OpCode::new(0xE9, "SBC", 2, 2, AddressingMode::Immediate),
        10 => OpCode::new(0xEA, "NOP", 1, 2, AddressingMode::Implied),
        11 => OpCode::new(0xEB, "*SBC", 2, 2, AddressingMode::Immediate),
        12 => OpCode::new(0xEC, "CPX", 3, 4, AddressingMode::Absolute),
        13 => OpCode::new(0xED, "SBC", 3, 4, AddressingMode::Absolute),
        14 => OpCode::new(0xEE, "INC", 3, 6, AddressingMode::Absolute),
        _ => OpCode::new(0xEF, "*ISB", 3, 6, AddressingMode::Absolute),
    }
}

fn describe_fx(column: u8) -> (opcode: OpCode)
    ensures
        opcode == opcodes_fx(column),
{
    match column {
        0 => OpCode::new(0xF0, "BEQ", 2, 2, AddressingMode::Relative),
        1 => OpCode::new(0xF1, "SBC", 2, 5, AddressingMode::Indirect_Y),
        2 => OpCode::new(0xF2, "*KIL", 1, 2, AddressingMode::NoneAddressing),
        3 => OpCode::new(0xF3, "*ISB", 2, 8, AddressingMode::Indirect_Y),
        4 => OpCode::new(0xF4, "*NOP", 2, 4, AddressingMode::ZeroPage_X),
        5 => OpCode::new(0xF5, "SBC", 2, 4, AddressingMode::ZeroPage_X),
        6 => OpCode::new(0xF6, "INC", 2, 6, AddressingMode::ZeroPage_X),
        7 => OpCode::new(0xF7, "*ISB", 2, 6, AddressingMode::ZeroPage_X),
        8 => OpCode::new(0xF8, "SED", 1, 2, AddressingMode::Implied),
        9 => OpCode::new(0xF9, "SBC", 3, 4, AddressingMode::Absolute_Y),
        10 => OpCode::new(0xFA, "*NOP", 1, 2, AddressingMode::Implied),
        11 => OpCode::new(0xFB, "*ISB", 3, 7, AddressingMode::Absolute_Y),
        12 => OpCode::new(0xFC, "*NOP", 3, 4, AddressingMode::Absolute_X),
        13 => OpCode::new(0xFD, "SBC", 3, 4, AddressingMode::Absolute_X),
        14 => OpCode::new(0xFE, "INC", 3, 7, AddressingMode::Absolute_X),
        _ => OpCode::new(0xFF, "*ISB", 3, 7, AddressingMode::Absolute_X),
    }
}

/// The descriptor of one opcode byte.
pub fn describe(opcode_num: u8) -> (opcode: OpCode)
    ensures
        opcode == opcode_entry(opcode_num),
{
    reveal(opcode_entry);
    match opcode_num / 16 {
        0 => describe_0x(opcode_num % 16),
        1 => describe_1x(opcode_num % 16),
        2 => describe_2x(opcode_num % 16),
        3 => describe_3x(opcode_num % 16),
        4 => describe_4x(opcode_num % 16),
        5 => describe_5x(opcode_num % 16),
        6 => describe_6x(opcode_num % 16),
        7 => describe_7x(opcode_num % 16),
        8 => describe_8x(opcode_num % 16),
        9 => describe_9x(opcode_num % 16),
        10 => describe_ax(opcode_num % 16),
        11 => describe_bx(opcode_num % 16),
        12 => describe_cx(opcode_num % 16),
        13 => describe_dx(opcode_num % 16),
        14 => describe_ex(opcode_num % 16),
        _ => describe_fx(opcode_num % 16),
    }
}

/// The 256 descriptors, in the order of the opcode bytes.
pub fn init_opcodes() -> (list: Vec<OpCode>)
    ensures
        list@ == opcode_list(),
{
    let mut list: Vec<OpCode> = Vec::with_capacity(OPCODE_COUNT);
    let mut i: usize = 0;
    while i < OPCODE_COUNT
        invariant
            i <= OPCODE_COUNT,
            list@.len() == i,
            forall|j: int| 0 <= j < i ==> list@[j] == opcode_entry(j as u8),
        decreases OPCODE_COUNT - i,
    {
        list.push(describe(i as u8));
        i += 1;
    }
    assert(list@ =~= opcode_list());
    list
}

/// Files each descriptor of a list under its opcode byte.
pub fn init_opcodes_hashmap_helper(opcode_list: &Vec<OpCode>) -> (table: Option<
    HashMap<u8, OpCode>,
>)
    ensures
        table is Some,
        table->0@ == opcode_map_of(opcode_list@),
{
    let mut opcodes_map: HashMap<u8, OpCode> = HashMap::new();
    let mut i: usize = 0;
    while i < opcode_list.len()
        invariant
            i <= opcode_list@.len(),
            opcodes_map@ == opcode_map_of(opcode_list@.take(i as int)),
        decreases opcode_list@.len() - i,
    {
        let new_opcode = opcode_list[i];
        assert(opcode_list@.take(i + 1).drop_last() =~= opcode_list@.take(i as int));
        opcodes_map.insert(new_opcode.opcode_num, new_opcode);
        i += 1;
    }
    assert(opcode_list@.take(i as int) =~= opcode_list@);
    Some(opcodes_map)
}

/// The whole table as a map from opcode byte to descriptor.
pub fn init_opcodes_hashmap() -> (table: HashMap<u8, OpCode>)
    ensures
        is_opcode_table(table@),
        table@ == opcode_map_of(opcode_list()),
{
    let list = init_opcodes();
    proof {
        lemma_list_makes_table();
    }
    match init_opcodes_hashmap_helper(&list) {
        Some(table) => table,
        None => HashMap::new(),
    }
}

/// In the first `count` lines of the list each byte below `count` is
/// found once, at its own place, so the map of those lines holds exactly
/// those bytes.
proof fn lemma_prefix_makes_map(count: nat)
    requires
        count <= OPCODE_COUNT,
    ensures
        forall|b: u8|
            (b < count <==> #[trigger] opcode_map_of(opcode_list().take(count as int)).contains_key(
                b,
            )),
        forall|b: u8|
            b < count ==> #[trigger] opcode_map_of(opcode_list().take(count as int))[b]
                == opcode_entry(b),
    decreases count,
{
    if count > 0 {
        let prefix = opcode_list().take(count as int);
        lemma_prefix_makes_map((count - 1) as nat);
        assert(prefix.drop_last() =~= opcode_list().take(count - 1));
        lemma_entry_keeps_its_byte((count - 1) as u8);
        assert(prefix.last() == opcode_entry((count - 1) as u8));
    }
}

/// The map made of the list holds the whole table.
pub proof fn lemma_list_makes_table()
    ensures
        is_opcode_table(opcode_map_of(opcode_list())),
{
    lemma_prefix_makes_map(OPCODE_COUNT as nat);
    assert(opcode_list().take(OPCODE_COUNT as int) =~= opcode_list());
}

/// Each line of the table is filed under its own byte.
pub proof fn lemma_entry_keeps_its_byte(opcode_num: u8)
    ensures
        opcode_entry(opcode_num).opcode_num == opcode_num,
{
    reveal(opcode_entry);
}

/// Every instruction is one to three bytes long and costs from one to
/// eight cycles.
pub proof fn lemma_entry_length_and_cost(opcode_num: u8)
    ensures
        1 <= opcode_entry(opcode_num).bytes <= 3,
        1 <= opcode_entry(opcode_num).cycles <= 8,
{
    reveal(opcode_entry);
}

/// The list holds, for every opcode byte, exactly one descriptor: the one
/// at the byte's own place.
pub proof fn lemma_one_descriptor_per_byte(opcode_num: u8, place: int)
    requires
        0 <= place < OPCODE_COUNT,
    ensures
        opcode_list().len() == OPCODE_COUNT,
        opcode_list()[place].opcode_num == opcode_num <==> place == opcode_num,
{
    lemma_entry_keeps_its_byte(place as u8);
}

} // verus!
