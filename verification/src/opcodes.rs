//! The opcode table: the immutable mapping from an opcode byte to its
//! mnemonic, instruction length, nominal cycle count and addressing mode.
//! It covers the official 6502 set (decimal mode aside), the documented
//! NOP variants, and LAX. The spec tables `mode_of`, `mnemonic_of` and
//! `cycles_of` pin every row's content, quadrant by quadrant.
use vstd::prelude::*;

use crate::cpu::AddressingMode;

verus! {

/// One opcode's row of the table.
pub struct OpCode {
    pub code: u8,
    pub mnemonic: &'static str,
    pub length: u8,
    pub cycles: u8,
    pub mode: AddressingMode,
}

/// How many bytes an instruction under this addressing mode occupies,
/// the opcode byte included.
pub open spec fn mode_len(mode: AddressingMode) -> u8 {
    match mode {
        AddressingMode::Implied => 1u8,
        AddressingMode::Accumulator => 1u8,
        AddressingMode::Immediate => 2u8,
        AddressingMode::ZeroPage => 2u8,
        AddressingMode::ZeroPage_X => 2u8,
        AddressingMode::ZeroPage_Y => 2u8,
        AddressingMode::Indirect_X => 2u8,
        AddressingMode::Indirect_Y => 2u8,
        AddressingMode::RELATIVE => 2u8,
        AddressingMode::Absolute => 3u8,
        AddressingMode::Absolute_X => 3u8,
        AddressingMode::Absolute_Y => 3u8,
        AddressingMode::Indirect => 3u8,
    }
}

/// The table's rows among the opcode bytes 0x00-0x3F.
pub open spec fn known_opcode_q0(code: u8) -> bool {
    match code {
        0x00 | 0x01 | 0x04 | 0x05 | 0x06 | 0x08 | 0x09 | 0x0A | 0x0C | 0x0D | 0x0E | 0x10 | 0x11 |
        0x14 | 0x15 | 0x16 | 0x18 | 0x19 | 0x1A | 0x1C | 0x1D | 0x1E | 0x20 | 0x21 | 0x24 | 0x25 |
        0x26 | 0x28 | 0x29 | 0x2A | 0x2C | 0x2D | 0x2E | 0x30 | 0x31 | 0x34 | 0x35 | 0x36 | 0x38 |
        0x39 | 0x3A | 0x3C | 0x3D | 0x3E => true,
        _ => false,
    }
}

/// The table's rows among the opcode bytes 0x40-0x7F.
pub open spec fn known_opcode_q1(code: u8) -> bool {
    match code {
        0x40 | 0x41 | 0x44 | 0x45 | 0x46 | 0x48 | 0x49 | 0x4A | 0x4C | 0x4D | 0x4E | 0x50 | 0x51 |
        0x54 | 0x55 | 0x56 | 0x58 | 0x59 | 0x5A | 0x5C | 0x5D | 0x5E | 0x60 | 0x61 | 0x64 | 0x65 |
        0x66 | 0x68 | 0x69 | 0x6A | 0x6C | 0x6D | 0x6E | 0x70 | 0x71 | 0x74 | 0x75 | 0x76 | 0x78 |
        0x79 | 0x7A | 0x7C | 0x7D | 0x7E => true,
        _ => false,
    }
}

/// The table's rows among the opcode bytes 0x80-0xBF.
pub open spec fn known_opcode_q2(code: u8) -> bool {
    match code {
        0x80 | 0x81 | 0x84 | 0x85 | 0x86 | 0x88 | 0x8A | 0x8C | 0x8D | 0x8E | 0x90 | 0x91 | 0x94 |
        0x95 | 0x96 | 0x98 | 0x99 | 0x9A | 0x9D | 0xA0 | 0xA1 | 0xA2 | 0xA3 | 0xA4 | 0xA5 | 0xA6 |
        0xA7 | 0xA8 | 0xA9 | 0xAA | 0xAC | 0xAD | 0xAE | 0xAF | 0xB0 | 0xB1 | 0xB3 | 0xB4 | 0xB5 |
        0xB6 | 0xB7 | 0xB8 | 0xB9 | 0xBA | 0xBC | 0xBD | 0xBE | 0xBF => true,
        _ => false,
    }
}

/// The table's rows among the opcode bytes 0xC0-0xFF.
pub open spec fn known_opcode_q3(code: u8) -> bool {
    match code {
        0xC0 | 0xC1 | 0xC4 | 0xC5 | 0xC6 | 0xC8 | 0xC9 | 0xCA | 0xCC | 0xCD | 0xCE | 0xD0 | 0xD1 |
        0xD4 | 0xD5 | 0xD6 | 0xD8 | 0xD9 | 0xDA | 0xDC | 0xDD | 0xDE | 0xE0 | 0xE1 | 0xE4 | 0xE5 |
        0xE6 | 0xE8 | 0xE9 | 0xEA | 0xEC | 0xED | 0xEE | 0xF0 | 0xF1 | 0xF4 | 0xF5 | 0xF6 | 0xF8 |
        0xF9 | 0xFA | 0xFC | 0xFD | 0xFE => true,
        _ => false,
    }
}

/// Whether the table has a row for this opcode byte.
pub open spec fn known_opcode(code: u8) -> bool {
    if code < 0x40 {
        known_opcode_q0(code)
    } else if code < 0x80 {
        known_opcode_q1(code)
    } else if code < 0xC0 {
        known_opcode_q2(code)
    } else {
        known_opcode_q3(code)
    }
}

/// The addressing mode of each opcode byte among 0x00-0x3F.
pub open spec fn mode_of_q0(code: u8) -> AddressingMode {
    match code {
        0x00 | 0x08 | 0x18 | 0x1A | 0x28 | 0x38 | 0x3A => AddressingMode::Implied,
        0x01 | 0x21 => AddressingMode::Indirect_X,
        0x04 | 0x05 | 0x06 | 0x24 | 0x25 | 0x26 => AddressingMode::ZeroPage,
        0x09 | 0x29 => AddressingMode::Immediate,
        0x0A | 0x2A => AddressingMode::Accumulator,
        0x0C | 0x0D | 0x0E | 0x20 | 0x2C | 0x2D | 0x2E => AddressingMode::Absolute,
        0x10 | 0x30 => AddressingMode::RELATIVE,
        0x11 | 0x31 => AddressingMode::Indirect_Y,
        0x14 | 0x15 | 0x16 | 0x34 | 0x35 | 0x36 => AddressingMode::ZeroPage_X,
        0x19 | 0x39 => AddressingMode::Absolute_Y,
        0x1C | 0x1D | 0x1E | 0x3C | 0x3D | 0x3E => AddressingMode::Absolute_X,
        _ => AddressingMode::Implied,
    }
}

/// The addressing mode of each opcode byte among 0x40-0x7F.
pub open spec fn mode_of_q1(code: u8) -> AddressingMode {
    match code {
        0x40 | 0x48 | 0x58 | 0x5A | 0x60 | 0x68 | 0x78 | 0x7A => AddressingMode::Implied,
        0x41 | 0x61 => AddressingMode::Indirect_X,
        0x44 | 0x45 | 0x46 | 0x64 | 0x65 | 0x66 => AddressingMode::ZeroPage,
        0x49 | 0x69 => AddressingMode::Immediate,
        0x4A | 0x6A => AddressingMode::Accumulator,
        0x4C | 0x4D | 0x4E | 0x6D | 0x6E => AddressingMode::Absolute,
        0x50 | 0x70 => AddressingMode::RELATIVE,
        0x51 | 0x71 => AddressingMode::Indirect_Y,
        0x54 | 0x55 | 0x56 | 0x74 | 0x75 | 0x76 => AddressingMode::ZeroPage_X,
        0x59 | 0x79 => AddressingMode::Absolute_Y,
        0x5C | 0x5D | 0x5E | 0x7C | 0x7D | 0x7E => AddressingMode::Absolute_X,
        0x6C => AddressingMode::Indirect,
        _ => AddressingMode::Implied,
    }
}

/// The addressing mode of each opcode byte among 0x80-0xBF.
pub open spec fn mode_of_q2(code: u8) -> AddressingMode {
    match code {
        0x80 | 0xA0 | 0xA2 | 0xA9 => AddressingMode::Immediate,
        0x81 | 0xA1 | 0xA3 => AddressingMode::Indirect_X,
        0x84 | 0x85 | 0x86 | 0xA4 | 0xA5 | 0xA6 | 0xA7 => AddressingMode::ZeroPage,
        0x88 | 0x8A | 0x98 | 0x9A | 0xA8 | 0xAA | 0xB8 | 0xBA => AddressingMode::Implied,
        0x8C | 0x8D | 0x8E | 0xAC | 0xAD | 0xAE | 0xAF => AddressingMode::Absolute,
        0x90 | 0xB0 => AddressingMode::RELATIVE,
        0x91 | 0xB1 | 0xB3 => AddressingMode::Indirect_Y,
        0x94 | 0x95 | 0xB4 | 0xB5 => AddressingMode::ZeroPage_X,
        0x96 | 0xB6 | 0xB7 => AddressingMode::ZeroPage_Y,
        0x99 | 0xB9 | 0xBE | 0xBF => AddressingMode::Absolute_Y,
        0x9D | 0xBC | 0xBD => AddressingMode::Absolute_X,
        _ => AddressingMode::Implied,
    }
}

/// The addressing mode of each opcode byte among 0xC0-0xFF.
pub open spec fn mode_of_q3(code: u8) -> AddressingMode {
    match code {
        0xC0 | 0xC9 | 0xE0 | 0xE9 => AddressingMode::Immediate,
        0xC1 | 0xE1 => AddressingMode::Indirect_X,
        0xC4 | 0xC5 | 0xC6 | 0xE4 | 0xE5 | 0xE6 => AddressingMode::ZeroPage,
        0xC8 | 0xCA | 0xD8 | 0xDA | 0xE8 | 0xEA | 0xF8 | 0xFA => AddressingMode::Implied,
        0xCC | 0xCD | 0xCE | 0xEC | 0xED | 0xEE => AddressingMode::Absolute,
        0xD0 | 0xF0 => AddressingMode::RELATIVE,
        0xD1 | 0xF1 => AddressingMode::Indirect_Y,
        0xD4 | 0xD5 | 0xD6 | 0xF4 | 0xF5 | 0xF6 => AddressingMode::ZeroPage_X,
        0xD9 | 0xF9 => AddressingMode::Absolute_Y,
        0xDC | 0xDD | 0xDE | 0xFC | 0xFD | 0xFE => AddressingMode::Absolute_X,
        _ => AddressingMode::Implied,
    }
}

/// The addressing mode the table assigns to an opcode byte.
pub open spec fn mode_of(code: u8) -> AddressingMode {
    if code < 0x40 {
        mode_of_q0(code)
    } else if code < 0x80 {
        mode_of_q1(code)
    } else if code < 0xC0 {
        mode_of_q2(code)
    } else {
        mode_of_q3(code)
    }
}

/// The mnemonic of each opcode byte among 0x00-0x3F.
pub open spec fn mnemonic_of_q0(code: u8) -> Seq<char> {
    match code {
        0x00 => "BRK"@,
        0x01 | 0x05 | 0x09 | 0x0D | 0x11 | 0x15 | 0x19 | 0x1D => "ORA"@,
        0x04 | 0x0C | 0x14 | 0x1A | 0x1C | 0x34 | 0x3A | 0x3C => "*NOP"@,
        0x06 | 0x0A | 0x0E | 0x16 | 0x1E => "ASL"@,
        0x08 => "PHP"@,
        0x10 => "BPL"@,
        0x18 => "CLC"@,
        0x20 => "JSR"@,
        0x21 | 0x25 | 0x29 | 0x2D | 0x31 | 0x35 | 0x39 | 0x3D => "AND"@,
        0x24 | 0x2C => "BIT"@,
        0x26 | 0x2A | 0x2E | 0x36 | 0x3E => "ROL"@,
        0x28 => "PLP"@,
        0x30 => "BMI"@,
        0x38 => "SEC"@,
        _ => ""@,
    }
}

/// The mnemonic of each opcode byte among 0x40-0x7F.
pub open spec fn mnemonic_of_q1(code: u8) -> Seq<char> {
    match code {
        0x40 => "RTI"@,
        0x41 | 0x45 | 0x49 | 0x4D | 0x51 | 0x55 | 0x59 | 0x5D => "EOR"@,
        0x44 | 0x54 | 0x5A | 0x5C | 0x64 | 0x74 | 0x7A | 0x7C => "*NOP"@,
        0x46 | 0x4A | 0x4E | 0x56 | 0x5E => "LSR"@,
        0x48 => "PHA"@,
        0x4C | 0x6C => "JMP"@,
        0x50 => "BVC"@,
        0x58 => "CLI"@,
        0x60 => "RTS"@,
        0x61 | 0x65 | 0x69 | 0x6D | 0x71 | 0x75 | 0x79 | 0x7D => "ADC"@,
        0x66 | 0x6A | 0x6E | 0x76 | 0x7E => "ROR"@,
        0x68 => "PLA"@,
        0x70 => "BVS"@,
        0x78 => "SEI"@,
        _ => ""@,
    }
}

/// The mnemonic of each opcode byte among 0x80-0xBF.
pub open spec fn mnemonic_of_q2(code: u8) -> Seq<char> {
    match code {
        0x80 => "*NOP"@,
        0x81 | 0x85 | 0x8D | 0x91 | 0x95 | 0x99 | 0x9D => "STA"@,
        0x84 | 0x8C | 0x94 => "STY"@,
        0x86 | 0x8E | 0x96 => "STX"@,
        0x88 => "DEY"@,
        0x8A => "TXA"@,
        0x90 => "BCC"@,
        0x98 => "TYA"@,
        0x9A => "TXS"@,
        0xA0 | 0xA4 | 0xAC | 0xB4 | 0xBC => "LDY"@,
        0xA1 | 0xA5 | 0xA9 | 0xAD | 0xB1 | 0xB5 | 0xB9 | 0xBD => "LDA"@,
        0xA2 | 0xA6 | 0xAE | 0xB6 | 0xBE => "LDX"@,
        0xA3 | 0xA7 | 0xAF | 0xB3 | 0xB7 | 0xBF => "*LAX"@,
        0xA8 => "TAY"@,
        0xAA => "TAX"@,
        0xB0 => "BCS"@,
        0xB8 => "CLV"@,
        0xBA => "TSX"@,
        _ => ""@,
    }
}

/// The mnemonic of each opcode byte among 0xC0-0xFF.
pub open spec fn mnemonic_of_q3(code: u8) -> Seq<char> {
    match code {
        0xC0 | 0xC4 | 0xCC => "CPY"@,
        0xC1 | 0xC5 | 0xC9 | 0xCD | 0xD1 | 0xD5 | 0xD9 | 0xDD => "CMP"@,
        0xC6 | 0xCE | 0xD6 | 0xDE => "DEC"@,
        0xC8 => "INY"@,
        0xCA => "DEX"@,
        0xD0 => "BNE"@,
        0xD4 | 0xDA | 0xDC | 0xF4 | 0xFA | 0xFC => "*NOP"@,
        0xD8 => "CLD"@,
        0xE0 | 0xE4 | 0xEC => "CPX"@,
        0xE1 | 0xE5 | 0xE9 | 0xED | 0xF1 | 0xF5 | 0xF9 | 0xFD => "SBC"@,
        0xE6 | 0xEE | 0xF6 | 0xFE => "INC"@,
        0xE8 => "INX"@,
        0xEA => "NOP"@,
        0xF0 => "BEQ"@,
        0xF8 => "SED"@,
        _ => ""@,
    }
}

/// The mnemonic the table assigns to an opcode byte.
pub open spec fn mnemonic_of(code: u8) -> Seq<char> {
    if code < 0x40 {
        mnemonic_of_q0(code)
    } else if code < 0x80 {
        mnemonic_of_q1(code)
    } else if code < 0xC0 {
        mnemonic_of_q2(code)
    } else {
        mnemonic_of_q3(code)
    }
}

/// The nominal cycle count of each opcode byte among 0x00-0x3F.
pub open spec fn cycles_of_q0(code: u8) -> u8 {
    match code {
        0x00 | 0x1E | 0x3E => 7u8,
        0x01 | 0x0E | 0x16 | 0x20 | 0x21 | 0x2E | 0x36 => 6u8,
        0x04 | 0x05 | 0x08 | 0x24 | 0x25 => 3u8,
        0x06 | 0x11 | 0x26 | 0x31 => 5u8,
        0x09 | 0x0A | 0x10 | 0x18 | 0x1A | 0x29 | 0x2A | 0x30 | 0x38 | 0x3A => 2u8,
        0x0C | 0x0D | 0x14 | 0x15 | 0x19 | 0x1C | 0x1D | 0x28 | 0x2C | 0x2D | 0x34 | 0x35 | 0x39
        | 0x3C | 0x3D => 4u8,
        _ => 0u8,
    }
}

/// The nominal cycle count of each opcode byte among 0x40-0x7F.
pub open spec fn cycles_of_q1(code: u8) -> u8 {
    match code {
        0x40 | 0x41 | 0x4E | 0x56 | 0x60 | 0x61 | 0x6E | 0x76 => 6u8,
        0x44 | 0x45 | 0x48 | 0x4C | 0x64 | 0x65 => 3u8,
        0x46 | 0x51 | 0x66 | 0x6C | 0x71 => 5u8,
        0x49 | 0x4A | 0x50 | 0x58 | 0x5A | 0x69 | 0x6A | 0x70 | 0x78 | 0x7A => 2u8,
        0x4D | 0x54 | 0x55 | 0x59 | 0x5C | 0x5D | 0x68 | 0x6D | 0x74 | 0x75 | 0x79 | 0x7C | 0x7D => 4u8,
        0x5E | 0x7E => 7u8,
        _ => 0u8,
    }
}

/// The nominal cycle count of each opcode byte among 0x80-0xBF.
pub open spec fn cycles_of_q2(code: u8) -> u8 {
    match code {
        0x80 | 0x88 | 0x8A | 0x90 | 0x98 | 0x9A | 0xA0 | 0xA2 | 0xA8 | 0xA9 | 0xAA | 0xB0 | 0xB8
        | 0xBA => 2u8,
        0x81 | 0x91 | 0xA1 | 0xA3 => 6u8,
        0x84 | 0x85 | 0x86 | 0xA4 | 0xA5 | 0xA6 | 0xA7 => 3u8,
        0x8C | 0x8D | 0x8E | 0x94 | 0x95 | 0x96 | 0xAC | 0xAD | 0xAE | 0xAF | 0xB4 | 0xB5 | 0xB6
        | 0xB7 | 0xB9 | 0xBC | 0xBD | 0xBE | 0xBF => 4u8,
        0x99 | 0x9D | 0xB1 | 0xB3 => 5u8,
        _ => 0u8,
    }
}

/// The nominal cycle count of each opcode byte among 0xC0-0xFF.
pub open spec fn cycles_of_q3(code: u8) -> u8 {
    match code {
        0xC0 | 0xC8 | 0xC9 | 0xCA | 0xD0 | 0xD8 | 0xDA | 0xE0 | 0xE8 | 0xE9 | 0xEA | 0xF0 | 0xF8
        | 0xFA => 2u8,
        0xC1 | 0xCE | 0xD6 | 0xE1 | 0xEE | 0xF6 => 6u8,
        0xC4 | 0xC5 | 0xE4 | 0xE5 => 3u8,
        0xC6 | 0xD1 | 0xE6 | 0xF1 => 5u8,
        0xCC | 0xCD | 0xD4 | 0xD5 | 0xD9 | 0xDC | 0xDD | 0xEC | 0xED | 0xF4 | 0xF5 | 0xF9 | 0xFC
        | 0xFD => 4u8,
        0xDE | 0xFE => 7u8,
        _ => 0u8,
    }
}

/// The nominal cycle count the table assigns to an opcode byte.
pub open spec fn cycles_of(code: u8) -> u8 {
    if code < 0x40 {
        cycles_of_q0(code)
    } else if code < 0x80 {
        cycles_of_q1(code)
    } else if code < 0xC0 {
        cycles_of_q2(code)
    } else {
        cycles_of_q3(code)
    }
}

impl OpCode {
    pub fn new(code: u8, mnemonic: &'static str, length: u8, cycles: u8, mode: AddressingMode) -> (r:
        OpCode)
        ensures
            r.code == code && r.mnemonic == mnemonic && r.length == length && r.cycles == cycles
                && r.mode == mode,
    {
        OpCode { code, mnemonic, length, cycles, mode }
    }
}

/// The table rows among the opcode bytes 0x00-0x3F.
#[verifier::rlimit(100)]
fn lookup_q0(code: u8) -> (r: Option<OpCode>)
    requires
        0x0 <= code <= 0x3f,
    ensures
        r is Some <==> known_opcode_q0(code),
        r matches Some(op) ==> op.code == code && op.length == mode_len(op.mode) && 1 <= op.length
            <= 3 && op.mode == mode_of_q0(code) && op.mnemonic@ == mnemonic_of_q0(code)
            && op.cycles == cycles_of_q0(code),
{
    match code {
            0x00 => Some(OpCode::new(0x00, "BRK", 1, 7, AddressingMode::Implied)),
            0x01 => Some(OpCode::new(0x01, "ORA", 2, 6, AddressingMode::Indirect_X)),
            0x04 => Some(OpCode::new(0x04, "*NOP", 2, 3, AddressingMode::ZeroPage)),
            0x05 => Some(OpCode::new(0x05, "ORA", 2, 3, AddressingMode::ZeroPage)),
            0x06 => Some(OpCode::new(0x06, "ASL", 2, 5, AddressingMode::ZeroPage)),
            0x08 => Some(OpCode::new(0x08, "PHP", 1, 3, AddressingMode::Implied)),
            0x09 => Some(OpCode::new(0x09, "ORA", 2, 2, AddressingMode::Immediate)),
            0x0A => Some(OpCode::new(0x0A, "ASL", 1, 2, AddressingMode::Accumulator)),
            0x0C => Some(OpCode::new(0x0C, "*NOP", 3, 4, AddressingMode::Absolute)),
            0x0D => Some(OpCode::new(0x0D, "ORA", 3, 4, AddressingMode::Absolute)),
            0x0E => Some(OpCode::new(0x0E, "ASL", 3, 6, AddressingMode::Absolute)),
            0x10 => Some(OpCode::new(0x10, "BPL", 2, 2, AddressingMode::RELATIVE)),
            0x11 => Some(OpCode::new(0x11, "ORA", 2, 5, AddressingMode::Indirect_Y)),
            0x14 => Some(OpCode::new(0x14, "*NOP", 2, 4, AddressingMode::ZeroPage_X)),
            0x15 => Some(OpCode::new(0x15, "ORA", 2, 4, AddressingMode::ZeroPage_X)),
            0x16 => Some(OpCode::new(0x16, "ASL", 2, 6, AddressingMode::ZeroPage_X)),
            0x18 => Some(OpCode::new(0x18, "CLC", 1, 2, AddressingMode::Implied)),
            0x19 => Some(OpCode::new(0x19, "ORA", 3, 4, AddressingMode::Absolute_Y)),
            0x1A => Some(OpCode::new(0x1A, "*NOP", 1, 2, AddressingMode::Implied)),
            0x1C => Some(OpCode::new(0x1C, "*NOP", 3, 4, AddressingMode::Absolute_X)),
            0x1D => Some(OpCode::new(0x1D, "ORA", 3, 4, AddressingMode::Absolute_X)),
            0x1E => Some(OpCode::new(0x1E, "ASL", 3, 7, AddressingMode::Absolute_X)),
            0x20 => Some(OpCode::new(0x20, "JSR", 3, 6, AddressingMode::Absolute)),
            0x21 => Some(OpCode::new(0x21, "AND", 2, 6, AddressingMode::Indirect_X)),
            0x24 => Some(OpCode::new(0x24, "BIT", 2, 3, AddressingMode::ZeroPage)),
            0x25 => Some(OpCode::new(0x25, "AND", 2, 3, AddressingMode::ZeroPage)),
            0x26 => Some(OpCode::new(0x26, "ROL", 2, 5, AddressingMode::ZeroPage)),
            0x28 => Some(OpCode::new(0x28, "PLP", 1, 4, AddressingMode::Implied)),
            0x29 => Some(OpCode::new(0x29, "AND", 2, 2, AddressingMode::Immediate)),
            0x2A => Some(OpCode::new(0x2A, "ROL", 1, 2, AddressingMode::Accumulator)),
            0x2C => Some(OpCode::new(0x2C, "BIT", 3, 4, AddressingMode::Absolute)),
            0x2D => Some(OpCode::new(0x2D, "AND", 3, 4, AddressingMode::Absolute)),
            0x2E => Some(OpCode::new(0x2E, "ROL", 3, 6, AddressingMode::Absolute)),
            0x30 => Some(OpCode::new(0x30, "BMI", 2, 2, AddressingMode::RELATIVE)),
            0x31 => Some(OpCode::new(0x31, "AND", 2, 5, AddressingMode::Indirect_Y)),
            0x34 => Some(OpCode::new(0x34, "*NOP", 2, 4, AddressingMode::ZeroPage_X)),
            0x35 => Some(OpCode::new(0x35, "AND", 2, 4, AddressingMode::ZeroPage_X)),
            0x36 => Some(OpCode::new(0x36, "ROL", 2, 6, AddressingMode::ZeroPage_X)),
            0x38 => Some(OpCode::new(0x38, "SEC", 1, 2, AddressingMode::Implied)),
            0x39 => Some(OpCode::new(0x39, "AND", 3, 4, AddressingMode::Absolute_Y)),
            0x3A => Some(OpCode::new(0x3A, "*NOP", 1, 2, AddressingMode::Implied)),
            0x3C => Some(OpCode::new(0x3C, "*NOP", 3, 4, AddressingMode::Absolute_X)),
            0x3D => Some(OpCode::new(0x3D, "AND", 3, 4, AddressingMode::Absolute_X)),
            0x3E => Some(OpCode::new(0x3E, "ROL", 3, 7, AddressingMode::Absolute_X)),
        _ => None,
    }
}

/// The table rows among the opcode bytes 0x40-0x7F.
#[verifier::rlimit(100)]
fn lookup_q1(code: u8) -> (r: Option<OpCode>)
    requires
        0x40 <= code <= 0x7f,
    ensures
        r is Some <==> known_opcode_q1(code),
        r matches Some(op) ==> op.code == code && op.length == mode_len(op.mode) && 1 <= op.length
            <= 3 && op.mode == mode_of_q1(code) && op.mnemonic@ == mnemonic_of_q1(code)
            && op.cycles == cycles_of_q1(code),
{
    match code {
            0x40 => Some(OpCode::new(0x40, "RTI", 1, 6, AddressingMode::Implied)),
            0x41 => Some(OpCode::new(0x41, "EOR", 2, 6, AddressingMode::Indirect_X)),
            0x44 => Some(OpCode::new(0x44, "*NOP", 2, 3, AddressingMode::ZeroPage)),
            0x45 => Some(OpCode::new(0x45, "EOR", 2, 3, AddressingMode::ZeroPage)),
            0x46 => Some(OpCode::new(0x46, "LSR", 2, 5, AddressingMode::ZeroPage)),
            0x48 => Some(OpCode::new(0x48, "PHA", 1, 3, AddressingMode::Implied)),
            0x49 => Some(OpCode::new(0x49, "EOR", 2, 2, AddressingMode::Immediate)),
            0x4A => Some(OpCode::new(0x4A, "LSR", 1, 2, AddressingMode::Accumulator)),
            0x4C => Some(OpCode::new(0x4C, "JMP", 3, 3, AddressingMode::Absolute)),
            0x4D => Some(OpCode::new(0x4D, "EOR", 3, 4, AddressingMode::Absolute)),
            0x4E => Some(OpCode::new(0x4E, "LSR", 3, 6, AddressingMode::Absolute)),
            0x50 => Some(OpCode::new(0x50, "BVC", 2, 2, AddressingMode::RELATIVE)),
            0x51 => Some(OpCode::new(0x51, "EOR", 2, 5, AddressingMode::Indirect_Y)),
            0x54 => Some(OpCode::new(0x54, "*NOP", 2, 4, AddressingMode::ZeroPage_X)),
            0x55 => Some(OpCode::new(0x55, "EOR", 2, 4, AddressingMode::ZeroPage_X)),
            0x56 => Some(OpCode::new(0x56, "LSR", 2, 6, AddressingMode::ZeroPage_X)),
            0x58 => Some(OpCode::new(0x58, "CLI", 1, 2, AddressingMode::Implied)),
            0x59 => Some(OpCode::new(0x59, "EOR", 3, 4, AddressingMode::Absolute_Y)),
            0x5A => Some(OpCode::new(0x5A, "*NOP", 1, 2, AddressingMode::Implied)),
            0x5C => Some(OpCode::new(0x5C, "*NOP", 3, 4, AddressingMode::Absolute_X)),
            0x5D => Some(OpCode::new(0x5D, "EOR", 3, 4, AddressingMode::Absolute_X)),
            0x5E => Some(OpCode::new(0x5E, "LSR", 3, 7, AddressingMode::Absolute_X)),
            0x60 => Some(OpCode::new(0x60, "RTS", 1, 6, AddressingMode::Implied)),
            0x61 => Some(OpCode::new(0x61, "ADC", 2, 6, AddressingMode::Indirect_X)),
            0x64 => Some(OpCode::new(0x64, "*NOP", 2, 3, AddressingMode::ZeroPage)),
            0x65 => Some(OpCode::new(0x65, "ADC", 2, 3, AddressingMode::ZeroPage)),
            0x66 => Some(OpCode::new(0x66, "ROR", 2, 5, AddressingMode::ZeroPage)),
            0x68 => Some(OpCode::new(0x68, "PLA", 1, 4, AddressingMode::Implied)),
            0x69 => Some(OpCode::new(0x69, "ADC", 2, 2, AddressingMode::Immediate)),
            0x6A => Some(OpCode::new(0x6A, "ROR", 1, 2, AddressingMode::Accumulator)),
            0x6C => Some(OpCode::new(0x6C, "JMP", 3, 5, AddressingMode::Indirect)),
            0x6D => Some(OpCode::new(0x6D, "ADC", 3, 4, AddressingMode::Absolute)),
            0x6E => Some(OpCode::new(0x6E, "ROR", 3, 6, AddressingMode::Absolute)),
            0x70 => Some(OpCode::new(0x70, "BVS", 2, 2, AddressingMode::RELATIVE)),
            0x71 => Some(OpCode::new(0x71, "ADC", 2, 5, AddressingMode::Indirect_Y)),
            0x74 => Some(OpCode::new(0x74, "*NOP", 2, 4, AddressingMode::ZeroPage_X)),
            0x75 => Some(OpCode::new(0x75, "ADC", 2, 4, AddressingMode::ZeroPage_X)),
            0x76 => Some(OpCode::new(0x76, "ROR", 2, 6, AddressingMode::ZeroPage_X)),
            0x78 => Some(OpCode::new(0x78, "SEI", 1, 2, AddressingMode::Implied)),
            0x79 => Some(OpCode::new(0x79, "ADC", 3, 4, AddressingMode::Absolute_Y)),
            0x7A => Some(OpCode::new(0x7A, "*NOP", 1, 2, AddressingMode::Implied)),
            0x7C => Some(OpCode::new(0x7C, "*NOP", 3, 4, AddressingMode::Absolute_X)),
            0x7D => Some(OpCode::new(0x7D, "ADC", 3, 4, AddressingMode::Absolute_X)),
            0x7E => Some(OpCode::new(0x7E, "ROR", 3, 7, AddressingMode::Absolute_X)),
        _ => None,
    }
}

/// The table rows among the opcode bytes 0x80-0xBF.
#[verifier::rlimit(100)]
fn lookup_q2(code: u8) -> (r: Option<OpCode>)
    requires
        0x80 <= code <= 0xbf,
    ensures
        r is Some <==> known_opcode_q2(code),
        r matches Some(op) ==> op.code == code && op.length == mode_len(op.mode) && 1 <= op.length
            <= 3 && op.mode == mode_of_q2(code) && op.mnemonic@ == mnemonic_of_q2(code)
            && op.cycles == cycles_of_q2(code),
{
    match code {
            0x80 => Some(OpCode::new(0x80, "*NOP", 2, 2, AddressingMode::Immediate)),
            0x81 => Some(OpCode::new(0x81, "STA", 2, 6, AddressingMode::Indirect_X)),
            0x84 => Some(OpCode::new(0x84, "STY", 2, 3, AddressingMode::ZeroPage)),
            0x85 => Some(OpCode::new(0x85, "STA", 2, 3, AddressingMode::ZeroPage)),
            0x86 => Some(OpCode::new(0x86, "STX", 2, 3, AddressingMode::ZeroPage)),
            0x88 => Some(OpCode::new(0x88, "DEY", 1, 2, AddressingMode::Implied)),
            0x8A => Some(OpCode::new(0x8A, "TXA", 1, 2, AddressingMode::Implied)),
            0x8C => Some(OpCode::new(0x8C, "STY", 3, 4, AddressingMode::Absolute)),
            0x8D => Some(OpCode::new(0x8D, "STA", 3, 4, AddressingMode::Absolute)),
            0x8E => Some(OpCode::new(0x8E, "STX", 3, 4, AddressingMode::Absolute)),
            0x90 => Some(OpCode::new(0x90, "BCC", 2, 2, AddressingMode::RELATIVE)),
            0x91 => Some(OpCode::new(0x91, "STA", 2, 6, AddressingMode::Indirect_Y)),
            0x94 => Some(OpCode::new(0x94, "STY", 2, 4, AddressingMode::ZeroPage_X)),
            0x95 => Some(OpCode::new(0x95, "STA", 2, 4, AddressingMode::ZeroPage_X)),
            0x96 => Some(OpCode::new(0x96, "STX", 2, 4, AddressingMode::ZeroPage_Y)),
            0x98 => Some(OpCode::new(0x98, "TYA", 1, 2, AddressingMode::Implied)),
            0x99 => Some(OpCode::new(0x99, "STA", 3, 5, AddressingMode::Absolute_Y)),
            0x9A => Some(OpCode::new(0x9A, "TXS", 1, 2, AddressingMode::Implied)),
            0x9D => Some(OpCode::new(0x9D, "STA", 3, 5, AddressingMode::Absolute_X)),
            0xA0 => Some(OpCode::new(0xA0, "LDY", 2, 2, AddressingMode::Immediate)),
            0xA1 => Some(OpCode::new(0xA1, "LDA", 2, 6, AddressingMode::Indirect_X)),
            0xA2 => Some(OpCode::new(0xA2, "LDX", 2, 2, AddressingMode::Immediate)),
            0xA3 => Some(OpCode::new(0xA3, "*LAX", 2, 6, AddressingMode::Indirect_X)),
            0xA4 => Some(OpCode::new(0xA4, "LDY", 2, 3, AddressingMode::ZeroPage)),
            0xA5 => Some(OpCode::new(0xA5, "LDA", 2, 3, AddressingMode::ZeroPage)),
            0xA6 => Some(OpCode::new(0xA6, "LDX", 2, 3, AddressingMode::ZeroPage)),
            0xA7 => Some(OpCode::new(0xA7, "*LAX", 2, 3, AddressingMode::ZeroPage)),
            0xA8 => Some(OpCode::new(0xA8, "TAY", 1, 2, AddressingMode::Implied)),
            0xA9 => Some(OpCode::new(0xA9, "LDA", 2, 2, AddressingMode::Immediate)),
            0xAA => Some(OpCode::new(0xAA, "TAX", 1, 2, AddressingMode::Implied)),
            0xAC => Some(OpCode::new(0xAC, "LDY", 3, 4, AddressingMode::Absolute)),
            0xAD => Some(OpCode::new(0xAD, "LDA", 3, 4, AddressingMode::Absolute)),
            0xAE => Some(OpCode::new(0xAE, "LDX", 3, 4, AddressingMode::Absolute)),
            0xAF => Some(OpCode::new(0xAF, "*LAX", 3, 4, AddressingMode::Absolute)),
            0xB0 => Some(OpCode::new(0xB0, "BCS", 2, 2, AddressingMode::RELATIVE)),
            0xB1 => Some(OpCode::new(0xB1, "LDA", 2, 5, AddressingMode::Indirect_Y)),
            0xB3 => Some(OpCode::new(0xB3, "*LAX", 2, 5, AddressingMode::Indirect_Y)),
            0xB4 => Some(OpCode::new(0xB4, "LDY", 2, 4, AddressingMode::ZeroPage_X)),
            0xB5 => Some(OpCode::new(0xB5, "LDA", 2, 4, AddressingMode::ZeroPage_X)),
            0xB6 => Some(OpCode::new(0xB6, "LDX", 2, 4, AddressingMode::ZeroPage_Y)),
            0xB7 => Some(OpCode::new(0xB7, "*LAX", 2, 4, AddressingMode::ZeroPage_Y)),
            0xB8 => Some(OpCode::new(0xB8, "CLV", 1, 2, AddressingMode::Implied)),
            0xB9 => Some(OpCode::new(0xB9, "LDA", 3, 4, AddressingMode::Absolute_Y)),
            0xBA => Some(OpCode::new(0xBA, "TSX", 1, 2, AddressingMode::Implied)),
            0xBC => Some(OpCode::new(0xBC, "LDY", 3, 4, AddressingMode::Absolute_X)),
            0xBD => Some(OpCode::new(0xBD, "LDA", 3, 4, AddressingMode::Absolute_X)),
            0xBE => Some(OpCode::new(0xBE, "LDX", 3, 4, AddressingMode::Absolute_Y)),
            0xBF => Some(OpCode::new(0xBF, "*LAX", 3, 4, AddressingMode::Absolute_Y)),
        _ => None,
    }
}

/// The table rows among the opcode bytes 0xC0-0xFF.
#[verifier::rlimit(100)]
fn lookup_q3(code: u8) -> (r: Option<OpCode>)
    requires
        0xc0 <= code <= 0xff,
    ensures
        r is Some <==> known_opcode_q3(code),
        r matches Some(op) ==> op.code == code && op.length == mode_len(op.mode) && 1 <= op.length
            <= 3 && op.mode == mode_of_q3(code) && op.mnemonic@ == mnemonic_of_q3(code)
            && op.cycles == cycles_of_q3(code),
{
    match code {
            0xC0 => Some(OpCode::new(0xC0, "CPY", 2, 2, AddressingMode::Immediate)),
            0xC1 => Some(OpCode::new(0xC1, "CMP", 2, 6, AddressingMode::Indirect_X)),
            0xC4 => Some(OpCode::new(0xC4, "CPY", 2, 3, AddressingMode::ZeroPage)),
            0xC5 => Some(OpCode::new(0xC5, "CMP", 2, 3, AddressingMode::ZeroPage)),
            0xC6 => Some(OpCode::new(0xC6, "DEC", 2, 5, AddressingMode::ZeroPage)),
            0xC8 => Some(OpCode::new(0xC8, "INY", 1, 2, AddressingMode::Implied)),
            0xC9 => Some(OpCode::new(0xC9, "CMP", 2, 2, AddressingMode::Immediate)),
            0xCA => Some(OpCode::new(0xCA, "DEX", 1, 2, AddressingMode::Implied)),
            0xCC => Some(OpCode::new(0xCC, "CPY", 3, 4, AddressingMode::Absolute)),
            0xCD => Some(OpCode::new(0xCD, "CMP", 3, 4, AddressingMode::Absolute)),
            0xCE => Some(OpCode::new(0xCE, "DEC", 3, 6, AddressingMode::Absolute)),
            0xD0 => Some(OpCode::new(0xD0, "BNE", 2, 2, AddressingMode::RELATIVE)),
            0xD1 => Some(OpCode::new(0xD1, "CMP", 2, 5, AddressingMode::Indirect_Y)),
            0xD4 => Some(OpCode::new(0xD4, "*NOP", 2, 4, AddressingMode::ZeroPage_X)),
            0xD5 => Some(OpCode::new(0xD5, "CMP", 2, 4, AddressingMode::ZeroPage_X)),
            0xD6 => Some(OpCode::new(0xD6, "DEC", 2, 6, AddressingMode::ZeroPage_X)),
            0xD8 => Some(OpCode::new(0xD8, "CLD", 1, 2, AddressingMode::Implied)),
            0xD9 => Some(OpCode::new(0xD9, "CMP", 3, 4, AddressingMode::Absolute_Y)),
            0xDA => Some(OpCode::new(0xDA, "*NOP", 1, 2, AddressingMode::Implied)),
            0xDC => Some(OpCode::new(0xDC, "*NOP", 3, 4, AddressingMode::Absolute_X)),
            0xDD => Some(OpCode::new(0xDD, "CMP", 3, 4, AddressingMode::Absolute_X)),
            0xDE => Some(OpCode::new(0xDE, "DEC", 3, 7, AddressingMode::Absolute_X)),
            0xE0 => Some(OpCode::new(0xE0, "CPX", 2, 2, AddressingMode::Immediate)),
            0xE1 => Some(OpCode::new(0xE1, "SBC", 2, 6, AddressingMode::Indirect_X)),
            0xE4 => Some(OpCode::new(0xE4, "CPX", 2, 3, AddressingMode::ZeroPage)),
            0xE5 => Some(OpCode::new(0xE5, "SBC", 2, 3, AddressingMode::ZeroPage)),
            0xE6 => Some(OpCode::new(0xE6, "INC", 2, 5, AddressingMode::ZeroPage)),
            0xE8 => Some(OpCode::new(0xE8, "INX", 1, 2, AddressingMode::Implied)),
            0xE9 => Some(OpCode::new(0xE9, "SBC", 2, 2, AddressingMode::Immediate)),
            0xEA => Some(OpCode::new(0xEA, "NOP", 1, 2, AddressingMode::Implied)),
            0xEC => Some(OpCode::new(0xEC, "CPX", 3, 4, AddressingMode::Absolute)),
            0xED => Some(OpCode::new(0xED, "SBC", 3, 4, AddressingMode::Absolute)),
            0xEE => Some(OpCode::new(0xEE, "INC", 3, 6, AddressingMode::Absolute)),
            0xF0 => Some(OpCode::new(0xF0, "BEQ", 2, 2, AddressingMode::RELATIVE)),
            0xF1 => Some(OpCode::new(0xF1, "SBC", 2, 5, AddressingMode::Indirect_Y)),
            0xF4 => Some(OpCode::new(0xF4, "*NOP", 2, 4, AddressingMode::ZeroPage_X)),
            0xF5 => Some(OpCode::new(0xF5, "SBC", 2, 4, AddressingMode::ZeroPage_X)),
            0xF6 => Some(OpCode::new(0xF6, "INC", 2, 6, AddressingMode::ZeroPage_X)),
            0xF8 => Some(OpCode::new(0xF8, "SED", 1, 2, AddressingMode::Implied)),
            0xF9 => Some(OpCode::new(0xF9, "SBC", 3, 4, AddressingMode::Absolute_Y)),
            0xFA => Some(OpCode::new(0xFA, "*NOP", 1, 2, AddressingMode::Implied)),
            0xFC => Some(OpCode::new(0xFC, "*NOP", 3, 4, AddressingMode::Absolute_X)),
            0xFD => Some(OpCode::new(0xFD, "SBC", 3, 4, AddressingMode::Absolute_X)),
            0xFE => Some(OpCode::new(0xFE, "INC", 3, 7, AddressingMode::Absolute_X)),
        _ => None,
    }
}

/// The table row for an opcode byte, or `None` for a byte the
/// interpreter does not dispatch. Every field of a returned row is
/// pinned by the spec tables.
pub fn lookup(code: u8) -> (r: Option<OpCode>)
    ensures
        r is Some <==> known_opcode(code),
        r matches Some(op) ==> op.code == code && op.length == mode_len(op.mode) && 1 <= op.length
            <= 3 && op.mode == mode_of(code) && op.mnemonic@ == mnemonic_of(code) && op.cycles
            == cycles_of(code),
{
    if code < 0x40 {
        lookup_q0(code)
    } else if code < 0x80 {
        lookup_q1(code)
    } else if code < 0xC0 {
        lookup_q2(code)
    } else {
        lookup_q3(code)
    }
}

} // verus!
