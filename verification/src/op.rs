//! The table of opcodes, for reading instructions back: what each is
//! called, how many bytes it takes and how it addresses its operand.

use crate::cpu::decode::group_one_mode;
use crate::cpu::decode::group_two_three_mode;
use crate::cpu::AddressingMode;
use vstd::prelude::*;

verus! {

/// One row of the table.
#[derive(Clone, Copy, Debug)]
pub struct OpCode {
    pub code: u8,
    /// The mnemonic; unofficial instructions carry a star.
    pub lit: &'static str,
    /// The bytes of the instruction, opcode included.
    pub len: u8,
    pub mode: AddressingMode,
}

/// The bytes that an instruction with this addressing mode takes.
pub open spec fn instruction_len(mode: AddressingMode) -> u8 {
    match mode {
        AddressingMode::NoneAddressing | AddressingMode::Accumulator => 1,
        AddressingMode::Absolute
        | AddressingMode::Absolute_X
        | AddressingMode::Absolute_Y
        | AddressingMode::Indirect => 3,
        _ => 2,
    }
}

/// The opcode has a row in the table: all have but the twelve that jam
/// the hardware and four unofficial ones.
pub open spec fn in_table(code: u8) -> bool {
    !(code % 16 == 2 && (code < 0x80 || (code / 16) % 2 == 1) || code == 0x8B || code == 0xAB
        || code == 0x9B || code == 0xBB)
}

/// The names of the eight instructions of group one.
pub open spec fn group_one_name(aaa: u8) -> &'static str {
    if aaa == 0 {
        "ORA"
    } else if aaa == 1 {
        "AND"
    } else if aaa == 2 {
        "EOR"
    } else if aaa == 3 {
        "ADC"
    } else if aaa == 4 {
        "STA"
    } else if aaa == 5 {
        "LDA"
    } else if aaa == 6 {
        "CMP"
    } else {
        "SBC"
    }
}

/// The names of the eight instructions of group two.
pub open spec fn group_two_name(aaa: u8) -> &'static str {
    if aaa == 0 {
        "ASL"
    } else if aaa == 1 {
        "ROL"
    } else if aaa == 2 {
        "LSR"
    } else if aaa == 3 {
        "ROR"
    } else if aaa == 4 {
        "STX"
    } else if aaa == 5 {
        "LDX"
    } else if aaa == 6 {
        "DEC"
    } else {
        "INC"
    }
}

/// The names of the instructions of group three, from `aaa` 1.
pub open spec fn group_three_name(aaa: u8) -> &'static str {
    if aaa == 1 {
        "BIT"
    } else if aaa == 2 || aaa == 3 {
        "JMP"
    } else if aaa == 4 {
        "STY"
    } else if aaa == 5 {
        "LDY"
    } else if aaa == 6 {
        "CPY"
    } else {
        "CPX"
    }
}

/// The names of the eight branches.
pub open spec fn branch_name(aaa: u8) -> &'static str {
    if aaa == 0 {
        "BPL"
    } else if aaa == 1 {
        "BMI"
    } else if aaa == 2 {
        "BVC"
    } else if aaa == 3 {
        "BVS"
    } else if aaa == 4 {
        "BCC"
    } else if aaa == 5 {
        "BCS"
    } else if aaa == 6 {
        "BNE"
    } else {
        "BEQ"
    }
}

/// The names of the sixteen single-byte instructions with low nibble 8.
pub open spec fn single_byte_name(high: u8) -> &'static str {
    if high == 0 {
        "PHP"
    } else if high == 1 {
        "CLC"
    } else if high == 2 {
        "PLP"
    } else if high == 3 {
        "SEC"
    } else if high == 4 {
        "PHA"
    } else if high == 5 {
        "CLI"
    } else if high == 6 {
        "PLA"
    } else if high == 7 {
        "SEI"
    } else if high == 8 {
        "DEY"
    } else if high == 9 {
        "TYA"
    } else if high == 10 {
        "TAY"
    } else if high == 11 {
        "CLV"
    } else if high == 12 {
        "INY"
    } else if high == 13 {
        "CLD"
    } else if high == 14 {
        "INX"
    } else {
        "SED"
    }
}

/// The names of the single-byte instructions with low nibble A, by high
/// nibble from 8.
pub open spec fn transfer_name(high: u8) -> &'static str {
    if high == 8 {
        "TXA"
    } else if high == 9 {
        "TXS"
    } else if high == 10 {
        "TAX"
    } else if high == 11 {
        "TSX"
    } else if high == 12 {
        "DEX"
    } else if high == 14 {
        "NOP"
    } else {
        "*NOP"
    }
}

/// The names of the unofficial instructions whose two low bits are set.
pub open spec fn unofficial_name(aaa: u8) -> &'static str {
    if aaa == 0 {
        "*SLO"
    } else if aaa == 1 {
        "*RLA"
    } else if aaa == 2 {
        "*SRE"
    } else if aaa == 3 {
        "*RRA"
    } else if aaa == 4 {
        "*SAX"
    } else if aaa == 5 {
        "*LAX"
    } else if aaa == 6 {
        "*DCP"
    } else {
        "*ISB"
    }
}

/// The names of the unofficial instructions with an immediate operand,
/// which sit in column B of the even rows.
pub open spec fn unofficial_immediate_name(aaa: u8) -> &'static str {
    if aaa == 0 || aaa == 1 {
        "ANC"
    } else if aaa == 2 {
        "ALR"
    } else if aaa == 3 {
        "ARR"
    } else if aaa == 6 {
        "AXS"
    } else {
        "*SBC"
    }
}

/// The opcode is one of those of group three that only skip their
/// operand.
pub open spec fn is_ignore(code: u8) -> bool {
    code == 0x80 || code == 0x0C || code == 0x04 || code == 0x44 || code == 0x64 || (code % 32
        == 0x14 && code != 0x94 && code != 0xB4) || (code % 32 == 0x1C && code != 0x9C && code
        != 0xBC)
}

/// The mnemonic of an opcode of the table, read off its bit pattern.
pub open spec fn mnemonic(code: u8) -> &'static str {
    let aaa = code / 32;
    let bbb = (code / 4) % 8;
    let cc = code % 4;
    let high = code / 16;
    let low = code % 16;
    if cc == 1 {
        if code == 0x89 {
            "*NOP"
        } else {
            group_one_name(aaa)
        }
    } else if cc == 3 {
        if low == 0xB && high % 2 == 0 {
            unofficial_immediate_name(aaa)
        } else if code == 0x93 || code == 0x9F {
            "*SHA"
        } else {
            unofficial_name(aaa)
        }
    } else if cc == 2 {
        if low == 0xA && high >= 8 {
            transfer_name(high)
        } else if low == 0xA && high % 2 == 1 {
            "*NOP"
        } else if code == 0x82 || code == 0xC2 || code == 0xE2 {
            "*NOP"
        } else if code == 0x9E {
            "SHX"
        } else {
            group_two_name(aaa)
        }
    } else {
        if low == 8 {
            single_byte_name(high)
        } else if bbb == 4 {
            branch_name(aaa)
        } else if code == 0x00 {
            "BRK"
        } else if code == 0x20 {
            "JSR"
        } else if code == 0x40 {
            "RTI"
        } else if code == 0x60 {
            "RTS"
        } else if code == 0x9C {
            "SHY"
        } else if is_ignore(code) {
            "*NOP"
        } else {
            group_three_name(aaa)
        }
    }
}

/// The addressing mode of an opcode of the table, read off its bit
/// pattern.
pub open spec fn table_mode(code: u8) -> AddressingMode {
    let aaa = code / 32;
    let bbb = (code / 4) % 8;
    let cc = code % 4;
    let high = code / 16;
    let low = code % 16;
    if cc == 1 {
        group_one_mode(bbb)
    } else if cc == 3 {
        if (aaa == 4 || aaa == 5) && bbb == 5 {
            AddressingMode::ZeroPage_Y
        } else if (aaa == 4 || aaa == 5) && bbb == 7 {
            AddressingMode::Absolute_Y
        } else {
            group_one_mode(bbb)
        }
    } else if cc == 2 {
        if low == 0xA {
            if high < 8 && high % 2 == 0 {
                AddressingMode::Accumulator
            } else {
                AddressingMode::NoneAddressing
            }
        } else if code == 0xB6 || code == 0x96 {
            AddressingMode::ZeroPage_Y
        } else if code == 0xBE || code == 0x9E {
            AddressingMode::Absolute_Y
        } else {
            group_two_three_mode(bbb)
        }
    } else {
        if low == 8 || code == 0x00 || code == 0x40 || code == 0x60 {
            AddressingMode::NoneAddressing
        } else if bbb == 4 {
            AddressingMode::Relative
        } else if code == 0x20 {
            AddressingMode::Absolute
        } else if code == 0x6C {
            AddressingMode::Indirect
        } else {
            group_two_three_mode(bbb)
        }
    }
}

/// The row of an opcode, if the table has one.
pub open spec fn table_row(code: u8) -> Option<OpCode> {
    if in_table(code) {
        Some(
            OpCode {
                code,
                lit: mnemonic(code),
                len: instruction_len(table_mode(code)),
                mode: table_mode(code),
            },
        )
    } else {
        None
    }
}

impl OpCode {
    pub fn new(code: u8, lit: &'static str, len: u8, mode: AddressingMode) -> (row: OpCode)
        ensures
            row == (OpCode { code, lit, len, mode }),
    {
        OpCode { code: code, lit: lit, len: len, mode: mode }
    }

    /// Looks an opcode up in the table.
    pub fn lookup(code: u8) -> (row: Option<OpCode>)
        ensures
            row == table_row(code),
    {
        let cc = code % 4;
        if cc == 0 {
            OpCode::lookup_control(code)
        } else if cc == 1 {
            OpCode::lookup_accumulator(code)
        } else if cc == 2 {
            OpCode::lookup_register(code)
        } else {
            OpCode::lookup_unofficial(code)
        }
    }

    /// The rows of the opcodes whose two low bits are 00: flags, stack,
    /// branches, jumps, and the instructions on Y.
    fn lookup_control(code: u8) -> (row: Option<OpCode>)
        requires
            code % 4 == 0,
        ensures
            row == table_row(code),
    {
        match code {
            0x00 => Some(OpCode::new(0x00, "BRK", 1, AddressingMode::NoneAddressing)),
            0x04 => Some(OpCode::new(0x04, "*NOP", 2, AddressingMode::ZeroPage)),
            0x08 => Some(OpCode::new(0x08, "PHP", 1, AddressingMode::NoneAddressing)),
            0x0C => Some(OpCode::new(0x0C, "*NOP", 3, AddressingMode::Absolute)),
            0x10 => Some(OpCode::new(0x10, "BPL", 2, AddressingMode::Relative)),
            0x14 => Some(OpCode::new(0x14, "*NOP", 2, AddressingMode::ZeroPage_X)),
            0x18 => Some(OpCode::new(0x18, "CLC", 1, AddressingMode::NoneAddressing)),
            0x1C => Some(OpCode::new(0x1C, "*NOP", 3, AddressingMode::Absolute_X)),
            0x20 => Some(OpCode::new(0x20, "JSR", 3, AddressingMode::Absolute)),
            0x24 => Some(OpCode::new(0x24, "BIT", 2, AddressingMode::ZeroPage)),
            0x28 => Some(OpCode::new(0x28, "PLP", 1, AddressingMode::NoneAddressing)),
            0x2C => Some(OpCode::new(0x2C, "BIT", 3, AddressingMode::Absolute)),
            0x30 => Some(OpCode::new(0x30, "BMI", 2, AddressingMode::Relative)),
            0x34 => Some(OpCode::new(0x34, "*NOP", 2, AddressingMode::ZeroPage_X)),
            0x38 => Some(OpCode::new(0x38, "SEC", 1, AddressingMode::NoneAddressing)),
            0x3C => Some(OpCode::new(0x3C, "*NOP", 3, AddressingMode::Absolute_X)),
            0x40 => Some(OpCode::new(0x40, "RTI", 1, AddressingMode::NoneAddressing)),
            0x44 => Some(OpCode::new(0x44, "*NOP", 2, AddressingMode::ZeroPage)),
            0x48 => Some(OpCode::new(0x48, "PHA", 1, AddressingMode::NoneAddressing)),
            0x4C => Some(OpCode::new(0x4C, "JMP", 3, AddressingMode::Absolute)),
            0x50 => Some(OpCode::new(0x50, "BVC", 2, AddressingMode::Relative)),
            0x54 => Some(OpCode::new(0x54, "*NOP", 2, AddressingMode::ZeroPage_X)),
            0x58 => Some(OpCode::new(0x58, "CLI", 1, AddressingMode::NoneAddressing)),
            0x5C => Some(OpCode::new(0x5C, "*NOP", 3, AddressingMode::Absolute_X)),
            0x60 => Some(OpCode::new(0x60, "RTS", 1, AddressingMode::NoneAddressing)),
            0x64 => Some(OpCode::new(0x64, "*NOP", 2, AddressingMode::ZeroPage)),
            0x68 => Some(OpCode::new(0x68, "PLA", 1, AddressingMode::NoneAddressing)),
            0x6C => Some(OpCode::new(0x6C, "JMP", 3, AddressingMode::Indirect)),
            0x70 => Some(OpCode::new(0x70, "BVS", 2, AddressingMode::Relative)),
            0x74 => Some(OpCode::new(0x74, "*NOP", 2, AddressingMode::ZeroPage_X)),
            0x78 => Some(OpCode::new(0x78, "SEI", 1, AddressingMode::NoneAddressing)),
            0x7C => Some(OpCode::new(0x7C, "*NOP", 3, AddressingMode::Absolute_X)),
            0x80 => Some(OpCode::new(0x80, "*NOP", 2, AddressingMode::Immediate)),
            0x84 => Some(OpCode::new(0x84, "STY", 2, AddressingMode::ZeroPage)),
            0x88 => Some(OpCode::new(0x88, "DEY", 1, AddressingMode::NoneAddressing)),
            0x8C => Some(OpCode::new(0x8C, "STY", 3, AddressingMode::Absolute)),
            0x90 => Some(OpCode::new(0x90, "BCC", 2, AddressingMode::Relative)),
            0x94 => Some(OpCode::new(0x94, "STY", 2, AddressingMode::ZeroPage_X)),
            0x98 => Some(OpCode::new(0x98, "TYA", 1, AddressingMode::NoneAddressing)),
            0x9C => Some(OpCode::new(0x9C, "SHY", 3, AddressingMode::Absolute_X)),
            0xA0 => Some(OpCode::new(0xA0, "LDY", 2, AddressingMode::Immediate)),
            0xA4 => Some(OpCode::new(0xA4, "LDY", 2, AddressingMode::ZeroPage)),
            0xA8 => Some(OpCode::new(0xA8, "TAY", 1, AddressingMode::NoneAddressing)),
            0xAC => Some(OpCode::new(0xAC, "LDY", 3, AddressingMode::Absolute)),
            0xB0 => Some(OpCode::new(0xB0, "BCS", 2, AddressingMode::Relative)),
            0xB4 => Some(OpCode::new(0xB4, "LDY", 2, AddressingMode::ZeroPage_X)),
            0xB8 => Some(OpCode::new(0xB8, "CLV", 1, AddressingMode::NoneAddressing)),
            0xBC => Some(OpCode::new(0xBC, "LDY", 3, AddressingMode::Absolute_X)),
            0xC0 => Some(OpCode::new(0xC0, "CPY", 2, AddressingMode::Immediate)),
            0xC4 => Some(OpCode::new(0xC4, "CPY", 2, AddressingMode::ZeroPage)),
            0xC8 => Some(OpCode::new(0xC8, "INY", 1, AddressingMode::NoneAddressing)),
            0xCC => Some(OpCode::new(0xCC, "CPY", 3, AddressingMode::Absolute)),
            0xD0 => Some(OpCode::new(0xD0, "BNE", 2, AddressingMode::Relative)),
            0xD4 => Some(OpCode::new(0xD4, "*NOP", 2, AddressingMode::ZeroPage_X)),
            0xD8 => Some(OpCode::new(0xD8, "CLD", 1, AddressingMode::NoneAddressing)),
            0xDC => Some(OpCode::new(0xDC, "*NOP", 3, AddressingMode::Absolute_X)),
            0xE0 => Some(OpCode::new(0xE0, "CPX", 2, AddressingMode::Immediate)),
            0xE4 => Some(OpCode::new(0xE4, "CPX", 2, AddressingMode::ZeroPage)),
            0xE8 => Some(OpCode::new(0xE8, "INX", 1, AddressingMode::NoneAddressing)),
            0xEC => Some(OpCode::new(0xEC, "CPX", 3, AddressingMode::Absolute)),
            0xF0 => Some(OpCode::new(0xF0, "BEQ", 2, AddressingMode::Relative)),
            0xF4 => Some(OpCode::new(0xF4, "*NOP", 2, AddressingMode::ZeroPage_X)),
            0xF8 => Some(OpCode::new(0xF8, "SED", 1, AddressingMode::NoneAddressing)),
            0xFC => Some(OpCode::new(0xFC, "*NOP", 3, AddressingMode::Absolute_X)),
            _ => None,
        }
    }

    /// The rows of the opcodes whose two low bits are 01: the instructions
    /// on the accumulator.
    fn lookup_accumulator(code: u8) -> (row: Option<OpCode>)
        requires
            code % 4 == 1,
        ensures
            row == table_row(code),
    {
        match code {
            0x01 => Some(OpCode::new(0x01, "ORA", 2, AddressingMode::Indirect_X)),
            0x05 => Some(OpCode::new(0x05, "ORA", 2, AddressingMode::ZeroPage)),
            0x09 => Some(OpCode::new(0x09, "ORA", 2, AddressingMode::Immediate)),
            0x0D => Some(OpCode::new(0x0D, "ORA", 3, AddressingMode::Absolute)),
            0x11 => Some(OpCode::new(0x11, "ORA", 2, AddressingMode::Indirect_Y)),
            0x15 => Some(OpCode::new(0x15, "ORA", 2, AddressingMode::ZeroPage_X)),
            0x19 => Some(OpCode::new(0x19, "ORA", 3, AddressingMode::Absolute_Y)),
            0x1D => Some(OpCode::new(0x1D, "ORA", 3, AddressingMode::Absolute_X)),
            0x21 => Some(OpCode::new(0x21, "AND", 2, AddressingMode::Indirect_X)),
            0x25 => Some(OpCode::new(0x25, "AND", 2, AddressingMode::ZeroPage)),
            0x29 => Some(OpCode::new(0x29, "AND", 2, AddressingMode::Immediate)),
            0x2D => Some(OpCode::new(0x2D, "AND", 3, AddressingMode::Absolute)),
            0x31 => Some(OpCode::new(0x31, "AND", 2, AddressingMode::Indirect_Y)),
            0x35 => Some(OpCode::new(0x35, "AND", 2, AddressingMode::ZeroPage_X)),
            0x39 => Some(OpCode::new(0x39, "AND", 3, AddressingMode::Absolute_Y)),
            0x3D => Some(OpCode::new(0x3D, "AND", 3, AddressingMode::Absolute_X)),
            0x41 => Some(OpCode::new(0x41, "EOR", 2, AddressingMode::Indirect_X)),
            0x45 => Some(OpCode::new(0x45, "EOR", 2, AddressingMode::ZeroPage)),
            0x49 => Some(OpCode::new(0x49, "EOR", 2, AddressingMode::Immediate)),
            0x4D => Some(OpCode::new(0x4D, "EOR", 3, AddressingMode::Absolute)),
            0x51 => Some(OpCode::new(0x51, "EOR", 2, AddressingMode::Indirect_Y)),
            0x55 => Some(OpCode::new(0x55, "EOR", 2, AddressingMode::ZeroPage_X)),
            0x59 => Some(OpCode::new(0x59, "EOR", 3, AddressingMode::Absolute_Y)),
            0x5D => Some(OpCode::new(0x5D, "EOR", 3, AddressingMode::Absolute_X)),
            0x61 => Some(OpCode::new(0x61, "ADC", 2, AddressingMode::Indirect_X)),
            0x65 => Some(OpCode::new(0x65, "ADC", 2, AddressingMode::ZeroPage)),
            0x69 => Some(OpCode::new(0x69, "ADC", 2, AddressingMode::Immediate)),
            0x6D => Some(OpCode::new(0x6D, "ADC", 3, AddressingMode::Absolute)),
            0x71 => Some(OpCode::new(0x71, "ADC", 2, AddressingMode::Indirect_Y)),
            0x75 => Some(OpCode::new(0x75, "ADC", 2, AddressingMode::ZeroPage_X)),
            0x79 => Some(OpCode::new(0x79, "ADC", 3, AddressingMode::Absolute_Y)),
            0x7D => Some(OpCode::new(0x7D, "ADC", 3, AddressingMode::Absolute_X)),
            0x81 => Some(OpCode::new(0x81, "STA", 2, AddressingMode::Indirect_X)),
            0x85 => Some(OpCode::new(0x85, "STA", 2, AddressingMode::ZeroPage)),
            0x89 => Some(OpCode::new(0x89, "*NOP", 2, AddressingMode::Immediate)),
            0x8D => Some(OpCode::new(0x8D, "STA", 3, AddressingMode::Absolute)),
            0x91 => Some(OpCode::new(0x91, "STA", 2, AddressingMode::Indirect_Y)),
            0x95 => Some(OpCode::new(0x95, "STA", 2, AddressingMode::ZeroPage_X)),
            0x99 => Some(OpCode::new(0x99, "STA", 3, AddressingMode::Absolute_Y)),
            0x9D => Some(OpCode::new(0x9D, "STA", 3, AddressingMode::Absolute_X)),
            0xA1 => Some(OpCode::new(0xA1, "LDA", 2, AddressingMode::Indirect_X)),
            0xA5 => Some(OpCode::new(0xA5, "LDA", 2, AddressingMode::ZeroPage)),
            0xA9 => Some(OpCode::new(0xA9, "LDA", 2, AddressingMode::Immediate)),
            0xAD => Some(OpCode::new(0xAD, "LDA", 3, AddressingMode::Absolute)),
            0xB1 => Some(OpCode::new(0xB1, "LDA", 2, AddressingMode::Indirect_Y)),
            0xB5 => Some(OpCode::new(0xB5, "LDA", 2, AddressingMode::ZeroPage_X)),
            0xB9 => Some(OpCode::new(0xB9, "LDA", 3, AddressingMode::Absolute_Y)),
            0xBD => Some(OpCode::new(0xBD, "LDA", 3, AddressingMode::Absolute_X)),
            0xC1 => Some(OpCode::new(0xC1, "CMP", 2, AddressingMode::Indirect_X)),
            0xC5 => Some(OpCode::new(0xC5, "CMP", 2, AddressingMode::ZeroPage)),
            0xC9 => Some(OpCode::new(0xC9, "CMP", 2, AddressingMode::Immediate)),
            0xCD => Some(OpCode::new(0xCD, "CMP", 3, AddressingMode::Absolute)),
            0xD1 => Some(OpCode::new(0xD1, "CMP", 2, AddressingMode::Indirect_Y)),
            0xD5 => Some(OpCode::new(0xD5, "CMP", 2, AddressingMode::ZeroPage_X)),
            0xD9 => Some(OpCode::new(0xD9, "CMP", 3, AddressingMode::Absolute_Y)),
            0xDD => Some(OpCode::new(0xDD, "CMP", 3, AddressingMode::Absolute_X)),
            0xE1 => Some(OpCode::new(0xE1, "SBC", 2, AddressingMode::Indirect_X)),
            0xE5 => Some(OpCode::new(0xE5, "SBC", 2, AddressingMode::ZeroPage)),
            0xE9 => Some(OpCode::new(0xE9, "SBC", 2, AddressingMode::Immediate)),
            0xED => Some(OpCode::new(0xED, "SBC", 3, AddressingMode::Absolute)),
            0xF1 => Some(OpCode::new(0xF1, "SBC", 2, AddressingMode::Indirect_Y)),
            0xF5 => Some(OpCode::new(0xF5, "SBC", 2, AddressingMode::ZeroPage_X)),
            0xF9 => Some(OpCode::new(0xF9, "SBC", 3, AddressingMode::Absolute_Y)),
            0xFD => Some(OpCode::new(0xFD, "SBC", 3, AddressingMode::Absolute_X)),
            _ => None,
        }
    }

    /// The rows of the opcodes whose two low bits are 10: shifts, and the
    /// instructions on X and on memory.
    fn lookup_register(code: u8) -> (row: Option<OpCode>)
        requires
            code % 4 == 2,
        ensures
            row == table_row(code),
    {
        match code {
            0x06 => Some(OpCode::new(0x06, "ASL", 2, AddressingMode::ZeroPage)),
            0x0A => Some(OpCode::new(0x0A, "ASL", 1, AddressingMode::Accumulator)),
            0x0E => Some(OpCode::new(0x0E, "ASL", 3, AddressingMode::Absolute)),
            0x16 => Some(OpCode::new(0x16, "ASL", 2, AddressingMode::ZeroPage_X)),
            0x1A => Some(OpCode::new(0x1A, "*NOP", 1, AddressingMode::NoneAddressing)),
            0x1E => Some(OpCode::new(0x1E, "ASL", 3, AddressingMode::Absolute_X)),
            0x26 => Some(OpCode::new(0x26, "ROL", 2, AddressingMode::ZeroPage)),
            0x2A => Some(OpCode::new(0x2A, "ROL", 1, AddressingMode::Accumulator)),
            0x2E => Some(OpCode::new(0x2E, "ROL", 3, AddressingMode::Absolute)),
            0x36 => Some(OpCode::new(0x36, "ROL", 2, AddressingMode::ZeroPage_X)),
            0x3A => Some(OpCode::new(0x3A, "*NOP", 1, AddressingMode::NoneAddressing)),
            0x3E => Some(OpCode::new(0x3E, "ROL", 3, AddressingMode::Absolute_X)),
            0x46 => Some(OpCode::new(0x46, "LSR", 2, AddressingMode::ZeroPage)),
            0x4A => Some(OpCode::new(0x4A, "LSR", 1, AddressingMode::Accumulator)),
            0x4E => Some(OpCode::new(0x4E, "LSR", 3, AddressingMode::Absolute)),
            0x56 => Some(OpCode::new(0x56, "LSR", 2, AddressingMode::ZeroPage_X)),
            0x5A => Some(OpCode::new(0x5A, "*NOP", 1, AddressingMode::NoneAddressing)),
            0x5E => Some(OpCode::new(0x5E, "LSR", 3, AddressingMode::Absolute_X)),
            0x66 => Some(OpCode::new(0x66, "ROR", 2, AddressingMode::ZeroPage)),
            0x6A => Some(OpCode::new(0x6A, "ROR", 1, AddressingMode::Accumulator)),
            0x6E => Some(OpCode::new(0x6E, "ROR", 3, AddressingMode::Absolute)),
            0x76 => Some(OpCode::new(0x76, "ROR", 2, AddressingMode::ZeroPage_X)),
            0x7A => Some(OpCode::new(0x7A, "*NOP", 1, AddressingMode::NoneAddressing)),
            0x7E => Some(OpCode::new(0x7E, "ROR", 3, AddressingMode::Absolute_X)),
            0x82 => Some(OpCode::new(0x82, "*NOP", 2, AddressingMode::Immediate)),
            0x86 => Some(OpCode::new(0x86, "STX", 2, AddressingMode::ZeroPage)),
            0x8A => Some(OpCode::new(0x8A, "TXA", 1, AddressingMode::NoneAddressing)),
            0x8E => Some(OpCode::new(0x8E, "STX", 3, AddressingMode::Absolute)),
            0x96 => Some(OpCode::new(0x96, "STX", 2, AddressingMode::ZeroPage_Y)),
            0x9A => Some(OpCode::new(0x9A, "TXS", 1, AddressingMode::NoneAddressing)),
            0x9E => Some(OpCode::new(0x9E, "SHX", 3, AddressingMode::Absolute_Y)),
            0xA2 => Some(OpCode::new(0xA2, "LDX", 2, AddressingMode::Immediate)),
            0xA6 => Some(OpCode::new(0xA6, "LDX", 2, AddressingMode::ZeroPage)),
            0xAA => Some(OpCode::new(0xAA, "TAX", 1, AddressingMode::NoneAddressing)),
            0xAE => Some(OpCode::new(0xAE, "LDX", 3, AddressingMode::Absolute)),
            0xB6 => Some(OpCode::new(0xB6, "LDX", 2, AddressingMode::ZeroPage_Y)),
            0xBA => Some(OpCode::new(0xBA, "TSX", 1, AddressingMode::NoneAddressing)),
            0xBE => Some(OpCode::new(0xBE, "LDX", 3, AddressingMode::Absolute_Y)),
            0xC2 => Some(OpCode::new(0xC2, "*NOP", 2, AddressingMode::Immediate)),
            0xC6 => Some(OpCode::new(0xC6, "DEC", 2, AddressingMode::ZeroPage)),
            0xCA => Some(OpCode::new(0xCA, "DEX", 1, AddressingMode::NoneAddressing)),
            0xCE => Some(OpCode::new(0xCE, "DEC", 3, AddressingMode::Absolute)),
            0xD6 => Some(OpCode::new(0xD6, "DEC", 2, AddressingMode::ZeroPage_X)),
            0xDA => Some(OpCode::new(0xDA, "*NOP", 1, AddressingMode::NoneAddressing)),
            0xDE => Some(OpCode::new(0xDE, "DEC", 3, AddressingMode::Absolute_X)),
            0xE2 => Some(OpCode::new(0xE2, "*NOP", 2, AddressingMode::Immediate)),
            0xE6 => Some(OpCode::new(0xE6, "INC", 2, AddressingMode::ZeroPage)),
            0xEA => Some(OpCode::new(0xEA, "NOP", 1, AddressingMode::NoneAddressing)),
            0xEE => Some(OpCode::new(0xEE, "INC", 3, AddressingMode::Absolute)),
            0xF6 => Some(OpCode::new(0xF6, "INC", 2, AddressingMode::ZeroPage_X)),
            0xFA => Some(OpCode::new(0xFA, "*NOP", 1, AddressingMode::NoneAddressing)),
            0xFE => Some(OpCode::new(0xFE, "INC", 3, AddressingMode::Absolute_X)),
            _ => None,
        }
    }

    /// The rows of the opcodes whose two low bits are 11: unofficial ones
    /// all.
    fn lookup_unofficial(code: u8) -> (row: Option<OpCode>)
        requires
            code % 4 == 3,
        ensures
            row == table_row(code),
    {
        match code {
            0x03 => Some(OpCode::new(0x03, "*SLO", 2, AddressingMode::Indirect_X)),
            0x07 => Some(OpCode::new(0x07, "*SLO", 2, AddressingMode::ZeroPage)),
            0x0B => Some(OpCode::new(0x0B, "ANC", 2, AddressingMode::Immediate)),
            0x0F => Some(OpCode::new(0x0F, "*SLO", 3, AddressingMode::Absolute)),
            0x13 => Some(OpCode::new(0x13, "*SLO", 2, AddressingMode::Indirect_Y)),
            0x17 => Some(OpCode::new(0x17, "*SLO", 2, AddressingMode::ZeroPage_X)),
            0x1B => Some(OpCode::new(0x1B, "*SLO", 3, AddressingMode::Absolute_Y)),
            0x1F => Some(OpCode::new(0x1F, "*SLO", 3, AddressingMode::Absolute_X)),
            0x23 => Some(OpCode::new(0x23, "*RLA", 2, AddressingMode::Indirect_X)),
            0x27 => Some(OpCode::new(0x27, "*RLA", 2, AddressingMode::ZeroPage)),
            0x2B => Some(OpCode::new(0x2B, "ANC", 2, AddressingMode::Immediate)),
            0x2F => Some(OpCode::new(0x2F, "*RLA", 3, AddressingMode::Absolute)),
            0x33 => Some(OpCode::new(0x33, "*RLA", 2, AddressingMode::Indirect_Y)),
            0x37 => Some(OpCode::new(0x37, "*RLA", 2, AddressingMode::ZeroPage_X)),
            0x3B => Some(OpCode::new(0x3B, "*RLA", 3, AddressingMode::Absolute_Y)),
            0x3F => Some(OpCode::new(0x3F, "*RLA", 3, AddressingMode::Absolute_X)),
            0x43 => Some(OpCode::new(0x43, "*SRE", 2, AddressingMode::Indirect_X)),
            0x47 => Some(OpCode::new(0x47, "*SRE", 2, AddressingMode::ZeroPage)),
            0x4B => Some(OpCode::new(0x4B, "ALR", 2, AddressingMode::Immediate)),
            0x4F => Some(OpCode::new(0x4F, "*SRE", 3, AddressingMode::Absolute)),
            0x53 => Some(OpCode::new(0x53, "*SRE", 2, AddressingMode::Indirect_Y)),
            0x57 => Some(OpCode::new(0x57, "*SRE", 2, AddressingMode::ZeroPage_X)),
            0x5B => Some(OpCode::new(0x5B, "*SRE", 3, AddressingMode::Absolute_Y)),
            0x5F => Some(OpCode::new(0x5F, "*SRE", 3, AddressingMode::Absolute_X)),
            0x63 => Some(OpCode::new(0x63, "*RRA", 2, AddressingMode::Indirect_X)),
            0x67 => Some(OpCode::new(0x67, "*RRA", 2, AddressingMode::ZeroPage)),
            0x6B => Some(OpCode::new(0x6B, "ARR", 2, AddressingMode::Immediate)),
            0x6F => Some(OpCode::new(0x6F, "*RRA", 3, AddressingMode::Absolute)),
            0x73 => Some(OpCode::new(0x73, "*RRA", 2, AddressingMode::Indirect_Y)),
            0x77 => Some(OpCode::new(0x77, "*RRA", 2, AddressingMode::ZeroPage_X)),
            0x7B => Some(OpCode::new(0x7B, "*RRA", 3, AddressingMode::Absolute_Y)),
            0x7F => Some(OpCode::new(0x7F, "*RRA", 3, AddressingMode::Absolute_X)),
            0x83 => Some(OpCode::new(0x83, "*SAX", 2, AddressingMode::Indirect_X)),
            0x87 => Some(OpCode::new(0x87, "*SAX", 2, AddressingMode::ZeroPage)),
            0x8F => Some(OpCode::new(0x8F, "*SAX", 3, AddressingMode::Absolute)),
            0x93 => Some(OpCode::new(0x93, "*SHA", 2, AddressingMode::Indirect_Y)),
            0x97 => Some(OpCode::new(0x97, "*SAX", 2, AddressingMode::ZeroPage_Y)),
            0x9F => Some(OpCode::new(0x9F, "*SHA", 3, AddressingMode::Absolute_Y)),
            0xA3 => Some(OpCode::new(0xA3, "*LAX", 2, AddressingMode::Indirect_X)),
            0xA7 => Some(OpCode::new(0xA7, "*LAX", 2, AddressingMode::ZeroPage)),
            0xAF => Some(OpCode::new(0xAF, "*LAX", 3, AddressingMode::Absolute)),
            0xB3 => Some(OpCode::new(0xB3, "*LAX", 2, AddressingMode::Indirect_Y)),
            0xB7 => Some(OpCode::new(0xB7, "*LAX", 2, AddressingMode::ZeroPage_Y)),
            0xBF => Some(OpCode::new(0xBF, "*LAX", 3, AddressingMode::Absolute_Y)),
            0xC3 => Some(OpCode::new(0xC3, "*DCP", 2, AddressingMode::Indirect_X)),
            0xC7 => Some(OpCode::new(0xC7, "*DCP", 2, AddressingMode::ZeroPage)),
            0xCB => Some(OpCode::new(0xCB, "AXS", 2, AddressingMode::Immediate)),
            0xCF => Some(OpCode::new(0xCF, "*DCP", 3, AddressingMode::Absolute)),
            0xD3 => Some(OpCode::new(0xD3, "*DCP", 2, AddressingMode::Indirect_Y)),
            0xD7 => Some(OpCode::new(0xD7, "*DCP", 2, AddressingMode::ZeroPage_X)),
            0xDB => Some(OpCode::new(0xDB, "*DCP", 3, AddressingMode::Absolute_Y)),
            0xDF => Some(OpCode::new(0xDF, "*DCP", 3, AddressingMode::Absolute_X)),
            0xE3 => Some(OpCode::new(0xE3, "*ISB", 2, AddressingMode::Indirect_X)),
            0xE7 => Some(OpCode::new(0xE7, "*ISB", 2, AddressingMode::ZeroPage)),
            0xEB => Some(OpCode::new(0xEB, "*SBC", 2, AddressingMode::Immediate)),
            0xEF => Some(OpCode::new(0xEF, "*ISB", 3, AddressingMode::Absolute)),
            0xF3 => Some(OpCode::new(0xF3, "*ISB", 2, AddressingMode::Indirect_Y)),
            0xF7 => Some(OpCode::new(0xF7, "*ISB", 2, AddressingMode::ZeroPage_X)),
            0xFB => Some(OpCode::new(0xFB, "*ISB", 3, AddressingMode::Absolute_Y)),
            0xFF => Some(OpCode::new(0xFF, "*ISB", 3, AddressingMode::Absolute_X)),
            _ => None,
        }
    }
}

} // verus!
