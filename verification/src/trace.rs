//! One line of text for the instruction that the processor is about to
//! execute, in the format of the reference logs: address, bytes, the
//! instruction read back, registers, and the clocks.

use crate::cpu::alu::signed;
use crate::cpu::wrap16;
use crate::cpu::wrap8;
use crate::cpu::AddressingMode;
use crate::cpu::CpuState;
use crate::cpu::CPU;
use crate::op::table_row;
use crate::op::OpCode;
use crate::text::decimal;
use crate::text::hex_byte;
use crate::text::hex_number;
use crate::text::hex_word;
use crate::text::pad_left;
use crate::text::pad_right;
use crate::text::push_decimal;
use crate::text::push_hex_byte;
use crate::text::push_hex_number;
use crate::text::push_hex_word;
use crate::text::push_padded_left;
use crate::text::push_padded_right;
use vstd::prelude::*;

verus! {

/// The first `n` bytes at the program counter in hexadecimal, with a space
/// between each two.
pub open spec fn raw_bytes(s: CpuState, n: nat) -> Seq<char>
    decreases n,
{
    if n == 0 {
        Seq::empty()
    } else if n == 1 {
        hex_byte(s.bus.read_value(s.pc))
    } else {
        raw_bytes(s, (n - 1) as nat) + " "@ + hex_byte(s.bus.read_value(wrap16(s.pc + n - 1)))
    }
}

/// Where the branch at the program counter goes if it is taken: its
/// offset, read as a signed byte, from the instruction that follows.
pub open spec fn branch_target(s: CpuState) -> u16 {
    let relative = signed(s.bus.read_value(wrap16(s.pc + 1))) + 2;
    wrap16(
        s.pc + if relative > 127 {
            relative - 256
        } else {
            relative
        },
    )
}

/// The operand of the instruction at the program counter, as the
/// assembler writes it, with the address it resolves to and the byte
/// found there.
pub open spec fn operand_text(s: CpuState, row: OpCode) -> Seq<char> {
    let bus = s.bus;
    let addr = s.peek_address(row.mode, s.pc);
    let first = bus.read_value(wrap16(s.pc + 1));
    let word = bus.peek_u16(wrap16(s.pc + 1));
    let value = bus.read_value(addr);
    match row.mode {
        AddressingMode::Accumulator => "A"@,
        AddressingMode::Immediate => "#$"@ + hex_byte(value),
        AddressingMode::ZeroPage => "$"@ + hex_byte(addr as u8) + " = "@ + hex_byte(value),
        AddressingMode::Absolute => if row.code == 0x4C || row.code == 0x20 {
            "$"@ + hex_word(addr)
        } else {
            "$"@ + hex_word(addr) + " = "@ + hex_byte(value)
        },
        AddressingMode::ZeroPage_X => "$"@ + hex_byte(first) + ",X @ "@ + hex_byte(addr as u8)
            + " = "@ + hex_byte(value),
        AddressingMode::ZeroPage_Y => "$"@ + hex_byte(first) + ",Y @ "@ + hex_byte(addr as u8)
            + " = "@ + hex_byte(value),
        AddressingMode::Absolute_X => "$"@ + hex_word(word) + ",X @ "@ + hex_word(addr) + " = "@
            + hex_byte(value),
        AddressingMode::Absolute_Y => "$"@ + hex_word(word) + ",Y @ "@ + hex_word(addr) + " = "@
            + hex_byte(value),
        AddressingMode::Indirect => "($"@ + hex_word(word) + ") = "@ + hex_word(addr),
        AddressingMode::Indirect_X => "($"@ + hex_byte(first) + ",X) @ "@ + hex_byte(
            wrap8(first + s.x),
        ) + " = "@ + hex_word(addr) + " = "@ + hex_byte(value),
        AddressingMode::Indirect_Y => "($"@ + hex_byte(first) + "),Y = "@ + hex_word(
            wrap16(addr - s.y),
        ) + " @ "@ + hex_word(addr) + " = "@ + hex_byte(value),
        AddressingMode::Relative => "$"@ + pad_left(hex_number(branch_target(s) as nat), 4),
        AddressingMode::NoneAddressing => Seq::empty(),
    }
}

/// The registers: `A:.. X:.. Y:.. P:.. SP:..`.
pub open spec fn registers_text(s: CpuState) -> Seq<char> {
    "A:"@ + hex_byte(s.a) + " X:"@ + hex_byte(s.x) + " Y:"@ + hex_byte(s.y) + " P:"@ + hex_byte(
        s.flags.bits,
    ) + " SP:"@ + hex_byte(s.sp)
}

/// The clocks: scanline and dot of the picture processor, three columns
/// each, and the cycles of the processor.
pub open spec fn clocks_text(s: CpuState) -> Seq<char> {
    "PPU:"@ + pad_left(decimal(s.bus.ppu.scanline as nat), 3) + ","@ + pad_left(
        decimal(s.bus.ppu.dots as nat),
        3,
    ) + " CYC:"@ + decimal(s.bus.cycles as nat)
}

/// The columns that the bytes and the instruction get: a mnemonic with a
/// star is written one column further left.
pub open spec fn column_widths(row: OpCode) -> (nat, nat) {
    if row.lit@.len() == 3 {
        (10, 32)
    } else {
        (9, 33)
    }
}

/// The line for the instruction with the given row of the table.
pub open spec fn trace_row(s: CpuState, row: OpCode) -> Seq<char> {
    pad_right(hex_word(s.pc), 6) + pad_right(raw_bytes(s, row.len as nat), column_widths(row).0)
        + pad_right(row.lit@ + " "@ + operand_text(s, row), column_widths(row).1) + registers_text(
        s,
    ) + " "@ + clocks_text(s)
}

/// The line for the instruction at the program counter, if the table of
/// opcodes knows it.
pub open spec fn trace_line(s: CpuState) -> Option<Seq<char>> {
    match table_row(s.bus.read_value(s.pc)) {
        Some(row) => Some(trace_row(s, row)),
        None => None,
    }
}

/// The first `n` bytes at the program counter, in hexadecimal.
fn raw_text(cpu: &CPU, n: u8) -> (out: String)
    ensures
        out@ == raw_bytes(cpu@, n as nat),
{
    let mut out = String::new();
    let mut i: u8 = 0;
    while i < n
        invariant
            i <= n,
            out@ == raw_bytes(cpu@, i as nat),
        decreases n - i,
    {
        if i > 0 {
            out.append(" ");
        }
        push_hex_byte(&mut out, cpu.bus.peek(cpu.pc.wrapping_add(i as u16)));
        i += 1;
        assert(out@ =~= raw_bytes(cpu@, i as nat));
    }
    out
}

/// Where the branch at the program counter goes if it is taken.
fn branch_address(cpu: &CPU) -> (target: u16)
    ensures
        target == branch_target(cpu@),
{
    let offset = cpu.bus.peek(cpu.pc.wrapping_add(1));
    if offset >= 0x80 {
        // -128 to -1, and two more: never above 127
        cpu.pc.wrapping_add(offset as u16 + 2).wrapping_sub(0x100)
    } else if offset >= 126 {
        // 126 and 127 wrap round to -128 and -127
        cpu.pc.wrapping_add(offset as u16 + 2).wrapping_sub(0x100)
    } else {
        cpu.pc.wrapping_add(offset as u16 + 2)
    }
}

/// The operand of the instruction at the program counter.
fn operand(cpu: &CPU, row: &OpCode) -> (out: String)
    ensures
        out@ == operand_text(cpu@, *row),
{
    let mut out = String::new();
    let next = cpu.pc.wrapping_add(1);
    let addr = cpu.peek_relative_address(&row.mode, cpu.pc);
    match row.mode {
        AddressingMode::Accumulator => {
            out.append("A");
        },
        AddressingMode::Immediate => {
            out.append("#$");
            push_hex_byte(&mut out, cpu.bus.peek(addr));
        },
        AddressingMode::ZeroPage => {
            out.append("$");
            push_hex_byte(&mut out, addr as u8);
            out.append(" = ");
            push_hex_byte(&mut out, cpu.bus.peek(addr));
        },
        AddressingMode::Absolute => {
            out.append("$");
            push_hex_word(&mut out, addr);
            if !(row.code == 0x4C || row.code == 0x20) {
                out.append(" = ");
                push_hex_byte(&mut out, cpu.bus.peek(addr));
            }
        },
        AddressingMode::ZeroPage_X => {
            out.append("$");
            push_hex_byte(&mut out, cpu.bus.peek(next));
            out.append(",X @ ");
            push_hex_byte(&mut out, addr as u8);
            out.append(" = ");
            push_hex_byte(&mut out, cpu.bus.peek(addr));
        },
        AddressingMode::ZeroPage_Y => {
            out.append("$");
            push_hex_byte(&mut out, cpu.bus.peek(next));
            out.append(",Y @ ");
            push_hex_byte(&mut out, addr as u8);
            out.append(" = ");
            push_hex_byte(&mut out, cpu.bus.peek(addr));
        },
        AddressingMode::Absolute_X => {
            out.append("$");
            push_hex_word(&mut out, cpu.bus.peek_u16(next));
            out.append(",X @ ");
            push_hex_word(&mut out, addr);
            out.append(" = ");
            push_hex_byte(&mut out, cpu.bus.peek(addr));
        },
        AddressingMode::Absolute_Y => {
            out.append("$");
            push_hex_word(&mut out, cpu.bus.peek_u16(next));
            out.append(",Y @ ");
            push_hex_word(&mut out, addr);
            out.append(" = ");
            push_hex_byte(&mut out, cpu.bus.peek(addr));
        },
        AddressingMode::Indirect => {
            out.append("($");
            push_hex_word(&mut out, cpu.bus.peek_u16(next));
            out.append(") = ");
            push_hex_word(&mut out, addr);
        },
        AddressingMode::Indirect_X => {
            out.append("($");
            push_hex_byte(&mut out, cpu.bus.peek(next));
            out.append(",X) @ ");
            push_hex_byte(&mut out, cpu.bus.peek(next).wrapping_add(cpu.x));
            out.append(" = ");
            push_hex_word(&mut out, addr);
            out.append(" = ");
            push_hex_byte(&mut out, cpu.bus.peek(addr));
        },
        AddressingMode::Indirect_Y => {
            out.append("($");
            push_hex_byte(&mut out, cpu.bus.peek(next));
            out.append("),Y = ");
            push_hex_word(&mut out, addr.wrapping_sub(cpu.y as u16));
            out.append(" @ ");
            push_hex_word(&mut out, addr);
            out.append(" = ");
            push_hex_byte(&mut out, cpu.bus.peek(addr));
        },
        AddressingMode::Relative => {
            let mut target = String::new();
            push_hex_number(&mut target, branch_address(cpu));
            assert(target@ =~= hex_number(branch_target(cpu@) as nat));
            out.append("$");
            push_padded_left(&mut out, target.as_str(), 4);
        },
        AddressingMode::NoneAddressing => {},
    }
    assert(out@ =~= operand_text(cpu@, *row));
    out
}

/// The registers of the processor.
fn registers(cpu: &CPU) -> (out: String)
    ensures
        out@ == registers_text(cpu@),
{
    let mut out = String::new();
    out.append("A:");
    push_hex_byte(&mut out, cpu.a);
    out.append(" X:");
    push_hex_byte(&mut out, cpu.x);
    out.append(" Y:");
    push_hex_byte(&mut out, cpu.y);
    out.append(" P:");
    push_hex_byte(&mut out, cpu.flags.bits());
    out.append(" SP:");
    push_hex_byte(&mut out, cpu.sp);
    assert(out@ =~= registers_text(cpu@));
    out
}

/// The clocks of the picture processor and of the processor.
fn clocks(cpu: &CPU) -> (out: String)
    ensures
        out@ == clocks_text(cpu@),
{
    let mut scanline = String::new();
    push_decimal(&mut scanline, cpu.bus.ppu.scanline as usize);
    assert(scanline@ =~= decimal(cpu.bus.ppu.scanline as nat));
    let mut dots = String::new();
    push_decimal(&mut dots, cpu.bus.ppu.cycles);
    assert(dots@ =~= decimal(cpu.bus.ppu.cycles as nat));
    let mut out = String::new();
    out.append("PPU:");
    push_padded_left(&mut out, scanline.as_str(), 3);
    out.append(",");
    push_padded_left(&mut out, dots.as_str(), 3);
    out.append(" CYC:");
    push_decimal(&mut out, cpu.bus.cycles);
    assert(out@ =~= clocks_text(cpu@));
    out
}

/// Describes the instruction at the program counter and the state of the
/// processor in one line, without changing anything: memory is looked at,
/// not read. `None` if the table of opcodes does not know the
/// instruction.
pub fn trace(cpu: &CPU) -> (line: Option<String>)
    ensures
        line is Some == trace_line(cpu@) is Some,
        line is Some ==> line->Some_0@ == trace_line(cpu@)->Some_0,
{
    let pc = cpu.pc;
    let instr = cpu.bus.peek(pc);
    let row = match OpCode::lookup(instr) {
        Some(row) => row,
        None => {
            return None;
        },
    };
    let mut address = String::new();
    push_hex_word(&mut address, pc);
    assert(address@ =~= hex_word(pc));
    let raw = raw_text(cpu, row.len);

    let mut instruction = String::new();
    instruction.append(row.lit);
    instruction.append(" ");
    let operand = operand(cpu, &row);
    instruction.append(operand.as_str());
    assert(instruction@ =~= row.lit@ + " "@ + operand_text(cpu@, row));

    let wide = row.lit.unicode_len() == 3;
    let mut out = String::new();
    push_padded_right(&mut out, address.as_str(), 6);
    push_padded_right(
        &mut out,
        raw.as_str(),
        if wide {
            10
        } else {
            9
        },
    );
    push_padded_right(
        &mut out,
        instruction.as_str(),
        if wide {
            32
        } else {
            33
        },
    );
    let registers = registers(cpu);
    out.append(registers.as_str());
    out.append(" ");
    let clocks = clocks(cpu);
    out.append(clocks.as_str());
    assert(out@ =~= trace_row(cpu@, row));
    Some(out)
}

} // verus!
