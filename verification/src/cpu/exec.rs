//! The fetch, decode and execute loop.

use crate::cpu::decode::group_three_defined;
use crate::cpu::decode::group_two_defined;
use crate::cpu::decode::rmw_defined;
use crate::cpu::wrap16;
use crate::cpu::AddressingMode;
use crate::cpu::CpuState;
use crate::cpu::Mem;
use crate::cpu::CPU;
use crate::flags::CpuFlags;
use vstd::prelude::*;

verus! {

/// Why the processor stopped.
#[derive(Clone, Copy, Debug, PartialEq, Eq, Structural)]
pub enum Stop {
    /// The halt signal was set.
    HaltSignal,
    /// A BRK instruction was executed.
    Break,
    /// The program counter is on `0xFFFF` with interrupts disabled: the
    /// program has run into the end of the address space.
    EndOfProgram,
    /// The byte at the program counter is no instruction that the
    /// processor knows.
    UnknownOpcode(u8),
}

/// The address that ends a program when the processor reaches it with
/// interrupts disabled.
pub const END_OF_PROGRAM: u16 = 0xFFFF;

/// The most that one instruction can cost.
pub const MAX_INSTRUCTION_CYCLES: u8 = 8;

/// The opcode is one that the processor knows. It does not know the twelve
/// that jam the hardware, nor seven of the unofficial ones: the second
/// ANC, XAA, LXA, both SHA, TAS and LAS.
pub open spec fn is_implemented(op: u8) -> bool {
    !(op == 0x02 || op == 0x12 || op == 0x22 || op == 0x32 || op == 0x42 || op == 0x52 || op == 0x62
        || op == 0x72 || op == 0x92 || op == 0xB2 || op == 0xD2 || op == 0xF2 || op == 0x2B || op
        == 0x8B || op == 0xAB || op == 0x93 || op == 0x9B || op == 0x9F || op == 0xBB)
}

/// The opcode does nothing but skip its operand: an unofficial NOP.
pub open spec fn is_skip(op: u8) -> bool {
    skip_cycles(op) != 0
}

/// The cycles of an unofficial NOP with a fixed cost, 0 for other
/// opcodes.
pub open spec fn skip_cycles(op: u8) -> int {
    if op == 0x1A || op == 0x3A || op == 0x5A || op == 0x7A || op == 0xDA || op == 0xEA || op
        == 0xFA {
        2
    } else if op == 0x80 || op == 0x82 || op == 0x89 || op == 0xC2 || op == 0xE2 {
        2
    } else if op == 0x0C {
        4
    } else if op == 0x04 || op == 0x44 || op == 0x64 {
        3
    } else if op == 0x14 || op == 0x34 || op == 0x54 || op == 0x74 || op == 0xD4 || op == 0xF4 {
        4
    } else {
        0
    }
}

/// The operand bytes that such a NOP skips.
pub open spec fn skip_len(op: u8) -> int {
    if op == 0x1A || op == 0x3A || op == 0x5A || op == 0x7A || op == 0xDA || op == 0xEA || op
        == 0xFA {
        0
    } else if op == 0x0C {
        2
    } else {
        1
    }
}

/// The opcode is an unofficial NOP with an absolute, X-indexed operand.
pub open spec fn is_skip_absolute_x(op: u8) -> bool {
    op == 0x1C || op == 0x3C || op == 0x5C || op == 0x7C || op == 0xDC || op == 0xFC
}

/// The opcode is one of those that are picked out before the regular
/// decoding: the subroutine and interrupt instructions and the unofficial
/// opcodes that fit no pattern.
pub open spec fn is_special(op: u8) -> bool {
    op == 0x20 || op == 0x40 || op == 0x60 || is_skip(op) || is_skip_absolute_x(op) || op == 0x4B
        || op == 0x0B || op == 0x6B || op == 0xCB || op == 0xA3 || op == 0xA7 || op == 0xAF || op
        == 0xB3 || op == 0xB7 || op == 0xBF || op == 0x83 || op == 0x87 || op == 0x8F || op == 0x97
        || op == 0xEB
}

impl CpuState {
    /// An unofficial NOP: `cycles` cycles, `len` operand bytes skipped.
    pub open spec fn skip(self, cycles: int, len: int) -> CpuState {
        CpuState { pc: wrap16(self.pc + len), ..self.add_cycles(cycles) }
    }

    /// The unofficial NOP with an absolute, X-indexed operand: it costs
    /// what a load there would cost.
    #[verifier::opaque]
    pub open spec fn skip_absolute_x(self) -> CpuState {
        let (base, s) = self.read_u16(wrap16(self.pc + 1));
        let cost = s.group_one_cost(AddressingMode::Absolute_X, wrap16(base + self.x), false);
        CpuState { pc: wrap16(self.pc + 2), ..s.add_cycles(cost) }
    }

    /// ALR: AND with the operand, then a shift right of the operand where
    /// it stands.
    #[verifier::opaque]
    pub open spec fn alr(self) -> CpuState {
        let (addr, s) = self.add_cycles(2).operand_address(AddressingMode::Immediate);
        s.and(addr).lsr(addr, false)
    }

    /// ANC: AND with the operand, then Carry as Negative.
    #[verifier::opaque]
    pub open spec fn anc(self) -> CpuState {
        let (addr, s) = self.add_cycles(2).operand_address(AddressingMode::Immediate);
        let t = s.and(addr);
        t.with_flag(CpuFlags::CARRY, t.flags.has(CpuFlags::NEGATIVE))
    }

    /// ARR: a rotation to the right of the operand where it stands; then
    /// Carry is bit 5 of what is read back there, and Overflow says that
    /// its bits 5 and 4 differ.
    #[verifier::opaque]
    pub open spec fn arr(self) -> CpuState {
        let (addr, s) = self.add_cycles(2).operand_address(AddressingMode::Immediate);
        let (v, t) = s.ror(addr, false).read(addr);
        t.with_flag(CpuFlags::CARRY, v & 0x20 == 0x20).with_flag(
            CpuFlags::OVERFLOW,
            (v & 0x20 == 0x20) != (v & 0x10 == 0x10),
        )
    }

    /// AXS: X becomes the low byte of `(A & X)` less the address of the
    /// operand, and Carry says that no borrow was needed.
    #[verifier::opaque]
    pub open spec fn axs(self) -> CpuState {
        let (addr, s) = self.add_cycles(2).operand_address(AddressingMode::Immediate);
        let both = (s.x & s.a) as u16;
        let x = (wrap16(both - addr) % 0x100) as u8;
        CpuState { x, ..s }.with_flag(CpuFlags::CARRY, both >= addr).with_zn(x)
    }

    /// LAX (zp),Y: the operand is found twice, once to count the cycles
    /// and once to load it.
    #[verifier::opaque]
    pub open spec fn lax_indirect_y(self) -> CpuState {
        let (addr, s) = self.add_cycles(5).resolve(AddressingMode::Indirect_Y, self.pc);
        s.add_cycles(CpuState::page_penalty(wrap16(addr - self.y), addr, false)).lax(
            AddressingMode::Indirect_Y,
        )
    }

    /// The unofficial SBC.
    #[verifier::opaque]
    pub open spec fn sbc_immediate(self) -> CpuState {
        let (addr, s) = self.operand_address(AddressingMode::Immediate);
        s.add_cycles(2).sbc(addr)
    }

    /// One of the opcodes that are picked out before the regular decoding.
    #[verifier::opaque]
    pub open spec fn special(self, op: u8) -> CpuState {
        if op == 0x20 {
            self.jsr()
        } else if op == 0x40 {
            self.rti()
        } else if op == 0x60 {
            self.rts()
        } else if is_skip(op) {
            self.skip(skip_cycles(op), skip_len(op))
        } else if is_skip_absolute_x(op) {
            self.skip_absolute_x()
        } else if op == 0x4B {
            self.alr()
        } else if op == 0x0B {
            self.anc()
        } else if op == 0x6B {
            self.arr()
        } else if op == 0xCB {
            self.axs()
        } else if op == 0xA3 {
            self.add_cycles(6).lax(AddressingMode::Indirect_X)
        } else if op == 0xA7 {
            self.add_cycles(3).lax(AddressingMode::ZeroPage)
        } else if op == 0xAF {
            self.add_cycles(4).lax(AddressingMode::Absolute)
        } else if op == 0xB3 {
            self.lax_indirect_y()
        } else if op == 0xB7 {
            self.add_cycles(4).lax(AddressingMode::ZeroPage_Y)
        } else if op == 0xBF {
            self.add_cycles(4).lax(AddressingMode::Absolute_Y)
        } else if op == 0x83 {
            self.add_cycles(6).sax(AddressingMode::Indirect_X)
        } else if op == 0x87 {
            self.add_cycles(3).sax(AddressingMode::ZeroPage)
        } else if op == 0x8F {
            self.add_cycles(4).sax(AddressingMode::Absolute)
        } else if op == 0x97 {
            self.add_cycles(4).sax(AddressingMode::ZeroPage_Y)
        } else {
            self.sbc_immediate()
        }
    }

    /// An opcode decoded by its bit pattern: by low nibble the single-byte
    /// instructions and the unofficial read-modify-write family, by the
    /// two low bits the three groups.
    #[verifier::opaque]
    pub open spec fn regular(self, op: u8) -> CpuState {
        let high = op / 16;
        let low = op % 16;
        let aaa = op / 32;
        let bbb = (op / 4) % 8;
        let cc = op % 4;
        if low == 0x8 {
            self.sb_one(high)
        } else if low == 0xA && high >= 0x8 {
            self.sb_two(high)
        } else if low == 0x3 || low == 0x7 || low == 0xF || low == 0xB {
            self.rmw(high, low)
        } else if cc == 1 {
            self.group_one(aaa, bbb)
        } else if cc == 2 {
            self.group_two(aaa, bbb, op)
        } else {
            self.group_three(aaa, bbb)
        }
    }

    /// The instruction with opcode `op`, other than BRK, executed with the
    /// program counter on the opcode. The program counter is left on the
    /// instruction's last byte, or one below where a jump goes.
    #[verifier::opaque]
    pub open spec fn dispatch(self, op: u8) -> CpuState {
        if is_special(op) {
            self.special(op)
        } else {
            self.regular(op)
        }
    }

    /// The program counter is where programs end, and interrupts are
    /// disabled.
    pub open spec fn at_end_of_program(self) -> bool {
        self.pc == END_OF_PROGRAM && self.flags.has(CpuFlags::INTERRUPT_DISABLE)
    }

    /// The bus told of the cycles of the instruction just executed.
    pub open spec fn forward_cycles(self) -> CpuState {
        CpuState { bus: self.bus.tick(self.cycles), ..self }
    }

    /// One instruction: why the processor stops, if it does, and the
    /// processor after it.
    ///
    /// The cycle count starts at 0. At the end of a program nothing is
    /// executed. Else the opcode is read; an unknown one stops the
    /// processor where it is. A known one is executed and its cycles are
    /// told to the bus. BRK then stops the processor at the address from
    /// the break vector; an instruction that ends where programs end
    /// stops it there; after any other the program counter moves on to
    /// the next opcode.
    #[verifier::opaque]
    pub open spec fn execute(self) -> (Option<Stop>, CpuState) {
        let start = CpuState { cycles: 0, ..self };
        if start.at_end_of_program() {
            (Some(Stop::EndOfProgram), start)
        } else {
            let (op, fetched) = start.read(start.pc);
            if !is_implemented(op) {
                (Some(Stop::UnknownOpcode(op)), fetched)
            } else if op == 0x00 {
                (Some(Stop::Break), fetched.brk().forward_cycles())
            } else {
                let done = fetched.dispatch(op).forward_cycles();
                if done.at_end_of_program() {
                    (Some(Stop::EndOfProgram), done)
                } else {
                    (None, CpuState { pc: wrap16(done.pc + 1), ..done })
                }
            }
        }
    }

    /// Whether an interrupt is requested.
    pub open spec fn nmi_pending(self) -> bool {
        self.bus.ppu.nmi is Some
    }

    /// The request taken and the interrupt serviced.
    pub open spec fn service_nmi(self) -> CpuState {
        CpuState { bus: self.bus.nmi_taken(), ..self }.interrupt_nmi()
    }

    /// One turn of the loop: a requested interrupt is serviced in place of
    /// an instruction; else the halt signal stops the processor; else one
    /// instruction is executed.
    #[verifier::opaque]
    pub open spec fn step(self) -> (Option<Stop>, CpuState) {
        if self.nmi_pending() {
            (None, self.service_nmi())
        } else if self.halted {
            (Some(Stop::HaltSignal), self)
        } else {
            self.execute()
        }
    }

    /// At most `limit` turns of the loop, up to the first that stops the
    /// processor; `None` if none of them does.
    pub open spec fn run_steps(self, limit: nat) -> (Option<Stop>, CpuState)
        decreases limit,
    {
        if limit == 0 {
            (None, self)
        } else {
            let (stop, next) = self.step();
            if stop is Some {
                (stop, next)
            } else {
                next.run_steps((limit - 1) as nat)
            }
        }
    }
}

/// The opcode is one that the processor knows.
pub fn implemented(op: u8) -> (known: bool)
    ensures
        known == is_implemented(op),
{
    match op {
        0x02 | 0x12 | 0x22 | 0x32 | 0x42 | 0x52 | 0x62 | 0x72 | 0x92 | 0xB2 | 0xD2 | 0xF2 => false,
        0x2B | 0x8B | 0xAB | 0x93 | 0x9B | 0x9F | 0xBB => false,
        _ => true,
    }
}

impl CPU {
    /// An unofficial NOP.
    fn skip(&mut self, cycles: u8, len: u16)
        requires
            old(self).cycles + cycles <= u8::MAX,
        ensures
            final(self)@ == old(self)@.skip(cycles as int, len as int),
    {
        self.add_cycles(cycles);
        self.pc = self.pc.wrapping_add(len);
    }

    fn skip_absolute_x(&mut self)
        requires
            old(self).wf(),
            old(self).cycles + 6 <= u8::MAX,
        ensures
            final(self).wf(),
            final(self)@ == old(self)@.skip_absolute_x(),
            final(self).cycles <= old(self).cycles + 6,
    {
        reveal(CpuState::skip_absolute_x);
        let init_addr = self.mem_read_u16(self.pc.wrapping_add(1));
        self.g1_cycles(&AddressingMode::Absolute_X, init_addr.wrapping_add(self.x as u16), false);
        self.pc = self.pc.wrapping_add(2)
    }

    fn alr(&mut self)
        requires
            old(self).wf(),
            old(self).cycles + 2 <= u8::MAX,
        ensures
            final(self).wf(),
            final(self)@ == old(self)@.alr(),
            final(self).cycles == old(self).cycles + 2,
    {
        reveal(CpuState::alr);
        self.add_cycles(2);
        let addr = self.get_operand_address(&AddressingMode::Immediate);
        self.and(addr);
        self.lsr(addr, false);
    }

    fn anc(&mut self)
        requires
            old(self).wf(),
            old(self).cycles + 2 <= u8::MAX,
        ensures
            final(self).wf(),
            final(self)@ == old(self)@.anc(),
            final(self).cycles == old(self).cycles + 2,
    {
        reveal(CpuState::anc);
        self.add_cycles(2);
        let addr = self.get_operand_address(&AddressingMode::Immediate);
        self.and(addr);
        let negative = self.flags.contains(CpuFlags::NEGATIVE);
        self.flags.set(CpuFlags::CARRY, negative);
    }

    fn arr(&mut self)
        requires
            old(self).wf(),
            old(self).cycles + 2 <= u8::MAX,
        ensures
            final(self).wf(),
            final(self)@ == old(self)@.arr(),
            final(self).cycles == old(self).cycles + 2,
    {
        reveal(CpuState::arr);
        self.add_cycles(2);
        let addr = self.get_operand_address(&AddressingMode::Immediate);
        self.ror(addr, false);
        let new_val = self.mem_read(addr);
        let sixth = new_val & 0x20 == 0x20;
        let fifth = new_val & 0x10 == 0x10;
        self.flags.set(CpuFlags::CARRY, sixth);
        self.flags.set(CpuFlags::OVERFLOW, sixth != fifth);
    }

    fn axs(&mut self)
        requires
            old(self).wf(),
            old(self).cycles + 2 <= u8::MAX,
        ensures
            final(self).wf(),
            final(self)@ == old(self)@.axs(),
            final(self).cycles == old(self).cycles + 2,
    {
        reveal(CpuState::axs);
        self.add_cycles(2);
        let addr = self.get_operand_address(&AddressingMode::Immediate);
        let result = (self.x & self.a) as u16;
        let sub = result.wrapping_sub(addr);
        self.x = (sub % 0x100) as u8;
        self.flags.set(CpuFlags::CARRY, result >= addr);
        self.zero_negative_flag(self.x);
    }

    fn lax_indirect_y(&mut self)
        requires
            old(self).wf(),
            old(self).cycles + 6 <= u8::MAX,
        ensures
            final(self).wf(),
            final(self)@ == old(self)@.lax_indirect_y(),
            final(self).cycles <= old(self).cycles + 6,
    {
        reveal(CpuState::lax_indirect_y);
        self.add_cycles(5);
        let new_address = self.get_relative_address(&AddressingMode::Indirect_Y, self.pc);
        let old_address = new_address.wrapping_sub(self.y as u16);
        self.check_page_cross(old_address, new_address, false);
        self.lax(&AddressingMode::Indirect_Y);
    }

    fn sbc_immediate(&mut self)
        requires
            old(self).wf(),
            old(self).cycles + 2 <= u8::MAX,
        ensures
            final(self).wf(),
            final(self)@ == old(self)@.sbc_immediate(),
            final(self).cycles == old(self).cycles + 2,
    {
        reveal(CpuState::sbc_immediate);
        let addr = self.get_operand_address(&AddressingMode::Immediate);
        self.add_cycles(2);
        self.sbc(addr);
    }

    /// Adds the cycles of an unofficial load or store and runs it.
    fn lax_with(&mut self, cycles: u8, mode: AddressingMode)
        requires
            old(self).wf(),
            mode.addressable(),
            old(self).cycles + cycles <= u8::MAX,
        ensures
            final(self).wf(),
            final(self)@ == old(self)@.add_cycles(cycles as int).lax(mode),
            final(self).cycles == old(self).cycles + cycles,
    {
        self.add_cycles(cycles);
        self.lax(&mode);
    }

    fn sax_with(&mut self, cycles: u8, mode: AddressingMode)
        requires
            old(self).wf(),
            mode.addressable(),
            old(self).cycles + cycles <= u8::MAX,
        ensures
            final(self).wf(),
            final(self)@ == old(self)@.add_cycles(cycles as int).sax(mode),
            final(self).cycles == old(self).cycles + cycles,
    {
        self.add_cycles(cycles);
        self.sax(&mode);
    }

    /// Executes an opcode that is picked out before the regular decoding.
    fn special(&mut self, op: u8)
        requires
            old(self).wf(),
            is_special(op),
            old(self).cycles == 0,
        ensures
            final(self).wf(),
            final(self)@ == old(self)@.special(op),
            final(self).cycles <= MAX_INSTRUCTION_CYCLES,
    {
        reveal(CpuState::special);
        match op {
            0x20 => self.jsr(),
            0x40 => self.rti(),
            0x60 => self.rts(),
            0x1A | 0x3A | 0x5A | 0x7A | 0xDA | 0xEA | 0xFA => self.skip(2, 0),
            0x80 | 0x82 | 0x89 | 0xC2 | 0xE2 => self.skip(2, 1),
            0x0c => self.skip(4, 2),
            0x1C | 0x3C | 0x5C | 0x7C | 0xDC | 0xFC => self.skip_absolute_x(),
            0x04 | 0x44 | 0x64 => self.skip(3, 1),
            0x14 | 0x34 | 0x54 | 0x74 | 0xD4 | 0xF4 => self.skip(4, 1),
            0x4b => self.alr(),
            0x0b => self.anc(),
            0x6b => self.arr(),
            0xCB => self.axs(),
            0xA3 => self.lax_with(6, AddressingMode::Indirect_X),
            0xA7 => self.lax_with(3, AddressingMode::ZeroPage),
            0xAF => self.lax_with(4, AddressingMode::Absolute),
            0xB3 => self.lax_indirect_y(),
            0xb7 => self.lax_with(4, AddressingMode::ZeroPage_Y),
            0xbf => self.lax_with(4, AddressingMode::Absolute_Y),
            0x83 => self.sax_with(6, AddressingMode::Indirect_X),
            0x87 => self.sax_with(3, AddressingMode::ZeroPage),
            0x8F => self.sax_with(4, AddressingMode::Absolute),
            0x97 => self.sax_with(4, AddressingMode::ZeroPage_Y),
            _ => self.sbc_immediate(),
        }
    }

    /// Whether the opcode is picked out before the regular decoding.
    fn special_opcode(op: u8) -> (special: bool)
        ensures
            special == is_special(op),
    {
        match op {
            0x20 | 0x40 | 0x60 => true,
            0x1A | 0x3A | 0x5A | 0x7A | 0xDA | 0xEA | 0xFA => true,
            0x80 | 0x82 | 0x89 | 0xC2 | 0xE2 => true,
            0x0c | 0x04 | 0x44 | 0x64 => true,
            0x1C | 0x3C | 0x5C | 0x7C | 0xDC | 0xFC => true,
            0x14 | 0x34 | 0x54 | 0x74 | 0xD4 | 0xF4 => true,
            0x4b | 0x0b | 0x6b | 0xCB | 0xEB => true,
            0xA3 | 0xA7 | 0xAF | 0xB3 | 0xb7 | 0xbf => true,
            0x83 | 0x87 | 0x8F | 0x97 => true,
            _ => false,
        }
    }

    /// Executes an opcode by its bit pattern.
    fn regular(&mut self, op: u8)
        requires
            old(self).wf(),
            is_implemented(op),
            !is_special(op),
            op != 0x00,
            old(self).cycles == 0,
        ensures
            final(self).wf(),
            final(self)@ == old(self)@.regular(op),
            final(self).cycles <= MAX_INSTRUCTION_CYCLES,
    {
        reveal(CpuState::regular);
        let highnibble = op / 16;
        let lownibble = op % 16;
        let aaa = op / 32;
        let bbb = (op / 4) % 8;
        let cc = op % 4;
        if lownibble == 0x8 {
            self.sb_one(highnibble);
        } else if lownibble == 0xA && highnibble >= 0x8 {
            self.sb_two(highnibble);
        } else if lownibble == 0x3 || lownibble == 0x7 || lownibble == 0xF || lownibble == 0xB {
            assert(rmw_defined(highnibble, lownibble));
            self.rmw(highnibble, lownibble);
        } else if cc == 0b01 {
            self.group_one(aaa, bbb, cc);
        } else if cc == 0b10 {
            assert(group_two_defined(aaa, bbb, op));
            self.group_two(aaa, bbb, cc, op);
        } else {
            assert(group_three_defined(aaa, bbb));
            self.group_three(aaa, bbb, cc);
        }
    }

    /// Executes the instruction with opcode `op`, which is not BRK.
    pub fn dispatch(&mut self, op: u8)
        requires
            old(self).wf(),
            is_implemented(op),
            op != 0x00,
            old(self).cycles == 0,
        ensures
            final(self).wf(),
            final(self)@ == old(self)@.dispatch(op),
            final(self).cycles <= MAX_INSTRUCTION_CYCLES,
    {
        reveal(CpuState::dispatch);
        if CPU::special_opcode(op) {
            self.special(op);
        } else {
            self.regular(op);
        }
    }

    /// Executes the instruction at the program counter, and says why the
    /// processor stops, if it does.
    pub fn execute(&mut self) -> (stop: Option<Stop>)
        requires
            old(self).wf(),
        ensures
            final(self).wf(),
            (stop, final(self)@) == old(self)@.execute(),
    {
        reveal(CpuState::execute);
        self.reset_cycles();
        if self.pc == END_OF_PROGRAM && self.flags.contains(CpuFlags::INTERRUPT_DISABLE) {
            return Some(Stop::EndOfProgram);
        }
        let op = self.mem_read(self.pc);
        if !implemented(op) {
            return Some(Stop::UnknownOpcode(op));
        }
        if op == 0x00 {
            self.brk();
            self.bus.tick(self.cycles);
            return Some(Stop::Break);
        }
        self.dispatch(op);
        self.bus.tick(self.cycles);
        if self.pc == END_OF_PROGRAM && self.flags.contains(CpuFlags::INTERRUPT_DISABLE) {
            return Some(Stop::EndOfProgram);
        }
        self.pc = self.pc.wrapping_add(1);
        None
    }

    /// Services the interrupt that the picture processor requests, if it
    /// requests one, and says whether it did.
    pub fn service_nmi(&mut self) -> (serviced: bool)
        requires
            old(self).wf(),
        ensures
            final(self).wf(),
            serviced == old(self)@.nmi_pending(),
            serviced ==> final(self)@ == old(self)@.service_nmi(),
            !serviced ==> final(self)@ == old(self)@,
    {
        if let Some(_nmi) = self.bus.poll_nmi_status() {
            self.interrupt_nmi();
            true
        } else {
            false
        }
    }

    /// One turn of the loop: services an interrupt or executes an
    /// instruction, and says why the processor stops, if it does.
    pub fn step(&mut self) -> (stop: Option<Stop>)
        requires
            old(self).wf(),
        ensures
            final(self).wf(),
            (stop, final(self)@) == old(self)@.step(),
    {
        reveal(CpuState::step);
        if self.service_nmi() {
            None
        } else if self.halted {
            Some(Stop::HaltSignal)
        } else {
            self.execute()
        }
    }

    /// Runs until the processor stops, but for `limit` turns of the loop
    /// at most, and says why it stopped; `None` if it has not.
    pub fn run_steps(&mut self, limit: u64) -> (stop: Option<Stop>)
        requires
            old(self).wf(),
        ensures
            final(self).wf(),
            (stop, final(self)@) == old(self)@.run_steps(limit as nat),
    {
        let mut left = limit;
        while left > 0
            invariant
                self.wf(),
                old(self)@.run_steps(limit as nat) == self@.run_steps(left as nat),
            decreases left,
        {
            let stop = self.step();
            if stop.is_some() {
                return stop;
            }
            left = left - 1;
        }
        None
    }

    /// Runs until the processor stops, and says why. A program that has
    /// not stopped after `u64::MAX` turns of the loop is given up: the
    /// answer is then `None`.
    pub fn run(&mut self) -> (stop: Option<Stop>)
        requires
            old(self).wf(),
        ensures
            final(self).wf(),
            (stop, final(self)@) == old(self)@.run_steps(u64::MAX as nat),
    {
        self.run_steps(u64::MAX)
    }

    /// Loads a program, resets the processor and runs the program.
    pub fn load_and_run(&mut self, program: Vec<u8>) -> (stop: Option<Stop>)
        requires
            old(self).wf(),
        ensures
            final(self).wf(),
            (stop, final(self)@) == old(self)@.load(program@).reset().run_steps(u64::MAX as nat),
    {
        self.load(program);
        self.reset();
        self.run()
    }
}

} // verus!
