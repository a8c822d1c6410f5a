//! What each instruction does to the processor, once its operand is found.

use crate::cpu::alu;
use crate::cpu::wrap16;
use crate::cpu::wrap8;
use crate::cpu::AddressingMode;
use crate::cpu::CpuState;
use crate::cpu::Mem;
use crate::cpu::BRK_VECTOR;
use crate::cpu::CPU;
use crate::cpu::NMI_VECTOR;
use crate::flags::CpuFlags;
use vstd::prelude::*;

verus! {

/// The cycles between an interrupt request and its handler.
pub const INTERRUPT_LATENCY: u8 = 2;

impl CpuState {
    pub open spec fn carry(self) -> bool {
        self.flags.has(CpuFlags::CARRY)
    }

    // ----- loads and stores -----
    pub open spec fn lda(self, addr: u16) -> CpuState {
        let (v, s) = self.read(addr);
        CpuState { a: v, ..s }.with_zn(v)
    }

    pub open spec fn ldx(self, addr: u16) -> CpuState {
        let (v, s) = self.read(addr);
        CpuState { x: v, ..s }.with_zn(v)
    }

    pub open spec fn ldy(self, addr: u16) -> CpuState {
        let (v, s) = self.read(addr);
        CpuState { y: v, ..s }.with_zn(v)
    }

    pub open spec fn sta(self, addr: u16) -> CpuState {
        self.write(addr, self.a)
    }

    pub open spec fn stx(self, addr: u16) -> CpuState {
        self.write(addr, self.x)
    }

    pub open spec fn sty(self, addr: u16) -> CpuState {
        self.write(addr, self.y)
    }

    // ----- logic -----
    pub open spec fn ora(self, addr: u16) -> CpuState {
        let (v, s) = self.read(addr);
        CpuState { a: self.a | v, ..s }.with_zn(self.a | v)
    }

    pub open spec fn and(self, addr: u16) -> CpuState {
        let (v, s) = self.read(addr);
        CpuState { a: self.a & v, ..s }.with_zn(self.a & v)
    }

    pub open spec fn eor(self, addr: u16) -> CpuState {
        let (v, s) = self.read(addr);
        CpuState { a: self.a ^ v, ..s }.with_zn(self.a ^ v)
    }

    /// BIT: Zero says that the accumulator and the operand share no bit;
    /// Overflow and Negative are bits 6 and 7 of the operand. The
    /// accumulator stays.
    pub open spec fn bit(self, addr: u16) -> CpuState {
        let (v, s) = self.read(addr);
        CpuState {
            flags: self.flags.with(CpuFlags::ZERO, self.a & v == 0).with(
                CpuFlags::OVERFLOW,
                v & 0x40 == 0x40,
            ).with(CpuFlags::NEGATIVE, v >= 0x80),
            ..s
        }
    }

    // ----- arithmetic -----
    /// The accumulator and the flags after a result of the arithmetic unit
    /// was taken over.
    pub open spec fn take(self, r: alu::AluResult) -> CpuState {
        CpuState {
            a: r.value,
            flags: self.flags.with(CpuFlags::CARRY, r.carry).with(
                CpuFlags::OVERFLOW,
                r.overflow,
            ).with_zn(r.value),
            ..self
        }
    }

    pub open spec fn add_to_a(self, val: u8) -> CpuState {
        self.take(alu::adc(self.a, val, self.carry()))
    }

    pub open spec fn adc(self, addr: u16) -> CpuState {
        let (v, s) = self.read(addr);
        s.take(alu::adc(self.a, v, self.carry()))
    }

    pub open spec fn sbc(self, addr: u16) -> CpuState {
        let (v, s) = self.read(addr);
        s.take(alu::sbc(self.a, v, self.carry()))
    }

    /// A comparison of `val` with the byte at `addr`: Carry, Zero and
    /// Negative change, no register does.
    pub open spec fn compare(self, addr: u16, val: u8) -> CpuState {
        let (v, s) = self.read(addr);
        let (carry, zero, negative) = alu::compare_flags(val, v);
        CpuState {
            flags: self.flags.with(CpuFlags::CARRY, carry).with(CpuFlags::ZERO, zero).with(
                CpuFlags::NEGATIVE,
                negative,
            ),
            ..s
        }
    }

    pub open spec fn cmp(self, addr: u16) -> CpuState {
        self.compare(addr, self.a)
    }

    pub open spec fn cpx(self, addr: u16) -> CpuState {
        self.compare(addr, self.x)
    }

    pub open spec fn cpy(self, addr: u16) -> CpuState {
        self.compare(addr, self.y)
    }

    // ----- read, modify, write -----
    /// The byte that a shift or rotate works on: the accumulator, or the
    /// byte at `addr`.
    pub open spec fn shifted_operand(self, addr: u16, accum: bool) -> u8 {
        if accum {
            self.a
        } else {
            self.read(addr).0
        }
    }

    /// The processor after a shift or rotate put `value` back where its
    /// operand came from, with `carry` in Carry.
    pub open spec fn shifted(self, addr: u16, accum: bool, value: u8, carry: bool) -> CpuState {
        let s = if accum {
            CpuState { a: value, ..self }
        } else {
            self.read(addr).1.write(addr, value)
        };
        s.with_flag(CpuFlags::CARRY, carry).with_zn(value)
    }

    pub open spec fn asl(self, addr: u16, accum: bool) -> CpuState {
        let (value, carry) = alu::asl(self.shifted_operand(addr, accum));
        self.shifted(addr, accum, value, carry)
    }

    pub open spec fn lsr(self, addr: u16, accum: bool) -> CpuState {
        let (value, carry) = alu::lsr(self.shifted_operand(addr, accum));
        self.shifted(addr, accum, value, carry)
    }

    pub open spec fn rol(self, addr: u16, accum: bool) -> CpuState {
        let (value, carry) = alu::rol(self.shifted_operand(addr, accum), self.carry());
        self.shifted(addr, accum, value, carry)
    }

    pub open spec fn ror(self, addr: u16, accum: bool) -> CpuState {
        let (value, carry) = alu::ror(self.shifted_operand(addr, accum), self.carry());
        self.shifted(addr, accum, value, carry)
    }

    pub open spec fn inc(self, addr: u16) -> CpuState {
        let (v, s) = self.read(addr);
        s.write(addr, wrap8(v + 1)).with_zn(wrap8(v + 1))
    }

    pub open spec fn dec(self, addr: u16) -> CpuState {
        let (v, s) = self.read(addr);
        s.write(addr, wrap8(v - 1)).with_zn(wrap8(v - 1))
    }

    // ----- the unofficial pairs -----
    pub open spec fn dcp(self, addr: u16) -> CpuState {
        self.dec(addr).cmp(addr)
    }

    pub open spec fn isc(self, addr: u16) -> CpuState {
        self.inc(addr).sbc(addr)
    }

    pub open spec fn rla(self, addr: u16) -> CpuState {
        self.rol(addr, false).and(addr)
    }

    pub open spec fn rra(self, addr: u16) -> CpuState {
        self.ror(addr, false).adc(addr)
    }

    pub open spec fn slo(self, addr: u16) -> CpuState {
        self.asl(addr, false).ora(addr)
    }

    pub open spec fn sre(self, addr: u16) -> CpuState {
        self.lsr(addr, false).eor(addr)
    }

    #[verifier::opaque]
    pub open spec fn lax(self, mode: AddressingMode) -> CpuState {
        let (addr, s) = self.operand_address(mode);
        s.lda(addr).ldx(addr)
    }

    #[verifier::opaque]
    pub open spec fn sax(self, mode: AddressingMode) -> CpuState {
        let (addr, s) = self.operand_address(mode);
        s.write(addr, s.a & s.x)
    }

    // ----- registers and stack -----
    pub open spec fn php(self) -> CpuState {
        self.push(self.flags.pushed(true)).add_cycles(1)
    }

    /// PLP: the status byte is what was on the stack, all eight bits of it.
    pub open spec fn plp(self) -> CpuState {
        let (v, s) = self.pop();
        CpuState { flags: CpuFlags { bits: v }, ..s }.add_cycles(2)
    }

    pub open spec fn pha(self) -> CpuState {
        self.push(self.a).add_cycles(1)
    }

    pub open spec fn pla(self) -> CpuState {
        let (v, s) = self.pop();
        CpuState { a: v, ..s }.with_zn(v).add_cycles(2)
    }

    pub open spec fn dey(self) -> CpuState {
        CpuState { y: wrap8(self.y - 1), ..self }.with_zn(wrap8(self.y - 1))
    }

    pub open spec fn iny(self) -> CpuState {
        CpuState { y: wrap8(self.y + 1), ..self }.with_zn(wrap8(self.y + 1))
    }

    pub open spec fn dex(self) -> CpuState {
        CpuState { x: wrap8(self.x - 1), ..self }.with_zn(wrap8(self.x - 1))
    }

    pub open spec fn inx(self) -> CpuState {
        CpuState { x: wrap8(self.x + 1), ..self }.with_zn(wrap8(self.x + 1))
    }

    pub open spec fn tya(self) -> CpuState {
        CpuState { a: self.y, ..self }.with_zn(self.y)
    }

    pub open spec fn tay(self) -> CpuState {
        CpuState { y: self.a, ..self }.with_zn(self.a)
    }

    pub open spec fn txa(self) -> CpuState {
        CpuState { a: self.x, ..self }.with_zn(self.x)
    }

    pub open spec fn tax(self) -> CpuState {
        CpuState { x: self.a, ..self }.with_zn(self.a)
    }

    pub open spec fn tsx(self) -> CpuState {
        CpuState { x: self.sp, ..self }.with_zn(self.sp)
    }

    // ----- jumps -----
    /// JMP: the program counter is left one below the target, for the step
    /// that ends every instruction to move it on.
    pub open spec fn jmp(self, addr: u16) -> CpuState {
        CpuState { pc: wrap16(addr - 1), ..self }
    }

    /// A branch taken, with the program counter on the offset byte: the
    /// offset, read as a signed number, is added to the program counter.
    /// That costs a cycle, and one more if the instruction behind the
    /// branch and the target lie in different pages.
    pub open spec fn branch(self) -> CpuState {
        let (jump, s) = self.add_cycles(1).read(self.pc);
        let target = wrap16(self.pc + alu::signed(jump));
        CpuState { pc: target, ..s }.add_cycles(
            if crate::cpu::addressing::page_crossed(wrap16(self.pc + 1), wrap16(target + 1)) {
                1
            } else {
                0
            },
        )
    }

    /// A branch that is taken if the flags of `flag` are all set.
    pub open spec fn if_contain_flag_branch(self, flag: u8) -> CpuState {
        if self.flags.has(flag) {
            self.branch()
        } else {
            self
        }
    }

    /// A branch that is taken unless the flags of `flag` are all set.
    pub open spec fn if_clear_flag_branch(self, flag: u8) -> CpuState {
        if !self.flags.has(flag) {
            self.branch()
        } else {
            self
        }
    }

    /// BRK: the address two behind the opcode and the status, with both
    /// break bits set, go on the stack; interrupts are disabled; the
    /// program counter comes from the break vector.
    pub open spec fn brk(self) -> CpuState {
        let s = self.push_u16(wrap16(self.pc + 2)).push(self.flags.pushed(true)).with_flag(
            CpuFlags::INTERRUPT_DISABLE,
            true,
        );
        let (pc, s1) = s.read_u16(BRK_VECTOR);
        CpuState { pc, ..s1 }.add_cycles(7)
    }

    /// JSR: the address of the instruction's last byte goes on the stack,
    /// and the program counter one below the target.
    pub open spec fn jsr(self) -> CpuState {
        let (target, s) = self.push_u16(wrap16(self.pc + 2)).read_u16(wrap16(self.pc + 1));
        CpuState { pc: wrap16(target - 1), ..s }.add_cycles(6)
    }

    /// RTI: status and program counter come back from the stack, the
    /// status with all eight bits as they were pushed.
    pub open spec fn rti(self) -> CpuState {
        let (flags, s) = self.pop();
        let (pc, s1) = s.pop_u16();
        CpuState { flags: CpuFlags { bits: flags }, pc: wrap16(pc - 1), ..s1 }.add_cycles(6)
    }

    pub open spec fn rts(self) -> CpuState {
        let (pc, s) = self.pop_u16();
        CpuState { pc, ..s }.add_cycles(6)
    }

    /// An interrupt taken: program counter and status go on the stack, the
    /// status with Break clear and the unused bit set; interrupts are
    /// disabled; the bus gets the two cycles of latency; the program
    /// counter comes from the interrupt vector.
    pub open spec fn interrupt_nmi(self) -> CpuState {
        let s = self.push_u16(self.pc).push(self.flags.pushed(false)).with_flag(
            CpuFlags::INTERRUPT_DISABLE,
            true,
        );
        let ticked = CpuState { bus: s.bus.tick(INTERRUPT_LATENCY), ..s };
        let (pc, s1) = ticked.read_u16(NMI_VECTOR);
        CpuState { pc, ..s1 }
    }
}

impl CPU {
    // ----- loads and stores -----
    pub fn lda(&mut self, addr: u16)
        requires
            old(self).wf(),
        ensures
            final(self).wf(),
            final(self)@ == old(self)@.lda(addr),
    {
        self.a = self.mem_read(addr);
        self.zero_negative_flag(self.a);
    }

    pub fn ldx(&mut self, addr: u16)
        requires
            old(self).wf(),
        ensures
            final(self).wf(),
            final(self)@ == old(self)@.ldx(addr),
    {
        self.x = self.mem_read(addr);
        self.zero_negative_flag(self.x);
    }

    pub fn ldy(&mut self, addr: u16)
        requires
            old(self).wf(),
        ensures
            final(self).wf(),
            final(self)@ == old(self)@.ldy(addr),
    {
        self.y = self.mem_read(addr);
        self.zero_negative_flag(self.y);
    }

    pub fn sta(&mut self, addr: u16)
        requires
            old(self).wf(),
        ensures
            final(self).wf(),
            final(self)@ == old(self)@.sta(addr),
    {
        self.mem_write(addr, self.a);
    }

    pub fn stx(&mut self, addr: u16)
        requires
            old(self).wf(),
        ensures
            final(self).wf(),
            final(self)@ == old(self)@.stx(addr),
    {
        self.mem_write(addr, self.x);
    }

    pub fn sty(&mut self, addr: u16)
        requires
            old(self).wf(),
        ensures
            final(self).wf(),
            final(self)@ == old(self)@.sty(addr),
    {
        self.mem_write(addr, self.y);
    }

    // ----- logic -----
    pub fn ora(&mut self, addr: u16)
        requires
            old(self).wf(),
        ensures
            final(self).wf(),
            final(self)@ == old(self)@.ora(addr),
    {
        let operand = self.mem_read(addr);
        self.a = self.a | operand;
        self.zero_negative_flag(self.a);
    }

    pub fn and(&mut self, addr: u16)
        requires
            old(self).wf(),
        ensures
            final(self).wf(),
            final(self)@ == old(self)@.and(addr),
    {
        let operand = self.mem_read(addr);
        self.a = self.a & operand;
        self.zero_negative_flag(self.a);
    }

    pub fn eor(&mut self, addr: u16)
        requires
            old(self).wf(),
        ensures
            final(self).wf(),
            final(self)@ == old(self)@.eor(addr),
    {
        let operand = self.mem_read(addr);
        self.a = self.a ^ operand;
        self.zero_negative_flag(self.a);
    }

    pub fn bit(&mut self, addr: u16)
        requires
            old(self).wf(),
        ensures
            final(self).wf(),
            final(self)@ == old(self)@.bit(addr),
    {
        let val = self.mem_read(addr);
        self.flags.set(CpuFlags::ZERO, (self.a & val) == 0);
        self.flags.set(CpuFlags::OVERFLOW, val & 0x40 == 0x40);
        self.flags.set(CpuFlags::NEGATIVE, val >= 0x80);
    }

    // ----- arithmetic -----
    /// Adds `val` and Carry to the accumulator.
    pub fn add_to_a(&mut self, val: u8)
        ensures
            final(self)@ == old(self)@.add_to_a(val),
    {
        let carry_in: u16 = if self.flags.contains(CpuFlags::CARRY) {
            1
        } else {
            0
        };
        let sum: u16 = self.a as u16 + val as u16 + carry_in;
        let result = (sum % 0x100) as u8;
        let overflow = ((result ^ self.a) & (result ^ val) & 0x80) != 0;
        proof {
            alu::lemma_adc_overflow(self.a, val, self.flags.has(CpuFlags::CARRY));
        }
        self.flags.set(CpuFlags::CARRY, sum > 0xFF);
        self.flags.set(CpuFlags::OVERFLOW, overflow);
        self.a = result;
        self.zero_negative_flag(self.a);
    }

    pub fn adc(&mut self, addr: u16)
        requires
            old(self).wf(),
        ensures
            final(self).wf(),
            final(self)@ == old(self)@.adc(addr),
    {
        let val = self.mem_read(addr);
        self.add_to_a(val);
    }

    /// Subtracts the byte at `addr` and the borrow from the accumulator, by
    /// adding the one's complement of the byte.
    pub fn sbc(&mut self, addr: u16)
        requires
            old(self).wf(),
        ensures
            final(self).wf(),
            final(self)@ == old(self)@.sbc(addr),
    {
        let val = self.mem_read(addr);
        proof {
            alu::lemma_sbc_is_adc_of_complement(self.a, val, self.flags.has(CpuFlags::CARRY));
        }
        self.add_to_a(!val);
    }

    pub fn compare(&mut self, addr: u16, val: u8)
        requires
            old(self).wf(),
        ensures
            final(self).wf(),
            final(self)@ == old(self)@.compare(addr, val),
            final(self).a == old(self).a,
            final(self).x == old(self).x,
            final(self).y == old(self).y,
    {
        let addr_val = self.mem_read(addr);
        self.flags.set(CpuFlags::CARRY, val >= addr_val);
        self.flags.set(CpuFlags::ZERO, val == addr_val);
        self.flags.set(CpuFlags::NEGATIVE, val.wrapping_sub(addr_val) >= 0x80);
    }

    pub fn cmp(&mut self, addr: u16)
        requires
            old(self).wf(),
        ensures
            final(self).wf(),
            final(self)@ == old(self)@.cmp(addr),
            final(self).a == old(self).a,
            final(self).x == old(self).x,
            final(self).y == old(self).y,
    {
        self.compare(addr, self.a);
    }

    pub fn cpy(&mut self, addr: u16)
        requires
            old(self).wf(),
        ensures
            final(self).wf(),
            final(self)@ == old(self)@.cpy(addr),
            final(self).a == old(self).a,
            final(self).x == old(self).x,
            final(self).y == old(self).y,
    {
        self.compare(addr, self.y);
    }

    pub fn cpx(&mut self, addr: u16)
        requires
            old(self).wf(),
        ensures
            final(self).wf(),
            final(self)@ == old(self)@.cpx(addr),
            final(self).a == old(self).a,
            final(self).x == old(self).x,
            final(self).y == old(self).y,
    {
        self.compare(addr, self.x);
    }

    // ----- read, modify, write -----
    pub fn asl(&mut self, addr: u16, accum: bool)
        requires
            old(self).wf(),
        ensures
            final(self).wf(),
            final(self)@ == old(self)@.asl(addr, accum),
    {
        let val = if !accum {
            self.mem_read(addr)
        } else {
            self.a
        };
        proof {
            alu::lemma_shift_left(val);
        }
        self.flags.set(CpuFlags::CARRY, val >= 0x80);
        let new_val: u8 = val << 1;
        if !accum {
            self.mem_write(addr, new_val);
        } else {
            self.a = new_val;
        }
        self.zero_negative_flag(new_val);
    }

    pub fn rol(&mut self, addr: u16, accum: bool)
        requires
            old(self).wf(),
        ensures
            final(self).wf(),
            final(self)@ == old(self)@.rol(addr, accum),
    {
        let val = if !accum {
            self.mem_read(addr)
        } else {
            self.a
        };
        let carry_in: u8 = if self.flags.contains(CpuFlags::CARRY) {
            1
        } else {
            0
        };
        proof {
            alu::lemma_rotate_left(val, carry_in);
        }
        self.flags.set(CpuFlags::CARRY, val >= 0x80);
        let new_val: u8 = (val << 1) | carry_in;
        if !accum {
            self.mem_write(addr, new_val);
        } else {
            self.a = new_val;
        }
        self.zero_negative_flag(new_val);
    }

    pub fn lsr(&mut self, addr: u16, accum: bool)
        requires
            old(self).wf(),
        ensures
            final(self).wf(),
            final(self)@ == old(self)@.lsr(addr, accum),
    {
        let val = if !accum {
            self.mem_read(addr)
        } else {
            self.a
        };
        self.flags.set(CpuFlags::CARRY, val % 2 == 1);
        let new_val: u8 = val / 2;
        if !accum {
            self.mem_write(addr, new_val);
        } else {
            self.a = new_val;
        }
        self.zero_negative_flag(new_val);
    }

    pub fn ror(&mut self, addr: u16, accum: bool)
        requires
            old(self).wf(),
        ensures
            final(self).wf(),
            final(self)@ == old(self)@.ror(addr, accum),
    {
        let val = if !accum {
            self.mem_read(addr)
        } else {
            self.a
        };
        let carry_in: u8 = if self.flags.contains(CpuFlags::CARRY) {
            1
        } else {
            0
        };
        proof {
            alu::lemma_rotate_right(val, carry_in);
        }
        self.flags.set(CpuFlags::CARRY, val % 2 == 1);
        let new_val: u8 = (val >> 1) | (carry_in << 7);
        if !accum {
            self.mem_write(addr, new_val);
        } else {
            self.a = new_val;
        }
        self.zero_negative_flag(new_val);
    }

    pub fn dec(&mut self, addr: u16)
        requires
            old(self).wf(),
        ensures
            final(self).wf(),
            final(self)@ == old(self)@.dec(addr),
    {
        let old_val = self.mem_read(addr);
        let new_val = old_val.wrapping_sub(1);
        self.mem_write(addr, new_val);
        self.zero_negative_flag(new_val);
    }

    pub fn inc(&mut self, addr: u16)
        requires
            old(self).wf(),
        ensures
            final(self).wf(),
            final(self)@ == old(self)@.inc(addr),
    {
        let old_val = self.mem_read(addr);
        let new_val = old_val.wrapping_add(1);
        self.mem_write(addr, new_val);
        self.zero_negative_flag(new_val);
    }

    // ----- the unofficial pairs -----
    pub fn dcp(&mut self, addr: u16)
        requires
            old(self).wf(),
        ensures
            final(self).wf(),
            final(self)@ == old(self)@.dcp(addr),
    {
        self.dec(addr);
        self.cmp(addr);
    }

    pub fn isc(&mut self, addr: u16)
        requires
            old(self).wf(),
        ensures
            final(self).wf(),
            final(self)@ == old(self)@.isc(addr),
    {
        self.inc(addr);
        self.sbc(addr);
    }

    pub fn rla(&mut self, addr: u16)
        requires
            old(self).wf(),
        ensures
            final(self).wf(),
            final(self)@ == old(self)@.rla(addr),
    {
        self.rol(addr, false);
        self.and(addr);
    }

    pub fn rra(&mut self, addr: u16)
        requires
            old(self).wf(),
        ensures
            final(self).wf(),
            final(self)@ == old(self)@.rra(addr),
    {
        self.ror(addr, false);
        self.adc(addr);
    }

    pub fn slo(&mut self, addr: u16)
        requires
            old(self).wf(),
        ensures
            final(self).wf(),
            final(self)@ == old(self)@.slo(addr),
    {
        self.asl(addr, false);
        self.ora(addr);
    }

    pub fn sre(&mut self, addr: u16)
        requires
            old(self).wf(),
        ensures
            final(self).wf(),
            final(self)@ == old(self)@.sre(addr),
    {
        self.lsr(addr, false);
        self.eor(addr);
    }

    pub fn lax(&mut self, mode: &AddressingMode)
        requires
            old(self).wf(),
            mode.addressable(),
        ensures
            final(self).wf(),
            final(self)@ == old(self)@.lax(*mode),
            final(self).cycles == old(self).cycles,
    {
        reveal(CpuState::lax);
        let addr = self.get_operand_address(mode);
        self.lda(addr);
        self.ldx(addr);
    }

    pub fn sax(&mut self, mode: &AddressingMode)
        requires
            old(self).wf(),
            mode.addressable(),
        ensures
            final(self).wf(),
            final(self)@ == old(self)@.sax(*mode),
            final(self).cycles == old(self).cycles,
    {
        reveal(CpuState::sax);
        let addr = self.get_operand_address(mode);
        let comb = self.a & self.x;
        self.mem_write(addr, comb);
    }

    // ----- registers and stack -----
    /// PHP: pushes the status with both break bits set.
    pub fn php(&mut self)
        requires
            old(self).wf(),
            old(self).cycles + 1 <= u8::MAX,
        ensures
            final(self).wf(),
            final(self)@ == old(self)@.php(),
    {
        let mut flags = self.flags;
        flags.insert(CpuFlags::BREAK);
        flags.insert(CpuFlags::BREAK2);
        self.stack_push(flags.bits());
        self.add_cycles(1);
    }

    /// PLP: pulls the status, all eight bits of it.
    pub fn plp(&mut self)
        requires
            old(self).wf(),
            old(self).cycles + 2 <= u8::MAX,
        ensures
            final(self).wf(),
            final(self)@ == old(self)@.plp(),
    {
        let bits = self.stack_pop();
        self.flags = CpuFlags::from_bits_truncate(bits);
        self.add_cycles(2);
    }

    pub fn pha(&mut self)
        requires
            old(self).wf(),
            old(self).cycles + 1 <= u8::MAX,
        ensures
            final(self).wf(),
            final(self)@ == old(self)@.pha(),
    {
        self.stack_push(self.a);
        self.add_cycles(1);
    }

    pub fn pla(&mut self)
        requires
            old(self).wf(),
            old(self).cycles + 2 <= u8::MAX,
        ensures
            final(self).wf(),
            final(self)@ == old(self)@.pla(),
    {
        self.a = self.stack_pop();
        self.zero_negative_flag(self.a);
        self.add_cycles(2);
    }

    pub fn dey(&mut self)
        ensures
            final(self)@ == old(self)@.dey(),
    {
        self.y = self.y.wrapping_sub(1);
        self.zero_negative_flag(self.y);
    }

    pub fn tya(&mut self)
        ensures
            final(self)@ == old(self)@.tya(),
    {
        self.a = self.y;
        self.zero_negative_flag(self.a);
    }

    pub fn tay(&mut self)
        ensures
            final(self)@ == old(self)@.tay(),
    {
        self.y = self.a;
        self.zero_negative_flag(self.y);
    }

    pub fn iny(&mut self)
        ensures
            final(self)@ == old(self)@.iny(),
    {
        self.y = self.y.wrapping_add(1);
        self.zero_negative_flag(self.y)
    }

    pub fn inx(&mut self)
        ensures
            final(self)@ == old(self)@.inx(),
    {
        self.x = self.x.wrapping_add(1);
        self.zero_negative_flag(self.x);
    }

    pub fn txa(&mut self)
        ensures
            final(self)@ == old(self)@.txa(),
    {
        self.a = self.x;
        self.zero_negative_flag(self.a);
    }

    pub fn tax(&mut self)
        ensures
            final(self)@ == old(self)@.tax(),
    {
        self.x = self.a;
        self.zero_negative_flag(self.x);
    }

    pub fn tsx(&mut self)
        ensures
            final(self)@ == old(self)@.tsx(),
    {
        self.x = self.sp;
        self.zero_negative_flag(self.x);
    }

    pub fn dex(&mut self)
        ensures
            final(self)@ == old(self)@.dex(),
    {
        self.x = self.x.wrapping_sub(1);
        self.zero_negative_flag(self.x);
    }

    // ----- jumps -----
    pub fn jmp(&mut self, addr: u16)
        ensures
            final(self)@ == old(self)@.jmp(addr),
    {
        self.pc = addr.wrapping_sub(1);
    }

    /// Takes the branch whose offset byte the program counter is on.
    pub fn branch(&mut self)
        requires
            old(self).wf(),
            old(self).cycles + 2 <= u8::MAX,
        ensures
            final(self).wf(),
            final(self)@ == old(self)@.branch(),
    {
        self.add_cycles(1);
        let old_page = self.pc.wrapping_add(1) / 256;
        let jump = self.mem_read(self.pc);
        if jump >= 0x80 {
            self.pc = self.pc.wrapping_add(jump as u16).wrapping_sub(0x100);
        } else {
            self.pc = self.pc.wrapping_add(jump as u16);
        }
        let new_page = self.pc.wrapping_add(1) / 256;
        if old_page != new_page {
            self.add_cycles(1);
        }
    }

    pub fn if_contain_flag_branch(&mut self, flag: u8)
        requires
            old(self).wf(),
            old(self).cycles + 2 <= u8::MAX,
        ensures
            final(self).wf(),
            final(self)@ == old(self)@.if_contain_flag_branch(flag),
    {
        if self.flags.contains(flag) {
            self.branch();
        }
    }

    pub fn if_clear_flag_branch(&mut self, flag: u8)
        requires
            old(self).wf(),
            old(self).cycles + 2 <= u8::MAX,
        ensures
            final(self).wf(),
            final(self)@ == old(self)@.if_clear_flag_branch(flag),
    {
        if !self.flags.contains(flag) {
            self.branch();
        }
    }

    pub fn brk(&mut self)
        requires
            old(self).wf(),
            old(self).cycles + 7 <= u8::MAX,
        ensures
            final(self).wf(),
            final(self)@ == old(self)@.brk(),
    {
        self.stack_push_u16(self.pc.wrapping_add(2));
        let mut flags = self.flags;
        flags.insert(CpuFlags::BREAK);
        flags.insert(CpuFlags::BREAK2);
        self.stack_push(flags.bits());
        self.flags.insert(CpuFlags::INTERRUPT_DISABLE);
        self.pc = self.mem_read_u16(BRK_VECTOR);
        self.add_cycles(7);
    }

    pub fn jsr(&mut self)
        requires
            old(self).wf(),
            old(self).cycles + 6 <= u8::MAX,
        ensures
            final(self).wf(),
            final(self)@ == old(self)@.jsr(),
    {
        self.stack_push_u16(self.pc.wrapping_add(2));
        let new_pc = self.mem_read_u16(self.pc.wrapping_add(1)).wrapping_sub(1);
        self.pc = new_pc;
        self.add_cycles(6);
    }

    pub fn rti(&mut self)
        requires
            old(self).wf(),
            old(self).cycles + 6 <= u8::MAX,
        ensures
            final(self).wf(),
            final(self)@ == old(self)@.rti(),
    {
        let temp_flag = self.stack_pop();
        self.flags = CpuFlags::from_bits_truncate(temp_flag);
        self.pc = self.stack_pop_u16();
        self.pc = self.pc.wrapping_sub(1);
        self.add_cycles(6);
    }

    pub fn rts(&mut self)
        requires
            old(self).wf(),
            old(self).cycles + 6 <= u8::MAX,
        ensures
            final(self).wf(),
            final(self)@ == old(self)@.rts(),
    {
        self.pc = self.stack_pop_u16();
        self.add_cycles(6);
    }

    /// Takes an interrupt: saves where the program was and goes to the
    /// handler.
    pub fn interrupt_nmi(&mut self)
        requires
            old(self).wf(),
        ensures
            final(self).wf(),
            final(self)@ == old(self)@.interrupt_nmi(),
    {
        self.stack_push_u16(self.pc);
        let mut flag = self.flags;
        flag.set(CpuFlags::BREAK, false);
        flag.set(CpuFlags::BREAK2, true);
        self.stack_push(flag.bits());
        self.flags.insert(CpuFlags::INTERRUPT_DISABLE);
        self.bus.tick(INTERRUPT_LATENCY);
        self.pc = self.mem_read_u16(NMI_VECTOR);
    }
}

} // verus!
