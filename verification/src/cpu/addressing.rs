//! Where an instruction finds its operand, and what finding it costs.

use crate::cpu::wrap16;
use crate::cpu::wrap8;
use crate::cpu::AddressingMode;
use crate::cpu::CpuState;
use crate::cpu::Mem;
use crate::cpu::CPU;
use vstd::prelude::*;

verus! {

/// The two addresses lie in different pages of 256 bytes.
pub open spec fn page_crossed(base: u16, addr: u16) -> bool {
    base / 256 != addr / 256
}

impl AddressingMode {
    /// The mode names a place in memory. Accumulator, implied and relative
    /// operands have none.
    pub open spec fn addressable(self) -> bool {
        !(self is Accumulator || self is NoneAddressing || self is Relative)
    }

    /// The bytes that the operand takes behind the opcode.
    pub open spec fn operand_len(self) -> int {
        match self {
            AddressingMode::Absolute
            | AddressingMode::Absolute_X
            | AddressingMode::Absolute_Y
            | AddressingMode::Indirect => 2,
            _ => 1,
        }
    }

    /// The mode is one of those that the load, store, logic and arithmetic
    /// instructions use.
    pub open spec fn in_group_one(self) -> bool {
        self.addressable() && !(self is Indirect)
    }

    /// The mode is one of those that the shift, rotate, increment and
    /// decrement instructions use.
    pub open spec fn in_group_two(self) -> bool {
        self is Accumulator || self is ZeroPage || self is ZeroPage_X || self is Absolute
            || self is Absolute_X
    }

    /// The cycles of a read-modify-write instruction in this mode.
    pub open spec fn group_two_cost(self) -> int {
        match self {
            AddressingMode::Accumulator => 2,
            AddressingMode::ZeroPage => 5,
            AddressingMode::ZeroPage_X => 6,
            AddressingMode::Absolute => 6,
            _ => 7,
        }
    }
}

impl CpuState {
    /// The address of the operand of the instruction at `instr_addr`, and
    /// the processor after the reads that finding it takes.
    ///
    /// - Immediate: the byte behind the opcode is the operand.
    /// - Zero page: that byte is the address; with an index added, the sum
    ///   stays in page 0.
    /// - Absolute: the two bytes behind the opcode are the address; an
    ///   index is added modulo 64 KiB.
    /// - Indirect: the two bytes are the address of the address. The second
    ///   byte of that is read from the same page as the first, also where
    ///   the first is the last of its page.
    /// - (Indirect,X): the byte plus X, in page 0, is where the address is
    ///   kept; its second byte is the next in page 0.
    /// - (Indirect),Y: the byte is where an address is kept in page 0; Y
    ///   is added to that address.
    pub open spec fn resolve(self, mode: AddressingMode, instr_addr: u16) -> (u16, CpuState) {
        let address = wrap16(instr_addr + 1);
        match mode {
            AddressingMode::Immediate => (address, self),
            AddressingMode::ZeroPage => {
                let (pos, s) = self.read(address);
                (pos as u16, s)
            },
            AddressingMode::ZeroPage_X => {
                let (pos, s) = self.read(address);
                (wrap8(pos + self.x) as u16, s)
            },
            AddressingMode::ZeroPage_Y => {
                let (pos, s) = self.read(address);
                (wrap8(pos + self.y) as u16, s)
            },
            AddressingMode::Absolute => self.read_u16(address),
            AddressingMode::Absolute_X => {
                let (base, s) = self.read_u16(address);
                (wrap16(base + self.x), s)
            },
            AddressingMode::Absolute_Y => {
                let (base, s) = self.read_u16(address);
                (wrap16(base + self.y), s)
            },
            AddressingMode::Indirect => {
                let (base, s1) = self.read_u16(address);
                let (lo, s2) = s1.read(base);
                let second = if base % 256 == 255 {
                    (base - 255) as u16
                } else {
                    (base + 1) as u16
                };
                let (hi, s3) = s2.read(second);
                ((hi * 256 + lo) as u16, s3)
            },
            AddressingMode::Indirect_X => {
                let (base, s1) = self.read(address);
                let ptr = wrap8(base + self.x);
                let (lo, s2) = s1.read(ptr as u16);
                let (hi, s3) = s2.read(wrap8(ptr + 1) as u16);
                ((hi * 256 + lo) as u16, s3)
            },
            AddressingMode::Indirect_Y => {
                let (base, s1) = self.read(address);
                let (lo, s2) = s1.read(base as u16);
                let (hi, s3) = s2.read(wrap8(base + 1) as u16);
                (wrap16(hi * 256 + lo + self.y), s3)
            },
            _ => (0, self),
        }
    }

    /// The address of the operand of the instruction at `instr_addr`, found
    /// by looking at memory as it stands, without a read taking place.
    pub open spec fn peek_address(self, mode: AddressingMode, instr_addr: u16) -> u16 {
        let bus = self.bus;
        let address = wrap16(instr_addr + 1);
        match mode {
            AddressingMode::Immediate => address,
            AddressingMode::ZeroPage => bus.read_value(address) as u16,
            AddressingMode::ZeroPage_X => wrap8(bus.read_value(address) + self.x) as u16,
            AddressingMode::ZeroPage_Y => wrap8(bus.read_value(address) + self.y) as u16,
            AddressingMode::Absolute => bus.peek_u16(address),
            AddressingMode::Absolute_X => wrap16(bus.peek_u16(address) + self.x),
            AddressingMode::Absolute_Y => wrap16(bus.peek_u16(address) + self.y),
            AddressingMode::Indirect => {
                let base = bus.peek_u16(address);
                let second = if base % 256 == 255 {
                    (base - 255) as u16
                } else {
                    (base + 1) as u16
                };
                (bus.read_value(second) * 256 + bus.read_value(base)) as u16
            },
            AddressingMode::Indirect_X => {
                let ptr = wrap8(bus.read_value(address) + self.x);
                (bus.read_value(wrap8(ptr + 1) as u16) * 256 + bus.read_value(ptr as u16)) as u16
            },
            AddressingMode::Indirect_Y => {
                let base = bus.read_value(address);
                wrap16(
                    bus.read_value(wrap8(base + 1) as u16) * 256 + bus.read_value(base as u16)
                        + self.y,
                )
            },
            _ => 0,
        }
    }

    /// The address of the operand of the instruction at the program
    /// counter, and the processor after finding it: the program counter is
    /// on the last byte of the instruction.
    pub open spec fn operand_address(self, mode: AddressingMode) -> (u16, CpuState) {
        let (addr, s) = self.resolve(mode, self.pc);
        (addr, CpuState { pc: wrap16(self.pc + mode.operand_len()), ..s })
    }

    /// One cycle more if indexing left the page of `base_addr`, or if the
    /// instruction stores: a store pays whether or not the page changes.
    pub open spec fn page_penalty(base_addr: u16, final_addr: u16, is_sta: bool) -> int {
        if page_crossed(base_addr, final_addr) || is_sta {
            1
        } else {
            0
        }
    }

    /// The cycles of a load, store, logic or arithmetic instruction whose
    /// operand was found at `addr`.
    pub open spec fn group_one_cost(self, mode: AddressingMode, addr: u16, is_sta: bool) -> int {
        match mode {
            AddressingMode::Immediate => 2,
            AddressingMode::ZeroPage => 3,
            AddressingMode::ZeroPage_X => 4,
            AddressingMode::ZeroPage_Y => 4,
            AddressingMode::Absolute => 4,
            AddressingMode::Absolute_X => 4 + Self::page_penalty(
                wrap16(addr - self.x),
                addr,
                is_sta,
            ),
            AddressingMode::Absolute_Y => 4 + Self::page_penalty(
                wrap16(addr - self.y),
                addr,
                is_sta,
            ),
            AddressingMode::Indirect_X => 6,
            _ => 5 + Self::page_penalty(wrap16(addr - self.y), addr, is_sta),
        }
    }
}

impl CPU {
    /// Finds the operand of the instruction at the program counter and
    /// leaves the program counter on the instruction's last byte.
    pub fn get_operand_address(&mut self, mode: &AddressingMode) -> (addr: u16)
        requires
            old(self).wf(),
            mode.addressable(),
        ensures
            final(self).wf(),
            (addr, final(self)@) == old(self)@.operand_address(*mode),
    {
        let ret = self.get_relative_address(mode, self.pc);
        self.pc = self.pc.wrapping_add(1);
        match mode {
            AddressingMode::Absolute
            | AddressingMode::Absolute_X
            | AddressingMode::Absolute_Y
            | AddressingMode::Indirect => self.pc = self.pc.wrapping_add(1),
            _ => {},
        }
        ret
    }

    /// Finds the operand of the instruction at `instr_addr`. The program
    /// counter stays where it is.
    pub fn get_relative_address(&mut self, mode: &AddressingMode, instr_addr: u16) -> (addr: u16)
        requires
            old(self).wf(),
            mode.addressable(),
        ensures
            final(self).wf(),
            (addr, final(self)@) == old(self)@.resolve(*mode, instr_addr),
    {
        let address = instr_addr.wrapping_add(1);
        match mode {
            AddressingMode::Immediate => address,
            AddressingMode::ZeroPage => self.mem_read(address) as u16,
            AddressingMode::Absolute => self.mem_read_u16(address),
            AddressingMode::ZeroPage_X => {
                let pos = self.mem_read(address);
                pos.wrapping_add(self.x) as u16
            },
            AddressingMode::ZeroPage_Y => {
                let pos = self.mem_read(address);
                pos.wrapping_add(self.y) as u16
            },
            AddressingMode::Absolute_X => {
                let base = self.mem_read_u16(address);
                base.wrapping_add(self.x as u16)
            },
            AddressingMode::Absolute_Y => {
                let base = self.mem_read_u16(address);
                base.wrapping_add(self.y as u16)
            },
            AddressingMode::Indirect => {
                let base = self.mem_read_u16(address);
                let lo = self.mem_read(base);
                let read = if base % 256 == 255 {
                    base - 255
                } else {
                    base.wrapping_add(1)
                };
                let hi = self.mem_read(read);
                hi as u16 * 256 + lo as u16
            },
            AddressingMode::Indirect_X => {
                let base = self.mem_read(address);
                let ptr: u8 = base.wrapping_add(self.x);
                let lo = self.mem_read(ptr as u16);
                let hi = self.mem_read(ptr.wrapping_add(1) as u16);
                hi as u16 * 256 + lo as u16
            },
            AddressingMode::Indirect_Y => {
                let base = self.mem_read(address);
                let lo = self.mem_read(base as u16);
                let hi = self.mem_read(base.wrapping_add(1) as u16);
                let deref_base = hi as u16 * 256 + lo as u16;
                deref_base.wrapping_add(self.y as u16)
            },
            _ => 0,
        }
    }

    /// Finds the operand of the instruction at `instr_addr` by looking at
    /// memory as it stands: nothing is read, so nothing changes.
    pub fn peek_relative_address(&self, mode: &AddressingMode, instr_addr: u16) -> (addr: u16)
        ensures
            addr == self@.peek_address(*mode, instr_addr),
    {
        let address = instr_addr.wrapping_add(1);
        match mode {
            AddressingMode::Immediate => address,
            AddressingMode::ZeroPage => self.bus.peek(address) as u16,
            AddressingMode::Absolute => self.bus.peek_u16(address),
            AddressingMode::ZeroPage_X => self.bus.peek(address).wrapping_add(self.x) as u16,
            AddressingMode::ZeroPage_Y => self.bus.peek(address).wrapping_add(self.y) as u16,
            AddressingMode::Absolute_X => self.bus.peek_u16(address).wrapping_add(self.x as u16),
            AddressingMode::Absolute_Y => self.bus.peek_u16(address).wrapping_add(self.y as u16),
            AddressingMode::Indirect => {
                let base = self.bus.peek_u16(address);
                let lo = self.bus.peek(base);
                let read = if base % 256 == 255 {
                    base - 255
                } else {
                    base.wrapping_add(1)
                };
                let hi = self.bus.peek(read);
                hi as u16 * 256 + lo as u16
            },
            AddressingMode::Indirect_X => {
                let ptr: u8 = self.bus.peek(address).wrapping_add(self.x);
                let lo = self.bus.peek(ptr as u16);
                let hi = self.bus.peek(ptr.wrapping_add(1) as u16);
                hi as u16 * 256 + lo as u16
            },
            AddressingMode::Indirect_Y => {
                let base = self.bus.peek(address);
                let lo = self.bus.peek(base as u16);
                let hi = self.bus.peek(base.wrapping_add(1) as u16);
                (hi as u16 * 256 + lo as u16).wrapping_add(self.y as u16)
            },
            _ => 0,
        }
    }

    pub fn check_page_cross(&mut self, base_addr: u16, final_addr: u16, is_sta: bool)
        requires
            old(self).cycles < u8::MAX,
        ensures
            final(self)@ == old(self)@.add_cycles(
                CpuState::page_penalty(base_addr, final_addr, is_sta),
            ),
    {
        if (base_addr / 256) != (final_addr / 256) || is_sta {
            self.add_cycles(1);
        }
    }

    /// Counts the cycles of a load, store, logic or arithmetic instruction
    /// whose operand was found at `new_address`.
    pub fn g1_cycles(&mut self, mode: &AddressingMode, new_address: u16, is_sta: bool)
        requires
            mode.in_group_one(),
            old(self).cycles + 6 <= u8::MAX,
        ensures
            final(self)@ == old(self)@.add_cycles(
                old(self)@.group_one_cost(*mode, new_address, is_sta),
            ),
            2 <= old(self)@.group_one_cost(*mode, new_address, is_sta) <= 6,
    {
        match mode {
            AddressingMode::Immediate => self.add_cycles(2),
            AddressingMode::ZeroPage => self.add_cycles(3),
            AddressingMode::ZeroPage_X => self.add_cycles(4),
            AddressingMode::ZeroPage_Y => self.add_cycles(4),
            AddressingMode::Absolute => self.add_cycles(4),
            AddressingMode::Absolute_X => {
                self.add_cycles(4);
                let old_address = new_address.wrapping_sub(self.x as u16);
                self.check_page_cross(old_address, new_address, is_sta);
            },
            AddressingMode::Absolute_Y => {
                self.add_cycles(4);
                let old_address = new_address.wrapping_sub(self.y as u16);
                self.check_page_cross(old_address, new_address, is_sta);
            },
            AddressingMode::Indirect_X => {
                self.add_cycles(6);
            },
            _ => {
                self.add_cycles(5);
                let old_address = new_address.wrapping_sub(self.y as u16);
                self.check_page_cross(old_address, new_address, is_sta);
            },
        }
    }

    /// Counts the cycles of a shift, rotate, increment or decrement.
    pub fn g2_default_cycles(&mut self, mode: &AddressingMode)
        requires
            mode.in_group_two(),
            old(self).cycles + 7 <= u8::MAX,
        ensures
            final(self)@ == old(self)@.add_cycles(mode.group_two_cost()),
    {
        match mode {
            AddressingMode::Accumulator => self.add_cycles(2),
            AddressingMode::ZeroPage => self.add_cycles(5),
            AddressingMode::ZeroPage_X => self.add_cycles(6),
            AddressingMode::Absolute => self.add_cycles(6),
            _ => self.add_cycles(7),
        }
    }
}

} // verus!
