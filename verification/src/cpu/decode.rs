//! How an opcode byte selects an instruction.
//!
//! Most opcodes are regular: read as three bit fields `aaa bbb cc`, `cc`
//! names a group of instructions, `aaa` the instruction in it and `bbb` the
//! addressing mode. The single-byte instructions are told by their low
//! nibble, and the unofficial opcodes are picked out one by one.

use crate::cpu::wrap16;
use crate::cpu::AddressingMode;
use crate::cpu::CpuState;
use crate::cpu::CPU;
use crate::flags::CpuFlags;
use vstd::prelude::*;

verus! {

/// The addressing mode that field `bbb` selects in group one.
pub open spec fn group_one_mode(bbb: u8) -> AddressingMode {
    if bbb == 0 {
        AddressingMode::Indirect_X
    } else if bbb == 1 {
        AddressingMode::ZeroPage
    } else if bbb == 2 {
        AddressingMode::Immediate
    } else if bbb == 3 {
        AddressingMode::Absolute
    } else if bbb == 4 {
        AddressingMode::Indirect_Y
    } else if bbb == 5 {
        AddressingMode::ZeroPage_X
    } else if bbb == 6 {
        AddressingMode::Absolute_Y
    } else {
        AddressingMode::Absolute_X
    }
}

/// Field `bbb` selects an addressing mode in groups two and three.
pub open spec fn group_two_three_has_mode(bbb: u8) -> bool {
    bbb == 0 || bbb == 1 || bbb == 2 || bbb == 3 || bbb == 5 || bbb == 7
}

/// The addressing mode that field `bbb` selects in groups two and three.
pub open spec fn group_two_three_mode(bbb: u8) -> AddressingMode {
    if bbb == 0 {
        AddressingMode::Immediate
    } else if bbb == 1 {
        AddressingMode::ZeroPage
    } else if bbb == 2 {
        AddressingMode::Accumulator
    } else if bbb == 3 {
        AddressingMode::Absolute
    } else if bbb == 5 {
        AddressingMode::ZeroPage_X
    } else {
        AddressingMode::Absolute_X
    }
}

/// The opcode is one of the three of group two that index with Y where
/// the field `bbb` says X: LDX and STX cannot index with the register they
/// move.
pub open spec fn indexes_with_y(op: u8) -> bool {
    op == 0xB6 || op == 0x96 || op == 0xBE
}

/// The addressing mode of an opcode of group two.
pub open spec fn group_two_mode(bbb: u8, op: u8) -> AddressingMode {
    if op == 0xB6 || op == 0x96 {
        AddressingMode::ZeroPage_Y
    } else if op == 0xBE {
        AddressingMode::Absolute_Y
    } else {
        group_two_three_mode(bbb)
    }
}

/// The fields name an instruction of group two: STX and LDX (`aaa` 4 and 5)
/// with a mode that names memory, the others with one of their own modes,
/// and the accumulator only for the shifts and rotates.
pub open spec fn group_two_defined(aaa: u8, bbb: u8, op: u8) -> bool {
    let mode = group_two_mode(bbb, op);
    &&& aaa <= 7
    &&& indexes_with_y(op) || group_two_three_has_mode(bbb)
    &&& if aaa == 4 || aaa == 5 {
        mode.in_group_one()
    } else {
        mode.in_group_two()
    }
    &&& mode is Accumulator ==> aaa <= 3
}

/// The fields name an instruction of group three: a branch (`bbb` 4); or
/// BIT, JMP, STY, LDY, CPY or CPX (`aaa` 1 to 7) with a mode that names
/// memory, JMP with an absolute address only.
pub open spec fn group_three_defined(aaa: u8, bbb: u8) -> bool {
    &&& aaa <= 7
    &&& bbb == 4 || {
        &&& 1 <= aaa
        &&& bbb == 0 || bbb == 1 || bbb == 3 || bbb == 5 || bbb == 7
        &&& (aaa == 2 || aaa == 3) ==> bbb == 3
    }
}

/// The addressing mode of an instruction of group three that is no
/// branch: JMP with `aaa` 3 goes through a pointer.
pub open spec fn group_three_mode(aaa: u8, bbb: u8) -> AddressingMode {
    if aaa == 3 && bbb == 3 {
        AddressingMode::Indirect
    } else {
        group_two_three_mode(bbb)
    }
}

/// The flag that the branch numbered `aaa` tests.
pub open spec fn branch_flag(aaa: u8) -> u8 {
    if aaa == 0 || aaa == 1 {
        CpuFlags::NEGATIVE
    } else if aaa == 2 || aaa == 3 {
        CpuFlags::OVERFLOW
    } else if aaa == 4 || aaa == 5 {
        CpuFlags::CARRY
    } else {
        CpuFlags::ZERO
    }
}

/// The nibbles name one of the unofficial instructions that read a byte,
/// change it, write it back and then combine it with the accumulator.
pub open spec fn rmw_defined(high: u8, low: u8) -> bool {
    &&& high <= 15
    &&& !(8 <= high <= 11)
    &&& if high % 2 == 0 {
        low == 0x3 || low == 0x7 || low == 0xF
    } else {
        low == 0x3 || low == 0x7 || low == 0xB || low == 0xF
    }
}

/// The addressing mode of such an instruction.
pub open spec fn rmw_mode(high: u8, low: u8) -> AddressingMode {
    if high % 2 == 0 {
        if low == 0x3 {
            AddressingMode::Indirect_X
        } else if low == 0x7 {
            AddressingMode::ZeroPage
        } else {
            AddressingMode::Absolute
        }
    } else {
        if low == 0x3 {
            AddressingMode::Indirect_Y
        } else if low == 0x7 {
            AddressingMode::ZeroPage_X
        } else if low == 0xB {
            AddressingMode::Absolute_Y
        } else {
            AddressingMode::Absolute_X
        }
    }
}

/// The cycles of such an instruction.
pub open spec fn rmw_cost(mode: AddressingMode) -> int {
    match mode {
        AddressingMode::Indirect_X => 8,
        AddressingMode::ZeroPage => 5,
        AddressingMode::Absolute => 6,
        AddressingMode::Indirect_Y => 8,
        AddressingMode::ZeroPage_X => 6,
        _ => 7,
    }
}

impl CpuState {
    /// The single-byte instructions with low nibble 8, by high nibble:
    /// PHP CLC PLP SEC PHA CLI PLA SEI DEY TYA TAY CLV INY CLD INX SED.
    #[verifier::opaque]
    pub open spec fn sb_one(self, high: u8) -> CpuState {
        let s = self.add_cycles(2);
        if high == 0 {
            s.php()
        } else if high == 1 {
            s.with_flag(CpuFlags::CARRY, false)
        } else if high == 2 {
            s.plp()
        } else if high == 3 {
            s.with_flag(CpuFlags::CARRY, true)
        } else if high == 4 {
            s.pha()
        } else if high == 5 {
            s.with_flag(CpuFlags::INTERRUPT_DISABLE, false)
        } else if high == 6 {
            s.pla()
        } else if high == 7 {
            s.with_flag(CpuFlags::INTERRUPT_DISABLE, true)
        } else if high == 8 {
            s.dey()
        } else if high == 9 {
            s.tya()
        } else if high == 10 {
            s.tay()
        } else if high == 11 {
            s.with_flag(CpuFlags::OVERFLOW, false)
        } else if high == 12 {
            s.iny()
        } else if high == 13 {
            s.with_flag(CpuFlags::DECIMAL_MODE, false)
        } else if high == 14 {
            s.inx()
        } else {
            s.with_flag(CpuFlags::DECIMAL_MODE, true)
        }
    }

    /// The single-byte instructions with low nibble A, by high nibble from
    /// 8: TXA TXS TAX TSX DEX, and three that do nothing.
    #[verifier::opaque]
    pub open spec fn sb_two(self, high: u8) -> CpuState {
        let s = self.add_cycles(2);
        if high == 8 {
            s.txa()
        } else if high == 9 {
            CpuState { sp: s.x, ..s }
        } else if high == 10 {
            s.tax()
        } else if high == 11 {
            s.tsx()
        } else if high == 12 {
            s.dex()
        } else {
            s
        }
    }

    /// Group one: ORA AND EOR ADC STA LDA CMP SBC, by `aaa`.
    #[verifier::opaque]
    pub open spec fn group_one(self, aaa: u8, bbb: u8) -> CpuState {
        let mode = group_one_mode(bbb);
        let (addr, fetched) = self.operand_address(mode);
        let s = fetched.add_cycles(fetched.group_one_cost(mode, addr, aaa == 4));
        if aaa == 0 {
            s.ora(addr)
        } else if aaa == 1 {
            s.and(addr)
        } else if aaa == 2 {
            s.eor(addr)
        } else if aaa == 3 {
            s.adc(addr)
        } else if aaa == 4 {
            s.sta(addr)
        } else if aaa == 5 {
            s.lda(addr)
        } else if aaa == 6 {
            s.cmp(addr)
        } else {
            s.sbc(addr)
        }
    }

    /// Group two: ASL ROL LSR ROR STX LDX DEC INC, by `aaa`.
    #[verifier::opaque]
    pub open spec fn group_two(self, aaa: u8, bbb: u8, op: u8) -> CpuState {
        let mode = group_two_mode(bbb, op);
        let accum = mode is Accumulator;
        let (addr, fetched) = if accum {
            (0u16, self)
        } else {
            self.operand_address(mode)
        };
        let s = if aaa == 4 || aaa == 5 {
            fetched.add_cycles(fetched.group_one_cost(mode, addr, false))
        } else {
            fetched.add_cycles(mode.group_two_cost())
        };
        if aaa == 0 {
            s.asl(addr, accum)
        } else if aaa == 1 {
            s.rol(addr, accum)
        } else if aaa == 2 {
            s.lsr(addr, accum)
        } else if aaa == 3 {
            s.ror(addr, accum)
        } else if aaa == 4 {
            s.stx(addr)
        } else if aaa == 5 {
            s.ldx(addr)
        } else if aaa == 6 {
            s.dec(addr)
        } else {
            s.inc(addr)
        }
    }

    /// The branches, by `aaa`: BPL BMI BVC BVS BCC BCS BNE BEQ. Two cycles,
    /// and the program counter on the offset byte, before the branch is
    /// taken or not.
    pub open spec fn branch_on(self, aaa: u8) -> CpuState {
        let s = CpuState { pc: wrap16(self.pc + 1), ..self.add_cycles(2) };
        if aaa % 2 == 0 {
            s.if_clear_flag_branch(branch_flag(aaa))
        } else {
            s.if_contain_flag_branch(branch_flag(aaa))
        }
    }

    /// Group three: the branches, and BIT JMP JMP() STY LDY CPY CPX by
    /// `aaa` from 1.
    #[verifier::opaque]
    pub open spec fn group_three(self, aaa: u8, bbb: u8) -> CpuState {
        if bbb == 4 {
            self.branch_on(aaa)
        } else {
            let mode = group_three_mode(aaa, bbb);
            let (addr, fetched) = self.operand_address(mode);
            let s = if aaa == 2 || aaa == 3 {
                fetched.add_cycles(
                    if mode is Absolute {
                        3
                    } else {
                        5
                    },
                )
            } else {
                fetched.add_cycles(fetched.group_one_cost(mode, addr, false))
            };
            if aaa == 1 {
                s.bit(addr)
            } else if aaa == 2 || aaa == 3 {
                s.jmp(addr)
            } else if aaa == 4 {
                s.sty(addr)
            } else if aaa == 5 {
                s.ldy(addr)
            } else if aaa == 6 {
                s.cpy(addr)
            } else {
                s.cpx(addr)
            }
        }
    }

    /// The unofficial read-modify-write family, by high nibble in pairs:
    /// SLO RLA SRE RRA, then DCP and ISC.
    #[verifier::opaque]
    pub open spec fn rmw(self, high: u8, low: u8) -> CpuState {
        let mode = rmw_mode(high, low);
        let (addr, s) = self.add_cycles(rmw_cost(mode)).operand_address(mode);
        if high == 0xC || high == 0xD {
            s.dcp(addr)
        } else if high == 0xE || high == 0xF {
            s.isc(addr)
        } else if high == 0x2 || high == 0x3 {
            s.rla(addr)
        } else if high == 0x6 || high == 0x7 {
            s.rra(addr)
        } else if high == 0x0 || high == 0x1 {
            s.slo(addr)
        } else {
            s.sre(addr)
        }
    }
}

impl CPU {
    pub fn sb_one(&mut self, highnibble: u8)
        requires
            old(self).wf(),
            highnibble <= 15,
            old(self).cycles + 4 <= u8::MAX,
        ensures
            final(self).wf(),
            final(self)@ == old(self)@.sb_one(highnibble),
            final(self).cycles <= old(self).cycles + 4,
    {
        reveal(CpuState::sb_one);
        self.add_cycles(2);
        match highnibble {
            0 => {
                self.php();
            },
            1 => {
                self.flags.remove(CpuFlags::CARRY);
            },
            2 => {
                self.plp();
            },
            3 => {
                self.flags.insert(CpuFlags::CARRY);
            },
            4 => {
                self.pha();
            },
            5 => {
                self.flags.remove(CpuFlags::INTERRUPT_DISABLE);
            },
            6 => {
                self.pla();
            },
            7 => {
                self.flags.insert(CpuFlags::INTERRUPT_DISABLE);
            },
            8 => {
                self.dey();
            },
            9 => {
                self.tya();
            },
            10 => {
                self.tay();
            },
            11 => {
                self.flags.remove(CpuFlags::OVERFLOW);
            },
            12 => {
                self.iny();
            },
            13 => {
                self.flags.remove(CpuFlags::DECIMAL_MODE);
            },
            14 => {
                self.inx();
            },
            _ => {
                self.flags.insert(CpuFlags::DECIMAL_MODE);
            },
        };
    }

    pub fn sb_two(&mut self, highnibble: u8)
        requires
            8 <= highnibble <= 15,
            old(self).cycles + 2 <= u8::MAX,
        ensures
            final(self)@ == old(self)@.sb_two(highnibble),
            old(self).wf() ==> final(self).wf(),
            final(self).cycles == old(self).cycles + 2,
    {
        reveal(CpuState::sb_two);
        self.add_cycles(2);
        match highnibble {
            8 => {
                self.txa();
            },
            9 => {
                self.sp = self.x;
            },
            10 => {
                self.tax();
            },
            11 => {
                self.tsx();
            },
            12 => {
                self.dex();
            },
            _ => {},
        };
    }

    pub fn group_one_bbb(&self, bbb: u8) -> (mode: AddressingMode)
        requires
            bbb <= 7,
        ensures
            mode == group_one_mode(bbb),
            mode.in_group_one(),
    {
        match bbb {
            0 => AddressingMode::Indirect_X,
            1 => AddressingMode::ZeroPage,
            2 => AddressingMode::Immediate,
            3 => AddressingMode::Absolute,
            4 => AddressingMode::Indirect_Y,
            5 => AddressingMode::ZeroPage_X,
            6 => AddressingMode::Absolute_Y,
            _ => AddressingMode::Absolute_X,
        }
    }

    pub fn group_one(&mut self, aaa: u8, bbb: u8, _cc: u8)
        requires
            old(self).wf(),
            aaa <= 7,
            bbb <= 7,
            old(self).cycles + 6 <= u8::MAX,
        ensures
            final(self).wf(),
            final(self)@ == old(self)@.group_one(aaa, bbb),
            final(self).cycles <= old(self).cycles + 6,
    {
        reveal(CpuState::group_one);
        let mode = self.group_one_bbb(bbb);
        let addr = self.get_operand_address(&mode);
        self.g1_cycles(&mode, addr, aaa == 4);
        match aaa {
            0 => {
                self.ora(addr);
            },
            1 => {
                self.and(addr);
            },
            2 => {
                self.eor(addr);
            },
            3 => {
                self.adc(addr);
            },
            4 => {
                self.sta(addr);
            },
            5 => {
                self.lda(addr);
            },
            6 => {
                self.cmp(addr);
            },
            _ => {
                self.sbc(addr);
            },
        };
    }

    pub fn group_two_three_bbb(&self, bbb: u8) -> (mode: AddressingMode)
        requires
            group_two_three_has_mode(bbb),
        ensures
            mode == group_two_three_mode(bbb),
    {
        match bbb {
            0 => AddressingMode::Immediate,
            1 => AddressingMode::ZeroPage,
            0b10 => AddressingMode::Accumulator,
            0b11 => AddressingMode::Absolute,
            0b101 => AddressingMode::ZeroPage_X,
            _ => AddressingMode::Absolute_X,
        }
    }

    pub fn group_two(&mut self, aaa: u8, bbb: u8, _cc: u8, op: u8)
        requires
            old(self).wf(),
            group_two_defined(aaa, bbb, op),
            old(self).cycles + 7 <= u8::MAX,
        ensures
            final(self).wf(),
            final(self)@ == old(self)@.group_two(aaa, bbb, op),
            final(self).cycles <= old(self).cycles + 7,
    {
        reveal(CpuState::group_two);
        let mode = {
            match op {
                0xB6 | 0x96 => AddressingMode::ZeroPage_Y,
                0xBE => AddressingMode::Absolute_Y,
                _ => self.group_two_three_bbb(bbb),
            }
        };
        let accum = matches!(mode, AddressingMode::Accumulator);
        let addr = if !accum {
            self.get_operand_address(&mode)
        } else {
            0
        };
        match aaa {
            4 | 5 => self.g1_cycles(&mode, addr, false),
            _ => self.g2_default_cycles(&mode),
        }
        match aaa {
            0 => {
                self.asl(addr, accum);
            },
            1 => {
                self.rol(addr, accum);
            },
            2 => {
                self.lsr(addr, accum);
            },
            3 => {
                self.ror(addr, accum);
            },
            4 => {
                self.stx(addr);
            },
            5 => {
                self.ldx(addr);
            },
            6 => {
                self.dec(addr);
            },
            _ => {
                self.inc(addr);
            },
        };
    }

    pub fn group_three(&mut self, aaa: u8, bbb: u8, _cc: u8)
        requires
            old(self).wf(),
            group_three_defined(aaa, bbb),
            old(self).cycles + 6 <= u8::MAX,
        ensures
            final(self).wf(),
            final(self)@ == old(self)@.group_three(aaa, bbb),
            final(self).cycles <= old(self).cycles + 6,
    {
        reveal(CpuState::group_three);
        if bbb == 0b100 {
            self.add_cycles(2);
            self.pc = self.pc.wrapping_add(1);
            match aaa {
                0b000 => self.if_clear_flag_branch(CpuFlags::NEGATIVE),
                0b001 => self.if_contain_flag_branch(CpuFlags::NEGATIVE),
                0b010 => self.if_clear_flag_branch(CpuFlags::OVERFLOW),
                0b011 => self.if_contain_flag_branch(CpuFlags::OVERFLOW),
                0b100 => self.if_clear_flag_branch(CpuFlags::CARRY),
                0b101 => self.if_contain_flag_branch(CpuFlags::CARRY),
                0b110 => self.if_clear_flag_branch(CpuFlags::ZERO),
                _ => self.if_contain_flag_branch(CpuFlags::ZERO),
            }
        } else {
            let mut mode = self.group_two_three_bbb(bbb);
            if aaa == 0b011 && bbb == 0b011 {
                mode = AddressingMode::Indirect;
            }
            let addr = self.get_operand_address(&mode);
            if aaa != 0b010 && aaa != 0b011 {
                self.g1_cycles(&mode, addr, false);
            } else {
                match mode {
                    AddressingMode::Absolute => self.add_cycles(3),
                    _ => self.add_cycles(5),
                }
            }
            match aaa {
                1 => {
                    self.bit(addr);
                },
                0b010 | 0b011 => {
                    self.jmp(addr);
                },
                4 => {
                    self.sty(addr);
                },
                5 => {
                    self.ldy(addr);
                },
                6 => {
                    self.cpy(addr);
                },
                _ => {
                    self.cpx(addr);
                },
            }
        }
    }

    pub fn rmw(&mut self, high: u8, low: u8)
        requires
            old(self).wf(),
            rmw_defined(high, low),
            old(self).cycles + 8 <= u8::MAX,
        ensures
            final(self).wf(),
            final(self)@ == old(self)@.rmw(high, low),
            final(self).cycles <= old(self).cycles + 8,
    {
        reveal(CpuState::rmw);
        let part: bool = (high % 2) == 0;
        let mode = if part {
            if low == 0x3 {
                self.add_cycles(8);
                AddressingMode::Indirect_X
            } else if low == 0x7 {
                self.add_cycles(5);
                AddressingMode::ZeroPage
            } else {
                self.add_cycles(6);
                AddressingMode::Absolute
            }
        } else {
            if low == 0x3 {
                self.add_cycles(8);
                AddressingMode::Indirect_Y
            } else if low == 0x7 {
                self.add_cycles(6);
                AddressingMode::ZeroPage_X
            } else if low == 0xB {
                self.add_cycles(7);
                AddressingMode::Absolute_Y
            } else {
                self.add_cycles(7);
                AddressingMode::Absolute_X
            }
        };
        let addr = self.get_operand_address(&mode);
        match high {
            0xC | 0xD => self.dcp(addr),
            0xE | 0xF => self.isc(addr),
            0x2 | 0x3 => self.rla(addr),
            0x6 | 0x7 => self.rra(addr),
            0x0 | 0x1 => self.slo(addr),
            _ => self.sre(addr),
        }
    }
}

} // verus!
