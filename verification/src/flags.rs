//! The processor status register.

use vstd::prelude::*;

verus! {

/// The eight status bits of the processor, packed into one byte as the
/// hardware pushes them: `NV1B DIZC` from bit 7 down to bit 0.
#[derive(Clone, Copy, Debug, PartialEq, Eq, Hash, Structural)]
pub struct CpuFlags {
    pub bits: u8,
}

impl CpuFlags {
    pub const CARRY: u8 = 0b0000_0001;

    pub const ZERO: u8 = 0b0000_0010;

    pub const INTERRUPT_DISABLE: u8 = 0b0000_0100;

    pub const DECIMAL_MODE: u8 = 0b0000_1000;

    pub const BREAK: u8 = 0b0001_0000;

    pub const BREAK2: u8 = 0b0010_0000;

    pub const OVERFLOW: u8 = 0b0100_0000;

    pub const NEGATIVE: u8 = 0b1000_0000;

    /// Every bit of `mask` is set in `self`.
    pub open spec fn has(self, mask: u8) -> bool {
        self.bits & mask == mask
    }

    /// `self` with the bits of `mask` switched on or off.
    pub open spec fn with(self, mask: u8, on: bool) -> CpuFlags {
        if on {
            CpuFlags { bits: self.bits | mask }
        } else {
            CpuFlags { bits: self.bits & !mask }
        }
    }

    /// `self` with Zero and Negative describing `value`, all else untouched.
    pub open spec fn with_zn(self, value: u8) -> CpuFlags {
        self.with(CpuFlags::ZERO, value == 0).with(CpuFlags::NEGATIVE, value >= 0x80)
    }

    /// The byte that goes on the stack for these flags: the unused bit is
    /// always set in it, and Break says whether an instruction (PHP, BRK)
    /// or an interrupt pushes it.
    pub open spec fn pushed(self, by_instruction: bool) -> u8 {
        self.with(CpuFlags::BREAK, by_instruction).with(CpuFlags::BREAK2, true).bits
    }

    pub fn from_bits_truncate(bits: u8) -> (f: CpuFlags)
        ensures
            f.bits == bits,
    {
        CpuFlags { bits }
    }

    pub fn bits(&self) -> (b: u8)
        ensures
            b == self.bits,
    {
        self.bits
    }

    pub fn contains(&self, other: u8) -> (b: bool)
        ensures
            b == self.has(other),
    {
        self.bits & other == other
    }

    pub fn insert(&mut self, other: u8)
        ensures
            *final(self) == old(self).with(other, true),
    {
        self.bits = self.bits | other;
    }

    pub fn remove(&mut self, other: u8)
        ensures
            *final(self) == old(self).with(other, false),
    {
        self.bits = self.bits & !other;
    }

    pub fn set(&mut self, other: u8, value: bool)
        ensures
            *final(self) == old(self).with(other, value),
    {
        if value {
            self.insert(other);
        } else {
            self.remove(other);
        }
    }
}

/// Switching one status bit never disturbs another, and the bit itself
/// reads back as it was written.
pub proof fn lemma_with_single_bit(f: CpuFlags, i: u8, j: u8, on: bool)
    requires
        i < 8,
        j < 8,
    ensures
        f.with(1u8 << i, on).has(1u8 << j) == (if i == j {
            on
        } else {
            f.has(1u8 << j)
        }),
{
    let b = f.bits;
    assert(i < 8 && j < 8 ==> ((b | (1u8 << i)) & (1u8 << j) == (1u8 << j)) == (i == j || (b & (1u8
        << j) == (1u8 << j)))) by (bit_vector);
    assert(i < 8 && j < 8 ==> ((b & !(1u8 << i)) & (1u8 << j) == (1u8 << j)) == (i != j && (b & (
    1u8 << j) == (1u8 << j)))) by (bit_vector);
}

/// The status byte on the stack always has the unused bit set, has Break
/// set exactly if an instruction pushed it, and has the six other flags
/// as they are.
pub proof fn lemma_pushed_status(f: CpuFlags, by_instruction: bool)
    ensures
        f.pushed(by_instruction) & CpuFlags::BREAK2 == CpuFlags::BREAK2,
        (f.pushed(by_instruction) & CpuFlags::BREAK == CpuFlags::BREAK) == by_instruction,
        f.pushed(by_instruction) & 0b1100_1111 == f.bits & 0b1100_1111,
{
    let b = f.bits;
    assert(((b | 0x10u8) | 0x20u8) & 0x20u8 == 0x20u8 && ((b & !0x10u8) | 0x20u8) & 0x20u8
        == 0x20u8 && ((b | 0x10u8) | 0x20u8) & 0x10u8 == 0x10u8 && ((b & !0x10u8) | 0x20u8)
        & 0x10u8 != 0x10u8 && ((b | 0x10u8) | 0x20u8) & 0xCFu8 == b & 0xCFu8 && ((b & !0x10u8)
        | 0x20u8) & 0xCFu8 == b & 0xCFu8) by (bit_vector);
}

} // verus!
