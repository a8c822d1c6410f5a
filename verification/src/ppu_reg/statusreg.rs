//! The status register, read through `$2002`.

use vstd::prelude::*;

verus! {

/// The status byte of the picture processor. Only the top three bits exist.
///
/// ```text
/// 7  bit  0
/// VSO. ....
/// ||+------- sprite overflow
/// |+-------- sprite 0 hit
/// +--------- vertical blanking has started
/// ```
#[derive(Clone, Copy, Debug, PartialEq, Eq, Structural)]
pub struct StatusRegister {
    pub bits: u8,
}

impl StatusRegister {
    pub const VBLANK: u8 = 0b1000_0000;

    pub const ZEROHIT: u8 = 0b0100_0000;

    pub const OVERFLOW: u8 = 0b0010_0000;

    /// Every bit of `mask` is set.
    pub open spec fn has(self, mask: u8) -> bool {
        self.bits & mask == mask
    }

    /// The register with the bits of `mask` switched on or off.
    pub open spec fn with(self, mask: u8, on: bool) -> StatusRegister {
        if on {
            StatusRegister { bits: self.bits | mask }
        } else {
            StatusRegister { bits: self.bits & !mask }
        }
    }

    /// Whether the picture processor is in vertical blanking.
    pub open spec fn in_vblank(self) -> bool {
        self.has(StatusRegister::VBLANK)
    }

    pub fn new() -> (r: StatusRegister)
        ensures
            r.bits == 0,
    {
        StatusRegister { bits: 0 }
    }

    pub fn clear_vblank(&mut self)
        ensures
            *final(self) == old(self).with(StatusRegister::VBLANK, false),
    {
        self.bits = self.bits & !StatusRegister::VBLANK;
    }

    pub fn get_status(&self) -> (b: u8)
        ensures
            b == self.bits,
    {
        self.bits
    }

    pub fn set_vblank_status(&mut self, val: bool)
        ensures
            *final(self) == old(self).with(StatusRegister::VBLANK, val),
    {
        if val {
            self.bits = self.bits | StatusRegister::VBLANK;
        } else {
            self.bits = self.bits & !StatusRegister::VBLANK;
        }
    }

    pub fn set_sprite_zero_hit(&mut self, val: bool)
        ensures
            *final(self) == old(self).with(StatusRegister::ZEROHIT, val),
    {
        if val {
            self.bits = self.bits | StatusRegister::ZEROHIT;
        } else {
            self.bits = self.bits & !StatusRegister::ZEROHIT;
        }
    }

    pub fn is_in_vblank(&self) -> (b: bool)
        ensures
            b == self.in_vblank(),
    {
        self.bits & StatusRegister::VBLANK == StatusRegister::VBLANK
    }

    pub fn reset_vblank_status(&mut self)
        ensures
            *final(self) == old(self).with(StatusRegister::VBLANK, false),
    {
        self.bits = self.bits & !StatusRegister::VBLANK;
    }

    pub fn snapshot(&self) -> (b: u8)
        ensures
            b == self.bits,
    {
        self.bits
    }
}

/// Setting the blanking bit shows in the top bit of the byte, clearing it
/// empties the top bit, and neither touches the sprite bits.
pub proof fn lemma_vblank_bit(r: StatusRegister)
    ensures
        r.with(StatusRegister::VBLANK, true).in_vblank(),
        !r.with(StatusRegister::VBLANK, false).in_vblank(),
        r.with(StatusRegister::VBLANK, true).bits >> 7 == 1,
        r.with(StatusRegister::VBLANK, false).bits >> 7 == 0,
        r.with(StatusRegister::VBLANK, true).has(StatusRegister::ZEROHIT) == r.has(
            StatusRegister::ZEROHIT,
        ),
        r.with(StatusRegister::VBLANK, false).has(StatusRegister::ZEROHIT) == r.has(
            StatusRegister::ZEROHIT,
        ),
{
    let b = r.bits;
    assert((b | 0x80) & 0x80 == 0x80 && (b & !0x80u8) & 0x80 != 0x80 && (b | 0x80) >> 7 == 1 && (b
        & !0x80u8) >> 7 == 0 && (((b | 0x80) & 0x40 == 0x40) == (b & 0x40 == 0x40)) && (((b
        & !0x80u8) & 0x40 == 0x40) == (b & 0x40 == 0x40))) by (bit_vector);
}

} // verus!
