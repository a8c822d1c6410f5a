//! The control register, written through `$2000`.

use vstd::prelude::*;

verus! {

/// The control byte of the picture processor.
///
/// ```text
/// 7  bit  0
/// VPHB SINN
/// |||| ||++- base nametable (0: $2000, 1: $2400, 2: $2800, 3: $2C00)
/// |||| |+--- video memory step per data access (0: 1, 1: 32)
/// |||| +---- sprite pattern table (0: $0000, 1: $1000)
/// |||+------ background pattern table (0: $0000, 1: $1000)
/// ||+------- sprite size
/// |+-------- master/slave select
/// +--------- raise an interrupt at the start of vertical blanking
/// ```
#[derive(Clone, Copy, Debug, PartialEq, Eq, Structural)]
pub struct ControlRegister {
    pub bits: u8,
}

impl ControlRegister {
    pub const NAMETABLE1: u8 = 0b0000_0001;

    pub const NAMETABLE2: u8 = 0b0000_0010;

    pub const VRAM_ADD_INCREMENT: u8 = 0b0000_0100;

    pub const SPRITE_PATTERN_ADDR: u8 = 0b0000_1000;

    pub const BACKGROUND_PATTERN_ADDR: u8 = 0b0001_0000;

    pub const SPRITE_SIZE: u8 = 0b0010_0000;

    pub const MASTER_SLAVE_SELECT: u8 = 0b0100_0000;

    pub const GENERATE_NMI: u8 = 0b1000_0000;

    /// Every bit of `mask` is set.
    pub open spec fn has(self, mask: u8) -> bool {
        self.bits & mask == mask
    }

    /// The step that a data access advances the video address by.
    pub open spec fn step(self) -> u8 {
        if self.has(ControlRegister::VRAM_ADD_INCREMENT) {
            32
        } else {
            1
        }
    }

    /// Whether the start of vertical blanking raises an interrupt.
    pub open spec fn nmi_enabled(self) -> bool {
        self.has(ControlRegister::GENERATE_NMI)
    }

    /// The base address of the selected nametable.
    pub open spec fn nametable_base(self) -> int {
        0x2000 + (if self.has(ControlRegister::NAMETABLE1) {
            0x400int
        } else {
            0
        }) + (if self.has(ControlRegister::NAMETABLE2) {
            0x800int
        } else {
            0
        })
    }

    pub fn new() -> (r: ControlRegister)
        ensures
            r.bits == 0,
    {
        ControlRegister { bits: 0 }
    }

    pub fn contains(&self, mask: u8) -> (b: bool)
        ensures
            b == self.has(mask),
    {
        self.bits & mask == mask
    }

    pub fn vram_addr_increment(&self) -> (step: u8)
        ensures
            step == self.step(),
    {
        if !self.contains(ControlRegister::VRAM_ADD_INCREMENT) {
            1
        } else {
            32
        }
    }

    pub fn bknd_pattern_addr(&self) -> (addr: u16)
        ensures
            addr == if self.has(ControlRegister::BACKGROUND_PATTERN_ADDR) {
                0x1000u16
            } else {
                0u16
            },
    {
        if self.contains(ControlRegister::BACKGROUND_PATTERN_ADDR) {
            0x1000
        } else {
            0
        }
    }

    pub fn update(&mut self, data: u8)
        ensures
            final(self).bits == data,
    {
        self.bits = data;
    }

    pub fn nametable_addr(&self) -> (addr: u16)
        ensures
            addr == self.nametable_base(),
    {
        let mut addr: u16 = 0x2000;
        if self.contains(ControlRegister::NAMETABLE1) {
            addr = addr + 0x400;
        }
        if self.contains(ControlRegister::NAMETABLE2) {
            addr = addr + 0x800;
        }
        addr
    }

    pub fn sprt_pattern_addr(&self) -> (addr: u16)
        ensures
            addr == if self.has(ControlRegister::SPRITE_PATTERN_ADDR) {
                0x1000u16
            } else {
                0u16
            },
    {
        if !self.contains(ControlRegister::SPRITE_PATTERN_ADDR) {
            0
        } else {
            0x1000
        }
    }

    pub fn generate_vblank_nmi(&self) -> (on: bool)
        ensures
            on == self.nmi_enabled(),
    {
        self.contains(ControlRegister::GENERATE_NMI)
    }
}

} // verus!
