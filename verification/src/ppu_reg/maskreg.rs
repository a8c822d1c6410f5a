//! The mask register, written through `$2001`.

use vstd::prelude::*;

verus! {

/// The rendering switches of the picture processor.
///
/// ```text
/// 7  bit  0
/// BGRs bMmG
/// |||| |||+- greyscale
/// |||| ||+-- show background in the leftmost 8 pixels
/// |||| |+--- show sprites in the leftmost 8 pixels
/// |||| +---- show background
/// |||+------ show sprites
/// ||+------- emphasize red
/// |+-------- emphasize green
/// +--------- emphasize blue
/// ```
#[derive(Clone, Copy, Debug, PartialEq, Eq, Structural)]
pub struct MaskRegister {
    pub bits: u8,
}

impl MaskRegister {
    pub const BLUE: u8 = 0b1000_0000;

    pub const GREEN: u8 = 0b0100_0000;

    pub const RED: u8 = 0b0010_0000;

    pub const SPRITE: u8 = 0b0001_0000;

    pub const BACKGROUND: u8 = 0b0000_1000;

    pub const LEFTSPRITE: u8 = 0b0000_0100;

    pub const LEFTBG: u8 = 0b0000_0010;

    pub const GREY: u8 = 0b0000_0001;

    /// Every bit of `mask` is set.
    pub open spec fn has(self, mask: u8) -> bool {
        self.bits & mask == mask
    }

    /// Whether sprites are drawn at all.
    pub open spec fn sprites_shown(self) -> bool {
        self.has(MaskRegister::SPRITE)
    }

    pub fn new() -> (r: MaskRegister)
        ensures
            r.bits == 0,
    {
        MaskRegister { bits: 0 }
    }

    pub fn update(&mut self, data: u8)
        ensures
            final(self).bits == data,
    {
        self.bits = data;
    }

    pub fn show_sprites(&self) -> (shown: bool)
        ensures
            shown == self.sprites_shown(),
    {
        self.bits & MaskRegister::SPRITE == MaskRegister::SPRITE
    }
}

} // verus!
