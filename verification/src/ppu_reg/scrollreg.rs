//! The scroll register, written twice through `$2005`.

use vstd::prelude::*;

verus! {

/// The scroll position: the first write sets the horizontal offset, the
/// second the vertical one, and so on in turn.
#[derive(Clone, Copy, Debug, PartialEq, Eq, Structural)]
pub struct ScrollRegister {
    pub scroll_x: u8,
    pub scroll_y: u8,
    pub latch: bool,
}

impl ScrollRegister {
    /// The register after one write of `data`.
    pub open spec fn written(self, data: u8) -> ScrollRegister {
        if !self.latch {
            ScrollRegister { scroll_x: data, latch: true, ..self }
        } else {
            ScrollRegister { scroll_y: data, latch: false, ..self }
        }
    }

    pub fn new() -> (r: ScrollRegister)
        ensures
            r == (ScrollRegister { scroll_x: 0, scroll_y: 0, latch: false }),
    {
        ScrollRegister { scroll_x: 0, scroll_y: 0, latch: false }
    }

    pub fn write(&mut self, data: u8)
        ensures
            *final(self) == old(self).written(data),
    {
        if !self.latch {
            self.scroll_x = data;
        } else {
            self.scroll_y = data;
        }
        self.latch = !self.latch;
    }

    pub fn reset_latch(&mut self)
        ensures
            *final(self) == (ScrollRegister { latch: false, ..*old(self) }),
    {
        self.latch = false;
    }
}

} // verus!
