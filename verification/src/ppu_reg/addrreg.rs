//! The address register, written twice through `$2006`.

use vstd::prelude::*;

verus! {

/// The 14-bit address into video memory. It is written a byte at a time,
/// high byte first; `hi_ptr` says which byte the next write sets.
#[derive(Clone, Copy, Debug, PartialEq, Eq, Structural)]
pub struct AddrRegister {
    pub value: u16,
    pub hi_ptr: bool,
}

impl AddrRegister {
    /// The address stays inside the 16 KiB of video address space.
    pub open spec fn wf(self) -> bool {
        self.value < 0x4000
    }

    /// The register after one write of `data`.
    pub open spec fn updated(self, data: u8) -> AddrRegister {
        if self.hi_ptr {
            AddrRegister {
                value: ((data as int * 0x100 + self.value % 0x100) % 0x4000) as u16,
                hi_ptr: false,
            }
        } else {
            AddrRegister {
                value: ((self.value / 0x100 * 0x100 + data as int) % 0x4000) as u16,
                hi_ptr: true,
            }
        }
    }

    /// The register after a data access moved it on by `step`.
    pub open spec fn incremented(self, step: u8) -> AddrRegister {
        AddrRegister { value: ((self.value + step) % 0x4000) as u16, ..self }
    }

    pub fn new() -> (r: AddrRegister)
        ensures
            r == (AddrRegister { value: 0, hi_ptr: true }),
            r.wf(),
    {
        AddrRegister { value: 0, hi_ptr: true }
    }

    pub fn update(&mut self, data: u8)
        ensures
            *final(self) == old(self).updated(data),
            final(self).wf(),
    {
        if self.hi_ptr {
            self.value = (data as u16 % 0x40) * 0x100 + self.value % 0x100;
        } else {
            self.value = (self.value / 0x100 % 0x40) * 0x100 + data as u16;
        }
        self.hi_ptr = !self.hi_ptr;
    }

    pub fn increment(&mut self, inc: u8)
        requires
            old(self).wf(),
        ensures
            *final(self) == old(self).incremented(inc),
            final(self).wf(),
    {
        self.value = (self.value + inc as u16) % 0x4000;
    }

    pub fn reset_latch(&mut self)
        ensures
            *final(self) == (AddrRegister { hi_ptr: true, ..*old(self) }),
    {
        self.hi_ptr = true;
    }

    pub fn get(&self) -> (addr: u16)
        ensures
            addr == self.value,
    {
        self.value
    }
}

} // verus!
