//! The joypad: eight buttons behind a one-bit shift register.

use vstd::prelude::*;

verus! {

/// The eight buttons of a joypad, one bit each.
#[derive(Clone, Copy, Debug, PartialEq, Eq, Structural)]
pub struct ControllerButton {
    pub bits: u8,
}

impl ControllerButton {
    pub const RIGHT: u8 = 0b1000_0000;

    pub const LEFT: u8 = 0b0100_0000;

    pub const DOWN: u8 = 0b0010_0000;

    pub const UP: u8 = 0b0001_0000;

    pub const START: u8 = 0b0000_1000;

    pub const SELECT: u8 = 0b0000_0100;

    pub const B: u8 = 0b0000_0010;

    pub const A: u8 = 0b0000_0001;

    /// The buttons with those of `mask` pressed or released.
    pub open spec fn with(self, mask: u8, on: bool) -> ControllerButton {
        if on {
            ControllerButton { bits: self.bits | mask }
        } else {
            ControllerButton { bits: self.bits & !mask }
        }
    }

    pub fn from_bits_truncate(bits: u8) -> (b: ControllerButton)
        ensures
            b.bits == bits,
    {
        ControllerButton { bits }
    }

    pub fn bits(&self) -> (b: u8)
        ensures
            b == self.bits,
    {
        self.bits
    }

    pub fn set(&mut self, mask: u8, value: bool)
        ensures
            *final(self) == old(self).with(mask, value),
    {
        if value {
            self.bits = self.bits | mask;
        } else {
            self.bits = self.bits & !mask;
        }
    }
}

/// A joypad as the processor sees it through `$4016`.
///
/// While the strobe is high the pad keeps reporting its first button. Once
/// the strobe is low, each read reports the next button, lowest bit first,
/// and after the eighth every read reports 1.
#[derive(Clone, Copy, Debug, PartialEq, Eq, Structural)]
pub struct Controller {
    pub strobe: bool,
    pub button_index: u8,
    pub button_status: ControllerButton,
}

impl Controller {
    /// What a read reports.
    pub open spec fn read_value(self) -> u8 {
        if self.button_index > 7 {
            1
        } else {
            (self.button_status.bits >> self.button_index) & 1
        }
    }

    /// The pad after a read.
    pub open spec fn after_read(self) -> Controller {
        if self.button_index <= 7 && !self.strobe {
            Controller { button_index: (self.button_index + 1) as u8, ..self }
        } else {
            self
        }
    }

    /// The pad after `data` was written to it.
    pub open spec fn after_write(self, data: u8) -> Controller {
        if data & 1 == 1 {
            Controller { strobe: true, button_index: 0, ..self }
        } else {
            Controller { strobe: false, ..self }
        }
    }

    pub fn new() -> (c: Controller)
        ensures
            c == (Controller {
                strobe: false,
                button_index: 0,
                button_status: ControllerButton { bits: 0 },
            }),
    {
        Controller {
            strobe: false,
            button_index: 0,
            button_status: ControllerButton::from_bits_truncate(0b0000_0000),
        }
    }

    pub fn write(&mut self, data: u8)
        ensures
            *final(self) == old(self).after_write(data),
    {
        self.strobe = data & 1 == 1;
        if self.strobe {
            self.button_index = 0
        }
    }

    pub fn read(&mut self) -> (response: u8)
        ensures
            response == old(self).read_value(),
            *final(self) == old(self).after_read(),
    {
        if self.button_index > 7 {
            return 1;
        }
        let response = (self.button_status.bits() >> self.button_index) & 1;
        if !self.strobe && self.button_index <= 7 {
            self.button_index += 1;
        }
        response
    }

    /// What a read would report, without the read taking place.
    pub fn peek(&self) -> (response: u8)
        ensures
            response == self.read_value(),
    {
        if self.button_index > 7 {
            1
        } else {
            (self.button_status.bits() >> self.button_index) & 1
        }
    }

    pub fn set_button_pressed_status(&mut self, button: u8, input: bool)
        ensures
            *final(self) == (Controller {
                button_status: old(self).button_status.with(button, input),
                ..*old(self)
            }),
    {
        self.button_status.set(button, input);
    }
}

} // verus!
