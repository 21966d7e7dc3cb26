//! A standard controller, read serially through `$4016`.
use vstd::prelude::*;

verus! {

/// Button bits, in the order the controller reports them (A first).
pub struct JoypadButton {
    pub bits: u8,
}

impl JoypadButton {
    pub const BUTTON_A: u8 = 0b0000_0001;
    pub const BUTTON_B: u8 = 0b0000_0010;
    pub const SELECT: u8 = 0b0000_0100;
    pub const START: u8 = 0b0000_1000;
    pub const UP: u8 = 0b0001_0000;
    pub const DOWN: u8 = 0b0010_0000;
    pub const LEFT: u8 = 0b0100_0000;
    pub const RIGHT: u8 = 0b1000_0000;
}

pub struct Joypad {
    pub strobe: bool,
    pub button_index: u8,
    pub button_status: u8,
}

impl Joypad {
    pub fn new() -> (r: Self)
        ensures
            !r.strobe,
            r.button_index == 0,
            r.button_status == 0,
    {
        Joypad { strobe: false, button_index: 0, button_status: 0 }
    }

    /// A write to `$4016`: bit 0 set enters strobe mode and rewinds to
    /// button A; clear, it latches the buttons for serial reading.
    pub fn write(&mut self, data: u8)
        ensures
            final(self).strobe == (data & 1 == 1),
            final(self).button_index == (if data & 1 == 1 {
                0
            } else {
                old(self).button_index
            }),
            final(self).button_status == old(self).button_status,
    {
        self.strobe = data & 1 == 1;
        if self.strobe {
            self.button_index = 0;
        }
    }

    /// A read of `$4016`: the state of the next button; 1 after all eight.
    pub fn read(&mut self) -> (r: u8)
        ensures
            r == (if old(self).button_index > 7 {
                1
            } else {
                (old(self).button_status >> old(self).button_index) & 1
            }),
            final(self).button_index == (if !old(self).strobe && old(self).button_index <= 7 {
                (old(self).button_index + 1) as u8
            } else {
                old(self).button_index
            }),
            final(self).strobe == old(self).strobe,
            final(self).button_status == old(self).button_status,
    {
        if self.button_index > 7 {
            return 1;
        }
        let response = (self.button_status >> self.button_index) & 1;
        if !self.strobe {
            self.button_index = self.button_index + 1;
        }
        response
    }

    /// Records a button (one of the `JoypadButton` bits) as pressed or released.
    pub fn set_button_pressed_status(&mut self, button: u8, pressed: bool)
        ensures
            final(self).button_status == (if pressed {
                old(self).button_status | button
            } else {
                old(self).button_status & !button
            }),
            final(self).strobe == old(self).strobe,
            final(self).button_index == old(self).button_index,
    {
        if pressed {
            self.button_status = self.button_status | button;
        } else {
            self.button_status = self.button_status & !button;
        }
    }
}

} // verus!
