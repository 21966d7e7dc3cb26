//! The PPU mask register (`$2001`): stored, with no effect on rendering.
use vstd::prelude::*;

verus! {

#[derive(Clone, Copy, Debug, PartialEq, Eq, Structural)]
pub struct MaskRegister {
    pub bits: u8,
}

impl MaskRegister {
    pub const GREYSCALE: u8 = 0b0000_0001;
    pub const LEFTMOST_8PXL_BACKGROUND: u8 = 0b0000_0010;
    pub const LEFTMOST_8PXL_SPRITE: u8 = 0b0000_0100;
    pub const SHOW_BACKGROUND: u8 = 0b0000_1000;
    pub const SHOW_SPRITES: u8 = 0b0001_0000;
    pub const EMPHASIZE_RED: u8 = 0b0010_0000;
    pub const EMPHASIZE_GREEN: u8 = 0b0100_0000;
    pub const EMPHASIZE_BLUE: u8 = 0b1000_0000;

    pub fn new() -> (r: Self)
        ensures
            r.bits == 0,
    {
        MaskRegister { bits: 0 }
    }

    pub fn update(&mut self, data: u8)
        ensures
            final(self).bits == data,
    {
        self.bits = data;
    }
}

} // verus!
