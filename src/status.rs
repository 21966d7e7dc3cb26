//! The PPU status register (`$2002`).
use vstd::prelude::*;

verus! {

#[derive(Clone, Copy, Debug, PartialEq, Eq, Structural)]
pub struct StatusRegister {
    pub bits: u8,
}

impl StatusRegister {
    pub const SPRITE_OVERFLOW_FLAG: u8 = 0b0010_0000;
    pub const SPRITE_ZERO_HIT: u8 = 0b0100_0000;
    pub const VBLANK_STARTED: u8 = 0b1000_0000;

    pub fn new() -> (r: Self)
        ensures
            r.bits == 0,
    {
        StatusRegister { bits: 0 }
    }

    pub fn set_start_vblank(&mut self)
        ensures
            final(self).bits == old(self).bits | 0x80,
    {
        self.bits = self.bits | Self::VBLANK_STARTED;
    }

    pub fn set_end_vblank(&mut self)
        ensures
            final(self).bits == old(self).bits & 0x7F,
    {
        self.bits = self.bits & 0x7F;
    }

    pub fn is_in_vbrank(&self) -> (r: bool)
        ensures
            r == (self.bits >= 0x80),
    {
        self.bits >= 0x80
    }

    pub fn snapshot(&self) -> (r: u8)
        ensures
            r == self.bits,
    {
        self.bits
    }
}

} // verus!
