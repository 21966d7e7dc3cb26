//! The PPU control register (`$2000`).
use vstd::prelude::*;

verus! {

/// Bits written by the CPU to `$2000`.
#[derive(Clone, Copy, Debug, PartialEq, Eq, Structural)]
pub struct ControlRegister {
    pub bits: u8,
}

impl ControlRegister {
    pub const NAMETABLE1: u8 = 0b0000_0001;
    pub const NAMETABLE2: u8 = 0b0000_0010;
    pub const VRAM_ADDR_INCREMENT: u8 = 0b0000_0100;
    pub const SPRITE_PATTERN_ADDR: u8 = 0b0000_1000;
    pub const BACKGROUND_PATTERN_ADDR: u8 = 0b0001_0000;
    pub const SPRITE_SIZE: u8 = 0b0010_0000;
    pub const MASTER_SLAVE_SELECT: u8 = 0b0100_0000;
    pub const GENERATE_NMI: u8 = 0b1000_0000;

    /// Whether every bit of `flag` is set.
    pub open spec fn has(self, flag: u8) -> bool {
        self.bits & flag == flag
    }

    pub fn new() -> (r: Self)
        ensures
            r.bits == 0,
    {
        ControlRegister { bits: 0 }
    }

    pub fn contains(&self, flag: u8) -> (r: bool)
        ensures
            r == self.has(flag),
    {
        self.bits & flag == flag
    }

    /// Step added to the VRAM address after each `$2007` access: 1 or 32.
    pub fn vram_addr_increment(&self) -> (r: u8)
        ensures
            r == (if self.has(Self::VRAM_ADDR_INCREMENT) { 32u8 } else { 1u8 }),
    {
        if !self.contains(Self::VRAM_ADDR_INCREMENT) {
            1
        } else {
            32
        }
    }

    pub fn update(&mut self, data: u8)
        ensures
            final(self).bits == data,
    {
        self.bits = data;
    }

    /// Whether an NMI is to be raised when vertical blank starts.
    pub fn generate_vblank_status(&self) -> (r: bool)
        ensures
            r == self.has(Self::GENERATE_NMI),
    {
        self.contains(Self::GENERATE_NMI)
    }

    /// Base of the background pattern table in CHR memory.
    pub fn bknd_pattern_addr(&self) -> (r: u16)
        ensures
            r == (if self.has(Self::BACKGROUND_PATTERN_ADDR) { 0x1000u16 } else { 0u16 }),
    {
        if self.contains(Self::BACKGROUND_PATTERN_ADDR) {
            0x1000
        } else {
            0
        }
    }

    /// Base of the sprite pattern table in CHR memory.
    pub fn sprt_pattern_addr(&self) -> (r: u16)
        ensures
            r == (if self.has(Self::SPRITE_PATTERN_ADDR) { 0x1000u16 } else { 0u16 }),
    {
        if self.contains(Self::SPRITE_PATTERN_ADDR) {
            0x1000
        } else {
            0
        }
    }
}

} // verus!
