//! Errors raised by the emulator core. Each one is fatal to a run.
use vstd::prelude::*;

verus! {

#[derive(Clone, Copy, Debug, PartialEq, Eq, Structural)]
pub enum NesError {
    /// The image does not start with `NES\x1A`, or is not iNES version 1.
    InvalidHeader,
    /// The cartridge needs a mapper other than NROM (mapper 0).
    UnsupportedMapper,
    /// The bank counts are not those of an NROM cartridge, or the image is
    /// shorter than its header announces.
    UnsupportedFormat,
    /// A CPU write into cartridge PRG ROM (`$8000..=$FFFF`), at this address.
    WriteToRom(u16),
    /// A CPU read of a write-only PPU register, at this address.
    ReadFromWriteOnlyRegister(u16),
    /// A CPU write to the PPU status register, at this address.
    WriteToReadOnlyRegister(u16),
    /// An opcode byte that the instruction table does not hold.
    UnknownOpcode(u8),
    /// A nametable access on a four-screen cartridge.
    UnsupportedMirroring,
}

} // verus!
