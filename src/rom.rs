//! iNES (version 1) cartridge images.
use vstd::prelude::*;

use crate::error::NesError;

verus! {

pub const PRG_ROM_PAGE_SIZE: usize = 16384;
pub const CHR_ROM_PAGE_SIZE: usize = 8192;
pub const HEADER_SIZE: usize = 16;
pub const TRAINER_SIZE: usize = 512;

/// How the four logical nametables map onto the two physical ones.
#[allow(non_camel_case_types)]
#[derive(Clone, Copy, Debug, PartialEq, Eq, Structural)]
pub enum Mirroing {
    VERTICAL,
    HORIZONTAL,
    FOUR_SCREEN,
}

/// A parsed NROM cartridge.
pub struct Rom {
    pub prg_rom: Vec<u8>,
    pub chr_rom: Vec<u8>,
    pub mapper: u8,
    pub screen_mirroring: Mirroing,
}

pub open spec fn has_magic(raw: Seq<u8>) -> bool {
    raw.len() >= 16 && raw[0] == 0x4E && raw[1] == 0x45 && raw[2] == 0x53 && raw[3] == 0x1A
}

pub open spec fn mapper_of(raw: Seq<u8>) -> u8
    recommends
        raw.len() >= 16,
{
    (raw[6] >> 4u8) | (raw[7] & 0xF0u8)
}

pub open spec fn mirroring_of(flags6: u8) -> Mirroing {
    if flags6 & 0b1000u8 != 0 {
        Mirroing::FOUR_SCREEN
    } else if flags6 & 1u8 != 0 {
        Mirroing::VERTICAL
    } else {
        Mirroing::HORIZONTAL
    }
}

/// Offset of PRG ROM in the image: after the header and the trainer, if any.
pub open spec fn prg_start(raw: Seq<u8>) -> int {
    16 + if raw[6] & 0b100u8 != 0 { 512int } else { 0int }
}

pub open spec fn prg_size(raw: Seq<u8>) -> int {
    raw[4] as int * 16384
}

pub open spec fn chr_size(raw: Seq<u8>) -> int {
    raw[5] as int * 8192
}

/// The error that parsing `raw` ends in, if any, in the order the checks
/// are made: magic and version, mapper, then bank counts and length.
pub open spec fn parse_error(raw: Seq<u8>) -> Option<NesError> {
    if !has_magic(raw) || raw[7] & 0x0Fu8 != 0 {
        Some(NesError::InvalidHeader)
    } else if mapper_of(raw) != 0 {
        Some(NesError::UnsupportedMapper)
    } else if !(raw[4] == 1 || raw[4] == 2) || raw[5] != 1 || raw.len() < prg_start(raw)
        + prg_size(raw) + chr_size(raw) {
        Some(NesError::UnsupportedFormat)
    } else {
        None
    }
}

fn copy_range(raw: &Vec<u8>, start: usize, len: usize) -> (r: Vec<u8>)
    requires
        start + len <= raw.len(),
    ensures
        r@ == raw@.subrange(start as int, start + len),
{
    let mut r: Vec<u8> = Vec::with_capacity(len);
    let mut i: usize = 0;
    while i < len
        invariant
            start + len <= raw.len(),
            i <= len,
            r@ == raw@.subrange(start as int, start + i),
        decreases len - i,
    {
        r.push(raw[start + i]);
        i += 1;
        assert(r@ =~= raw@.subrange(start as int, start + i));
    }
    r
}

impl Rom {
    /// The shape of an NROM cartridge: 16 or 32 KiB of PRG ROM, 8 KiB of CHR ROM.
    pub open spec fn wf(&self) -> bool {
        &&& (self.prg_rom@.len() == 0x4000 || self.prg_rom@.len() == 0x8000)
        &&& self.chr_rom@.len() == 0x2000
        &&& self.mapper == 0
    }

    /// Parses an iNES image.
    pub fn new(raw: &Vec<u8>) -> (r: Result<Rom, NesError>)
        ensures
            match r {
                Ok(rom) => {
                    &&& parse_error(raw@) is None
                    &&& rom.prg_rom@ == raw@.subrange(
                        prg_start(raw@),
                        prg_start(raw@) + prg_size(raw@),
                    )
                    &&& rom.chr_rom@ == raw@.subrange(
                        prg_start(raw@) + prg_size(raw@),
                        prg_start(raw@) + prg_size(raw@) + chr_size(raw@),
                    )
                    &&& rom.wf()
                    &&& rom.screen_mirroring == mirroring_of(raw@[6])
                },
                Err(e) => parse_error(raw@) == Some(e),
            },
    {
        if raw.len() < HEADER_SIZE || raw[0] != 0x4E || raw[1] != 0x45 || raw[2] != 0x53 || raw[3]
            != 0x1A || raw[7] & 0x0F != 0 {
            return Err(NesError::InvalidHeader);
        }
        let mapper = (raw[6] >> 4u8) | (raw[7] & 0xF0u8);
        if mapper != 0 {
            return Err(NesError::UnsupportedMapper);
        }
        let prg_banks = raw[4];
        let chr_banks = raw[5];
        if !(prg_banks == 1 || prg_banks == 2) || chr_banks != 1 {
            return Err(NesError::UnsupportedFormat);
        }
        let prg_len = prg_banks as usize * PRG_ROM_PAGE_SIZE;
        let chr_len = chr_banks as usize * CHR_ROM_PAGE_SIZE;
        let prg_begin = HEADER_SIZE + if raw[6] & 0b100 != 0 {
            TRAINER_SIZE
        } else {
            0
        };
        if raw.len() < prg_begin + prg_len + chr_len {
            return Err(NesError::UnsupportedFormat);
        }
        let screen_mirroring = if raw[6] & 0b1000 != 0 {
            Mirroing::FOUR_SCREEN
        } else if raw[6] & 1 != 0 {
            Mirroing::VERTICAL
        } else {
            Mirroing::HORIZONTAL
        };
        let prg_rom = copy_range(raw, prg_begin, prg_len);
        let chr_rom = copy_range(raw, prg_begin + prg_len, chr_len);
        Ok(Rom { prg_rom, chr_rom, mapper, screen_mirroring })
    }
}

} // verus!
