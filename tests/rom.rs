use nes::error::NesError;
use nes::rom::{Mirroing, Rom};

fn image(flags6: u8, flags7: u8, prg_banks: u8, chr_banks: u8, body: usize) -> Vec<u8> {
    let mut raw = vec![0x4E, 0x45, 0x53, 0x1A, prg_banks, chr_banks, flags6, flags7];
    raw.resize(16, 0);
    for i in 0..body {
        raw.push((i % 251) as u8);
    }
    raw
}

#[test]
fn rom_parses_prg_and_chr() {
    let raw = image(0x00, 0x00, 1, 1, 16384 + 8192);
    let rom = Rom::new(&raw).unwrap();
    assert_eq!(rom.prg_rom.len(), 16384);
    assert_eq!(rom.chr_rom.len(), 8192);
    assert_eq!(rom.prg_rom[0], 0);
    assert_eq!(rom.prg_rom[300], (300 % 251) as u8);
    assert_eq!(rom.chr_rom[0], (16384 % 251) as u8);
    assert_eq!(rom.mapper, 0);
    assert_eq!(rom.screen_mirroring, Mirroing::HORIZONTAL);
}

#[test]
fn rom_mirroring_bits() {
    let vertical = Rom::new(&image(0x01, 0x00, 1, 1, 16384 + 8192)).unwrap();
    assert_eq!(vertical.screen_mirroring, Mirroing::VERTICAL);
    let four = Rom::new(&image(0x09, 0x00, 1, 1, 16384 + 8192)).unwrap();
    assert_eq!(four.screen_mirroring, Mirroing::FOUR_SCREEN);
}

#[test]
fn rom_skips_trainer() {
    let raw = image(0x04, 0x00, 2, 1, 512 + 32768 + 8192);
    let rom = Rom::new(&raw).unwrap();
    assert_eq!(rom.prg_rom.len(), 32768);
    assert_eq!(rom.prg_rom[0], (512 % 251) as u8);
    assert_eq!(rom.chr_rom[0], ((512 + 32768) % 251) as u8);
}

#[test]
fn rom_rejects_bad_magic() {
    let mut raw = image(0x00, 0x00, 1, 1, 16384 + 8192);
    raw[3] = 0x1B;
    assert_eq!(Rom::new(&raw).err(), Some(NesError::InvalidHeader));
    assert_eq!(Rom::new(&vec![0x4E, 0x45]).err(), Some(NesError::InvalidHeader));
}

#[test]
fn rom_rejects_other_version() {
    let raw = image(0x00, 0x08, 1, 1, 16384 + 8192);
    assert_eq!(Rom::new(&raw).err(), Some(NesError::InvalidHeader));
}

#[test]
fn rom_rejects_other_mapper() {
    let raw = image(0x31, 0x00, 2, 1, 32768 + 8192);
    assert_eq!(Rom::new(&raw).err(), Some(NesError::UnsupportedMapper));
    let raw = image(0x00, 0x10, 2, 1, 32768 + 8192);
    assert_eq!(Rom::new(&raw).err(), Some(NesError::UnsupportedMapper));
}

#[test]
fn rom_rejects_short_or_odd_sizes() {
    let raw = image(0x00, 0x00, 2, 1, 32768 + 8191);
    assert_eq!(Rom::new(&raw).err(), Some(NesError::UnsupportedFormat));
    let raw = image(0x00, 0x00, 3, 1, 3 * 16384 + 8192);
    assert_eq!(Rom::new(&raw).err(), Some(NesError::UnsupportedFormat));
    let raw = image(0x00, 0x00, 1, 0, 16384);
    assert_eq!(Rom::new(&raw).err(), Some(NesError::UnsupportedFormat));
}
