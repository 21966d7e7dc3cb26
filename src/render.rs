//! Background rendering of the first nametable, with a fixed palette.
use vstd::prelude::*;

use crate::control::ControlRegister;
use crate::frame::{Frame, FRAME_BYTES};
use crate::palette::{system_color, system_palette};
use crate::ppu::{NesPPU, PpuView};

verus! {

/// The two-bit colour index of screen pixel (`x`, `y`): the tile of the
/// first nametable under it, looked up in the background pattern table,
/// bit `7 - x % 8` of its row byte (high bit) and of the row byte 8 further
/// on (low bit).
pub open spec fn background_pixel(ppu: PpuView, x: int, y: int) -> u8 {
    let tile = ppu.vram[(y / 8) * 32 + x / 8];
    let bank = if ppu.ctrl.has(ControlRegister::BACKGROUND_PATTERN_ADDR) {
        0x1000int
    } else {
        0int
    };
    let row = bank + tile * 16 + y % 8;
    let b = (7 - x % 8) as u8;
    (((ppu.chr_rom[row] >> b) & 1) << 1u8) | ((ppu.chr_rom[row + 8] >> b) & 1)
}

/// The fixed background palette: system colours 0x01, 0x23, 0x27, 0x30.
pub open spec fn background_color(v: u8) -> (u8, u8, u8) {
    if v == 0 {
        system_color(0x01)
    } else if v == 1 {
        system_color(0x23)
    } else if v == 2 {
        system_color(0x27)
    } else {
        system_color(0x30)
    }
}

/// Byte `j` of the rendered frame.
pub open spec fn frame_byte(ppu: PpuView, j: int) -> u8 {
    let k = j / 3;
    let rgb = background_color(background_pixel(ppu, k % 256, k / 256));
    if j % 3 == 0 {
        rgb.0
    } else if j % 3 == 1 {
        rgb.1
    } else {
        rgb.2
    }
}

fn background_pixel_exec(ppu: &NesPPU, bank: u16, x: usize, y: usize) -> (r: u8)
    requires
        ppu@.wf(),
        x < 256,
        y < 240,
        bank == (if ppu@.ctrl.has(ControlRegister::BACKGROUND_PATTERN_ADDR) {
            0x1000u16
        } else {
            0u16
        }),
    ensures
        r == background_pixel(ppu@, x as int, y as int),
{
    let tile = ppu.vram[(y / 8) * 32 + x / 8] as usize;
    let row = bank as usize + tile * 16 + y % 8;
    let b = (7 - x % 8) as u8;
    (((ppu.chr_rom[row] >> b) & 1) << 1u8) | ((ppu.chr_rom[row + 8] >> b) & 1)
}

fn background_color_exec(v: u8) -> (r: (u8, u8, u8))
    ensures
        r == background_color(v),
{
    if v == 0 {
        system_palette(0x01)
    } else if v == 1 {
        system_palette(0x23)
    } else if v == 2 {
        system_palette(0x27)
    } else {
        system_palette(0x30)
    }
}

/// Draws the background of the first nametable (32x30 tiles) into the frame.
pub fn render(ppu: &NesPPU, frame: &mut Frame)
    requires
        ppu@.wf(),
        old(frame).data@.len() == FRAME_BYTES,
    ensures
        final(frame).data@.len() == FRAME_BYTES,
        forall|j: int| 0 <= j < FRAME_BYTES ==> #[trigger] final(frame).data@[j] == frame_byte(ppu@, j),
{
    let bank = ppu.ctrl.bknd_pattern_addr();
    let mut k: usize = 0;
    while k < 256 * 240
        invariant
            k <= 256 * 240,
            ppu@.wf(),
            frame.data@.len() == FRAME_BYTES,
            bank == (if ppu@.ctrl.has(ControlRegister::BACKGROUND_PATTERN_ADDR) {
                0x1000u16
            } else {
                0u16
            }),
            forall|j: int| 0 <= j < 3 * k ==> #[trigger] frame.data@[j] == frame_byte(ppu@, j),
        decreases 256 * 240 - k,
    {
        let x = k % 256;
        let y = k / 256;
        let v = background_pixel_exec(ppu, bank, x, y);
        let rgb = background_color_exec(v);
        frame.set_pixcel(x, y, rgb);
        assert(y * 256 + x == k);
        assert forall|j: int| 0 <= j < 3 * (k + 1) implies #[trigger] frame.data@[j] == frame_byte(
            ppu@,
            j,
        ) by {
            if j >= 3 * k {
                assert(j / 3 == k);
            }
        }
        k += 1;
    }
}

/// The colour index of pixel (`x`, `y`) of an 8x8 tile of a pattern table.
pub open spec fn tile_pixel(chr: Seq<u8>, start: int, x: int, y: int) -> u8 {
    let b = (7 - x) as u8;
    (((chr[start + y] >> b) & 1) << 1u8) | ((chr[start + y + 8] >> b) & 1)
}

/// Byte `j` of the tile sheet of pattern table `bank`: tiles 0 to 254 in rows
/// of 20, each in a 10x10 cell at the top left; the rest black.
pub open spec fn tile_sheet_byte(chr: Seq<u8>, bank: int, j: int) -> u8 {
    let k = j / 3;
    let px = k % 256;
    let py = k / 256;
    let n = (py / 10) * 20 + px / 10;
    if px % 10 < 8 && py % 10 < 8 && px / 10 < 20 && n < 255 {
        let rgb = background_color(tile_pixel(chr, bank * 0x1000 + n * 16, px % 10, py % 10));
        if j % 3 == 0 {
            rgb.0
        } else if j % 3 == 1 {
            rgb.1
        } else {
            rgb.2
        }
    } else {
        0
    }
}

/// Draws the first 255 tiles of pattern table `bank` (0 or 1) as a sheet.
pub fn show_tile_brank(chr_rom: &Vec<u8>, bank: usize) -> (r: Frame)
    requires
        chr_rom@.len() == 0x2000,
        bank <= 1,
    ensures
        r.data@.len() == FRAME_BYTES,
        forall|j: int| 0 <= j < FRAME_BYTES ==> #[trigger] r.data@[j] == tile_sheet_byte(
            chr_rom@,
            bank as int,
            j,
        ),
{
    let mut frame = Frame::new();
    let base = bank * 0x1000;
    let mut k: usize = 0;
    while k < 256 * 240
        invariant
            k <= 256 * 240,
            base == bank * 0x1000,
            bank <= 1,
            chr_rom@.len() == 0x2000,
            frame.data@.len() == FRAME_BYTES,
            forall|j: int| 0 <= j < 3 * k ==> #[trigger] frame.data@[j] == tile_sheet_byte(
                chr_rom@,
                bank as int,
                j,
            ),
            forall|j: int| 3 * k <= j < FRAME_BYTES ==> #[trigger] frame.data@[j] == 0,
        decreases 256 * 240 - k,
    {
        let x = k % 256;
        let y = k / 256;
        let n = (y / 10) * 20 + x / 10;
        if x % 10 < 8 && y % 10 < 8 && x / 10 < 20 && n < 255 {
            let start = base + n * 16;
            let b = (7 - x % 10) as u8;
            let row = start + y % 10;
            let v = (((chr_rom[row] >> b) & 1) << 1u8) | ((chr_rom[row + 8] >> b) & 1);
            let rgb = background_color_exec(v);
            frame.set_pixcel(x, y, rgb);
        }
        assert(y * 256 + x == k);
        assert forall|j: int| 0 <= j < 3 * (k + 1) implies #[trigger] frame.data@[j]
            == tile_sheet_byte(chr_rom@, bank as int, j) by {
            if j >= 3 * k {
                assert(j / 3 == k);
            }
        }
        k += 1;
    }
    frame
}

} // verus!
