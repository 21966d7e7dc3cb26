use nes::control::ControlRegister;
use nes::frame::Frame;
use nes::joypad::{Joypad, JoypadButton};
use nes::palette::system_palette;
use nes::ppu::{AddrRegister, NesPPU};
use nes::render::render;
use nes::rom::Mirroing;
use nes::status::StatusRegister;

fn ppu(mirroring: Mirroing) -> NesPPU {
    let chr: Vec<u8> = (0..0x2000).map(|i| (i % 256) as u8).collect();
    NesPPU::new(chr, mirroring)
}

fn set_addr(ppu: &mut NesPPU, addr: u16) {
    ppu.write_to_ppu_addr((addr >> 8) as u8);
    ppu.write_to_ppu_addr((addr & 0xff) as u8);
}

#[test]
fn addr_register_masks_and_wraps() {
    let mut a = AddrRegister::new();
    a.update(0xff);
    a.update(0x05);
    assert_eq!(a.get(), 0x3f05);
    a.increment(0xff);
    assert_eq!(a.get(), 0x4004 % 0x4000);
    a.reset_latch();
    a.update(0x21);
    assert_eq!(a.get(), 0x2104);
}

#[test]
fn control_register_fields() {
    let mut c = ControlRegister::new();
    assert_eq!(c.vram_addr_increment(), 1);
    assert_eq!(c.bknd_pattern_addr(), 0);
    c.update(0b1001_1100);
    assert_eq!(c.vram_addr_increment(), 32);
    assert_eq!(c.bknd_pattern_addr(), 0x1000);
    assert_eq!(c.sprt_pattern_addr(), 0x1000);
    assert!(c.generate_vblank_status());
}

#[test]
fn status_register_vblank() {
    let mut s = StatusRegister::new();
    s.set_start_vblank();
    assert!(s.is_in_vbrank());
    assert_eq!(s.snapshot(), 0x80);
    s.set_end_vblank();
    assert!(!s.is_in_vbrank());
}

#[test]
fn vram_write_and_buffered_read() {
    let mut p = ppu(Mirroing::HORIZONTAL);
    set_addr(&mut p, 0x2305);
    p.write_to_data(0x66).unwrap();
    set_addr(&mut p, 0x2305);
    assert_eq!(p.read_data(), Ok(0));
    assert_eq!(p.read_data(), Ok(0x66));
}

#[test]
fn chr_read_is_buffered() {
    let mut p = ppu(Mirroing::HORIZONTAL);
    set_addr(&mut p, 0x0105);
    assert_eq!(p.read_data(), Ok(0));
    assert_eq!(p.read_data(), Ok(0x05));
    assert_eq!(p.read_data(), Ok(0x06));
}

#[test]
fn increment_by_32() {
    let mut p = ppu(Mirroing::HORIZONTAL);
    p.write_to_ctrl(0b100);
    set_addr(&mut p, 0x21ff);
    p.write_to_data(0x66).unwrap();
    p.write_to_data(0x77).unwrap();
    set_addr(&mut p, 0x21ff);
    p.read_data().unwrap();
    assert_eq!(p.read_data(), Ok(0x66));
    assert_eq!(p.read_data(), Ok(0x77));
}

#[test]
fn horizontal_mirroring() {
    let mut p = ppu(Mirroing::HORIZONTAL);
    set_addr(&mut p, 0x2405);
    p.write_to_data(0x66).unwrap();
    set_addr(&mut p, 0x2805);
    p.write_to_data(0x77).unwrap();
    set_addr(&mut p, 0x2005);
    p.read_data().unwrap();
    assert_eq!(p.read_data(), Ok(0x66));
    set_addr(&mut p, 0x2c05);
    p.read_data().unwrap();
    assert_eq!(p.read_data(), Ok(0x77));
}

#[test]
fn vertical_mirroring() {
    let mut p = ppu(Mirroing::VERTICAL);
    set_addr(&mut p, 0x2005);
    p.write_to_data(0x66).unwrap();
    set_addr(&mut p, 0x2c05);
    p.write_to_data(0x77).unwrap();
    set_addr(&mut p, 0x2805);
    p.read_data().unwrap();
    assert_eq!(p.read_data(), Ok(0x66));
    set_addr(&mut p, 0x2405);
    p.read_data().unwrap();
    assert_eq!(p.read_data(), Ok(0x77));
    // $3000-$3EFF mirrors the nametables
    set_addr(&mut p, 0x3005);
    p.read_data().unwrap();
    assert_eq!(p.read_data(), Ok(0x66));
}

#[test]
fn four_screen_nametable_access_fails() {
    let mut p = ppu(Mirroing::FOUR_SCREEN);
    set_addr(&mut p, 0x2005);
    assert_eq!(p.write_to_data(1), Err(nes::error::NesError::UnsupportedMirroring));
    assert_eq!(p.read_data(), Err(nes::error::NesError::UnsupportedMirroring));
    // palette memory is no nametable: it works on any mirroring
    set_addr(&mut p, 0x3f00);
    assert_eq!(p.write_to_data(5), Ok(()));
    assert_eq!(p.palette_table[0], 5);
    set_addr(&mut p, 0x3f00);
    assert_eq!(p.read_data(), Ok(5));
}

#[test]
fn palette_read_is_immediate_and_write_aliased() {
    let mut p = ppu(Mirroing::HORIZONTAL);
    set_addr(&mut p, 0x3f10);
    p.write_to_data(0x2a).unwrap();
    set_addr(&mut p, 0x3f00);
    assert_eq!(p.read_data(), Ok(0x2a));
    assert_eq!(p.palette_table[0], 0x2a);
    assert_eq!(p.palette_table[0x10], 0);
    // reads are not aliased: $3F10 is entry 0x10
    set_addr(&mut p, 0x3f10);
    assert_eq!(p.read_data(), Ok(0));
    set_addr(&mut p, 0x3f01);
    p.write_to_data(0x11).unwrap();
    set_addr(&mut p, 0x3f21);
    assert_eq!(p.read_data(), Ok(0x11));
}

#[test]
fn status_read_resets_latch_and_vblank() {
    let mut p = ppu(Mirroing::HORIZONTAL);
    p.write_to_ppu_addr(0x21);
    p.status.set_start_vblank();
    assert_eq!(p.read_status() >> 7, 1);
    assert_eq!(p.status.snapshot() >> 7, 0);
    p.write_to_ppu_addr(0x23);
    p.write_to_ppu_addr(0x05);
    assert_eq!(p.addr.get(), 0x2305);
}

#[test]
fn oam_data_port() {
    let mut p = ppu(Mirroing::HORIZONTAL);
    p.write_to_oam_addr(0x10);
    p.write_to_oam_data(0x66);
    p.write_to_oam_data(0x77);
    p.write_to_oam_addr(0x10);
    assert_eq!(p.read_oam_data(), 0x66);
    p.write_to_oam_addr(0x11);
    assert_eq!(p.read_oam_data(), 0x77);
}

#[test]
fn nmi_on_ctrl_write_during_vblank() {
    let mut p = ppu(Mirroing::HORIZONTAL);
    p.status.set_start_vblank();
    p.write_to_ctrl(0x80);
    assert_eq!(p.nmi_interrupt, Some(1));
    let mut q = ppu(Mirroing::HORIZONTAL);
    q.write_to_ctrl(0x80);
    assert_eq!(q.nmi_interrupt, None);
}

#[test]
fn tick_enters_vblank_only_with_nmi_enabled() {
    let mut p = ppu(Mirroing::HORIZONTAL);
    for _ in 0..241 {
        assert!(!p.tick(341));
    }
    assert_eq!(p.scanline, 241);
    assert!(!p.status.is_in_vbrank());
    assert_eq!(p.nmi_interrupt, None);
    let mut q = ppu(Mirroing::HORIZONTAL);
    q.write_to_ctrl(0x80);
    for _ in 0..241 {
        assert!(!q.tick(341));
    }
    assert!(q.status.is_in_vbrank());
    assert_eq!(q.nmi_interrupt, Some(1));
    for _ in 241..261 {
        assert!(!q.tick(341));
    }
    assert!(q.tick(341));
    assert_eq!(q.scanline, 0);
    assert!(!q.status.is_in_vbrank());
}

#[test]
fn frame_set_pixel() {
    let mut f = Frame::new();
    assert_eq!(f.data.len(), 256 * 240 * 3);
    f.set_pixcel(1, 2, (10, 20, 30));
    let base = (2 * 256 + 1) * 3;
    assert_eq!(&f.data[base..base + 3], &[10, 20, 30]);
    f.set_pixcel(255, 239, (1, 2, 3));
    assert_eq!(&f.data[f.data.len() - 3..], &[1, 2, 3]);
    let before = f.data.clone();
    f.set_pixcel(256, 0, (9, 9, 9));
    f.set_pixcel(0, 240, (9, 9, 9));
    assert_eq!(f.data, before);
}

#[test]
fn system_palette_entries() {
    assert_eq!(system_palette(0x01), (0x00, 0x3D, 0xA6));
    assert_eq!(system_palette(0x23), (0xD4, 0x80, 0xFF));
    assert_eq!(system_palette(0x27), (0xFF, 0x9C, 0x12));
    assert_eq!(system_palette(0x30), (0xFF, 0xFF, 0xFF));
}

#[test]
fn render_background_tile() {
    let mut chr = vec![0u8; 0x2000];
    // tile 1: row 0 high plane 0b1010_0000, low plane 0b1100_0000
    chr[16] = 0b1010_0000;
    chr[16 + 8] = 0b1100_0000;
    let mut p = NesPPU::new(chr, Mirroing::HORIZONTAL);
    p.vram[1] = 1; // tile (1, 0)
    let mut f = Frame::new();
    render(&p, &mut f);
    let px = |x: usize, y: usize| {
        let b = (y * 256 + x) * 3;
        (f.data[b], f.data[b + 1], f.data[b + 2])
    };
    // pixel (8, 0): high 1, low 1 -> 3; (9, 0): high 0, low 1 -> 1;
    // (10, 0): high 1, low 0 -> 2; (11, 0): 0
    assert_eq!(px(8, 0), system_palette(0x30));
    assert_eq!(px(9, 0), system_palette(0x23));
    assert_eq!(px(10, 0), system_palette(0x27));
    assert_eq!(px(11, 0), system_palette(0x01));
    assert_eq!(px(0, 0), system_palette(0x01));
    assert_eq!(px(255, 239), system_palette(0x01));
}

#[test]
fn joypad_serial_protocol() {
    let mut j = Joypad::new();
    j.set_button_pressed_status(JoypadButton::BUTTON_A, true);
    j.set_button_pressed_status(JoypadButton::START, true);
    j.set_button_pressed_status(JoypadButton::RIGHT, true);
    j.write(1);
    assert_eq!(j.read(), 1);
    assert_eq!(j.read(), 1);
    j.write(0);
    let bits: Vec<u8> = (0..8).map(|_| j.read()).collect();
    assert_eq!(bits, vec![1, 0, 0, 1, 0, 0, 0, 1]);
    assert_eq!(j.read(), 1);
    assert_eq!(j.read(), 1);
    j.set_button_pressed_status(JoypadButton::RIGHT, false);
    j.write(1);
    j.write(0);
    let bits: Vec<u8> = (0..8).map(|_| j.read()).collect();
    assert_eq!(bits, vec![1, 0, 0, 1, 0, 0, 0, 0]);
}

#[test]
fn oam_dma_copies_a_page_from_the_cursor() {
    let mut p = ppu(Mirroing::HORIZONTAL);
    p.write_to_oam_addr(0x10);
    let page: Vec<u8> = (0..256).map(|i| i as u8).collect();
    p.write_oam_dma(&page);
    assert_eq!(p.oam_addr, 0x10);
    assert_eq!(p.oam_data[0x10], 0);
    assert_eq!(p.oam_data[0x11], 1);
    assert_eq!(p.oam_data[0xff], 0xef);
    assert_eq!(p.oam_data[0x00], 0xf0);
    assert_eq!(p.oam_data[0x0f], 0xff);
}

#[test]
fn tile_sheet_layout() {
    let mut chr = vec![0u8; 0x2000];
    // tile 21 of bank 1 (second row, second cell): row 0 all high-plane bits
    chr[0x1000 + 21 * 16] = 0xff;
    let f = nes::render::show_tile_brank(&chr, 1);
    let px = |x: usize, y: usize| {
        let b = (y * 256 + x) * 3;
        (f.data[b], f.data[b + 1], f.data[b + 2])
    };
    assert_eq!(px(10, 10), system_palette(0x27));
    assert_eq!(px(17, 10), system_palette(0x27));
    assert_eq!(px(10, 11), system_palette(0x01));
    // the gap between cells and the area right of 20 columns stay black
    assert_eq!(px(18, 10), (0, 0, 0));
    assert_eq!(px(200, 0), (0, 0, 0));
    assert_eq!(px(0, 0), system_palette(0x01));
    // tile 255 is not drawn: cell (15, 12)
    assert_eq!(px(150, 120), (0, 0, 0));
    assert_eq!(px(140, 120), system_palette(0x01));
}
