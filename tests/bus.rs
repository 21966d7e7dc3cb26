use nes::bus::Bus;
use nes::error::NesError;
use nes::rom::Rom;

fn bus_with_prg(banks: u8) -> Bus {
    let mut raw = vec![0x4E, 0x45, 0x53, 0x1A, banks, 0x01, 0x00, 0x00];
    raw.resize(16, 0);
    for i in 0..(banks as usize * 0x4000) {
        raw.push((i / 0x100) as u8);
    }
    raw.extend_from_slice(&[0; 0x2000]);
    Bus::new(Rom::new(&raw).unwrap())
}

#[test]
fn ram_round_trip_and_mirrors() {
    let mut bus = bus_with_prg(2);
    bus.mem_write(0x0123, 0xab).unwrap();
    assert_eq!(bus.mem_read(0x0123), Ok(0xab));
    assert_eq!(bus.mem_read(0x0923), Ok(0xab));
    assert_eq!(bus.mem_read(0x1123), Ok(0xab));
    assert_eq!(bus.mem_read(0x1923), Ok(0xab));
    bus.mem_write(0x1fff, 0x11).unwrap();
    assert_eq!(bus.mem_read(0x07ff), Ok(0x11));
}

#[test]
fn prg_rom_16k_is_mirrored() {
    let mut bus = bus_with_prg(1);
    assert_eq!(bus.mem_read(0x8000), Ok(0x00));
    assert_eq!(bus.mem_read(0x8123), Ok(0x01));
    assert_eq!(bus.mem_read(0xc123), Ok(0x01));
    assert_eq!(bus.mem_read(0xffff), Ok(0x3f));
    let mut bus = bus_with_prg(2);
    assert_eq!(bus.mem_read(0xc123), Ok(0x41));
}

#[test]
fn register_access_errors() {
    let mut bus = bus_with_prg(2);
    for addr in [0x2000u16, 0x2001, 0x2003, 0x2005, 0x2006, 0x4014, 0x2008, 0x3ffe] {
        assert_eq!(bus.mem_read(addr), Err(NesError::ReadFromWriteOnlyRegister(addr)));
    }
    assert_eq!(bus.mem_write(0x2002, 1), Err(NesError::WriteToReadOnlyRegister(0x2002)));
    assert_eq!(bus.mem_write(0x8000, 1), Err(NesError::WriteToRom(0x8000)));
    assert_eq!(bus.mem_write(0xffff, 1), Err(NesError::WriteToRom(0xffff)));
}

#[test]
fn apu_and_joypad_ignored() {
    let mut bus = bus_with_prg(2);
    assert_eq!(bus.mem_write(0x4000, 7), Ok(()));
    assert_eq!(bus.mem_read(0x4000), Ok(0));
    assert_eq!(bus.mem_read(0x4015), Ok(0));
    assert_eq!(bus.mem_read(0x4016), Ok(0));
    assert_eq!(bus.mem_read(0x4017), Ok(0));
    assert_eq!(bus.mem_write(0x4016, 1), Ok(()));
    assert_eq!(bus.mem_read(0x6000), Ok(0));
}

#[test]
fn tick_runs_ppu_three_dots_per_cycle() {
    let mut bus = bus_with_prg(2);
    let mut total: u64 = 0;
    for n in [7u8, 2, 255, 100, 3] {
        bus.tick(n);
        total += n as u64;
        let position = bus.ppu.scanline as u64 * 341 + bus.ppu.cycle as u64;
        assert_eq!(position, (3 * total) % (341 * 262));
    }
    assert_eq!(bus.cycle, total);
}

#[test]
fn frame_completes_after_a_frame_of_cycles() {
    let mut bus = bus_with_prg(2);
    let mut cycles: u64 = 0;
    let mut frames = 0;
    while cycles < 89342 {
        if bus.tick(2) {
            frames += 1;
            assert_eq!(cycles + 2 >= 89342 / 3, true);
            assert_eq!(bus.ppu.scanline, 0);
        }
        cycles += 2;
    }
    assert_eq!(frames, 3);
}

#[test]
fn ppu_registers_through_bus() {
    let mut bus = bus_with_prg(2);
    // address $2305 through $2006, then write two bytes through $2007
    bus.mem_write(0x2006, 0x23).unwrap();
    bus.mem_write(0x2006, 0x05).unwrap();
    bus.mem_write(0x2007, 0x66).unwrap();
    bus.mem_write(0x2007, 0x77).unwrap();
    bus.mem_write(0x2006, 0x23).unwrap();
    bus.mem_write(0x2006, 0x05).unwrap();
    // first read returns the stale buffer
    assert_eq!(bus.mem_read(0x2007), Ok(0x00));
    assert_eq!(bus.mem_read(0x2007), Ok(0x66));
    assert_eq!(bus.mem_read(0x2007), Ok(0x77));
    // $3456 mirrors $2006
    bus.mem_write(0x3456, 0x12).unwrap();
    assert_eq!(bus.ppu.addr.get(), 0x1208);
}

#[test]
fn poll_nmi_takes_the_request() {
    let mut bus = bus_with_prg(2);
    bus.mem_write(0x2000, 0x80).unwrap();
    assert_eq!(bus.poll_nmi_status(), None);
    // run to scanline 241
    while bus.ppu.scanline < 241 {
        bus.tick(100);
    }
    assert_eq!(bus.poll_nmi_status(), Some(1));
    assert_eq!(bus.poll_nmi_status(), None);
    assert_eq!(bus.mem_read(0x2002).map(|s| s & 0x80), Ok(0x80));
    assert_eq!(bus.mem_read(0x2002).map(|s| s & 0x80), Ok(0x00));
}
