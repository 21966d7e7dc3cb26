use nes::bus::Bus;
use nes::cpu::{CpuFlags, CPU};
use nes::rom::Rom;

// iNES header: two 16 KiB PRG banks, one 8 KiB CHR bank, vertical
// mirroring, mapper 0.
const TEST_HEADER: [u8; 16] = [
    0x4E, 0x45, 0x53, 0x1A, // NES^Z
    0x02, // PRG ROM size (16 KiB units)
    0x01, // CHR ROM size (8 KiB units)
    0x01, // flags 6
    0x00, // flags 7
    0x00, 0x00, 0x00, 0x00, // reserved
    0x00, 0x00, 0x00, 0x00, // reserved
];

#[test]
fn test_0xa9_lda_immediate_load_data() {
    let testdata = [0xa9, 0x05, 0x00];

    let mut rom_data = Vec::new();
    rom_data.extend_from_slice(&TEST_HEADER);
    rom_data.extend_from_slice(&testdata);
    rom_data.resize(rom_data.len() + 2 * 16 * 1024, 0);
    rom_data.extend_from_slice(&[2; 1 * 8 * 1024]);

    let rom = Rom::new(&rom_data).unwrap();
    let bus = Bus::new(rom);
    let mut cpu = CPU::new(bus);
    cpu.run().unwrap();

    assert_eq!(cpu.register_a, 0x05);
    assert!(!cpu.status.contains(CpuFlags::ZERO));
    assert!(!cpu.status.contains(CpuFlags::NEGATIVE));
}

#[test]
fn test_0xa9_lda_zero_flag() {
    let testdata = [0xa9, 0x00, 0x00];

    let mut rom_data = Vec::new();
    rom_data.extend_from_slice(&TEST_HEADER);
    rom_data.extend_from_slice(&testdata);
    rom_data.resize(rom_data.len() + 2 * 16 * 1024, 0);
    rom_data.extend_from_slice(&[2; 1 * 8 * 1024]);

    let rom = Rom::new(&rom_data).unwrap();
    let bus = Bus::new(rom);
    let mut cpu = CPU::new(bus);
    cpu.run().unwrap();

    assert!(cpu.status.contains(CpuFlags::ZERO))
}

#[test]
fn test_0xaa_tax_move_a_to_x() {
    let testdata = [0xa9, 0x0a, 0xaa, 0x00];

    let mut rom_data = Vec::new();
    rom_data.extend_from_slice(&TEST_HEADER);
    rom_data.extend_from_slice(&testdata);
    rom_data.resize(rom_data.len() + 2 * 16 * 1024, 0);
    rom_data.extend_from_slice(&[2; 1 * 8 * 1024]);

    let rom = Rom::new(&rom_data).unwrap();
    let bus = Bus::new(rom);
    let mut cpu = CPU::new(bus);
    cpu.run().unwrap();

    assert_eq!(cpu.register_x, 10)
}

#[test]
fn test_inx_overflow() {
    let testdata = [0xa9, 0xff, 0xaa, 0xe8, 0xe8];

    let mut rom_data = Vec::new();
    rom_data.extend_from_slice(&TEST_HEADER);
    rom_data.extend_from_slice(&testdata);
    rom_data.resize(rom_data.len() + 2 * 16 * 1024, 0);
    rom_data.extend_from_slice(&[2; 1 * 8 * 1024]);

    let rom = Rom::new(&rom_data).unwrap();
    let bus = Bus::new(rom);
    let mut cpu = CPU::new(bus);
    cpu.run().unwrap();

    assert_eq!(cpu.register_x, 1)
}

#[test]
fn test_5_ops_working_togather() {
    let testdata = [0xa9, 0xc0, 0xaa, 0xe8, 0x00];

    let mut rom_data = Vec::new();
    rom_data.extend_from_slice(&TEST_HEADER);
    rom_data.extend_from_slice(&testdata);
    rom_data.resize(rom_data.len() + 2 * 16 * 1024, 0);
    rom_data.extend_from_slice(&[2; 1 * 8 * 1024]);

    let rom = Rom::new(&rom_data).unwrap();
    let bus = Bus::new(rom);
    let mut cpu = CPU::new(bus);
    cpu.run().unwrap();

    assert_eq!(cpu.register_x, 0xc1)
}

#[test]
fn test_lda_from_memory() {
    let testdata = [0xa5, 0x10, 0x00];

    let mut rom_data = Vec::new();
    rom_data.extend_from_slice(&TEST_HEADER);
    rom_data.extend_from_slice(&testdata);
    rom_data.resize(rom_data.len() + 2 * 16 * 1024, 0);
    rom_data.extend_from_slice(&[2; 1 * 8 * 1024]);

    let rom = Rom::new(&rom_data).unwrap();
    let bus = Bus::new(rom);
    let mut cpu = CPU::new(bus);

    cpu.mem_write(0x10, 0x55).unwrap(); // set test data
    cpu.run().unwrap();

    assert_eq!(cpu.register_a, 0x55)
}
