use nes::bus::Bus;
use nes::cpu::{CpuFlags, CPU};
use nes::error::NesError;
use nes::rom::Rom;

/// A 32 KiB NROM image: `program` at `$8000`, reset vector to `$8000`.
fn cpu_with(program: &[u8]) -> CPU {
    let mut raw = vec![0x4E, 0x45, 0x53, 0x1A, 0x02, 0x01, 0x01, 0x00];
    raw.resize(16, 0);
    let mut prg = program.to_vec();
    prg.resize(0x8000, 0);
    prg[0x7FFC] = 0x00;
    prg[0x7FFD] = 0x80;
    raw.extend_from_slice(&prg);
    raw.extend_from_slice(&[0; 0x2000]);
    CPU::new(Bus::new(Rom::new(&raw).unwrap()))
}

#[test]
fn reset_state() {
    let mut cpu = cpu_with(&[0xa9, 0x01]);
    cpu.register_a = 9;
    cpu.reset();
    assert_eq!(cpu.register_a, 0);
    assert_eq!(cpu.stack_pointer, 0xfd);
    assert_eq!(cpu.status.bits(), 0x24);
    assert_eq!(cpu.program_counter, 0x8000);
}

#[test]
fn lda_zero_flag_scenario() {
    let mut cpu = cpu_with(&[0xa9, 0x00, 0x00]);
    assert_eq!(cpu.run(), Ok(true));
    assert_eq!(cpu.register_a, 0);
    assert!(cpu.status.contains(CpuFlags::ZERO));
    assert!(!cpu.status.contains(CpuFlags::NEGATIVE));
}

#[test]
fn inx_wraps_and_clears_zero() {
    let mut cpu = cpu_with(&[0xa9, 0xff, 0xaa, 0xe8, 0xe8, 0x00]);
    cpu.run().unwrap();
    assert_eq!(cpu.register_x, 0x01);
    assert!(!cpu.status.contains(CpuFlags::ZERO));
}

#[test]
fn jmp_indirect_page_wrap() {
    // pointer $02FF: low byte from $02FF, high byte from $0200, not $0300
    let mut cpu = cpu_with(&[0x6c, 0xff, 0x02]);
    cpu.mem_write(0x02ff, 0x80).unwrap();
    cpu.mem_write(0x0200, 0x40).unwrap();
    cpu.mem_write(0x0300, 0x50).unwrap();
    cpu.step().unwrap();
    assert_eq!(cpu.program_counter, 0x4080);
}

#[test]
fn adc_sets_carry_and_overflow() {
    // LDA #$50; ADC #$50 -> $A0, V set, C clear
    let mut cpu = cpu_with(&[0xa9, 0x50, 0x69, 0x50, 0x00]);
    cpu.run().unwrap();
    assert_eq!(cpu.register_a, 0xa0);
    assert!(cpu.status.contains(CpuFlags::OVERFLOW));
    assert!(!cpu.status.contains(CpuFlags::CARRY));
    assert!(cpu.status.contains(CpuFlags::NEGATIVE));
    // LDA #$FF; ADC #$02 -> $01, C set, V clear
    let mut cpu = cpu_with(&[0xa9, 0xff, 0x69, 0x02, 0x00]);
    cpu.run().unwrap();
    assert_eq!(cpu.register_a, 0x01);
    assert!(cpu.status.contains(CpuFlags::CARRY));
    assert!(!cpu.status.contains(CpuFlags::OVERFLOW));
}

#[test]
fn sbc_borrows() {
    // SEC; LDA #$05; SBC #$07 -> $FE, C clear (borrow)
    let mut cpu = cpu_with(&[0x38, 0xa9, 0x05, 0xe9, 0x07, 0x00]);
    cpu.run().unwrap();
    assert_eq!(cpu.register_a, 0xfe);
    assert!(!cpu.status.contains(CpuFlags::CARRY));
    // SEC; LDA #$07; SBC #$05 -> $02, C set
    let mut cpu = cpu_with(&[0x38, 0xa9, 0x07, 0xe9, 0x05, 0x00]);
    cpu.run().unwrap();
    assert_eq!(cpu.register_a, 0x02);
    assert!(cpu.status.contains(CpuFlags::CARRY));
}

#[test]
fn cmp_sets_carry_when_greater_or_equal() {
    let mut cpu = cpu_with(&[0xa9, 0x10, 0xc9, 0x10, 0x00]);
    cpu.run().unwrap();
    assert!(cpu.status.contains(CpuFlags::CARRY));
    assert!(cpu.status.contains(CpuFlags::ZERO));
    let mut cpu = cpu_with(&[0xa9, 0x10, 0xc9, 0x20, 0x00]);
    cpu.run().unwrap();
    assert!(!cpu.status.contains(CpuFlags::CARRY));
    assert!(cpu.status.contains(CpuFlags::NEGATIVE));
}

#[test]
fn shifts_and_rotates() {
    // LDA #$81; ASL A -> $02, C set; ROR A -> $81, C clear
    let mut cpu = cpu_with(&[0xa9, 0x81, 0x0a, 0x6a, 0x00]);
    cpu.run().unwrap();
    assert_eq!(cpu.register_a, 0x81);
    assert!(!cpu.status.contains(CpuFlags::CARRY));
    // LDA #$01; LSR A -> $00, C set, Z set; ROL A -> $01
    let mut cpu = cpu_with(&[0xa9, 0x01, 0x4a, 0x2a, 0x00]);
    cpu.run().unwrap();
    assert_eq!(cpu.register_a, 0x01);
    assert!(!cpu.status.contains(CpuFlags::CARRY));
}

#[test]
fn memory_read_modify_write() {
    // LDA #$7F; STA $10; INC $10; ASL $10 -> $00, C set; DEC $10 -> $FF
    let mut cpu = cpu_with(&[0xa9, 0x7f, 0x85, 0x10, 0xe6, 0x10, 0x06, 0x10, 0xc6, 0x10, 0x00]);
    cpu.run().unwrap();
    assert_eq!(cpu.mem_read(0x10), Ok(0xff));
    assert!(cpu.status.contains(CpuFlags::CARRY));
    assert!(cpu.status.contains(CpuFlags::NEGATIVE));
}

#[test]
fn jsr_then_rts_returns_after_call() {
    // $8000: JSR $8005; LDX #$07; BRK; $8005: LDA #$09; RTS
    let mut cpu = cpu_with(&[0x20, 0x05, 0x80, 0xa2, 0x07, 0xa9, 0x09, 0x60]);
    cpu.step().unwrap();
    assert_eq!(cpu.program_counter, 0x8005);
    assert_eq!(cpu.stack_pointer, 0xfb);
    assert_eq!(cpu.mem_read(0x01fd), Ok(0x80));
    assert_eq!(cpu.mem_read(0x01fc), Ok(0x02));
    cpu.step().unwrap();
    cpu.step().unwrap();
    assert_eq!(cpu.program_counter, 0x8003);
    assert_eq!(cpu.stack_pointer, 0xfd);
    cpu.step().unwrap();
    assert_eq!(cpu.register_x, 0x07);
    assert_eq!(cpu.register_a, 0x09);
}

#[test]
fn pha_pla_and_php_plp_round_trip() {
    // LDA #$80; PHA; LDA #$00; PLA; SEC; PHP; CLC; PLP
    let mut cpu = cpu_with(&[0xa9, 0x80, 0x48, 0xa9, 0x00, 0x68, 0x38, 0x08, 0x18, 0x28, 0x00]);
    cpu.run().unwrap();
    assert_eq!(cpu.register_a, 0x80);
    assert_eq!(cpu.stack_pointer, 0xfd);
    assert!(cpu.status.contains(CpuFlags::CARRY));
    assert_eq!(cpu.status.bits() & 0x30, 0x20);
    // PHP pushes B and bit 5 set
    let mut cpu = cpu_with(&[0x08, 0x00]);
    cpu.run().unwrap();
    assert_eq!(cpu.mem_read(0x01fd), Ok(0x34));
}

#[test]
fn plp_keeps_bit5_and_clears_break() {
    // LDA #$FF; PHA; PLP
    let mut cpu = cpu_with(&[0xa9, 0xff, 0x48, 0x28, 0x00]);
    cpu.run().unwrap();
    assert_eq!(cpu.status.bits(), 0xef);
    // LDA #$00; PHA; PLP
    let mut cpu = cpu_with(&[0xa9, 0x00, 0x48, 0x28, 0x00]);
    cpu.run().unwrap();
    assert_eq!(cpu.status.bits(), 0x20);
}

#[test]
fn page_cross_costs_one_cycle() {
    // LDX #$01 (2 cycles); LDA $80FF,X (4 + 1 cycles)
    let mut cpu = cpu_with(&[0xa2, 0x01, 0xbd, 0xff, 0x80, 0x00]);
    cpu.step().unwrap();
    assert_eq!(cpu.bus.cycle, 2);
    cpu.step().unwrap();
    assert_eq!(cpu.bus.cycle, 7);
    // LDX #$01; LDA $8010,X: same page, 4 cycles
    let mut cpu = cpu_with(&[0xa2, 0x01, 0xbd, 0x10, 0x80, 0x00]);
    cpu.step().unwrap();
    cpu.step().unwrap();
    assert_eq!(cpu.bus.cycle, 6);
    // LDX #$01; STA $00FF,X: a store pays no page-cross cycle (5 cycles)
    let mut cpu = cpu_with(&[0xa2, 0x01, 0x9d, 0xff, 0x00, 0x00]);
    cpu.step().unwrap();
    cpu.step().unwrap();
    assert_eq!(cpu.bus.cycle, 7);
}

#[test]
fn branch_taken_costs_cycles() {
    // LDA #$00 (2); BEQ +2 (2 + 1); skipped: LDX #$05; BRK
    let mut cpu = cpu_with(&[0xa9, 0x00, 0xf0, 0x02, 0xa2, 0x05, 0x00]);
    cpu.step().unwrap();
    cpu.step().unwrap();
    assert_eq!(cpu.program_counter, 0x8006);
    assert_eq!(cpu.bus.cycle, 5);
    // LDA #$01 (2); BEQ +2 not taken (2)
    let mut cpu = cpu_with(&[0xa9, 0x01, 0xf0, 0x02, 0xa2, 0x05, 0x00]);
    cpu.run().unwrap();
    assert_eq!(cpu.register_x, 5);
}

#[test]
fn branch_backwards() {
    // LDX #$03; DEX; BNE -3; BRK
    let mut cpu = cpu_with(&[0xa2, 0x03, 0xca, 0xd0, 0xfd, 0x00]);
    assert_eq!(cpu.run(), Ok(true));
    assert_eq!(cpu.register_x, 0);
}

#[test]
fn unofficial_opcodes() {
    // LDA #$0F; STA $10; LAX $10 -> A = X = $0F
    let mut cpu = cpu_with(&[0xa9, 0x0f, 0x85, 0x10, 0xa7, 0x10, 0x00]);
    cpu.run().unwrap();
    assert_eq!(cpu.register_x, 0x0f);
    // LDA #$F0; LDX #$3C; SAX $11 -> $30
    let mut cpu = cpu_with(&[0xa9, 0xf0, 0xa2, 0x3c, 0x87, 0x11, 0x00]);
    cpu.run().unwrap();
    assert_eq!(cpu.mem_read(0x11), Ok(0x30));
    // LDA #$05; STA $12; LDA #$04; DCP $12 -> mem $04, A == mem: C and Z set
    let mut cpu = cpu_with(&[0xa9, 0x05, 0x85, 0x12, 0xa9, 0x04, 0xc7, 0x12, 0x00]);
    cpu.run().unwrap();
    assert_eq!(cpu.mem_read(0x12), Ok(0x04));
    assert!(cpu.status.contains(CpuFlags::CARRY));
    assert!(cpu.status.contains(CpuFlags::ZERO));
    // SEC; LDA #$10; STA $13; ISB $13 -> mem $11, A = $10 - $11 = $FF
    let mut cpu = cpu_with(&[0x38, 0xa9, 0x10, 0x85, 0x13, 0xe7, 0x13, 0x00]);
    cpu.run().unwrap();
    assert_eq!(cpu.mem_read(0x13), Ok(0x11));
    assert_eq!(cpu.register_a, 0xff);
    // LDA #$40; STA $14; LDA #$01; SLO $14 -> mem $80, A = $81
    let mut cpu = cpu_with(&[0xa9, 0x40, 0x85, 0x14, 0xa9, 0x01, 0x07, 0x14, 0x00]);
    cpu.run().unwrap();
    assert_eq!(cpu.mem_read(0x14), Ok(0x80));
    assert_eq!(cpu.register_a, 0x81);
}

#[test]
fn unknown_opcode_is_an_error() {
    let mut cpu = cpu_with(&[0x02]);
    assert_eq!(cpu.run(), Err(NesError::UnknownOpcode(0x02)));
}

#[test]
fn write_to_rom_is_an_error() {
    let mut cpu = cpu_with(&[0x8d, 0x00, 0x80]);
    assert_eq!(cpu.run(), Err(NesError::WriteToRom(0x8000)));
}

#[test]
fn status_bit5_always_set() {
    // LDA #$00; PHA; PLP; CLC; SEC; PHP; PLA
    let mut cpu = cpu_with(&[0xa9, 0x00, 0x48, 0x28, 0x18, 0x38, 0x08, 0x68, 0x00]);
    while !cpu.step().unwrap().halted {
        assert_eq!(cpu.status.bits() & 0x20, 0x20);
    }
    assert_eq!(cpu.register_a, 0x31);
}

#[test]
fn nmi_is_serviced_before_next_opcode() {
    // $8000: LDA #$80; STA $2000 (enable NMI); loop: JMP $8005
    // NMI vector $FFFA -> $8010: LDX #$42; BRK
    let mut program = vec![0xa9, 0x80, 0x8d, 0x00, 0x20, 0x4c, 0x05, 0x80];
    program.resize(0x10, 0xea);
    program.extend_from_slice(&[0xa2, 0x42, 0x00]);
    program.resize(0x7ffa, 0);
    program.extend_from_slice(&[0x10, 0x80]);
    let mut cpu = cpu_with(&program);
    assert_eq!(cpu.run(), Ok(true));
    assert_eq!(cpu.register_x, 0x42);
    // pushed: PC ($8005, the JMP), then P with N set, B clear and bit 5 set
    assert_eq!(cpu.mem_read(0x01fb), Ok(0xa4));
    assert!(cpu.status.contains(CpuFlags::INTERRUPT_DISABLE));
    assert_eq!(cpu.bus.ppu.scanline, 241);
}
