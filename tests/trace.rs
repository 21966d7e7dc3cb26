use nes::bus::Bus;
use nes::cpu::CPU;
use nes::rom::Rom;
use nes::trace::trace;

fn test_bus() -> Bus {
    let mut raw = vec![0x4E, 0x45, 0x53, 0x1A, 0x02, 0x01, 0x00, 0x00];
    raw.resize(16 + 0x8000 + 0x2000, 0);
    Bus::new(Rom::new(&raw).unwrap())
}

#[test]
fn trace_implied_and_immediate() {
    let mut bus = test_bus();
    bus.mem_write(100, 0xa2).unwrap();
    bus.mem_write(101, 0x01).unwrap();
    bus.mem_write(102, 0xca).unwrap();
    bus.mem_write(103, 0x88).unwrap();
    bus.mem_write(104, 0x00).unwrap();
    let mut cpu = CPU::new(bus);
    cpu.program_counter = 0x64;
    cpu.register_a = 1;
    cpu.register_x = 2;
    cpu.register_y = 3;
    let mut result: Vec<String> = vec![];
    loop {
        result.push(trace(&cpu));
        if cpu.step().unwrap().halted {
            break;
        }
    }
    assert_eq!(
        "0064  A2 01     LDX #$01                        A:01 X:02 Y:03 P:24 SP:FD",
        result[0]
    );
    assert_eq!(
        "0066  CA        DEX                             A:01 X:01 Y:03 P:24 SP:FD",
        result[1]
    );
    assert_eq!(
        "0067  88        DEY                             A:01 X:00 Y:03 P:26 SP:FD",
        result[2]
    );
}

#[test]
fn trace_indirect_y_memory_access() {
    let mut bus = test_bus();
    // ORA ($33),Y
    bus.mem_write(100, 0x11).unwrap();
    bus.mem_write(101, 0x33).unwrap();
    bus.mem_write(0x33, 0x00).unwrap();
    bus.mem_write(0x34, 0x04).unwrap();
    bus.mem_write(0x400, 0xAA).unwrap();
    let mut cpu = CPU::new(bus);
    cpu.program_counter = 0x64;
    cpu.register_y = 0;
    assert_eq!(
        "0064  11 33     ORA ($33),Y = 0400 @ 0400 = AA  A:00 X:00 Y:00 P:24 SP:FD",
        trace(&cpu)
    );
}

#[test]
fn trace_absolute_jumps_and_branches() {
    let mut bus = test_bus();
    // JMP $C5F5; JSR $0300; BNE -2; STX $0200; LAX $10,Y; JMP ($02FF); ASL A
    let code = [
        0x4c, 0xf5, 0xc5, 0x20, 0x00, 0x03, 0xd0, 0xfe, 0x8e, 0x00, 0x02, 0xb7, 0x10, 0x6c, 0xff,
        0x02, 0x0a, 0x02,
    ];
    for (i, b) in code.iter().enumerate() {
        bus.mem_write(0x100 + i as u16, *b).unwrap();
    }
    bus.mem_write(0x200, 0x07).unwrap();
    bus.mem_write(0x2ff, 0x80).unwrap();
    let mut cpu = CPU::new(bus);
    let lines: Vec<String> = [0x100u16, 0x103, 0x106, 0x108, 0x10b, 0x10d, 0x110, 0x111]
        .iter()
        .map(|pc| {
            cpu.program_counter = *pc;
            trace(&cpu)
        })
        .collect();
    assert_eq!(&lines[0][..25], "0100  4C F5 C5  JMP $C5F5");
    assert_eq!(&lines[1][..25], "0103  20 00 03  JSR $0300");
    assert_eq!(&lines[2][..25], "0106  D0 FE     BNE $0106");
    assert_eq!(&lines[3][..30], "0108  8E 00 02  STX $0200 = 07");
    assert_eq!(&lines[4][..35], "010B  B7 10    *LAX $10,Y @ 10 = 00");
    assert_eq!(&lines[5][..34], "010D  6C FF 02  JMP ($02FF) = 0780");
    assert_eq!(lines[6].trim_end().len(), 73);
    assert_eq!(&lines[6][..21], "0110  0A        ASL A");
    assert_eq!(&lines[7][..19], "0111  02        ???");
    assert_eq!(lines[7].len(), 73);
}
