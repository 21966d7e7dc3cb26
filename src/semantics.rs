//! The meaning of each instruction, as functions on CPU states.
use vstd::prelude::*;

use crate::bus::{bus_read, bus_tick, bus_write, BusView};
use crate::error::NesError;
use crate::opcode::{opcode_spec, AddressingMode, Instr, OpCode};
use crate::ppu::PpuView;

verus! {

pub const CARRY: u8 = 0b0000_0001;
pub const ZERO: u8 = 0b0000_0010;
pub const INTERRUPT_DISABLE: u8 = 0b0000_0100;
pub const DECIMAL: u8 = 0b0000_1000;
pub const BREAK: u8 = 0b0001_0000;
pub const RESERVED: u8 = 0b0010_0000;
pub const OVERFLOW: u8 = 0b0100_0000;
pub const NEGATIVE: u8 = 0b1000_0000;

/// The CPU registers together with the bus.
pub struct CpuView {
    pub a: u8,
    pub x: u8,
    pub y: u8,
    pub p: u8,
    pub pc: u16,
    pub sp: u8,
    pub extra: u8,
    pub bus: BusView,
}

impl CpuView {
    /// The bus is well formed, and the status register holds the unused bit
    /// (bit 5) set and the break bit (bit 4) clear.
    pub open spec fn wf(self) -> bool {
        &&& self.bus.wf()
        &&& self.p & 0x30 == RESERVED
    }
}

/// The status byte with `f` set or cleared.
pub open spec fn flag(p: u8, f: u8, on: bool) -> u8 {
    if on {
        p | f
    } else {
        p & !f
    }
}

/// Zero and negative flags after a result `v`.
pub open spec fn zn(p: u8, v: u8) -> u8 {
    flag(flag(p, ZERO, v == 0), NEGATIVE, v >= 0x80)
}

pub open spec fn carry_in(p: u8) -> u8 {
    if p & CARRY != 0 {
        1
    } else {
        0
    }
}

pub open spec fn add_with_carry(c: CpuView, m: u8) -> CpuView {
    let sum = c.a + m + carry_in(c.p);
    let r = (sum % 256) as u8;
    let p = flag(flag(c.p, CARRY, sum > 0xFF), OVERFLOW, (r ^ c.a) & (r ^ m) & 0x80 != 0);
    CpuView { a: r, p: zn(p, r), ..c }
}

/// `CMP`, `CPX`, `CPY`: carry when `reg >= m`; Z and N from `reg - m`.
pub open spec fn compare(c: CpuView, reg: u8, m: u8) -> CpuView {
    CpuView { p: zn(flag(c.p, CARRY, reg >= m), reg.wrapping_sub(m)), ..c }
}

/// The effect on the registers of an instruction that reads the operand `m`.
#[verifier::opaque]
pub open spec fn alu(instr: Instr, c: CpuView, m: u8) -> CpuView {
    match instr {
        Instr::Adc => add_with_carry(c, m),
        Instr::Sbc => add_with_carry(c, m ^ 0xFF),
        Instr::And => CpuView { a: c.a & m, p: zn(c.p, c.a & m), ..c },
        Instr::Ora => CpuView { a: c.a | m, p: zn(c.p, c.a | m), ..c },
        Instr::Eor => CpuView { a: c.a ^ m, p: zn(c.p, c.a ^ m), ..c },
        Instr::Lda => CpuView { a: m, p: zn(c.p, m), ..c },
        Instr::Ldx => CpuView { x: m, p: zn(c.p, m), ..c },
        Instr::Ldy => CpuView { y: m, p: zn(c.p, m), ..c },
        Instr::Lax => CpuView { a: m, x: m, p: zn(c.p, m), ..c },
        Instr::Cmp => compare(c, c.a, m),
        Instr::Cpx => compare(c, c.x, m),
        Instr::Cpy => compare(c, c.y, m),
        Instr::Bit => CpuView {
            p: flag(flag(flag(c.p, ZERO, c.a & m == 0), NEGATIVE, m & 0x80 != 0), OVERFLOW, m & 0x40 != 0),
            ..c
        },
        _ => c,
    }
}

/// Instructions that read their operand and change only registers.
pub open spec fn is_read_instr(instr: Instr) -> bool {
    match instr {
        Instr::Adc | Instr::Sbc | Instr::And | Instr::Ora | Instr::Eor | Instr::Lda | Instr::Ldx
        | Instr::Ldy | Instr::Lax | Instr::Cmp | Instr::Cpx | Instr::Cpy | Instr::Bit => true,
        _ => false,
    }
}

/// The read instructions that take one more cycle when indexing crosses a page.
pub open spec fn charges_page_cross(instr: Instr) -> bool {
    match instr {
        Instr::Adc | Instr::And | Instr::Cmp | Instr::Eor | Instr::Lda | Instr::Ldx | Instr::Ldy
        | Instr::Ora | Instr::Sbc => true,
        _ => false,
    }
}

/// A shift, rotate, increment or decrement of `v`: the new value and status.
pub open spec fn shift(instr: Instr, v: u8, p: u8) -> (u8, u8) {
    match instr {
        Instr::Asl => {
            let r = ((v * 2) % 256) as u8;
            (r, zn(flag(p, CARRY, v >= 0x80), r))
        },
        Instr::Lsr => {
            let r = v / 2;
            (r, zn(flag(p, CARRY, v % 2 == 1), r))
        },
        Instr::Rol => {
            let r = ((v * 2) % 256 + carry_in(p)) as u8;
            (r, zn(flag(p, CARRY, v >= 0x80), r))
        },
        Instr::Ror => {
            let r = (v / 2 + 128 * carry_in(p)) as u8;
            (r, zn(flag(p, CARRY, v % 2 == 1), r))
        },
        Instr::Inc => {
            let r = v.wrapping_add(1);
            (r, zn(p, r))
        },
        Instr::Dec => {
            let r = v.wrapping_sub(1);
            (r, zn(p, r))
        },
        _ => (v, p),
    }
}

/// The memory change of a read-modify-write instruction.
pub open spec fn rmw_base(instr: Instr) -> Instr {
    match instr {
        Instr::Slo => Instr::Asl,
        Instr::Rla => Instr::Rol,
        Instr::Sre => Instr::Lsr,
        Instr::Rra => Instr::Ror,
        Instr::Dcp => Instr::Dec,
        Instr::Isb => Instr::Inc,
        _ => instr,
    }
}

/// What an undocumented read-modify-write instruction then does with `A`.
pub open spec fn rmw_then(instr: Instr) -> Option<Instr> {
    match instr {
        Instr::Slo => Some(Instr::Ora),
        Instr::Rla => Some(Instr::And),
        Instr::Sre => Some(Instr::Eor),
        Instr::Rra => Some(Instr::Adc),
        Instr::Dcp => Some(Instr::Cmp),
        Instr::Isb => Some(Instr::Sbc),
        _ => None,
    }
}

/// Registers after a read-modify-write of `m`, and the value written back.
pub open spec fn rmw(instr: Instr, c: CpuView, m: u8) -> (CpuView, u8) {
    let (r, p) = shift(rmw_base(instr), m, c.p);
    let c1 = CpuView { p, ..c };
    match rmw_then(instr) {
        Some(i) => (alu(i, c1, r), r),
        None => (c1, r),
    }
}

/// Instructions without a memory operand (the accumulator forms of the
/// shifts included).
pub open spec fn implied(instr: Instr, c: CpuView) -> CpuView {
    match instr {
        Instr::Clc => CpuView { p: flag(c.p, CARRY, false), ..c },
        Instr::Sec => CpuView { p: flag(c.p, CARRY, true), ..c },
        Instr::Cld => CpuView { p: flag(c.p, DECIMAL, false), ..c },
        Instr::Sed => CpuView { p: flag(c.p, DECIMAL, true), ..c },
        Instr::Cli => CpuView { p: flag(c.p, INTERRUPT_DISABLE, false), ..c },
        Instr::Sei => CpuView { p: flag(c.p, INTERRUPT_DISABLE, true), ..c },
        Instr::Clv => CpuView { p: flag(c.p, OVERFLOW, false), ..c },
        Instr::Dex => CpuView { x: c.x.wrapping_sub(1), p: zn(c.p, c.x.wrapping_sub(1)), ..c },
        Instr::Dey => CpuView { y: c.y.wrapping_sub(1), p: zn(c.p, c.y.wrapping_sub(1)), ..c },
        Instr::Inx => CpuView { x: c.x.wrapping_add(1), p: zn(c.p, c.x.wrapping_add(1)), ..c },
        Instr::Iny => CpuView { y: c.y.wrapping_add(1), p: zn(c.p, c.y.wrapping_add(1)), ..c },
        Instr::Tax => CpuView { x: c.a, p: zn(c.p, c.a), ..c },
        Instr::Tay => CpuView { y: c.a, p: zn(c.p, c.a), ..c },
        Instr::Tsx => CpuView { x: c.sp, p: zn(c.p, c.sp), ..c },
        Instr::Txa => CpuView { a: c.x, p: zn(c.p, c.x), ..c },
        Instr::Tya => CpuView { a: c.y, p: zn(c.p, c.y), ..c },
        Instr::Txs => CpuView { sp: c.x, ..c },
        Instr::Asl | Instr::Lsr | Instr::Rol | Instr::Ror => {
            let (r, p) = shift(instr, c.a, c.p);
            CpuView { a: r, p, ..c }
        },
        _ => c,
    }
}

pub open spec fn store_value(instr: Instr, c: CpuView) -> u8 {
    match instr {
        Instr::Sta => c.a,
        Instr::Stx => c.x,
        Instr::Sty => c.y,
        _ => c.a & c.x,
    }
}

pub open spec fn branch_taken(instr: Instr, p: u8) -> bool {
    match instr {
        Instr::Bcc => p & CARRY == 0,
        Instr::Bcs => p & CARRY != 0,
        Instr::Bne => p & ZERO == 0,
        Instr::Beq => p & ZERO != 0,
        Instr::Bpl => p & NEGATIVE == 0,
        Instr::Bmi => p & NEGATIVE != 0,
        Instr::Bvc => p & OVERFLOW == 0,
        _ => p & OVERFLOW != 0,
    }
}

/// Where a taken branch goes: the signed offset `off` is added to the address
/// after the two-byte instruction, whose operand is at `pc`.
pub open spec fn branch_target(pc: u16, off: u8) -> u16 {
    let base = pc.wrapping_add(1);
    if off < 128 {
        base.wrapping_add(off as u16)
    } else {
        base.wrapping_sub((256 - off) as u16)
    }
}

pub open spec fn with_bus(c: CpuView, b: BusView) -> CpuView {
    CpuView { bus: b, ..c }
}

pub open spec fn cpu_read(c: CpuView, addr: u16) -> (CpuView, Result<u8, NesError>) {
    let (b, r) = bus_read(c.bus, addr);
    (with_bus(c, b), r)
}

pub open spec fn cpu_write(c: CpuView, addr: u16, v: u8) -> (CpuView, Result<(), NesError>) {
    let (b, r) = bus_write(c.bus, addr, v);
    (with_bus(c, b), r)
}

/// A little-endian 16-bit read at `pos` and `pos + 1`.
pub open spec fn cpu_read_u16(c: CpuView, pos: u16) -> (CpuView, Result<u16, NesError>) {
    let (c1, r1) = cpu_read(c, pos);
    match r1 {
        Err(e) => (c1, Err(e)),
        Ok(lo) => {
            let (c2, r2) = cpu_read(c1, pos.wrapping_add(1));
            match r2 {
                Err(e) => (c2, Err(e)),
                Ok(hi) => (c2, Ok((hi * 256 + lo) as u16)),
            }
        },
    }
}

/// Whether two addresses lie in different 256-byte pages.
pub open spec fn page_crossed(a: u16, b: u16) -> bool {
    a / 256 != b / 256
}

/// An address indexed by a register, with its page-cross flag.
pub open spec fn indexed(base: u16, index: u8) -> (u16, bool) {
    let t = base.wrapping_add(index as u16);
    (t, page_crossed(base, t))
}

/// The effective address of an operand whose bytes start at `addr`, and
/// whether indexing crossed a page.
#[verifier::opaque]
pub open spec fn operand_at(c: CpuView, mode: AddressingMode, addr: u16) -> (
    CpuView,
    Result<(u16, bool), NesError>,
) {
    match mode {
        AddressingMode::ZeroPage | AddressingMode::ZeroPage_X | AddressingMode::ZeroPage_Y => {
            let (c1, r) = cpu_read(c, addr);
            match r {
                Err(e) => (c1, Err(e)),
                Ok(b) => {
                    let i = match mode {
                        AddressingMode::ZeroPage_X => c.x,
                        AddressingMode::ZeroPage_Y => c.y,
                        _ => 0u8,
                    };
                    (c1, Ok((b.wrapping_add(i) as u16, false)))
                },
            }
        },
        AddressingMode::Absolute | AddressingMode::Absolute_X | AddressingMode::Absolute_Y => {
            let (c1, r) = cpu_read_u16(c, addr);
            match r {
                Err(e) => (c1, Err(e)),
                Ok(base) => match mode {
                    AddressingMode::Absolute_X => (c1, Ok(indexed(base, c.x))),
                    AddressingMode::Absolute_Y => (c1, Ok(indexed(base, c.y))),
                    _ => (c1, Ok((base, false))),
                },
            }
        },
        AddressingMode::Indirect_X | AddressingMode::Indirect_Y => {
            let (c1, r) = cpu_read(c, addr);
            match r {
                Err(e) => (c1, Err(e)),
                Ok(b) => {
                    let ptr = if mode == AddressingMode::Indirect_X {
                        b.wrapping_add(c.x)
                    } else {
                        b
                    };
                    let (c2, r2) = cpu_read(c1, ptr as u16);
                    match r2 {
                        Err(e) => (c2, Err(e)),
                        Ok(lo) => {
                            let (c3, r3) = cpu_read(c2, ptr.wrapping_add(1) as u16);
                            match r3 {
                                Err(e) => (c3, Err(e)),
                                Ok(hi) => {
                                    let base = (hi * 256 + lo) as u16;
                                    if mode == AddressingMode::Indirect_X {
                                        (c3, Ok((base, false)))
                                    } else {
                                        (c3, Ok(indexed(base, c.y)))
                                    }
                                },
                            }
                        },
                    }
                },
            }
        },
        _ => (c, Ok((addr, false))),
    }
}

/// The operand of the instruction whose operand bytes start at `pc`: an
/// immediate operand is the byte at `pc` itself; instructions without a
/// memory operand never use theirs.
pub open spec fn operand(c: CpuView, mode: AddressingMode) -> (
    CpuView,
    Result<(u16, bool), NesError>,
) {
    match mode {
        AddressingMode::Immediate | AddressingMode::NoneAddressing => (c, Ok((c.pc, false))),
        _ => operand_at(c, mode, c.pc),
    }
}

pub open spec fn exec_read(c: CpuView, o: OpCode) -> (CpuView, Result<(), NesError>) {
    let (c1, r) = operand(c, o.mode);
    match r {
        Err(e) => (c1, Err(e)),
        Ok((addr, crossed)) => {
            let (c2, r2) = cpu_read(c1, addr);
            match r2 {
                Err(e) => (c2, Err(e)),
                Ok(m) => {
                    let c3 = alu(o.instr, c2, m);
                    let extra = if crossed && charges_page_cross(o.instr) {
                        (c3.extra + 1) as u8
                    } else {
                        c3.extra
                    };
                    (CpuView { extra, ..c3 }, Ok(()))
                },
            }
        },
    }
}

pub open spec fn exec_rmw(c: CpuView, o: OpCode) -> (CpuView, Result<(), NesError>) {
    let (c1, r) = operand(c, o.mode);
    match r {
        Err(e) => (c1, Err(e)),
        Ok((addr, _)) => {
            let (c2, r2) = cpu_read(c1, addr);
            match r2 {
                Err(e) => (c2, Err(e)),
                Ok(m) => {
                    let (c3, v) = rmw(o.instr, c2, m);
                    cpu_write(c3, addr, v)
                },
            }
        },
    }
}

pub open spec fn exec_store(c: CpuView, o: OpCode) -> (CpuView, Result<(), NesError>) {
    let (c1, r) = operand(c, o.mode);
    match r {
        Err(e) => (c1, Err(e)),
        Ok((addr, _)) => cpu_write(c1, addr, store_value(o.instr, c)),
    }
}

pub open spec fn exec_branch(c: CpuView, taken: bool) -> (CpuView, Result<(), NesError>) {
    if !taken {
        (c, Ok(()))
    } else {
        let c1 = CpuView { extra: (c.extra + 1) as u8, ..c };
        let (c2, r) = cpu_read(c1, c.pc);
        match r {
            Err(e) => (c2, Err(e)),
            Ok(off) => {
                let t = branch_target(c.pc, off);
                let extra = if page_crossed(c.pc.wrapping_add(1), t) {
                    (c2.extra + 1) as u8
                } else {
                    c2.extra
                };
                (CpuView { pc: t, extra, ..c2 }, Ok(()))
            },
        }
    }
}

/// A push: write at `$0100 + SP`, then decrement SP.
pub open spec fn push(c: CpuView, v: u8) -> CpuView {
    CpuView {
        bus: BusView { ram: c.bus.ram.update(0x100 + c.sp, v), ..c.bus },
        sp: c.sp.wrapping_sub(1),
        ..c
    }
}

/// A pop: increment SP, then read at `$0100 + SP`.
pub open spec fn pop(c: CpuView) -> (CpuView, u8) {
    let sp = c.sp.wrapping_add(1);
    (CpuView { sp, ..c }, c.bus.ram[0x100 + sp])
}

/// A 16-bit push: high byte first.
pub open spec fn push_u16(c: CpuView, v: u16) -> CpuView {
    push(push(c, (v / 256) as u8), (v % 256) as u8)
}

pub open spec fn pop_u16(c: CpuView) -> (CpuView, u16) {
    let (c1, lo) = pop(c);
    let (c2, hi) = pop(c1);
    (c2, (hi * 256 + lo) as u16)
}

/// The status byte as a pull from the stack sets it: B clear, bit 5 set.
pub open spec fn pulled_status(v: u8) -> u8 {
    (v & 0xEF) | 0x20
}

pub open spec fn jmp_absolute(c: CpuView) -> (CpuView, Result<(), NesError>) {
    let (c1, r) = cpu_read_u16(c, c.pc);
    match r {
        Err(e) => (c1, Err(e)),
        Ok(t) => (CpuView { pc: t, ..c1 }, Ok(())),
    }
}

/// `JMP ($hhll)`, with the 6502's page wrap when the pointer ends a page.
pub open spec fn jmp_indirect(c: CpuView) -> (CpuView, Result<(), NesError>) {
    let (c1, r) = cpu_read_u16(c, c.pc);
    match r {
        Err(e) => (c1, Err(e)),
        Ok(ptr) => if ptr % 256 == 0xFF {
            let (c2, r2) = cpu_read(c1, ptr);
            match r2 {
                Err(e) => (c2, Err(e)),
                Ok(lo) => {
                    let (c3, r3) = cpu_read(c2, (ptr - 0xFF) as u16);
                    match r3 {
                        Err(e) => (c3, Err(e)),
                        Ok(hi) => (CpuView { pc: (hi * 256 + lo) as u16, ..c3 }, Ok(())),
                    }
                },
            }
        } else {
            let (c2, r2) = cpu_read_u16(c1, ptr);
            match r2 {
                Err(e) => (c2, Err(e)),
                Ok(t) => (CpuView { pc: t, ..c2 }, Ok(())),
            }
        },
    }
}

/// `JSR`: push the address of the last operand byte, then jump.
pub open spec fn jsr(c: CpuView) -> (CpuView, Result<(), NesError>) {
    let c1 = push_u16(c, c.pc.wrapping_add(1));
    let (c2, r) = cpu_read_u16(c1, c.pc);
    match r {
        Err(e) => (c2, Err(e)),
        Ok(t) => (CpuView { pc: t, ..c2 }, Ok(())),
    }
}

pub open spec fn rts(c: CpuView) -> CpuView {
    let (c1, v) = pop_u16(c);
    CpuView { pc: v.wrapping_add(1), ..c1 }
}

pub open spec fn rti(c: CpuView) -> CpuView {
    let (c1, v) = pop(c);
    let (c2, t) = pop_u16(CpuView { p: pulled_status(v), ..c1 });
    CpuView { pc: t, ..c2 }
}

pub open spec fn pha(c: CpuView) -> CpuView {
    push(c, c.a)
}

pub open spec fn php(c: CpuView) -> CpuView {
    push(c, c.p | 0x30)
}

pub open spec fn pla(c: CpuView) -> CpuView {
    let (c1, v) = pop(c);
    CpuView { a: v, p: zn(c1.p, v), ..c1 }
}

pub open spec fn plp(c: CpuView) -> CpuView {
    let (c1, v) = pop(c);
    CpuView { p: pulled_status(v), ..c1 }
}

/// One instruction, the opcode byte already consumed (`pc` is at the operand).
pub open spec fn execute(c: CpuView, o: OpCode) -> (CpuView, Result<(), NesError>) {
    match o.instr {
        Instr::Asl | Instr::Lsr | Instr::Rol | Instr::Ror => if o.mode
            == AddressingMode::NoneAddressing {
            (implied(o.instr, c), Ok(()))
        } else {
            exec_rmw(c, o)
        },
        Instr::Inc | Instr::Dec | Instr::Slo | Instr::Rla | Instr::Sre | Instr::Rra | Instr::Dcp
        | Instr::Isb => exec_rmw(c, o),
        Instr::Sta | Instr::Stx | Instr::Sty | Instr::Sax => exec_store(c, o),
        Instr::Bcc | Instr::Bcs | Instr::Beq | Instr::Bne | Instr::Bmi | Instr::Bpl | Instr::Bvc
        | Instr::Bvs => exec_branch(c, branch_taken(o.instr, c.p)),
        Instr::Jmp => jmp_absolute(c),
        Instr::JmpIndirect => jmp_indirect(c),
        Instr::Jsr => jsr(c),
        Instr::Rts => (rts(c), Ok(())),
        Instr::Rti => (rti(c), Ok(())),
        Instr::Pha => (pha(c), Ok(())),
        Instr::Php => (php(c), Ok(())),
        Instr::Pla => (pla(c), Ok(())),
        Instr::Plp => (plp(c), Ok(())),
        _ => if is_read_instr(o.instr) {
            exec_read(c, o)
        } else {
            (implied(o.instr, c), Ok(()))
        },
    }
}

/// What a step reports: whether it stopped at `BRK`, and whether the PPU
/// completed a frame during it.
#[derive(Clone, Copy, Debug, PartialEq, Eq, Structural)]
pub struct StepOutcome {
    pub halted: bool,
    pub frame_completed: bool,
}

/// NMI service: push PC and status (B clear), set I, two cycles, then jump
/// through the vector at `$FFFA`. Also returns whether a frame completed.
pub open spec fn nmi(c: CpuView) -> (CpuView, Result<bool, NesError>) {
    let c1 = push(push_u16(c, c.pc), pulled_status(c.p));
    let c2 = CpuView { p: c.p | INTERRUPT_DISABLE, ..c1 };
    let (b3, frame) = bus_tick(c2.bus, 2);
    let (c4, r) = cpu_read_u16(with_bus(c2, b3), 0xFFFA);
    match r {
        Err(e) => (c4, Err(e)),
        Ok(t) => (CpuView { pc: t, ..c4 }, Ok(frame)),
    }
}

/// Fetch, decode and execute the instruction at `pc`, then run the clock.
pub open spec fn fetch_execute(c: CpuView, frame: bool) -> (CpuView, Result<StepOutcome, NesError>) {
    let (c1, r) = cpu_read(c, c.pc);
    match r {
        Err(e) => (c1, Err(e)),
        Ok(code) => {
            let c2 = CpuView { pc: c.pc.wrapping_add(1), ..c1 };
            match opcode_spec(code) {
                None => (c2, Err(NesError::UnknownOpcode(code))),
                Some(o) => if o.instr == Instr::Brk {
                    (c2, Ok(StepOutcome { halted: true, frame_completed: frame }))
                } else {
                    let (c3, r3) = execute(c2, o);
                    match r3 {
                        Err(e) => (c3, Err(e)),
                        Ok(_) => {
                            let c4 = if c3.pc == c2.pc {
                                CpuView { pc: c2.pc.wrapping_add((o.len - 1) as u16), ..c3 }
                            } else {
                                c3
                            };
                            let (b5, f) = bus_tick(c4.bus, (o.cycle + c4.extra) as u8);
                            (
                                CpuView { bus: b5, extra: 0, ..c4 },
                                Ok(StepOutcome { halted: false, frame_completed: frame || f }),
                            )
                        },
                    }
                },
            }
        },
    }
}

/// One step of the CPU: service a pending NMI, then one instruction.
#[verifier::opaque]
pub open spec fn step(c: CpuView) -> (CpuView, Result<StepOutcome, NesError>) {
    let c0 = CpuView {
        extra: 0,
        bus: BusView { ppu: PpuView { nmi: None, ..c.bus.ppu }, ..c.bus },
        ..c
    };
    if c.bus.ppu.nmi is Some {
        let (c1, r) = nmi(c0);
        match r {
            Err(e) => (c1, Err(e)),
            Ok(f) => fetch_execute(c1, f),
        }
    } else {
        fetch_execute(c0, false)
    }
}

/// Steps until `BRK` (`Ok(true)`), an error, or `fuel` steps (`Ok(false)`).
pub open spec fn run_from(c: CpuView, fuel: nat) -> (CpuView, Result<bool, NesError>)
    decreases fuel,
{
    if fuel == 0 {
        (c, Ok(false))
    } else {
        let (c1, r) = step(c);
        match r {
            Err(e) => (c1, Err(e)),
            Ok(o) => if o.halted {
                (c1, Ok(true))
            } else {
                run_from(c1, (fuel - 1) as nat)
            },
        }
    }
}

} // verus!
