//! The 6502 interpreter.
use vstd::prelude::*;

use crate::bus::{prg_byte, Bus};
use crate::error::NesError;
use crate::opcode::{decode, lemma_opcode_shape, AddressingMode, Instr, OpCode};
use crate::semantics::{
    add_with_carry, alu, charges_page_cross, compare, cpu_read, cpu_read_u16, cpu_write, exec_branch,
    exec_read, exec_rmw, exec_store, flag, implied, jmp_absolute, jmp_indirect, jsr, operand,
    operand_at, page_crossed, with_bus, pha, php, pla, plp, pop, pop_u16, pulled_status, push, push_u16,
    rmw_base, rmw_then, rti, rts, shift, zn, branch_taken, execute, nmi, step, run_from,
    CpuView, StepOutcome,
};

verus! {

pub const STACK_TOP: u16 = 0x0100;
pub const INITIAL_STACK: u8 = 0xfd;
pub const INITIAL_STATUS: u8 = 0b0010_0100;

/// The processor status register `P`.
#[derive(Clone, Copy, Debug, PartialEq, Eq, Structural)]
pub struct CpuFlags {
    pub bits: u8,
}

impl CpuFlags {
    pub const CARRY: u8 = 0b0000_0001;
    pub const ZERO: u8 = 0b0000_0010;
    pub const INTERRUPT_DISABLE: u8 = 0b0000_0100;
    pub const DECIMAL: u8 = 0b0000_1000;
    pub const BREAK: u8 = 0b0001_0000;
    pub const RESERVED: u8 = 0b0010_0000;
    pub const OVERFLOW: u8 = 0b0100_0000;
    pub const NEGATIVE: u8 = 0b1000_0000;

    /// Whether every bit of `flag` is set.
    pub fn contains(&self, flag: u8) -> (r: bool)
        ensures
            r == (self.bits & flag == flag),
    {
        self.bits & flag == flag
    }

    pub fn bits(&self) -> (r: u8)
        ensures
            r == self.bits,
    {
        self.bits
    }
}

pub struct CPU {
    pub register_a: u8,
    pub register_x: u8,
    pub register_y: u8,
    pub status: CpuFlags,
    pub program_counter: u16,
    pub stack_pointer: u8,
    pub bus: Bus,
    /// Cycles that the current instruction adds to its base count.
    pub extra_cycles: u8,
}

impl View for CPU {
    type V = CpuView;

    open spec fn view(&self) -> CpuView {
        CpuView {
            a: self.register_a,
            x: self.register_x,
            y: self.register_y,
            p: self.status.bits,
            pc: self.program_counter,
            sp: self.stack_pointer,
            extra: self.extra_cycles,
            bus: self.bus@,
        }
    }
}

/// The flags that instructions set and clear: all but B and bit 5.
pub open spec fn is_flag_bit(f: u8) -> bool {
    f == 0x01 || f == 0x02 || f == 0x04 || f == 0x08 || f == 0x40 || f == 0x80
}

proof fn lemma_flag_keeps_reserved(p: u8, f: u8, on: bool)
    requires
        is_flag_bit(f),
    ensures
        flag(p, f, on) & 0x30 == p & 0x30,
{
    if on {
        assert((p | f) & 0x30 == p & 0x30) by (bit_vector)
            requires
                f == 0x01 || f == 0x02 || f == 0x04 || f == 0x08 || f == 0x40 || f == 0x80,
        ;
    } else {
        assert((p & !f) & 0x30 == p & 0x30) by (bit_vector)
            requires
                f == 0x01 || f == 0x02 || f == 0x04 || f == 0x08 || f == 0x40 || f == 0x80,
        ;
    }
}

/// A read instruction changes only the registers A, X, Y and P.
proof fn lemma_alu_frame(instr: Instr, c: CpuView, m: u8)
    ensures
        alu(instr, c, m).extra == c.extra,
        alu(instr, c, m).pc == c.pc,
        alu(instr, c, m).sp == c.sp,
        alu(instr, c, m).bus == c.bus,
{
    reveal(alu);
}

proof fn lemma_pulled_status(v: u8)
    ensures
        pulled_status(v) & 0x30 == 0x20,
{
    assert(((v & 0xEF) | 0x20) & 0x30 == 0x20) by (bit_vector);
}

fn is_page_crossed(addr1: u16, addr2: u16) -> (r: bool)
    ensures
        r == page_crossed(addr1, addr2),
{
    addr1 / 256 != addr2 / 256
}

fn charges_page_cross_exec(instr: Instr) -> (r: bool)
    ensures
        r == charges_page_cross(instr),
{
    match instr {
        Instr::Adc | Instr::And | Instr::Cmp | Instr::Eor | Instr::Lda | Instr::Ldx | Instr::Ldy
        | Instr::Ora | Instr::Sbc => true,
        _ => false,
    }
}

/// The memory change of a read-modify-write instruction, and what it then
/// does with `A`.
fn rmw_parts(instr: Instr) -> (r: (Instr, Option<Instr>))
    ensures
        r == (rmw_base(instr), rmw_then(instr)),
{
    match instr {
        Instr::Slo => (Instr::Asl, Some(Instr::Ora)),
        Instr::Rla => (Instr::Rol, Some(Instr::And)),
        Instr::Sre => (Instr::Lsr, Some(Instr::Eor)),
        Instr::Rra => (Instr::Ror, Some(Instr::Adc)),
        Instr::Dcp => (Instr::Dec, Some(Instr::Cmp)),
        Instr::Isb => (Instr::Inc, Some(Instr::Sbc)),
        _ => (instr, None),
    }
}

impl CPU {
    pub fn new(bus: Bus) -> (r: CPU)
        requires
            bus@.wf(),
        ensures
            r@ == (CpuView {
                a: 0,
                x: 0,
                y: 0,
                p: INITIAL_STATUS,
                pc: 0x8000,
                sp: INITIAL_STACK,
                extra: 0,
                bus: bus@,
            }),
            r@.wf(),
    {
        let r = CPU {
            register_a: 0,
            register_x: 0,
            register_y: 0,
            status: CpuFlags { bits: INITIAL_STATUS },
            program_counter: 0x8000,
            stack_pointer: INITIAL_STACK,
            bus,
            extra_cycles: 0,
        };
        assert(INITIAL_STATUS & 0x30 == 0x20) by (bit_vector);
        r
    }

    /// Clears the registers and loads PC from the reset vector at `$FFFC`.
    pub fn reset(&mut self)
        requires
            old(self)@.wf(),
        ensures
            final(self)@ == (CpuView {
                a: 0,
                x: 0,
                y: 0,
                p: INITIAL_STATUS,
                sp: INITIAL_STACK,
                pc: (prg_byte(old(self)@.bus.prg, 0xFFFD) * 256 + prg_byte(
                    old(self)@.bus.prg,
                    0xFFFC,
                )) as u16,
                ..old(self)@
            }),
            final(self)@.wf(),
    {
        self.register_a = 0;
        self.register_x = 0;
        self.register_y = 0;
        self.stack_pointer = INITIAL_STACK;
        self.status = CpuFlags { bits: INITIAL_STATUS };
        assert(INITIAL_STATUS & 0x30 == 0x20) by (bit_vector);
        match self.mem_read_u16(0xFFFC) {
            Ok(v) => {
                self.program_counter = v;
            },
            Err(_) => {},
        }
    }

    pub fn mem_read(&mut self, addr: u16) -> (r: Result<u8, NesError>)
        requires
            old(self)@.wf(),
        ensures
            (final(self)@, r) == cpu_read(old(self)@, addr),
            final(self)@.wf(),
    {
        self.bus.mem_read(addr)
    }

    pub fn mem_write(&mut self, addr: u16, data: u8) -> (r: Result<(), NesError>)
        requires
            old(self)@.wf(),
        ensures
            (final(self)@, r) == cpu_write(old(self)@, addr, data),
            final(self)@.wf(),
    {
        self.bus.mem_write(addr, data)
    }

    /// A little-endian 16-bit read.
    pub fn mem_read_u16(&mut self, pos: u16) -> (r: Result<u16, NesError>)
        requires
            old(self)@.wf(),
        ensures
            (final(self)@, r) == cpu_read_u16(old(self)@, pos),
            final(self)@.wf(),
    {
        let lo = self.mem_read(pos)?;
        let hi = self.mem_read(pos.wrapping_add(1))?;
        Ok(hi as u16 * 256 + lo as u16)
    }

    /// A little-endian 16-bit write: low byte at `pos`, then high byte.
    pub fn mem_write_u16(&mut self, pos: u16, data: u16) -> (r: Result<(), NesError>)
        requires
            old(self)@.wf(),
        ensures
            ({
                let (c1, r1) = cpu_write(old(self)@, pos, (data % 256) as u8);
                match r1 {
                    Err(e) => (final(self)@, r) == (c1, Err::<(), NesError>(e)),
                    Ok(_) => (final(self)@, r) == cpu_write(
                        c1,
                        pos.wrapping_add(1),
                        (data / 256) as u8,
                    ),
                }
            }),
            final(self)@.wf(),
    {
        self.mem_write(pos, (data % 256) as u8)?;
        self.mem_write(pos.wrapping_add(1), (data / 256) as u8)
    }

    fn set_flag(&mut self, f: u8, on: bool)
        requires
            old(self)@.wf(),
            is_flag_bit(f),
        ensures
            final(self)@ == (CpuView { p: flag(old(self)@.p, f, on), ..old(self)@ }),
            final(self)@.wf(),
    {
        proof {
            lemma_flag_keeps_reserved(self.status.bits, f, on);
        }
        if on {
            self.status.bits = self.status.bits | f;
        } else {
            self.status.bits = self.status.bits & !f;
        }
    }

    fn update_zero_and_negative_flags(&mut self, result: u8)
        requires
            old(self)@.wf(),
        ensures
            final(self)@ == (CpuView { p: zn(old(self)@.p, result), ..old(self)@ }),
            final(self)@.wf(),
    {
        self.set_flag(CpuFlags::ZERO, result == 0);
        self.set_flag(CpuFlags::NEGATIVE, result >= 0x80);
    }

    /// `A + m + C`, setting carry, overflow, zero and negative.
    fn set_register_a_with_flags(&mut self, m: u8)
        requires
            old(self)@.wf(),
        ensures
            final(self)@ == add_with_carry(old(self)@, m),
            final(self)@.wf(),
    {
        let carry: u16 = if self.status.bits & CpuFlags::CARRY != 0 {
            1
        } else {
            0
        };
        let sum: u16 = self.register_a as u16 + m as u16 + carry;
        let result = (sum % 256) as u8;
        let a = self.register_a;
        self.set_flag(CpuFlags::CARRY, sum > 0xff);
        self.set_flag(CpuFlags::OVERFLOW, (result ^ a) & (result ^ m) & 0x80 != 0);
        self.register_a = result;
        self.update_zero_and_negative_flags(result);
    }

    fn compare(&mut self, reg: u8, m: u8)
        requires
            old(self)@.wf(),
        ensures
            final(self)@ == compare(old(self)@, reg, m),
            final(self)@.wf(),
    {
        self.set_flag(CpuFlags::CARRY, reg >= m);
        self.update_zero_and_negative_flags(reg.wrapping_sub(m));
    }

    /// The register effect of an instruction that reads the operand `m`.
    fn apply_operand(&mut self, instr: Instr, m: u8)
        requires
            old(self)@.wf(),
        ensures
            final(self)@ == alu(instr, old(self)@, m),
            final(self)@.wf(),
    {
        reveal(alu);
        match instr {
            Instr::Adc => self.set_register_a_with_flags(m),
            Instr::Sbc => self.set_register_a_with_flags(m ^ 0xFF),
            Instr::And => {
                self.register_a = self.register_a & m;
                self.update_zero_and_negative_flags(self.register_a);
            },
            Instr::Ora => {
                self.register_a = self.register_a | m;
                self.update_zero_and_negative_flags(self.register_a);
            },
            Instr::Eor => {
                self.register_a = self.register_a ^ m;
                self.update_zero_and_negative_flags(self.register_a);
            },
            Instr::Lda => {
                self.register_a = m;
                self.update_zero_and_negative_flags(m);
            },
            Instr::Ldx => {
                self.register_x = m;
                self.update_zero_and_negative_flags(m);
            },
            Instr::Ldy => {
                self.register_y = m;
                self.update_zero_and_negative_flags(m);
            },
            Instr::Lax => {
                self.register_a = m;
                self.register_x = m;
                self.update_zero_and_negative_flags(m);
            },
            Instr::Cmp => self.compare(self.register_a, m),
            Instr::Cpx => self.compare(self.register_x, m),
            Instr::Cpy => self.compare(self.register_y, m),
            Instr::Bit => {
                self.set_flag(CpuFlags::ZERO, self.register_a & m == 0);
                self.set_flag(CpuFlags::NEGATIVE, m & 0x80 != 0);
                self.set_flag(CpuFlags::OVERFLOW, m & 0x40 != 0);
            },
            _ => {},
        }
    }

    /// Shifts, rotates, increments or decrements `v`, setting the flags;
    /// returns the new value.
    fn shifted(&mut self, instr: Instr, v: u8) -> (r: u8)
        requires
            old(self)@.wf(),
        ensures
            r == shift(instr, v, old(self)@.p).0,
            final(self)@ == (CpuView { p: shift(instr, v, old(self)@.p).1, ..old(self)@ }),
            final(self)@.wf(),
    {
        let carry: u8 = if self.status.bits & CpuFlags::CARRY != 0 {
            1
        } else {
            0
        };
        match instr {
            Instr::Asl => {
                let r = ((v as u16 * 2) % 256) as u8;
                self.set_flag(CpuFlags::CARRY, v >= 0x80);
                self.update_zero_and_negative_flags(r);
                r
            },
            Instr::Lsr => {
                let r = v / 2;
                self.set_flag(CpuFlags::CARRY, v % 2 == 1);
                self.update_zero_and_negative_flags(r);
                r
            },
            Instr::Rol => {
                let r = ((v as u16 * 2) % 256 + carry as u16) as u8;
                self.set_flag(CpuFlags::CARRY, v >= 0x80);
                self.update_zero_and_negative_flags(r);
                r
            },
            Instr::Ror => {
                let r = v / 2 + 128 * carry;
                self.set_flag(CpuFlags::CARRY, v % 2 == 1);
                self.update_zero_and_negative_flags(r);
                r
            },
            Instr::Inc => {
                let r = v.wrapping_add(1);
                self.update_zero_and_negative_flags(r);
                r
            },
            Instr::Dec => {
                let r = v.wrapping_sub(1);
                self.update_zero_and_negative_flags(r);
                r
            },
            _ => v,
        }
    }

    /// The effective address of an operand whose bytes start at `addr`, and
    /// whether indexing crossed a page.
    pub fn get_absolute_address(&mut self, mode: AddressingMode, addr: u16) -> (r: Result<
        (u16, bool),
        NesError,
    >)
        requires
            old(self)@.wf(),
            mode != AddressingMode::Immediate,
            mode != AddressingMode::NoneAddressing,
        ensures
            (final(self)@, r) == operand_at(old(self)@, mode, addr),
            final(self)@ == with_bus(old(self)@, final(self)@.bus),
            final(self)@.wf(),
    {
        reveal(operand_at);
        match mode {
            AddressingMode::ZeroPage => {
                let pos = self.mem_read(addr)?;
                Ok((pos as u16, false))
            },
            AddressingMode::ZeroPage_X => {
                let pos = self.mem_read(addr)?;
                Ok((pos.wrapping_add(self.register_x) as u16, false))
            },
            AddressingMode::ZeroPage_Y => {
                let pos = self.mem_read(addr)?;
                Ok((pos.wrapping_add(self.register_y) as u16, false))
            },
            AddressingMode::Absolute => {
                let base = self.mem_read_u16(addr)?;
                Ok((base, false))
            },
            AddressingMode::Absolute_X => {
                let base = self.mem_read_u16(addr)?;
                let target = base.wrapping_add(self.register_x as u16);
                Ok((target, is_page_crossed(base, target)))
            },
            AddressingMode::Absolute_Y => {
                let base = self.mem_read_u16(addr)?;
                let target = base.wrapping_add(self.register_y as u16);
                Ok((target, is_page_crossed(base, target)))
            },
            AddressingMode::Indirect_X => {
                let base = self.mem_read(addr)?;
                let ptr = base.wrapping_add(self.register_x);
                let lo = self.mem_read(ptr as u16)?;
                let hi = self.mem_read(ptr.wrapping_add(1) as u16)?;
                Ok((hi as u16 * 256 + lo as u16, false))
            },
            _ => {
                let base = self.mem_read(addr)?;
                let lo = self.mem_read(base as u16)?;
                let hi = self.mem_read(base.wrapping_add(1) as u16)?;
                let deref_base = hi as u16 * 256 + lo as u16;
                let deref = deref_base.wrapping_add(self.register_y as u16);
                Ok((deref, is_page_crossed(deref_base, deref)))
            },
        }
    }

    /// The effective address of the current instruction's operand (for an
    /// immediate operand, the address of the operand byte itself), and whether
    /// indexing crossed a page.
    pub fn get_operand_address(&mut self, mode: AddressingMode) -> (r: Result<
        (u16, bool),
        NesError,
    >)
        requires
            old(self)@.wf(),
        ensures
            (final(self)@, r) == operand(old(self)@, mode),
            final(self)@ == with_bus(old(self)@, final(self)@.bus),
            final(self)@.wf(),
    {
        match mode {
            AddressingMode::Immediate | AddressingMode::NoneAddressing => Ok(
                (self.program_counter, false),
            ),
            _ => self.get_absolute_address(mode, self.program_counter),
        }
    }

    fn read_instruction(&mut self, op: &OpCode) -> (r: Result<(), NesError>)
        requires
            old(self)@.wf(),
            old(self)@.extra <= 1,
        ensures
            (final(self)@, r) == exec_read(old(self)@, *op),
            final(self)@.extra <= old(self)@.extra + 1,
            final(self)@.wf(),
    {
        let ghost c0 = self@;
        let (addr, page_crossed) = match self.get_operand_address(op.mode) {
            Ok(v) => v,
            Err(e) => return Err(e),
        };
        let ghost c1 = self@;
        let data = match self.mem_read(addr) {
            Ok(v) => v,
            Err(e) => return Err(e),
        };
        let ghost c2 = self@;
        self.apply_operand(op.instr, data);
        proof {
            lemma_alu_frame(op.instr, c2, data);
        }
        if page_crossed && charges_page_cross_exec(op.instr) {
            self.extra_cycles = self.extra_cycles + 1;
        }
        Ok(())
    }

    fn read_modify_write(&mut self, op: &OpCode) -> (r: Result<(), NesError>)
        requires
            old(self)@.wf(),
        ensures
            (final(self)@, r) == exec_rmw(old(self)@, *op),
            final(self)@.extra == old(self)@.extra,
            final(self)@.wf(),
    {
        let (addr, _) = self.get_operand_address(op.mode)?;
        let data = self.mem_read(addr)?;
        let (base, then) = rmw_parts(op.instr);
        let new_data = self.shifted(base, data);
        proof {
            match then {
                Some(i) => lemma_alu_frame(i, self@, new_data),
                None => {},
            }
        }
        match then {
            Some(i) => self.apply_operand(i, new_data),
            None => {},
        }
        self.mem_write(addr, new_data)
    }

    fn store(&mut self, op: &OpCode) -> (r: Result<(), NesError>)
        requires
            old(self)@.wf(),
        ensures
            (final(self)@, r) == exec_store(old(self)@, *op),
            final(self)@.extra == old(self)@.extra,
            final(self)@.wf(),
    {
        let data = match op.instr {
            Instr::Sta => self.register_a,
            Instr::Stx => self.register_x,
            Instr::Sty => self.register_y,
            _ => self.register_a & self.register_x,
        };
        let (addr, _) = self.get_operand_address(op.mode)?;
        self.mem_write(addr, data)
    }

    /// Instructions without a memory operand.
    fn implied(&mut self, instr: Instr)
        requires
            old(self)@.wf(),
        ensures
            final(self)@ == implied(instr, old(self)@),
            final(self)@.extra == old(self)@.extra,
            final(self)@.wf(),
    {
        match instr {
            Instr::Clc => self.set_flag(CpuFlags::CARRY, false),
            Instr::Sec => self.set_flag(CpuFlags::CARRY, true),
            Instr::Cld => self.set_flag(CpuFlags::DECIMAL, false),
            Instr::Sed => self.set_flag(CpuFlags::DECIMAL, true),
            Instr::Cli => self.set_flag(CpuFlags::INTERRUPT_DISABLE, false),
            Instr::Sei => self.set_flag(CpuFlags::INTERRUPT_DISABLE, true),
            Instr::Clv => self.set_flag(CpuFlags::OVERFLOW, false),
            Instr::Dex => {
                self.register_x = self.register_x.wrapping_sub(1);
                self.update_zero_and_negative_flags(self.register_x);
            },
            Instr::Dey => {
                self.register_y = self.register_y.wrapping_sub(1);
                self.update_zero_and_negative_flags(self.register_y);
            },
            Instr::Inx => {
                self.register_x = self.register_x.wrapping_add(1);
                self.update_zero_and_negative_flags(self.register_x);
            },
            Instr::Iny => {
                self.register_y = self.register_y.wrapping_add(1);
                self.update_zero_and_negative_flags(self.register_y);
            },
            Instr::Tax => {
                self.register_x = self.register_a;
                self.update_zero_and_negative_flags(self.register_x);
            },
            Instr::Tay => {
                self.register_y = self.register_a;
                self.update_zero_and_negative_flags(self.register_y);
            },
            Instr::Tsx => {
                self.register_x = self.stack_pointer;
                self.update_zero_and_negative_flags(self.register_x);
            },
            Instr::Txa => {
                self.register_a = self.register_x;
                self.update_zero_and_negative_flags(self.register_a);
            },
            Instr::Tya => {
                self.register_a = self.register_y;
                self.update_zero_and_negative_flags(self.register_a);
            },
            Instr::Txs => {
                self.stack_pointer = self.register_x;
            },
            Instr::Asl | Instr::Lsr | Instr::Rol | Instr::Ror => {
                let a = self.register_a;
                let r = self.shifted(instr, a);
                self.register_a = r;
            },
            _ => {},
        }
    }

    fn branch(&mut self, condition: bool) -> (r: Result<(), NesError>)
        requires
            old(self)@.wf(),
            old(self)@.extra == 0,
        ensures
            (final(self)@, r) == exec_branch(old(self)@, condition),
            final(self)@.extra <= 2,
            final(self)@.wf(),
    {
        if condition {
            self.extra_cycles = self.extra_cycles + 1;
            let jump = self.mem_read(self.program_counter)?;
            let next = self.program_counter.wrapping_add(1);
            let jump_addr = if jump < 128 {
                next.wrapping_add(jump as u16)
            } else {
                next.wrapping_sub((256 - jump as u16) as u16)
            };
            if is_page_crossed(next, jump_addr) {
                self.extra_cycles = self.extra_cycles + 1;
            }
            self.program_counter = jump_addr;
        }
        Ok(())
    }

    fn stack_push(&mut self, data: u8)
        requires
            old(self)@.wf(),
        ensures
            final(self)@ == push(old(self)@, data),
            final(self)@.extra == old(self)@.extra,
            final(self)@.wf(),
    {
        let addr = STACK_TOP + self.stack_pointer as u16;
        let _ = self.mem_write(addr, data);
        self.stack_pointer = self.stack_pointer.wrapping_sub(1);
    }

    fn stack_pop(&mut self) -> (r: u8)
        requires
            old(self)@.wf(),
        ensures
            (final(self)@, r) == pop(old(self)@),
            final(self)@.extra == old(self)@.extra,
            final(self)@.wf(),
    {
        self.stack_pointer = self.stack_pointer.wrapping_add(1);
        let addr = STACK_TOP + self.stack_pointer as u16;
        match self.mem_read(addr) {
            Ok(v) => v,
            Err(_) => 0,
        }
    }

    fn stack_push_u16(&mut self, data: u16)
        requires
            old(self)@.wf(),
        ensures
            final(self)@ == push_u16(old(self)@, data),
            final(self)@.extra == old(self)@.extra,
            final(self)@.wf(),
    {
        self.stack_push((data / 256) as u8);
        self.stack_push((data % 256) as u8);
    }

    fn stack_pop_u16(&mut self) -> (r: u16)
        requires
            old(self)@.wf(),
        ensures
            (final(self)@, r) == pop_u16(old(self)@),
            final(self)@.extra == old(self)@.extra,
            final(self)@.wf(),
    {
        let lo = self.stack_pop();
        let hi = self.stack_pop();
        hi as u16 * 256 + lo as u16
    }

    fn jmp_absolute(&mut self) -> (r: Result<(), NesError>)
        requires
            old(self)@.wf(),
        ensures
            (final(self)@, r) == jmp_absolute(old(self)@),
            final(self)@.extra == old(self)@.extra,
            final(self)@.wf(),
    {
        let address = self.mem_read_u16(self.program_counter)?;
        self.program_counter = address;
        Ok(())
    }

    /// `JMP ($hhll)`: when the pointer is the last byte of a page, the high
    /// byte of the target comes from the start of that same page.
    fn jmp(&mut self) -> (r: Result<(), NesError>)
        requires
            old(self)@.wf(),
        ensures
            (final(self)@, r) == jmp_indirect(old(self)@),
            final(self)@.extra == old(self)@.extra,
            final(self)@.wf(),
    {
        let addr = self.mem_read_u16(self.program_counter)?;
        let indirect_ref = if addr % 256 == 0xFF {
            let lo = self.mem_read(addr)?;
            let hi = self.mem_read(addr - 0xFF)?;
            hi as u16 * 256 + lo as u16
        } else {
            self.mem_read_u16(addr)?
        };
        self.program_counter = indirect_ref;
        Ok(())
    }

    fn jsr(&mut self) -> (r: Result<(), NesError>)
        requires
            old(self)@.wf(),
        ensures
            (final(self)@, r) == jsr(old(self)@),
            final(self)@.extra == old(self)@.extra,
            final(self)@.wf(),
    {
        let pc = self.program_counter;
        self.stack_push_u16(pc.wrapping_add(1));
        let address = self.mem_read_u16(pc)?;
        self.program_counter = address;
        Ok(())
    }

    fn rts(&mut self)
        requires
            old(self)@.wf(),
        ensures
            final(self)@ == rts(old(self)@),
            final(self)@.extra == old(self)@.extra,
            final(self)@.wf(),
    {
        self.program_counter = self.stack_pop_u16().wrapping_add(1);
    }

    fn rti(&mut self)
        requires
            old(self)@.wf(),
        ensures
            final(self)@ == rti(old(self)@),
            final(self)@.extra == old(self)@.extra,
            final(self)@.wf(),
    {
        let v = self.stack_pop();
        proof {
            lemma_pulled_status(v);
        }
        self.status.bits = (v & 0xEF) | 0x20;
        self.program_counter = self.stack_pop_u16();
    }

    fn pha(&mut self)
        requires
            old(self)@.wf(),
        ensures
            final(self)@ == pha(old(self)@),
            final(self)@.extra == old(self)@.extra,
            final(self)@.wf(),
    {
        self.stack_push(self.register_a);
    }

    /// Pushes the status with B and bit 5 set.
    fn php(&mut self)
        requires
            old(self)@.wf(),
        ensures
            final(self)@ == php(old(self)@),
            final(self)@.extra == old(self)@.extra,
            final(self)@.wf(),
    {
        self.stack_push(self.status.bits | 0x30);
    }

    fn pla(&mut self)
        requires
            old(self)@.wf(),
        ensures
            final(self)@ == pla(old(self)@),
            final(self)@.extra == old(self)@.extra,
            final(self)@.wf(),
    {
        self.register_a = self.stack_pop();
        self.update_zero_and_negative_flags(self.register_a);
    }

    fn plp(&mut self)
        requires
            old(self)@.wf(),
        ensures
            final(self)@ == plp(old(self)@),
            final(self)@.extra == old(self)@.extra,
            final(self)@.wf(),
    {
        let v = self.stack_pop();
        proof {
            lemma_pulled_status(v);
        }
        self.status.bits = (v & 0xEF) | 0x20;
    }

    fn branch_condition(&self, instr: Instr) -> (r: bool)
        ensures
            r == branch_taken(instr, self.status.bits),
    {
        let p = self.status.bits;
        match instr {
            Instr::Bcc => p & CpuFlags::CARRY == 0,
            Instr::Bcs => p & CpuFlags::CARRY != 0,
            Instr::Bne => p & CpuFlags::ZERO == 0,
            Instr::Beq => p & CpuFlags::ZERO != 0,
            Instr::Bpl => p & CpuFlags::NEGATIVE == 0,
            Instr::Bmi => p & CpuFlags::NEGATIVE != 0,
            Instr::Bvc => p & CpuFlags::OVERFLOW == 0,
            _ => p & CpuFlags::OVERFLOW != 0,
        }
    }

    /// Executes one decoded instruction; PC is at its operand bytes.
    fn execute(&mut self, op: &OpCode) -> (r: Result<(), NesError>)
        requires
            old(self)@.wf(),
            old(self)@.extra == 0,
        ensures
            (final(self)@, r) == execute(old(self)@, *op),
            final(self)@.extra <= 2,
            final(self)@.wf(),
    {
        match op.instr {
            Instr::Asl | Instr::Lsr | Instr::Rol | Instr::Ror => {
                if op.mode == AddressingMode::NoneAddressing {
                    self.implied(op.instr);
                    Ok(())
                } else {
                    self.read_modify_write(op)
                }
            },
            Instr::Inc | Instr::Dec | Instr::Slo | Instr::Rla | Instr::Sre | Instr::Rra
            | Instr::Dcp | Instr::Isb => self.read_modify_write(op),
            Instr::Sta | Instr::Stx | Instr::Sty | Instr::Sax => self.store(op),
            Instr::Bcc | Instr::Bcs | Instr::Beq | Instr::Bne | Instr::Bmi | Instr::Bpl
            | Instr::Bvc | Instr::Bvs => {
                let condition = self.branch_condition(op.instr);
                self.branch(condition)
            },
            Instr::Jmp => self.jmp_absolute(),
            Instr::JmpIndirect => self.jmp(),
            Instr::Jsr => self.jsr(),
            Instr::Rts => {
                self.rts();
                Ok(())
            },
            Instr::Rti => {
                self.rti();
                Ok(())
            },
            Instr::Pha => {
                self.pha();
                Ok(())
            },
            Instr::Php => {
                self.php();
                Ok(())
            },
            Instr::Pla => {
                self.pla();
                Ok(())
            },
            Instr::Plp => {
                self.plp();
                Ok(())
            },
            Instr::Adc | Instr::Sbc | Instr::And | Instr::Ora | Instr::Eor | Instr::Lda
            | Instr::Ldx | Instr::Ldy | Instr::Lax | Instr::Cmp | Instr::Cpx | Instr::Cpy
            | Instr::Bit => self.read_instruction(op),
            _ => {
                self.implied(op.instr);
                Ok(())
            },
        }
    }

    /// Services an NMI; returns whether its two cycles completed a frame.
    fn interrupt_nmi(&mut self) -> (r: Result<bool, NesError>)
        requires
            old(self)@.wf(),
        ensures
            (final(self)@, r) == nmi(old(self)@),
            final(self)@.extra == old(self)@.extra,
            final(self)@.wf(),
    {
        let status = (self.status.bits & 0xEF) | 0x20;
        self.stack_push_u16(self.program_counter);
        self.stack_push(status);
        self.set_flag(CpuFlags::INTERRUPT_DISABLE, true);
        let frame = self.bus.tick(2);
        self.program_counter = self.mem_read_u16(0xfffa)?;
        Ok(frame)
    }

    /// One step: services a pending NMI, then fetches, decodes and executes
    /// one instruction and runs the clock for its cycles. `BRK` stops the
    /// program: it is reported and not executed further.
    pub fn step(&mut self) -> (r: Result<StepOutcome, NesError>)
        requires
            old(self)@.wf(),
        ensures
            (final(self)@, r) == step(old(self)@),
            final(self)@.wf(),
    {
        reveal(step);
        self.extra_cycles = 0;
        let mut frame = false;
        if let Some(_nmi) = self.bus.poll_nmi_status() {
            frame = self.interrupt_nmi()?;
        }
        let code = self.mem_read(self.program_counter)?;
        self.program_counter = self.program_counter.wrapping_add(1);
        let before_program_counter = self.program_counter;
        proof {
            lemma_opcode_shape(code);
        }
        let op = match decode(code) {
            Some(op) => op,
            None => return Err(NesError::UnknownOpcode(code)),
        };
        if op.instr == Instr::Brk {
            return Ok(StepOutcome { halted: true, frame_completed: frame });
        }
        self.execute(&op)?;
        if self.program_counter == before_program_counter {
            self.program_counter = before_program_counter.wrapping_add((op.len - 1) as u16);
        }
        let completed = self.bus.tick(op.cycle + self.extra_cycles);
        self.extra_cycles = 0;
        Ok(StepOutcome { halted: false, frame_completed: frame || completed })
    }

    /// Runs until `BRK` (`Ok(true)`) or an error; gives up with `Ok(false)`
    /// after 2^64 - 1 steps.
    pub fn run(&mut self) -> (r: Result<bool, NesError>)
        requires
            old(self)@.wf(),
        ensures
            (final(self)@, r) == run_from(old(self)@, u64::MAX as nat),
            final(self)@.wf(),
    {
        let ghost start = self@;
        let mut fuel: u64 = u64::MAX;
        while fuel > 0
            invariant
                self@.wf(),
                start == old(self)@,
                run_from(start, u64::MAX as nat) == run_from(self@, fuel as nat),
            decreases fuel,
        {
            let ghost prev = self@;
            let result = self.step();
            proof {
                assert(run_from(prev, fuel as nat) == match result {
                    Err(e) => (self@, Err::<bool, NesError>(e)),
                    Ok(o) => if o.halted {
                        (self@, Ok::<bool, NesError>(true))
                    } else {
                        run_from(self@, (fuel - 1) as nat)
                    },
                });
            }
            match result {
                Err(e) => return Err(e),
                Ok(outcome) => {
                    if outcome.halted {
                        return Ok(true);
                    }
                },
            }
            fuel = fuel - 1;
        }
        Ok(false)
    }
}

} // verus!
