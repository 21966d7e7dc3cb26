//! Properties that relate several instructions.
use vstd::prelude::*;

use crate::error::NesError;
use crate::opcode::{AddressingMode, OpCode};
use crate::semantics::{
    charges_page_cross, cpu_read, cpu_read_u16, exec_read, indexed, jsr, operand, operand_at, pha, php,
    pla, plp, rts, CpuView,
};

verus! {

/// `RTS` straight after `JSR` resumes after the `JSR` instruction: at the
/// pushed address (the last operand byte of `JSR`) plus one, with the stack
/// pointer back where it was. `c.pc` is the first operand byte of `JSR`.
pub proof fn lemma_jsr_rts(c: CpuView)
    requires
        c.wf(),
        jsr(c).1 is Ok,
    ensures
        rts(jsr(c).0).pc == c.pc.wrapping_add(1).wrapping_add(1),
        rts(jsr(c).0).sp == c.sp,
{
}

/// `PHA` then `PLA` leaves `A` and the stack pointer as they were.
pub proof fn lemma_pha_pla(c: CpuView)
    requires
        c.wf(),
    ensures
        pla(pha(c)).a == c.a,
        pla(pha(c)).sp == c.sp,
{
}

/// `PHP` then `PLP` leaves every flag but B and bit 5 as it was; since a well
/// formed status has B clear and bit 5 set, it leaves the status unchanged.
pub proof fn lemma_php_plp(c: CpuView)
    requires
        c.wf(),
    ensures
        plp(php(c)).p & 0xCF == c.p & 0xCF,
        plp(php(c)).p == c.p,
        plp(php(c)).sp == c.sp,
{
    let p = c.p;
    assert((((p | 0x30) & 0xEF) | 0x20) & 0xCF == p & 0xCF) by (bit_vector);
    assert(p & 0x30 == 0x20 ==> ((p | 0x30) & 0xEF) | 0x20 == p) by (bit_vector);
}

/// A read instruction in an indexed mode that can cross a page (absolute,X,
/// absolute,Y and (indirect),Y) is charged one extra cycle exactly when the
/// indexed address lies in another page than the base address.
pub proof fn lemma_page_cross_cycle(c: CpuView, o: OpCode)
    requires
        c.wf(),
        c.extra == 0,
        charges_page_cross(o.instr),
        o.mode == AddressingMode::Absolute_X || o.mode == AddressingMode::Absolute_Y || o.mode
            == AddressingMode::Indirect_Y,
        exec_read(c, o).1 is Ok,
    ensures
        exists|base: u16, index: u8|
            {
                &&& operand(c, o.mode).1 == Ok::<(u16, bool), NesError>(
                    #[trigger] indexed(base, index),
                )
                &&& indexed(base, index).0 == base.wrapping_add(index as u16)
                &&& exec_read(c, o).0.extra == if base / 256 != indexed(base, index).0 / 256 {
                    1u8
                } else {
                    0u8
                }
            },
{
    reveal(crate::semantics::operand_at);
    if o.mode == AddressingMode::Indirect_Y {
        let (ca, ra) = cpu_read(c, c.pc);
        let b = ra->Ok_0;
        let (cb, rb) = cpu_read(ca, b as u16);
        let (cc, rc) = cpu_read(cb, b.wrapping_add(1) as u16);
        let base = (rc->Ok_0 * 256 + rb->Ok_0) as u16;
        assert(exec_read(c, o).0.extra == if base / 256 != base.wrapping_add(c.y as u16) / 256 {
            1u8
        } else {
            0u8
        }) by {
            reveal(crate::semantics::alu);
        }
        assert(operand(c, o.mode).1 == Ok::<(u16, bool), NesError>(indexed(base, c.y)));
    } else {
        let base = cpu_read_u16(c, c.pc).1->Ok_0;
        let index = if o.mode == AddressingMode::Absolute_X {
            c.x
        } else {
            c.y
        };
        assert(exec_read(c, o).0.extra == if base / 256 != base.wrapping_add(index as u16) / 256 {
            1u8
        } else {
            0u8
        }) by {
            reveal(crate::semantics::alu);
        }
        assert(operand(c, o.mode).1 == Ok::<(u16, bool), NesError>(indexed(base, index)));
    }
}

/// Absolute,X and absolute,Y: once the two operand bytes are read, the
/// effective address is the base plus the index register, and the page-cross
/// flag says whether the two differ in their high byte.
pub proof fn lemma_absolute_indexed_operand(c: CpuView, mode: AddressingMode, addr: u16)
    requires
        mode == AddressingMode::Absolute_X || mode == AddressingMode::Absolute_Y,
        cpu_read_u16(c, addr).1 is Ok,
    ensures
        ({
            let base = cpu_read_u16(c, addr).1->Ok_0;
            let t = base.wrapping_add((if mode == AddressingMode::Absolute_X { c.x } else { c.y }) as u16);
            operand_at(c, mode, addr) == (
                cpu_read_u16(c, addr).0,
                Ok::<(u16, bool), NesError>((t, base / 256 != t / 256)),
            )
        }),
{
    reveal(operand_at);
}

/// (Indirect),Y: the base is the little-endian pointer read within the zero
/// page at the operand byte; the effective address is the base plus Y, and
/// the page-cross flag says whether the two differ in their high byte.
pub proof fn lemma_indirect_y_operand(c: CpuView, addr: u16)
    requires
        cpu_read(c, addr).1 is Ok,
        ({
            let (c1, r1) = cpu_read(c, addr);
            let p = r1->Ok_0;
            &&& cpu_read(c1, p as u16).1 is Ok
            &&& cpu_read(cpu_read(c1, p as u16).0, p.wrapping_add(1) as u16).1 is Ok
        }),
    ensures
        ({
            let (c1, r1) = cpu_read(c, addr);
            let p = r1->Ok_0;
            let (c2, r2) = cpu_read(c1, p as u16);
            let (c3, r3) = cpu_read(c2, p.wrapping_add(1) as u16);
            let base = (r3->Ok_0 * 256 + r2->Ok_0) as u16;
            let t = base.wrapping_add(c.y as u16);
            operand_at(c, AddressingMode::Indirect_Y, addr) == (
                c3,
                Ok::<(u16, bool), NesError>((t, base / 256 != t / 256)),
            )
        }),
{
    reveal(operand_at);
}

} // verus!
