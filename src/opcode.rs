//! The instruction table: for each opcode byte, its instruction, length in
//! bytes, base cycle count and addressing mode.
use vstd::prelude::*;

verus! {

#[allow(non_camel_case_types)]
#[derive(Clone, Copy, Debug, PartialEq, Eq, Structural)]
pub enum AddressingMode {
    Immediate,
    ZeroPage,
    ZeroPage_X,
    ZeroPage_Y,
    Absolute,
    Absolute_X,
    Absolute_Y,
    Indirect_X,
    Indirect_Y,
    NoneAddressing,
}

/// The instructions: the official set, and the undocumented `LAX`, `SAX`,
/// `DCP`, `ISB`, `SLO`, `RLA`, `SRE`, `RRA`. `JmpIndirect` is `JMP ($hhll)`.
#[derive(Clone, Copy, Debug, PartialEq, Eq, Structural)]
pub enum Instr {
    Adc,
    And,
    Asl,
    Bcc,
    Bcs,
    Beq,
    Bit,
    Bmi,
    Bne,
    Bpl,
    Brk,
    Bvc,
    Bvs,
    Clc,
    Cld,
    Cli,
    Clv,
    Cmp,
    Cpx,
    Cpy,
    Dec,
    Dex,
    Dey,
    Eor,
    Inc,
    Inx,
    Iny,
    Jmp,
    JmpIndirect,
    Jsr,
    Lda,
    Ldx,
    Ldy,
    Lsr,
    Nop,
    Ora,
    Pha,
    Php,
    Pla,
    Plp,
    Rol,
    Ror,
    Rti,
    Rts,
    Sbc,
    Sec,
    Sed,
    Sei,
    Sta,
    Stx,
    Sty,
    Tax,
    Tay,
    Tsx,
    Txa,
    Txs,
    Tya,
    Lax,
    Sax,
    Dcp,
    Isb,
    Slo,
    Rla,
    Sre,
    Rra,
}

#[derive(Clone, Copy, Debug, PartialEq, Eq, Structural)]
pub struct OpCode {
    pub code: u8,
    pub instr: Instr,
    pub len: u8,
    pub cycle: u8,
    pub mode: AddressingMode,
}

pub open spec fn op(code: u8, instr: Instr, len: u8, cycle: u8, mode: AddressingMode) -> OpCode {
    OpCode { code, instr, len, cycle, mode }
}

impl OpCode {
    pub fn new(code: u8, instr: Instr, len: u8, cycle: u8, mode: AddressingMode) -> (r: Self)
        ensures
            r == op(code, instr, len, cycle, mode),
    {
        OpCode { code, instr, len, cycle, mode }
    }
}

/// The table entry of an opcode byte, if the byte is an instruction.
pub open spec fn opcode_spec(code: u8) -> Option<OpCode> {
    match code {
        0x00 => Some(op(0x00, Instr::Brk, 1, 7, AddressingMode::NoneAddressing)),
        0x01 => Some(op(0x01, Instr::Ora, 2, 6, AddressingMode::Indirect_X)),
        0x03 => Some(op(0x03, Instr::Slo, 2, 8, AddressingMode::Indirect_X)),
        0x04 => Some(op(0x04, Instr::Nop, 2, 3, AddressingMode::ZeroPage)),
        0x05 => Some(op(0x05, Instr::Ora, 2, 3, AddressingMode::ZeroPage)),
        0x06 => Some(op(0x06, Instr::Asl, 2, 5, AddressingMode::ZeroPage)),
        0x07 => Some(op(0x07, Instr::Slo, 2, 5, AddressingMode::ZeroPage)),
        0x08 => Some(op(0x08, Instr::Php, 1, 3, AddressingMode::NoneAddressing)),
        0x09 => Some(op(0x09, Instr::Ora, 2, 2, AddressingMode::Immediate)),
        0x0A => Some(op(0x0A, Instr::Asl, 1, 2, AddressingMode::NoneAddressing)),
        0x0C => Some(op(0x0C, Instr::Nop, 3, 4, AddressingMode::Absolute)),
        0x0D => Some(op(0x0D, Instr::Ora, 3, 4, AddressingMode::Absolute)),
        0x0E => Some(op(0x0E, Instr::Asl, 3, 6, AddressingMode::Absolute)),
        0x0F => Some(op(0x0F, Instr::Slo, 3, 6, AddressingMode::Absolute)),
        0x10 => Some(op(0x10, Instr::Bpl, 2, 2, AddressingMode::NoneAddressing)),
        0x11 => Some(op(0x11, Instr::Ora, 2, 5, AddressingMode::Indirect_Y)),
        0x13 => Some(op(0x13, Instr::Slo, 2, 8, AddressingMode::Indirect_Y)),
        0x14 => Some(op(0x14, Instr::Nop, 2, 4, AddressingMode::ZeroPage_X)),
        0x15 => Some(op(0x15, Instr::Ora, 2, 4, AddressingMode::ZeroPage_X)),
        0x16 => Some(op(0x16, Instr::Asl, 2, 6, AddressingMode::ZeroPage_X)),
        0x17 => Some(op(0x17, Instr::Slo, 2, 6, AddressingMode::ZeroPage_X)),
        0x18 => Some(op(0x18, Instr::Clc, 1, 2, AddressingMode::NoneAddressing)),
        0x19 => Some(op(0x19, Instr::Ora, 3, 4, AddressingMode::Absolute_Y)),
        0x1A => Some(op(0x1A, Instr::Nop, 1, 2, AddressingMode::NoneAddressing)),
        0x1B => Some(op(0x1B, Instr::Slo, 3, 7, AddressingMode::Absolute_Y)),
        0x1C => Some(op(0x1C, Instr::Nop, 3, 4, AddressingMode::Absolute_X)),
        0x1D => Some(op(0x1D, Instr::Ora, 3, 4, AddressingMode::Absolute_X)),
        0x1E => Some(op(0x1E, Instr::Asl, 3, 7, AddressingMode::Absolute_X)),
        0x1F => Some(op(0x1F, Instr::Slo, 3, 7, AddressingMode::Absolute_X)),
        0x20 => Some(op(0x20, Instr::Jsr, 3, 6, AddressingMode::Absolute)),
        0x21 => Some(op(0x21, Instr::And, 2, 6, AddressingMode::Indirect_X)),
        0x23 => Some(op(0x23, Instr::Rla, 2, 8, AddressingMode::Indirect_X)),
        0x24 => Some(op(0x24, Instr::Bit, 2, 3, AddressingMode::ZeroPage)),
        0x25 => Some(op(0x25, Instr::And, 2, 3, AddressingMode::ZeroPage)),
        0x26 => Some(op(0x26, Instr::Rol, 2, 5, AddressingMode::ZeroPage)),
        0x27 => Some(op(0x27, Instr::Rla, 2, 5, AddressingMode::ZeroPage)),
        0x28 => Some(op(0x28, Instr::Plp, 1, 4, AddressingMode::NoneAddressing)),
        0x29 => Some(op(0x29, Instr::And, 2, 2, AddressingMode::Immediate)),
        0x2A => Some(op(0x2A, Instr::Rol, 1, 2, AddressingMode::NoneAddressing)),
        0x2C => Some(op(0x2C, Instr::Bit, 3, 4, AddressingMode::Absolute)),
        0x2D => Some(op(0x2D, Instr::And, 3, 4, AddressingMode::Absolute)),
        0x2E => Some(op(0x2E, Instr::Rol, 3, 6, AddressingMode::Absolute)),
        0x2F => Some(op(0x2F, Instr::Rla, 3, 6, AddressingMode::Absolute)),
        0x30 => Some(op(0x30, Instr::Bmi, 2, 2, AddressingMode::NoneAddressing)),
        0x31 => Some(op(0x31, Instr::And, 2, 5, AddressingMode::Indirect_Y)),
        0x33 => Some(op(0x33, Instr::Rla, 2, 8, AddressingMode::Indirect_Y)),
        0x34 => Some(op(0x34, Instr::Nop, 2, 4, AddressingMode::ZeroPage_X)),
        0x35 => Some(op(0x35, Instr::And, 2, 4, AddressingMode::ZeroPage_X)),
        0x36 => Some(op(0x36, Instr::Rol, 2, 6, AddressingMode::ZeroPage_X)),
        0x37 => Some(op(0x37, Instr::Rla, 2, 6, AddressingMode::ZeroPage_X)),
        0x38 => Some(op(0x38, Instr::Sec, 1, 2, AddressingMode::NoneAddressing)),
        0x39 => Some(op(0x39, Instr::And, 3, 4, AddressingMode::Absolute_Y)),
        0x3A => Some(op(0x3A, Instr::Nop, 1, 2, AddressingMode::NoneAddressing)),
        0x3B => Some(op(0x3B, Instr::Rla, 3, 7, AddressingMode::Absolute_Y)),
        0x3C => Some(op(0x3C, Instr::Nop, 3, 4, AddressingMode::Absolute_X)),
        0x3D => Some(op(0x3D, Instr::And, 3, 4, AddressingMode::Absolute_X)),
        0x3E => Some(op(0x3E, Instr::Rol, 3, 7, AddressingMode::Absolute_X)),
        0x3F => Some(op(0x3F, Instr::Rla, 3, 7, AddressingMode::Absolute_X)),
        0x40 => Some(op(0x40, Instr::Rti, 1, 6, AddressingMode::NoneAddressing)),
        0x41 => Some(op(0x41, Instr::Eor, 2, 6, AddressingMode::Indirect_X)),
        0x43 => Some(op(0x43, Instr::Sre, 2, 8, AddressingMode::Indirect_X)),
        0x44 => Some(op(0x44, Instr::Nop, 2, 3, AddressingMode::ZeroPage)),
        0x45 => Some(op(0x45, Instr::Eor, 2, 3, AddressingMode::ZeroPage)),
        0x46 => Some(op(0x46, Instr::Lsr, 2, 5, AddressingMode::ZeroPage)),
        0x47 => Some(op(0x47, Instr::Sre, 2, 5, AddressingMode::ZeroPage)),
        0x48 => Some(op(0x48, Instr::Pha, 1, 3, AddressingMode::NoneAddressing)),
        0x49 => Some(op(0x49, Instr::Eor, 2, 2, AddressingMode::Immediate)),
        0x4A => Some(op(0x4A, Instr::Lsr, 1, 2, AddressingMode::NoneAddressing)),
        0x4C => Some(op(0x4C, Instr::Jmp, 3, 3, AddressingMode::Absolute)),
        0x4D => Some(op(0x4D, Instr::Eor, 3, 4, AddressingMode::Absolute)),
        0x4E => Some(op(0x4E, Instr::Lsr, 3, 6, AddressingMode::Absolute)),
        0x4F => Some(op(0x4F, Instr::Sre, 3, 6, AddressingMode::Absolute)),
        0x50 => Some(op(0x50, Instr::Bvc, 2, 2, AddressingMode::NoneAddressing)),
        0x51 => Some(op(0x51, Instr::Eor, 2, 5, AddressingMode::Indirect_Y)),
        0x53 => Some(op(0x53, Instr::Sre, 2, 8, AddressingMode::Indirect_Y)),
        0x54 => Some(op(0x54, Instr::Nop, 2, 4, AddressingMode::ZeroPage_X)),
        0x55 => Some(op(0x55, Instr::Eor, 2, 4, AddressingMode::ZeroPage_X)),
        0x56 => Some(op(0x56, Instr::Lsr, 2, 6, AddressingMode::ZeroPage_X)),
        0x57 => Some(op(0x57, Instr::Sre, 2, 6, AddressingMode::ZeroPage_X)),
        0x58 => Some(op(0x58, Instr::Cli, 1, 2, AddressingMode::NoneAddressing)),
        0x59 => Some(op(0x59, Instr::Eor, 3, 4, AddressingMode::Absolute_Y)),
        0x5A => Some(op(0x5A, Instr::Nop, 1, 2, AddressingMode::NoneAddressing)),
        0x5B => Some(op(0x5B, Instr::Sre, 3, 7, AddressingMode::Absolute_Y)),
        0x5C => Some(op(0x5C, Instr::Nop, 3, 4, AddressingMode::Absolute_X)),
        0x5D => Some(op(0x5D, Instr::Eor, 3, 4, AddressingMode::Absolute_X)),
        0x5E => Some(op(0x5E, Instr::Lsr, 3, 7, AddressingMode::Absolute_X)),
        0x5F => Some(op(0x5F, Instr::Sre, 3, 7, AddressingMode::Absolute_X)),
        0x60 => Some(op(0x60, Instr::Rts, 1, 6, AddressingMode::NoneAddressing)),
        0x61 => Some(op(0x61, Instr::Adc, 2, 6, AddressingMode::Indirect_X)),
        0x63 => Some(op(0x63, Instr::Rra, 2, 8, AddressingMode::Indirect_X)),
        0x64 => Some(op(0x64, Instr::Nop, 2, 3, AddressingMode::ZeroPage)),
        0x65 => Some(op(0x65, Instr::Adc, 2, 3, AddressingMode::ZeroPage)),
        0x66 => Some(op(0x66, Instr::Ror, 2, 5, AddressingMode::ZeroPage)),
        0x67 => Some(op(0x67, Instr::Rra, 2, 5, AddressingMode::ZeroPage)),
        0x68 => Some(op(0x68, Instr::Pla, 1, 4, AddressingMode::NoneAddressing)),
        0x69 => Some(op(0x69, Instr::Adc, 2, 2, AddressingMode::Immediate)),
        0x6A => Some(op(0x6A, Instr::Ror, 1, 2, AddressingMode::NoneAddressing)),
        0x6C => Some(op(0x6C, Instr::JmpIndirect, 3, 5, AddressingMode::NoneAddressing)),
        0x6D => Some(op(0x6D, Instr::Adc, 3, 4, AddressingMode::Absolute)),
        0x6E => Some(op(0x6E, Instr::Ror, 3, 6, AddressingMode::Absolute)),
        0x6F => Some(op(0x6F, Instr::Rra, 3, 6, AddressingMode::Absolute)),
        0x70 => Some(op(0x70, Instr::Bvs, 2, 2, AddressingMode::NoneAddressing)),
        0x71 => Some(op(0x71, Instr::Adc, 2, 5, AddressingMode::Indirect_Y)),
        0x73 => Some(op(0x73, Instr::Rra, 2, 8, AddressingMode::Indirect_Y)),
        0x74 => Some(op(0x74, Instr::Nop, 2, 4, AddressingMode::ZeroPage_X)),
        0x75 => Some(op(0x75, Instr::Adc, 2, 4, AddressingMode::ZeroPage_X)),
        0x76 => Some(op(0x76, Instr::Ror, 2, 6, AddressingMode::ZeroPage_X)),
        0x77 => Some(op(0x77, Instr::Rra, 2, 6, AddressingMode::ZeroPage_X)),
        0x78 => Some(op(0x78, Instr::Sei, 1, 2, AddressingMode::NoneAddressing)),
        0x79 => Some(op(0x79, Instr::Adc, 3, 4, AddressingMode::Absolute_Y)),
        0x7A => Some(op(0x7A, Instr::Nop, 1, 2, AddressingMode::NoneAddressing)),
        0x7B => Some(op(0x7B, Instr::Rra, 3, 7, AddressingMode::Absolute_Y)),
        0x7C => Some(op(0x7C, Instr::Nop, 3, 4, AddressingMode::Absolute_X)),
        0x7D => Some(op(0x7D, Instr::Adc, 3, 4, AddressingMode::Absolute_X)),
        0x7E => Some(op(0x7E, Instr::Ror, 3, 7, AddressingMode::Absolute_X)),
        0x7F => Some(op(0x7F, Instr::Rra, 3, 7, AddressingMode::Absolute_X)),
        0x80 => Some(op(0x80, Instr::Nop, 2, 2, AddressingMode::Immediate)),
        0x81 => Some(op(0x81, Instr::Sta, 2, 6, AddressingMode::Indirect_X)),
        0x82 => Some(op(0x82, Instr::Nop, 2, 2, AddressingMode::Immediate)),
        0x83 => Some(op(0x83, Instr::Sax, 2, 6, AddressingMode::Indirect_X)),
        0x84 => Some(op(0x84, Instr::Sty, 2, 3, AddressingMode::ZeroPage)),
        0x85 => Some(op(0x85, Instr::Sta, 2, 3, AddressingMode::ZeroPage)),
        0x86 => Some(op(0x86, Instr::Stx, 2, 3, AddressingMode::ZeroPage)),
        0x87 => Some(op(0x87, Instr::Sax, 2, 3, AddressingMode::ZeroPage)),
        0x88 => Some(op(0x88, Instr::Dey, 1, 2, AddressingMode::NoneAddressing)),
        0x89 => Some(op(0x89, Instr::Nop, 2, 2, AddressingMode::Immediate)),
        0x8A => Some(op(0x8A, Instr::Txa, 1, 2, AddressingMode::NoneAddressing)),
        0x8C => Some(op(0x8C, Instr::Sty, 3, 4, AddressingMode::Absolute)),
        0x8D => Some(op(0x8D, Instr::Sta, 3, 4, AddressingMode::Absolute)),
        0x8E => Some(op(0x8E, Instr::Stx, 3, 4, AddressingMode::Absolute)),
        0x8F => Some(op(0x8F, Instr::Sax, 3, 4, AddressingMode::Absolute)),
        0x90 => Some(op(0x90, Instr::Bcc, 2, 2, AddressingMode::NoneAddressing)),
        0x91 => Some(op(0x91, Instr::Sta, 2, 6, AddressingMode::Indirect_Y)),
        0x94 => Some(op(0x94, Instr::Sty, 2, 4, AddressingMode::ZeroPage_X)),
        0x95 => Some(op(0x95, Instr::Sta, 2, 4, AddressingMode::ZeroPage_X)),
        0x96 => Some(op(0x96, Instr::Stx, 2, 4, AddressingMode::ZeroPage_Y)),
        0x97 => Some(op(0x97, Instr::Sax, 2, 4, AddressingMode::ZeroPage_Y)),
        0x98 => Some(op(0x98, Instr::Tya, 1, 2, AddressingMode::NoneAddressing)),
        0x99 => Some(op(0x99, Instr::Sta, 3, 5, AddressingMode::Absolute_Y)),
        0x9A => Some(op(0x9A, Instr::Txs, 1, 2, AddressingMode::NoneAddressing)),
        0x9D => Some(op(0x9D, Instr::Sta, 3, 5, AddressingMode::Absolute_X)),
        0xA0 => Some(op(0xA0, Instr::Ldy, 2, 2, AddressingMode::Immediate)),
        0xA1 => Some(op(0xA1, Instr::Lda, 2, 6, AddressingMode::Indirect_X)),
        0xA2 => Some(op(0xA2, Instr::Ldx, 2, 2, AddressingMode::Immediate)),
        0xA3 => Some(op(0xA3, Instr::Lax, 2, 6, AddressingMode::Indirect_X)),
        0xA4 => Some(op(0xA4, Instr::Ldy, 2, 3, AddressingMode::ZeroPage)),
        0xA5 => Some(op(0xA5, Instr::Lda, 2, 3, AddressingMode::ZeroPage)),
        0xA6 => Some(op(0xA6, Instr::Ldx, 2, 3, AddressingMode::ZeroPage)),
        0xA7 => Some(op(0xA7, Instr::Lax, 2, 3, AddressingMode::ZeroPage)),
        0xA8 => Some(op(0xA8, Instr::Tay, 1, 2, AddressingMode::NoneAddressing)),
        0xA9 => Some(op(0xA9, Instr::Lda, 2, 2, AddressingMode::Immediate)),
        0xAA => Some(op(0xAA, Instr::Tax, 1, 2, AddressingMode::NoneAddressing)),
        0xAC => Some(op(0xAC, Instr::Ldy, 3, 4, AddressingMode::Absolute)),
        0xAD => Some(op(0xAD, Instr::Lda, 3, 4, AddressingMode::Absolute)),
        0xAE => Some(op(0xAE, Instr::Ldx, 3, 4, AddressingMode::Absolute)),
        0xAF => Some(op(0xAF, Instr::Lax, 3, 4, AddressingMode::Absolute)),
        0xB0 => Some(op(0xB0, Instr::Bcs, 2, 2, AddressingMode::NoneAddressing)),
        0xB1 => Some(op(0xB1, Instr::Lda, 2, 5, AddressingMode::Indirect_Y)),
        0xB3 => Some(op(0xB3, Instr::Lax, 2, 5, AddressingMode::Indirect_Y)),
        0xB4 => Some(op(0xB4, Instr::Ldy, 2, 4, AddressingMode::ZeroPage_X)),
        0xB5 => Some(op(0xB5, Instr::Lda, 2, 4, AddressingMode::ZeroPage_X)),
        0xB6 => Some(op(0xB6, Instr::Ldx, 2, 4, AddressingMode::ZeroPage_Y)),
        0xB7 => Some(op(0xB7, Instr::Lax, 2, 4, AddressingMode::ZeroPage_Y)),
        0xB8 => Some(op(0xB8, Instr::Clv, 1, 2, AddressingMode::NoneAddressing)),
        0xB9 => Some(op(0xB9, Instr::Lda, 3, 4, AddressingMode::Absolute_Y)),
        0xBA => Some(op(0xBA, Instr::Tsx, 1, 2, AddressingMode::NoneAddressing)),
        0xBC => Some(op(0xBC, Instr::Ldy, 3, 4, AddressingMode::Absolute_X)),
        0xBD => Some(op(0xBD, Instr::Lda, 3, 4, AddressingMode::Absolute_X)),
        0xBE => Some(op(0xBE, Instr::Ldx, 3, 4, AddressingMode::Absolute_Y)),
        0xBF => Some(op(0xBF, Instr::Lax, 3, 4, AddressingMode::Absolute_Y)),
        0xC0 => Some(op(0xC0, Instr::Cpy, 2, 2, AddressingMode::Immediate)),
        0xC1 => Some(op(0xC1, Instr::Cmp, 2, 6, AddressingMode::Indirect_X)),
        0xC2 => Some(op(0xC2, Instr::Nop, 2, 2, AddressingMode::Immediate)),
        0xC3 => Some(op(0xC3, Instr::Dcp, 2, 8, AddressingMode::Indirect_X)),
        0xC4 => Some(op(0xC4, Instr::Cpy, 2, 3, AddressingMode::ZeroPage)),
        0xC5 => Some(op(0xC5, Instr::Cmp, 2, 3, AddressingMode::ZeroPage)),
        0xC6 => Some(op(0xC6, Instr::Dec, 2, 5, AddressingMode::ZeroPage)),
        0xC7 => Some(op(0xC7, Instr::Dcp, 2, 5, AddressingMode::ZeroPage)),
        0xC8 => Some(op(0xC8, Instr::Iny, 1, 2, AddressingMode::NoneAddressing)),
        0xC9 => Some(op(0xC9, Instr::Cmp, 2, 2, AddressingMode::Immediate)),
        0xCA => Some(op(0xCA, Instr::Dex, 1, 2, AddressingMode::NoneAddressing)),
        0xCC => Some(op(0xCC, Instr::Cpy, 3, 4, AddressingMode::Absolute)),
        0xCD => Some(op(0xCD, Instr::Cmp, 3, 4, AddressingMode::Absolute)),
        0xCE => Some(op(0xCE, Instr::Dec, 3, 6, AddressingMode::Absolute)),
        0xCF => Some(op(0xCF, Instr::Dcp, 3, 6, AddressingMode::Absolute)),
        0xD0 => Some(op(0xD0, Instr::Bne, 2, 2, AddressingMode::NoneAddressing)),
        0xD1 => Some(op(0xD1, Instr::Cmp, 2, 5, AddressingMode::Indirect_Y)),
        0xD3 => Some(op(0xD3, Instr::Dcp, 2, 8, AddressingMode::Indirect_Y)),
        0xD4 => Some(op(0xD4, Instr::Nop, 2, 4, AddressingMode::ZeroPage_X)),
        0xD5 => Some(op(0xD5, Instr::Cmp, 2, 4, AddressingMode::ZeroPage_X)),
        0xD6 => Some(op(0xD6, Instr::Dec, 2, 6, AddressingMode::ZeroPage_X)),
        0xD7 => Some(op(0xD7, Instr::Dcp, 2, 6, AddressingMode::ZeroPage_X)),
        0xD8 => Some(op(0xD8, Instr::Cld, 1, 2, AddressingMode::NoneAddressing)),
        0xD9 => Some(op(0xD9, Instr::Cmp, 3, 4, AddressingMode::Absolute_Y)),
        0xDA => Some(op(0xDA, Instr::Nop, 1, 2, AddressingMode::NoneAddressing)),
        0xDB => Some(op(0xDB, Instr::Dcp, 3, 7, AddressingMode::Absolute_Y)),
        0xDC => Some(op(0xDC, Instr::Nop, 3, 4, AddressingMode::Absolute_X)),
        0xDD => Some(op(0xDD, Instr::Cmp, 3, 4, AddressingMode::Absolute_X)),
        0xDE => Some(op(0xDE, Instr::Dec, 3, 7, AddressingMode::Absolute_X)),
        0xDF => Some(op(0xDF, Instr::Dcp, 3, 7, AddressingMode::Absolute_X)),
        0xE0 => Some(op(0xE0, Instr::Cpx, 2, 2, AddressingMode::Immediate)),
        0xE1 => Some(op(0xE1, Instr::Sbc, 2, 6, AddressingMode::Indirect_X)),
        0xE2 => Some(op(0xE2, Instr::Nop, 2, 2, AddressingMode::Immediate)),
        0xE3 => Some(op(0xE3, Instr::Isb, 2, 8, AddressingMode::Indirect_X)),
        0xE4 => Some(op(0xE4, Instr::Cpx, 2, 3, AddressingMode::ZeroPage)),
        0xE5 => Some(op(0xE5, Instr::Sbc, 2, 3, AddressingMode::ZeroPage)),
        0xE6 => Some(op(0xE6, Instr::Inc, 2, 5, AddressingMode::ZeroPage)),
        0xE7 => Some(op(0xE7, Instr::Isb, 2, 5, AddressingMode::ZeroPage)),
        0xE8 => Some(op(0xE8, Instr::Inx, 1, 2, AddressingMode::NoneAddressing)),
        0xE9 => Some(op(0xE9, Instr::Sbc, 2, 2, AddressingMode::Immediate)),
        0xEA => Some(op(0xEA, Instr::Nop, 1, 2, AddressingMode::NoneAddressing)),
        0xEB => Some(op(0xEB, Instr::Sbc, 2, 2, AddressingMode::Immediate)),
        0xEC => Some(op(0xEC, Instr::Cpx, 3, 4, AddressingMode::Absolute)),
        0xED => Some(op(0xED, Instr::Sbc, 3, 4, AddressingMode::Absolute)),
        0xEE => Some(op(0xEE, Instr::Inc, 3, 6, AddressingMode::Absolute)),
        0xEF => Some(op(0xEF, Instr::Isb, 3, 6, AddressingMode::Absolute)),
        0xF0 => Some(op(0xF0, Instr::Beq, 2, 2, AddressingMode::NoneAddressing)),
        0xF1 => Some(op(0xF1, Instr::Sbc, 2, 5, AddressingMode::Indirect_Y)),
        0xF3 => Some(op(0xF3, Instr::Isb, 2, 8, AddressingMode::Indirect_Y)),
        0xF4 => Some(op(0xF4, Instr::Nop, 2, 4, AddressingMode::ZeroPage_X)),
        0xF5 => Some(op(0xF5, Instr::Sbc, 2, 4, AddressingMode::ZeroPage_X)),
        0xF6 => Some(op(0xF6, Instr::Inc, 2, 6, AddressingMode::ZeroPage_X)),
        0xF7 => Some(op(0xF7, Instr::Isb, 2, 6, AddressingMode::ZeroPage_X)),
        0xF8 => Some(op(0xF8, Instr::Sed, 1, 2, AddressingMode::NoneAddressing)),
        0xF9 => Some(op(0xF9, Instr::Sbc, 3, 4, AddressingMode::Absolute_Y)),
        0xFA => Some(op(0xFA, Instr::Nop, 1, 2, AddressingMode::NoneAddressing)),
        0xFB => Some(op(0xFB, Instr::Isb, 3, 7, AddressingMode::Absolute_Y)),
        0xFC => Some(op(0xFC, Instr::Nop, 3, 4, AddressingMode::Absolute_X)),
        0xFD => Some(op(0xFD, Instr::Sbc, 3, 4, AddressingMode::Absolute_X)),
        0xFE => Some(op(0xFE, Instr::Inc, 3, 7, AddressingMode::Absolute_X)),
        0xFF => Some(op(0xFF, Instr::Isb, 3, 7, AddressingMode::Absolute_X)),
        _ => None,
    }
}

/// Every entry has its own byte as code, a length of 1 to 3 and at most 8
/// base cycles.
pub proof fn lemma_opcode_shape(code: u8)
    ensures
        opcode_spec(code) matches Some(o) ==> o.code == code && 1 <= o.len <= 3 && o.cycle <= 8,
{
}

/// Looks an opcode byte up in the instruction table.
pub fn decode(code: u8) -> (r: Option<OpCode>)
    ensures
        r == opcode_spec(code),
{
    match code {
        0x00 => Some(OpCode::new(0x00, Instr::Brk, 1, 7, AddressingMode::NoneAddressing)),
        0x01 => Some(OpCode::new(0x01, Instr::Ora, 2, 6, AddressingMode::Indirect_X)),
        0x03 => Some(OpCode::new(0x03, Instr::Slo, 2, 8, AddressingMode::Indirect_X)),
        0x04 => Some(OpCode::new(0x04, Instr::Nop, 2, 3, AddressingMode::ZeroPage)),
        0x05 => Some(OpCode::new(0x05, Instr::Ora, 2, 3, AddressingMode::ZeroPage)),
        0x06 => Some(OpCode::new(0x06, Instr::Asl, 2, 5, AddressingMode::ZeroPage)),
        0x07 => Some(OpCode::new(0x07, Instr::Slo, 2, 5, AddressingMode::ZeroPage)),
        0x08 => Some(OpCode::new(0x08, Instr::Php, 1, 3, AddressingMode::NoneAddressing)),
        0x09 => Some(OpCode::new(0x09, Instr::Ora, 2, 2, AddressingMode::Immediate)),
        0x0A => Some(OpCode::new(0x0A, Instr::Asl, 1, 2, AddressingMode::NoneAddressing)),
        0x0C => Some(OpCode::new(0x0C, Instr::Nop, 3, 4, AddressingMode::Absolute)),
        0x0D => Some(OpCode::new(0x0D, Instr::Ora, 3, 4, AddressingMode::Absolute)),
        0x0E => Some(OpCode::new(0x0E, Instr::Asl, 3, 6, AddressingMode::Absolute)),
        0x0F => Some(OpCode::new(0x0F, Instr::Slo, 3, 6, AddressingMode::Absolute)),
        0x10 => Some(OpCode::new(0x10, Instr::Bpl, 2, 2, AddressingMode::NoneAddressing)),
        0x11 => Some(OpCode::new(0x11, Instr::Ora, 2, 5, AddressingMode::Indirect_Y)),
        0x13 => Some(OpCode::new(0x13, Instr::Slo, 2, 8, AddressingMode::Indirect_Y)),
        0x14 => Some(OpCode::new(0x14, Instr::Nop, 2, 4, AddressingMode::ZeroPage_X)),
        0x15 => Some(OpCode::new(0x15, Instr::Ora, 2, 4, AddressingMode::ZeroPage_X)),
        0x16 => Some(OpCode::new(0x16, Instr::Asl, 2, 6, AddressingMode::ZeroPage_X)),
        0x17 => Some(OpCode::new(0x17, Instr::Slo, 2, 6, AddressingMode::ZeroPage_X)),
        0x18 => Some(OpCode::new(0x18, Instr::Clc, 1, 2, AddressingMode::NoneAddressing)),
        0x19 => Some(OpCode::new(0x19, Instr::Ora, 3, 4, AddressingMode::Absolute_Y)),
        0x1A => Some(OpCode::new(0x1A, Instr::Nop, 1, 2, AddressingMode::NoneAddressing)),
        0x1B => Some(OpCode::new(0x1B, Instr::Slo, 3, 7, AddressingMode::Absolute_Y)),
        0x1C => Some(OpCode::new(0x1C, Instr::Nop, 3, 4, AddressingMode::Absolute_X)),
        0x1D => Some(OpCode::new(0x1D, Instr::Ora, 3, 4, AddressingMode::Absolute_X)),
        0x1E => Some(OpCode::new(0x1E, Instr::Asl, 3, 7, AddressingMode::Absolute_X)),
        0x1F => Some(OpCode::new(0x1F, Instr::Slo, 3, 7, AddressingMode::Absolute_X)),
        0x20 => Some(OpCode::new(0x20, Instr::Jsr, 3, 6, AddressingMode::Absolute)),
        0x21 => Some(OpCode::new(0x21, Instr::And, 2, 6, AddressingMode::Indirect_X)),
        0x23 => Some(OpCode::new(0x23, Instr::Rla, 2, 8, AddressingMode::Indirect_X)),
        0x24 => Some(OpCode::new(0x24, Instr::Bit, 2, 3, AddressingMode::ZeroPage)),
        0x25 => Some(OpCode::new(0x25, Instr::And, 2, 3, AddressingMode::ZeroPage)),
        0x26 => Some(OpCode::new(0x26, Instr::Rol, 2, 5, AddressingMode::ZeroPage)),
        0x27 => Some(OpCode::new(0x27, Instr::Rla, 2, 5, AddressingMode::ZeroPage)),
        0x28 => Some(OpCode::new(0x28, Instr::Plp, 1, 4, AddressingMode::NoneAddressing)),
        0x29 => Some(OpCode::new(0x29, Instr::And, 2, 2, AddressingMode::Immediate)),
        0x2A => Some(OpCode::new(0x2A, Instr::Rol, 1, 2, AddressingMode::NoneAddressing)),
        0x2C => Some(OpCode::new(0x2C, Instr::Bit, 3, 4, AddressingMode::Absolute)),
        0x2D => Some(OpCode::new(0x2D, Instr::And, 3, 4, AddressingMode::Absolute)),
        0x2E => Some(OpCode::new(0x2E, Instr::Rol, 3, 6, AddressingMode::Absolute)),
        0x2F => Some(OpCode::new(0x2F, Instr::Rla, 3, 6, AddressingMode::Absolute)),
        0x30 => Some(OpCode::new(0x30, Instr::Bmi, 2, 2, AddressingMode::NoneAddressing)),
        0x31 => Some(OpCode::new(0x31, Instr::And, 2, 5, AddressingMode::Indirect_Y)),
        0x33 => Some(OpCode::new(0x33, Instr::Rla, 2, 8, AddressingMode::Indirect_Y)),
        0x34 => Some(OpCode::new(0x34, Instr::Nop, 2, 4, AddressingMode::ZeroPage_X)),
        0x35 => Some(OpCode::new(0x35, Instr::And, 2, 4, AddressingMode::ZeroPage_X)),
        0x36 => Some(OpCode::new(0x36, Instr::Rol, 2, 6, AddressingMode::ZeroPage_X)),
        0x37 => Some(OpCode::new(0x37, Instr::Rla, 2, 6, AddressingMode::ZeroPage_X)),
        0x38 => Some(OpCode::new(0x38, Instr::Sec, 1, 2, AddressingMode::NoneAddressing)),
        0x39 => Some(OpCode::new(0x39, Instr::And, 3, 4, AddressingMode::Absolute_Y)),
        0x3A => Some(OpCode::new(0x3A, Instr::Nop, 1, 2, AddressingMode::NoneAddressing)),
        0x3B => Some(OpCode::new(0x3B, Instr::Rla, 3, 7, AddressingMode::Absolute_Y)),
        0x3C => Some(OpCode::new(0x3C, Instr::Nop, 3, 4, AddressingMode::Absolute_X)),
        0x3D => Some(OpCode::new(0x3D, Instr::And, 3, 4, AddressingMode::Absolute_X)),
        0x3E => Some(OpCode::new(0x3E, Instr::Rol, 3, 7, AddressingMode::Absolute_X)),
        0x3F => Some(OpCode::new(0x3F, Instr::Rla, 3, 7, AddressingMode::Absolute_X)),
        0x40 => Some(OpCode::new(0x40, Instr::Rti, 1, 6, AddressingMode::NoneAddressing)),
        0x41 => Some(OpCode::new(0x41, Instr::Eor, 2, 6, AddressingMode::Indirect_X)),
        0x43 => Some(OpCode::new(0x43, Instr::Sre, 2, 8, AddressingMode::Indirect_X)),
        0x44 => Some(OpCode::new(0x44, Instr::Nop, 2, 3, AddressingMode::ZeroPage)),
        0x45 => Some(OpCode::new(0x45, Instr::Eor, 2, 3, AddressingMode::ZeroPage)),
        0x46 => Some(OpCode::new(0x46, Instr::Lsr, 2, 5, AddressingMode::ZeroPage)),
        0x47 => Some(OpCode::new(0x47, Instr::Sre, 2, 5, AddressingMode::ZeroPage)),
        0x48 => Some(OpCode::new(0x48, Instr::Pha, 1, 3, AddressingMode::NoneAddressing)),
        0x49 => Some(OpCode::new(0x49, Instr::Eor, 2, 2, AddressingMode::Immediate)),
        0x4A => Some(OpCode::new(0x4A, Instr::Lsr, 1, 2, AddressingMode::NoneAddressing)),
        0x4C => Some(OpCode::new(0x4C, Instr::Jmp, 3, 3, AddressingMode::Absolute)),
        0x4D => Some(OpCode::new(0x4D, Instr::Eor, 3, 4, AddressingMode::Absolute)),
        0x4E => Some(OpCode::new(0x4E, Instr::Lsr, 3, 6, AddressingMode::Absolute)),
        0x4F => Some(OpCode::new(0x4F, Instr::Sre, 3, 6, AddressingMode::Absolute)),
        0x50 => Some(OpCode::new(0x50, Instr::Bvc, 2, 2, AddressingMode::NoneAddressing)),
        0x51 => Some(OpCode::new(0x51, Instr::Eor, 2, 5, AddressingMode::Indirect_Y)),
        0x53 => Some(OpCode::new(0x53, Instr::Sre, 2, 8, AddressingMode::Indirect_Y)),
        0x54 => Some(OpCode::new(0x54, Instr::Nop, 2, 4, AddressingMode::ZeroPage_X)),
        0x55 => Some(OpCode::new(0x55, Instr::Eor, 2, 4, AddressingMode::ZeroPage_X)),
        0x56 => Some(OpCode::new(0x56, Instr::Lsr, 2, 6, AddressingMode::ZeroPage_X)),
        0x57 => Some(OpCode::new(0x57, Instr::Sre, 2, 6, AddressingMode::ZeroPage_X)),
        0x58 => Some(OpCode::new(0x58, Instr::Cli, 1, 2, AddressingMode::NoneAddressing)),
        0x59 => Some(OpCode::new(0x59, Instr::Eor, 3, 4, AddressingMode::Absolute_Y)),
        0x5A => Some(OpCode::new(0x5A, Instr::Nop, 1, 2, AddressingMode::NoneAddressing)),
        0x5B => Some(OpCode::new(0x5B, Instr::Sre, 3, 7, AddressingMode::Absolute_Y)),
        0x5C => Some(OpCode::new(0x5C, Instr::Nop, 3, 4, AddressingMode::Absolute_X)),
        0x5D => Some(OpCode::new(0x5D, Instr::Eor, 3, 4, AddressingMode::Absolute_X)),
        0x5E => Some(OpCode::new(0x5E, Instr::Lsr, 3, 7, AddressingMode::Absolute_X)),
        0x5F => Some(OpCode::new(0x5F, Instr::Sre, 3, 7, AddressingMode::Absolute_X)),
        0x60 => Some(OpCode::new(0x60, Instr::Rts, 1, 6, AddressingMode::NoneAddressing)),
        0x61 => Some(OpCode::new(0x61, Instr::Adc, 2, 6, AddressingMode::Indirect_X)),
        0x63 => Some(OpCode::new(0x63, Instr::Rra, 2, 8, AddressingMode::Indirect_X)),
        0x64 => Some(OpCode::new(0x64, Instr::Nop, 2, 3, AddressingMode::ZeroPage)),
        0x65 => Some(OpCode::new(0x65, Instr::Adc, 2, 3, AddressingMode::ZeroPage)),
        0x66 => Some(OpCode::new(0x66, Instr::Ror, 2, 5, AddressingMode::ZeroPage)),
        0x67 => Some(OpCode::new(0x67, Instr::Rra, 2, 5, AddressingMode::ZeroPage)),
        0x68 => Some(OpCode::new(0x68, Instr::Pla, 1, 4, AddressingMode::NoneAddressing)),
        0x69 => Some(OpCode::new(0x69, Instr::Adc, 2, 2, AddressingMode::Immediate)),
        0x6A => Some(OpCode::new(0x6A, Instr::Ror, 1, 2, AddressingMode::NoneAddressing)),
        0x6C => Some(OpCode::new(0x6C, Instr::JmpIndirect, 3, 5, AddressingMode::NoneAddressing)),
        0x6D => Some(OpCode::new(0x6D, Instr::Adc, 3, 4, AddressingMode::Absolute)),
        0x6E => Some(OpCode::new(0x6E, Instr::Ror, 3, 6, AddressingMode::Absolute)),
        0x6F => Some(OpCode::new(0x6F, Instr::Rra, 3, 6, AddressingMode::Absolute)),
        0x70 => Some(OpCode::new(0x70, Instr::Bvs, 2, 2, AddressingMode::NoneAddressing)),
        0x71 => Some(OpCode::new(0x71, Instr::Adc, 2, 5, AddressingMode::Indirect_Y)),
        0x73 => Some(OpCode::new(0x73, Instr::Rra, 2, 8, AddressingMode::Indirect_Y)),
        0x74 => Some(OpCode::new(0x74, Instr::Nop, 2, 4, AddressingMode::ZeroPage_X)),
        0x75 => Some(OpCode::new(0x75, Instr::Adc, 2, 4, AddressingMode::ZeroPage_X)),
        0x76 => Some(OpCode::new(0x76, Instr::Ror, 2, 6, AddressingMode::ZeroPage_X)),
        0x77 => Some(OpCode::new(0x77, Instr::Rra, 2, 6, AddressingMode::ZeroPage_X)),
        0x78 => Some(OpCode::new(0x78, Instr::Sei, 1, 2, AddressingMode::NoneAddressing)),
        0x79 => Some(OpCode::new(0x79, Instr::Adc, 3, 4, AddressingMode::Absolute_Y)),
        0x7A => Some(OpCode::new(0x7A, Instr::Nop, 1, 2, AddressingMode::NoneAddressing)),
        0x7B => Some(OpCode::new(0x7B, Instr::Rra, 3, 7, AddressingMode::Absolute_Y)),
        0x7C => Some(OpCode::new(0x7C, Instr::Nop, 3, 4, AddressingMode::Absolute_X)),
        0x7D => Some(OpCode::new(0x7D, Instr::Adc, 3, 4, AddressingMode::Absolute_X)),
        0x7E => Some(OpCode::new(0x7E, Instr::Ror, 3, 7, AddressingMode::Absolute_X)),
        0x7F => Some(OpCode::new(0x7F, Instr::Rra, 3, 7, AddressingMode::Absolute_X)),
        0x80 => Some(OpCode::new(0x80, Instr::Nop, 2, 2, AddressingMode::Immediate)),
        0x81 => Some(OpCode::new(0x81, Instr::Sta, 2, 6, AddressingMode::Indirect_X)),
        0x82 => Some(OpCode::new(0x82, Instr::Nop, 2, 2, AddressingMode::Immediate)),
        0x83 => Some(OpCode::new(0x83, Instr::Sax, 2, 6, AddressingMode::Indirect_X)),
        0x84 => Some(OpCode::new(0x84, Instr::Sty, 2, 3, AddressingMode::ZeroPage)),
        0x85 => Some(OpCode::new(0x85, Instr::Sta, 2, 3, AddressingMode::ZeroPage)),
        0x86 => Some(OpCode::new(0x86, Instr::Stx, 2, 3, AddressingMode::ZeroPage)),
        0x87 => Some(OpCode::new(0x87, Instr::Sax, 2, 3, AddressingMode::ZeroPage)),
        0x88 => Some(OpCode::new(0x88, Instr::Dey, 1, 2, AddressingMode::NoneAddressing)),
        0x89 => Some(OpCode::new(0x89, Instr::Nop, 2, 2, AddressingMode::Immediate)),
        0x8A => Some(OpCode::new(0x8A, Instr::Txa, 1, 2, AddressingMode::NoneAddressing)),
        0x8C => Some(OpCode::new(0x8C, Instr::Sty, 3, 4, AddressingMode::Absolute)),
        0x8D => Some(OpCode::new(0x8D, Instr::Sta, 3, 4, AddressingMode::Absolute)),
        0x8E => Some(OpCode::new(0x8E, Instr::Stx, 3, 4, AddressingMode::Absolute)),
        0x8F => Some(OpCode::new(0x8F, Instr::Sax, 3, 4, AddressingMode::Absolute)),
        0x90 => Some(OpCode::new(0x90, Instr::Bcc, 2, 2, AddressingMode::NoneAddressing)),
        0x91 => Some(OpCode::new(0x91, Instr::Sta, 2, 6, AddressingMode::Indirect_Y)),
        0x94 => Some(OpCode::new(0x94, Instr::Sty, 2, 4, AddressingMode::ZeroPage_X)),
        0x95 => Some(OpCode::new(0x95, Instr::Sta, 2, 4, AddressingMode::ZeroPage_X)),
        0x96 => Some(OpCode::new(0x96, Instr::Stx, 2, 4, AddressingMode::ZeroPage_Y)),
        0x97 => Some(OpCode::new(0x97, Instr::Sax, 2, 4, AddressingMode::ZeroPage_Y)),
        0x98 => Some(OpCode::new(0x98, Instr::Tya, 1, 2, AddressingMode::NoneAddressing)),
        0x99 => Some(OpCode::new(0x99, Instr::Sta, 3, 5, AddressingMode::Absolute_Y)),
        0x9A => Some(OpCode::new(0x9A, Instr::Txs, 1, 2, AddressingMode::NoneAddressing)),
        0x9D => Some(OpCode::new(0x9D, Instr::Sta, 3, 5, AddressingMode::Absolute_X)),
        0xA0 => Some(OpCode::new(0xA0, Instr::Ldy, 2, 2, AddressingMode::Immediate)),
        0xA1 => Some(OpCode::new(0xA1, Instr::Lda, 2, 6, AddressingMode::Indirect_X)),
        0xA2 => Some(OpCode::new(0xA2, Instr::Ldx, 2, 2, AddressingMode::Immediate)),
        0xA3 => Some(OpCode::new(0xA3, Instr::Lax, 2, 6, AddressingMode::Indirect_X)),
        0xA4 => Some(OpCode::new(0xA4, Instr::Ldy, 2, 3, AddressingMode::ZeroPage)),
        0xA5 => Some(OpCode::new(0xA5, Instr::Lda, 2, 3, AddressingMode::ZeroPage)),
        0xA6 => Some(OpCode::new(0xA6, Instr::Ldx, 2, 3, AddressingMode::ZeroPage)),
        0xA7 => Some(OpCode::new(0xA7, Instr::Lax, 2, 3, AddressingMode::ZeroPage)),
        0xA8 => Some(OpCode::new(0xA8, Instr::Tay, 1, 2, AddressingMode::NoneAddressing)),
        0xA9 => Some(OpCode::new(0xA9, Instr::Lda, 2, 2, AddressingMode::Immediate)),
        0xAA => Some(OpCode::new(0xAA, Instr::Tax, 1, 2, AddressingMode::NoneAddressing)),
        0xAC => Some(OpCode::new(0xAC, Instr::Ldy, 3, 4, AddressingMode::Absolute)),
        0xAD => Some(OpCode::new(0xAD, Instr::Lda, 3, 4, AddressingMode::Absolute)),
        0xAE => Some(OpCode::new(0xAE, Instr::Ldx, 3, 4, AddressingMode::Absolute)),
        0xAF => Some(OpCode::new(0xAF, Instr::Lax, 3, 4, AddressingMode::Absolute)),
        0xB0 => Some(OpCode::new(0xB0, Instr::Bcs, 2, 2, AddressingMode::NoneAddressing)),
        0xB1 => Some(OpCode::new(0xB1, Instr::Lda, 2, 5, AddressingMode::Indirect_Y)),
        0xB3 => Some(OpCode::new(0xB3, Instr::Lax, 2, 5, AddressingMode::Indirect_Y)),
        0xB4 => Some(OpCode::new(0xB4, Instr::Ldy, 2, 4, AddressingMode::ZeroPage_X)),
        0xB5 => Some(OpCode::new(0xB5, Instr::Lda, 2, 4, AddressingMode::ZeroPage_X)),
        0xB6 => Some(OpCode::new(0xB6, Instr::Ldx, 2, 4, AddressingMode::ZeroPage_Y)),
        0xB7 => Some(OpCode::new(0xB7, Instr::Lax, 2, 4, AddressingMode::ZeroPage_Y)),
        0xB8 => Some(OpCode::new(0xB8, Instr::Clv, 1, 2, AddressingMode::NoneAddressing)),
        0xB9 => Some(OpCode::new(0xB9, Instr::Lda, 3, 4, AddressingMode::Absolute_Y)),
        0xBA => Some(OpCode::new(0xBA, Instr::Tsx, 1, 2, AddressingMode::NoneAddressing)),
        0xBC => Some(OpCode::new(0xBC, Instr::Ldy, 3, 4, AddressingMode::Absolute_X)),
        0xBD => Some(OpCode::new(0xBD, Instr::Lda, 3, 4, AddressingMode::Absolute_X)),
        0xBE => Some(OpCode::new(0xBE, Instr::Ldx, 3, 4, AddressingMode::Absolute_Y)),
        0xBF => Some(OpCode::new(0xBF, Instr::Lax, 3, 4, AddressingMode::Absolute_Y)),
        0xC0 => Some(OpCode::new(0xC0, Instr::Cpy, 2, 2, AddressingMode::Immediate)),
        0xC1 => Some(OpCode::new(0xC1, Instr::Cmp, 2, 6, AddressingMode::Indirect_X)),
        0xC2 => Some(OpCode::new(0xC2, Instr::Nop, 2, 2, AddressingMode::Immediate)),
        0xC3 => Some(OpCode::new(0xC3, Instr::Dcp, 2, 8, AddressingMode::Indirect_X)),
        0xC4 => Some(OpCode::new(0xC4, Instr::Cpy, 2, 3, AddressingMode::ZeroPage)),
        0xC5 => Some(OpCode::new(0xC5, Instr::Cmp, 2, 3, AddressingMode::ZeroPage)),
        0xC6 => Some(OpCode::new(0xC6, Instr::Dec, 2, 5, AddressingMode::ZeroPage)),
        0xC7 => Some(OpCode::new(0xC7, Instr::Dcp, 2, 5, AddressingMode::ZeroPage)),
        0xC8 => Some(OpCode::new(0xC8, Instr::Iny, 1, 2, AddressingMode::NoneAddressing)),
        0xC9 => Some(OpCode::new(0xC9, Instr::Cmp, 2, 2, AddressingMode::Immediate)),
        0xCA => Some(OpCode::new(0xCA, Instr::Dex, 1, 2, AddressingMode::NoneAddressing)),
        0xCC => Some(OpCode::new(0xCC, Instr::Cpy, 3, 4, AddressingMode::Absolute)),
        0xCD => Some(OpCode::new(0xCD, Instr::Cmp, 3, 4, AddressingMode::Absolute)),
        0xCE => Some(OpCode::new(0xCE, Instr::Dec, 3, 6, AddressingMode::Absolute)),
        0xCF => Some(OpCode::new(0xCF, Instr::Dcp, 3, 6, AddressingMode::Absolute)),
        0xD0 => Some(OpCode::new(0xD0, Instr::Bne, 2, 2, AddressingMode::NoneAddressing)),
        0xD1 => Some(OpCode::new(0xD1, Instr::Cmp, 2, 5, AddressingMode::Indirect_Y)),
        0xD3 => Some(OpCode::new(0xD3, Instr::Dcp, 2, 8, AddressingMode::Indirect_Y)),
        0xD4 => Some(OpCode::new(0xD4, Instr::Nop, 2, 4, AddressingMode::ZeroPage_X)),
        0xD5 => Some(OpCode::new(0xD5, Instr::Cmp, 2, 4, AddressingMode::ZeroPage_X)),
        0xD6 => Some(OpCode::new(0xD6, Instr::Dec, 2, 6, AddressingMode::ZeroPage_X)),
        0xD7 => Some(OpCode::new(0xD7, Instr::Dcp, 2, 6, AddressingMode::ZeroPage_X)),
        0xD8 => Some(OpCode::new(0xD8, Instr::Cld, 1, 2, AddressingMode::NoneAddressing)),
        0xD9 => Some(OpCode::new(0xD9, Instr::Cmp, 3, 4, AddressingMode::Absolute_Y)),
        0xDA => Some(OpCode::new(0xDA, Instr::Nop, 1, 2, AddressingMode::NoneAddressing)),
        0xDB => Some(OpCode::new(0xDB, Instr::Dcp, 3, 7, AddressingMode::Absolute_Y)),
        0xDC => Some(OpCode::new(0xDC, Instr::Nop, 3, 4, AddressingMode::Absolute_X)),
        0xDD => Some(OpCode::new(0xDD, Instr::Cmp, 3, 4, AddressingMode::Absolute_X)),
        0xDE => Some(OpCode::new(0xDE, Instr::Dec, 3, 7, AddressingMode::Absolute_X)),
        0xDF => Some(OpCode::new(0xDF, Instr::Dcp, 3, 7, AddressingMode::Absolute_X)),
        0xE0 => Some(OpCode::new(0xE0, Instr::Cpx, 2, 2, AddressingMode::Immediate)),
        0xE1 => Some(OpCode::new(0xE1, Instr::Sbc, 2, 6, AddressingMode::Indirect_X)),
        0xE2 => Some(OpCode::new(0xE2, Instr::Nop, 2, 2, AddressingMode::Immediate)),
        0xE3 => Some(OpCode::new(0xE3, Instr::Isb, 2, 8, AddressingMode::Indirect_X)),
        0xE4 => Some(OpCode::new(0xE4, Instr::Cpx, 2, 3, AddressingMode::ZeroPage)),
        0xE5 => Some(OpCode::new(0xE5, Instr::Sbc, 2, 3, AddressingMode::ZeroPage)),
        0xE6 => Some(OpCode::new(0xE6, Instr::Inc, 2, 5, AddressingMode::ZeroPage)),
        0xE7 => Some(OpCode::new(0xE7, Instr::Isb, 2, 5, AddressingMode::ZeroPage)),
        0xE8 => Some(OpCode::new(0xE8, Instr::Inx, 1, 2, AddressingMode::NoneAddressing)),
        0xE9 => Some(OpCode::new(0xE9, Instr::Sbc, 2, 2, AddressingMode::Immediate)),
        0xEA => Some(OpCode::new(0xEA, Instr::Nop, 1, 2, AddressingMode::NoneAddressing)),
        0xEB => Some(OpCode::new(0xEB, Instr::Sbc, 2, 2, AddressingMode::Immediate)),
        0xEC => Some(OpCode::new(0xEC, Instr::Cpx, 3, 4, AddressingMode::Absolute)),
        0xED => Some(OpCode::new(0xED, Instr::Sbc, 3, 4, AddressingMode::Absolute)),
        0xEE => Some(OpCode::new(0xEE, Instr::Inc, 3, 6, AddressingMode::Absolute)),
        0xEF => Some(OpCode::new(0xEF, Instr::Isb, 3, 6, AddressingMode::Absolute)),
        0xF0 => Some(OpCode::new(0xF0, Instr::Beq, 2, 2, AddressingMode::NoneAddressing)),
        0xF1 => Some(OpCode::new(0xF1, Instr::Sbc, 2, 5, AddressingMode::Indirect_Y)),
        0xF3 => Some(OpCode::new(0xF3, Instr::Isb, 2, 8, AddressingMode::Indirect_Y)),
        0xF4 => Some(OpCode::new(0xF4, Instr::Nop, 2, 4, AddressingMode::ZeroPage_X)),
        0xF5 => Some(OpCode::new(0xF5, Instr::Sbc, 2, 4, AddressingMode::ZeroPage_X)),
        0xF6 => Some(OpCode::new(0xF6, Instr::Inc, 2, 6, AddressingMode::ZeroPage_X)),
        0xF7 => Some(OpCode::new(0xF7, Instr::Isb, 2, 6, AddressingMode::ZeroPage_X)),
        0xF8 => Some(OpCode::new(0xF8, Instr::Sed, 1, 2, AddressingMode::NoneAddressing)),
        0xF9 => Some(OpCode::new(0xF9, Instr::Sbc, 3, 4, AddressingMode::Absolute_Y)),
        0xFA => Some(OpCode::new(0xFA, Instr::Nop, 1, 2, AddressingMode::NoneAddressing)),
        0xFB => Some(OpCode::new(0xFB, Instr::Isb, 3, 7, AddressingMode::Absolute_Y)),
        0xFC => Some(OpCode::new(0xFC, Instr::Nop, 3, 4, AddressingMode::Absolute_X)),
        0xFD => Some(OpCode::new(0xFD, Instr::Sbc, 3, 4, AddressingMode::Absolute_X)),
        0xFE => Some(OpCode::new(0xFE, Instr::Inc, 3, 7, AddressingMode::Absolute_X)),
        0xFF => Some(OpCode::new(0xFF, Instr::Isb, 3, 7, AddressingMode::Absolute_X)),
        _ => None,
    }
}

} // verus!
