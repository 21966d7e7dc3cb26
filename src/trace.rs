//! One line of execution trace, in the layout of the nestest reference log:
//! `C000  4C F5 C5  JMP $C5F5                       A:00 X:00 Y:00 P:24 SP:FD`.
use vstd::prelude::*;

use crate::bus::{peek, Bus, BusView};
use crate::cpu::CPU;
use crate::opcode::{decode, opcode_spec, AddressingMode, Instr, OpCode};
use crate::semantics::{branch_target, CpuView};

verus! {

pub open spec fn hex_digit(d: int) -> char {
    seq!['0', '1', '2', '3', '4', '5', '6', '7', '8', '9', 'A', 'B', 'C', 'D', 'E', 'F'][d]
}

/// Two upper-case hex digits.
pub open spec fn hex2(v: u8) -> Seq<char> {
    seq![hex_digit((v / 16) as int), hex_digit((v % 16) as int)]
}

/// Four upper-case hex digits.
pub open spec fn hex4(v: u16) -> Seq<char> {
    hex2((v / 256) as u8) + hex2((v % 256) as u8)
}

/// `s` padded with spaces on the right to `n` characters.
pub open spec fn pad_to(s: Seq<char>, n: nat) -> Seq<char> {
    if s.len() < n {
        s + Seq::new((n - s.len()) as nat, |i| ' ')
    } else {
        s
    }
}

pub open spec fn mnemonic_text(instr: Instr) -> Seq<char> {
    match instr {
        Instr::Adc => seq!['A', 'D', 'C'],
        Instr::And => seq!['A', 'N', 'D'],
        Instr::Asl => seq!['A', 'S', 'L'],
        Instr::Bcc => seq!['B', 'C', 'C'],
        Instr::Bcs => seq!['B', 'C', 'S'],
        Instr::Beq => seq!['B', 'E', 'Q'],
        Instr::Bit => seq!['B', 'I', 'T'],
        Instr::Bmi => seq!['B', 'M', 'I'],
        Instr::Bne => seq!['B', 'N', 'E'],
        Instr::Bpl => seq!['B', 'P', 'L'],
        Instr::Brk => seq!['B', 'R', 'K'],
        Instr::Bvc => seq!['B', 'V', 'C'],
        Instr::Bvs => seq!['B', 'V', 'S'],
        Instr::Clc => seq!['C', 'L', 'C'],
        Instr::Cld => seq!['C', 'L', 'D'],
        Instr::Cli => seq!['C', 'L', 'I'],
        Instr::Clv => seq!['C', 'L', 'V'],
        Instr::Cmp => seq!['C', 'M', 'P'],
        Instr::Cpx => seq!['C', 'P', 'X'],
        Instr::Cpy => seq!['C', 'P', 'Y'],
        Instr::Dec => seq!['D', 'E', 'C'],
        Instr::Dex => seq!['D', 'E', 'X'],
        Instr::Dey => seq!['D', 'E', 'Y'],
        Instr::Eor => seq!['E', 'O', 'R'],
        Instr::Inc => seq!['I', 'N', 'C'],
        Instr::Inx => seq!['I', 'N', 'X'],
        Instr::Iny => seq!['I', 'N', 'Y'],
        Instr::Jmp => seq!['J', 'M', 'P'],
        Instr::JmpIndirect => seq!['J', 'M', 'P'],
        Instr::Jsr => seq!['J', 'S', 'R'],
        Instr::Lda => seq!['L', 'D', 'A'],
        Instr::Ldx => seq!['L', 'D', 'X'],
        Instr::Ldy => seq!['L', 'D', 'Y'],
        Instr::Lsr => seq!['L', 'S', 'R'],
        Instr::Nop => seq!['N', 'O', 'P'],
        Instr::Ora => seq!['O', 'R', 'A'],
        Instr::Pha => seq!['P', 'H', 'A'],
        Instr::Php => seq!['P', 'H', 'P'],
        Instr::Pla => seq!['P', 'L', 'A'],
        Instr::Plp => seq!['P', 'L', 'P'],
        Instr::Rol => seq!['R', 'O', 'L'],
        Instr::Ror => seq!['R', 'O', 'R'],
        Instr::Rti => seq!['R', 'T', 'I'],
        Instr::Rts => seq!['R', 'T', 'S'],
        Instr::Sbc => seq!['S', 'B', 'C'],
        Instr::Sec => seq!['S', 'E', 'C'],
        Instr::Sed => seq!['S', 'E', 'D'],
        Instr::Sei => seq!['S', 'E', 'I'],
        Instr::Sta => seq!['S', 'T', 'A'],
        Instr::Stx => seq!['S', 'T', 'X'],
        Instr::Sty => seq!['S', 'T', 'Y'],
        Instr::Tax => seq!['T', 'A', 'X'],
        Instr::Tay => seq!['T', 'A', 'Y'],
        Instr::Tsx => seq!['T', 'S', 'X'],
        Instr::Txa => seq!['T', 'X', 'A'],
        Instr::Txs => seq!['T', 'X', 'S'],
        Instr::Tya => seq!['T', 'Y', 'A'],
        Instr::Lax => seq!['L', 'A', 'X'],
        Instr::Sax => seq!['S', 'A', 'X'],
        Instr::Dcp => seq!['D', 'C', 'P'],
        Instr::Isb => seq!['I', 'S', 'B'],
        Instr::Slo => seq!['S', 'L', 'O'],
        Instr::Rla => seq!['R', 'L', 'A'],
        Instr::Sre => seq!['S', 'R', 'E'],
        Instr::Rra => seq!['R', 'R', 'A'],
    }
}

/// The undocumented opcodes, marked with `*` in the log.
pub open spec fn is_unofficial(o: OpCode) -> bool {
    match o.instr {
        Instr::Lax | Instr::Sax | Instr::Dcp | Instr::Isb | Instr::Slo | Instr::Rla | Instr::Sre
        | Instr::Rra => true,
        Instr::Nop => o.code != 0xEA,
        Instr::Sbc => o.code == 0xEB,
        _ => false,
    }
}

pub open spec fn word(lo: u8, hi: u8) -> u16 {
    (hi * 256 + lo) as u16
}

pub open spec fn eq_text() -> Seq<char> {
    seq![' ', '=', ' ']
}

pub open spec fn index_text(x: bool) -> Seq<char> {
    seq![',', if x { 'X' } else { 'Y' }, ' ', '@', ' ']
}

pub open spec fn zero_page_text(b: BusView, b1: u8) -> Seq<char> {
    seq!['$'] + hex2(b1) + eq_text() + hex2(peek(b, b1 as u16))
}

pub open spec fn zero_page_indexed_text(b: BusView, b1: u8, x: bool, i: u8) -> Seq<char> {
    let a = b1.wrapping_add(i);
    seq!['$'] + hex2(b1) + index_text(x) + hex2(a) + eq_text() + hex2(peek(b, a as u16))
}

pub open spec fn indirect_x_text(b: BusView, b1: u8, x: u8) -> Seq<char> {
    let ptr = b1.wrapping_add(x);
    let t = word(peek(b, ptr as u16), peek(b, ptr.wrapping_add(1) as u16));
    seq!['(', '$'] + hex2(b1) + seq![',', 'X', ')', ' ', '@', ' '] + hex2(ptr) + eq_text() + hex4(t)
        + eq_text() + hex2(peek(b, t))
}

pub open spec fn indirect_y_text(b: BusView, b1: u8, y: u8) -> Seq<char> {
    let base = word(peek(b, b1 as u16), peek(b, b1.wrapping_add(1) as u16));
    let t = base.wrapping_add(y as u16);
    seq!['(', '$'] + hex2(b1) + seq![')', ',', 'Y', ' ', '=', ' '] + hex4(base) + seq![' ', '@', ' ']
        + hex4(t) + eq_text() + hex2(peek(b, t))
}

pub open spec fn absolute_text(b: BusView, w: u16, with_value: bool) -> Seq<char> {
    if with_value {
        seq!['$'] + hex4(w) + eq_text() + hex2(peek(b, w))
    } else {
        seq!['$'] + hex4(w)
    }
}

pub open spec fn absolute_indexed_text(b: BusView, w: u16, x: bool, i: u8) -> Seq<char> {
    let t = w.wrapping_add(i as u16);
    seq!['$'] + hex4(w) + index_text(x) + hex4(t) + eq_text() + hex2(peek(b, t))
}

pub open spec fn jmp_indirect_text(b: BusView, w: u16) -> Seq<char> {
    let t = if w % 256 == 0xFF {
        word(peek(b, w), peek(b, (w - 0xFF) as u16))
    } else {
        word(peek(b, w), peek(b, w.wrapping_add(1)))
    };
    seq!['(', '$'] + hex4(w) + seq![')', ' ', '=', ' '] + hex4(t)
}

/// The operand column: the operand as written, the effective address and the
/// value found there.
#[verifier::opaque]
pub open spec fn operand_text(c: CpuView, o: OpCode) -> Seq<char> {
    let b = c.bus;
    let b1 = peek(b, c.pc.wrapping_add(1));
    let w = word(b1, peek(b, c.pc.wrapping_add(2)));
    match o.mode {
        AddressingMode::Immediate => seq!['#', '$'] + hex2(b1),
        AddressingMode::ZeroPage => zero_page_text(b, b1),
        AddressingMode::ZeroPage_X => zero_page_indexed_text(b, b1, true, c.x),
        AddressingMode::ZeroPage_Y => zero_page_indexed_text(b, b1, false, c.y),
        AddressingMode::Indirect_X => indirect_x_text(b, b1, c.x),
        AddressingMode::Indirect_Y => indirect_y_text(b, b1, c.y),
        AddressingMode::Absolute => absolute_text(
            b,
            w,
            !(o.instr == Instr::Jmp || o.instr == Instr::Jsr),
        ),
        AddressingMode::Absolute_X => absolute_indexed_text(b, w, true, c.x),
        AddressingMode::Absolute_Y => absolute_indexed_text(b, w, false, c.y),
        AddressingMode::NoneAddressing => if o.len == 1 {
            match o.instr {
                Instr::Asl | Instr::Lsr | Instr::Rol | Instr::Ror => seq!['A'],
                _ => Seq::empty(),
            }
        } else if o.instr == Instr::JmpIndirect {
            jmp_indirect_text(b, w)
        } else {
            seq!['$'] + hex4(branch_target(c.pc.wrapping_add(1), b1))
        },
    }
}

/// The instruction bytes, separated by spaces.
pub open spec fn bytes_text(b: BusView, pc: u16, len: u8) -> Seq<char> {
    hex2(peek(b, pc)) + (if len > 1 {
        seq![' '] + hex2(peek(b, pc.wrapping_add(1)))
    } else {
        Seq::empty()
    }) + (if len > 2 {
        seq![' '] + hex2(peek(b, pc.wrapping_add(2)))
    } else {
        Seq::empty()
    })
}

pub open spec fn registers_text(c: CpuView) -> Seq<char> {
    seq![' ', 'A', ':'] + hex2(c.a) + seq![' ', 'X', ':'] + hex2(c.x) + seq![' ', 'Y', ':'] + hex2(
        c.y,
    ) + seq![' ', 'P', ':'] + hex2(c.p) + seq![' ', 'S', 'P', ':'] + hex2(c.sp)
}

/// Address, bytes, mnemonic (`*` marks undocumented ones) and operand.
pub open spec fn listing(c: CpuView, o: OpCode) -> Seq<char> {
    let text = operand_text(c, o);
    hex4(c.pc) + seq![' ', ' '] + pad_to(bytes_text(c.bus, c.pc, o.len), 8) + seq![
        ' ',
        if is_unofficial(o) { '*' } else { ' ' },
    ] + mnemonic_text(o.instr) + if text.len() > 0 {
        seq![' '] + text
    } else {
        Seq::empty()
    }
}

/// The trace line of the instruction at `pc`, before it runs. A byte that is
/// no instruction shows as `???`.
pub open spec fn trace_line(c: CpuView) -> Seq<char> {
    let code = peek(c.bus, c.pc);
    let head = hex4(c.pc) + seq![' ', ' '];
    match opcode_spec(code) {
        None => pad_to(head + pad_to(hex2(code), 8) + seq![' ', ' ', '?', '?', '?'], 47)
            + registers_text(c),
        Some(o) => pad_to(listing(c, o), 47) + registers_text(c),
    }
}

fn mnemonic_chars(instr: Instr) -> (r: (char, char, char))
    ensures
        seq![r.0, r.1, r.2] == mnemonic_text(instr),
{
    match instr {
        Instr::Adc => ('A', 'D', 'C'),
        Instr::And => ('A', 'N', 'D'),
        Instr::Asl => ('A', 'S', 'L'),
        Instr::Bcc => ('B', 'C', 'C'),
        Instr::Bcs => ('B', 'C', 'S'),
        Instr::Beq => ('B', 'E', 'Q'),
        Instr::Bit => ('B', 'I', 'T'),
        Instr::Bmi => ('B', 'M', 'I'),
        Instr::Bne => ('B', 'N', 'E'),
        Instr::Bpl => ('B', 'P', 'L'),
        Instr::Brk => ('B', 'R', 'K'),
        Instr::Bvc => ('B', 'V', 'C'),
        Instr::Bvs => ('B', 'V', 'S'),
        Instr::Clc => ('C', 'L', 'C'),
        Instr::Cld => ('C', 'L', 'D'),
        Instr::Cli => ('C', 'L', 'I'),
        Instr::Clv => ('C', 'L', 'V'),
        Instr::Cmp => ('C', 'M', 'P'),
        Instr::Cpx => ('C', 'P', 'X'),
        Instr::Cpy => ('C', 'P', 'Y'),
        Instr::Dec => ('D', 'E', 'C'),
        Instr::Dex => ('D', 'E', 'X'),
        Instr::Dey => ('D', 'E', 'Y'),
        Instr::Eor => ('E', 'O', 'R'),
        Instr::Inc => ('I', 'N', 'C'),
        Instr::Inx => ('I', 'N', 'X'),
        Instr::Iny => ('I', 'N', 'Y'),
        Instr::Jmp => ('J', 'M', 'P'),
        Instr::JmpIndirect => ('J', 'M', 'P'),
        Instr::Jsr => ('J', 'S', 'R'),
        Instr::Lda => ('L', 'D', 'A'),
        Instr::Ldx => ('L', 'D', 'X'),
        Instr::Ldy => ('L', 'D', 'Y'),
        Instr::Lsr => ('L', 'S', 'R'),
        Instr::Nop => ('N', 'O', 'P'),
        Instr::Ora => ('O', 'R', 'A'),
        Instr::Pha => ('P', 'H', 'A'),
        Instr::Php => ('P', 'H', 'P'),
        Instr::Pla => ('P', 'L', 'A'),
        Instr::Plp => ('P', 'L', 'P'),
        Instr::Rol => ('R', 'O', 'L'),
        Instr::Ror => ('R', 'O', 'R'),
        Instr::Rti => ('R', 'T', 'I'),
        Instr::Rts => ('R', 'T', 'S'),
        Instr::Sbc => ('S', 'B', 'C'),
        Instr::Sec => ('S', 'E', 'C'),
        Instr::Sed => ('S', 'E', 'D'),
        Instr::Sei => ('S', 'E', 'I'),
        Instr::Sta => ('S', 'T', 'A'),
        Instr::Stx => ('S', 'T', 'X'),
        Instr::Sty => ('S', 'T', 'Y'),
        Instr::Tax => ('T', 'A', 'X'),
        Instr::Tay => ('T', 'A', 'Y'),
        Instr::Tsx => ('T', 'S', 'X'),
        Instr::Txa => ('T', 'X', 'A'),
        Instr::Txs => ('T', 'X', 'S'),
        Instr::Tya => ('T', 'Y', 'A'),
        Instr::Lax => ('L', 'A', 'X'),
        Instr::Sax => ('S', 'A', 'X'),
        Instr::Dcp => ('D', 'C', 'P'),
        Instr::Isb => ('I', 'S', 'B'),
        Instr::Slo => ('S', 'L', 'O'),
        Instr::Rla => ('R', 'L', 'A'),
        Instr::Sre => ('S', 'R', 'E'),
        Instr::Rra => ('R', 'R', 'A'),
    }
}

fn hex_digit_exec(d: u8) -> (r: char)
    requires
        d < 16,
    ensures
        r == hex_digit(d as int),
{
    match d {
        0 => '0',
        1 => '1',
        2 => '2',
        3 => '3',
        4 => '4',
        5 => '5',
        6 => '6',
        7 => '7',
        8 => '8',
        9 => '9',
        10 => 'A',
        11 => 'B',
        12 => 'C',
        13 => 'D',
        14 => 'E',
        _ => 'F',
    }
}

fn push_hex2(out: &mut Vec<char>, v: u8)
    ensures
        final(out)@ == old(out)@ + hex2(v),
{
    out.push(hex_digit_exec(v / 16));
    out.push(hex_digit_exec(v % 16));
    assert(final(out)@ =~= old(out)@ + hex2(v));
}

fn push_hex4(out: &mut Vec<char>, v: u16)
    ensures
        final(out)@ == old(out)@ + hex4(v),
{
    push_hex2(out, (v / 256) as u8);
    push_hex2(out, (v % 256) as u8);
    assert(final(out)@ =~= old(out)@ + hex4(v));
}

fn push_chars(out: &mut Vec<char>, s: &Vec<char>)
    ensures
        final(out)@ == old(out)@ + s@,
{
    let mut i: usize = 0;
    while i < s.len()
        invariant
            i <= s.len(),
            out@ == old(out)@ + s@.subrange(0, i as int),
        decreases s.len() - i,
    {
        out.push(s[i]);
        i += 1;
        assert(out@ =~= old(out)@ + s@.subrange(0, i as int));
    }
    assert(s@.subrange(0, s.len() as int) =~= s@);
}

/// Appends spaces to `out` up to `n` characters.
fn pad(out: &mut Vec<char>, n: usize)
    ensures
        final(out)@ == pad_to(old(out)@, n as nat),
{
    let ghost start = out@;
    while out.len() < n
        invariant
            start.len() <= n ==> out@ == start + Seq::new((out@.len() - start.len()) as nat, |i| ' '),
            start.len() > n ==> out@ == start,
            start.len() <= n ==> out@.len() <= n,
            out@.len() >= start.len(),
        decreases n - out.len(),
    {
        out.push(' ');
        assert(out@ =~= start + Seq::new((out@.len() - start.len()) as nat, |i| ' '));
    }
    assert(start.len() < n ==> out@ =~= start + Seq::new((n - start.len()) as nat, |i| ' '));
}

/// Relies on `String: FromIterator<char>`: collecting characters gives the
/// string of exactly those characters, in order.
#[verifier::external_body]
fn string_of(chars: &Vec<char>) -> (r: String)
    ensures
        r@ == chars@,
{
    chars.iter().collect()
}

fn push_eq(out: &mut Vec<char>)
    ensures
        final(out)@ == old(out)@ + eq_text(),
{
    out.push(' ');
    out.push('=');
    out.push(' ');
    assert(final(out)@ =~= old(out)@ + eq_text());
}

fn push_index(out: &mut Vec<char>, x: bool)
    ensures
        final(out)@ == old(out)@ + index_text(x),
{
    out.push(',');
    out.push(
        if x {
            'X'
        } else {
            'Y'
        },
    );
    out.push(' ');
    out.push('@');
    out.push(' ');
    assert(final(out)@ =~= old(out)@ + index_text(x));
}

fn zero_page_chars(b: &Bus, b1: u8, indexed: Option<(bool, u8)>) -> (r: Vec<char>)
    requires
        b@.wf(),
    ensures
        indexed is None ==> r@ == zero_page_text(b@, b1),
        indexed matches Some((x, i)) ==> r@ == zero_page_indexed_text(b@, b1, x, i),
{
    let mut out: Vec<char> = Vec::new();
    out.push('$');
    push_hex2(&mut out, b1);
    match indexed {
        None => {
            push_eq(&mut out);
            push_hex2(&mut out, b.peek(b1 as u16));
            assert(out@ =~= zero_page_text(b@, b1));
        },
        Some((x, i)) => {
            let a = b1.wrapping_add(i);
            push_index(&mut out, x);
            push_hex2(&mut out, a);
            push_eq(&mut out);
            push_hex2(&mut out, b.peek(a as u16));
            assert(out@ =~= zero_page_indexed_text(b@, b1, x, i));
        },
    }
    out
}

fn indirect_x_chars(b: &Bus, b1: u8, x: u8) -> (r: Vec<char>)
    requires
        b@.wf(),
    ensures
        r@ == indirect_x_text(b@, b1, x),
{
    let ptr = b1.wrapping_add(x);
    let t = b.peek(ptr.wrapping_add(1) as u16) as u16 * 256 + b.peek(ptr as u16) as u16;
    let mut out: Vec<char> = Vec::new();
    out.push('(');
    out.push('$');
    push_hex2(&mut out, b1);
    out.push(',');
    out.push('X');
    out.push(')');
    out.push(' ');
    out.push('@');
    out.push(' ');
    push_hex2(&mut out, ptr);
    push_eq(&mut out);
    push_hex4(&mut out, t);
    push_eq(&mut out);
    push_hex2(&mut out, b.peek(t));
    assert(out@ =~= indirect_x_text(b@, b1, x));
    out
}

fn indirect_y_chars(b: &Bus, b1: u8, y: u8) -> (r: Vec<char>)
    requires
        b@.wf(),
    ensures
        r@ == indirect_y_text(b@, b1, y),
{
    let base = b.peek(b1.wrapping_add(1) as u16) as u16 * 256 + b.peek(b1 as u16) as u16;
    let t = base.wrapping_add(y as u16);
    let mut out: Vec<char> = Vec::new();
    out.push('(');
    out.push('$');
    push_hex2(&mut out, b1);
    out.push(')');
    out.push(',');
    out.push('Y');
    out.push(' ');
    out.push('=');
    out.push(' ');
    push_hex4(&mut out, base);
    out.push(' ');
    out.push('@');
    out.push(' ');
    push_hex4(&mut out, t);
    push_eq(&mut out);
    push_hex2(&mut out, b.peek(t));
    assert(out@ =~= indirect_y_text(b@, b1, y));
    out
}

fn absolute_chars(b: &Bus, w: u16, with_value: bool, indexed: Option<(bool, u8)>) -> (r: Vec<
    char,
>)
    requires
        b@.wf(),
    ensures
        indexed is None ==> r@ == absolute_text(b@, w, with_value),
        indexed matches Some((x, i)) ==> r@ == absolute_indexed_text(b@, w, x, i),
{
    let mut out: Vec<char> = Vec::new();
    out.push('$');
    push_hex4(&mut out, w);
    match indexed {
        None => {
            if with_value {
                push_eq(&mut out);
                push_hex2(&mut out, b.peek(w));
            }
            assert(out@ =~= absolute_text(b@, w, with_value));
        },
        Some((x, i)) => {
            let t = w.wrapping_add(i as u16);
            push_index(&mut out, x);
            push_hex4(&mut out, t);
            push_eq(&mut out);
            push_hex2(&mut out, b.peek(t));
            assert(out@ =~= absolute_indexed_text(b@, w, x, i));
        },
    }
    out
}

fn jmp_indirect_chars(b: &Bus, w: u16) -> (r: Vec<char>)
    requires
        b@.wf(),
    ensures
        r@ == jmp_indirect_text(b@, w),
{
    let t = if w % 256 == 0xFF {
        b.peek(w - 0xFF) as u16 * 256 + b.peek(w) as u16
    } else {
        b.peek(w.wrapping_add(1)) as u16 * 256 + b.peek(w) as u16
    };
    let mut out: Vec<char> = Vec::new();
    out.push('(');
    out.push('$');
    push_hex4(&mut out, w);
    out.push(')');
    push_eq(&mut out);
    push_hex4(&mut out, t);
    assert(out@ =~= jmp_indirect_text(b@, w));
    out
}

fn operand_chars(cpu: &CPU, o: &OpCode) -> (r: Vec<char>)
    requires
        cpu@.wf(),
    ensures
        r@ == operand_text(cpu@, *o),
{
    reveal(operand_text);
    let b = &cpu.bus;
    let pc = cpu.program_counter;
    let b1 = b.peek(pc.wrapping_add(1));
    let w = b.peek(pc.wrapping_add(2)) as u16 * 256 + b1 as u16;
    match o.mode {
        AddressingMode::Immediate => {
            let mut out: Vec<char> = Vec::new();
            out.push('#');
            out.push('$');
            push_hex2(&mut out, b1);
            assert(out@ =~= seq!['#', '$'] + hex2(b1));
            out
        },
        AddressingMode::ZeroPage => zero_page_chars(b, b1, None),
        AddressingMode::ZeroPage_X => zero_page_chars(b, b1, Some((true, cpu.register_x))),
        AddressingMode::ZeroPage_Y => zero_page_chars(b, b1, Some((false, cpu.register_y))),
        AddressingMode::Indirect_X => indirect_x_chars(b, b1, cpu.register_x),
        AddressingMode::Indirect_Y => indirect_y_chars(b, b1, cpu.register_y),
        AddressingMode::Absolute => absolute_chars(
            b,
            w,
            !(o.instr == Instr::Jmp || o.instr == Instr::Jsr),
            None,
        ),
        AddressingMode::Absolute_X => absolute_chars(b, w, true, Some((true, cpu.register_x))),
        AddressingMode::Absolute_Y => absolute_chars(b, w, true, Some((false, cpu.register_y))),
        AddressingMode::NoneAddressing => {
            let mut out: Vec<char> = Vec::new();
            if o.len == 1 {
                match o.instr {
                    Instr::Asl | Instr::Lsr | Instr::Rol | Instr::Ror => out.push('A'),
                    _ => {},
                }
                assert(out@ =~= operand_text(cpu@, *o));
                out
            } else if o.instr == Instr::JmpIndirect {
                jmp_indirect_chars(b, w)
            } else {
                let next = pc.wrapping_add(2);
                let target = if b1 < 128 {
                    next.wrapping_add(b1 as u16)
                } else {
                    next.wrapping_sub((256 - b1 as u16) as u16)
                };
                out.push('$');
                push_hex4(&mut out, target);
                assert(out@ =~= seq!['$'] + hex4(branch_target(pc.wrapping_add(1), b1)));
                out
            }
        },
    }
}

fn listing_chars(cpu: &CPU, o: &OpCode) -> (r: Vec<char>)
    requires
        cpu@.wf(),
    ensures
        r@ == listing(cpu@, *o),
{
    let pc = cpu.program_counter;
    let mut line: Vec<char> = Vec::new();
    push_hex4(&mut line, pc);
    line.push(' ');
    line.push(' ');
    let mut bytes: Vec<char> = Vec::new();
    push_hex2(&mut bytes, cpu.bus.peek(pc));
    if o.len > 1 {
        bytes.push(' ');
        push_hex2(&mut bytes, cpu.bus.peek(pc.wrapping_add(1)));
    }
    if o.len > 2 {
        bytes.push(' ');
        push_hex2(&mut bytes, cpu.bus.peek(pc.wrapping_add(2)));
    }
    assert(bytes@ =~= bytes_text(cpu@.bus, pc, o.len));
    pad(&mut bytes, 8);
    push_chars(&mut line, &bytes);
    line.push(' ');
    let unofficial = match o.instr {
        Instr::Lax | Instr::Sax | Instr::Dcp | Instr::Isb | Instr::Slo | Instr::Rla | Instr::Sre
        | Instr::Rra => true,
        Instr::Nop => o.code != 0xEA,
        Instr::Sbc => o.code == 0xEB,
        _ => false,
    };
    line.push(
        if unofficial {
            '*'
        } else {
            ' '
        },
    );
    let (m0, m1, m2) = mnemonic_chars(o.instr);
    line.push(m0);
    line.push(m1);
    line.push(m2);
    let ghost before_text = line@;
    assert(before_text =~= hex4(pc) + seq![' ', ' '] + pad_to(bytes_text(cpu@.bus, pc, o.len), 8)
        + seq![' ', if is_unofficial(*o) { '*' } else { ' ' }] + mnemonic_text(o.instr));
    let text = operand_chars(cpu, o);
    if text.len() > 0 {
        line.push(' ');
        push_chars(&mut line, &text);
        assert(line@ =~= before_text + (seq![' '] + text@));
    } else {
        assert(line@ =~= before_text + Seq::<char>::empty());
    }
    line
}

fn push_registers(out: &mut Vec<char>, cpu: &CPU)
    ensures
        final(out)@ == old(out)@ + registers_text(cpu@),
{
    out.push(' ');
    out.push('A');
    out.push(':');
    push_hex2(out, cpu.register_a);
    out.push(' ');
    out.push('X');
    out.push(':');
    push_hex2(out, cpu.register_x);
    out.push(' ');
    out.push('Y');
    out.push(':');
    push_hex2(out, cpu.register_y);
    out.push(' ');
    out.push('P');
    out.push(':');
    push_hex2(out, cpu.status.bits);
    out.push(' ');
    out.push('S');
    out.push('P');
    out.push(':');
    push_hex2(out, cpu.stack_pointer);
    assert(final(out)@ =~= old(out)@ + registers_text(cpu@));
}

/// The trace line of the instruction at PC, before it runs.
pub fn trace(cpu: &CPU) -> (r: String)
    requires
        cpu@.wf(),
    ensures
        r@ == trace_line(cpu@),
{
    let pc = cpu.program_counter;
    let code = cpu.bus.peek(pc);
    let mut line = match decode(code) {
        None => {
            let mut line: Vec<char> = Vec::new();
            push_hex4(&mut line, pc);
            line.push(' ');
            line.push(' ');
            let mut bytes: Vec<char> = Vec::new();
            push_hex2(&mut bytes, code);
            pad(&mut bytes, 8);
            let ghost head = line@;
            push_chars(&mut line, &bytes);
            line.push(' ');
            line.push(' ');
            line.push('?');
            line.push('?');
            line.push('?');
            assert(line@ =~= hex4(pc) + seq![' ', ' '] + pad_to(hex2(code), 8) + seq![
                ' ',
                ' ',
                '?',
                '?',
                '?',
            ]);
            line
        },
        Some(o) => listing_chars(cpu, &o),
    };
    pad(&mut line, 47);
    push_registers(&mut line, cpu);
    string_of(&line)
}

} // verus!
