//! The picture processing unit: its memories, the registers the CPU sees,
//! and the scanline/dot counter.
use vstd::prelude::*;

use crate::control::ControlRegister;
use crate::error::NesError;
use crate::mask::MaskRegister;
use crate::rom::Mirroing;
use crate::scroll::ScrollRegister;
use crate::status::StatusRegister;

verus! {

pub const DOTS_PER_SCANLINE: u16 = 341;
pub const SCANLINES_PER_FRAME: u16 = 262;
/// The scanline whose start begins vertical blank.
pub const VBLANK_SCANLINE: u16 = 241;

/// Number of dots in a frame.
pub open spec fn frame_dots() -> int {
    341int * 262int
}

/// The internal VRAM address, written through `$2006` high byte first.
#[derive(Clone, Copy, Debug, PartialEq, Eq, Structural)]
pub struct AddrRegister {
    pub value: u16,
    /// Set when the next write goes to the high byte.
    pub hi_ptr: bool,
}

/// The address after a `$2006` write of `data`.
pub open spec fn addr_after_write(value: u16, hi_ptr: bool, data: u8) -> u16 {
    if hi_ptr {
        ((data % 64) as int * 256 + value % 256) as u16
    } else {
        ((value / 256) as int * 256 + data) as u16
    }
}

impl AddrRegister {
    pub open spec fn wf(&self) -> bool {
        self.value <= 0x3FFF
    }

    pub fn new() -> (r: Self)
        ensures
            r.value == 0,
            r.hi_ptr,
    {
        AddrRegister { value: 0, hi_ptr: true }
    }

    fn set(&mut self, data: u16)
        ensures
            final(self).value == data % 0x4000,
            final(self).hi_ptr == old(self).hi_ptr,
    {
        self.value = data % 0x4000;
    }

    /// One `$2006` write: the high byte (masked to 14 bits) or the low byte.
    pub fn update(&mut self, data: u8)
        requires
            old(self).wf(),
        ensures
            final(self).wf(),
            final(self).value == addr_after_write(old(self).value, old(self).hi_ptr, data),
            final(self).hi_ptr == !old(self).hi_ptr,
    {
        let next = if self.hi_ptr {
            (data % 64) as u16 * 256 + self.value % 256
        } else {
            (self.value / 256) * 256 + data as u16
        };
        self.set(next);
        self.hi_ptr = !self.hi_ptr;
    }

    /// Advances the address by `inc`, wrapping within 14 bits.
    pub fn increment(&mut self, inc: u8)
        requires
            old(self).wf(),
        ensures
            final(self).wf(),
            final(self).value == (old(self).value + inc) % 0x4000,
            final(self).hi_ptr == old(self).hi_ptr,
    {
        self.set(self.value + inc as u16);
    }

    pub fn reset_latch(&mut self)
        ensures
            final(self).value == old(self).value,
            final(self).hi_ptr,
    {
        self.hi_ptr = true;
    }

    pub fn get(&self) -> (r: u16)
        ensures
            r == self.value,
    {
        self.value
    }
}

pub struct NesPPU {
    pub chr_rom: Vec<u8>,
    pub palette_table: Vec<u8>,
    pub vram: Vec<u8>,
    pub oam_addr: u8,
    pub oam_data: Vec<u8>,
    pub mask: MaskRegister,
    pub scroll: ScrollRegister,
    pub status: StatusRegister,
    pub mirroring: Mirroing,
    pub addr: AddrRegister,
    pub ctrl: ControlRegister,
    pub internal_data_buf: u8,
    pub scanline: u16,
    pub cycle: u16,
    pub nmi_interrupt: Option<u8>,
}

/// The state of the PPU, with its memories as sequences.
pub struct PpuView {
    pub chr_rom: Seq<u8>,
    pub palette_table: Seq<u8>,
    pub vram: Seq<u8>,
    pub oam_addr: u8,
    pub oam_data: Seq<u8>,
    pub mask: MaskRegister,
    pub scroll: ScrollRegister,
    pub status: StatusRegister,
    pub mirroring: Mirroing,
    pub addr: AddrRegister,
    pub ctrl: ControlRegister,
    pub data_buf: u8,
    pub scanline: u16,
    pub cycle: u16,
    pub nmi: Option<u8>,
}

impl View for NesPPU {
    type V = PpuView;

    open spec fn view(&self) -> PpuView {
        PpuView {
            chr_rom: self.chr_rom@,
            palette_table: self.palette_table@,
            vram: self.vram@,
            oam_addr: self.oam_addr,
            oam_data: self.oam_data@,
            mask: self.mask,
            scroll: self.scroll,
            status: self.status,
            mirroring: self.mirroring,
            addr: self.addr,
            ctrl: self.ctrl,
            data_buf: self.internal_data_buf,
            scanline: self.scanline,
            cycle: self.cycle,
            nmi: self.nmi_interrupt,
        }
    }
}

impl PpuView {
    pub open spec fn wf(self) -> bool {
        &&& self.chr_rom.len() == 0x2000
        &&& self.palette_table.len() == 32
        &&& self.vram.len() == 0x800
        &&& self.oam_data.len() == 256
        &&& self.addr.wf()
        &&& self.cycle < 341
        &&& self.scanline < 262
    }

    /// Dots since the start of the frame.
    pub open spec fn position(self) -> int {
        self.scanline * 341 + self.cycle
    }

    pub open spec fn vram_step(self) -> int {
        if self.ctrl.has(ControlRegister::VRAM_ADDR_INCREMENT) {
            32
        } else {
            1
        }
    }

    /// The state with the VRAM address advanced after a `$2007` access.
    pub open spec fn advanced(self) -> PpuView {
        PpuView {
            addr: AddrRegister {
                value: ((self.addr.value + self.vram_step()) % 0x4000) as u16,
                ..self.addr
            },
            ..self
        }
    }
}

/// Index into the 2 KiB of VRAM of a nametable address (`$2000..=$3EFF`).
pub open spec fn nametable_index(mirroring: Mirroing, addr: u16) -> int {
    let i = addr % 0x1000;
    let table = i / 0x400;
    match mirroring {
        Mirroing::VERTICAL => if table >= 2 {
            i - 0x800
        } else {
            i as int
        },
        Mirroing::HORIZONTAL => if table == 1 || table == 2 {
            i - 0x400
        } else if table == 3 {
            i - 0x800
        } else {
            i as int
        },
        Mirroing::FOUR_SCREEN => i as int,
    }
}

/// Index into the 32 palette bytes written by a `$2007` write to an address
/// in `$3F00..=$3FFF`: writes to `$3F10`, `$3F14`, `$3F18`, `$3F1C` go to the
/// entries of `$3F00`, `$3F04`, `$3F08`, `$3F0C`. Reads are not aliased.
pub open spec fn palette_index(addr: u16) -> int {
    let i = addr % 32;
    if i == 0x10 || i == 0x14 || i == 0x18 || i == 0x1C {
        i - 0x10
    } else {
        i as int
    }
}

/// Whether an address lies in the nametable region `$2000..=$3EFF`.
pub open spec fn touches_nametable(addr: u16) -> bool {
    0x2000 <= addr <= 0x3EFF
}

pub open spec fn write_ctrl(s: PpuView, value: u8) -> PpuView {
    let raise = !s.ctrl.has(ControlRegister::GENERATE_NMI) && (ControlRegister {
        bits: value,
    }).has(ControlRegister::GENERATE_NMI) && s.status.bits >= 0x80;
    PpuView {
        ctrl: ControlRegister { bits: value },
        nmi: if raise {
            Some(1u8)
        } else {
            s.nmi
        },
        ..s
    }
}

pub open spec fn read_status(s: PpuView) -> (PpuView, u8) {
    (
        PpuView {
            status: StatusRegister { bits: s.status.bits & 0x7F },
            addr: AddrRegister { hi_ptr: true, ..s.addr },
            scroll: ScrollRegister { latch: false, ..s.scroll },
            ..s
        },
        s.status.bits,
    )
}

pub open spec fn write_oam_data(s: PpuView, value: u8) -> PpuView {
    PpuView {
        oam_data: s.oam_data.update(s.oam_addr as int, value),
        oam_addr: ((s.oam_addr + 1) % 256) as u8,
        ..s
    }
}

pub open spec fn write_scroll(s: PpuView, value: u8) -> PpuView {
    PpuView {
        scroll: if !s.scroll.latch {
            ScrollRegister { scroll_x: value, latch: true, ..s.scroll }
        } else {
            ScrollRegister { scroll_y: value, latch: false, ..s.scroll }
        },
        ..s
    }
}

pub open spec fn write_ppu_addr(s: PpuView, value: u8) -> PpuView {
    PpuView {
        addr: AddrRegister {
            value: addr_after_write(s.addr.value, s.addr.hi_ptr, value),
            hi_ptr: !s.addr.hi_ptr,
        },
        ..s
    }
}

/// A `$2007` write: pattern memory is read-only and ignored.
pub open spec fn write_data(s: PpuView, value: u8) -> (PpuView, Result<(), NesError>) {
    let addr = s.addr.value;
    if touches_nametable(addr) && s.mirroring == Mirroing::FOUR_SCREEN {
        (s, Err(NesError::UnsupportedMirroring))
    } else if addr <= 0x1FFF {
        (s.advanced(), Ok(()))
    } else if addr <= 0x3EFF {
        (
            PpuView {
                vram: s.vram.update(nametable_index(s.mirroring, addr), value),
                ..s.advanced()
            },
            Ok(()),
        )
    } else {
        (
            PpuView {
                palette_table: s.palette_table.update(palette_index(addr), value),
                ..s.advanced()
            },
            Ok(()),
        )
    }
}

/// A `$2007` read: pattern and nametable reads return the buffered byte and
/// refill the buffer; palette reads return the palette byte at once and
/// refill the buffer from the nametable underneath (on a four-screen
/// cartridge, which has no such nametable here, the buffer is kept).
pub open spec fn read_data(s: PpuView) -> (PpuView, Result<u8, NesError>) {
    let addr = s.addr.value;
    if touches_nametable(addr) && s.mirroring == Mirroing::FOUR_SCREEN {
        (s, Err(NesError::UnsupportedMirroring))
    } else if addr <= 0x1FFF {
        (PpuView { data_buf: s.chr_rom[addr as int], ..s.advanced() }, Ok(s.data_buf))
    } else if addr <= 0x3EFF {
        (
            PpuView { data_buf: s.vram[nametable_index(s.mirroring, addr)], ..s.advanced() },
            Ok(s.data_buf),
        )
    } else if s.mirroring == Mirroing::FOUR_SCREEN {
        (s.advanced(), Ok(s.palette_table[(addr % 32) as int]))
    } else {
        (
            PpuView { data_buf: s.vram[nametable_index(s.mirroring, addr)], ..s.advanced() },
            Ok(s.palette_table[(addr % 32) as int]),
        )
    }
}

/// One dot of the timing model, and whether it completed a frame.
pub open spec fn dot_step(s: PpuView) -> (PpuView, bool) {
    if s.cycle + 1 < 341 {
        (PpuView { cycle: (s.cycle + 1) as u16, ..s }, false)
    } else if s.scanline + 1 == 241 {
        if s.ctrl.has(ControlRegister::GENERATE_NMI) {
            (
                PpuView {
                    cycle: 0,
                    scanline: 241,
                    status: StatusRegister { bits: s.status.bits | 0x80 },
                    nmi: Some(1u8),
                    ..s
                },
                false,
            )
        } else {
            (PpuView { cycle: 0, scanline: 241, ..s }, false)
        }
    } else if s.scanline + 1 == 262 {
        (
            PpuView {
                cycle: 0,
                scanline: 0,
                status: StatusRegister { bits: s.status.bits & 0x7F },
                ..s
            },
            true,
        )
    } else {
        (PpuView { cycle: 0, scanline: (s.scanline + 1) as u16, ..s }, false)
    }
}

/// `n` dots, and whether any of them completed a frame.
pub open spec fn tick_dots(s: PpuView, n: nat) -> (PpuView, bool)
    decreases n,
{
    if n == 0 {
        (s, false)
    } else {
        let (s1, f1) = tick_dots(s, (n - 1) as nat);
        let (s2, f2) = dot_step(s1);
        (s2, f1 || f2)
    }
}

pub proof fn lemma_dot_step(s: PpuView)
    requires
        s.wf(),
    ensures
        dot_step(s).0.wf(),
        dot_step(s).0.position() == (s.position() + 1) % frame_dots(),
        dot_step(s).1 == (s.position() + 1 == frame_dots()),
        dot_step(s).0.chr_rom == s.chr_rom,
        dot_step(s).0.vram == s.vram,
        dot_step(s).0.palette_table == s.palette_table,
        dot_step(s).0.oam_data == s.oam_data,
        dot_step(s).0.addr == s.addr,
        dot_step(s).0.ctrl == s.ctrl,
        dot_step(s).0.mirroring == s.mirroring,
{
    let p = s.position();
    assert(0 <= p < frame_dots()) by (nonlinear_arith)
        requires
            s.cycle < 341,
            s.scanline < 262,
            p == s.scanline * 341 + s.cycle,
    ;
    if p + 1 < frame_dots() {
        vstd::arithmetic::div_mod::lemma_small_mod((p + 1) as nat, frame_dots() as nat);
    } else {
        vstd::arithmetic::div_mod::lemma_mod_self_0(frame_dots());
    }
}

/// Ticking `n` dots moves the frame position by `n`, modulo a frame; a frame
/// is completed exactly when the position passes the end of the frame.
pub proof fn lemma_tick_dots(s: PpuView, n: nat)
    requires
        s.wf(),
    ensures
        tick_dots(s, n).0.wf(),
        tick_dots(s, n).0.position() == (s.position() + n) % frame_dots(),
        tick_dots(s, n).1 == (s.position() + n >= frame_dots()) || n >= frame_dots(),
        tick_dots(s, n).0.chr_rom == s.chr_rom,
        tick_dots(s, n).0.vram == s.vram,
        tick_dots(s, n).0.palette_table == s.palette_table,
        tick_dots(s, n).0.oam_data == s.oam_data,
        tick_dots(s, n).0.addr == s.addr,
        tick_dots(s, n).0.ctrl == s.ctrl,
        tick_dots(s, n).0.mirroring == s.mirroring,
    decreases n,
{
    if n > 0 {
        let m = (n - 1) as nat;
        lemma_tick_dots(s, m);
        let s1 = tick_dots(s, m).0;
        lemma_dot_step(s1);
        let p = s.position();
        assert(0 <= p < frame_dots()) by (nonlinear_arith)
            requires
                s.cycle < 341,
                s.scanline < 262,
                p == s.scanline * 341 + s.cycle,
        ;
        assert(((p + m) % frame_dots() + 1) % frame_dots() == (p + n) % frame_dots()) by {
            vstd::arithmetic::div_mod::lemma_add_mod_noop(p + m, 1, frame_dots());
            vstd::arithmetic::div_mod::lemma_small_mod(1, frame_dots() as nat);
        }
        if n < frame_dots() {
            if p + m < frame_dots() {
                vstd::arithmetic::div_mod::lemma_small_mod((p + m) as nat, frame_dots() as nat);
            } else {
                vstd::arithmetic::div_mod::lemma_fundamental_div_mod(p + m, frame_dots());
            }
        }
    } else {
        let p = s.position();
        assert(0 <= p < frame_dots()) by (nonlinear_arith)
            requires
                s.cycle < 341,
                s.scanline < 262,
                p == s.scanline * 341 + s.cycle,
        ;
        vstd::arithmetic::div_mod::lemma_small_mod(p as nat, frame_dots() as nat);
    }
}

pub open spec fn initial_ppu(chr_rom: Seq<u8>, mirroring: Mirroing) -> PpuView {
    PpuView {
        chr_rom,
        palette_table: Seq::new(32, |i| 0u8),
        vram: Seq::new(0x800, |i| 0u8),
        oam_addr: 0,
        oam_data: Seq::new(256, |i| 0u8),
        mask: MaskRegister { bits: 0 },
        scroll: ScrollRegister { scroll_x: 0, scroll_y: 0, latch: false },
        status: StatusRegister { bits: 0 },
        mirroring,
        addr: AddrRegister { value: 0, hi_ptr: true },
        ctrl: ControlRegister { bits: 0 },
        data_buf: 0,
        scanline: 0,
        cycle: 0,
        nmi: None,
    }
}

fn zeroed(n: usize) -> (r: Vec<u8>)
    ensures
        r@ == Seq::new(n as nat, |i| 0u8),
{
    let mut r: Vec<u8> = Vec::with_capacity(n);
    let mut i: usize = 0;
    while i < n
        invariant
            i <= n,
            r@ == Seq::new(i as nat, |j| 0u8),
        decreases n - i,
    {
        r.push(0);
        i += 1;
        assert(r@ =~= Seq::new(i as nat, |j| 0u8));
    }
    r
}

impl NesPPU {
    pub fn new(chr_rom: Vec<u8>, mirroring: Mirroing) -> (r: Self)
        requires
            chr_rom@.len() == 0x2000,
        ensures
            r@ == initial_ppu(chr_rom@, mirroring),
            r@.wf(),
    {
        NesPPU {
            chr_rom,
            palette_table: zeroed(32),
            vram: zeroed(0x800),
            oam_addr: 0,
            oam_data: zeroed(256),
            mask: MaskRegister::new(),
            scroll: ScrollRegister::new(),
            status: StatusRegister::new(),
            mirroring,
            addr: AddrRegister::new(),
            ctrl: ControlRegister::new(),
            internal_data_buf: 0,
            scanline: 0,
            cycle: 0,
            nmi_interrupt: None,
        }
    }

    /// The VRAM index of a nametable address, for the two-table mirrorings.
    fn mirror_vram_addr(&self, addr: u16) -> (r: u16)
        requires
            self.mirroring != Mirroing::FOUR_SCREEN,
        ensures
            r == nametable_index(self.mirroring, addr),
            r < 0x800,
    {
        let vram_index = addr % 0x1000;
        let name_table = vram_index / 0x400;
        match self.mirroring {
            Mirroing::VERTICAL => if name_table >= 2 {
                vram_index - 0x800
            } else {
                vram_index
            },
            Mirroing::HORIZONTAL => if name_table == 1 || name_table == 2 {
                vram_index - 0x400
            } else if name_table == 3 {
                vram_index - 0x800
            } else {
                vram_index
            },
            Mirroing::FOUR_SCREEN => vram_index,
        }
    }

    fn increment_vram_addr(&mut self)
        requires
            old(self)@.wf(),
        ensures
            final(self)@ == old(self)@.advanced(),
    {
        let inc = self.ctrl.vram_addr_increment();
        self.addr.increment(inc);
    }

    pub fn write_to_ctrl(&mut self, value: u8)
        requires
            old(self)@.wf(),
        ensures
            final(self)@ == write_ctrl(old(self)@, value),
            final(self)@.wf(),
    {
        let before_nmi_status = self.ctrl.contains(ControlRegister::GENERATE_NMI);
        self.ctrl.update(value);
        if !before_nmi_status && self.ctrl.contains(ControlRegister::GENERATE_NMI)
            && self.status.is_in_vbrank() {
            self.nmi_interrupt = Some(1);
        }
    }

    pub fn write_to_mask(&mut self, value: u8)
        requires
            old(self)@.wf(),
        ensures
            final(self)@ == (PpuView { mask: MaskRegister { bits: value }, ..old(self)@ }),
            final(self)@.wf(),
    {
        self.mask.update(value);
    }

    pub fn read_status(&mut self) -> (r: u8)
        requires
            old(self)@.wf(),
        ensures
            (final(self)@, r) == read_status(old(self)@),
            final(self)@.wf(),
    {
        let data = self.status.snapshot();
        self.status.set_end_vblank();
        self.addr.reset_latch();
        self.scroll.reset_latch();
        data
    }

    pub fn write_to_oam_addr(&mut self, value: u8)
        requires
            old(self)@.wf(),
        ensures
            final(self)@ == (PpuView { oam_addr: value, ..old(self)@ }),
            final(self)@.wf(),
    {
        self.oam_addr = value;
    }

    pub fn write_to_oam_data(&mut self, value: u8)
        requires
            old(self)@.wf(),
        ensures
            final(self)@ == write_oam_data(old(self)@, value),
            final(self)@.wf(),
    {
        self.oam_data.set(self.oam_addr as usize, value);
        self.oam_addr = self.oam_addr.wrapping_add(1);
    }

    pub fn read_oam_data(&self) -> (r: u8)
        requires
            self@.wf(),
        ensures
            r == self@.oam_data[self.oam_addr as int],
    {
        self.oam_data[self.oam_addr as usize]
    }

    pub fn write_to_scroll(&mut self, value: u8)
        requires
            old(self)@.wf(),
        ensures
            final(self)@ == write_scroll(old(self)@, value),
            final(self)@.wf(),
    {
        self.scroll.write(value);
    }

    pub fn write_to_ppu_addr(&mut self, value: u8)
        requires
            old(self)@.wf(),
        ensures
            final(self)@ == write_ppu_addr(old(self)@, value),
            final(self)@.wf(),
    {
        self.addr.update(value);
    }

    pub fn write_to_data(&mut self, value: u8) -> (r: Result<(), NesError>)
        requires
            old(self)@.wf(),
        ensures
            (final(self)@, r) == write_data(old(self)@, value),
            final(self)@.wf(),
    {
        let addr = self.addr.get();
        if addr >= 0x2000 && addr <= 0x3eff && self.mirroring == Mirroing::FOUR_SCREEN {
            return Err(NesError::UnsupportedMirroring);
        }
        if addr <= 0x1fff {
            // pattern tables are cartridge ROM
        } else if addr <= 0x3eff {
            let i = self.mirror_vram_addr(addr);
            self.vram.set(i as usize, value);
        } else {
            let i = addr % 32;
            let i = if i == 0x10 || i == 0x14 || i == 0x18 || i == 0x1c {
                i - 0x10
            } else {
                i
            };
            self.palette_table.set(i as usize, value);
        }
        self.increment_vram_addr();
        Ok(())
    }

    pub fn read_data(&mut self) -> (r: Result<u8, NesError>)
        requires
            old(self)@.wf(),
        ensures
            (final(self)@, r) == read_data(old(self)@),
            final(self)@.wf(),
    {
        let addr = self.addr.get();
        if addr >= 0x2000 && addr <= 0x3eff && self.mirroring == Mirroing::FOUR_SCREEN {
            return Err(NesError::UnsupportedMirroring);
        }
        self.increment_vram_addr();
        if addr <= 0x1fff {
            let result = self.internal_data_buf;
            self.internal_data_buf = self.chr_rom[addr as usize];
            Ok(result)
        } else if addr <= 0x3eff {
            let result = self.internal_data_buf;
            let i = self.mirror_vram_addr(addr);
            self.internal_data_buf = self.vram[i as usize];
            Ok(result)
        } else {
            if self.mirroring != Mirroing::FOUR_SCREEN {
                let i = self.mirror_vram_addr(addr);
                self.internal_data_buf = self.vram[i as usize];
            }
            Ok(self.palette_table[(addr % 32) as usize])
        }
    }

    /// OAM DMA: copies a 256-byte page into OAM, starting at the OAM address
    /// and wrapping around; the OAM address ends where it began.
    pub fn write_oam_dma(&mut self, data: &Vec<u8>)
        requires
            old(self)@.wf(),
            data@.len() == 256,
        ensures
            final(self)@ == (PpuView {
                oam_data: Seq::new(
                    256,
                    |i: int| data@[(i - old(self)@.oam_addr) % 256],
                ),
                ..old(self)@
            }),
            final(self)@.wf(),
    {
        let ghost start = self.oam_addr;
        let mut i: usize = 0;
        while i < 256
            invariant
                i <= 256,
                data@.len() == 256,
                self.oam_data@.len() == 256,
                self.oam_addr == (start + i) % 256,
                self@ == (PpuView { oam_data: self@.oam_data, oam_addr: self.oam_addr, ..old(self)@ }),
                forall|j: int|
                    0 <= j < 256 ==> #[trigger] self.oam_data@[j] == if (j - start) % 256 < i {
                        data@[(j - start) % 256]
                    } else {
                        old(self)@.oam_data[j]
                    },
            decreases 256 - i,
        {
            self.oam_data.set(self.oam_addr as usize, data[i]);
            self.oam_addr = self.oam_addr.wrapping_add(1);
            i += 1;
        }
        assert(self@.oam_data =~= Seq::new(256, |i: int| data@[(i - start) % 256]));
    }

    /// One dot; returns whether it completed a frame.
    fn step_dot(&mut self) -> (r: bool)
        requires
            old(self)@.wf(),
        ensures
            (final(self)@, r) == dot_step(old(self)@),
            final(self)@.wf(),
    {
        proof {
            lemma_dot_step(self@);
        }
        if self.cycle + 1 < DOTS_PER_SCANLINE {
            self.cycle = self.cycle + 1;
            return false;
        }
        self.cycle = 0;
        self.scanline = self.scanline + 1;
        if self.scanline == VBLANK_SCANLINE {
            if self.ctrl.generate_vblank_status() {
                self.status.set_start_vblank();
                self.nmi_interrupt = Some(1);
            }
            false
        } else if self.scanline == SCANLINES_PER_FRAME {
            self.scanline = 0;
            self.status.set_end_vblank();
            true
        } else {
            false
        }
    }

    /// Advances the PPU by `dots` dots; returns whether a frame was completed.
    pub fn tick(&mut self, dots: u16) -> (r: bool)
        requires
            old(self)@.wf(),
        ensures
            (final(self)@, r) == tick_dots(old(self)@, dots as nat),
            final(self)@.wf(),
    {
        let mut completed = false;
        let mut i: u16 = 0;
        while i < dots
            invariant
                i <= dots,
                (self@, completed) == tick_dots(old(self)@, i as nat),
                self@.wf(),
            decreases dots - i,
        {
            let done = self.step_dot();
            completed = completed || done;
            i = i + 1;
        }
        completed
    }
}

} // verus!
