//! The CPU memory bus: address decoding over RAM, PPU registers and PRG ROM,
//! and the clock that drives the PPU.
use vstd::prelude::*;

use crate::error::NesError;
use crate::ppu::{
    frame_dots, read_data, read_status, tick_dots, write_ctrl, write_data, write_oam_data,
    write_ppu_addr, write_scroll, NesPPU, PpuView, lemma_tick_dots,
};
use crate::mask::MaskRegister;
use crate::rom::Rom;

verus! {

pub const RAM: u16 = 0x0000;
pub const RAM_MIRRORS_END: u16 = 0x1FFF;
pub const PPU_REGISTERS_MIRRORS_END: u16 = 0x3FFF;
pub const RAM_SIZE: usize = 0x0800;

pub struct Bus {
    pub cpu_vram: Vec<u8>,
    pub prg_rom: Vec<u8>,
    pub ppu: NesPPU,
    /// CPU cycles run so far, wrapping at 2^64.
    pub cycle: u64,
    /// CPU cycles run so far.
    pub total_cycles: Ghost<nat>,
}

pub struct BusView {
    pub ram: Seq<u8>,
    pub prg: Seq<u8>,
    pub ppu: PpuView,
    pub cycle: u64,
    pub total_cycles: nat,
}

impl View for Bus {
    type V = BusView;

    open spec fn view(&self) -> BusView {
        BusView {
            ram: self.cpu_vram@,
            prg: self.prg_rom@,
            ppu: self.ppu@,
            cycle: self.cycle,
            total_cycles: self.total_cycles@,
        }
    }
}

impl BusView {
    pub open spec fn wf(self) -> bool {
        &&& self.ram.len() == 0x800
        &&& (self.prg.len() == 0x4000 || self.prg.len() == 0x8000)
        &&& self.ppu.wf()
        &&& self.cycle == self.total_cycles % 0x1_0000_0000_0000_0000
        &&& self.ppu.position() == (3 * self.total_cycles as int) % frame_dots()
    }
}

/// The PRG ROM byte at a CPU address in `$8000..=$FFFF`; a 16 KiB ROM
/// appears twice.
pub open spec fn prg_byte(prg: Seq<u8>, addr: u16) -> u8 {
    prg[(addr - 0x8000) % (prg.len() as int)]
}

/// What a CPU read at `addr` returns, and the bus after it.
pub open spec fn bus_read(b: BusView, addr: u16) -> (BusView, Result<u8, NesError>) {
    if addr <= 0x1FFF {
        (b, Ok(b.ram[(addr % 0x800) as int]))
    } else if addr <= 0x3FFF {
        let reg = addr % 8;
        if reg == 2 {
            let (p, v) = read_status(b.ppu);
            (BusView { ppu: p, ..b }, Ok(v))
        } else if reg == 4 {
            (b, Ok(b.ppu.oam_data[b.ppu.oam_addr as int]))
        } else if reg == 7 {
            let (p, r) = read_data(b.ppu);
            (BusView { ppu: p, ..b }, r)
        } else {
            (b, Err(NesError::ReadFromWriteOnlyRegister(addr)))
        }
    } else if addr == 0x4014 {
        (b, Err(NesError::ReadFromWriteOnlyRegister(addr)))
    } else if addr >= 0x8000 {
        (b, Ok(prg_byte(b.prg, addr)))
    } else {
        (b, Ok(0))
    }
}

/// What a debugger sees at `addr` without touching the bus: RAM and PRG ROM
/// contents; registers and unmapped space show 0.
pub open spec fn peek(b: BusView, addr: u16) -> u8 {
    if addr <= 0x1FFF {
        b.ram[(addr % 0x800) as int]
    } else if addr >= 0x8000 {
        prg_byte(b.prg, addr)
    } else {
        0
    }
}

/// The bus after a CPU write of `v` at `addr`, and whether it was allowed.
pub open spec fn bus_write(b: BusView, addr: u16, v: u8) -> (BusView, Result<(), NesError>) {
    if addr <= 0x1FFF {
        (BusView { ram: b.ram.update((addr % 0x800) as int, v), ..b }, Ok(()))
    } else if addr <= 0x3FFF {
        let reg = addr % 8;
        if reg == 0 {
            (BusView { ppu: write_ctrl(b.ppu, v), ..b }, Ok(()))
        } else if reg == 1 {
            (BusView { ppu: PpuView { mask: MaskRegister { bits: v }, ..b.ppu }, ..b }, Ok(()))
        } else if reg == 2 {
            (b, Err(NesError::WriteToReadOnlyRegister(addr)))
        } else if reg == 3 {
            (BusView { ppu: PpuView { oam_addr: v, ..b.ppu }, ..b }, Ok(()))
        } else if reg == 4 {
            (BusView { ppu: write_oam_data(b.ppu, v), ..b }, Ok(()))
        } else if reg == 5 {
            (BusView { ppu: write_scroll(b.ppu, v), ..b }, Ok(()))
        } else if reg == 6 {
            (BusView { ppu: write_ppu_addr(b.ppu, v), ..b }, Ok(()))
        } else {
            let (p, r) = write_data(b.ppu, v);
            (BusView { ppu: p, ..b }, r)
        }
    } else if addr >= 0x8000 {
        (b, Err(NesError::WriteToRom(addr)))
    } else {
        (b, Ok(()))
    }
}

/// The bus after `cycles` CPU cycles, and whether the PPU completed a frame.
pub open spec fn bus_tick(b: BusView, cycles: u8) -> (BusView, bool) {
    let (p, frame) = tick_dots(b.ppu, 3 * cycles as nat);
    (
        BusView {
            ppu: p,
            cycle: b.cycle.wrapping_add(cycles as u64),
            total_cycles: (b.total_cycles + cycles) as nat,
            ..b
        },
        frame,
    )
}

pub open spec fn initial_bus(prg: Seq<u8>, ppu: PpuView) -> BusView {
    BusView { ram: Seq::new(0x800, |i| 0u8), prg, ppu, cycle: 0, total_cycles: 0 }
}

impl Bus {
    pub fn new(rom: Rom) -> (r: Bus)
        requires
            rom.wf(),
        ensures
            r@ == initial_bus(
                rom.prg_rom@,
                crate::ppu::initial_ppu(rom.chr_rom@, rom.screen_mirroring),
            ),
            r@.wf(),
    {
        let ppu = NesPPU::new(rom.chr_rom, rom.screen_mirroring);
        let mut cpu_vram: Vec<u8> = Vec::with_capacity(RAM_SIZE);
        let mut i: usize = 0;
        while i < RAM_SIZE
            invariant
                i <= RAM_SIZE,
                cpu_vram@ == Seq::new(i as nat, |j| 0u8),
            decreases RAM_SIZE - i,
        {
            cpu_vram.push(0);
            i += 1;
            assert(cpu_vram@ =~= Seq::new(i as nat, |j| 0u8));
        }
        let r = Bus { cpu_vram, prg_rom: rom.prg_rom, ppu, cycle: 0, total_cycles: Ghost(0) };
        proof {
            vstd::arithmetic::div_mod::lemma_small_mod(0, frame_dots() as nat);
        }
        r
    }

    /// Runs the clock `cycles` CPU cycles: the PPU advances three dots per
    /// cycle. Returns whether the PPU completed a frame.
    pub fn tick(&mut self, cycles: u8) -> (r: bool)
        requires
            old(self)@.wf(),
        ensures
            (final(self)@, r) == bus_tick(old(self)@, cycles),
            final(self)@.wf(),
    {
        let ghost before = self@;
        self.cycle = self.cycle.wrapping_add(cycles as u64);
        self.total_cycles = Ghost((self.total_cycles@ + cycles) as nat);
        let frame = self.ppu.tick(cycles as u16 * 3);
        proof {
            lemma_ppu_follows_cpu_clock(before, cycles);
        }
        frame
    }

    /// Takes the pending NMI request of the PPU, if any.
    pub fn poll_nmi_status(&mut self) -> (r: Option<u8>)
        requires
            old(self)@.wf(),
        ensures
            r == old(self)@.ppu.nmi,
            final(self)@ == (BusView { ppu: PpuView { nmi: None, ..old(self)@.ppu }, ..old(self)@ }),
            final(self)@.wf(),
    {
        self.ppu.nmi_interrupt.take()
    }

    fn read_prg_rom(&self, addr: u16) -> (r: u8)
        requires
            self@.wf(),
            addr >= 0x8000,
        ensures
            r == prg_byte(self@.prg, addr),
    {
        let i = (addr - 0x8000) as usize % self.prg_rom.len();
        self.prg_rom[i]
    }

    /// Reads RAM or PRG ROM without side effects; other addresses give 0.
    pub fn peek(&self, addr: u16) -> (r: u8)
        requires
            self@.wf(),
        ensures
            r == peek(self@, addr),
    {
        if addr <= RAM_MIRRORS_END {
            self.cpu_vram[(addr % 0x800) as usize]
        } else if addr >= 0x8000 {
            self.read_prg_rom(addr)
        } else {
            0
        }
    }

    pub fn mem_read(&mut self, addr: u16) -> (r: Result<u8, NesError>)
        requires
            old(self)@.wf(),
        ensures
            (final(self)@, r) == bus_read(old(self)@, addr),
            final(self)@.wf(),
    {
        if addr <= RAM_MIRRORS_END {
            Ok(self.cpu_vram[(addr % 0x800) as usize])
        } else if addr <= PPU_REGISTERS_MIRRORS_END {
            let reg = addr % 8;
            if reg == 2 {
                Ok(self.ppu.read_status())
            } else if reg == 4 {
                Ok(self.ppu.read_oam_data())
            } else if reg == 7 {
                self.ppu.read_data()
            } else {
                Err(NesError::ReadFromWriteOnlyRegister(addr))
            }
        } else if addr == 0x4014 {
            Err(NesError::ReadFromWriteOnlyRegister(addr))
        } else if addr >= 0x8000 {
            Ok(self.read_prg_rom(addr))
        } else {
            // APU, joypads and unmapped space read as 0
            Ok(0)
        }
    }

    pub fn mem_write(&mut self, addr: u16, data: u8) -> (r: Result<(), NesError>)
        requires
            old(self)@.wf(),
        ensures
            (final(self)@, r) == bus_write(old(self)@, addr, data),
            final(self)@.wf(),
    {
        if addr <= RAM_MIRRORS_END {
            self.cpu_vram.set((addr % 0x800) as usize, data);
            Ok(())
        } else if addr <= PPU_REGISTERS_MIRRORS_END {
            let reg = addr % 8;
            if reg == 0 {
                self.ppu.write_to_ctrl(data);
                Ok(())
            } else if reg == 1 {
                self.ppu.write_to_mask(data);
                Ok(())
            } else if reg == 2 {
                Err(NesError::WriteToReadOnlyRegister(addr))
            } else if reg == 3 {
                self.ppu.write_to_oam_addr(data);
                Ok(())
            } else if reg == 4 {
                self.ppu.write_to_oam_data(data);
                Ok(())
            } else if reg == 5 {
                self.ppu.write_to_scroll(data);
                Ok(())
            } else if reg == 6 {
                self.ppu.write_to_ppu_addr(data);
                Ok(())
            } else {
                self.ppu.write_to_data(data)
            }
        } else if addr >= 0x8000 {
            Err(NesError::WriteToRom(addr))
        } else {
            // APU, OAM DMA, joypads and unmapped space ignore writes
            Ok(())
        }
    }
}

/// The PPU runs three dots per CPU cycle: over any run of the clock, its
/// position in the frame stays three times the number of CPU cycles since
/// power-on, modulo the dots of a frame.
pub proof fn lemma_ppu_follows_cpu_clock(b: BusView, cycles: u8)
    requires
        b.wf(),
    ensures
        bus_tick(b, cycles).0.wf(),
        bus_tick(b, cycles).0.total_cycles == b.total_cycles + cycles,
        b.cycle + cycles <= u64::MAX ==> bus_tick(b, cycles).0.cycle == b.cycle + cycles,
        bus_tick(b, cycles).0.ppu.position() == (3 * bus_tick(b, cycles).0.total_cycles as int)
            % frame_dots(),
{
    let n = 3 * cycles as nat;
    lemma_tick_dots(b.ppu, n);
    let f = frame_dots();
    let t = b.total_cycles as int;
    vstd::arithmetic::div_mod::lemma_add_mod_noop(3 * t, n as int, f);
    vstd::arithmetic::div_mod::lemma_mod_twice(3 * t, f);
    vstd::arithmetic::div_mod::lemma_small_mod(n, f as nat);
    assert(3 * t + n == 3 * (t + cycles));
    let m = 0x1_0000_0000_0000_0000int;
    vstd::arithmetic::div_mod::lemma_add_mod_noop(t, cycles as int, m);
    vstd::arithmetic::div_mod::lemma_small_mod(cycles as nat, m as nat);
    vstd::arithmetic::div_mod::lemma_mod_twice(t, m);
}

/// A write to CPU RAM is read back unchanged, at the address itself and at
/// each of its mirrors.
pub proof fn lemma_ram_round_trip(b: BusView, a: u16, v: u8, c: u16)
    requires
        b.wf(),
        a <= 0x1FFF,
        c <= 0x1FFF,
        a % 0x800 == c % 0x800,
    ensures
        bus_write(b, a, v).1 == Ok::<(), NesError>(()),
        bus_read(bus_write(b, a, v).0, c).1 == Ok::<u8, NesError>(v),
{
}

} // verus!
