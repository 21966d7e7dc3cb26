//! Core of a Nintendo Entertainment System emulator: a 6502 interpreter,
//! the CPU memory bus, the picture processing unit, background rendering
//! and the iNES ROM parser.
//!
//! The host (window, input, audio) stays outside: `CPU::step` reports when
//! the PPU has completed a frame, and the host then renders it.
pub mod bus;
pub mod control;
pub mod cpu;
pub mod error;
pub mod frame;
pub mod joypad;
pub mod laws;
pub mod mask;
pub mod opcode;
pub mod palette;
pub mod ppu;
pub mod render;
pub mod rom;
pub mod scroll;
pub mod semantics;
pub mod status;
pub mod trace;
