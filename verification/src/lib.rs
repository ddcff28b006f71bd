//! Core of an NES (Nintendo Entertainment System) emulator: the 6502-family
//! CPU interpreter, the memory buses that route reads and writes between the
//! CPU, the picture-processing unit (PPU), work RAM and the cartridge, the
//! PPU timing engine, and the cartridge mapper that decodes ROM images.
//!
//! The host front-end (display, scheduling, ROM delivery) lives outside this
//! crate; the core exposes a purely synchronous stepping interface.

pub mod card;
pub mod cpu;
pub mod mapper;
pub mod nes;
pub mod ppu;
pub mod rom;
