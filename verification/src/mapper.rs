//! The cartridge mapper abstraction: a mapper translates CPU- and PPU-side
//! addresses into reads and writes of the cartridge's PRG and CHR blobs, and
//! lets the console swap either blob when a new cartridge is loaded.

pub mod nrom;

pub use nrom::NROM;

use crate::rom::Rom;
use vstd::prelude::*;

verus! {

/// The capability set every mapper offers. A read returns `None` when the
/// address is not mapped; writes to unmapped or read-only regions are
/// dropped. The set of mappers is open for extension; [`NROM`] is the
/// baseline implementation.
pub trait Mapper {
    fn cpu_read(&mut self, addr: u16) -> Option<u8>;

    fn cpu_write(&mut self, addr: u16, val: u8);

    fn ppu_read(&mut self, addr: u16) -> Option<u8>;

    fn ppu_write(&mut self, addr: u16, val: u8);

    fn swap_prg_rom(&mut self, rom: Rom);

    fn swap_chr_rom(&mut self, rom: Rom);
}

} // verus!
