//! The cartridge: wraps a mapper and is consulted by both buses. The CPU bus
//! reaches it for addresses in the cartridge window; the PPU bus for pattern
//! data when no CHR-RAM is allocated.

use crate::mapper::{Mapper, NROM};
use crate::rom::RomV;
use vstd::prelude::*;

verus! {

/// A cartridge holding the baseline [`NROM`] mapper.
pub struct Card {
    pub mapper: NROM,
}

/// Mathematical model of a [`Card`]: the two ROM regions of its mapper.
pub struct CardV {
    pub prg: RomV,
    pub chr: RomV,
}

impl View for Card {
    type V = CardV;

    open spec fn view(&self) -> CardV {
        CardV { prg: self.mapper@.prg, chr: self.mapper@.chr }
    }
}

impl Card {
    pub fn new(mapper: NROM) -> (r: Card)
        ensures
            r@.prg == mapper@.prg,
            r@.chr == mapper@.chr,
    {
        Card { mapper }
    }

    /// CPU-side read through the mapper.
    pub fn cpu_read(&mut self, addr: u16) -> (r: Option<u8>)
        ensures
            final(self)@ == old(self)@,
            r == (if addr < old(self)@.prg.bytes.len() {
                Some(old(self)@.prg.bytes[addr as int])
            } else {
                None::<u8>
            }),
    {
        self.mapper.cpu_read(addr)
    }

    /// CPU-side write through the mapper; NROM drops it.
    pub fn cpu_write(&mut self, addr: u16, val: u8)
        ensures
            final(self)@ == old(self)@,
    {
        self.mapper.cpu_write(addr, val);
    }

    /// PPU-side read through the mapper.
    pub fn ppu_read(&mut self, addr: u16) -> (r: Option<u8>)
        ensures
            final(self)@ == old(self)@,
            r == (if addr < old(self)@.chr.bytes.len() {
                Some(old(self)@.chr.bytes[addr as int])
            } else {
                None::<u8>
            }),
    {
        self.mapper.ppu_read(addr)
    }

    /// PPU-side write through the mapper; NROM drops it.
    pub fn ppu_write(&mut self, addr: u16, val: u8)
        ensures
            final(self)@ == old(self)@,
    {
        self.mapper.ppu_write(addr, val);
    }
}

} // verus!
