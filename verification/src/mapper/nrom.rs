//! NROM, the simplest mapper: CPU reads index straight into PRG-ROM, PPU
//! reads into CHR-ROM, writes to either ROM are silently dropped, and the
//! swap operations replace a blob wholesale.

use crate::mapper::Mapper;
use crate::rom::{Rom, RomV};
use vstd::prelude::*;

verus! {

/// The baseline cartridge: a PRG blob and a CHR blob, no bank switching.
pub struct NROM {
    pub prg_rom: Rom,
    pub chr_rom: Rom,
}

/// Mathematical model of an [`NROM`]: its two ROM regions.
pub struct NromV {
    pub prg: RomV,
    pub chr: RomV,
}

impl View for NROM {
    type V = NromV;

    open spec fn view(&self) -> NromV {
        NromV { prg: self.prg_rom@, chr: self.chr_rom@ }
    }
}

impl NROM {
    pub fn new(prg_rom: Rom, chr_rom: Rom) -> (r: NROM)
        ensures
            r@.prg == prg_rom@,
            r@.chr == chr_rom@,
    {
        NROM { prg_rom, chr_rom }
    }

    /// CPU-side read: the PRG byte at `addr`, or `None` past the end.
    pub fn read_prg(&self, addr: u16) -> (r: Option<u8>)
        ensures
            r == (if addr < self@.prg.bytes.len() {
                Some(self@.prg.bytes[addr as int])
            } else {
                None::<u8>
            }),
    {
        self.prg_rom.read(addr)
    }

    /// PPU-side read: the CHR byte at `addr`, or `None` past the end.
    pub fn read_chr(&self, addr: u16) -> (r: Option<u8>)
        ensures
            r == (if addr < self@.chr.bytes.len() {
                Some(self@.chr.bytes[addr as int])
            } else {
                None::<u8>
            }),
    {
        self.chr_rom.read(addr)
    }

    /// Replace the PRG blob; invoked by the console's cartridge-swap path.
    pub fn replace_prg(&mut self, rom: Rom)
        ensures
            final(self)@ == (NromV { prg: rom@, ..old(self)@ }),
    {
        self.prg_rom = rom;
    }

    /// Replace the CHR blob.
    pub fn replace_chr(&mut self, rom: Rom)
        ensures
            final(self)@ == (NromV { chr: rom@, ..old(self)@ }),
    {
        self.chr_rom = rom;
    }
}

impl Mapper for NROM {
    fn cpu_read(&mut self, addr: u16) -> (r: Option<u8>)
        ensures
            final(self)@ == old(self)@,
            r == (if addr < old(self)@.prg.bytes.len() {
                Some(old(self)@.prg.bytes[addr as int])
            } else {
                None::<u8>
            }),
    {
        NROM::read_prg(self, addr)
    }

    fn cpu_write(&mut self, addr: u16, val: u8)
        ensures
            final(self)@ == old(self)@,
    {
        // NROM has no CPU-writable storage: the write is dropped.
    }

    fn ppu_read(&mut self, addr: u16) -> (r: Option<u8>)
        ensures
            final(self)@ == old(self)@,
            r == (if addr < old(self)@.chr.bytes.len() {
                Some(old(self)@.chr.bytes[addr as int])
            } else {
                None::<u8>
            }),
    {
        NROM::read_chr(self, addr)
    }

    fn ppu_write(&mut self, addr: u16, val: u8)
        ensures
            final(self)@ == old(self)@,
    {
        // CHR-ROM is read-only: the write is dropped.
    }

    fn swap_prg_rom(&mut self, rom: Rom)
        ensures
            final(self)@ == (NromV { prg: rom@, ..old(self)@ }),
    {
        NROM::replace_prg(self, rom)
    }

    fn swap_chr_rom(&mut self, rom: Rom)
        ensures
            final(self)@ == (NromV { chr: rom@, ..old(self)@ }),
    {
        NROM::replace_chr(self, rom)
    }
}

} // verus!
