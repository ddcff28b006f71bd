//! The CPU-side memory bus. It arbitrates the CPU address space: work RAM
//! (mirrored across 0x0000–0x1FFF), the PPU registers at 0x2000–0x2007, and
//! the cartridge window at 0x8000–0xFFFF. Reads and writes go through the
//! `address` and `data` scratch lines, as the hardware's pins do.

use crate::card::{Card, CardV};
use crate::cpu::ram::{ram_wf, Ram};
use crate::ppu::ctrl::{ctrl_from_byte, ctrl_to_byte};
use crate::ppu::mask::{mask_from_byte, mask_to_byte};
use crate::ppu::status::{status_to_byte, PpuFlags};
use crate::ppu::{
    ppu_addr_tr, ppu_data_read_tr, ppu_data_read_val, ppu_data_write_tr, ppu_wf, Ppu, PpuV,
};
use crate::rom::rom_byte_or;
use vstd::prelude::*;

verus! {

/// The CPU bus: scratch lines, the 2 KiB of work RAM, and the two shared
/// devices it routes to — the cartridge and the PPU.
pub struct Bus {
    pub address: u16,
    pub data: u8,
    pub ram: Ram,
    pub card: Card,
    pub ppu: Ppu,
}

/// Mathematical model of a [`Bus`].
pub struct BusV {
    pub address: u16,
    pub data: u8,
    pub ram: Seq<u8>,
    pub card: CardV,
    pub ppu: PpuV,
}

impl View for Bus {
    type V = BusV;

    open spec fn view(&self) -> BusV {
        BusV {
            address: self.address,
            data: self.data,
            ram: self.ram@,
            card: self.card@,
            ppu: self.ppu@,
        }
    }
}

/// Well-formedness: the RAM holds its 2 KiB and the PPU is well-formed.
pub open spec fn bus_wf(b: BusV) -> bool {
    &&& b.ram.len() == 0x800
    &&& ppu_wf(b.ppu)
}

/// Where a work-RAM access in 0x0000–0x1FFF lands in the 2 KiB: the
/// address modulo 0x800, giving three mirrors above the first image.
pub open spec fn work_ram_index(addr: u16) -> int {
    (addr % 0x800) as int
}

/// The byte a CPU bus read returns. Address decoding: work RAM below
/// 0x2000; the PPU registers at 0x2000–0x2002 and 0x2007 (a 0x2002 read
/// forces VBlank high and returns the status byte); the cartridge window
/// from 0x8000 up, offset by 0x8000. Unmapped reads leave the data line at
/// its previous value.
pub open spec fn bus_read_data(b: BusV) -> u8 {
    if b.address < 0x2000 {
        b.ram[work_ram_index(b.address)]
    } else if b.address == 0x2000 {
        ctrl_to_byte(b.ppu.ctrl_flags)
    } else if b.address == 0x2001 {
        mask_to_byte(b.ppu.mask_flags)
    } else if b.address == 0x2002 {
        status_to_byte(PpuFlags { v_blank: true, ..b.ppu.status_flags })
    } else if b.address == 0x2007 {
        ppu_data_read_val(b.ppu, b.card.chr)
    } else if b.address >= 0x8000 {
        rom_byte_or(b.card.prg, (b.address - 0x8000) as u16, b.data)
    } else {
        b.data
    }
}

/// The bus after a read: the data line takes the decoded byte; a 0x2002
/// read clears VBlank, and a 0x2007 read moves the PPU bus scratch lines.
pub open spec fn bus_after_read(b: BusV) -> BusV {
    let d = bus_read_data(b);
    if b.address == 0x2002 {
        BusV {
            data: d,
            ppu: PpuV {
                status_flags: PpuFlags { v_blank: false, ..b.ppu.status_flags },
                ..b.ppu
            },
            ..b
        }
    } else if b.address == 0x2007 {
        BusV { data: d, ppu: ppu_data_read_tr(b.ppu, b.card.chr), ..b }
    } else {
        BusV { data: d, ..b }
    }
}

/// The bus after a write of the data line to the address line: work RAM
/// below 0x2000 (address reduced modulo 0x800); the PPU registers at
/// 0x2000, 0x2001, 0x2006 and 0x2007; the cartridge window from 0x8000 up,
/// which NROM ignores — the raw, un-offset address is handed to the
/// cartridge, preserving the asymmetry with the read path. Other writes
/// are dropped.
pub open spec fn bus_after_write(b: BusV) -> BusV {
    if b.address < 0x2000 {
        BusV { ram: b.ram.update(work_ram_index(b.address), b.data), ..b }
    } else if b.address == 0x2000 {
        BusV { ppu: PpuV { ctrl_flags: ctrl_from_byte(b.data), ..b.ppu }, ..b }
    } else if b.address == 0x2001 {
        BusV { ppu: PpuV { mask_flags: mask_from_byte(b.data), ..b.ppu }, ..b }
    } else if b.address == 0x2006 {
        BusV { ppu: ppu_addr_tr(b.ppu, b.data), ..b }
    } else if b.address == 0x2007 {
        BusV { ppu: ppu_data_write_tr(b.ppu, b.data), ..b }
    } else {
        b
    }
}

impl Bus {
    /// A fresh bus over the given cartridge and PPU, with zeroed work RAM
    /// and idle scratch lines.
    pub fn new(card: Card, ppu: Ppu) -> (r: Bus)
        ensures
            r@ == (BusV {
                address: 0,
                data: 0,
                ram: Seq::<u8>::new(0x800, |i: int| 0u8),
                card: card@,
                ppu: ppu@,
            }),
            ppu_wf(ppu@) ==> bus_wf(r@),
    {
        Bus { address: 0, data: 0, ram: Ram::default(), card, ppu }
    }

    /// Read the byte at the address line into the data line.
    pub fn read(&mut self)
        requires
            bus_wf(old(self)@),
        ensures
            bus_wf(final(self)@),
            final(self)@ == bus_after_read(old(self)@),
    {
        if self.address < 0x2000 {
            if let Some(byte) = self.ram.read(self.address % 0x800) {
                self.data = byte;
            }
        } else if self.address == 0x2000 {
            self.data = self.ppu.ctrl_flags.to_byte();
        } else if self.address == 0x2001 {
            self.data = self.ppu.mask_flags.to_byte();
        } else if self.address == 0x2002 {
            self.ppu.status_flags.v_blank = true;
            self.data = self.ppu.status_flags.read_and_clear_vblank();
        } else if self.address == 0x2007 {
            self.data = self.ppu.ppu_data_read(&mut self.card);
        } else if self.address >= 0x8000 {
            if let Some(byte) = self.card.cpu_read(self.address - 0x8000) {
                self.data = byte;
            }
        }
    }

    /// Write the data line to the byte at the address line.
    pub fn write(&mut self)
        requires
            bus_wf(old(self)@),
        ensures
            bus_wf(final(self)@),
            final(self)@ == bus_after_write(old(self)@),
    {
        if self.address < 0x2000 {
            self.ram.write(self.address % 0x800, self.data);
        } else if self.address == 0x2000 {
            self.ppu.ctrl_flags = crate::ppu::PpuCtrl::from_byte(self.data);
        } else if self.address == 0x2001 {
            self.ppu.mask_flags = crate::ppu::PpuMask::from_byte(self.data);
        } else if self.address == 0x2006 {
            self.ppu.ppu_addr(self.data);
        } else if self.address == 0x2007 {
            self.ppu.ppu_data_write(self.data, &mut self.card);
        } else if self.address >= 0x8000 {
            self.card.cpu_write(self.address, self.data);
        }
    }
}

/// Law: work RAM is mirrored. A write anywhere in 0x0000–0x1FFF is
/// observable at every address of that window congruent to it modulo
/// 0x800 — in particular at the written address plus or minus 0x800,
/// 0x1000 or 0x1800 when those stay within the window.
pub proof fn lemma_work_ram_mirror(b: BusV, write_addr: u16, read_addr: u16)
    requires
        bus_wf(b),
        write_addr < 0x2000,
        read_addr < 0x2000,
        write_addr % 0x800 == read_addr % 0x800,
    ensures
        ({
            let written = bus_after_write(BusV { address: write_addr, ..b });
            bus_read_data(BusV { address: read_addr, ..written }) == b.data
        }),
{
}

} // verus!
