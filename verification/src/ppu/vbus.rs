//! The PPU-side memory bus. It arbitrates the PPU address space: pattern
//! data in 0x0000–0x1FFF (CHR-RAM when allocated, else the cartridge),
//! name-table VRAM in 0x2000–0x3EFF under the cartridge's mirroring, and
//! palette RAM in 0x3F00–0x3FFF with the four hardware aliases.

use crate::card::{Card, CardV};
use crate::cpu::ram::filled_bytes;
use crate::ppu::vram::{vram_wf, VRam};
use crate::rom::{rom_byte_or, RomV};
use vstd::prelude::*;

verus! {

/// The PPU bus: address and data scratch lines, the name-table VRAM, an
/// optional 8 KiB CHR-RAM bank, the 32 bytes of palette RAM, and the
/// mirroring mode the cartridge selected.
pub struct VBus {
    pub address: u16,
    pub data: u8,
    pub vram: VRam,
    pub chr_ram: Option<Vec<u8>>,
    pub palette_ram: Vec<u8>,
    pub vertical_mirror: bool,
}

/// Mathematical model of a [`VBus`].
pub struct VBusV {
    pub address: u16,
    pub data: u8,
    pub vram: Seq<u8>,
    pub chr_ram: Option<Seq<u8>>,
    pub palette_ram: Seq<u8>,
    pub vertical_mirror: bool,
}

impl View for VBus {
    type V = VBusV;

    open spec fn view(&self) -> VBusV {
        VBusV {
            address: self.address,
            data: self.data,
            vram: self.vram@,
            chr_ram: match self.chr_ram {
                Some(c) => Some(c@),
                None => None,
            },
            palette_ram: self.palette_ram@,
            vertical_mirror: self.vertical_mirror,
        }
    }
}

/// Well-formedness: VRAM holds 2 KiB, palette RAM 32 bytes, and CHR-RAM,
/// when allocated, 8 KiB.
pub open spec fn vbus_wf(v: VBusV) -> bool {
    &&& v.vram.len() == 0x800
    &&& v.palette_ram.len() == 0x20
    &&& match v.chr_ram {
        Some(c) => c.len() == 0x2000,
        None => true,
    }
}

/// Where a name-table access in 0x2000–0x3EFF lands in the 2 KiB of VRAM:
/// vertical mirroring folds the window modulo 0x800; horizontal folds
/// bit 11 into bit 10.
pub open spec fn nametable_index(addr: u16, vertical: bool) -> u16 {
    let a = addr & 0x0FFF;
    if vertical {
        a % 0x800
    } else {
        (a & 0x3FF) | ((a & 0x800) >> 1)
    }
}

pub proof fn lemma_nametable_index_bound(addr: u16, vertical: bool)
    ensures
        nametable_index(addr, vertical) < 0x800,
{
    if !vertical {
        assert(((addr & 0x0FFF) & 0x3FF) | (((addr & 0x0FFF) & 0x800) >> 1) < 0x800)
            by (bit_vector);
    }
}

/// Where a palette access in 0x3F00–0x3FFF lands in the 32 bytes of
/// palette RAM: the low five bits, with the four hardware aliases
/// 0x10/0x14/0x18/0x1C folded onto 0x00/0x04/0x08/0x0C.
pub open spec fn palette_index(addr: u16) -> u16 {
    let a = addr & 0x1F;
    if a == 0x10 {
        0x00
    } else if a == 0x14 {
        0x04
    } else if a == 0x18 {
        0x08
    } else if a == 0x1C {
        0x0C
    } else {
        a
    }
}

pub proof fn lemma_palette_index_bound(addr: u16)
    ensures
        palette_index(addr) < 0x20,
{
    assert(addr & 0x1F < 0x20) by (bit_vector);
}

/// The byte a PPU bus read returns. `chr` is the cartridge's CHR region;
/// an unmapped read leaves the data line at its previous value.
pub open spec fn vbus_read_data(v: VBusV, chr: RomV) -> u8 {
    if v.address < 0x2000 {
        match v.chr_ram {
            Some(c) => c[v.address as int],
            None => rom_byte_or(chr, v.address, v.data),
        }
    } else if v.address <= 0x3EFF {
        v.vram[nametable_index(v.address, v.vertical_mirror) as int]
    } else if v.address <= 0x3FFF {
        v.palette_ram[palette_index(v.address) as int]
    } else {
        v.data
    }
}

/// The bus after a read: only the data line changes.
pub open spec fn vbus_after_read(v: VBusV, chr: RomV) -> VBusV {
    VBusV { data: vbus_read_data(v, chr), ..v }
}

/// The bus after a write of the data line to the address line. Writes into
/// pattern space go to CHR-RAM when allocated and are dropped otherwise
/// (CHR-ROM is read-only); palette writes keep only the low six bits.
pub open spec fn vbus_after_write(v: VBusV) -> VBusV {
    if v.address < 0x2000 {
        match v.chr_ram {
            Some(c) => VBusV { chr_ram: Some(c.update(v.address as int, v.data)), ..v },
            None => v,
        }
    } else if v.address <= 0x3EFF {
        VBusV {
            vram: v.vram.update(nametable_index(v.address, v.vertical_mirror) as int, v.data),
            ..v
        }
    } else if v.address <= 0x3FFF {
        VBusV {
            palette_ram: v.palette_ram.update(palette_index(v.address) as int, v.data & 0x3F),
            ..v
        }
    } else {
        v
    }
}

impl VBus {
    /// A fresh PPU bus, with an 8 KiB CHR-RAM bank when the cartridge
    /// declared no CHR-ROM.
    pub fn new(vertical_mirror: bool, allocate_chr_ram: bool) -> (r: VBus)
        ensures
            vbus_wf(r@),
            r@.address == 0,
            r@.data == 0,
            r@.vertical_mirror == vertical_mirror,
            r@.vram == Seq::<u8>::new(0x800, |i: int| 0u8),
            r@.palette_ram == Seq::<u8>::new(0x20, |i: int| 0u8),
            r@.chr_ram == (if allocate_chr_ram {
                Some(Seq::<u8>::new(0x2000, |i: int| 0u8))
            } else {
                None::<Seq<u8>>
            }),
    {
        let chr_ram = if allocate_chr_ram {
            Some(filled_bytes(0x2000, 0))
        } else {
            None
        };
        VBus {
            address: 0,
            data: 0,
            vram: VRam::default(),
            chr_ram,
            vertical_mirror,
            palette_ram: filled_bytes(0x20, 0),
        }
    }

    /// Read the byte at the address line into the data line. The cartridge
    /// is consulted for pattern data when no CHR-RAM is allocated.
    pub fn read(&mut self, card: &mut Card)
        requires
            vbus_wf(old(self)@),
        ensures
            vbus_wf(final(self)@),
            final(self)@ == vbus_after_read(old(self)@, old(card)@.chr),
            final(card)@ == old(card)@,
    {
        if self.address < 0x2000 {
            match &self.chr_ram {
                Some(chr_ram) => {
                    self.data = chr_ram[self.address as usize];
                }
                None => {
                    if let Some(byte) = card.ppu_read(self.address) {
                        self.data = byte;
                    }
                }
            }
        } else if self.address <= 0x3EFF {
            let addr = nametable_fold(self.address, self.vertical_mirror);
            proof {
                lemma_nametable_index_bound(self.address, self.vertical_mirror);
            }
            if let Some(byte) = self.vram.read(addr) {
                self.data = byte;
            }
        } else if self.address <= 0x3FFF {
            let addr = palette_fold(self.address);
            proof {
                lemma_palette_index_bound(self.address);
            }
            self.data = self.palette_ram[addr as usize];
        }
    }

    /// Write the data line to the byte at the address line.
    pub fn write(&mut self, card: &mut Card)
        requires
            vbus_wf(old(self)@),
        ensures
            vbus_wf(final(self)@),
            final(self)@ == vbus_after_write(old(self)@),
            final(card)@ == old(card)@,
    {
        if self.address < 0x2000 {
            match &mut self.chr_ram {
                Some(chr_ram) => {
                    let a = self.address as usize;
                    chr_ram[a] = self.data;
                }
                None => {
                    card.ppu_write(self.address, self.data);
                }
            }
        } else if self.address <= 0x3EFF {
            let addr = nametable_fold(self.address, self.vertical_mirror);
            proof {
                lemma_nametable_index_bound(self.address, self.vertical_mirror);
            }
            self.vram.write(addr, self.data);
        } else if self.address <= 0x3FFF {
            let addr = palette_fold(self.address);
            proof {
                lemma_palette_index_bound(self.address);
            }
            let masked = self.data & 0x3F;
            self.palette_ram[addr as usize] = masked;
        }
    }
}

/// Executable form of [`nametable_index`].
pub fn nametable_fold(addr: u16, vertical: bool) -> (r: u16)
    ensures
        r == nametable_index(addr, vertical),
{
    let a = addr & 0x0FFF;
    if vertical {
        a % 0x800
    } else {
        (a & 0x3FF) | ((a & 0x800) >> 1)
    }
}

/// Executable form of [`palette_index`].
pub fn palette_fold(addr: u16) -> (r: u16)
    ensures
        r == palette_index(addr),
{
    let a = addr & 0x1F;
    if a == 0x10 {
        0x00
    } else if a == 0x14 {
        0x04
    } else if a == 0x18 {
        0x08
    } else if a == 0x1C {
        0x0C
    } else {
        a
    }
}

/// Law: the palette aliases are enforced on both sides. A write anywhere in
/// palette space is observable at every address that folds to the same
/// palette cell — in particular at 0x3F10 and 0x3F00, 0x3F14 and 0x3F04,
/// 0x3F18 and 0x3F08, 0x3F1C and 0x3F0C — and what is stored is the data
/// byte masked to its low six bits.
pub proof fn lemma_palette_alias(v: VBusV, chr: RomV, write_addr: u16, read_addr: u16)
    requires
        vbus_wf(v),
        0x3F00 <= write_addr <= 0x3FFF,
        0x3F00 <= read_addr <= 0x3FFF,
        palette_index(write_addr) == palette_index(read_addr),
    ensures
        ({
            let written = vbus_after_write(VBusV { address: write_addr, ..v });
            vbus_read_data(VBusV { address: read_addr, ..written }, chr) == v.data & 0x3F
        }),
{
    lemma_palette_index_bound(write_addr);
    lemma_palette_index_bound(read_addr);
}

} // verus!
