//! The PPU control register: base name-table select, VRAM address
//! increment, pattern-table selects, sprite size and NMI-on-VBlank enable.

use vstd::prelude::*;

verus! {

#[derive(Clone, Copy, PartialEq, Eq, Structural, Debug)]
pub struct PpuCtrl {
    pub base_nametable: u8,
    pub vram_increment: bool,
    pub sprite_table: bool,
    pub bg_table: bool,
    pub sprite_size: bool,
    pub nmi: bool,
}

/// All fields low: the register's power-up state.
pub open spec fn ctrl_clear() -> PpuCtrl {
    PpuCtrl {
        base_nametable: 0,
        vram_increment: false,
        sprite_table: false,
        bg_table: false,
        sprite_size: false,
        nmi: false,
    }
}

/// The serialised control byte. Bit 6 is not modelled and reads as zero.
pub open spec fn ctrl_to_byte(c: PpuCtrl) -> u8 {
    (c.base_nametable & 3)
    | (if c.vram_increment { 0x04u8 } else { 0u8 })
    | (if c.sprite_table { 0x08u8 } else { 0u8 })
    | (if c.bg_table { 0x10u8 } else { 0u8 })
    | (if c.sprite_size { 0x20u8 } else { 0u8 })
    | (if c.nmi { 0x80u8 } else { 0u8 })
}

/// The register decoded from a control byte.
pub open spec fn ctrl_from_byte(byte: u8) -> PpuCtrl {
    PpuCtrl {
        base_nametable: byte & 0x3,
        vram_increment: byte & 0x4 != 0,
        sprite_table: byte & 0x8 != 0,
        bg_table: byte & 0x10 != 0,
        sprite_size: byte & 0x20 != 0,
        nmi: byte & 0x80 != 0,
    }
}

impl Default for PpuCtrl {
    fn default() -> (r: PpuCtrl)
        ensures
            r == ctrl_clear(),
    {
        PpuCtrl {
            base_nametable: 0,
            vram_increment: false,
            sprite_table: false,
            bg_table: false,
            sprite_size: false,
            nmi: false,
        }
    }
}

impl PpuCtrl {
    pub fn to_byte(&self) -> (r: u8)
        ensures
            r == ctrl_to_byte(*self),
    {
        (self.base_nametable & 3)
        | (if self.vram_increment { 0x04u8 } else { 0u8 })
        | (if self.sprite_table { 0x08u8 } else { 0u8 })
        | (if self.bg_table { 0x10u8 } else { 0u8 })
        | (if self.sprite_size { 0x20u8 } else { 0u8 })
        | (if self.nmi { 0x80u8 } else { 0u8 })
    }

    pub fn from_byte(byte: u8) -> (r: PpuCtrl)
        ensures
            r == ctrl_from_byte(byte),
    {
        PpuCtrl {
            base_nametable: byte & 0x3,
            vram_increment: byte & 0x4 != 0,
            sprite_table: byte & 0x8 != 0,
            bg_table: byte & 0x10 != 0,
            sprite_size: byte & 0x20 != 0,
            nmi: byte & 0x80 != 0,
        }
    }
}

} // verus!
