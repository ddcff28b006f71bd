//! The PPU mask register: background and sprite masking and rendering
//! enables, in the low four bits of the serialised byte.

use vstd::prelude::*;

verus! {

#[derive(Clone, Copy, PartialEq, Eq, Structural, Debug)]
pub struct PpuMask {
    pub mask_bg: bool,
    pub mask_sprites: bool,
    pub render_bg: bool,
    pub render_sprites: bool,
}

/// All fields low: the register's power-up state.
pub open spec fn mask_clear() -> PpuMask {
    PpuMask { mask_bg: false, mask_sprites: false, render_bg: false, render_sprites: false }
}

/// The serialised mask byte.
pub open spec fn mask_to_byte(m: PpuMask) -> u8 {
    (if m.mask_bg { 0x01u8 } else { 0u8 })
    | (if m.mask_sprites { 0x02u8 } else { 0u8 })
    | (if m.render_bg { 0x04u8 } else { 0u8 })
    | (if m.render_sprites { 0x08u8 } else { 0u8 })
}

/// The register decoded from a mask byte.
pub open spec fn mask_from_byte(byte: u8) -> PpuMask {
    PpuMask {
        mask_bg: byte & 0x1 != 0,
        mask_sprites: byte & 0x2 != 0,
        render_bg: byte & 0x4 != 0,
        render_sprites: byte & 0x8 != 0,
    }
}

impl Default for PpuMask {
    fn default() -> (r: PpuMask)
        ensures
            r == mask_clear(),
    {
        PpuMask { mask_bg: false, mask_sprites: false, render_bg: false, render_sprites: false }
    }
}

impl PpuMask {
    pub fn to_byte(&self) -> (r: u8)
        ensures
            r == mask_to_byte(*self),
    {
        (if self.mask_bg { 0x01u8 } else { 0u8 })
        | (if self.mask_sprites { 0x02u8 } else { 0u8 })
        | (if self.render_bg { 0x04u8 } else { 0u8 })
        | (if self.render_sprites { 0x08u8 } else { 0u8 })
    }

    pub fn from_byte(byte: u8) -> (r: PpuMask)
        ensures
            r == mask_from_byte(byte),
    {
        PpuMask {
            mask_bg: byte & 0x1 != 0,
            mask_sprites: byte & 0x2 != 0,
            render_bg: byte & 0x4 != 0,
            render_sprites: byte & 0x8 != 0,
        }
    }
}

} // verus!
