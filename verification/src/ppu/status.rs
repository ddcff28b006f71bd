//! The PPU status register: VBlank, sprite-0 hit and sprite overflow in the
//! top three bits. Reading the register through the CPU bus clears VBlank.

use vstd::prelude::*;

verus! {

#[derive(Clone, Copy, PartialEq, Eq, Structural, Debug)]
pub struct PpuFlags {
    pub v_blank: bool,
    pub sprite0hit: bool,
    pub sprite_overflow: bool,
}

/// All fields low: the register's power-up state.
pub open spec fn status_clear() -> PpuFlags {
    PpuFlags { v_blank: false, sprite0hit: false, sprite_overflow: false }
}

/// The serialised status byte.
pub open spec fn status_to_byte(f: PpuFlags) -> u8 {
    (if f.v_blank { 0x80u8 } else { 0u8 })
    | (if f.sprite0hit { 0x40u8 } else { 0u8 })
    | (if f.sprite_overflow { 0x20u8 } else { 0u8 })
}

/// The register decoded from a status byte.
pub open spec fn status_from_byte(byte: u8) -> PpuFlags {
    PpuFlags {
        v_blank: byte & 0x80 != 0,
        sprite0hit: byte & 0x40 != 0,
        sprite_overflow: byte & 0x20 != 0,
    }
}

impl Default for PpuFlags {
    fn default() -> (r: PpuFlags)
        ensures
            r == status_clear(),
    {
        PpuFlags { v_blank: false, sprite0hit: false, sprite_overflow: false }
    }
}

impl PpuFlags {
    pub fn to_byte(&self) -> (r: u8)
        ensures
            r == status_to_byte(*self),
    {
        (if self.v_blank { 0x80u8 } else { 0u8 })
        | (if self.sprite0hit { 0x40u8 } else { 0u8 })
        | (if self.sprite_overflow { 0x20u8 } else { 0u8 })
    }

    pub fn from_byte(byte: u8) -> (r: PpuFlags)
        ensures
            r == status_from_byte(byte),
    {
        PpuFlags {
            v_blank: byte & 0x80 != 0,
            sprite0hit: byte & 0x40 != 0,
            sprite_overflow: byte & 0x20 != 0,
        }
    }

    /// The serialised byte, with VBlank cleared afterwards: the behaviour of
    /// a CPU read of address 0x2002.
    pub fn read_and_clear_vblank(&mut self) -> (r: u8)
        ensures
            r == status_to_byte(*old(self)),
            *final(self) == (PpuFlags { v_blank: false, ..*old(self) }),
    {
        let byte = self.to_byte();
        self.v_blank = false;
        byte
    }
}

} // verus!
