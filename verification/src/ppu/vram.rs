//! The 2 KiB of name-table VRAM. The PPU bus folds the 0x2000–0x3EFF
//! window onto these 2 KiB according to the cartridge's mirroring before
//! calling in here.

use crate::cpu::ram::filled_bytes;
use vstd::prelude::*;

verus! {

/// Exactly 2048 bytes of name-table memory.
pub struct VRam {
    contents: Vec<u8>,
}

impl View for VRam {
    type V = Seq<u8>;

    closed spec fn view(&self) -> Seq<u8> {
        self.contents@
    }
}

/// Well-formedness: the backing store holds exactly 2 KiB.
pub open spec fn vram_wf(r: VRam) -> bool {
    r@.len() == 0x800
}

impl Default for VRam {
    /// Fresh name-table memory, zero-filled.
    fn default() -> (r: VRam)
        ensures
            vram_wf(r),
            r@ == Seq::<u8>::new(0x800, |i: int| 0u8),
    {
        VRam { contents: filled_bytes(0x800, 0) }
    }
}

impl VRam {
    /// The byte at `addr`, or `None` when `addr` lies past the 2 KiB.
    pub fn read(&self, addr: u16) -> (r: Option<u8>)
        ensures
            r == (if (addr as int) < self@.len() {
                Some(self@[addr as int])
            } else {
                None::<u8>
            }),
    {
        if (addr as usize) < self.contents.len() {
            Some(self.contents[addr as usize])
        } else {
            None
        }
    }

    /// Store `byte` at `addr`. The caller folds the address first.
    pub fn write(&mut self, addr: u16, byte: u8)
        requires
            (addr as int) < old(self)@.len(),
        ensures
            final(self)@ == old(self)@.update(addr as int, byte),
    {
        self.contents[addr as usize] = byte;
    }
}

} // verus!
