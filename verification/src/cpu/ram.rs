//! The 2 KiB of work RAM visible to the CPU. Mirroring of the full
//! 0x0000–0x1FFF window onto these 2 KiB is the CPU bus's job: the bus
//! reduces an address modulo 0x800 before calling in here.

use vstd::prelude::*;

verus! {

/// Exactly 2048 bytes of CPU scratch memory.
pub struct Ram {
    contents: Vec<u8>,
}

impl View for Ram {
    type V = Seq<u8>;

    closed spec fn view(&self) -> Seq<u8> {
        self.contents@
    }
}

/// Well-formedness: the backing store holds exactly 2 KiB.
pub open spec fn ram_wf(r: Ram) -> bool {
    r@.len() == 0x800
}

/// A byte vector of length `n` holding `fill` everywhere.
pub fn filled_bytes(n: usize, fill: u8) -> (r: Vec<u8>)
    ensures
        r@ == Seq::<u8>::new(n as nat, |i: int| fill),
{
    let mut v: Vec<u8> = Vec::new();
    let mut i: usize = 0;
    while i < n
        invariant
            i <= n,
            v@ == Seq::<u8>::new(i as nat, |j: int| fill),
        decreases n - i,
    {
        v.push(fill);
        i += 1;
        proof {
            assert(v@ =~= Seq::<u8>::new(i as nat, |j: int| fill));
        }
    }
    v
}

impl Default for Ram {
    /// Fresh work RAM, zero-filled.
    fn default() -> (r: Ram)
        ensures
            ram_wf(r),
            r@ == Seq::<u8>::new(0x800, |i: int| 0u8),
    {
        Ram { contents: filled_bytes(0x800, 0) }
    }
}

impl Ram {
    /// The byte at `addr`, or `None` when `addr` lies past the 2 KiB.
    pub fn read(&self, addr: u16) -> (r: Option<u8>)
        ensures
            r == (if (addr as int) < self@.len() {
                Some(self@[addr as int])
            } else {
                None::<u8>
            }),
    {
        if (addr as usize) < self.contents.len() {
            Some(self.contents[addr as usize])
        } else {
            None
        }
    }

    /// Store `byte` at `addr`. The caller reduces the address first.
    pub fn write(&mut self, addr: u16, byte: u8)
        requires
            (addr as int) < old(self)@.len(),
        ensures
            final(self)@ == old(self)@.update(addr as int, byte),
    {
        self.contents[addr as usize] = byte;
    }
}

} // verus!
