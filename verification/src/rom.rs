//! A cartridge ROM blob: a byte vector together with the capacity it was
//! declared with. `consume_bytes` fills it from the front of a byte stream,
//! taking at most the declared capacity.

use vstd::prelude::*;

verus! {

/// One ROM region (PRG or CHR). `capacity` is the size the region was
/// declared with by the cartridge header; `contents` never grows past it.
pub struct Rom {
    pub contents: Vec<u8>,
    pub capacity: usize,
}

/// Mathematical model of a [`Rom`]: its bytes and its declared capacity.
pub struct RomV {
    pub bytes: Seq<u8>,
    pub capacity: int,
}

impl View for Rom {
    type V = RomV;

    open spec fn view(&self) -> RomV {
        RomV { bytes: self.contents@, capacity: self.capacity as int }
    }
}

/// The byte a ROM read returns: the byte at `addr`, or `dflt` when `addr`
/// lies past the end (an unmapped read leaves the bus data line unchanged).
pub open spec fn rom_byte_or(r: RomV, addr: u16, dflt: u8) -> u8 {
    if addr < r.bytes.len() {
        r.bytes[addr as int]
    } else {
        dflt
    }
}

impl Rom {
    /// An empty ROM region that will accept up to `capacity` bytes.
    pub fn with_capacity(capacity: usize) -> (r: Rom)
        ensures
            r@.bytes == Seq::<u8>::empty(),
            r@.capacity == capacity as int,
    {
        Rom { contents: Vec::new(), capacity }
    }

    /// Move bytes from the front of `bytes` into this ROM, until the ROM
    /// holds `capacity` bytes or `bytes` runs out.
    pub fn consume_bytes(&mut self, bytes: &mut Vec<u8>)
        ensures
            final(self)@.capacity == old(self)@.capacity,
            ({
                let take = take_len(old(self)@, old(bytes)@.len() as int);
                &&& final(self)@.bytes == old(self)@.bytes + old(bytes)@.take(take)
                &&& final(bytes)@ == old(bytes)@.skip(take)
            }),
    {
        let room = if self.contents.len() < self.capacity {
            self.capacity - self.contents.len()
        } else {
            0
        };
        let take = if room < bytes.len() { room } else { bytes.len() };
        let mut i: usize = 0;
        while i < take
            invariant
                i <= take,
                take <= bytes.len(),
                bytes@ == old(bytes)@,
                self.capacity == old(self).capacity,
                self.contents@ == old(self).contents@ + bytes@.take(i as int),
            decreases take - i,
        {
            let b = bytes[i];
            self.contents.push(b);
            i += 1;
        }
        let mut rest: Vec<u8> = Vec::new();
        let mut j: usize = take;
        while j < bytes.len()
            invariant
                take <= j <= bytes.len(),
                bytes@ == old(bytes)@,
                rest@ == bytes@.subrange(take as int, j as int),
            decreases bytes@.len() - j,
        {
            let b = bytes[j];
            rest.push(b);
            j += 1;
        }
        *bytes = rest;
        proof {
            assert(bytes@ =~= old(bytes)@.skip(take as int));
            assert(self.contents@ =~= old(self).contents@ + old(bytes)@.take(take as int));
        }
    }

    /// The byte at `addr`, or `None` when `addr` lies past the end.
    pub fn read(&self, addr: u16) -> (r: Option<u8>)
        ensures
            r == (if addr < self@.bytes.len() {
                Some(self@.bytes[addr as int])
            } else {
                None::<u8>
            }),
    {
        if (addr as usize) < self.contents.len() {
            Some(self.contents[addr as usize])
        } else {
            None
        }
    }
}

/// How many bytes `consume_bytes` moves: the free room in the ROM, capped by
/// how many bytes the stream offers.
pub open spec fn take_len(r: RomV, available: int) -> int {
    let room = if r.bytes.len() < r.capacity {
        r.capacity - r.bytes.len()
    } else {
        0
    };
    if room < available {
        room
    } else {
        available
    }
}

} // verus!
