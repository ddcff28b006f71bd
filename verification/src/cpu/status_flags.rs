//! The 6502 status register: seven named flags, serialised to a byte with
//! bit 5 (unused) always one, and deserialised with the break bit dropped.

use vstd::prelude::*;

verus! {

/// The CPU status flags. `brk` exists only in the serialised form pushed on
/// the stack; deserialising always clears it.
#[derive(Clone, Copy, PartialEq, Eq, Structural, Debug)]
pub struct CpuFlags {
    pub carry: bool,
    pub zero: bool,
    pub interrupt_disable: bool,
    pub decimal: bool,
    pub brk: bool,
    pub overflow: bool,
    pub negative: bool,
}

/// All flags low: the state the CPU powers up with.
pub open spec fn flags_clear() -> CpuFlags {
    CpuFlags {
        carry: false,
        zero: false,
        interrupt_disable: false,
        decimal: false,
        brk: false,
        overflow: false,
        negative: false,
    }
}

/// The serialised status byte: N V 1 B D I Z C, with the unused bit 5
/// always set.
pub open spec fn flags_to_byte(f: CpuFlags) -> u8 {
    (if f.negative { 0x80u8 } else { 0u8 })
    | (if f.overflow { 0x40u8 } else { 0u8 })
    | 0x20u8
    | (if f.brk { 0x10u8 } else { 0u8 })
    | (if f.decimal { 0x08u8 } else { 0u8 })
    | (if f.interrupt_disable { 0x04u8 } else { 0u8 })
    | (if f.zero { 0x02u8 } else { 0u8 })
    | (if f.carry { 0x01u8 } else { 0u8 })
}

/// Flags recovered from a status byte; the break bit is always dropped.
pub open spec fn flags_from_byte(byte: u8) -> CpuFlags {
    CpuFlags {
        negative: byte & 0x80 != 0,
        overflow: byte & 0x40 != 0,
        brk: false,
        decimal: byte & 0x08 != 0,
        interrupt_disable: byte & 0x04 != 0,
        zero: byte & 0x02 != 0,
        carry: byte & 0x01 != 0,
    }
}

impl Default for CpuFlags {
    fn default() -> (r: CpuFlags)
        ensures
            r == flags_clear(),
    {
        CpuFlags {
            carry: false,
            zero: false,
            interrupt_disable: false,
            decimal: false,
            brk: false,
            overflow: false,
            negative: false,
        }
    }
}

impl CpuFlags {
    pub fn to_byte(&self) -> (r: u8)
        ensures
            r == flags_to_byte(*self),
    {
        (if self.negative { 0x80u8 } else { 0u8 })
        | (if self.overflow { 0x40u8 } else { 0u8 })
        | 0x20u8
        | (if self.brk { 0x10u8 } else { 0u8 })
        | (if self.decimal { 0x08u8 } else { 0u8 })
        | (if self.interrupt_disable { 0x04u8 } else { 0u8 })
        | (if self.zero { 0x02u8 } else { 0u8 })
        | (if self.carry { 0x01u8 } else { 0u8 })
    }

    pub fn from_byte(byte: u8) -> (r: CpuFlags)
        ensures
            r == flags_from_byte(byte),
    {
        CpuFlags {
            negative: byte & 0x80 != 0,
            overflow: byte & 0x40 != 0,
            brk: false,
            decimal: byte & 0x08 != 0,
            interrupt_disable: byte & 0x04 != 0,
            zero: byte & 0x02 != 0,
            carry: byte & 0x01 != 0,
        }
    }
}

/// Law: serialising the flags and deserialising the byte restores every
/// flag, modulo the break bit (always cleared on restore) and the unused
/// bit (absent from the structure).
pub proof fn lemma_flags_byte_round_trip(f: CpuFlags)
    ensures
        flags_from_byte(flags_to_byte(f)) == (CpuFlags { brk: false, ..f }),
{
    let n = f.negative;
    let v = f.overflow;
    let k = f.brk;
    let d = f.decimal;
    let i = f.interrupt_disable;
    let z = f.zero;
    let c = f.carry;
    let b = (if n { 0x80u8 } else { 0u8 })
        | (if v { 0x40u8 } else { 0u8 })
        | 0x20u8
        | (if k { 0x10u8 } else { 0u8 })
        | (if d { 0x08u8 } else { 0u8 })
        | (if i { 0x04u8 } else { 0u8 })
        | (if z { 0x02u8 } else { 0u8 })
        | (if c { 0x01u8 } else { 0u8 });
    assert({
        let b2 = (if n { 0x80u8 } else { 0u8 })
            | (if v { 0x40u8 } else { 0u8 })
            | 0x20u8
            | (if k { 0x10u8 } else { 0u8 })
            | (if d { 0x08u8 } else { 0u8 })
            | (if i { 0x04u8 } else { 0u8 })
            | (if z { 0x02u8 } else { 0u8 })
            | (if c { 0x01u8 } else { 0u8 });
        &&& (b2 & 0x80 != 0) == n
        &&& (b2 & 0x40 != 0) == v
        &&& (b2 & 0x08 != 0) == d
        &&& (b2 & 0x04 != 0) == i
        &&& (b2 & 0x02 != 0) == z
        &&& (b2 & 0x01 != 0) == c
    }) by (bit_vector);
    assert(flags_to_byte(f) == b);
}

} // verus!
