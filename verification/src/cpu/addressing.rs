//! The twelve 6502 addressing forms. The value modes fetch the operand
//! byte; the address modes stop at the effective address, for stores and
//! read-modify-write instructions. Zero-page indexed modes spend an extra
//! internal cycle on the wrap-add; absolute-indexed and post-indexed modes
//! spend one when the effective address crosses a page.

use crate::cpu::{
    cpu_wf, cycle_tr, read_next_tr, read_next_val, read_tr, read_val, Cpu, CpuV,
};
use vstd::prelude::*;

verus! {

/// The operand address of the two-byte absolute form: low byte first.
pub open spec fn absolute_operand(c: CpuV) -> u16 {
    let low = read_next_val(c);
    let high = read_next_val(read_next_tr(c));
    ((high as u16) << 8) | (low as u16)
}

/// Whether an indexed access crosses a page: the high bytes differ.
pub open spec fn page_crossed(base: u16, addr: u16) -> bool {
    base & 0xFF00 != addr & 0xFF00
}

// Immediate: the operand is the next program byte.

pub open spec fn immediate_tr(c: CpuV) -> CpuV {
    read_next_tr(c)
}

pub open spec fn immediate_val(c: CpuV) -> u8 {
    read_next_val(c)
}

// Zero page: a one-byte address into page zero.

pub open spec fn zeropage_tr(c: CpuV) -> CpuV {
    read_tr(read_next_tr(c), read_next_val(c) as u16)
}

pub open spec fn zeropage_val(c: CpuV) -> u8 {
    read_val(read_next_tr(c), read_next_val(c) as u16)
}

// Zero page indexed: the index register is added with 8-bit wrap, at the
// cost of an internal cycle.

pub open spec fn zeropage_x_tr(c: CpuV) -> CpuV {
    let addr = read_next_val(c).wrapping_add(c.reg_x) as u16;
    read_tr(cycle_tr(read_next_tr(c)), addr)
}

pub open spec fn zeropage_x_val(c: CpuV) -> u8 {
    let addr = read_next_val(c).wrapping_add(c.reg_x) as u16;
    read_val(cycle_tr(read_next_tr(c)), addr)
}

pub open spec fn zeropage_y_tr(c: CpuV) -> CpuV {
    let addr = read_next_val(c).wrapping_add(c.reg_y) as u16;
    read_tr(cycle_tr(read_next_tr(c)), addr)
}

pub open spec fn zeropage_y_val(c: CpuV) -> u8 {
    let addr = read_next_val(c).wrapping_add(c.reg_y) as u16;
    read_val(cycle_tr(read_next_tr(c)), addr)
}

// Absolute: a two-byte address, low byte first.

pub open spec fn absolute_tr(c: CpuV) -> CpuV {
    read_tr(read_next_tr(read_next_tr(c)), absolute_operand(c))
}

pub open spec fn absolute_val(c: CpuV) -> u8 {
    read_val(read_next_tr(read_next_tr(c)), absolute_operand(c))
}

// Absolute indexed: the index register is added with 16-bit wrap; a page
// crossing costs one extra cycle.

pub open spec fn absolute_x_tr(c: CpuV) -> CpuV {
    let base = absolute_operand(c);
    let addr = base.wrapping_add(c.reg_x as u16);
    let c2 = read_next_tr(read_next_tr(c));
    let c3 = if page_crossed(base, addr) {
        cycle_tr(c2)
    } else {
        c2
    };
    read_tr(c3, addr)
}

pub open spec fn absolute_x_val(c: CpuV) -> u8 {
    let base = absolute_operand(c);
    let addr = base.wrapping_add(c.reg_x as u16);
    read_val(read_next_tr(read_next_tr(c)), addr)
}

pub open spec fn absolute_y_tr(c: CpuV) -> CpuV {
    let base = absolute_operand(c);
    let addr = base.wrapping_add(c.reg_y as u16);
    let c2 = read_next_tr(read_next_tr(c));
    let c3 = if page_crossed(base, addr) {
        cycle_tr(c2)
    } else {
        c2
    };
    read_tr(c3, addr)
}

pub open spec fn absolute_y_val(c: CpuV) -> u8 {
    let base = absolute_operand(c);
    let addr = base.wrapping_add(c.reg_y as u16);
    read_val(read_next_tr(read_next_tr(c)), addr)
}

// Indirect pre-indexed: a zero-page pointer offset by X, read with 8-bit
// wrap on the second pointer byte.

pub open spec fn indirect_x_pointer(c: CpuV) -> u8 {
    read_next_val(c).wrapping_add(c.reg_x)
}

pub open spec fn indirect_x_operand(c: CpuV) -> u16 {
    let ptr = indirect_x_pointer(c);
    let c2 = cycle_tr(read_next_tr(c));
    let low = read_val(c2, ptr as u16);
    let high = read_val(read_tr(c2, ptr as u16), ptr.wrapping_add(1) as u16);
    ((high as u16) << 8) | (low as u16)
}

pub open spec fn indirect_x_steps(c: CpuV) -> CpuV {
    let ptr = indirect_x_pointer(c);
    let c2 = cycle_tr(read_next_tr(c));
    read_tr(read_tr(c2, ptr as u16), ptr.wrapping_add(1) as u16)
}

pub open spec fn indirect_x_tr(c: CpuV) -> CpuV {
    read_tr(indirect_x_steps(c), indirect_x_operand(c))
}

pub open spec fn indirect_x_val(c: CpuV) -> u8 {
    read_val(indirect_x_steps(c), indirect_x_operand(c))
}

// Indirect post-indexed: a zero-page pointer is read (8-bit wrap on its
// second byte), then Y is added with 16-bit wrap; a page crossing costs
// one extra cycle.

pub open spec fn indirect_y_base(c: CpuV) -> u16 {
    let zp = read_next_val(c);
    let c1 = read_next_tr(c);
    let low = read_val(c1, zp as u16);
    let high = read_val(read_tr(c1, zp as u16), zp.wrapping_add(1) as u16);
    ((high as u16) << 8) | (low as u16)
}

pub open spec fn indirect_y_steps(c: CpuV) -> CpuV {
    let zp = read_next_val(c);
    let c1 = read_next_tr(c);
    read_tr(read_tr(c1, zp as u16), zp.wrapping_add(1) as u16)
}

pub open spec fn indirect_y_tr(c: CpuV) -> CpuV {
    let base = indirect_y_base(c);
    let addr = base.wrapping_add(c.reg_y as u16);
    let c3 = indirect_y_steps(c);
    let c4 = if page_crossed(base, addr) {
        cycle_tr(c3)
    } else {
        c3
    };
    read_tr(c4, addr)
}

pub open spec fn indirect_y_val(c: CpuV) -> u8 {
    let base = indirect_y_base(c);
    let addr = base.wrapping_add(c.reg_y as u16);
    read_val(indirect_y_steps(c), addr)
}

// Address-only forms, for stores and read-modify-write instructions.

pub open spec fn zeropage_addr_tr(c: CpuV) -> CpuV {
    read_next_tr(c)
}

pub open spec fn zeropage_addr_val(c: CpuV) -> u16 {
    read_next_val(c) as u16
}

pub open spec fn zeropage_x_addr_tr(c: CpuV) -> CpuV {
    cycle_tr(read_next_tr(c))
}

pub open spec fn zeropage_x_addr_val(c: CpuV) -> u16 {
    read_next_val(c).wrapping_add(c.reg_x) as u16
}

pub open spec fn zeropage_y_addr_tr(c: CpuV) -> CpuV {
    cycle_tr(read_next_tr(c))
}

pub open spec fn zeropage_y_addr_val(c: CpuV) -> u16 {
    read_next_val(c).wrapping_add(c.reg_y) as u16
}

pub open spec fn absolute_addr_tr(c: CpuV) -> CpuV {
    read_next_tr(read_next_tr(c))
}

pub open spec fn absolute_addr_val(c: CpuV) -> u16 {
    absolute_operand(c)
}

pub open spec fn absolute_x_addr_val(c: CpuV) -> u16 {
    absolute_operand(c).wrapping_add(c.reg_x as u16)
}

pub open spec fn absolute_x_addr_tr(c: CpuV) -> CpuV {
    let c2 = read_next_tr(read_next_tr(c));
    if page_crossed(absolute_operand(c), absolute_x_addr_val(c)) {
        cycle_tr(c2)
    } else {
        c2
    }
}

pub open spec fn absolute_y_addr_val(c: CpuV) -> u16 {
    absolute_operand(c).wrapping_add(c.reg_y as u16)
}

pub open spec fn absolute_y_addr_tr(c: CpuV) -> CpuV {
    let c2 = read_next_tr(read_next_tr(c));
    if page_crossed(absolute_operand(c), absolute_y_addr_val(c)) {
        cycle_tr(c2)
    } else {
        c2
    }
}

pub open spec fn indirect_x_addr_tr(c: CpuV) -> CpuV {
    indirect_x_steps(c)
}

pub open spec fn indirect_x_addr_val(c: CpuV) -> u16 {
    indirect_x_operand(c)
}

pub open spec fn indirect_y_addr_val(c: CpuV) -> u16 {
    indirect_y_base(c).wrapping_add(c.reg_y as u16)
}

pub open spec fn indirect_y_addr_tr(c: CpuV) -> CpuV {
    let c3 = indirect_y_steps(c);
    if page_crossed(indirect_y_base(c), indirect_y_addr_val(c)) {
        cycle_tr(c3)
    } else {
        c3
    }
}

impl Cpu {
    /// Immediate operand.
    pub fn immediate(&mut self) -> (r: u8)
        requires
            cpu_wf(old(self)@),
        ensures
            cpu_wf(final(self)@),
            final(self)@ == immediate_tr(old(self)@),
            r == immediate_val(old(self)@),
    {
        self.read_next()
    }

    /// Zero-page operand.
    pub fn zeropage(&mut self) -> (r: u8)
        requires
            cpu_wf(old(self)@),
        ensures
            cpu_wf(final(self)@),
            final(self)@ == zeropage_tr(old(self)@),
            r == zeropage_val(old(self)@),
    {
        let addr = self.read_next();
        self.read(addr as u16)
    }

    /// Zero-page, X-indexed operand.
    pub fn zeropage_x(&mut self) -> (r: u8)
        requires
            cpu_wf(old(self)@),
        ensures
            cpu_wf(final(self)@),
            final(self)@ == zeropage_x_tr(old(self)@),
            r == zeropage_x_val(old(self)@),
    {
        let operand = self.read_next();
        let addr = operand.wrapping_add(self.reg_x) as u16;
        self.cycle();
        self.read(addr)
    }

    /// Zero-page, Y-indexed operand.
    pub fn zeropage_y(&mut self) -> (r: u8)
        requires
            cpu_wf(old(self)@),
        ensures
            cpu_wf(final(self)@),
            final(self)@ == zeropage_y_tr(old(self)@),
            r == zeropage_y_val(old(self)@),
    {
        let operand = self.read_next();
        let addr = operand.wrapping_add(self.reg_y) as u16;
        self.cycle();
        self.read(addr)
    }

    /// Absolute operand.
    pub fn absolute(&mut self) -> (r: u8)
        requires
            cpu_wf(old(self)@),
        ensures
            cpu_wf(final(self)@),
            final(self)@ == absolute_tr(old(self)@),
            r == absolute_val(old(self)@),
    {
        let low = self.read_next();
        let high = self.read_next();
        let addr = ((high as u16) << 8) | (low as u16);
        self.read(addr)
    }

    /// Absolute, X-indexed operand.
    pub fn absolute_x(&mut self) -> (r: u8)
        requires
            cpu_wf(old(self)@),
        ensures
            cpu_wf(final(self)@),
            final(self)@ == absolute_x_tr(old(self)@),
            r == absolute_x_val(old(self)@),
    {
        let low = self.read_next();
        let high = self.read_next();
        let base_addr = ((high as u16) << 8) | (low as u16);
        let addr = base_addr.wrapping_add(self.reg_x as u16);
        if base_addr & 0xFF00 != addr & 0xFF00 {
            self.cycle();
        }
        self.read(addr)
    }

    /// Absolute, Y-indexed operand.
    pub fn absolute_y(&mut self) -> (r: u8)
        requires
            cpu_wf(old(self)@),
        ensures
            cpu_wf(final(self)@),
            final(self)@ == absolute_y_tr(old(self)@),
            r == absolute_y_val(old(self)@),
    {
        let low = self.read_next();
        let high = self.read_next();
        let base_addr = ((high as u16) << 8) | (low as u16);
        let addr = base_addr.wrapping_add(self.reg_y as u16);
        if base_addr & 0xFF00 != addr & 0xFF00 {
            self.cycle();
        }
        self.read(addr)
    }

    /// Indirect, pre-indexed operand.
    pub fn indirect_x(&mut self) -> (r: u8)
        requires
            cpu_wf(old(self)@),
        ensures
            cpu_wf(final(self)@),
            final(self)@ == indirect_x_tr(old(self)@),
            r == indirect_x_val(old(self)@),
    {
        let zp = self.read_next();
        let ptr = zp.wrapping_add(self.reg_x);
        self.cycle();
        let low = self.read(ptr as u16);
        let high = self.read(ptr.wrapping_add(1) as u16);
        self.read(((high as u16) << 8) | (low as u16))
    }

    /// Indirect, post-indexed operand.
    pub fn indirect_y(&mut self) -> (r: u8)
        requires
            cpu_wf(old(self)@),
        ensures
            cpu_wf(final(self)@),
            final(self)@ == indirect_y_tr(old(self)@),
            r == indirect_y_val(old(self)@),
    {
        let zp = self.read_next();
        let low = self.read(zp as u16);
        let high = self.read(zp.wrapping_add(1) as u16);
        let base_addr = ((high as u16) << 8) | (low as u16);
        let addr = base_addr.wrapping_add(self.reg_y as u16);
        if base_addr & 0xFF00 != addr & 0xFF00 {
            self.cycle();
        }
        self.read(addr)
    }

    /// Zero-page effective address.
    pub fn zeropage_addr(&mut self) -> (r: u16)
        requires
            cpu_wf(old(self)@),
        ensures
            cpu_wf(final(self)@),
            final(self)@ == zeropage_addr_tr(old(self)@),
            r == zeropage_addr_val(old(self)@),
    {
        let addr = self.read_next();
        addr as u16
    }

    /// Zero-page, X-indexed effective address.
    pub fn zeropage_x_addr(&mut self) -> (r: u16)
        requires
            cpu_wf(old(self)@),
        ensures
            cpu_wf(final(self)@),
            final(self)@ == zeropage_x_addr_tr(old(self)@),
            r == zeropage_x_addr_val(old(self)@),
    {
        let operand = self.read_next();
        let addr = operand.wrapping_add(self.reg_x) as u16;
        self.cycle();
        addr
    }

    /// Zero-page, Y-indexed effective address.
    pub fn zeropage_y_addr(&mut self) -> (r: u16)
        requires
            cpu_wf(old(self)@),
        ensures
            cpu_wf(final(self)@),
            final(self)@ == zeropage_y_addr_tr(old(self)@),
            r == zeropage_y_addr_val(old(self)@),
    {
        let operand = self.read_next();
        let addr = operand.wrapping_add(self.reg_y) as u16;
        self.cycle();
        addr
    }

    /// Absolute effective address.
    pub fn absolute_addr(&mut self) -> (r: u16)
        requires
            cpu_wf(old(self)@),
        ensures
            cpu_wf(final(self)@),
            final(self)@ == absolute_addr_tr(old(self)@),
            r == absolute_addr_val(old(self)@),
    {
        let low = self.read_next();
        let high = self.read_next();
        ((high as u16) << 8) | (low as u16)
    }

    /// Absolute, X-indexed effective address.
    pub fn absolute_x_addr(&mut self) -> (r: u16)
        requires
            cpu_wf(old(self)@),
        ensures
            cpu_wf(final(self)@),
            final(self)@ == absolute_x_addr_tr(old(self)@),
            r == absolute_x_addr_val(old(self)@),
    {
        let low = self.read_next();
        let high = self.read_next();
        let base_addr = ((high as u16) << 8) | (low as u16);
        let addr = base_addr.wrapping_add(self.reg_x as u16);
        if base_addr & 0xFF00 != addr & 0xFF00 {
            self.cycle();
        }
        addr
    }

    /// Absolute, Y-indexed effective address.
    pub fn absolute_y_addr(&mut self) -> (r: u16)
        requires
            cpu_wf(old(self)@),
        ensures
            cpu_wf(final(self)@),
            final(self)@ == absolute_y_addr_tr(old(self)@),
            r == absolute_y_addr_val(old(self)@),
    {
        let low = self.read_next();
        let high = self.read_next();
        let base_addr = ((high as u16) << 8) | (low as u16);
        let addr = base_addr.wrapping_add(self.reg_y as u16);
        if base_addr & 0xFF00 != addr & 0xFF00 {
            self.cycle();
        }
        addr
    }

    /// Indirect, pre-indexed effective address.
    pub fn indirect_x_addr(&mut self) -> (r: u16)
        requires
            cpu_wf(old(self)@),
        ensures
            cpu_wf(final(self)@),
            final(self)@ == indirect_x_addr_tr(old(self)@),
            r == indirect_x_addr_val(old(self)@),
    {
        let zp = self.read_next();
        let ptr = zp.wrapping_add(self.reg_x);
        self.cycle();
        let low = self.read(ptr as u16);
        let high = self.read(ptr.wrapping_add(1) as u16);
        ((high as u16) << 8) | (low as u16)
    }

    /// Indirect, post-indexed effective address.
    pub fn indirect_y_addr(&mut self) -> (r: u16)
        requires
            cpu_wf(old(self)@),
        ensures
            cpu_wf(final(self)@),
            final(self)@ == indirect_y_addr_tr(old(self)@),
            r == indirect_y_addr_val(old(self)@),
    {
        let zp = self.read_next();
        let low = self.read(zp as u16);
        let high = self.read(zp.wrapping_add(1) as u16);
        let base_addr = ((high as u16) << 8) | (low as u16);
        let addr = base_addr.wrapping_add(self.reg_y as u16);
        if base_addr & 0xFF00 != addr & 0xFF00 {
            self.cycle();
        }
        addr
    }
}

} // verus!
