//! The official 6502 instruction set. Every instruction that writes A, X
//! or Y recomputes the zero and negative flags from the written byte:
//! zero exactly when the byte is 0, negative exactly when bit 7 is set.

use crate::cpu::addressing::page_crossed;
use crate::cpu::status_flags::{flags_from_byte, flags_to_byte, CpuFlags};
use crate::cpu::bus::BusV;
use crate::cpu::{
    cpu_wf, cycle_tr, pull_tr, pull_val, push_tr, read_next_tr, read_next_val, read_tr,
    read_val, write_tr, Cpu, CpuV,
};
use vstd::prelude::*;

verus! {

/// Bit 7 of a byte is set exactly when the byte is at least 0x80.
pub proof fn lemma_bit7(v: u8)
    ensures
        (v & 0x80 != 0) == (v > 127),
{
    assert((v & 0x80 != 0) == (v > 127)) by (bit_vector);
}

/// A byte shifted right once loses its top bit.
pub proof fn lemma_shr1_bound(v: u8)
    ensures
        v >> 1 < 0x80,
{
    assert(v >> 1 < 0x80) by (bit_vector);
}

/// Zero and negative recomputed from a written byte; the other flags keep
/// their values.
pub open spec fn zn_flags(f: CpuFlags, v: u8) -> CpuFlags {
    CpuFlags { zero: v == 0, negative: v > 127, ..f }
}

/// The 9-bit sum ADC forms: A + operand + carry.
pub open spec fn adc_sum(a: u8, operand: u8, carry: bool) -> int {
    a + operand + (if carry { 1int } else { 0int })
}

/// The byte ADC leaves in A: the low 8 bits of the 9-bit sum.
pub open spec fn adc_result(a: u8, operand: u8, carry: bool) -> u8 {
    (adc_sum(a, operand, carry) % 256) as u8
}

/// The ADC overflow flag: set exactly when the sign bits of both addends
/// agree and the result's sign differs.
pub open spec fn adc_overflow(a: u8, operand: u8, carry: bool) -> bool {
    ((!(a ^ operand) & (a ^ adc_result(a, operand, carry))) & 0x80) != 0
}

/// A byte reinterpreted as a signed two's-complement value.
pub open spec fn signed8(b: u8) -> int {
    if b >= 0x80 {
        b - 256
    } else {
        b as int
    }
}

/// Law: the ADC overflow flag is exactly signed overflow — for every A,
/// operand and incoming carry, the flag is set precisely when the signed
/// sum falls outside [-128, 127].
pub proof fn lemma_adc_overflow(a: u8, operand: u8, carry: bool)
    ensures
        adc_overflow(a, operand, carry)
            == !(-128 <= signed8(a) + signed8(operand) + (if carry { 1int } else { 0int })
                <= 127),
{
    assert(((!(a ^ operand) & (a ^ (((a + operand + (if carry { 1int } else { 0int })) % 256)
        as u8))) & 0x80 != 0)
        == !(-128 <= (a - (if a >= 0x80 { 256int } else { 0int }))
            + (operand - (if operand >= 0x80 { 256int } else { 0int }))
            + (if carry { 1int } else { 0int }) <= 127)) by (bit_vector);
}

pub open spec fn adc_tr(c: CpuV, operand: u8) -> CpuV {
    let res = adc_result(c.reg_a, operand, c.flags.carry);
    CpuV {
        reg_a: res,
        flags: CpuFlags {
            carry: adc_sum(c.reg_a, operand, c.flags.carry) > 0xFF,
            overflow: adc_overflow(c.reg_a, operand, c.flags.carry),
            zero: res == 0,
            negative: res > 127,
            ..c.flags
        },
        ..c
    }
}

/// The borrow SBC subtracts: one when carry is clear.
pub open spec fn sbc_borrow(carry: bool) -> u8 {
    if carry {
        0
    } else {
        1
    }
}

/// The byte SBC leaves in A: A − operand − borrow with 8-bit wrap.
pub open spec fn sbc_result(a: u8, operand: u8, carry: bool) -> u8 {
    a.wrapping_sub(operand).wrapping_sub(sbc_borrow(carry))
}

pub open spec fn sbc_tr(c: CpuV, operand: u8) -> CpuV {
    let res = sbc_result(c.reg_a, operand, c.flags.carry);
    CpuV {
        reg_a: res,
        flags: CpuFlags {
            carry: c.reg_a - operand - sbc_borrow(c.flags.carry) >= 0,
            zero: res == 0,
            negative: (res & 0x80) != 0,
            overflow: ((c.reg_a ^ operand) & 0x80 != 0) && ((c.reg_a ^ res) & 0x80 != 0),
            ..c.flags
        },
        ..c
    }
}

pub open spec fn and_tr(c: CpuV, operand: u8) -> CpuV {
    let res = c.reg_a & operand;
    CpuV { reg_a: res, flags: zn_flags(c.flags, res), ..c }
}

pub open spec fn eor_tr(c: CpuV, operand: u8) -> CpuV {
    let res = c.reg_a ^ operand;
    CpuV { reg_a: res, flags: zn_flags(c.flags, res), ..c }
}

pub open spec fn ora_tr(c: CpuV, operand: u8) -> CpuV {
    let res = c.reg_a | operand;
    CpuV { reg_a: res, flags: zn_flags(c.flags, res), ..c }
}

pub open spec fn asl_a_tr(c: CpuV) -> CpuV {
    let res = c.reg_a << 1;
    cycle_tr(CpuV {
        reg_a: res,
        flags: CpuFlags { carry: (c.reg_a & 0x80) != 0, zero: res == 0, negative: res > 127, ..c.flags },
        ..c
    })
}

/// Memory ASL: read-modify-write, one extra internal cycle. Zero and
/// negative derive from the shifted byte that is written back.
pub open spec fn asl_tr(c: CpuV, addr: u16) -> CpuV {
    let target = read_val(c, addr);
    let result = target << 1;
    let c1 = read_tr(c, addr);
    let c2 = cycle_tr(CpuV { flags: CpuFlags { carry: (target & 0x80) != 0, ..c1.flags }, ..c1 });
    let c3 = write_tr(c2, addr, result);
    CpuV { flags: CpuFlags { zero: result == 0, negative: result > 127, ..c3.flags }, ..c3 }
}

pub open spec fn lsr_a_tr(c: CpuV) -> CpuV {
    let res = c.reg_a >> 1;
    cycle_tr(CpuV {
        reg_a: res,
        flags: CpuFlags { carry: (c.reg_a & 0x01) != 0, zero: res == 0, negative: false, ..c.flags },
        ..c
    })
}

/// Memory LSR: read-modify-write, one extra internal cycle.
pub open spec fn lsr_tr(c: CpuV, addr: u16) -> CpuV {
    let value = read_val(c, addr);
    let c1 = read_tr(c, addr);
    let c2 = cycle_tr(CpuV { flags: CpuFlags { carry: (value & 0x01) != 0, ..c1.flags }, ..c1 });
    let result = value >> 1;
    let c3 = CpuV { flags: CpuFlags { zero: result == 0, negative: false, ..c2.flags }, ..c2 };
    write_tr(c3, addr, result)
}

pub open spec fn rol_a_tr(c: CpuV) -> CpuV {
    let res = (c.reg_a << 1) | (if c.flags.carry { 1u8 } else { 0u8 });
    cycle_tr(CpuV {
        reg_a: res,
        flags: CpuFlags {
            carry: (c.reg_a & 0x80) != 0,
            zero: res == 0,
            negative: (res & 0x80) != 0,
            ..c.flags
        },
        ..c
    })
}

/// Memory ROL: read-modify-write, one extra internal cycle.
pub open spec fn rol_tr(c: CpuV, addr: u16) -> CpuV {
    let value = read_val(c, addr);
    let c1 = read_tr(c, addr);
    let res = (value << 1) | (if c.flags.carry { 1u8 } else { 0u8 });
    let c2 = cycle_tr(CpuV { flags: CpuFlags { carry: (value & 0x80) != 0, ..c1.flags }, ..c1 });
    let c3 = write_tr(c2, addr, res);
    CpuV { flags: CpuFlags { zero: res == 0, negative: (res & 0x80) != 0, ..c3.flags }, ..c3 }
}

pub open spec fn ror_a_tr(c: CpuV) -> CpuV {
    let res = (c.reg_a >> 1) | ((if c.flags.carry { 1u8 } else { 0u8 }) << 7);
    cycle_tr(CpuV {
        reg_a: res,
        flags: CpuFlags {
            carry: (c.reg_a & 0x01) != 0,
            zero: res == 0,
            negative: (res & 0x80) != 0,
            ..c.flags
        },
        ..c
    })
}

/// Memory ROR: read-modify-write, one extra internal cycle.
pub open spec fn ror_tr(c: CpuV, addr: u16) -> CpuV {
    let value = read_val(c, addr);
    let c1 = read_tr(c, addr);
    let res = (value >> 1) | ((if c.flags.carry { 1u8 } else { 0u8 }) << 7);
    let c2 = cycle_tr(CpuV { flags: CpuFlags { carry: (value & 0x01) != 0, ..c1.flags }, ..c1 });
    let c3 = write_tr(c2, addr, res);
    CpuV { flags: CpuFlags { zero: res == 0, negative: (res & 0x80) != 0, ..c3.flags }, ..c3 }
}

pub open spec fn bit_tr(c: CpuV, operand: u8) -> CpuV {
    CpuV {
        flags: CpuFlags {
            zero: (c.reg_a & operand) == 0,
            negative: (operand & 0x80) != 0,
            overflow: (operand & 0x40) != 0,
            ..c.flags
        },
        ..c
    }
}

/// The relative branch displacement, sign-extended to sixteen bits.
pub open spec fn branch_offset(b: u8) -> u16 {
    if b < 0x80 {
        b as u16
    } else {
        (0xFF00 + b) as u16
    }
}

/// A conditional branch: the displacement byte is always fetched; a taken
/// branch costs one extra cycle, and one more when it crosses a page.
pub open spec fn branch_tr(c: CpuV, flag: bool) -> CpuV {
    let c1 = read_next_tr(c);
    let target = c1.counter.wrapping_add(branch_offset(read_next_val(c)));
    if flag {
        let c2 = cycle_tr(CpuV { counter: target, ..c1 });
        if page_crossed(c1.counter, target) {
            cycle_tr(c2)
        } else {
            c2
        }
    } else {
        c1
    }
}

/// Law: branch cost. An untaken branch spends exactly one cycle past the
/// operand fetch's; a taken branch spends one more, and a taken branch
/// that crosses a page one more again.
pub proof fn lemma_branch_cost(c: CpuV, flag: bool)
    requires
        c.cycles + 3 <= usize::MAX,
    ensures
        ({
            let c1 = read_next_tr(c);
            let target = c1.counter.wrapping_add(branch_offset(read_next_val(c)));
            let r = branch_tr(c, flag);
            &&& !flag ==> r.cycles == c.cycles + 1
            &&& flag && !page_crossed(c1.counter, target) ==> r.cycles == c.cycles + 2
            &&& flag && page_crossed(c1.counter, target) ==> r.cycles == c.cycles + 3
        }),
{
}

pub open spec fn brk_tr(c: CpuV) -> CpuV {
    let next = c.counter.wrapping_add(1);
    let c1 = push_tr(c, (next >> 8) as u8);
    let c2 = push_tr(c1, (next & 0xFF) as u8);
    let c3 = push_tr(c2, flags_to_byte(CpuFlags { brk: true, ..c.flags }));
    let c4 = CpuV { flags: CpuFlags { interrupt_disable: true, ..c3.flags }, ..c3 };
    let low = read_val(c4, 0xFFFE);
    let c5 = read_tr(c4, 0xFFFE);
    let high = read_val(c5, 0xFFFF);
    let c6 = read_tr(c5, 0xFFFF);
    cycle_tr(CpuV { counter: ((high as u16) << 8) | (low as u16), ..c6 })
}

pub open spec fn compare_flags(c: CpuV, reg: u8, operand: u8) -> CpuFlags {
    let res = reg.wrapping_sub(operand);
    CpuFlags { carry: reg >= operand, zero: res == 0, negative: res > 127, ..c.flags }
}

pub open spec fn cmp_tr(c: CpuV, operand: u8) -> CpuV {
    CpuV { flags: compare_flags(c, c.reg_a, operand), ..c }
}

pub open spec fn cpx_tr(c: CpuV, operand: u8) -> CpuV {
    CpuV { flags: compare_flags(c, c.reg_x, operand), ..c }
}

pub open spec fn cpy_tr(c: CpuV, operand: u8) -> CpuV {
    CpuV { flags: compare_flags(c, c.reg_y, operand), ..c }
}

/// Memory decrement: read-modify-write, one extra internal cycle.
pub open spec fn dec_tr(c: CpuV, addr: u16) -> CpuV {
    let res = read_val(c, addr).wrapping_sub(1);
    let c1 = cycle_tr(read_tr(c, addr));
    let c2 = write_tr(c1, addr, res);
    CpuV { flags: zn_flags(c2.flags, res), ..c2 }
}

/// Memory increment: read-modify-write, one extra internal cycle.
pub open spec fn inc_tr(c: CpuV, addr: u16) -> CpuV {
    let res = read_val(c, addr).wrapping_add(1);
    let c1 = cycle_tr(read_tr(c, addr));
    let c2 = write_tr(c1, addr, res);
    CpuV { flags: zn_flags(c2.flags, res), ..c2 }
}

pub open spec fn dex_tr(c: CpuV) -> CpuV {
    let res = c.reg_x.wrapping_sub(1);
    cycle_tr(CpuV { reg_x: res, flags: zn_flags(c.flags, res), ..c })
}

pub open spec fn dey_tr(c: CpuV) -> CpuV {
    let res = c.reg_y.wrapping_sub(1);
    cycle_tr(CpuV { reg_y: res, flags: zn_flags(c.flags, res), ..c })
}

pub open spec fn inx_tr(c: CpuV) -> CpuV {
    let res = c.reg_x.wrapping_add(1);
    cycle_tr(CpuV { reg_x: res, flags: zn_flags(c.flags, res), ..c })
}

pub open spec fn iny_tr(c: CpuV) -> CpuV {
    let res = c.reg_y.wrapping_add(1);
    cycle_tr(CpuV { reg_y: res, flags: zn_flags(c.flags, res), ..c })
}

pub open spec fn jmp_absolute_tr(c: CpuV) -> CpuV {
    let c2 = read_next_tr(read_next_tr(c));
    CpuV { counter: crate::cpu::addressing::absolute_operand(c), ..c2 }
}

pub open spec fn jmp_indirect_tr(c: CpuV) -> CpuV {
    let low_byte = read_next_val(c);
    let ptr = crate::cpu::addressing::absolute_operand(c);
    let c2 = read_next_tr(read_next_tr(c));
    let target_low = read_val(c2, ptr);
    let c3 = read_tr(c2, ptr);
    let high_addr = if low_byte == 0xFF {
        ptr & 0xFF00
    } else {
        ptr.wrapping_add(1)
    };
    let target_high = read_val(c3, high_addr);
    let c4 = read_tr(c3, high_addr);
    CpuV { counter: ((target_high as u16) << 8) | (target_low as u16), ..c4 }
}

pub open spec fn jsr_tr(c: CpuV) -> CpuV {
    let addr = crate::cpu::addressing::absolute_operand(c);
    let c2 = read_next_tr(read_next_tr(c));
    let ret = c2.counter.wrapping_sub(1);
    let c3 = push_tr(c2, (ret >> 8) as u8);
    let c4 = push_tr(c3, (ret & 0xFF) as u8);
    cycle_tr(CpuV { counter: addr, ..c4 })
}

pub open spec fn lda_tr(c: CpuV, operand: u8) -> CpuV {
    CpuV { reg_a: operand, flags: zn_flags(c.flags, operand), ..c }
}

pub open spec fn ldx_tr(c: CpuV, operand: u8) -> CpuV {
    CpuV { reg_x: operand, flags: zn_flags(c.flags, operand), ..c }
}

pub open spec fn ldy_tr(c: CpuV, operand: u8) -> CpuV {
    CpuV { reg_y: operand, flags: zn_flags(c.flags, operand), ..c }
}

pub open spec fn nop_tr(c: CpuV) -> CpuV {
    cycle_tr(cycle_tr(c))
}

pub open spec fn pha_tr(c: CpuV) -> CpuV {
    push_tr(cycle_tr(c), c.reg_a)
}

pub open spec fn php_tr(c: CpuV) -> CpuV {
    push_tr(cycle_tr(c), flags_to_byte(CpuFlags { brk: true, ..c.flags }))
}

pub open spec fn pla_tr(c: CpuV) -> CpuV {
    let c1 = cycle_tr(c);
    let v = pull_val(c1);
    let c2 = pull_tr(c1);
    CpuV { reg_a: v, flags: zn_flags(c2.flags, v), ..c2 }
}

pub open spec fn plp_tr(c: CpuV) -> CpuV {
    let c1 = cycle_tr(c);
    let v = pull_val(c1);
    let c2 = pull_tr(c1);
    cycle_tr(CpuV { flags: flags_from_byte(v), ..c2 })
}

pub open spec fn rti_tr(c: CpuV) -> CpuV {
    let status = pull_val(c);
    let c1 = CpuV { flags: flags_from_byte(status), ..pull_tr(c) };
    let low = pull_val(c1);
    let c2 = pull_tr(c1);
    let high = pull_val(c2);
    let c3 = pull_tr(c2);
    CpuV { counter: ((high as u16) << 8) | (low as u16), ..c3 }
}

pub open spec fn rts_tr(c: CpuV) -> CpuV {
    let low = pull_val(c);
    let c1 = pull_tr(c);
    let high = pull_val(c1);
    let c2 = pull_tr(c1);
    let addr = ((high as u16) << 8) | (low as u16);
    cycle_tr(CpuV { counter: addr.wrapping_add(1), ..c2 })
}

pub open spec fn sta_tr(c: CpuV, addr: u16) -> CpuV {
    write_tr(c, addr, c.reg_a)
}

pub open spec fn stx_tr(c: CpuV, addr: u16) -> CpuV {
    write_tr(c, addr, c.reg_x)
}

pub open spec fn sty_tr(c: CpuV, addr: u16) -> CpuV {
    write_tr(c, addr, c.reg_y)
}

pub open spec fn tax_tr(c: CpuV) -> CpuV {
    cycle_tr(CpuV { reg_x: c.reg_a, flags: zn_flags(c.flags, c.reg_a), ..c })
}

pub open spec fn tay_tr(c: CpuV) -> CpuV {
    cycle_tr(CpuV { reg_y: c.reg_a, flags: zn_flags(c.flags, c.reg_a), ..c })
}

pub open spec fn tsx_tr(c: CpuV) -> CpuV {
    cycle_tr(CpuV { reg_x: c.stack, flags: zn_flags(c.flags, c.stack), ..c })
}

pub open spec fn txa_tr(c: CpuV) -> CpuV {
    cycle_tr(CpuV { reg_a: c.reg_x, flags: zn_flags(c.flags, c.reg_x), ..c })
}

pub open spec fn txs_tr(c: CpuV) -> CpuV {
    cycle_tr(CpuV { stack: c.reg_x, ..c })
}

pub open spec fn tya_tr(c: CpuV) -> CpuV {
    cycle_tr(CpuV { reg_a: c.reg_y, flags: zn_flags(c.flags, c.reg_y), ..c })
}

pub open spec fn hlt_tr(c: CpuV) -> CpuV {
    CpuV { bus: BusV { data: 0xFF, ..c.bus }, running: false, ..c }
}

impl Cpu {
    /// ADC: A + operand + carry. Carry out when the 9-bit sum exceeds
    /// 0xFF; overflow from the sign-change pattern; zero and negative from
    /// the result. Decimal mode does not exist on this CPU.
    pub fn adc(&mut self, operand: u8)
        ensures
            final(self)@ == adc_tr(old(self)@, operand),
            final(self).flags.zero == (final(self).reg_a == 0),
            final(self).flags.negative == (final(self).reg_a >= 0x80),
    {
        let old_a = self.reg_a;
        let res: u16 = (self.reg_a as u16) + (operand as u16)
            + (if self.flags.carry { 1u16 } else { 0u16 });
        self.reg_a = (res % 256) as u8;
        self.flags.carry = res > 0xFF;
        self.flags.overflow = ((!(old_a ^ operand) & (old_a ^ self.reg_a)) & 0x80) != 0;
        self.flags.zero = self.reg_a == 0;
        self.flags.negative = self.reg_a > 127;
    }

    /// SBC: A − operand − (1 − carry). Carry set when no borrow was
    /// needed; overflow from the sign-change pattern.
    pub fn sbc(&mut self, operand: u8)
        ensures
            final(self)@ == sbc_tr(old(self)@, operand),
            final(self).flags.zero == (final(self).reg_a == 0),
            final(self).flags.negative == (final(self).reg_a >= 0x80),
    {
        let old_a = self.reg_a;
        let borrow: u8 = if self.flags.carry { 0 } else { 1 };
        let res: i16 = (self.reg_a as i16) - (operand as i16) - (borrow as i16);
        self.reg_a = old_a.wrapping_sub(operand).wrapping_sub(borrow);
        self.flags.carry = res >= 0;
        self.flags.zero = self.reg_a == 0;
        self.flags.negative = (self.reg_a & 0x80) != 0;
        self.flags.overflow = ((old_a ^ operand) & 0x80 != 0) && ((old_a ^ self.reg_a) & 0x80 != 0);
        proof {
            lemma_bit7(self.reg_a);
        }
    }

    /// AND: A &= operand.
    pub fn and(&mut self, operand: u8)
        ensures
            final(self)@ == and_tr(old(self)@, operand),
            final(self).flags.zero == (final(self).reg_a == 0),
            final(self).flags.negative == (final(self).reg_a >= 0x80),
    {
        self.reg_a = self.reg_a & operand;
        self.flags.zero = self.reg_a == 0;
        self.flags.negative = self.reg_a > 127;
    }

    /// EOR: A ^= operand.
    pub fn eor(&mut self, operand: u8)
        ensures
            final(self)@ == eor_tr(old(self)@, operand),
            final(self).flags.zero == (final(self).reg_a == 0),
            final(self).flags.negative == (final(self).reg_a >= 0x80),
    {
        let res = self.reg_a ^ operand;
        self.reg_a = res;
        self.flags.zero = res == 0;
        self.flags.negative = res > 127;
    }

    /// ORA: A |= operand.
    pub fn ora(&mut self, operand: u8)
        ensures
            final(self)@ == ora_tr(old(self)@, operand),
            final(self).flags.zero == (final(self).reg_a == 0),
            final(self).flags.negative == (final(self).reg_a >= 0x80),
    {
        let res = self.reg_a | operand;
        self.reg_a = res;
        self.flags.zero = res == 0;
        self.flags.negative = res > 127;
    }

    /// ASL on the accumulator.
    pub fn asl_accumulator(&mut self)
        ensures
            final(self)@ == asl_a_tr(old(self)@),
            final(self).flags.zero == (final(self).reg_a == 0),
            final(self).flags.negative == (final(self).reg_a >= 0x80),
    {
        self.flags.carry = (self.reg_a & 0x80) != 0;
        self.reg_a = self.reg_a << 1;
        self.cycle();
        self.flags.zero = self.reg_a == 0;
        self.flags.negative = self.reg_a > 127;
        proof {
            assert(self@ == asl_a_tr(old(self)@));
        }
    }

    /// ASL on memory.
    pub fn asl(&mut self, addr: u16)
        requires
            cpu_wf(old(self)@),
        ensures
            cpu_wf(final(self)@),
            final(self)@ == asl_tr(old(self)@, addr),
    {
        let target = self.read(addr);
        self.flags.carry = (target & 0x80) != 0;
        self.cycle();
        let result = target << 1;
        self.write(addr, result);
        self.flags.zero = result == 0;
        self.flags.negative = result > 127;
    }

    /// BIT: zero from A & operand; negative and overflow copied from the
    /// operand's bits 7 and 6.
    pub fn bit(&mut self, operand: u8)
        ensures
            final(self)@ == bit_tr(old(self)@, operand),
    {
        self.flags.zero = self.reg_a & operand == 0;
        self.flags.negative = (operand & 0x80) != 0;
        self.flags.overflow = (operand & 0x40) != 0;
    }

    /// A conditional branch on an already-decoded flag; used by BPL, BMI,
    /// BVC, BVS, BCC, BCS, BNE and BEQ. Taken branches cost one extra
    /// cycle, page-crossing taken branches two.
    pub fn branch_flag(&mut self, flag: bool)
        requires
            cpu_wf(old(self)@),
        ensures
            cpu_wf(final(self)@),
            final(self)@ == branch_tr(old(self)@, flag),
    {
        let byte = self.read_next();
        let offset: u16 = if byte < 0x80 {
            byte as u16
        } else {
            0xFF00 + (byte as u16)
        };
        let target = self.counter.wrapping_add(offset);
        if flag {
            let old_counter = self.counter;
            self.counter = target;
            self.cycle();
            if old_counter & 0xFF00 != self.counter & 0xFF00 {
                self.cycle();
            }
        }
    }

    /// BRK: push PC+1 high then low, push the status with the break bit
    /// set, set interrupt-disable, and load PC from {0xFFFE, 0xFFFF}.
    pub fn brk(&mut self)
        requires
            cpu_wf(old(self)@),
        ensures
            cpu_wf(final(self)@),
            final(self)@ == brk_tr(old(self)@),
    {
        let next = self.counter.wrapping_add(1);
        self.push_stack((next >> 8) as u8);
        self.push_stack((next & 0xFF) as u8);

        let mut status = self.flags;
        status.brk = true;
        self.push_stack(status.to_byte());
        self.flags.interrupt_disable = true;

        let low = self.read(0xFFFE);
        let high = self.read(0xFFFF);
        self.counter = ((high as u16) << 8) | (low as u16);
        self.cycle();
    }

    /// CMP: carry when A >= operand; zero and negative from A − operand.
    pub fn cmp(&mut self, operand: u8)
        ensures
            final(self)@ == cmp_tr(old(self)@, operand),
    {
        let res = self.reg_a.wrapping_sub(operand);
        self.flags.carry = self.reg_a >= operand;
        self.flags.zero = res == 0;
        self.flags.negative = res > 127;
    }

    /// CPX: carry when X >= operand; zero and negative from X − operand.
    pub fn cpx(&mut self, operand: u8)
        ensures
            final(self)@ == cpx_tr(old(self)@, operand),
    {
        let res = self.reg_x.wrapping_sub(operand);
        self.flags.carry = self.reg_x >= operand;
        self.flags.zero = res == 0;
        self.flags.negative = res > 127;
    }

    /// CPY: carry when Y >= operand; zero and negative from Y − operand.
    pub fn cpy(&mut self, operand: u8)
        ensures
            final(self)@ == cpy_tr(old(self)@, operand),
    {
        let res = self.reg_y.wrapping_sub(operand);
        self.flags.carry = self.reg_y >= operand;
        self.flags.zero = res == 0;
        self.flags.negative = res > 127;
    }

    /// DEC on memory.
    pub fn dec(&mut self, addr: u16)
        requires
            cpu_wf(old(self)@),
        ensures
            cpu_wf(final(self)@),
            final(self)@ == dec_tr(old(self)@, addr),
    {
        let prev = self.read(addr);
        let res = prev.wrapping_sub(1);
        self.cycle();
        self.write(addr, res);
        self.flags.zero = res == 0;
        self.flags.negative = res > 127;
    }

    /// INC on memory.
    pub fn inc(&mut self, addr: u16)
        requires
            cpu_wf(old(self)@),
        ensures
            cpu_wf(final(self)@),
            final(self)@ == inc_tr(old(self)@, addr),
    {
        let prev = self.read(addr);
        let res = prev.wrapping_add(1);
        self.cycle();
        self.write(addr, res);
        self.flags.zero = res == 0;
        self.flags.negative = res > 127;
    }

    /// DEX.
    pub fn dex(&mut self)
        ensures
            final(self)@ == dex_tr(old(self)@),
            final(self).flags.zero == (final(self).reg_x == 0),
            final(self).flags.negative == (final(self).reg_x >= 0x80),
    {
        let res = self.reg_x.wrapping_sub(1);
        self.reg_x = res;
        self.cycle();
        self.flags.zero = res == 0;
        self.flags.negative = res > 127;
    }

    /// DEY.
    pub fn dey(&mut self)
        ensures
            final(self)@ == dey_tr(old(self)@),
            final(self).flags.zero == (final(self).reg_y == 0),
            final(self).flags.negative == (final(self).reg_y >= 0x80),
    {
        let res = self.reg_y.wrapping_sub(1);
        self.reg_y = res;
        self.cycle();
        self.flags.zero = res == 0;
        self.flags.negative = res > 127;
    }

    /// INX.
    pub fn inx(&mut self)
        ensures
            final(self)@ == inx_tr(old(self)@),
            final(self).flags.zero == (final(self).reg_x == 0),
            final(self).flags.negative == (final(self).reg_x >= 0x80),
    {
        let res = self.reg_x.wrapping_add(1);
        self.reg_x = res;
        self.cycle();
        self.flags.zero = res == 0;
        self.flags.negative = res > 127;
    }

    /// INY.
    pub fn iny(&mut self)
        ensures
            final(self)@ == iny_tr(old(self)@),
            final(self).flags.zero == (final(self).reg_y == 0),
            final(self).flags.negative == (final(self).reg_y >= 0x80),
    {
        let res = self.reg_y.wrapping_add(1);
        self.reg_y = res;
        self.cycle();
        self.flags.zero = res == 0;
        self.flags.negative = res > 127;
    }

    /// JMP absolute.
    pub fn jmp_absolute(&mut self)
        requires
            cpu_wf(old(self)@),
        ensures
            cpu_wf(final(self)@),
            final(self)@ == jmp_absolute_tr(old(self)@),
    {
        let low = self.read_next();
        let high = self.read_next();
        self.counter = ((high as u16) << 8) | (low as u16);
    }

    /// JMP indirect, with the hardware's page-wrap quirk on the pointer's
    /// second byte when the pointer's low byte is 0xFF.
    pub fn jmp_indirect(&mut self)
        requires
            cpu_wf(old(self)@),
        ensures
            cpu_wf(final(self)@),
            final(self)@ == jmp_indirect_tr(old(self)@),
    {
        let low = self.read_next();
        let high = self.read_next();
        let ptr = ((high as u16) << 8) | (low as u16);

        let target_low = self.read(ptr);
        let target_high = if low == 0xFF {
            self.read(ptr & 0xFF00)
        } else {
            self.read(ptr.wrapping_add(1))
        };

        self.counter = ((target_high as u16) << 8) | (target_low as u16);
    }

    /// JSR: push PC−1 high then low, then load the absolute target.
    pub fn jsr_absolute(&mut self)
        requires
            cpu_wf(old(self)@),
        ensures
            cpu_wf(final(self)@),
            final(self)@ == jsr_tr(old(self)@),
    {
        let low = self.read_next();
        let high = self.read_next();
        let addr = ((high as u16) << 8) | (low as u16);

        let return_addr = self.counter.wrapping_sub(1);
        let prev_low = (return_addr & 0x00FF) as u8;
        let prev_high = (return_addr >> 8) as u8;

        self.push_stack(prev_high);
        self.push_stack(prev_low);
        self.counter = addr;
        self.cycle();
    }

    /// LDA.
    pub fn lda(&mut self, operand: u8)
        ensures
            final(self)@ == lda_tr(old(self)@, operand),
            final(self).flags.zero == (final(self).reg_a == 0),
            final(self).flags.negative == (final(self).reg_a >= 0x80),
    {
        self.reg_a = operand;
        self.flags.zero = self.reg_a == 0;
        self.flags.negative = self.reg_a > 127;
    }

    /// LDX.
    pub fn ldx(&mut self, operand: u8)
        ensures
            final(self)@ == ldx_tr(old(self)@, operand),
            final(self).flags.zero == (final(self).reg_x == 0),
            final(self).flags.negative == (final(self).reg_x >= 0x80),
    {
        self.reg_x = operand;
        self.flags.zero = self.reg_x == 0;
        self.flags.negative = self.reg_x > 127;
    }

    /// LDY.
    pub fn ldy(&mut self, operand: u8)
        ensures
            final(self)@ == ldy_tr(old(self)@, operand),
            final(self).flags.zero == (final(self).reg_y == 0),
            final(self).flags.negative == (final(self).reg_y >= 0x80),
    {
        self.reg_y = operand;
        self.flags.zero = self.reg_y == 0;
        self.flags.negative = self.reg_y > 127;
    }

    /// LSR on the accumulator.
    pub fn lsr_accumulator(&mut self)
        ensures
            final(self)@ == lsr_a_tr(old(self)@),
            final(self).flags.zero == (final(self).reg_a == 0),
            final(self).flags.negative == (final(self).reg_a >= 0x80),
    {
        self.flags.carry = (self.reg_a & 0x01) != 0;
        self.reg_a = self.reg_a >> 1;
        self.cycle();
        self.flags.zero = self.reg_a == 0;
        self.flags.negative = false;
        proof {
            lemma_shr1_bound(old(self).reg_a);
        }
    }

    /// LSR on memory.
    pub fn lsr(&mut self, addr: u16)
        requires
            cpu_wf(old(self)@),
        ensures
            cpu_wf(final(self)@),
            final(self)@ == lsr_tr(old(self)@, addr),
    {
        let value = self.read(addr);
        self.flags.carry = (value & 0x01) != 0;
        self.cycle();
        let result = value >> 1;
        self.flags.zero = result == 0;
        self.flags.negative = false;
        self.write(addr, result);
    }

    /// NOP: two cycles, nothing else.
    pub fn nop(&mut self)
        ensures
            final(self)@ == nop_tr(old(self)@),
    {
        self.cycle();
        self.cycle();
    }

    /// PHA.
    pub fn pha(&mut self)
        requires
            cpu_wf(old(self)@),
        ensures
            cpu_wf(final(self)@),
            final(self)@ == pha_tr(old(self)@),
    {
        self.cycle();
        self.push_stack(self.reg_a);
    }

    /// PHP: the pushed status byte carries the break bit set.
    pub fn php(&mut self)
        requires
            cpu_wf(old(self)@),
        ensures
            cpu_wf(final(self)@),
            final(self)@ == php_tr(old(self)@),
    {
        self.cycle();
        let mut status = self.flags;
        status.brk = true;
        self.push_stack(status.to_byte());
    }

    /// PLA.
    pub fn pla(&mut self)
        requires
            cpu_wf(old(self)@),
        ensures
            cpu_wf(final(self)@),
            final(self)@ == pla_tr(old(self)@),
            final(self).flags.zero == (final(self).reg_a == 0),
            final(self).flags.negative == (final(self).reg_a >= 0x80),
    {
        self.cycle();
        self.reg_a = self.pull_stack();
        self.flags.zero = self.reg_a == 0;
        self.flags.negative = self.reg_a > 127;
    }

    /// PLP: the restored flags drop the break bit.
    pub fn plp(&mut self)
        requires
            cpu_wf(old(self)@),
        ensures
            cpu_wf(final(self)@),
            final(self)@ == plp_tr(old(self)@),
    {
        self.cycle();
        let value = self.pull_stack();
        self.flags = CpuFlags::from_byte(value);
        self.cycle();
    }

    /// ROL on the accumulator.
    pub fn rol_accumulator(&mut self)
        ensures
            final(self)@ == rol_a_tr(old(self)@),
            final(self).flags.zero == (final(self).reg_a == 0),
            final(self).flags.negative == (final(self).reg_a >= 0x80),
    {
        let old_carry = self.flags.carry;
        self.flags.carry = (self.reg_a & 0x80) != 0;
        self.cycle();
        self.reg_a = (self.reg_a << 1) | (if old_carry { 1u8 } else { 0u8 });
        self.flags.zero = self.reg_a == 0;
        self.flags.negative = (self.reg_a & 0x80) != 0;
        proof {
            lemma_bit7(self.reg_a);
        }
    }

    /// ROL on memory.
    #[verifier::rlimit(60)]
    #[verifier::spinoff_prover]
    pub fn rol(&mut self, addr: u16)
        requires
            cpu_wf(old(self)@),
        ensures
            cpu_wf(final(self)@),
            final(self)@ == rol_tr(old(self)@, addr),
    {
        let mut value = self.read(addr);
        let old_carry = self.flags.carry;
        self.flags.carry = (value & 0x80) != 0;
        self.cycle();
        value = (value << 1) | (if old_carry { 1u8 } else { 0u8 });
        self.write(addr, value);
        self.flags.zero = value == 0;
        self.flags.negative = (value & 0x80) != 0;
    }

    /// ROR on the accumulator.
    pub fn ror_accumulator(&mut self)
        ensures
            final(self)@ == ror_a_tr(old(self)@),
            final(self).flags.zero == (final(self).reg_a == 0),
            final(self).flags.negative == (final(self).reg_a >= 0x80),
    {
        let old_carry = self.flags.carry;
        self.flags.carry = (self.reg_a & 0x01) != 0;
        self.cycle();
        self.reg_a = (self.reg_a >> 1) | ((if old_carry { 1u8 } else { 0u8 }) << 7);
        self.flags.zero = self.reg_a == 0;
        self.flags.negative = (self.reg_a & 0x80) != 0;
        proof {
            lemma_bit7(self.reg_a);
        }
    }

    /// ROR on memory.
    #[verifier::rlimit(60)]
    #[verifier::spinoff_prover]
    pub fn ror(&mut self, addr: u16)
        requires
            cpu_wf(old(self)@),
        ensures
            cpu_wf(final(self)@),
            final(self)@ == ror_tr(old(self)@, addr),
    {
        let mut value = self.read(addr);
        let old_carry = self.flags.carry;
        self.flags.carry = (value & 0x01) != 0;
        self.cycle();
        value = (value >> 1) | ((if old_carry { 1u8 } else { 0u8 }) << 7);
        self.write(addr, value);
        self.flags.zero = value == 0;
        self.flags.negative = (value & 0x80) != 0;
    }

    /// RTI: pull the status, then PC low and high, with no adjustment.
    pub fn rti(&mut self)
        requires
            cpu_wf(old(self)@),
        ensures
            cpu_wf(final(self)@),
            final(self)@ == rti_tr(old(self)@),
    {
        let status = self.pull_stack();
        self.flags = CpuFlags::from_byte(status);
        let low = self.pull_stack();
        let high = self.pull_stack();
        self.counter = ((high as u16) << 8) | (low as u16);
    }

    /// RTS: pull PC low and high, then add one.
    pub fn rts(&mut self)
        requires
            cpu_wf(old(self)@),
        ensures
            cpu_wf(final(self)@),
            final(self)@ == rts_tr(old(self)@),
    {
        let low = self.pull_stack();
        let high = self.pull_stack();
        let addr = ((high as u16) << 8) | (low as u16);
        self.counter = addr.wrapping_add(1);
        self.cycle();
    }

    /// STA.
    pub fn sta(&mut self, addr: u16)
        requires
            cpu_wf(old(self)@),
        ensures
            cpu_wf(final(self)@),
            final(self)@ == sta_tr(old(self)@, addr),
    {
        self.write(addr, self.reg_a);
    }

    /// STX.
    pub fn stx(&mut self, addr: u16)
        requires
            cpu_wf(old(self)@),
        ensures
            cpu_wf(final(self)@),
            final(self)@ == stx_tr(old(self)@, addr),
    {
        self.write(addr, self.reg_x);
    }

    /// STY.
    pub fn sty(&mut self, addr: u16)
        requires
            cpu_wf(old(self)@),
        ensures
            cpu_wf(final(self)@),
            final(self)@ == sty_tr(old(self)@, addr),
    {
        self.write(addr, self.reg_y);
    }

    /// TAX.
    pub fn tax(&mut self)
        ensures
            final(self)@ == tax_tr(old(self)@),
            final(self).flags.zero == (final(self).reg_x == 0),
            final(self).flags.negative == (final(self).reg_x >= 0x80),
    {
        self.reg_x = self.reg_a;
        self.flags.zero = self.reg_x == 0;
        self.flags.negative = self.reg_x > 127;
        self.cycle();
    }

    /// TAY.
    pub fn tay(&mut self)
        ensures
            final(self)@ == tay_tr(old(self)@),
            final(self).flags.zero == (final(self).reg_y == 0),
            final(self).flags.negative == (final(self).reg_y >= 0x80),
    {
        self.reg_y = self.reg_a;
        self.flags.zero = self.reg_y == 0;
        self.flags.negative = self.reg_y > 127;
        self.cycle();
    }

    /// TSX.
    pub fn tsx(&mut self)
        ensures
            final(self)@ == tsx_tr(old(self)@),
            final(self).flags.zero == (final(self).reg_x == 0),
            final(self).flags.negative == (final(self).reg_x >= 0x80),
    {
        self.reg_x = self.stack;
        self.flags.zero = self.reg_x == 0;
        self.flags.negative = self.reg_x > 127;
        self.cycle();
    }

    /// TXA.
    pub fn txa(&mut self)
        ensures
            final(self)@ == txa_tr(old(self)@),
            final(self).flags.zero == (final(self).reg_a == 0),
            final(self).flags.negative == (final(self).reg_a >= 0x80),
    {
        self.reg_a = self.reg_x;
        self.flags.zero = self.reg_a == 0;
        self.flags.negative = self.reg_a > 127;
        self.cycle();
    }

    /// TXS: the stack pointer takes X; no flags change.
    pub fn txs(&mut self)
        ensures
            final(self)@ == txs_tr(old(self)@),
    {
        self.stack = self.reg_x;
        self.cycle();
    }

    /// TYA.
    pub fn tya(&mut self)
        ensures
            final(self)@ == tya_tr(old(self)@),
            final(self).flags.zero == (final(self).reg_a == 0),
            final(self).flags.negative == (final(self).reg_a >= 0x80),
    {
        self.reg_a = self.reg_y;
        self.flags.zero = self.reg_a == 0;
        self.flags.negative = self.reg_a > 127;
        self.cycle();
    }

    /// A KIL/JAM opcode: the running flag drops and the data line floats
    /// high; dispatch halts until the next reset.
    pub fn hlt(&mut self)
        ensures
            final(self)@ == hlt_tr(old(self)@),
    {
        self.bus.data = 0xFF;
        self.running = false;
    }
}

} // verus!
