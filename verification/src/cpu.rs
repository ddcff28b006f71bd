//! The 6502-family CPU core: registers, status flags, the CPU-side memory
//! bus, and the instruction interpreter.

pub mod addressing;
pub mod instructions;

pub mod bus;
pub mod ram;
pub mod status_flags;

pub use bus::Bus;
pub use ram::Ram;
pub use status_flags::CpuFlags;

use crate::cpu::bus::{bus_after_read, bus_after_write, bus_read_data, bus_wf, BusV};
use crate::cpu::addressing::{
    absolute_addr_tr, absolute_addr_val, absolute_tr, absolute_val, absolute_x_addr_tr,
    absolute_x_addr_val, absolute_x_tr, absolute_x_val, absolute_y_addr_tr,
    absolute_y_addr_val, absolute_y_tr, absolute_y_val, immediate_tr, immediate_val,
    indirect_x_addr_tr, indirect_x_addr_val, indirect_x_tr, indirect_x_val,
    indirect_y_addr_tr, indirect_y_addr_val, indirect_y_tr, indirect_y_val, zeropage_addr_tr,
    zeropage_addr_val, zeropage_tr, zeropage_val, zeropage_x_addr_tr, zeropage_x_addr_val,
    zeropage_x_tr, zeropage_x_val, zeropage_y_addr_tr, zeropage_y_addr_val, zeropage_y_tr,
    zeropage_y_val,
};
use crate::cpu::instructions::{
    adc_tr, and_tr, asl_a_tr, asl_tr, bit_tr, branch_tr, brk_tr, cmp_tr, cpx_tr, cpy_tr,
    dec_tr, dex_tr, dey_tr, eor_tr, hlt_tr, inc_tr, inx_tr, iny_tr, jmp_absolute_tr,
    jmp_indirect_tr, jsr_tr, lda_tr, ldx_tr, ldy_tr, lsr_a_tr, lsr_tr, nop_tr, ora_tr,
    pha_tr, php_tr, pla_tr, plp_tr, rol_a_tr, rol_tr, ror_a_tr, ror_tr, rti_tr, rts_tr,
    sbc_tr, sta_tr, stx_tr, sty_tr, tax_tr, tay_tr, tsx_tr, txa_tr, txs_tr, tya_tr,
};
use crate::cpu::status_flags::{flags_clear, CpuFlags as Flags};
use vstd::prelude::*;

verus! {

/// The CPU: the per-instruction cycle counter, program counter, the three
/// general registers, the stack pointer, status flags, the memory bus, the
/// running flag, and the opcode and location of the last fetch.
pub struct Cpu {
    pub cycles: usize,
    pub counter: u16,
    pub reg_a: u8,
    pub reg_x: u8,
    pub reg_y: u8,
    pub stack: u8,
    pub flags: CpuFlags,
    pub bus: Bus,
    pub running: bool,
    pub last_read_instruction: u8,
    pub last_location: u16,
}

/// Mathematical model of a [`Cpu`].
pub struct CpuV {
    pub cycles: usize,
    pub counter: u16,
    pub reg_a: u8,
    pub reg_x: u8,
    pub reg_y: u8,
    pub stack: u8,
    pub flags: CpuFlags,
    pub bus: BusV,
    pub running: bool,
    pub last_read_instruction: u8,
    pub last_location: u16,
}

impl View for Cpu {
    type V = CpuV;

    open spec fn view(&self) -> CpuV {
        CpuV {
            cycles: self.cycles,
            counter: self.counter,
            reg_a: self.reg_a,
            reg_x: self.reg_x,
            reg_y: self.reg_y,
            stack: self.stack,
            flags: self.flags,
            bus: self.bus@,
            running: self.running,
            last_read_instruction: self.last_read_instruction,
            last_location: self.last_location,
        }
    }
}

/// Well-formedness: the bus behind the CPU is well-formed.
pub open spec fn cpu_wf(c: CpuV) -> bool {
    bus_wf(c.bus)
}

/// The CPU after one timed bus read at `addr`: the bus moves and the cycle
/// counter advances.
pub open spec fn read_tr(c: CpuV, addr: u16) -> CpuV {
    CpuV {
        bus: bus_after_read(BusV { address: addr, ..c.bus }),
        cycles: c.cycles.wrapping_add(1),
        ..c
    }
}

/// The byte that timed bus read returns.
pub open spec fn read_val(c: CpuV, addr: u16) -> u8 {
    bus_read_data(BusV { address: addr, ..c.bus })
}

/// The CPU after one timed bus write of `val` at `addr`.
pub open spec fn write_tr(c: CpuV, addr: u16, val: u8) -> CpuV {
    CpuV {
        bus: bus_after_write(BusV { address: addr, data: val, ..c.bus }),
        cycles: c.cycles.wrapping_add(1),
        ..c
    }
}

/// The CPU after fetching the byte at the program counter: a timed read,
/// and the program counter advances.
pub open spec fn read_next_tr(c: CpuV) -> CpuV {
    let c1 = read_tr(c, c.counter);
    CpuV { counter: c.counter.wrapping_add(1), ..c1 }
}

/// The byte that fetch returns.
pub open spec fn read_next_val(c: CpuV) -> u8 {
    read_val(c, c.counter)
}

/// One internal cycle: only the cycle counter advances.
pub open spec fn cycle_tr(c: CpuV) -> CpuV {
    CpuV { cycles: c.cycles.wrapping_add(1), ..c }
}

/// Where the stack pointer points: the byte lives in page one, at
/// 0x0100 | SP.
pub open spec fn stack_slot(sp: u8) -> u16 {
    (0x100 + sp) as u16
}

/// The CPU after a stack push: the byte is written at 0x0100 | SP, then SP
/// decrements (wrapping).
pub open spec fn push_tr(c: CpuV, val: u8) -> CpuV {
    let c1 = write_tr(c, stack_slot(c.stack), val);
    CpuV { stack: c.stack.wrapping_sub(1), ..c1 }
}

/// The CPU after a stack pull: one internal cycle, SP pre-increments
/// (wrapping), then the byte at 0x0100 | SP is read.
pub open spec fn pull_tr(c: CpuV) -> CpuV {
    let c1 = cycle_tr(c);
    let c2 = CpuV { stack: c1.stack.wrapping_add(1), ..c1 };
    read_tr(c2, stack_slot(c2.stack))
}

/// The byte that stack pull returns.
pub open spec fn pull_val(c: CpuV) -> u8 {
    read_val(c, stack_slot(c.stack.wrapping_add(1)))
}

/// The CPU after a reset: interrupt-disable and running set, the program
/// counter loaded from the vector at {0xFFFC (low), 0xFFFD (high)}, and the
/// stack pointer initialised to 0xFD. The two vector reads go over the bus
/// but are not timed.
pub open spec fn reset_tr(c: CpuV) -> CpuV {
    let c0 = CpuV {
        flags: Flags { interrupt_disable: true, ..c.flags },
        running: true,
        ..c
    };
    let second = bus_read_data(BusV { address: 0xFFFC, ..c0.bus });
    let c1 = CpuV { bus: bus_after_read(BusV { address: 0xFFFC, ..c0.bus }), ..c0 };
    let first = bus_read_data(BusV { address: 0xFFFD, ..c1.bus });
    let c2 = CpuV { bus: bus_after_read(BusV { address: 0xFFFD, ..c1.bus }), ..c1 };
    CpuV {
        counter: (first as u16 * 0x100 + second as u16) as u16,
        stack: 0xFD,
        ..c2
    }
}

impl Cpu {
    /// A fresh CPU over the given bus: everything cleared, not running.
    pub fn new(bus: Bus) -> (r: Cpu)
        ensures
            r@ == (CpuV {
                cycles: 0,
                counter: 0,
                reg_a: 0,
                reg_x: 0,
                reg_y: 0,
                stack: 0,
                flags: flags_clear(),
                bus: bus@,
                running: false,
                last_read_instruction: 0,
                last_location: 0,
            }),
            bus_wf(bus@) ==> cpu_wf(r@),
    {
        Cpu {
            cycles: 0,
            counter: 0,
            reg_a: 0,
            reg_x: 0,
            reg_y: 0,
            stack: 0,
            bus,
            flags: CpuFlags::default(),
            running: false,
            last_read_instruction: 0,
            last_location: 0,
        }
    }

    /// Reset: load the program counter from the reset vector and mark the
    /// CPU running.
    pub fn reset(&mut self)
        requires
            cpu_wf(old(self)@),
        ensures
            cpu_wf(final(self)@),
            final(self)@ == reset_tr(old(self)@),
    {
        self.flags.interrupt_disable = true;
        self.running = true;

        self.bus.address = 0xFFFC;
        self.bus.read();
        let second = self.bus.data;

        self.bus.address = 0xFFFD;
        self.bus.read();
        let first = self.bus.data;

        let jmp_addr = (first as u16) * 0x100 + (second as u16);
        self.counter = jmp_addr;
        self.stack = 0xFD;
    }

    /// Fetch the byte at the program counter and advance it.
    pub fn read_next(&mut self) -> (r: u8)
        requires
            cpu_wf(old(self)@),
        ensures
            cpu_wf(final(self)@),
            final(self)@ == read_next_tr(old(self)@),
            r == read_next_val(old(self)@),
    {
        self.bus.address = self.counter;
        self.bus.read();
        self.counter = self.counter.wrapping_add(1);
        self.cycle();
        self.bus.data
    }

    /// One timed bus read.
    pub fn read(&mut self, addr: u16) -> (r: u8)
        requires
            cpu_wf(old(self)@),
        ensures
            cpu_wf(final(self)@),
            final(self)@ == read_tr(old(self)@, addr),
            r == read_val(old(self)@, addr),
    {
        self.bus.address = addr;
        self.bus.read();
        self.cycle();
        self.bus.data
    }

    /// One timed bus write.
    pub fn write(&mut self, addr: u16, val: u8)
        requires
            cpu_wf(old(self)@),
        ensures
            cpu_wf(final(self)@),
            final(self)@ == write_tr(old(self)@, addr, val),
    {
        self.bus.address = addr;
        self.bus.data = val;
        self.bus.write();
        self.cycle();
    }

    /// Count one cycle of the current instruction.
    pub fn cycle(&mut self)
        ensures
            final(self)@ == cycle_tr(old(self)@),
    {
        self.cycles = self.cycles.wrapping_add(1);
    }

    /// Push a byte: write at 0x0100 | SP, then decrement SP.
    pub fn push_stack(&mut self, val: u8)
        requires
            cpu_wf(old(self)@),
        ensures
            cpu_wf(final(self)@),
            final(self)@ == push_tr(old(self)@, val),
    {
        self.write(0x100 + self.stack as u16, val);
        self.stack = self.stack.wrapping_sub(1);
    }

    /// Pull a byte: increment SP, then read at 0x0100 | SP.
    pub fn pull_stack(&mut self) -> (r: u8)
        requires
            cpu_wf(old(self)@),
        ensures
            cpu_wf(final(self)@),
            final(self)@ == pull_tr(old(self)@),
            r == pull_val(old(self)@),
    {
        self.cycle();
        self.stack = self.stack.wrapping_add(1);
        self.read(0x100 + self.stack as u16)
    }
}


/// The twelve KIL/JAM opcodes: they halt dispatch.
pub open spec fn is_kil(op: u8) -> bool {
    ||| op == 0x02 ||| op == 0x12 ||| op == 0x22 ||| op == 0x32 ||| op == 0x42 ||| op == 0x52
    ||| op == 0x62 ||| op == 0x72 ||| op == 0x92 ||| op == 0xB2 ||| op == 0xD2 ||| op == 0xF2
}

/// Whether `op` belongs to the official opcode set this core dispatches
/// (the deliberate KIL/JAM group included). Anything else is an unofficial
/// opcode: the interpreter consumes only its fetch and carries on.
pub open spec fn is_official_op(op: u8) -> bool {
    ||| is_load_op(op)
    ||| is_arith_op(op)
    ||| is_logic_op(op)
    ||| is_compare_op(op)
    ||| is_shift_op(op)
    ||| is_incdec_op(op)
    ||| is_store_op(op)
    ||| is_branch_op(op)
    ||| is_flow_op(op)
    ||| is_stack_op(op)
    ||| is_misc_op(op)
}

/// Executable form of [`is_official_op`], for hosts that want to warn
/// about opcodes outside the official set.
#[verifier::rlimit(100)]
#[verifier::spinoff_prover]
pub fn official_opcode(op: u8) -> (r: bool)
    ensures
        r == is_official_op(op),
{
    match op {
        0x00 | 0x01 | 0x02 | 0x05 | 0x06 | 0x08 | 0x09 | 0x0A
            | 0x0D | 0x0E | 0x10 | 0x11 | 0x12 | 0x15 | 0x16 | 0x18
            | 0x19 | 0x1D | 0x1E | 0x20 | 0x21 | 0x22 | 0x24 | 0x25
            | 0x26 | 0x28 | 0x29 | 0x2A | 0x2C | 0x2D | 0x2E | 0x30
            | 0x31 | 0x32 | 0x35 | 0x36 | 0x38 | 0x39 | 0x3D | 0x3E
            | 0x40 | 0x41 | 0x42 | 0x45 | 0x46 | 0x48 | 0x49 | 0x4A
            | 0x4C | 0x4D | 0x4E | 0x50 | 0x51 | 0x52 | 0x55 | 0x56
            | 0x58 | 0x59 | 0x5D | 0x5E | 0x60 | 0x61 | 0x62 | 0x65
            | 0x66 | 0x68 | 0x69 | 0x6A | 0x6C | 0x6D | 0x6E | 0x70
            | 0x71 | 0x72 | 0x75 | 0x76 | 0x78 | 0x79 | 0x7D | 0x7E
            | 0x81 | 0x84 | 0x85 | 0x86 | 0x88 | 0x8A | 0x8C | 0x8D
            | 0x8E | 0x90 | 0x91 | 0x92 | 0x94 | 0x95 | 0x96 | 0x98
            | 0x99 | 0x9A | 0x9D | 0xA0 | 0xA1 | 0xA2 | 0xA4 | 0xA5
            | 0xA6 | 0xA8 | 0xA9 | 0xAA | 0xAC | 0xAD | 0xAE | 0xB0
            | 0xB1 | 0xB2 | 0xB4 | 0xB5 | 0xB6 | 0xB8 | 0xB9 | 0xBA
            | 0xBC | 0xBD | 0xBE | 0xC0 | 0xC1 | 0xC4 | 0xC5 | 0xC6
            | 0xC8 | 0xC9 | 0xCA | 0xCC | 0xCD | 0xCE | 0xD0 | 0xD1
            | 0xD2 | 0xD5 | 0xD6 | 0xD8 | 0xD9 | 0xDD | 0xDE | 0xE0
            | 0xE1 | 0xE4 | 0xE5 | 0xE6 | 0xE8 | 0xE9 | 0xEA | 0xEC
            | 0xED | 0xEE | 0xF0 | 0xF1 | 0xF2 | 0xF5 | 0xF6 | 0xF8
            | 0xF9 | 0xFD | 0xFE => true,
        _ => false,
    }
}

/// The opcode the next step will fetch: the byte the bus yields at the
/// program counter.
pub open spec fn fetched_opcode(c: CpuV) -> u8 {
    read_val(c, c.counter)
}

/// The bookkeeping every step begins with: the cycle counter resets, the
/// fetch location and opcode are recorded, and the opcode byte is fetched.
pub open spec fn step_start(c: CpuV) -> CpuV {
    let c0 = CpuV { cycles: 0, last_location: c.counter, ..c };
    let c1 = read_next_tr(c0);
    CpuV { last_read_instruction: fetched_opcode(c), ..c1 }
}

/// Whether `op` belongs to the register loads LDA, LDX and LDY.
pub open spec fn is_load_op(op: u8) -> bool {
    ||| op == 0xA9 ||| op == 0xA5 ||| op == 0xB5 ||| op == 0xAD ||| op == 0xBD ||| op == 0xB9
    ||| op == 0xA1 ||| op == 0xB1 ||| op == 0xA2 ||| op == 0xA6 ||| op == 0xB6 ||| op == 0xAE
    ||| op == 0xBE ||| op == 0xA0 ||| op == 0xA4 ||| op == 0xB4 ||| op == 0xAC ||| op == 0xBC
}

/// Dispatch among the register loads LDA, LDX and LDY.
pub open spec fn load_tr(c1: CpuV, op: u8) -> CpuV {
    if op == 0xA9 {
        lda_tr(immediate_tr(c1), immediate_val(c1))
    } else if op == 0xA5 {
        lda_tr(zeropage_tr(c1), zeropage_val(c1))
    } else if op == 0xB5 {
        lda_tr(zeropage_x_tr(c1), zeropage_x_val(c1))
    } else if op == 0xAD {
        lda_tr(absolute_tr(c1), absolute_val(c1))
    } else if op == 0xBD {
        lda_tr(absolute_x_tr(c1), absolute_x_val(c1))
    } else if op == 0xB9 {
        lda_tr(absolute_y_tr(c1), absolute_y_val(c1))
    } else if op == 0xA1 {
        lda_tr(indirect_x_tr(c1), indirect_x_val(c1))
    } else if op == 0xB1 {
        lda_tr(indirect_y_tr(c1), indirect_y_val(c1))
    } else if op == 0xA2 {
        ldx_tr(immediate_tr(c1), immediate_val(c1))
    } else if op == 0xA6 {
        ldx_tr(zeropage_tr(c1), zeropage_val(c1))
    } else if op == 0xB6 {
        ldx_tr(zeropage_y_tr(c1), zeropage_y_val(c1))
    } else if op == 0xAE {
        ldx_tr(absolute_tr(c1), absolute_val(c1))
    } else if op == 0xBE {
        ldx_tr(absolute_y_tr(c1), absolute_y_val(c1))
    } else if op == 0xA0 {
        ldy_tr(immediate_tr(c1), immediate_val(c1))
    } else if op == 0xA4 {
        ldy_tr(zeropage_tr(c1), zeropage_val(c1))
    } else if op == 0xB4 {
        ldy_tr(zeropage_x_tr(c1), zeropage_x_val(c1))
    } else if op == 0xAC {
        ldy_tr(absolute_tr(c1), absolute_val(c1))
    } else if op == 0xBC {
        ldy_tr(absolute_x_tr(c1), absolute_x_val(c1))
    } else {
        c1
    }
}

/// Whether `op` belongs to the additions and subtractions ADC and SBC.
pub open spec fn is_arith_op(op: u8) -> bool {
    ||| op == 0x69 ||| op == 0x65 ||| op == 0x75 ||| op == 0x6D ||| op == 0x7D ||| op == 0x79
    ||| op == 0x61 ||| op == 0x71 ||| op == 0xE9 ||| op == 0xE5 ||| op == 0xF5 ||| op == 0xED
    ||| op == 0xFD ||| op == 0xF9 ||| op == 0xE1 ||| op == 0xF1
}

/// Dispatch among the additions and subtractions ADC and SBC.
pub open spec fn arith_tr(c1: CpuV, op: u8) -> CpuV {
    if op == 0x69 {
        adc_tr(immediate_tr(c1), immediate_val(c1))
    } else if op == 0x65 {
        adc_tr(zeropage_tr(c1), zeropage_val(c1))
    } else if op == 0x75 {
        adc_tr(zeropage_x_tr(c1), zeropage_x_val(c1))
    } else if op == 0x6D {
        adc_tr(absolute_tr(c1), absolute_val(c1))
    } else if op == 0x7D {
        adc_tr(absolute_x_tr(c1), absolute_x_val(c1))
    } else if op == 0x79 {
        adc_tr(absolute_y_tr(c1), absolute_y_val(c1))
    } else if op == 0x61 {
        adc_tr(indirect_x_tr(c1), indirect_x_val(c1))
    } else if op == 0x71 {
        adc_tr(indirect_y_tr(c1), indirect_y_val(c1))
    } else if op == 0xE9 {
        sbc_tr(immediate_tr(c1), immediate_val(c1))
    } else if op == 0xE5 {
        sbc_tr(zeropage_tr(c1), zeropage_val(c1))
    } else if op == 0xF5 {
        sbc_tr(zeropage_x_tr(c1), zeropage_x_val(c1))
    } else if op == 0xED {
        sbc_tr(absolute_tr(c1), absolute_val(c1))
    } else if op == 0xFD {
        sbc_tr(absolute_x_tr(c1), absolute_x_val(c1))
    } else if op == 0xF9 {
        sbc_tr(absolute_y_tr(c1), absolute_y_val(c1))
    } else if op == 0xE1 {
        sbc_tr(indirect_x_tr(c1), indirect_x_val(c1))
    } else if op == 0xF1 {
        sbc_tr(indirect_y_tr(c1), indirect_y_val(c1))
    } else {
        c1
    }
}

/// Whether `op` belongs to the bitwise AND, EOR and ORA.
pub open spec fn is_logic_op(op: u8) -> bool {
    ||| op == 0x29 ||| op == 0x25 ||| op == 0x35 ||| op == 0x2D ||| op == 0x3D ||| op == 0x39
    ||| op == 0x21 ||| op == 0x31 ||| op == 0x49 ||| op == 0x45 ||| op == 0x55 ||| op == 0x4D
    ||| op == 0x5D ||| op == 0x59 ||| op == 0x41 ||| op == 0x51 ||| op == 0x09 ||| op == 0x05
    ||| op == 0x15 ||| op == 0x0D ||| op == 0x1D ||| op == 0x19 ||| op == 0x01 ||| op == 0x11
}

/// Dispatch among the bitwise AND, EOR and ORA.
pub open spec fn logic_tr(c1: CpuV, op: u8) -> CpuV {
    if op == 0x29 {
        and_tr(immediate_tr(c1), immediate_val(c1))
    } else if op == 0x25 {
        and_tr(zeropage_tr(c1), zeropage_val(c1))
    } else if op == 0x35 {
        and_tr(zeropage_x_tr(c1), zeropage_x_val(c1))
    } else if op == 0x2D {
        and_tr(absolute_tr(c1), absolute_val(c1))
    } else if op == 0x3D {
        and_tr(absolute_x_tr(c1), absolute_x_val(c1))
    } else if op == 0x39 {
        and_tr(absolute_y_tr(c1), absolute_y_val(c1))
    } else if op == 0x21 {
        and_tr(indirect_x_tr(c1), indirect_x_val(c1))
    } else if op == 0x31 {
        and_tr(indirect_y_tr(c1), indirect_y_val(c1))
    } else if op == 0x49 {
        eor_tr(immediate_tr(c1), immediate_val(c1))
    } else if op == 0x45 {
        eor_tr(zeropage_tr(c1), zeropage_val(c1))
    } else if op == 0x55 {
        eor_tr(zeropage_x_tr(c1), zeropage_x_val(c1))
    } else if op == 0x4D {
        eor_tr(absolute_tr(c1), absolute_val(c1))
    } else if op == 0x5D {
        eor_tr(absolute_x_tr(c1), absolute_x_val(c1))
    } else if op == 0x59 {
        eor_tr(absolute_y_tr(c1), absolute_y_val(c1))
    } else if op == 0x41 {
        eor_tr(indirect_x_tr(c1), indirect_x_val(c1))
    } else if op == 0x51 {
        eor_tr(indirect_y_tr(c1), indirect_y_val(c1))
    } else if op == 0x09 {
        ora_tr(immediate_tr(c1), immediate_val(c1))
    } else if op == 0x05 {
        ora_tr(zeropage_tr(c1), zeropage_val(c1))
    } else if op == 0x15 {
        ora_tr(zeropage_x_tr(c1), zeropage_x_val(c1))
    } else if op == 0x0D {
        ora_tr(absolute_tr(c1), absolute_val(c1))
    } else if op == 0x1D {
        ora_tr(absolute_x_tr(c1), absolute_x_val(c1))
    } else if op == 0x19 {
        ora_tr(absolute_y_tr(c1), absolute_y_val(c1))
    } else if op == 0x01 {
        ora_tr(indirect_x_tr(c1), indirect_x_val(c1))
    } else if op == 0x11 {
        ora_tr(indirect_y_tr(c1), indirect_y_val(c1))
    } else {
        c1
    }
}

/// Whether `op` belongs to the comparisons CMP, CPX and CPY, and BIT.
pub open spec fn is_compare_op(op: u8) -> bool {
    ||| op == 0xC9 ||| op == 0xC5 ||| op == 0xD5 ||| op == 0xCD ||| op == 0xDD ||| op == 0xD9
    ||| op == 0xC1 ||| op == 0xD1 ||| op == 0xE0 ||| op == 0xE4 ||| op == 0xEC ||| op == 0xC0
    ||| op == 0xC4 ||| op == 0xCC ||| op == 0x24 ||| op == 0x2C
}

/// Dispatch among the comparisons CMP, CPX and CPY, and BIT.
pub open spec fn compare_tr(c1: CpuV, op: u8) -> CpuV {
    if op == 0xC9 {
        cmp_tr(immediate_tr(c1), immediate_val(c1))
    } else if op == 0xC5 {
        cmp_tr(zeropage_tr(c1), zeropage_val(c1))
    } else if op == 0xD5 {
        cmp_tr(zeropage_x_tr(c1), zeropage_x_val(c1))
    } else if op == 0xCD {
        cmp_tr(absolute_tr(c1), absolute_val(c1))
    } else if op == 0xDD {
        cmp_tr(absolute_x_tr(c1), absolute_x_val(c1))
    } else if op == 0xD9 {
        cmp_tr(absolute_y_tr(c1), absolute_y_val(c1))
    } else if op == 0xC1 {
        cmp_tr(indirect_x_tr(c1), indirect_x_val(c1))
    } else if op == 0xD1 {
        cmp_tr(indirect_y_tr(c1), indirect_y_val(c1))
    } else if op == 0xE0 {
        cpx_tr(immediate_tr(c1), immediate_val(c1))
    } else if op == 0xE4 {
        cpx_tr(zeropage_tr(c1), zeropage_val(c1))
    } else if op == 0xEC {
        cpx_tr(absolute_tr(c1), absolute_val(c1))
    } else if op == 0xC0 {
        cpy_tr(immediate_tr(c1), immediate_val(c1))
    } else if op == 0xC4 {
        cpy_tr(zeropage_tr(c1), zeropage_val(c1))
    } else if op == 0xCC {
        cpy_tr(absolute_tr(c1), absolute_val(c1))
    } else if op == 0x24 {
        bit_tr(zeropage_tr(c1), zeropage_val(c1))
    } else if op == 0x2C {
        bit_tr(absolute_tr(c1), absolute_val(c1))
    } else {
        c1
    }
}

/// Whether `op` belongs to the shifts and rotates ASL, LSR, ROL and ROR.
pub open spec fn is_shift_op(op: u8) -> bool {
    ||| op == 0x0A ||| op == 0x06 ||| op == 0x16 ||| op == 0x0E ||| op == 0x1E ||| op == 0x4A
    ||| op == 0x46 ||| op == 0x56 ||| op == 0x4E ||| op == 0x5E ||| op == 0x2A ||| op == 0x26
    ||| op == 0x36 ||| op == 0x2E ||| op == 0x3E ||| op == 0x6A ||| op == 0x66 ||| op == 0x76
    ||| op == 0x6E ||| op == 0x7E
}

/// Dispatch among the shifts and rotates ASL, LSR, ROL and ROR.
pub open spec fn shift_tr(c1: CpuV, op: u8) -> CpuV {
    if op == 0x0A {
        asl_a_tr(c1)
    } else if op == 0x06 {
        asl_tr(zeropage_addr_tr(c1), zeropage_addr_val(c1))
    } else if op == 0x16 {
        asl_tr(zeropage_x_addr_tr(c1), zeropage_x_addr_val(c1))
    } else if op == 0x0E {
        asl_tr(absolute_addr_tr(c1), absolute_addr_val(c1))
    } else if op == 0x1E {
        asl_tr(absolute_x_addr_tr(c1), absolute_x_addr_val(c1))
    } else if op == 0x4A {
        lsr_a_tr(c1)
    } else if op == 0x46 {
        lsr_tr(zeropage_addr_tr(c1), zeropage_addr_val(c1))
    } else if op == 0x56 {
        lsr_tr(zeropage_x_addr_tr(c1), zeropage_x_addr_val(c1))
    } else if op == 0x4E {
        lsr_tr(absolute_addr_tr(c1), absolute_addr_val(c1))
    } else if op == 0x5E {
        lsr_tr(absolute_x_addr_tr(c1), absolute_x_addr_val(c1))
    } else if op == 0x2A {
        rol_a_tr(c1)
    } else if op == 0x26 {
        rol_tr(zeropage_addr_tr(c1), zeropage_addr_val(c1))
    } else if op == 0x36 {
        rol_tr(zeropage_x_addr_tr(c1), zeropage_x_addr_val(c1))
    } else if op == 0x2E {
        rol_tr(absolute_addr_tr(c1), absolute_addr_val(c1))
    } else if op == 0x3E {
        rol_tr(absolute_x_addr_tr(c1), absolute_x_addr_val(c1))
    } else if op == 0x6A {
        ror_a_tr(c1)
    } else if op == 0x66 {
        ror_tr(zeropage_addr_tr(c1), zeropage_addr_val(c1))
    } else if op == 0x76 {
        ror_tr(zeropage_x_addr_tr(c1), zeropage_x_addr_val(c1))
    } else if op == 0x6E {
        ror_tr(absolute_addr_tr(c1), absolute_addr_val(c1))
    } else if op == 0x7E {
        ror_tr(absolute_x_addr_tr(c1), absolute_x_addr_val(c1))
    } else {
        c1
    }
}

/// Whether `op` belongs to the increments and decrements, on memory and on the index registers.
pub open spec fn is_incdec_op(op: u8) -> bool {
    ||| op == 0xC6 ||| op == 0xD6 ||| op == 0xCE ||| op == 0xDE ||| op == 0xE6 ||| op == 0xF6
    ||| op == 0xEE ||| op == 0xFE ||| op == 0xCA ||| op == 0x88 ||| op == 0xE8 ||| op == 0xC8
}

/// Dispatch among the increments and decrements, on memory and on the index registers.
pub open spec fn incdec_tr(c1: CpuV, op: u8) -> CpuV {
    if op == 0xC6 {
        dec_tr(zeropage_addr_tr(c1), zeropage_addr_val(c1))
    } else if op == 0xD6 {
        dec_tr(zeropage_x_addr_tr(c1), zeropage_x_addr_val(c1))
    } else if op == 0xCE {
        dec_tr(absolute_addr_tr(c1), absolute_addr_val(c1))
    } else if op == 0xDE {
        dec_tr(absolute_x_addr_tr(c1), absolute_x_addr_val(c1))
    } else if op == 0xE6 {
        inc_tr(zeropage_addr_tr(c1), zeropage_addr_val(c1))
    } else if op == 0xF6 {
        inc_tr(zeropage_x_addr_tr(c1), zeropage_x_addr_val(c1))
    } else if op == 0xEE {
        inc_tr(absolute_addr_tr(c1), absolute_addr_val(c1))
    } else if op == 0xFE {
        inc_tr(absolute_x_addr_tr(c1), absolute_x_addr_val(c1))
    } else if op == 0xCA {
        dex_tr(c1)
    } else if op == 0x88 {
        dey_tr(c1)
    } else if op == 0xE8 {
        inx_tr(c1)
    } else if op == 0xC8 {
        iny_tr(c1)
    } else {
        c1
    }
}

/// Whether `op` belongs to the stores STA, STX and STY.
pub open spec fn is_store_op(op: u8) -> bool {
    ||| op == 0x85 ||| op == 0x95 ||| op == 0x8D ||| op == 0x9D ||| op == 0x99 ||| op == 0x81
    ||| op == 0x91 ||| op == 0x86 ||| op == 0x96 ||| op == 0x8E ||| op == 0x84 ||| op == 0x94
    ||| op == 0x8C
}

/// Dispatch among the stores STA, STX and STY.
pub open spec fn store_tr(c1: CpuV, op: u8) -> CpuV {
    if op == 0x85 {
        sta_tr(zeropage_addr_tr(c1), zeropage_addr_val(c1))
    } else if op == 0x95 {
        sta_tr(zeropage_x_addr_tr(c1), zeropage_x_addr_val(c1))
    } else if op == 0x8D {
        sta_tr(absolute_addr_tr(c1), absolute_addr_val(c1))
    } else if op == 0x9D {
        sta_tr(absolute_x_addr_tr(c1), absolute_x_addr_val(c1))
    } else if op == 0x99 {
        sta_tr(absolute_y_addr_tr(c1), absolute_y_addr_val(c1))
    } else if op == 0x81 {
        sta_tr(indirect_x_addr_tr(c1), indirect_x_addr_val(c1))
    } else if op == 0x91 {
        sta_tr(indirect_y_addr_tr(c1), indirect_y_addr_val(c1))
    } else if op == 0x86 {
        stx_tr(zeropage_addr_tr(c1), zeropage_addr_val(c1))
    } else if op == 0x96 {
        stx_tr(zeropage_y_addr_tr(c1), zeropage_y_addr_val(c1))
    } else if op == 0x8E {
        stx_tr(absolute_addr_tr(c1), absolute_addr_val(c1))
    } else if op == 0x84 {
        sty_tr(zeropage_addr_tr(c1), zeropage_addr_val(c1))
    } else if op == 0x94 {
        sty_tr(zeropage_x_addr_tr(c1), zeropage_x_addr_val(c1))
    } else if op == 0x8C {
        sty_tr(absolute_addr_tr(c1), absolute_addr_val(c1))
    } else {
        c1
    }
}

/// Whether `op` belongs to the eight conditional branches.
pub open spec fn is_branch_op(op: u8) -> bool {
    ||| op == 0x10 ||| op == 0x30 ||| op == 0x50 ||| op == 0x70 ||| op == 0x90 ||| op == 0xB0
    ||| op == 0xD0 ||| op == 0xF0
}

/// Dispatch among the eight conditional branches.
pub open spec fn branch_op_tr(c1: CpuV, op: u8) -> CpuV {
    if op == 0x10 {
        branch_tr(c1, !c1.flags.negative)
    } else if op == 0x30 {
        branch_tr(c1, c1.flags.negative)
    } else if op == 0x50 {
        branch_tr(c1, !c1.flags.overflow)
    } else if op == 0x70 {
        branch_tr(c1, c1.flags.overflow)
    } else if op == 0x90 {
        branch_tr(c1, !c1.flags.carry)
    } else if op == 0xB0 {
        branch_tr(c1, c1.flags.carry)
    } else if op == 0xD0 {
        branch_tr(c1, !c1.flags.zero)
    } else if op == 0xF0 {
        branch_tr(c1, c1.flags.zero)
    } else {
        c1
    }
}

/// Whether `op` belongs to BRK, the jumps, JSR and the two returns.
pub open spec fn is_flow_op(op: u8) -> bool {
    ||| op == 0x00 ||| op == 0x4C ||| op == 0x6C ||| op == 0x20 ||| op == 0x40 ||| op == 0x60
}

/// Dispatch among BRK, the jumps, JSR and the two returns.
pub open spec fn flow_tr(c1: CpuV, op: u8) -> CpuV {
    if op == 0x00 {
        brk_tr(c1)
    } else if op == 0x4C {
        jmp_absolute_tr(c1)
    } else if op == 0x6C {
        jmp_indirect_tr(c1)
    } else if op == 0x20 {
        jsr_tr(c1)
    } else if op == 0x40 {
        rti_tr(c1)
    } else if op == 0x60 {
        rts_tr(c1)
    } else {
        c1
    }
}

/// Whether `op` belongs to the stack pushes and pulls PHA, PHP, PLA and PLP.
pub open spec fn is_stack_op(op: u8) -> bool {
    ||| op == 0x48 ||| op == 0x08 ||| op == 0x68 ||| op == 0x28
}

/// Dispatch among the stack pushes and pulls PHA, PHP, PLA and PLP.
pub open spec fn stack_op_tr(c1: CpuV, op: u8) -> CpuV {
    if op == 0x48 {
        pha_tr(c1)
    } else if op == 0x08 {
        php_tr(c1)
    } else if op == 0x68 {
        pla_tr(c1)
    } else if op == 0x28 {
        plp_tr(c1)
    } else {
        c1
    }
}

/// Whether `op` belongs to the flag sets and clears, the register transfers, NOP and the KIL/JAM group.
pub open spec fn is_misc_op(op: u8) -> bool {
    ||| op == 0x18 ||| op == 0xD8 ||| op == 0x58 ||| op == 0xB8 ||| op == 0x38 ||| op == 0xF8
    ||| op == 0x78 ||| op == 0xAA ||| op == 0xA8 ||| op == 0xBA ||| op == 0x8A ||| op == 0x9A
    ||| op == 0x98 ||| op == 0xEA ||| op == 0x02 ||| op == 0x12 ||| op == 0x22 ||| op == 0x32
    ||| op == 0x42 ||| op == 0x52 ||| op == 0x62 ||| op == 0x72 ||| op == 0x92 ||| op == 0xB2
    ||| op == 0xD2 ||| op == 0xF2
}

/// Dispatch among the flag sets and clears, the register transfers, NOP and the KIL/JAM group.
pub open spec fn misc_tr(c1: CpuV, op: u8) -> CpuV {
    if op == 0x18 {
        CpuV { flags: Flags { carry: false, ..c1.flags }, ..c1 }
    } else if op == 0xD8 {
        CpuV { flags: Flags { decimal: false, ..c1.flags }, ..c1 }
    } else if op == 0x58 {
        CpuV { flags: Flags { interrupt_disable: false, ..c1.flags }, ..c1 }
    } else if op == 0xB8 {
        CpuV { flags: Flags { overflow: false, ..c1.flags }, ..c1 }
    } else if op == 0x38 {
        CpuV { flags: Flags { carry: true, ..c1.flags }, ..c1 }
    } else if op == 0xF8 {
        CpuV { flags: Flags { decimal: true, ..c1.flags }, ..c1 }
    } else if op == 0x78 {
        CpuV { flags: Flags { interrupt_disable: true, ..c1.flags }, ..c1 }
    } else if op == 0xAA {
        tax_tr(c1)
    } else if op == 0xA8 {
        tay_tr(c1)
    } else if op == 0xBA {
        tsx_tr(c1)
    } else if op == 0x8A {
        txa_tr(c1)
    } else if op == 0x9A {
        txs_tr(c1)
    } else if op == 0x98 {
        tya_tr(c1)
    } else if op == 0xEA {
        nop_tr(c1)
    } else if op == 0x02 {
        hlt_tr(c1)
    } else if op == 0x12 {
        hlt_tr(c1)
    } else if op == 0x22 {
        hlt_tr(c1)
    } else if op == 0x32 {
        hlt_tr(c1)
    } else if op == 0x42 {
        hlt_tr(c1)
    } else if op == 0x52 {
        hlt_tr(c1)
    } else if op == 0x62 {
        hlt_tr(c1)
    } else if op == 0x72 {
        hlt_tr(c1)
    } else if op == 0x92 {
        hlt_tr(c1)
    } else if op == 0xB2 {
        hlt_tr(c1)
    } else if op == 0xD2 {
        hlt_tr(c1)
    } else if op == 0xF2 {
        hlt_tr(c1)
    } else {
        c1
    }
}

/// Dispatch an already-fetched opcode: an opcode outside the official set
/// changes nothing further.
pub open spec fn dispatch_tr(c1: CpuV, op: u8) -> CpuV {
    if is_load_op(op) {
        load_tr(c1, op)
    } else if is_arith_op(op) {
        arith_tr(c1, op)
    } else if is_logic_op(op) {
        logic_tr(c1, op)
    } else if is_compare_op(op) {
        compare_tr(c1, op)
    } else if is_shift_op(op) {
        shift_tr(c1, op)
    } else if is_incdec_op(op) {
        incdec_tr(c1, op)
    } else if is_store_op(op) {
        store_tr(c1, op)
    } else if is_branch_op(op) {
        branch_op_tr(c1, op)
    } else if is_flow_op(op) {
        flow_tr(c1, op)
    } else if is_stack_op(op) {
        stack_op_tr(c1, op)
    } else if is_misc_op(op) {
        misc_tr(c1, op)
    } else {
        c1
    }
}

/// One full instruction step: the fetch bookkeeping, then the dispatch.
pub open spec fn step_tr(c: CpuV) -> CpuV {
    dispatch_tr(step_start(c), fetched_opcode(c))
}

impl Cpu {
    /// Run one opcode of the register loads LDA, LDX and LDY.
    #[verifier::rlimit(100)]
    #[verifier::spinoff_prover]
    fn run_load(&mut self, byte: u8)
        requires
            cpu_wf(old(self)@),
        ensures
            cpu_wf(final(self)@),
            final(self)@ == load_tr(old(self)@, byte),
            final(self)@.running == old(self)@.running,
    {
        match byte {
            0xA9 => { let operand = self.immediate(); self.lda(operand); }
            0xA5 => { let operand = self.zeropage(); self.lda(operand); }
            0xB5 => { let operand = self.zeropage_x(); self.lda(operand); }
            0xAD => { let operand = self.absolute(); self.lda(operand); }
            0xBD => { let operand = self.absolute_x(); self.lda(operand); }
            0xB9 => { let operand = self.absolute_y(); self.lda(operand); }
            0xA1 => { let operand = self.indirect_x(); self.lda(operand); }
            0xB1 => { let operand = self.indirect_y(); self.lda(operand); }
            0xA2 => { let operand = self.immediate(); self.ldx(operand); }
            0xA6 => { let operand = self.zeropage(); self.ldx(operand); }
            0xB6 => { let operand = self.zeropage_y(); self.ldx(operand); }
            0xAE => { let operand = self.absolute(); self.ldx(operand); }
            0xBE => { let operand = self.absolute_y(); self.ldx(operand); }
            0xA0 => { let operand = self.immediate(); self.ldy(operand); }
            0xA4 => { let operand = self.zeropage(); self.ldy(operand); }
            0xB4 => { let operand = self.zeropage_x(); self.ldy(operand); }
            0xAC => { let operand = self.absolute(); self.ldy(operand); }
            0xBC => { let operand = self.absolute_x(); self.ldy(operand); }
            _ => {}
        }
    }

    /// Run one opcode of the additions and subtractions ADC and SBC.
    #[verifier::rlimit(100)]
    #[verifier::spinoff_prover]
    fn run_arith(&mut self, byte: u8)
        requires
            cpu_wf(old(self)@),
        ensures
            cpu_wf(final(self)@),
            final(self)@ == arith_tr(old(self)@, byte),
            final(self)@.running == old(self)@.running,
    {
        match byte {
            0x69 => { let operand = self.immediate(); self.adc(operand); }
            0x65 => { let operand = self.zeropage(); self.adc(operand); }
            0x75 => { let operand = self.zeropage_x(); self.adc(operand); }
            0x6D => { let operand = self.absolute(); self.adc(operand); }
            0x7D => { let operand = self.absolute_x(); self.adc(operand); }
            0x79 => { let operand = self.absolute_y(); self.adc(operand); }
            0x61 => { let operand = self.indirect_x(); self.adc(operand); }
            0x71 => { let operand = self.indirect_y(); self.adc(operand); }
            0xE9 => { let operand = self.immediate(); self.sbc(operand); }
            0xE5 => { let operand = self.zeropage(); self.sbc(operand); }
            0xF5 => { let operand = self.zeropage_x(); self.sbc(operand); }
            0xED => { let operand = self.absolute(); self.sbc(operand); }
            0xFD => { let operand = self.absolute_x(); self.sbc(operand); }
            0xF9 => { let operand = self.absolute_y(); self.sbc(operand); }
            0xE1 => { let operand = self.indirect_x(); self.sbc(operand); }
            0xF1 => { let operand = self.indirect_y(); self.sbc(operand); }
            _ => {}
        }
    }

    /// Run one opcode of the bitwise AND, EOR and ORA.
    #[verifier::rlimit(100)]
    #[verifier::spinoff_prover]
    fn run_logic(&mut self, byte: u8)
        requires
            cpu_wf(old(self)@),
        ensures
            cpu_wf(final(self)@),
            final(self)@ == logic_tr(old(self)@, byte),
            final(self)@.running == old(self)@.running,
    {
        match byte {
            0x29 => { let operand = self.immediate(); self.and(operand); }
            0x25 => { let operand = self.zeropage(); self.and(operand); }
            0x35 => { let operand = self.zeropage_x(); self.and(operand); }
            0x2D => { let operand = self.absolute(); self.and(operand); }
            0x3D => { let operand = self.absolute_x(); self.and(operand); }
            0x39 => { let operand = self.absolute_y(); self.and(operand); }
            0x21 => { let operand = self.indirect_x(); self.and(operand); }
            0x31 => { let operand = self.indirect_y(); self.and(operand); }
            0x49 => { let operand = self.immediate(); self.eor(operand); }
            0x45 => { let operand = self.zeropage(); self.eor(operand); }
            0x55 => { let operand = self.zeropage_x(); self.eor(operand); }
            0x4D => { let operand = self.absolute(); self.eor(operand); }
            0x5D => { let operand = self.absolute_x(); self.eor(operand); }
            0x59 => { let operand = self.absolute_y(); self.eor(operand); }
            0x41 => { let operand = self.indirect_x(); self.eor(operand); }
            0x51 => { let operand = self.indirect_y(); self.eor(operand); }
            0x09 => { let operand = self.immediate(); self.ora(operand); }
            0x05 => { let operand = self.zeropage(); self.ora(operand); }
            0x15 => { let operand = self.zeropage_x(); self.ora(operand); }
            0x0D => { let operand = self.absolute(); self.ora(operand); }
            0x1D => { let operand = self.absolute_x(); self.ora(operand); }
            0x19 => { let operand = self.absolute_y(); self.ora(operand); }
            0x01 => { let operand = self.indirect_x(); self.ora(operand); }
            0x11 => { let operand = self.indirect_y(); self.ora(operand); }
            _ => {}
        }
    }

    /// Run one opcode of the comparisons CMP, CPX and CPY, and BIT.
    #[verifier::rlimit(100)]
    #[verifier::spinoff_prover]
    fn run_compare(&mut self, byte: u8)
        requires
            cpu_wf(old(self)@),
        ensures
            cpu_wf(final(self)@),
            final(self)@ == compare_tr(old(self)@, byte),
            final(self)@.running == old(self)@.running,
    {
        match byte {
            0xC9 => { let operand = self.immediate(); self.cmp(operand); }
            0xC5 => { let operand = self.zeropage(); self.cmp(operand); }
            0xD5 => { let operand = self.zeropage_x(); self.cmp(operand); }
            0xCD => { let operand = self.absolute(); self.cmp(operand); }
            0xDD => { let operand = self.absolute_x(); self.cmp(operand); }
            0xD9 => { let operand = self.absolute_y(); self.cmp(operand); }
            0xC1 => { let operand = self.indirect_x(); self.cmp(operand); }
            0xD1 => { let operand = self.indirect_y(); self.cmp(operand); }
            0xE0 => { let operand = self.immediate(); self.cpx(operand); }
            0xE4 => { let operand = self.zeropage(); self.cpx(operand); }
            0xEC => { let operand = self.absolute(); self.cpx(operand); }
            0xC0 => { let operand = self.immediate(); self.cpy(operand); }
            0xC4 => { let operand = self.zeropage(); self.cpy(operand); }
            0xCC => { let operand = self.absolute(); self.cpy(operand); }
            0x24 => { let operand = self.zeropage(); self.bit(operand); }
            0x2C => { let operand = self.absolute(); self.bit(operand); }
            _ => {}
        }
    }

    /// Run one opcode of the shifts and rotates ASL, LSR, ROL and ROR.
    #[verifier::rlimit(100)]
    #[verifier::spinoff_prover]
    fn run_shift(&mut self, byte: u8)
        requires
            cpu_wf(old(self)@),
        ensures
            cpu_wf(final(self)@),
            final(self)@ == shift_tr(old(self)@, byte),
            final(self)@.running == old(self)@.running,
    {
        match byte {
            0x0A => self.asl_accumulator(),
            0x06 => { let addr = self.zeropage_addr(); self.asl(addr); }
            0x16 => { let addr = self.zeropage_x_addr(); self.asl(addr); }
            0x0E => { let addr = self.absolute_addr(); self.asl(addr); }
            0x1E => { let addr = self.absolute_x_addr(); self.asl(addr); }
            0x4A => self.lsr_accumulator(),
            0x46 => { let addr = self.zeropage_addr(); self.lsr(addr); }
            0x56 => { let addr = self.zeropage_x_addr(); self.lsr(addr); }
            0x4E => { let addr = self.absolute_addr(); self.lsr(addr); }
            0x5E => { let addr = self.absolute_x_addr(); self.lsr(addr); }
            0x2A => self.rol_accumulator(),
            0x26 => { let addr = self.zeropage_addr(); self.rol(addr); }
            0x36 => { let addr = self.zeropage_x_addr(); self.rol(addr); }
            0x2E => { let addr = self.absolute_addr(); self.rol(addr); }
            0x3E => { let addr = self.absolute_x_addr(); self.rol(addr); }
            0x6A => self.ror_accumulator(),
            0x66 => { let addr = self.zeropage_addr(); self.ror(addr); }
            0x76 => { let addr = self.zeropage_x_addr(); self.ror(addr); }
            0x6E => { let addr = self.absolute_addr(); self.ror(addr); }
            0x7E => { let addr = self.absolute_x_addr(); self.ror(addr); }
            _ => {}
        }
    }

    /// Run one opcode of the increments and decrements, on memory and on the index registers.
    #[verifier::rlimit(100)]
    #[verifier::spinoff_prover]
    fn run_incdec(&mut self, byte: u8)
        requires
            cpu_wf(old(self)@),
        ensures
            cpu_wf(final(self)@),
            final(self)@ == incdec_tr(old(self)@, byte),
            final(self)@.running == old(self)@.running,
    {
        match byte {
            0xC6 => { let addr = self.zeropage_addr(); self.dec(addr); }
            0xD6 => { let addr = self.zeropage_x_addr(); self.dec(addr); }
            0xCE => { let addr = self.absolute_addr(); self.dec(addr); }
            0xDE => { let addr = self.absolute_x_addr(); self.dec(addr); }
            0xE6 => { let addr = self.zeropage_addr(); self.inc(addr); }
            0xF6 => { let addr = self.zeropage_x_addr(); self.inc(addr); }
            0xEE => { let addr = self.absolute_addr(); self.inc(addr); }
            0xFE => { let addr = self.absolute_x_addr(); self.inc(addr); }
            0xCA => self.dex(),
            0x88 => self.dey(),
            0xE8 => self.inx(),
            0xC8 => self.iny(),
            _ => {}
        }
    }

    /// Run one opcode of the stores STA, STX and STY.
    #[verifier::rlimit(100)]
    #[verifier::spinoff_prover]
    fn run_store(&mut self, byte: u8)
        requires
            cpu_wf(old(self)@),
        ensures
            cpu_wf(final(self)@),
            final(self)@ == store_tr(old(self)@, byte),
            final(self)@.running == old(self)@.running,
    {
        match byte {
            0x85 => { let addr = self.zeropage_addr(); self.sta(addr); }
            0x95 => { let addr = self.zeropage_x_addr(); self.sta(addr); }
            0x8D => { let addr = self.absolute_addr(); self.sta(addr); }
            0x9D => { let addr = self.absolute_x_addr(); self.sta(addr); }
            0x99 => { let addr = self.absolute_y_addr(); self.sta(addr); }
            0x81 => { let addr = self.indirect_x_addr(); self.sta(addr); }
            0x91 => { let addr = self.indirect_y_addr(); self.sta(addr); }
            0x86 => { let addr = self.zeropage_addr(); self.stx(addr); }
            0x96 => { let addr = self.zeropage_y_addr(); self.stx(addr); }
            0x8E => { let addr = self.absolute_addr(); self.stx(addr); }
            0x84 => { let addr = self.zeropage_addr(); self.sty(addr); }
            0x94 => { let addr = self.zeropage_x_addr(); self.sty(addr); }
            0x8C => { let addr = self.absolute_addr(); self.sty(addr); }
            _ => {}
        }
    }

    /// Run one opcode of the eight conditional branches.
    #[verifier::rlimit(100)]
    #[verifier::spinoff_prover]
    fn run_branch(&mut self, byte: u8)
        requires
            cpu_wf(old(self)@),
        ensures
            cpu_wf(final(self)@),
            final(self)@ == branch_op_tr(old(self)@, byte),
            final(self)@.running == old(self)@.running,
    {
        match byte {
            0x10 => self.branch_flag(!self.flags.negative),
            0x30 => self.branch_flag(self.flags.negative),
            0x50 => self.branch_flag(!self.flags.overflow),
            0x70 => self.branch_flag(self.flags.overflow),
            0x90 => self.branch_flag(!self.flags.carry),
            0xB0 => self.branch_flag(self.flags.carry),
            0xD0 => self.branch_flag(!self.flags.zero),
            0xF0 => self.branch_flag(self.flags.zero),
            _ => {}
        }
    }

    /// Run one opcode of BRK, the jumps, JSR and the two returns.
    #[verifier::rlimit(100)]
    #[verifier::spinoff_prover]
    fn run_flow(&mut self, byte: u8)
        requires
            cpu_wf(old(self)@),
        ensures
            cpu_wf(final(self)@),
            final(self)@ == flow_tr(old(self)@, byte),
            final(self)@.running == old(self)@.running,
    {
        match byte {
            0x00 => self.brk(),
            0x4C => self.jmp_absolute(),
            0x6C => self.jmp_indirect(),
            0x20 => self.jsr_absolute(),
            0x40 => self.rti(),
            0x60 => self.rts(),
            _ => {}
        }
    }

    /// Run one opcode of the stack pushes and pulls PHA, PHP, PLA and PLP.
    #[verifier::rlimit(100)]
    #[verifier::spinoff_prover]
    fn run_stack_op(&mut self, byte: u8)
        requires
            cpu_wf(old(self)@),
        ensures
            cpu_wf(final(self)@),
            final(self)@ == stack_op_tr(old(self)@, byte),
            final(self)@.running == old(self)@.running,
    {
        match byte {
            0x48 => self.pha(),
            0x08 => self.php(),
            0x68 => self.pla(),
            0x28 => self.plp(),
            _ => {}
        }
    }

    /// Run one opcode of the flag sets and clears, the register transfers, NOP and the KIL/JAM group.
    #[verifier::rlimit(100)]
    #[verifier::spinoff_prover]
    fn run_misc(&mut self, byte: u8)
        requires
            cpu_wf(old(self)@),
        ensures
            cpu_wf(final(self)@),
            final(self)@ == misc_tr(old(self)@, byte),
            final(self)@.running == (old(self)@.running && !is_kil(byte)),
    {
        match byte {
            0x18 => { self.flags.carry = false; }
            0xD8 => { self.flags.decimal = false; }
            0x58 => { self.flags.interrupt_disable = false; }
            0xB8 => { self.flags.overflow = false; }
            0x38 => { self.flags.carry = true; }
            0xF8 => { self.flags.decimal = true; }
            0x78 => { self.flags.interrupt_disable = true; }
            0xAA => self.tax(),
            0xA8 => self.tay(),
            0xBA => self.tsx(),
            0x8A => self.txa(),
            0x9A => self.txs(),
            0x98 => self.tya(),
            0xEA => self.nop(),
            0x02 => self.hlt(),
            0x12 => self.hlt(),
            0x22 => self.hlt(),
            0x32 => self.hlt(),
            0x42 => self.hlt(),
            0x52 => self.hlt(),
            0x62 => self.hlt(),
            0x72 => self.hlt(),
            0x92 => self.hlt(),
            0xB2 => self.hlt(),
            0xD2 => self.hlt(),
            0xF2 => self.hlt(),
            _ => {}
        }
    }

    /// Run one instruction: reset the cycle counter, fetch the opcode,
    /// dispatch it, and return the cycles the instruction consumed. The
    /// running flag survives every opcode but the KIL/JAM group.
    #[verifier::rlimit(100)]
    #[verifier::spinoff_prover]
    pub fn clock(&mut self) -> (r: usize)
        requires
            cpu_wf(old(self)@),
        ensures
            cpu_wf(final(self)@),
            final(self)@ == step_tr(old(self)@),
            r == final(self)@.cycles,
            final(self)@.running
                == (old(self)@.running && !is_kil(fetched_opcode(old(self)@))),
    {
        self.cycles = 0;
        self.last_location = self.counter;
        let byte = self.read_next();
        self.last_read_instruction = byte;
        proof {
            assert(self@ == step_start(old(self)@));
            assert(byte == fetched_opcode(old(self)@));
        }

        match byte {
            0xA9 | 0xA5 | 0xB5 | 0xAD | 0xBD | 0xB9 | 0xA1 | 0xB1
            | 0xA2 | 0xA6 | 0xB6 | 0xAE | 0xBE | 0xA0 | 0xA4 | 0xB4
            | 0xAC | 0xBC => self.run_load(byte),
            0x69 | 0x65 | 0x75 | 0x6D | 0x7D | 0x79 | 0x61 | 0x71
            | 0xE9 | 0xE5 | 0xF5 | 0xED | 0xFD | 0xF9 | 0xE1 | 0xF1 => self.run_arith(byte),
            0x29 | 0x25 | 0x35 | 0x2D | 0x3D | 0x39 | 0x21 | 0x31
            | 0x49 | 0x45 | 0x55 | 0x4D | 0x5D | 0x59 | 0x41 | 0x51
            | 0x09 | 0x05 | 0x15 | 0x0D | 0x1D | 0x19 | 0x01 | 0x11 => self.run_logic(byte),
            0xC9 | 0xC5 | 0xD5 | 0xCD | 0xDD | 0xD9 | 0xC1 | 0xD1
            | 0xE0 | 0xE4 | 0xEC | 0xC0 | 0xC4 | 0xCC | 0x24 | 0x2C => self.run_compare(byte),
            0x0A | 0x06 | 0x16 | 0x0E | 0x1E | 0x4A | 0x46 | 0x56
            | 0x4E | 0x5E | 0x2A | 0x26 | 0x36 | 0x2E | 0x3E | 0x6A
            | 0x66 | 0x76 | 0x6E | 0x7E => self.run_shift(byte),
            0xC6 | 0xD6 | 0xCE | 0xDE | 0xE6 | 0xF6 | 0xEE | 0xFE
            | 0xCA | 0x88 | 0xE8 | 0xC8 => self.run_incdec(byte),
            0x85 | 0x95 | 0x8D | 0x9D | 0x99 | 0x81 | 0x91 | 0x86
            | 0x96 | 0x8E | 0x84 | 0x94 | 0x8C => self.run_store(byte),
            0x10 | 0x30 | 0x50 | 0x70 | 0x90 | 0xB0 | 0xD0 | 0xF0 => self.run_branch(byte),
            0x00 | 0x4C | 0x6C | 0x20 | 0x40 | 0x60 => self.run_flow(byte),
            0x48 | 0x08 | 0x68 | 0x28 => self.run_stack_op(byte),
            0x18 | 0xD8 | 0x58 | 0xB8 | 0x38 | 0xF8 | 0x78 | 0xAA
            | 0xA8 | 0xBA | 0x8A | 0x9A | 0x98 | 0xEA | 0x02 | 0x12
            | 0x22 | 0x32 | 0x42 | 0x52 | 0x62 | 0x72 | 0x92 | 0xB2
            | 0xD2 | 0xF2 => self.run_misc(byte),
            _ => {}
        }

        self.cycles
    }
}

/// Law: the stack round-trips. Pushing a byte and pulling straight after
/// returns that byte, and the stack pointer ends where it began.
pub proof fn lemma_stack_round_trip(c: CpuV, b: u8)
    requires
        cpu_wf(c),
    ensures
        pull_val(push_tr(c, b)) == b,
        pull_tr(push_tr(c, b)).stack == c.stack,
{
    assert(c.stack.wrapping_sub(1).wrapping_add(1) == c.stack);
    let pushed = push_tr(c, b);
    assert(pushed.bus.ram == c.bus.ram.update((stack_slot(c.stack) % 0x800) as int, b));
    assert((stack_slot(c.stack) % 0x800) as int == 0x100 + c.stack);
}

} // verus!
