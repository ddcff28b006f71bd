//! CPU-level checks: status-byte round trips, the ADC overflow rule on
//! concrete operands, stack round trips, branch cycle costs, and the
//! flag behaviour of loads, transfers and arithmetic.

use nes_core::card::Card;
use nes_core::cpu::bus::Bus;
use nes_core::cpu::status_flags::CpuFlags;
use nes_core::cpu::Cpu;
use nes_core::mapper::NROM;
use nes_core::ppu::{Ppu, VBus};
use nes_core::rom::Rom;

/// A CPU over a 32 KiB PRG cartridge holding `program` at 0x8000, reset.
fn cpu_with(program: &[u8]) -> Cpu {
    let mut prg_bytes: Vec<u8> = vec![0u8; 32 * 1024];
    prg_bytes[..program.len()].copy_from_slice(program);
    prg_bytes[0x7FFC] = 0x00;
    prg_bytes[0x7FFD] = 0x80;
    prg_bytes[0x7FFE] = 0x00;
    prg_bytes[0x7FFF] = 0x90;
    let mut prg_rom = Rom::with_capacity(32 * 1024);
    prg_rom.consume_bytes(&mut prg_bytes);
    let mut chr_bytes: Vec<u8> = vec![0u8; 8 * 1024];
    let mut chr_rom = Rom::with_capacity(8 * 1024);
    chr_rom.consume_bytes(&mut chr_bytes);

    let card = Card::new(NROM::new(prg_rom, chr_rom));
    let ppu = Ppu::new(VBus::new(true, false));
    let mut cpu = Cpu::new(Bus::new(card, ppu));
    cpu.reset();
    cpu
}

#[test]
fn status_byte_round_trip_drops_break_bit() {
    let f = CpuFlags {
        carry: true,
        zero: false,
        interrupt_disable: true,
        decimal: false,
        brk: true,
        overflow: true,
        negative: false,
    };
    let round = CpuFlags::from_byte(f.to_byte());
    assert_eq!(round.carry, f.carry);
    assert_eq!(round.zero, f.zero);
    assert_eq!(round.interrupt_disable, f.interrupt_disable);
    assert_eq!(round.decimal, f.decimal);
    assert_eq!(round.overflow, f.overflow);
    assert_eq!(round.negative, f.negative);
    assert!(!round.brk);
}

#[test]
fn status_byte_keeps_unused_bit_high() {
    let f = CpuFlags::from_byte(0x00);
    assert_eq!(f.to_byte(), 0x20);
    assert_eq!(CpuFlags::from_byte(0xFF).to_byte(), 0xEF);
}

#[test]
fn stack_round_trip_restores_pointer() {
    let mut cpu = cpu_with(&[]);
    let sp: u8 = cpu.stack;
    cpu.push_stack(0x5A);
    assert_eq!(cpu.stack, sp.wrapping_sub(1));
    assert_eq!(cpu.pull_stack(), 0x5A);
    assert_eq!(cpu.stack, sp);
}

#[test]
fn stack_round_trip_wraps_at_zero() {
    let mut cpu = cpu_with(&[]);
    cpu.stack = 0x00;
    cpu.push_stack(0x77);
    assert_eq!(cpu.stack, 0xFF);
    assert_eq!(cpu.pull_stack(), 0x77);
    assert_eq!(cpu.stack, 0x00);
}

#[test]
fn pha_pla_round_trip() {
    let mut cpu = cpu_with(&[]);
    cpu.reg_a = 0xC3;
    cpu.pha();
    cpu.reg_a = 0x00;
    cpu.pla();
    assert_eq!(cpu.reg_a, 0xC3);
    assert!(cpu.flags.negative);
    assert!(!cpu.flags.zero);
}

#[test]
fn adc_overflow_on_like_signs() {
    // 0x50 + 0x50 = 0xA0: both positive, negative result — overflow.
    let mut cpu = cpu_with(&[]);
    cpu.reg_a = 0x50;
    cpu.flags.carry = false;
    cpu.adc(0x50);
    assert_eq!(cpu.reg_a, 0xA0);
    assert!(cpu.flags.overflow);
    assert!(cpu.flags.negative);
    assert!(!cpu.flags.carry);
    assert!(!cpu.flags.zero);
}

#[test]
fn adc_no_overflow_on_mixed_signs() {
    // 0x50 + 0x90: signs differ — never a signed overflow.
    let mut cpu = cpu_with(&[]);
    cpu.reg_a = 0x50;
    cpu.flags.carry = false;
    cpu.adc(0x90);
    assert_eq!(cpu.reg_a, 0xE0);
    assert!(!cpu.flags.overflow);
}

#[test]
fn adc_carry_in_and_out() {
    let mut cpu = cpu_with(&[]);
    cpu.reg_a = 0xFF;
    cpu.flags.carry = true;
    cpu.adc(0x00);
    assert_eq!(cpu.reg_a, 0x00);
    assert!(cpu.flags.carry);
    assert!(cpu.flags.zero);
    assert!(!cpu.flags.negative);
    // negative overflow: 0x80 + 0x80 wraps to 0 with overflow set
    cpu.flags.carry = false;
    cpu.reg_a = 0x80;
    cpu.adc(0x80);
    assert_eq!(cpu.reg_a, 0x00);
    assert!(cpu.flags.overflow);
    assert!(cpu.flags.carry);
}

#[test]
fn sbc_borrow_and_overflow() {
    let mut cpu = cpu_with(&[]);
    cpu.reg_a = 0x50;
    cpu.flags.carry = true;
    cpu.sbc(0xB0);
    // 0x50 - 0xB0 = 0xA0 with borrow: carry clear, overflow set
    assert_eq!(cpu.reg_a, 0xA0);
    assert!(!cpu.flags.carry);
    assert!(cpu.flags.overflow);
    assert!(cpu.flags.negative);
}

#[test]
fn branch_untaken_costs_two_cycles() {
    // BEQ with zero clear: opcode fetch plus displacement fetch.
    let mut cpu = cpu_with(&[0xF0, 0x10]);
    cpu.flags.zero = false;
    let cycles: usize = cpu.clock();
    assert_eq!(cycles, 2);
    assert_eq!(cpu.counter, 0x8002);
}

#[test]
fn branch_taken_costs_one_more() {
    let mut cpu = cpu_with(&[0xF0, 0x10]);
    cpu.flags.zero = true;
    let cycles: usize = cpu.clock();
    assert_eq!(cycles, 3);
    assert_eq!(cpu.counter, 0x8012);
}

#[test]
fn branch_across_page_costs_two_more() {
    // BEQ with displacement 0x7F from 0x8000: 0x8002 + 0x7F = 0x8081 stays
    // on the page; a backward branch crosses into 0x7F__.
    let mut cpu = cpu_with(&[0xF0, 0x80]);
    cpu.flags.zero = true;
    let cycles: usize = cpu.clock();
    // target 0x8002 - 0x80 = 0x7F82: page crossed
    assert_eq!(cycles, 4);
    assert_eq!(cpu.counter, 0x7F82);
}

#[test]
fn compare_sets_carry_zero_negative() {
    let mut cpu = cpu_with(&[]);
    cpu.reg_a = 0x40;
    cpu.cmp(0x30);
    assert!(cpu.flags.carry);
    assert!(!cpu.flags.zero);
    cpu.cmp(0x40);
    assert!(cpu.flags.carry);
    assert!(cpu.flags.zero);
    cpu.cmp(0x50);
    assert!(!cpu.flags.carry);
    assert!(cpu.flags.negative);
}

#[test]
fn loads_set_zero_and_negative() {
    let mut cpu = cpu_with(&[]);
    cpu.lda(0x00);
    assert!(cpu.flags.zero);
    assert!(!cpu.flags.negative);
    cpu.ldx(0x80);
    assert!(!cpu.flags.zero);
    assert!(cpu.flags.negative);
    cpu.ldy(0x7F);
    assert!(!cpu.flags.zero);
    assert!(!cpu.flags.negative);
}

#[test]
fn transfers_recompute_flags() {
    let mut cpu = cpu_with(&[]);
    cpu.reg_a = 0x00;
    cpu.flags.negative = true;
    cpu.tax();
    assert_eq!(cpu.reg_x, 0);
    assert!(cpu.flags.zero);
    assert!(!cpu.flags.negative);
    cpu.reg_x = 0x90;
    cpu.txa();
    assert_eq!(cpu.reg_a, 0x90);
    assert!(cpu.flags.negative);
}

#[test]
fn txs_leaves_flags_alone() {
    let mut cpu = cpu_with(&[]);
    cpu.flags.zero = true;
    cpu.reg_x = 0x00;
    cpu.txs();
    assert_eq!(cpu.stack, 0x00);
    assert!(cpu.flags.zero);
}

#[test]
fn shifts_and_rotates_move_carry() {
    let mut cpu = cpu_with(&[]);
    cpu.reg_a = 0x81;
    cpu.flags.carry = false;
    cpu.asl_accumulator();
    assert_eq!(cpu.reg_a, 0x02);
    assert!(cpu.flags.carry);
    cpu.reg_a = 0x01;
    cpu.lsr_accumulator();
    assert_eq!(cpu.reg_a, 0x00);
    assert!(cpu.flags.carry);
    assert!(cpu.flags.zero);
    cpu.reg_a = 0x40;
    cpu.rol_accumulator();
    assert_eq!(cpu.reg_a, 0x81);
    assert!(!cpu.flags.carry);
    cpu.reg_a = 0x01;
    cpu.flags.carry = true;
    cpu.ror_accumulator();
    assert_eq!(cpu.reg_a, 0x80);
    assert!(cpu.flags.carry);
    assert!(cpu.flags.negative);
}

#[test]
fn eor_and_ora_follow_the_result() {
    let mut cpu = cpu_with(&[]);
    cpu.reg_a = 0xFF;
    cpu.eor(0xFF);
    assert_eq!(cpu.reg_a, 0x00);
    assert!(cpu.flags.zero);
    cpu.ora(0x80);
    assert_eq!(cpu.reg_a, 0x80);
    assert!(cpu.flags.negative);
    assert!(!cpu.flags.zero);
    cpu.and(0x0F);
    assert_eq!(cpu.reg_a, 0x00);
    assert!(cpu.flags.zero);
}

#[test]
fn bit_copies_operand_bits() {
    let mut cpu = cpu_with(&[]);
    cpu.reg_a = 0x01;
    cpu.bit(0xC0);
    assert!(cpu.flags.zero);
    assert!(cpu.flags.negative);
    assert!(cpu.flags.overflow);
}

#[test]
fn inc_dec_on_memory_wrap() {
    let mut cpu = cpu_with(&[]);
    cpu.write(0x0010, 0xFF);
    cpu.inc(0x0010);
    assert_eq!(cpu.read(0x0010), 0x00);
    assert!(cpu.flags.zero);
    cpu.dec(0x0010);
    assert_eq!(cpu.read(0x0010), 0xFF);
    assert!(cpu.flags.negative);
}

#[test]
fn jmp_indirect_wraps_inside_the_page() {
    // Pointer at 0x02FF: the high byte comes from 0x0200, not 0x0300.
    let mut cpu = cpu_with(&[0x6C, 0xFF, 0x02]);
    cpu.write(0x02FF, 0x34);
    cpu.write(0x0200, 0x12);
    cpu.write(0x0300, 0x99);
    cpu.clock();
    assert_eq!(cpu.counter, 0x1234);
}

#[test]
fn brk_pushes_status_with_break_bit() {
    let mut cpu = cpu_with(&[0x00]);
    cpu.flags.carry = true;
    cpu.clock();
    assert_eq!(cpu.counter, 0x9000);
    // pushed status: carry | break | unused | interrupt-disable
    let pushed: u8 = cpu.read(0x0100 + cpu.stack as u16 + 1);
    assert_eq!(pushed & 0x10, 0x10);
    assert_eq!(pushed & 0x01, 0x01);
    assert_eq!(pushed & 0x20, 0x20);
}

#[test]
fn rti_restores_flags_and_counter() {
    let mut cpu = cpu_with(&[0x40]);
    cpu.push_stack(0x85);
    cpu.push_stack(0x11);
    cpu.push_stack(0xC3);
    cpu.clock();
    assert_eq!(cpu.counter, 0x8511);
    assert!(cpu.flags.carry);
    assert!(cpu.flags.negative);
    assert!(cpu.flags.overflow);
    assert!(!cpu.flags.brk);
}

#[test]
fn zeropage_indexed_wraps_in_page_zero() {
    // STA $F0,X with X=0x20 lands at 0x10, not 0x110.
    let mut cpu = cpu_with(&[0x95, 0xF0]);
    cpu.reg_a = 0x66;
    cpu.reg_x = 0x20;
    cpu.clock();
    assert_eq!(cpu.read(0x0010), 0x66);
}

#[test]
fn cpu_cycle_counter_resets_each_instruction() {
    let mut cpu = cpu_with(&[0xEA, 0xEA]);
    let first: usize = cpu.clock();
    let second: usize = cpu.clock();
    assert_eq!(first, 3);
    assert_eq!(second, 3);
    assert_eq!(cpu.cycles, 3);
}

#[test]
fn read_modify_write_shifts_cost_five_cycles_in_zeropage() {
    // ASL $10 and ROL $10: fetch, address, read, modify, write.
    let mut cpu = cpu_with(&[0x06, 0x10, 0x26, 0x10]);
    cpu.write(0x0010, 0x41);
    let asl_cycles: usize = cpu.clock();
    assert_eq!(asl_cycles, 5);
    assert_eq!(cpu.read(0x0010), 0x82);
    let rol_cycles: usize = cpu.clock();
    assert_eq!(rol_cycles, 5);
    assert_eq!(cpu.read(0x0010), 0x04);
    assert!(cpu.flags.carry);
}

#[test]
fn php_plp_round_trips_flags_without_break() {
    let mut cpu = cpu_with(&[]);
    cpu.flags.carry = true;
    cpu.flags.negative = true;
    cpu.flags.zero = false;
    cpu.php();
    cpu.flags.carry = false;
    cpu.flags.negative = false;
    cpu.plp();
    assert!(cpu.flags.carry);
    assert!(cpu.flags.negative);
    assert!(!cpu.flags.zero);
    assert!(!cpu.flags.brk);
}

#[test]
fn asl_memory_flags_follow_the_shifted_byte() {
    // ASL $10 on 0x80: the written byte is 0x00 — zero set, negative
    // clear, carry takes the shifted-out bit.
    let mut cpu = cpu_with(&[0x06, 0x10]);
    cpu.write(0x0010, 0x80);
    cpu.clock();
    assert_eq!(cpu.read(0x0010), 0x00);
    assert!(cpu.flags.zero);
    assert!(!cpu.flags.negative);
    assert!(cpu.flags.carry);
}
