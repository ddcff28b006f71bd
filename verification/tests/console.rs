//! Console-level scenarios: cartridge decoding, reset vectors, whole
//! instructions through `clock`, work-RAM mirroring and the stack frame.

use nes_core::nes::{CartridgeError, Nes};

/// A 32 KiB PRG / 8 KiB CHR image with `program` at CPU 0x8000, the reset
/// vector pointing at 0x8000 and the IRQ/BRK vector at 0x9000.
fn cartridge_with(program: &[u8]) -> Vec<u8> {
    let mut image: Vec<u8> = vec![0x4E, 0x45, 0x53, 0x1A, 2, 1, 1, 0, 0, 0, 0, 0, 0, 0, 0, 0];
    let mut prg: Vec<u8> = vec![0u8; 32 * 1024];
    prg[..program.len()].copy_from_slice(program);
    // reset vector: 0x8000
    prg[0x7FFC] = 0x00;
    prg[0x7FFD] = 0x80;
    // IRQ/BRK vector: 0x9000
    prg[0x7FFE] = 0x00;
    prg[0x7FFF] = 0x90;
    image.extend_from_slice(&prg);
    image.extend_from_slice(&vec![0u8; 8 * 1024]);
    image
}

#[test]
fn missing_magic_is_rejected() {
    let r = Nes::new(vec![1, 2, 3, 4, 5]);
    assert!(matches!(r, Err(CartridgeError::MissingMagic)));
}

#[test]
fn empty_image_is_rejected() {
    let r = Nes::new(Vec::new());
    assert!(matches!(r, Err(CartridgeError::MissingMagic)));
}

#[test]
fn truncated_header_is_rejected() {
    let r = Nes::new(vec![0x4E, 0x45, 0x53, 0x1A, 2, 1]);
    assert!(matches!(r, Err(CartridgeError::Truncated)));
}

#[test]
fn reset_loads_reset_vector() {
    let mut nes = Nes::new(cartridge_with(&[])).unwrap();
    nes.reset();
    assert_eq!(nes.cpu.counter, 0x8000);
    assert_eq!(nes.cpu.stack, 0xFD);
    assert!(nes.is_running());
    assert!(nes.cpu.flags.interrupt_disable);
}

#[test]
fn immediate_load_and_store() {
    // S1: A9 42 85 10 00 from 0x8000.
    let mut nes = Nes::new(cartridge_with(&[0xA9, 0x42, 0x85, 0x10, 0x00])).unwrap();
    nes.reset();

    let cycles: usize = nes.clock(); // LDA #$42
    assert_eq!(nes.cpu.reg_a, 0x42);
    assert_eq!(cycles, 2);
    assert!(!nes.cpu.flags.zero);
    assert!(!nes.cpu.flags.negative);

    nes.clock(); // STA $10
    assert_eq!(nes.cpu.bus.ram.read(0x10), Some(0x42));

    nes.clock(); // BRK at 0x8004: pushes 0x8006, jumps through 0xFFFE
    assert_eq!(nes.cpu.counter, 0x9000);
    assert_eq!(nes.cpu.bus.ram.read(0x01FD), Some(0x80));
    assert_eq!(nes.cpu.bus.ram.read(0x01FC), Some(0x06));
    assert!(nes.cpu.flags.interrupt_disable);
}

#[test]
fn absolute_x_page_cross_costs_a_cycle() {
    // LDX #$FF; LDA $2080,X — 0x2080 + 0xFF = 0x217F crosses a page.
    let mut nes = Nes::new(cartridge_with(&[0xA2, 0xFF, 0xBD, 0x80, 0x20])).unwrap();
    nes.reset();
    nes.clock(); // LDX
    let cycles: usize = nes.clock(); // LDA absolute,X with page cross
    assert_eq!(cycles, 5);
}

#[test]
fn absolute_x_without_cross_has_no_penalty() {
    // LDX #$01; LDA $2080,X — 0x2081 stays on the page.
    let mut nes = Nes::new(cartridge_with(&[0xA2, 0x01, 0xBD, 0x80, 0x20])).unwrap();
    nes.reset();
    nes.clock(); // LDX
    let cycles: usize = nes.clock(); // LDA absolute,X without cross
    assert_eq!(cycles, 4);
}

#[test]
fn jsr_pushes_frame_and_rts_returns() {
    // S3: JSR $9000 from 0x8000; RTS at 0x9000 returns to 0x8003.
    let mut image = cartridge_with(&[0x20, 0x00, 0x90]);
    // place RTS at CPU 0x9000 = PRG offset 0x1000, image offset 16 + 0x1000
    image[16 + 0x1000] = 0x60;
    let mut nes = Nes::new(image).unwrap();
    nes.reset();

    nes.clock(); // JSR
    assert_eq!(nes.cpu.counter, 0x9000);
    assert_eq!(nes.cpu.bus.ram.read(0x01FD), Some(0x80));
    assert_eq!(nes.cpu.bus.ram.read(0x01FC), Some(0x02));

    nes.clock(); // RTS
    assert_eq!(nes.cpu.counter, 0x8003);
    assert_eq!(nes.cpu.stack, 0xFD);
}

#[test]
fn work_ram_is_mirrored() {
    // S6 and the mirror law: a write at 0x0000 is visible at each mirror.
    let mut nes = Nes::new(cartridge_with(&[])).unwrap();
    nes.reset();
    nes.cpu.write(0x0000, 0xAB);
    assert_eq!(nes.cpu.read(0x0800), 0xAB);
    assert_eq!(nes.cpu.read(0x1000), 0xAB);
    assert_eq!(nes.cpu.read(0x1800), 0xAB);
    nes.cpu.write(0x1CCD, 0x5A);
    assert_eq!(nes.cpu.read(0x14CD), 0x5A);
    assert_eq!(nes.cpu.read(0x0CCD), 0x5A);
    assert_eq!(nes.cpu.read(0x04CD), 0x5A);
}

#[test]
fn swap_rom_resets_to_new_vector() {
    // The swap law on concrete values: the new cartridge points its reset
    // vector at 0xC000.
    let mut nes = Nes::new(cartridge_with(&[])).unwrap();
    nes.reset();
    assert_eq!(nes.cpu.counter, 0x8000);

    let mut image = cartridge_with(&[]);
    image[16 + 0x7FFC] = 0x00;
    image[16 + 0x7FFD] = 0xC0;
    let r = nes.swap_rom(image);
    assert!(r.is_ok());
    assert_eq!(nes.cpu.counter, 0xC000);
}

#[test]
fn swap_rom_rejects_bad_image_and_keeps_state() {
    let mut nes = Nes::new(cartridge_with(&[])).unwrap();
    nes.reset();
    let before: u16 = nes.cpu.counter;
    let r = nes.swap_rom(vec![0, 1, 2, 3]);
    assert!(matches!(r, Err(CartridgeError::MissingMagic)));
    assert_eq!(nes.cpu.counter, before);
}

#[test]
fn kil_opcode_halts_the_cpu() {
    let mut nes = Nes::new(cartridge_with(&[0x02])).unwrap();
    nes.reset();
    assert!(nes.is_running());
    nes.clock();
    assert!(!nes.is_running());
}

#[test]
fn unofficial_opcode_only_consumes_the_fetch() {
    // 0x80 is outside the official set: one cycle, PC moves past it only.
    let mut nes = Nes::new(cartridge_with(&[0x80])).unwrap();
    nes.reset();
    let a: u8 = nes.cpu.reg_a;
    let cycles: usize = nes.cpu.clock();
    assert_eq!(cycles, 1);
    assert_eq!(nes.cpu.counter, 0x8001);
    assert_eq!(nes.cpu.reg_a, a);
    assert!(nes.is_running());
}

#[test]
fn screen_buffer_has_expected_shape() {
    let mut nes = Nes::new(cartridge_with(&[])).unwrap();
    nes.reset();
    let buffer = nes.get_screen_buffer();
    assert_eq!(buffer.len(), 256 * 240 * 4);
}

#[test]
fn short_prg_region_takes_what_the_image_offers() {
    // A header that declares one 16 KiB PRG page over a six-byte body.
    let mut image: Vec<u8> =
        vec![0x4E, 0x45, 0x53, 0x1A, 1, 0, 0, 0, 0, 0, 0, 0, 0, 0, 0, 0];
    image.extend_from_slice(&[9, 8, 7, 6, 5, 4]);
    let nes = Nes::new(image).unwrap();
    assert_eq!(nes.cpu.bus.card.mapper.prg_rom.read(0), Some(9));
    assert_eq!(nes.cpu.bus.card.mapper.prg_rom.read(5), Some(4));
    assert_eq!(nes.cpu.bus.card.mapper.prg_rom.read(6), None);
}
