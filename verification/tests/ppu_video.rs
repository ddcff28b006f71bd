//! PPU scenarios: VBlank signalling and the 0x2002 read, the VRAM address
//! latch and increment modes, palette aliasing, name-table mirroring, and
//! the dot/scanline ranges.

use nes_core::nes::Nes;
use nes_core::ppu::ctrl::PpuCtrl;
use nes_core::ppu::mask::PpuMask;
use nes_core::ppu::status::PpuFlags;

/// A 32 KiB PRG / 8 KiB CHR image with vertical mirroring and the reset
/// vector at 0x8000.
fn cartridge() -> Vec<u8> {
    let mut image: Vec<u8> = vec![0x4E, 0x45, 0x53, 0x1A, 2, 1, 1, 0, 0, 0, 0, 0, 0, 0, 0, 0];
    let mut prg: Vec<u8> = vec![0u8; 32 * 1024];
    prg[0x7FFC] = 0x00;
    prg[0x7FFD] = 0x80;
    image.extend_from_slice(&prg);
    image.extend_from_slice(&vec![0u8; 8 * 1024]);
    image
}

#[test]
fn vblank_raised_at_dot_one_of_scanline_241() {
    // S4: step the PPU until (dot 1, scanline 241) and one step further.
    let mut nes = Nes::new(cartridge()).unwrap();
    nes.reset();
    while !(nes.cpu.bus.ppu.dot == 1 && nes.cpu.bus.ppu.scanline == 241) {
        nes.ppu_clock();
        assert!(!nes.cpu.bus.ppu.status_flags.v_blank);
    }
    nes.ppu_clock();
    assert!(nes.cpu.bus.ppu.status_flags.v_blank);

    // Reading 0x2002 through the CPU bus returns 0x80 and clears VBlank.
    let status: u8 = nes.cpu.read(0x2002);
    assert_eq!(status, 0x80);
    assert!(!nes.cpu.bus.ppu.status_flags.v_blank);
}

#[test]
fn vblank_lowered_at_dot_one_of_scanline_261() {
    let mut nes = Nes::new(cartridge()).unwrap();
    nes.reset();
    while !(nes.cpu.bus.ppu.dot == 1 && nes.cpu.bus.ppu.scanline == 241) {
        nes.ppu_clock();
    }
    nes.ppu_clock();
    assert!(nes.cpu.bus.ppu.status_flags.v_blank);
    while !(nes.cpu.bus.ppu.dot == 1 && nes.cpu.bus.ppu.scanline == 261) {
        nes.ppu_clock();
    }
    nes.ppu_clock();
    assert!(!nes.cpu.bus.ppu.status_flags.v_blank);
}

#[test]
fn counters_stay_in_range() {
    // The counter invariant on concrete steps: a frame and a half.
    let mut nes = Nes::new(cartridge()).unwrap();
    nes.reset();
    let mut i: usize = 0;
    while i < 135_000 {
        nes.ppu_clock();
        assert!(nes.cpu.bus.ppu.dot < 341);
        assert!(nes.cpu.bus.ppu.scanline < 262);
        i += 1;
    }
}

#[test]
fn vram_increment_by_one() {
    // S5 with control bit 2 clear: two data writes touch 0x2100, 0x2101.
    let mut nes = Nes::new(cartridge()).unwrap();
    nes.reset();
    nes.cpu.write(0x2006, 0x21);
    nes.cpu.write(0x2006, 0x00);
    assert_eq!(nes.cpu.bus.ppu.vram_address, 0x2100);
    nes.cpu.write(0x2007, 0x11);
    nes.cpu.write(0x2007, 0x22);
    // vertical mirroring folds 0x2100 to VRAM 0x100
    assert_eq!(nes.cpu.bus.ppu.vbus.vram.read(0x100), Some(0x11));
    assert_eq!(nes.cpu.bus.ppu.vbus.vram.read(0x101), Some(0x22));
}

#[test]
fn vram_increment_by_thirty_two() {
    // S5 with control bit 2 set: the writes land 32 apart.
    let mut nes = Nes::new(cartridge()).unwrap();
    nes.reset();
    nes.cpu.write(0x2000, 0x04);
    nes.cpu.write(0x2006, 0x21);
    nes.cpu.write(0x2006, 0x00);
    nes.cpu.write(0x2007, 0x11);
    nes.cpu.write(0x2007, 0x22);
    assert_eq!(nes.cpu.bus.ppu.vbus.vram.read(0x100), Some(0x11));
    assert_eq!(nes.cpu.bus.ppu.vbus.vram.read(0x120), Some(0x22));
}

#[test]
fn palette_aliases_fold_together() {
    // Each aliased pair, in both directions, with the six-bit mask.
    let mut nes = Nes::new(cartridge()).unwrap();
    nes.reset();
    let pairs: [(u16, u16); 4] =
        [(0x3F10, 0x3F00), (0x3F14, 0x3F04), (0x3F18, 0x3F08), (0x3F1C, 0x3F0C)];
    let mut k: usize = 0;
    while k < 4 {
        let (alias, base) = pairs[k];
        nes.cpu.write(0x2006, (alias >> 8) as u8);
        nes.cpu.write(0x2006, (alias & 0xFF) as u8);
        nes.cpu.write(0x2007, 0xFF);
        // observable at the base address, masked to six bits
        nes.cpu.write(0x2006, (base >> 8) as u8);
        nes.cpu.write(0x2006, (base & 0xFF) as u8);
        assert_eq!(nes.cpu.read(0x2007), 0x3F);
        k += 1;
    }
}

#[test]
fn nametable_vertical_mirroring_folds_modulo_2k() {
    let mut nes = Nes::new(cartridge()).unwrap();
    nes.reset();
    nes.cpu.write(0x2006, 0x28);
    nes.cpu.write(0x2006, 0x05);
    nes.cpu.write(0x2007, 0x77);
    // 0x2805 folds to VRAM 0x005 under vertical mirroring
    assert_eq!(nes.cpu.bus.ppu.vbus.vram.read(0x005), Some(0x77));
    nes.cpu.write(0x2006, 0x20);
    nes.cpu.write(0x2006, 0x05);
    assert_eq!(nes.cpu.read(0x2007), 0x77);
}

#[test]
fn control_register_round_trips_through_the_bus() {
    let mut nes = Nes::new(cartridge()).unwrap();
    nes.reset();
    nes.cpu.write(0x2000, 0xBF);
    // bit 6 is not modelled; everything else reads back
    assert_eq!(nes.cpu.read(0x2000), 0xBF);
    assert!(nes.cpu.bus.ppu.ctrl_flags.nmi);
    assert!(nes.cpu.bus.ppu.ctrl_flags.vram_increment);
    assert_eq!(nes.cpu.bus.ppu.ctrl_flags.base_nametable, 3);
}

#[test]
fn mask_register_round_trips_through_the_bus() {
    let mut nes = Nes::new(cartridge()).unwrap();
    nes.reset();
    nes.cpu.write(0x2001, 0x0F);
    assert_eq!(nes.cpu.read(0x2001), 0x0F);
    assert!(nes.cpu.bus.ppu.mask_flags.render_sprites);
}

#[test]
fn ppu_ctrl_byte_round_trip() {
    let c = PpuCtrl::from_byte(0xAF);
    assert_eq!(c.to_byte(), 0xAF & 0b1011_1111);
    assert_eq!(PpuCtrl::from_byte(c.to_byte()).to_byte(), c.to_byte());
}

#[test]
fn ppu_mask_byte_round_trip() {
    let m = PpuMask::from_byte(0x0A);
    assert_eq!(m.to_byte(), 0x0A);
}

#[test]
fn ppu_status_read_clears_vblank_bit() {
    let mut f = PpuFlags::from_byte(0xE0);
    assert!(f.v_blank);
    assert_eq!(f.read_and_clear_vblank(), 0xE0);
    assert!(!f.v_blank);
    assert_eq!(f.to_byte(), 0x60);
}

#[test]
fn frame_renders_grey_for_solid_tiles() {
    // CHR pattern 0 all-zero: every rendered pixel of the first frame is
    // black with full alpha once a visible block has been painted.
    let mut nes = Nes::new(cartridge()).unwrap();
    nes.reset();
    let mut i: usize = 0;
    while i < 4 {
        nes.ppu_clock();
        i += 1;
    }
    let buffer = nes.get_screen_buffer();
    assert_eq!(buffer[0], 0);
    assert_eq!(buffer[1], 0);
    assert_eq!(buffer[2], 0);
    assert_eq!(buffer[3], 255);
}

#[test]
fn address_latch_masks_to_fourteen_bits() {
    // A high byte of 0xFF folds into the 14-bit space: the latch commits
    // 0x3F00, which reaches palette RAM rather than being dropped.
    let mut nes = Nes::new(cartridge()).unwrap();
    nes.reset();
    nes.cpu.write(0x2006, 0xFF);
    nes.cpu.write(0x2006, 0x00);
    assert_eq!(nes.cpu.bus.ppu.vram_address, 0x3F00);
    assert_eq!(nes.cpu.bus.ppu.temp_vram_addr, 0x3F00);
    nes.cpu.write(0x2007, 0x2A);
    nes.cpu.write(0x2006, 0x3F);
    nes.cpu.write(0x2006, 0x00);
    assert_eq!(nes.cpu.read(0x2007), 0x2A);
}
