//! The picture-processing unit: register file, VRAM address latch, the
//! dot/scanline counter engine with VBlank signalling, and a simplified
//! tile renderer that paints an 8×8 greyscale block per step.

pub mod ctrl;
pub mod mask;
pub mod status;
pub mod vbus;
pub mod vram;

pub use ctrl::PpuCtrl;
pub use mask::PpuMask;
pub use status::PpuFlags;
pub use vbus::VBus;

use crate::card::Card;
use crate::cpu::ram::filled_bytes;
use crate::ppu::ctrl::ctrl_clear;
use crate::ppu::mask::mask_clear;
use crate::ppu::status::status_clear;
use crate::ppu::vbus::{vbus_after_read, vbus_after_write, vbus_read_data, vbus_wf, VBusV};
use crate::rom::RomV;
use vstd::prelude::*;

verus! {

/// Bytes in the framebuffer: 256×240 pixels, four channels each.
pub const SCREEN_BYTES: usize = 256 * 240 * 4;

/// The PPU: its three register groups, the PPU bus, the VRAM address latch
/// pair, the framebuffer, and the dot/scanline counters.
pub struct Ppu {
    pub status_flags: PpuFlags,
    pub mask_flags: PpuMask,
    pub ctrl_flags: PpuCtrl,
    pub vbus: VBus,
    pub write_latch: bool,
    pub transfer_address: u16,
    pub vram_address: u16,
    pub temp_vram_addr: u16,
    pub screen_buffer: Vec<u8>,
    pub dot: usize,
    pub scanline: usize,
}

/// Mathematical model of a [`Ppu`].
pub struct PpuV {
    pub status_flags: PpuFlags,
    pub mask_flags: PpuMask,
    pub ctrl_flags: PpuCtrl,
    pub vbus: VBusV,
    pub write_latch: bool,
    pub transfer_address: u16,
    pub vram_address: u16,
    pub temp_vram_addr: u16,
    pub screen: Seq<u8>,
    pub dot: usize,
    pub scanline: usize,
}

impl View for Ppu {
    type V = PpuV;

    open spec fn view(&self) -> PpuV {
        PpuV {
            status_flags: self.status_flags,
            mask_flags: self.mask_flags,
            ctrl_flags: self.ctrl_flags,
            vbus: self.vbus@,
            write_latch: self.write_latch,
            transfer_address: self.transfer_address,
            vram_address: self.vram_address,
            temp_vram_addr: self.temp_vram_addr,
            screen: self.screen_buffer@,
            dot: self.dot,
            scanline: self.scanline,
        }
    }
}

/// Well-formedness: the bus is well-formed, the framebuffer has its full
/// size, and the counters stay in range — dot in [0, 341), scanline in
/// [0, 262).
pub open spec fn ppu_wf(p: PpuV) -> bool {
    &&& vbus_wf(p.vbus)
    &&& p.screen.len() == SCREEN_BYTES
    &&& p.dot < 341
    &&& p.scanline < 262
}

/// One write to the 0x2006 address latch: the first write stages the high
/// byte, the second ORs in the low byte and commits; both the staged and
/// the committed address are masked to the 14-bit PPU address space, and
/// the latch toggles on every write.
pub open spec fn ppu_addr_tr(p: PpuV, byte: u8) -> PpuV {
    if !p.write_latch {
        PpuV { temp_vram_addr: (((byte as u16) << 8) & 0x3FFF), write_latch: true, ..p }
    } else {
        let va = (p.temp_vram_addr | (byte as u16)) & 0x3FFF;
        PpuV { vram_address: va, transfer_address: va, write_latch: false, ..p }
    }
}

/// One write to the 0x2007 data port: the byte goes to the current VRAM
/// address, which then advances by 1 or 32 and is masked to 14 bits.
pub open spec fn ppu_data_write_tr(p: PpuV, data: u8) -> PpuV {
    let v1 = vbus_after_write(VBusV { address: p.vram_address, data: data, ..p.vbus });
    let step: u16 = if p.ctrl_flags.vram_increment { 32 } else { 1 };
    PpuV { vbus: v1, vram_address: p.vram_address.wrapping_add(step) & 0x3FFF, ..p }
}

/// The byte a 0x2007 data-port read returns: the byte at the current VRAM
/// address. No read buffer is modelled and the address does not advance.
pub open spec fn ppu_data_read_val(p: PpuV, chr: RomV) -> u8 {
    vbus_read_data(VBusV { address: p.vram_address, ..p.vbus }, chr)
}

/// The PPU after a 0x2007 data-port read: only the bus scratch lines move.
pub open spec fn ppu_data_read_tr(p: PpuV, chr: RomV) -> PpuV {
    PpuV { vbus: vbus_after_read(VBusV { address: p.vram_address, ..p.vbus }, chr), ..p }
}

/// The byte a PPU-space read at `addr` returns.
pub open spec fn ppu_read_val(p: PpuV, chr: RomV, addr: u16) -> u8 {
    vbus_read_data(VBusV { address: addr, ..p.vbus }, chr)
}

/// The PPU after a PPU-space read at `addr`.
pub open spec fn ppu_read_tr(p: PpuV, chr: RomV, addr: u16) -> PpuV {
    PpuV { vbus: vbus_after_read(VBusV { address: addr, ..p.vbus }, chr), ..p }
}

/// VBlank signalling: raised at (dot 1, scanline 241), lowered at
/// (dot 1, scanline 261).
pub open spec fn vblank_step(p: PpuV) -> PpuV {
    if p.dot == 1 && p.scanline == 241 {
        PpuV { status_flags: PpuFlags { v_blank: true, ..p.status_flags }, ..p }
    } else if p.dot == 1 && p.scanline == 261 {
        PpuV { status_flags: PpuFlags { v_blank: false, ..p.status_flags }, ..p }
    } else {
        p
    }
}

/// The counters after a step: the dot advances, wrapping into the next
/// scanline at 341 dots and into the next frame at 262 scanlines.
pub open spec fn advance_counters(p: PpuV) -> PpuV {
    if p.dot + 1 > 340 {
        if p.scanline + 1 > 261 {
            PpuV { dot: 0, scanline: 0, ..p }
        } else {
            PpuV { dot: 0, scanline: (p.scanline + 1) as usize, ..p }
        }
    } else {
        PpuV { dot: (p.dot + 1) as usize, ..p }
    }
}

/// The framebuffer after one pixel of the current tile row is painted:
/// channels R, G and B take the two-bit pattern value scaled to grey, and
/// A is fully opaque.
pub open spec fn pixel_write(
    screen: Seq<u8>,
    dot: usize,
    scanline: usize,
    y: int,
    low: u8,
    high: u8,
    x: int,
) -> Seq<u8> {
    let sh = (7 - x) as u16;
    let two_bit = ((low >> sh) & 1) | (((high >> sh) & 1) << 1);
    let g = (two_bit * 85) as u8;
    let base = ((scanline * 8 + y) * 256 + (dot * 8 + x)) * 4;
    screen.update(base, g).update(base + 1, g).update(base + 2, g).update(base + 3, 255)
}

/// The framebuffer after the first `x` pixels of a tile row are painted.
pub open spec fn row_pixels(
    screen: Seq<u8>,
    dot: usize,
    scanline: usize,
    y: int,
    low: u8,
    high: u8,
    x: int,
) -> Seq<u8>
    decreases x,
{
    if x <= 0 {
        screen
    } else {
        pixel_write(row_pixels(screen, dot, scanline, y, low, high, x - 1),
            dot, scanline, y, low, high, x - 1)
    }
}

/// One row of the tile fetch: read the low and high plane bytes, then — when
/// the block lies inside the visible framebuffer — paint its eight pixels.
pub open spec fn row_tr(p: PpuV, chr: RomV, tile: u16, y: int) -> PpuV {
    let low_addr = (tile * 16 + y) as u16;
    let high_addr = (tile * 16 + 8 + y) as u16;
    let low = ppu_read_val(p, chr, low_addr);
    let p1 = ppu_read_tr(p, chr, low_addr);
    let high = ppu_read_val(p1, chr, high_addr);
    let p2 = ppu_read_tr(p1, chr, high_addr);
    if p.dot < 32 && p.scanline < 30 {
        PpuV { screen: row_pixels(p2.screen, p.dot, p.scanline, y, low, high, 8), ..p2 }
    } else {
        p2
    }
}

/// The PPU after the first `k` rows of the tile fetch.
pub open spec fn rows_tr(p: PpuV, chr: RomV, tile: u16, k: int) -> PpuV
    decreases k,
{
    if k <= 0 {
        p
    } else {
        row_tr(rows_tr(p, chr, tile, k - 1), chr, tile, k - 1)
    }
}

/// The tile-index address the step fetches: a name-table cell selected by
/// the current dot and scanline.
pub open spec fn tile_index_addr(p: PpuV) -> u16 {
    (0x2000 + p.dot + p.scanline * 32) as u16
}

/// One full PPU step: VBlank signalling, the simplified tile fetch and
/// paint, and the counter advance.
pub open spec fn ppu_clock_tr(p: PpuV, chr: RomV) -> PpuV {
    let pv = vblank_step(p);
    let tile = ppu_read_val(pv, chr, tile_index_addr(pv)) as u16;
    let pt = ppu_read_tr(pv, chr, tile_index_addr(pv));
    advance_counters(rows_tr(pt, chr, tile, 8))
}

proof fn lemma_row_pixels_len(
    screen: Seq<u8>,
    dot: usize,
    scanline: usize,
    y: int,
    low: u8,
    high: u8,
    x: int,
)
    requires
        dot < 32,
        scanline < 30,
        0 <= y < 8,
        x <= 8,
        screen.len() == SCREEN_BYTES,
    ensures
        row_pixels(screen, dot, scanline, y, low, high, x).len() == screen.len(),
    decreases x,
{
    if x > 0 {
        lemma_row_pixels_len(screen, dot, scanline, y, low, high, x - 1);
    }
}

/// A tile-fetch row only touches the bus scratch lines and the framebuffer
/// contents: counters, registers and sizes are untouched.
proof fn lemma_row_tr_frame(p: PpuV, chr: RomV, tile: u16, y: int)
    requires
        vbus_wf(p.vbus),
        p.screen.len() == SCREEN_BYTES,
        0 <= y < 8,
    ensures
        ({
            let r = row_tr(p, chr, tile, y);
            &&& vbus_wf(r.vbus)
            &&& r.screen.len() == SCREEN_BYTES
            &&& r.dot == p.dot
            &&& r.scanline == p.scanline
            &&& r.status_flags == p.status_flags
            &&& r.vram_address == p.vram_address
        }),
{
    let p1 = ppu_read_tr(p, chr, (tile * 16 + y) as u16);
    let p2 = ppu_read_tr(p1, chr, (tile * 16 + 8 + y) as u16);
    if p.dot < 32 && p.scanline < 30 {
        lemma_row_pixels_len(p2.screen, p.dot, p.scanline, y,
            ppu_read_val(p, chr, (tile * 16 + y) as u16),
            ppu_read_val(p1, chr, (tile * 16 + 8 + y) as u16), 8);
    }
}

proof fn lemma_two_bit_bound(l: u8, h: u8, s: u16)
    requires
        s < 8,
    ensures
        (((l >> s) & 1) | (((h >> s) & 1) << 1)) <= 3,
{
    assert((((l >> s) & 1) | (((h >> s) & 1) << 1)) <= 3) by (bit_vector);
}

impl Ppu {
    /// A fresh PPU over the given bus: registers clear, latch low, black
    /// opaque-less framebuffer, counters at the origin.
    pub fn new(vbus: VBus) -> (r: Ppu)
        ensures
            r@ == (PpuV {
                status_flags: status_clear(),
                mask_flags: mask_clear(),
                ctrl_flags: ctrl_clear(),
                vbus: vbus@,
                write_latch: false,
                transfer_address: 0,
                vram_address: 0,
                temp_vram_addr: 0,
                screen: Seq::<u8>::new(SCREEN_BYTES as nat, |i: int| 0u8),
                dot: 0,
                scanline: 0,
            }),
            vbus_wf(vbus@) ==> ppu_wf(r@),
    {
        Ppu {
            status_flags: PpuFlags::default(),
            mask_flags: PpuMask::default(),
            ctrl_flags: PpuCtrl::default(),
            vbus,
            write_latch: false,
            transfer_address: 0,
            vram_address: 0,
            temp_vram_addr: 0,
            screen_buffer: filled_bytes(SCREEN_BYTES, 0),
            dot: 0,
            scanline: 0,
        }
    }

    /// One byte of the 0x2006 address latch.
    pub fn ppu_addr(&mut self, byte: u8)
        ensures
            final(self)@ == ppu_addr_tr(old(self)@, byte),
    {
        if !self.write_latch {
            self.temp_vram_addr = ((byte as u16) << 8) & 0x3FFF;
        } else {
            self.vram_address = (self.temp_vram_addr | (byte as u16)) & 0x3FFF;
            self.transfer_address = self.vram_address;
        }
        self.write_latch = !self.write_latch;
    }

    /// A 0x2007 data-port write.
    pub fn ppu_data_write(&mut self, data: u8, card: &mut Card)
        requires
            vbus_wf(old(self)@.vbus),
        ensures
            final(self)@ == ppu_data_write_tr(old(self)@, data),
            vbus_wf(final(self)@.vbus),
            final(card)@ == old(card)@,
    {
        let addr = self.vram_address;
        self.vbus.address = addr;
        self.vbus.data = data;
        self.vbus.write(card);
        let step: u16 = if self.ctrl_flags.vram_increment { 32 } else { 1 };
        self.vram_address = self.vram_address.wrapping_add(step) & 0x3FFF;
    }

    /// A 0x2007 data-port read.
    pub fn ppu_data_read(&mut self, card: &mut Card) -> (r: u8)
        requires
            vbus_wf(old(self)@.vbus),
        ensures
            r == ppu_data_read_val(old(self)@, old(card)@.chr),
            final(self)@ == ppu_data_read_tr(old(self)@, old(card)@.chr),
            final(card)@ == old(card)@,
    {
        self.vbus.address = self.vram_address;
        self.vbus.read(card);
        self.vbus.data
    }

    /// A read anywhere in PPU space, used by the tile fetch.
    pub fn read(&mut self, addr: u16, card: &mut Card) -> (r: u8)
        requires
            vbus_wf(old(self)@.vbus),
        ensures
            r == ppu_read_val(old(self)@, old(card)@.chr, addr),
            final(self)@ == ppu_read_tr(old(self)@, old(card)@.chr, addr),
            final(card)@ == old(card)@,
    {
        self.vbus.address = addr;
        self.vbus.read(card);
        self.vbus.data
    }

    /// Paint one eight-pixel row of the current tile block into the
    /// framebuffer, greyscale from the two plane bytes.
    fn paint_row(&mut self, low_byte: u8, high_byte: u8, y: u16)
        requires
            y < 8,
            old(self).dot < 32,
            old(self).scanline < 30,
            old(self)@.screen.len() == SCREEN_BYTES,
        ensures
            final(self)@ == (PpuV {
                screen: row_pixels(old(self)@.screen, old(self)@.dot, old(self)@.scanline,
                    y as int, low_byte, high_byte, 8),
                ..old(self)@
            }),
    {
        let mut x: u16 = 0;
        while x < 8
            invariant
                x <= 8,
                y < 8,
                self.dot < 32,
                self.scanline < 30,
                self@ == (PpuV {
                    screen: row_pixels(old(self)@.screen, old(self)@.dot, old(self)@.scanline,
                        y as int, low_byte, high_byte, x as int),
                    ..old(self)@
                }),
                self@.screen.len() == old(self)@.screen.len(),
                old(self)@.screen.len() == SCREEN_BYTES,
            decreases 8 - x,
        {
            proof {
                lemma_two_bit_bound(low_byte, high_byte, (7 - x) as u16);
            }
            let two_bit = ((low_byte >> (7 - x)) & 1) | (((high_byte >> (7 - x)) & 1) << 1);

            let buff_x = (x as usize) + self.dot * 8;
            let buff_y = (y as usize) + self.scanline * 8;
            let buff_addr = (buff_y * 256 + buff_x) * 4;
            self.screen_buffer[buff_addr] = two_bit * 85;
            self.screen_buffer[buff_addr + 1] = two_bit * 85;
            self.screen_buffer[buff_addr + 2] = two_bit * 85;
            self.screen_buffer[buff_addr + 3] = 255;
            x += 1;
        }
    }

    /// One row of the tile fetch: read the two plane bytes and, when the
    /// block is inside the visible framebuffer, paint the row.
    fn fetch_row(&mut self, tile_index: u16, y: u16, card: &mut Card)
        requires
            vbus_wf(old(self)@.vbus),
            tile_index <= 255,
            y < 8,
            old(self)@.screen.len() == SCREEN_BYTES,
        ensures
            final(self)@ == row_tr(old(self)@, old(card)@.chr, tile_index, y as int),
            final(card)@ == old(card)@,
    {
        let low_byte = self.read(tile_index * 16 + y, card);
        let high_byte = self.read(tile_index * 16 + 8 + y, card);
        if self.dot < 32 && self.scanline < 30 {
            self.paint_row(low_byte, high_byte, y);
        }
    }

    /// The eight rows of the tile fetch, in order.
    fn fetch_rows(&mut self, tile_index: u16, card: &mut Card)
        requires
            vbus_wf(old(self)@.vbus),
            tile_index <= 255,
            old(self)@.screen.len() == SCREEN_BYTES,
            old(self)@.dot < 341,
            old(self)@.scanline < 262,
        ensures
            final(self)@ == rows_tr(old(self)@, old(card)@.chr, tile_index, 8),
            final(self)@.screen.len() == SCREEN_BYTES,
            final(self)@.dot == old(self)@.dot,
            final(self)@.scanline == old(self)@.scanline,
            vbus_wf(final(self)@.vbus),
            final(card)@ == old(card)@,
    {
        let ghost pt = old(self)@;
        let ghost chr = old(card)@.chr;
        let mut y: u16 = 0;
        while y < 8
            invariant
                y <= 8,
                tile_index <= 255,
                self@ == rows_tr(pt, chr, tile_index, y as int),
                self@.screen.len() == SCREEN_BYTES,
                self@.dot == pt.dot,
                self@.scanline == pt.scanline,
                pt.dot < 341,
                pt.scanline < 262,
                vbus_wf(self@.vbus),
                card@ == old(card)@,
                chr == old(card)@.chr,
            decreases 8 - y,
        {
            self.fetch_row(tile_index, y, card);
            proof {
                assert(rows_tr(pt, chr, tile_index, y + 1)
                    == row_tr(rows_tr(pt, chr, tile_index, y as int), chr, tile_index, y as int));
                lemma_row_tr_frame(rows_tr(pt, chr, tile_index, y as int), chr, tile_index,
                    y as int);
            }
            y += 1;
        }
    }

    /// One PPU step. Keeps the counters in range: dot stays in [0, 341)
    /// and scanline in [0, 262) however often the step is taken.
    #[verifier::rlimit(100)]
    #[verifier::spinoff_prover]
    pub fn clock(&mut self, card: &mut Card)
        requires
            ppu_wf(old(self)@),
        ensures
            ppu_wf(final(self)@),
            final(self)@ == ppu_clock_tr(old(self)@, old(card)@.chr),
            final(card)@ == old(card)@,
    {
        let ghost chr = old(card)@.chr;
        if self.dot == 1 && self.scanline == 241 {
            self.status_flags.v_blank = true;
        } else if self.dot == 1 && self.scanline == 261 {
            self.status_flags.v_blank = false;
        }
        proof {
            assert(self@ == vblank_step(old(self)@));
        }
        let ghost pv = self@;

        let tile_addr = 0x2000u16 + (self.dot as u16) + (self.scanline as u16) * 32;
        proof {
            assert(tile_addr == tile_index_addr(pv));
        }
        let tile_index = self.read(tile_addr, card) as u16;
        proof {
            assert(tile_index == ppu_read_val(pv, chr, tile_index_addr(pv)) as u16);
            assert(self@ == ppu_read_tr(pv, chr, tile_index_addr(pv)));
        }
        let ghost pt = self@;
        self.fetch_rows(tile_index, card);
        proof {
            assert(self@ == rows_tr(pt, chr, tile_index, 8));
        }
        let ghost p8 = self@;

        self.dot += 1;
        if self.dot > 340 {
            self.dot = 0;
            self.scanline += 1;
            if self.scanline > 261 {
                self.scanline = 0;
            }
        }
        proof {
            assert(self@ == advance_counters(p8));
            assert(ppu_clock_tr(old(self)@, chr)
                == advance_counters(rows_tr(pt, chr, tile_index, 8)));
        }
    }
}

} // verus!
