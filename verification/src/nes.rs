//! The console facade: decodes an iNES cartridge image, wires the CPU, PPU,
//! buses and cartridge together, and exposes the reset / clock / swap
//! surface the host drives.

use crate::card::{Card, CardV};
use crate::cpu::bus::{Bus, BusV};
use crate::cpu::status_flags::flags_clear;
use crate::cpu::{cpu_wf, reset_tr, step_tr, Cpu, CpuV};
use crate::mapper::{Mapper, NROM};
use crate::ppu::ctrl::ctrl_clear;
use crate::ppu::mask::mask_clear;
use crate::ppu::status::status_clear;
use crate::ppu::vbus::{VBus, VBusV};
use crate::ppu::{ppu_clock_tr, ppu_wf, Ppu, PpuV, SCREEN_BYTES};
use crate::rom::{Rom, RomV};
use vstd::prelude::*;

verus! {

/// Why a cartridge image was rejected.
#[derive(Clone, Copy, PartialEq, Eq, Structural, Debug)]
pub enum CartridgeError {
    /// The image does not begin with the iNES magic {4E 45 53 1A}.
    MissingMagic,
    /// The image is shorter than the sixteen-byte header.
    Truncated,
}

/// Whether the image begins with the four-byte iNES magic.
pub open spec fn ines_magic_prefix(b: Seq<u8>) -> bool {
    &&& b.len() >= 4
    &&& b[0] == 0x4E
    &&& b[1] == 0x45
    &&& b[2] == 0x53
    &&& b[3] == 0x1A
}

/// Whether the image carries the magic and a whole sixteen-byte header.
pub open spec fn ines_header_ok(b: Seq<u8>) -> bool {
    ines_magic_prefix(b) && b.len() >= 16
}

/// The declared PRG size: byte 4 counts 16 KiB units.
pub open spec fn ines_prg_size(b: Seq<u8>) -> int {
    b[4] * 16 * 1024
}

/// The declared CHR size: byte 5 counts 8 KiB units.
pub open spec fn ines_chr_size(b: Seq<u8>) -> int {
    b[5] * 8 * 1024
}

/// Bit 0 of byte 6 selects vertical (set) or horizontal (clear) mirroring.
pub open spec fn ines_vertical(b: Seq<u8>) -> bool {
    b[6] & 1 != 0
}

/// The image body: everything after the sixteen-byte header.
pub open spec fn ines_body(b: Seq<u8>) -> Seq<u8> {
    b.skip(16)
}

/// The bytes that populate PRG-ROM: the declared PRG size from the front
/// of the body, or the whole body when it is shorter.
pub open spec fn ines_prg_bytes(b: Seq<u8>) -> Seq<u8> {
    let body = ines_body(b);
    body.take(
        if ines_prg_size(b) <= body.len() {
            ines_prg_size(b)
        } else {
            body.len() as int
        },
    )
}

/// The bytes that populate CHR-ROM: the declared CHR size from what the
/// PRG region left over.
pub open spec fn ines_chr_bytes(b: Seq<u8>) -> Seq<u8> {
    let rest = ines_body(b).skip(ines_prg_bytes(b).len() as int);
    rest.take(
        if ines_chr_size(b) <= rest.len() {
            ines_chr_size(b)
        } else {
            rest.len() as int
        },
    )
}

/// The machine a fresh console starts as, given a well-formed image: every
/// store zeroed, registers clear, the cartridge populated from the image,
/// and CHR-RAM allocated exactly when the header declares no CHR-ROM.
pub open spec fn nes_initial(bytes: Seq<u8>) -> CpuV {
    CpuV {
        cycles: 0,
        counter: 0,
        reg_a: 0,
        reg_x: 0,
        reg_y: 0,
        stack: 0,
        flags: flags_clear(),
        bus: BusV {
            address: 0,
            data: 0,
            ram: Seq::<u8>::new(0x800, |i: int| 0u8),
            card: CardV {
                prg: RomV { bytes: ines_prg_bytes(bytes), capacity: ines_prg_size(bytes) },
                chr: RomV { bytes: ines_chr_bytes(bytes), capacity: ines_chr_size(bytes) },
            },
            ppu: PpuV {
                status_flags: status_clear(),
                mask_flags: mask_clear(),
                ctrl_flags: ctrl_clear(),
                vbus: VBusV {
                    address: 0,
                    data: 0,
                    vram: Seq::<u8>::new(0x800, |i: int| 0u8),
                    chr_ram: if ines_chr_size(bytes) == 0 {
                        Some(Seq::<u8>::new(0x2000, |i: int| 0u8))
                    } else {
                        None::<Seq<u8>>
                    },
                    palette_ram: Seq::<u8>::new(0x20, |i: int| 0u8),
                    vertical_mirror: ines_vertical(bytes),
                },
                write_latch: false,
                transfer_address: 0,
                vram_address: 0,
                temp_vram_addr: 0,
                screen: Seq::<u8>::new(SCREEN_BYTES as nat, |i: int| 0u8),
                dot: 0,
                scanline: 0,
            },
        },
        running: false,
        last_read_instruction: 0,
        last_location: 0,
    }
}

/// The PPU after `n` consecutive steps.
pub open spec fn ppu_clocks(p: PpuV, chr: RomV, n: int) -> PpuV
    decreases n,
{
    if n <= 0 {
        p
    } else {
        ppu_clock_tr(ppu_clocks(p, chr, n - 1), chr)
    }
}

/// The console after one `clock` call: one CPU instruction, then three PPU
/// steps for each CPU cycle it consumed.
pub open spec fn nes_clock_tr(c: CpuV) -> CpuV {
    let c1 = step_tr(c);
    CpuV {
        bus: BusV { ppu: ppu_clocks(c1.bus.ppu, c1.bus.card.chr, 3 * c1.cycles), ..c1.bus },
        ..c1
    }
}

/// The console after a cartridge swap: both ROM regions replaced from the
/// new image, then a CPU reset.
pub open spec fn swap_tr(c: CpuV, bytes: Seq<u8>) -> CpuV {
    let card = CardV {
        prg: RomV { bytes: ines_prg_bytes(bytes), capacity: ines_prg_size(bytes) },
        chr: RomV { bytes: ines_chr_bytes(bytes), capacity: ines_chr_size(bytes) },
    };
    reset_tr(CpuV { bus: BusV { card: card, ..c.bus }, ..c })
}

/// The console: the CPU, which owns the bus fabric, the PPU and the
/// cartridge.
pub struct Nes {
    pub cpu: Cpu,
}

impl View for Nes {
    type V = CpuV;

    open spec fn view(&self) -> CpuV {
        self.cpu@
    }
}

/// Decode an iNES image into its two ROM regions and the mirroring flag.
/// Shared by construction and cartridge swap.
fn decode_ines(rom_bytes: Vec<u8>) -> (r: Result<(Rom, Rom, bool), CartridgeError>)
    ensures
        !ines_magic_prefix(rom_bytes@)
            ==> r == Err::<(Rom, Rom, bool), CartridgeError>(CartridgeError::MissingMagic),
        ines_magic_prefix(rom_bytes@) && rom_bytes@.len() < 16
            ==> r == Err::<(Rom, Rom, bool), CartridgeError>(CartridgeError::Truncated),
        ines_header_ok(rom_bytes@) ==> ({
            &&& r matches Ok(parts)
            &&& parts.0@ == (RomV {
                bytes: ines_prg_bytes(rom_bytes@),
                capacity: ines_prg_size(rom_bytes@),
            })
            &&& parts.1@ == (RomV {
                bytes: ines_chr_bytes(rom_bytes@),
                capacity: ines_chr_size(rom_bytes@),
            })
            &&& parts.2 == ines_vertical(rom_bytes@)
        }),
{
    let mut rom_bytes = rom_bytes;
    let ghost orig = rom_bytes@;
    if rom_bytes.len() < 4 || rom_bytes[0] != 0x4E || rom_bytes[1] != 0x45
        || rom_bytes[2] != 0x53 || rom_bytes[3] != 0x1A {
        return Err(CartridgeError::MissingMagic);
    }
    if rom_bytes.len() < 16 {
        return Err(CartridgeError::Truncated);
    }

    let prg_size: usize = (rom_bytes[4] as usize) * 16 * 1024;
    let chr_size: usize = (rom_bytes[5] as usize) * 8 * 1024;
    let vertical_mirror = rom_bytes[6] & 1 != 0;

    let mut body = rom_bytes.split_off(16);
    proof {
        assert(body@ =~= ines_body(orig));
    }

    let mut prg_rom = Rom::with_capacity(prg_size);
    prg_rom.consume_bytes(&mut body);
    proof {
        assert(prg_rom@.bytes =~= ines_prg_bytes(orig));
        assert(body@ =~= ines_body(orig).skip(ines_prg_bytes(orig).len() as int));
    }

    let mut chr_rom = Rom::with_capacity(chr_size);
    chr_rom.consume_bytes(&mut body);
    proof {
        assert(chr_rom@.bytes =~= ines_chr_bytes(orig));
    }

    Ok((prg_rom, chr_rom, vertical_mirror))
}

impl Nes {
    /// Build a console from an iNES cartridge image. A missing magic or a
    /// truncated header is a construction failure.
    pub fn new(rom_bytes: Vec<u8>) -> (r: Result<Nes, CartridgeError>)
        ensures
            !ines_magic_prefix(rom_bytes@)
                ==> r == Err::<Nes, CartridgeError>(CartridgeError::MissingMagic),
            ines_magic_prefix(rom_bytes@) && rom_bytes@.len() < 16
                ==> r == Err::<Nes, CartridgeError>(CartridgeError::Truncated),
            ines_header_ok(rom_bytes@) ==> ({
                &&& r matches Ok(n)
                &&& n@ == nes_initial(rom_bytes@)
                &&& cpu_wf(n@)
            }),
    {
        let ghost bytes = rom_bytes@;
        let chr_empty = rom_bytes.len() >= 16 && rom_bytes[5] == 0;
        let (prg_rom, chr_rom, vertical_mirror) = match decode_ines(rom_bytes) {
            Ok(parts) => parts,
            Err(e) => {
                return Err(e);
            }
        };

        let mapper = NROM::new(prg_rom, chr_rom);
        let card = Card::new(mapper);
        let vbus = VBus::new(vertical_mirror, chr_empty);
        let ppu = Ppu::new(vbus);
        let bus = Bus::new(card, ppu);
        let cpu = Cpu::new(bus);
        let nes = Nes { cpu };
        proof {
            assert(nes@ == nes_initial(bytes));
        }
        Ok(nes)
    }

    /// Reset the CPU from the cartridge's reset vector.
    pub fn reset(&mut self)
        requires
            cpu_wf(old(self)@),
        ensures
            cpu_wf(final(self)@),
            final(self)@ == reset_tr(old(self)@),
    {
        self.cpu.reset();
    }

    /// Run one CPU instruction, then advance the PPU three dots per CPU
    /// cycle consumed. Returns the CPU cycle count.
    pub fn clock(&mut self) -> (r: usize)
        requires
            cpu_wf(old(self)@),
        ensures
            cpu_wf(final(self)@),
            final(self)@ == nes_clock_tr(old(self)@),
            r == step_tr(old(self)@).cycles,
    {
        let cpu_cycles = self.cpu.clock();
        let ghost c1 = self.cpu@;
        let ghost chr = self.cpu.bus.card@.chr;

        let mut i: usize = 0;
        while i < cpu_cycles
            invariant
                i <= cpu_cycles,
                cpu_wf(c1),
                chr == c1.bus.card.chr,
                self.cpu@ == (CpuV {
                    bus: BusV { ppu: ppu_clocks(c1.bus.ppu, chr, 3 * i), ..c1.bus },
                    ..c1
                }),
                ppu_wf(self.cpu@.bus.ppu),
            decreases cpu_cycles - i,
        {
            self.cpu.bus.ppu.clock(&mut self.cpu.bus.card);
            self.cpu.bus.ppu.clock(&mut self.cpu.bus.card);
            self.cpu.bus.ppu.clock(&mut self.cpu.bus.card);
            proof {
                assert(ppu_clocks(c1.bus.ppu, chr, 3 * i + 1)
                    == ppu_clock_tr(ppu_clocks(c1.bus.ppu, chr, 3 * i), chr));
                assert(ppu_clocks(c1.bus.ppu, chr, 3 * i + 2)
                    == ppu_clock_tr(ppu_clocks(c1.bus.ppu, chr, 3 * i + 1), chr));
                assert(ppu_clocks(c1.bus.ppu, chr, 3 * (i + 1))
                    == ppu_clock_tr(ppu_clocks(c1.bus.ppu, chr, 3 * i + 2), chr));
            }
            i += 1;
        }
        cpu_cycles
    }

    /// Run one CPU instruction alone.
    pub fn cpu_clock(&mut self) -> (r: usize)
        requires
            cpu_wf(old(self)@),
        ensures
            cpu_wf(final(self)@),
            final(self)@ == step_tr(old(self)@),
            r == final(self)@.cycles,
    {
        self.cpu.clock()
    }

    /// Advance the PPU one dot.
    pub fn ppu_clock(&mut self)
        requires
            cpu_wf(old(self)@),
        ensures
            cpu_wf(final(self)@),
            final(self)@ == (CpuV {
                bus: BusV {
                    ppu: ppu_clock_tr(old(self)@.bus.ppu, old(self)@.bus.card.chr),
                    ..old(self)@.bus
                },
                ..old(self)@
            }),
    {
        self.cpu.bus.ppu.clock(&mut self.cpu.bus.card);
    }

    /// Whether the CPU is still running (a KIL/JAM opcode stops it).
    pub fn is_running(&self) -> (r: bool)
        ensures
            r == self@.running,
    {
        self.cpu.running
    }

    /// Install a new cartridge: decode the image, swap both ROM regions
    /// through the mapper, and reset the CPU. A malformed image leaves the
    /// console untouched.
    pub fn swap_rom(&mut self, rom_bytes: Vec<u8>) -> (r: Result<(), CartridgeError>)
        requires
            cpu_wf(old(self)@),
        ensures
            cpu_wf(final(self)@),
            !ines_magic_prefix(rom_bytes@) ==> r
                == Err::<(), CartridgeError>(CartridgeError::MissingMagic)
                && final(self)@ == old(self)@,
            ines_magic_prefix(rom_bytes@) && rom_bytes@.len() < 16 ==> r
                == Err::<(), CartridgeError>(CartridgeError::Truncated)
                && final(self)@ == old(self)@,
            ines_header_ok(rom_bytes@) ==> r == Ok::<(), CartridgeError>(())
                && final(self)@ == swap_tr(old(self)@, rom_bytes@),
    {
        let (prg_rom, chr_rom, _vertical_mirror) = match decode_ines(rom_bytes) {
            Ok(parts) => parts,
            Err(e) => {
                return Err(e);
            }
        };

        self.cpu.bus.card.mapper.swap_prg_rom(prg_rom);
        self.cpu.bus.card.mapper.swap_chr_rom(chr_rom);
        self.cpu.reset();
        Ok(())
    }

    /// A copy of the framebuffer: 256×240 pixels, RGBA, row-major.
    pub fn get_screen_buffer(&self) -> (r: Vec<u8>)
        ensures
            r@ == self@.bus.ppu.screen,
    {
        let r = self.cpu.bus.ppu.screen_buffer.clone();
        proof {
            assert forall|i: int| 0 <= i < r@.len() implies r@[i]
                == self.cpu.bus.ppu.screen_buffer@[i] by {
                assert(cloned::<u8>(self.cpu.bus.ppu.screen_buffer[i], r[i]));
            }
            assert(r@ =~= self.cpu.bus.ppu.screen_buffer@);
        }
        r
    }
}

/// Law: installing a cartridge and resetting loads the program counter
/// with the new cartridge's reset vector. For a full 32 KiB PRG region the
/// vector is the pair of bytes the region holds at 0x7FFC (low half) and
/// 0x7FFD (high half), which the CPU sees at 0xFFFC and 0xFFFD.
pub proof fn lemma_swap_reset_vector(c: CpuV, bytes: Seq<u8>)
    requires
        cpu_wf(c),
        ines_prg_bytes(bytes).len() == 0x8000,
    ensures
        swap_tr(c, bytes).counter
            == ines_prg_bytes(bytes)[0x7FFD] * 0x100 + ines_prg_bytes(bytes)[0x7FFC],
{
}

} // verus!
