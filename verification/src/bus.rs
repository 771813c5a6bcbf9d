//! The memory bus the CPU executes against.
//!
//! The CPU depends on four operations: byte read, byte write, and the two
//! 16-bit little-endian helpers. To the CPU the bus is a flat 64 KiB
//! address space; address decoding is the bus's own business, and this
//! bus implements the console's map: 2 KiB of internal RAM mirrored
//! across 0x0000..=0x1FFF (the low 11 bits select the cell), and the
//! 32 KiB program region at 0x8000..=0xFFFF. The regions in between
//! (video, audio and input registers) belong to the wider system; here
//! they read as zero and swallow writes. The program region is writable:
//! this bus is the loader's backing store, and `load` must be able to
//! place an image and its reset vector there. A bus that must refuse such
//! writes can say so in its own `mem_write` contract.
use vstd::prelude::*;

verus! {

/// How many addresses the CPU can form: the full 16-bit space.
pub const ADDRESS_SPACE: usize = 0x10000;

/// Where the program region is mapped.
pub const PRG_BASE: usize = 0x8000;

/// How much internal RAM there is; the low 11 bits of an address below
/// 0x2000 select the cell.
pub const RAM_SIZE: usize = 0x0800;

/// The storage cell behind an address: RAM addresses collapse onto the
/// 2 KiB of internal RAM, program addresses stand for themselves.
pub open spec fn mirror(addr: u16) -> int {
    if addr < 0x2000 {
        (addr % 0x800) as int
    } else {
        addr as int
    }
}

/// Whether any storage sits behind an address. The register regions
/// between RAM and the program space are not this bus's to store.
pub open spec fn backed(addr: u16) -> bool {
    addr < 0x2000 || 0x8000 <= addr
}

/// Two addresses expose the same storage cell: both are backed and
/// collapse onto the same cell, as the RAM mirrors do.
pub open spec fn same_cell(a1: u16, a2: u16) -> bool {
    backed(a1) && backed(a2) && mirror(a1) == mirror(a2)
}

/// What one byte write does to the bus's 64 KiB view: every address
/// sharing the written cell shows the new byte, everything else — the
/// unbacked register regions included — is untouched.
pub open spec fn bus_write(mem: Seq<u8>, addr: u16, data: u8) -> Seq<u8> {
    Seq::new(
        0x10000,
        |a: int|
            if same_cell(addr, a as u16) {
                data
            } else {
                mem[a]
            },
    )
}

/// A capability any concrete bus must offer the CPU: a byte read, a byte
/// write, and 16-bit little-endian helpers over them. `mem_view` is the
/// flat 64 KiB contents a well-formed bus exposes; a write lands in every
/// address of the written cell, per `bus_write`.
pub trait Mem {
    /// The bus is fully decoded: one byte visible behind each address.
    spec fn mem_ok(&self) -> bool;

    /// The flat contents, one byte per address.
    spec fn mem_view(&self) -> Seq<u8>;

    /// A well-formed bus backs the full 16-bit address space.
    proof fn mem_full(&self)
        requires
            self.mem_ok(),
        ensures
            self.mem_view().len() == ADDRESS_SPACE,
    ;

    /// Addresses of one cell read alike: the RAM mirrors of
    /// 0x0000..=0x1FFF always expose the byte of their shared cell.
    proof fn mem_mirrored(&self, a1: u16, a2: u16)
        requires
            self.mem_ok(),
            same_cell(a1, a2),
        ensures
            self.mem_view()[a1 as int] == self.mem_view()[a2 as int],
    ;

    fn mem_read(&self, addr: u16) -> (r: u8)
        requires
            self.mem_ok(),
        ensures
            r == self.mem_view()[addr as int],
    ;

    fn mem_write(&mut self, addr: u16, data: u8)
        requires
            old(self).mem_ok(),
        ensures
            final(self).mem_ok(),
            final(self).mem_view() == bus_write(old(self).mem_view(), addr, data),
    ;

    /// The 16-bit word at `pos`, little-endian; the high byte comes from
    /// the successor address with 16-bit wraparound.
    fn mem_read_u16(&self, pos: u16) -> (r: u16)
        requires
            self.mem_ok(),
        ensures
            r == crate::alu::word(
                self.mem_view()[pos as int],
                self.mem_view()[pos.wrapping_add(1) as int],
            ),
    {
        let lo = self.mem_read(pos) as u16;
        let hi = self.mem_read(pos.wrapping_add(1)) as u16;
        hi * 256 + lo
    }

    /// Writes a 16-bit word little-endian: low byte to `pos`, high byte to
    /// the successor address with 16-bit wraparound.
    fn mem_write_u16(&mut self, pos: u16, data: u16)
        requires
            old(self).mem_ok(),
        ensures
            final(self).mem_ok(),
            final(self).mem_view() == bus_write(
                bus_write(old(self).mem_view(), pos, crate::alu::lo8(data)),
                pos.wrapping_add(1),
                crate::alu::hi8(data),
            ),
    {
        let hi = (data / 256) as u8;
        let lo = (data % 256) as u8;
        self.mem_write(pos, lo);
        self.mem_write(pos.wrapping_add(1), hi);
    }
}

/// The console bus: 2 KiB of internal RAM mirrored below 0x2000, a
/// writable 32 KiB program region above 0x8000 initialized from a
/// cartridge image, and nothing stored in between.
pub struct Bus {
    cpu_vram: Vec<u8>,
    prg: Vec<u8>,
}

impl Bus {
    /// A bus whose program region holds the given image. The image is one
    /// cartridge PRG bank (16 KiB) or two (32 KiB); a single bank appears
    /// twice, mirroring what the cartridge hardware does, so the reset
    /// vector at 0xFFFC/0xFFFD is visible wherever the image placed it.
    pub fn new(prg_rom: Vec<u8>) -> (bus: Bus)
        requires
            prg_rom@.len() == 0x4000 || prg_rom@.len() == 0x8000,
        ensures
            bus.mem_ok(),
            forall|a: int| 0 <= a < PRG_BASE ==> bus.mem_view()[a] == 0,
            forall|a: int|
                PRG_BASE <= a < ADDRESS_SPACE ==> bus.mem_view()[a] == prg_rom@[(a - PRG_BASE)
                    % prg_rom@.len() as int],
    {
        let mut cpu_vram: Vec<u8> = Vec::new();
        let mut i: usize = 0;
        while i < RAM_SIZE
            invariant
                i <= RAM_SIZE,
                cpu_vram@.len() == i,
                forall|a: int| 0 <= a < i ==> cpu_vram@[a] == 0,
            decreases RAM_SIZE - i,
        {
            cpu_vram.push(0);
            i += 1;
        }
        let mut prg: Vec<u8> = Vec::new();
        let mut j: usize = 0;
        while j < PRG_BASE
            invariant
                j <= PRG_BASE,
                prg_rom@.len() == 0x4000 || prg_rom@.len() == 0x8000,
                prg@.len() == j,
                forall|a: int| 0 <= a < j ==> prg@[a] == prg_rom@[a % prg_rom@.len() as int],
            decreases PRG_BASE - j,
        {
            prg.push(prg_rom[j % prg_rom.len()]);
            j += 1;
        }
        Bus { cpu_vram, prg }
    }
}

impl Mem for Bus {
    closed spec fn mem_ok(&self) -> bool {
        self.cpu_vram@.len() == RAM_SIZE && self.prg@.len() == PRG_BASE
    }

    closed spec fn mem_view(&self) -> Seq<u8> {
        Seq::new(
            0x10000,
            |a: int|
                if a < 0x2000 {
                    self.cpu_vram@[a % 0x800]
                } else if 0x8000 <= a {
                    self.prg@[a - 0x8000]
                } else {
                    0
                },
        )
    }

    proof fn mem_full(&self) {
    }

    proof fn mem_mirrored(&self, a1: u16, a2: u16) {
    }

    fn mem_read(&self, addr: u16) -> (r: u8) {
        if addr < 0x2000 {
            self.cpu_vram[(addr % 0x800) as usize]
        } else if addr >= 0x8000 {
            self.prg[(addr - 0x8000) as usize]
        } else {
            0
        }
    }

    fn mem_write(&mut self, addr: u16, data: u8) {
        if addr < 0x2000 {
            self.cpu_vram[(addr % 0x800) as usize] = data;
        } else if addr >= 0x8000 {
            self.prg[(addr - 0x8000) as usize] = data;
        }
        proof {
            assert(self.mem_view() =~= bus_write(old(self).mem_view(), addr, data));
        }
    }
}

} // verus!
