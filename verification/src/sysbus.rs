//! The system bus: the memory map of the console, the blocks of memory behind
//! it and the cost of an access in cycles.

use crate::bus::lemma_fold_step;
use crate::bus::mem_read_16;
use crate::bus::mem_read_32;
use crate::bus::mem_read_8;
use crate::bus::mem_write_16;
use crate::bus::mem_write_32;
use crate::bus::mem_write_8;
use crate::bus::Addr;
use crate::bus::Bus;
use crate::cartridge::rom_read_16;
use crate::cartridge::rom_read_32;
use crate::cartridge::rom_read_8;
use crate::cartridge::Cartridge;
use crate::gpu::timing::GpuState;
use crate::iodev::IoDevices;
use crate::endian::read_u16_le;
use crate::endian::read_u32_le;
use crate::endian::write_u16_le;
use crate::endian::write_u32_le;
use vstd::prelude::*;

verus! {

/// Bytes of the video RAM block.
pub const VIDEO_RAM_SIZE: usize = 0x20000;

/// Bytes of the on-board work RAM.
pub const WORK_RAM_SIZE: usize = 0x40000;

/// Bytes of the internal work RAM.
pub const INTERNAL_RAM_SIZE: usize = 0x8000;

/// Bytes of the palette RAM.
pub const PALETTE_RAM_SIZE: usize = 0x400;

/// Bytes of the object attribute memory.
pub const OAM_SIZE: usize = 0x400;

/// Bytes of the BIOS.
pub const BIOS_SIZE: usize = 0x4000;

/// First address of the BIOS.
pub const BIOS_ADDR: u32 = 0x0000_0000;

/// First address of the on-board work RAM.
pub const EWRAM_ADDR: u32 = 0x0200_0000;

/// First address of the internal work RAM.
pub const IWRAM_ADDR: u32 = 0x0300_0000;

/// First address of the device registers.
pub const IOMEM_ADDR: u32 = 0x0400_0000;

/// First address of the palette RAM.
pub const PALRAM_ADDR: u32 = 0x0500_0000;

/// First address of the video RAM.
pub const VRAM_ADDR: u32 = 0x0600_0000;

/// First address of the object attribute memory.
pub const OAM_ADDR: u32 = 0x0700_0000;

/// First address of the cartridge as seen through wait-state window 0.
pub const GAMEPAK_WS0_ADDR: u32 = 0x0800_0000;

/// First address of the second page of wait-state window 0.
pub const GAMEPAK_MIRROR_WS0_ADDR: u32 = 0x0900_0000;

/// First address of the cartridge as seen through wait-state window 1.
pub const GAMEPAK_WS1_ADDR: u32 = 0x0A00_0000;

/// First address of the cartridge as seen through wait-state window 2.
pub const GAMEPAK_WS2_ADDR: u32 = 0x0C00_0000;

/// Whether an access follows the one before it in address order.
#[derive(Debug, PartialEq, Eq, Copy, Clone, Structural)]
pub enum MemoryAccessType {
    /// An access to an address unrelated to the one before.
    NonSeq,
    /// An access to the address right after the one before.
    Sequential,
}

/// Width of an access.
#[derive(Debug, PartialEq, Eq, Copy, Clone, Structural)]
pub enum MemoryAccessWidth {
    MemoryAccess8,
    MemoryAccess16,
    MemoryAccess32,
}

/// An access as the wait-state logic sees it: its kind and its width.
#[derive(Debug, PartialEq, Eq, Copy, Clone, Structural)]
pub struct MemoryAccess(pub MemoryAccessType, pub MemoryAccessWidth);

impl vstd::std_specs::ops::AddSpecImpl<MemoryAccessWidth> for MemoryAccessType {
    open spec fn obeys_add_spec() -> bool {
        true
    }

    open spec fn add_req(self, rhs: MemoryAccessWidth) -> bool {
        true
    }

    open spec fn add_spec(self, rhs: MemoryAccessWidth) -> MemoryAccess {
        MemoryAccess(self, rhs)
    }
}

/// A kind and a width make an access: `NonSeq + MemoryAccess32`.
impl core::ops::Add<MemoryAccessWidth> for MemoryAccessType {
    type Output = MemoryAccess;

    fn add(self, rhs: MemoryAccessWidth) -> (r: MemoryAccess) {
        MemoryAccess(self, rhs)
    }
}

impl MemoryAccessType {
    /// One letter for the kind: `N` or `S`.
    pub fn letter(self) -> (r: char)
        ensures
            r == (if self == MemoryAccessType::NonSeq {
                'N'
            } else {
                'S'
            }),
    {
        match self {
            MemoryAccessType::NonSeq => 'N',
            MemoryAccessType::Sequential => 'S',
        }
    }
}

/// The text that names an access: the letter of its kind, `-Cycle`, and its
/// width in brackets.
pub open spec fn spec_describe(access: MemoryAccess) -> Seq<char> {
    match access {
        MemoryAccess(MemoryAccessType::NonSeq, MemoryAccessWidth::MemoryAccess8) =>
            "N-Cycle (MemoryAccess8)"@,
        MemoryAccess(MemoryAccessType::NonSeq, MemoryAccessWidth::MemoryAccess16) =>
            "N-Cycle (MemoryAccess16)"@,
        MemoryAccess(MemoryAccessType::NonSeq, MemoryAccessWidth::MemoryAccess32) =>
            "N-Cycle (MemoryAccess32)"@,
        MemoryAccess(MemoryAccessType::Sequential, MemoryAccessWidth::MemoryAccess8) =>
            "S-Cycle (MemoryAccess8)"@,
        MemoryAccess(MemoryAccessType::Sequential, MemoryAccessWidth::MemoryAccess16) =>
            "S-Cycle (MemoryAccess16)"@,
        MemoryAccess(MemoryAccessType::Sequential, MemoryAccessWidth::MemoryAccess32) =>
            "S-Cycle (MemoryAccess32)"@,
    }
}

impl MemoryAccess {
    /// The text that names the access.
    pub fn describe(&self) -> (r: String)
        ensures
            r@ == spec_describe(*self),
    {
        match self {
            MemoryAccess(MemoryAccessType::NonSeq, MemoryAccessWidth::MemoryAccess8) =>
                String::from_str("N-Cycle (MemoryAccess8)"),
            MemoryAccess(MemoryAccessType::NonSeq, MemoryAccessWidth::MemoryAccess16) =>
                String::from_str("N-Cycle (MemoryAccess16)"),
            MemoryAccess(MemoryAccessType::NonSeq, MemoryAccessWidth::MemoryAccess32) =>
                String::from_str("N-Cycle (MemoryAccess32)"),
            MemoryAccess(MemoryAccessType::Sequential, MemoryAccessWidth::MemoryAccess8) =>
                String::from_str("S-Cycle (MemoryAccess8)"),
            MemoryAccess(MemoryAccessType::Sequential, MemoryAccessWidth::MemoryAccess16) =>
                String::from_str("S-Cycle (MemoryAccess16)"),
            MemoryAccess(MemoryAccessType::Sequential, MemoryAccessWidth::MemoryAccess32) =>
                String::from_str("S-Cycle (MemoryAccess32)"),
        }
    }
}

/// A block of memory that answers every address: the address is folded into
/// the block by taking the remainder of a division by the block's length. For
/// a block whose length is a power of two that is the same as masking.
#[derive(Debug)]
pub struct BoxedMemory {
    /// The bytes of the block.
    pub mem: Vec<u8>,
}

impl BoxedMemory {
    /// A block that holds the given bytes.
    pub fn new(bytes: Vec<u8>) -> (r: BoxedMemory)
        ensures
            r.mem == bytes,
    {
        BoxedMemory { mem: bytes }
    }

    /// A block of `len` zero bytes.
    pub fn zeroed(len: usize) -> (r: BoxedMemory)
        ensures
            r.mem@ == Seq::new(len as nat, |i: int| 0u8),
    {
        let mem: Vec<u8> = vec![0u8; len];
        assert(mem@ =~= Seq::new(len as nat, |i: int| 0u8));
        BoxedMemory { mem }
    }

    /// The index that `addr + k` folds to.
    fn fold(&self, addr: Addr, k: usize) -> (i: usize)
        requires
            self.mem.len() > 0,
            k < 4,
        ensures
            i == (addr + k) % (self.mem.len() as int),
            i < self.mem.len(),
    {
        let len: usize = self.mem.len();
        let base: usize = (addr as usize) % len;
        proof {
            lemma_fold_step(addr as int, k as int, len as int);
        }
        if len - base > k {
            base + k
        } else {
            (k - (len - base)) % len
        }
    }
}

impl Bus for BoxedMemory {
    fn read_32(&self, addr: Addr) -> (r: u32)
        ensures
            r == mem_read_32(self.mem@, addr as int),
    {
        if self.mem.len() == 0 {
            return 0;
        }
        let i: usize = self.fold(addr, 0);
        if self.mem.len() - i >= 4 {
            proof {
                let len = self.mem.len() as int;
                lemma_fold_step(addr as int, 0, len);
                lemma_fold_step(addr as int, 1, len);
                lemma_fold_step(addr as int, 2, len);
                lemma_fold_step(addr as int, 3, len);
            }
            read_u32_le(&self.mem, i)
        } else {
            let b0: u32 = self.mem[i] as u32;
            let b1: u32 = self.mem[self.fold(addr, 1)] as u32;
            let b2: u32 = self.mem[self.fold(addr, 2)] as u32;
            let b3: u32 = self.mem[self.fold(addr, 3)] as u32;
            b0 + 256 * b1 + 65536 * b2 + 16777216 * b3
        }
    }

    fn read_16(&self, addr: Addr) -> (r: u16)
        ensures
            r == mem_read_16(self.mem@, addr as int),
    {
        if self.mem.len() == 0 {
            return 0;
        }
        let i: usize = self.fold(addr, 0);
        if self.mem.len() - i >= 2 {
            proof {
                let len = self.mem.len() as int;
                lemma_fold_step(addr as int, 0, len);
                lemma_fold_step(addr as int, 1, len);
            }
            read_u16_le(&self.mem, i)
        } else {
            let b0: u16 = self.mem[i] as u16;
            let b1: u16 = self.mem[self.fold(addr, 1)] as u16;
            b0 + 256 * b1
        }
    }

    fn read_8(&self, addr: Addr) -> (r: u8)
        ensures
            r == mem_read_8(self.mem@, addr as int),
    {
        if self.mem.len() == 0 {
            return 0;
        }
        self.mem[self.fold(addr, 0)]
    }

    fn write_32(&mut self, addr: Addr, value: u32)
        ensures
            final(self).mem@ == mem_write_32(old(self).mem@, addr as int, value),
            final(self).mem.len() == old(self).mem.len(),
    {
        if self.mem.len() == 0 {
            return ;
        }
        let i: usize = self.fold(addr, 0);
        if self.mem.len() - i >= 4 {
            proof {
                let len = self.mem.len() as int;
                lemma_fold_step(addr as int, 0, len);
                lemma_fold_step(addr as int, 1, len);
                lemma_fold_step(addr as int, 2, len);
                lemma_fold_step(addr as int, 3, len);
            }
            write_u32_le(&mut self.mem, i, value);
        } else {
            let i1: usize = self.fold(addr, 1);
            let i2: usize = self.fold(addr, 2);
            let i3: usize = self.fold(addr, 3);
            self.mem[i] = (value % 256) as u8;
            self.mem[i1] = ((value / 256) % 256) as u8;
            self.mem[i2] = ((value / 65536) % 256) as u8;
            self.mem[i3] = ((value / 16777216) % 256) as u8;
        }
    }

    fn write_16(&mut self, addr: Addr, value: u16)
        ensures
            final(self).mem@ == mem_write_16(old(self).mem@, addr as int, value),
            final(self).mem.len() == old(self).mem.len(),
    {
        if self.mem.len() == 0 {
            return ;
        }
        let i: usize = self.fold(addr, 0);
        if self.mem.len() - i >= 2 {
            proof {
                let len = self.mem.len() as int;
                lemma_fold_step(addr as int, 0, len);
                lemma_fold_step(addr as int, 1, len);
            }
            write_u16_le(&mut self.mem, i, value);
        } else {
            let i1: usize = self.fold(addr, 1);
            self.mem[i] = (value % 256) as u8;
            self.mem[i1] = ((value / 256) % 256) as u8;
        }
    }

    fn write_8(&mut self, addr: Addr, value: u8)
        ensures
            final(self).mem@ == mem_write_8(old(self).mem@, addr as int, value),
            final(self).mem.len() == old(self).mem.len(),
    {
        if self.mem.len() == 0 {
            return ;
        }
        let i: usize = self.fold(addr, 0);
        self.mem[i] = value;
    }
}

/// What answers where nothing is mapped: every read gives 0 and every write
/// is dropped.
#[derive(Debug)]
pub struct DummyBus(pub [u8; 4]);

impl Bus for DummyBus {
    fn read_32(&self, _addr: Addr) -> (r: u32)
        ensures
            r == 0,
    {
        0
    }

    fn read_16(&self, _addr: Addr) -> (r: u16)
        ensures
            r == 0,
    {
        0
    }

    fn read_8(&self, _addr: Addr) -> (r: u8)
        ensures
            r == 0,
    {
        0
    }

    fn write_32(&mut self, _addr: Addr, _value: u32)
        ensures
            *final(self) == *old(self),
    {
    }

    fn write_16(&mut self, _addr: Addr, _value: u16)
        ensures
            *final(self) == *old(self),
    {
    }

    fn write_8(&mut self, _addr: Addr, _value: u8)
        ensures
            *final(self) == *old(self),
    {
    }
}

/// What an address of the system bus leads to.
#[derive(Debug, PartialEq, Eq, Copy, Clone, Structural)]
pub enum Region {
    /// The BIOS, 16 KiB.
    Bios,
    /// The on-board work RAM, 256 KiB.
    Ewram,
    /// The internal work RAM, 32 KiB.
    Iwram,
    /// The I/O registers.
    Io,
    /// The palette RAM, 1 KiB.
    Palette,
    /// The video RAM.
    Vram,
    /// The object attribute memory, 1 KiB.
    Oam,
    /// The cartridge.
    GamePak,
    /// Nothing: reads give 0 and writes are dropped.
    Unmapped,
}

impl Region {
    /// Whether the region is memory that the processor can write: one of the
    /// two work RAMs, the palette RAM, the video RAM or the object attribute
    /// memory.
    pub open spec fn is_ram(self) -> bool {
        self == Region::Ewram || self == Region::Iwram || self == Region::Palette || self
            == Region::Vram || self == Region::Oam
    }
}

/// The region that `addr` is read from, and the offset in it.
///
/// The top byte of the address picks the region, the low 24 bits are folded
/// into it. BIOS addresses from 0x4000 on lead nowhere. In the I/O window
/// every offset whose low 16 bits are 0x8000 becomes 0x800; the others are
/// folded into 2 KiB. Video RAM is folded into 128 KiB, and what then lies
/// above 0x18000 is moved down by 0x8000. The cartridge answers in the pages
/// 0x08, 0x09, 0x0A and 0x0C, folded into 32 MiB.
#[verifier::opaque]
pub open spec fn spec_map(addr: u32) -> (Region, u32) {
    let ofs = (addr % 0x0100_0000) as u32;
    let page = addr / 0x0100_0000;
    if page == 0x00 {
        if ofs >= 0x4000 {
            (Region::Unmapped, ofs)
        } else {
            (Region::Bios, ofs)
        }
    } else if page == 0x02 {
        (Region::Ewram, (ofs % 0x4_0000) as u32)
    } else if page == 0x03 {
        (Region::Iwram, (ofs % 0x8000) as u32)
    } else if page == 0x04 {
        (Region::Io, if ofs % 0x1_0000 == 0x8000 {
            0x800
        } else {
            (ofs % 0x800) as u32
        })
    } else if page == 0x05 {
        (Region::Palette, (ofs % 0x400) as u32)
    } else if page == 0x06 {
        let folded = (ofs % 0x2_0000) as u32;
        (Region::Vram, if folded > 0x1_8000 {
            (folded - 0x8000) as u32
        } else {
            folded
        })
    } else if page == 0x07 {
        (Region::Oam, (ofs % 0x400) as u32)
    } else if page == 0x08 || page == 0x09 || page == 0x0a || page == 0x0c {
        (Region::GamePak, (addr % 0x0200_0000) as u32)
    } else {
        (Region::Unmapped, ofs)
    }
}

/// The region that `addr` is written to, and the offset in it: as for a
/// read, but that the BIOS cannot be written.
pub open spec fn spec_map_mut(addr: u32) -> (Region, u32) {
    if addr / 0x0100_0000 == 0 {
        (Region::Unmapped, (addr % 0x0100_0000) as u32)
    } else {
        spec_map(addr)
    }
}

/// The wait cycles of a cartridge access, from the two indexes that WAITCNT
/// holds for the window.
///
/// A first access waits 4, 3, 2 or 8 cycles, a second access 2 or 1. An
/// access that does not follow the one before is a first access, and a word
/// adds a second access to it; one that follows is a second access, and a
/// word is two of them.
pub open spec fn gamepak_cycles(first: usize, second: usize, access: MemoryAccess) -> usize {
    let nonseq: usize = if first == 0 {
        4
    } else if first == 1 {
        3
    } else if first == 2 {
        2
    } else {
        8
    };
    let seq: usize = if second == 0 {
        2
    } else {
        1
    };
    match access.0 {
        MemoryAccessType::NonSeq => if access.1 == MemoryAccessWidth::MemoryAccess32 {
            (nonseq + seq) as usize
        } else {
            nonseq
        },
        MemoryAccessType::Sequential => if access.1 == MemoryAccessWidth::MemoryAccess32 {
            (2 * seq) as usize
        } else {
            seq
        },
    }
}

/// The wait cycles of an access to `addr`.
///
/// The on-board work RAM waits 3 cycles, 6 for a word. Palette RAM, video RAM
/// and object attribute memory wait 1 cycle, 2 for a word, and one more while
/// the graphics unit draws. The cartridge waits as WAITCNT says for the
/// window of the address. Everything else answers at once.
pub open spec fn spec_get_cycles(io: IoDevices, addr: u32, access: MemoryAccess) -> usize {
    let page = addr / 0x0100_0000;
    let word = access.1 == MemoryAccessWidth::MemoryAccess32;
    if page == 0x02 {
        if word {
            6
        } else {
            3
        }
    } else if page == 0x05 || page == 0x06 || page == 0x07 {
        ((if word {
            2int
        } else {
            1int
        }) + (if io.gpu.state == GpuState::HDraw {
            1int
        } else {
            0int
        })) as usize
    } else if page == 0x08 || page == 0x09 {
        gamepak_cycles(io.waitcnt.spec_ws0_first_access(), io.waitcnt.spec_ws0_second_access(), access)
    } else if page == 0x0a {
        gamepak_cycles(io.waitcnt.spec_ws1_first_access(), io.waitcnt.spec_ws1_second_access(), access)
    } else if page == 0x0c {
        gamepak_cycles(io.waitcnt.spec_ws2_first_access(), io.waitcnt.spec_ws2_second_access(), access)
    } else {
        0
    }
}

/// `x` without its remainder by `width`: the address of the halfword or word
/// that `x` lies in.
pub open spec fn align_down(x: u32, width: int) -> u32 {
    (x - (x as int) % width) as u32
}

/// Everything behind the system bus, the blocks of memory as the bytes they
/// hold.
pub struct SysBusView {
    /// The I/O devices.
    pub io: IoDevices,
    /// The BIOS.
    pub bios: Seq<u8>,
    /// The on-board work RAM.
    pub ewram: Seq<u8>,
    /// The internal work RAM.
    pub iwram: Seq<u8>,
    /// The palette RAM.
    pub palette: Seq<u8>,
    /// The video RAM.
    pub vram: Seq<u8>,
    /// The object attribute memory.
    pub oam: Seq<u8>,
    /// The cartridge.
    pub rom: Seq<u8>,
}

impl SysBusView {
    /// Every block has its size and the clock of the graphics unit is in a
    /// valid place.
    pub open spec fn wf(self) -> bool {
        &&& self.io.wf()
        &&& self.bios.len() == BIOS_SIZE
        &&& self.ewram.len() == WORK_RAM_SIZE
        &&& self.iwram.len() == INTERNAL_RAM_SIZE
        &&& self.palette.len() == PALETTE_RAM_SIZE
        &&& self.vram.len() == VIDEO_RAM_SIZE
        &&& self.oam.len() == OAM_SIZE
    }

    /// The byte read at offset `ofs` of `region`.
    pub open spec fn region_read_8(self, region: Region, ofs: u32) -> u8 {
        match region {
            Region::Bios => mem_read_8(self.bios, ofs as int),
            Region::Ewram => mem_read_8(self.ewram, ofs as int),
            Region::Iwram => mem_read_8(self.iwram, ofs as int),
            Region::Io => self.io.spec_read_8(ofs),
            Region::Palette => mem_read_8(self.palette, ofs as int),
            Region::Vram => mem_read_8(self.vram, ofs as int),
            Region::Oam => mem_read_8(self.oam, ofs as int),
            Region::GamePak => rom_read_8(self.rom, ofs as int),
            Region::Unmapped => 0,
        }
    }

    /// The halfword read at offset `ofs` of `region`.
    pub open spec fn region_read_16(self, region: Region, ofs: u32) -> u16 {
        match region {
            Region::Bios => mem_read_16(self.bios, ofs as int),
            Region::Ewram => mem_read_16(self.ewram, ofs as int),
            Region::Iwram => mem_read_16(self.iwram, ofs as int),
            Region::Io => self.io.spec_read_16(ofs),
            Region::Palette => mem_read_16(self.palette, ofs as int),
            Region::Vram => mem_read_16(self.vram, ofs as int),
            Region::Oam => mem_read_16(self.oam, ofs as int),
            Region::GamePak => rom_read_16(self.rom, ofs as int),
            Region::Unmapped => 0,
        }
    }

    /// The word read at offset `ofs` of `region`.
    pub open spec fn region_read_32(self, region: Region, ofs: u32) -> u32 {
        match region {
            Region::Bios => mem_read_32(self.bios, ofs as int),
            Region::Ewram => mem_read_32(self.ewram, ofs as int),
            Region::Iwram => mem_read_32(self.iwram, ofs as int),
            Region::Io => self.io.spec_read_32(ofs),
            Region::Palette => mem_read_32(self.palette, ofs as int),
            Region::Vram => mem_read_32(self.vram, ofs as int),
            Region::Oam => mem_read_32(self.oam, ofs as int),
            Region::GamePak => rom_read_32(self.rom, ofs as int),
            Region::Unmapped => 0,
        }
    }

    /// What is behind the bus after the byte `value` was written at offset
    /// `ofs` of `region`. The BIOS and the cartridge take no writes.
    pub open spec fn region_write_8(self, region: Region, ofs: u32, value: u8) -> SysBusView {
        match region {
            Region::Ewram => SysBusView { ewram: mem_write_8(self.ewram, ofs as int, value), ..self },
            Region::Iwram => SysBusView { iwram: mem_write_8(self.iwram, ofs as int, value), ..self },
            Region::Io => SysBusView { io: self.io.spec_write_8(ofs, value), ..self },
            Region::Palette => SysBusView {
                palette: mem_write_8(self.palette, ofs as int, value),
                ..self
            },
            Region::Vram => SysBusView { vram: mem_write_8(self.vram, ofs as int, value), ..self },
            Region::Oam => SysBusView { oam: mem_write_8(self.oam, ofs as int, value), ..self },
            _ => self,
        }
    }

    /// What is behind the bus after the halfword `value` was written at
    /// offset `ofs` of `region`.
    pub open spec fn region_write_16(self, region: Region, ofs: u32, value: u16) -> SysBusView {
        match region {
            Region::Ewram => SysBusView {
                ewram: mem_write_16(self.ewram, ofs as int, value),
                ..self
            },
            Region::Iwram => SysBusView {
                iwram: mem_write_16(self.iwram, ofs as int, value),
                ..self
            },
            Region::Io => SysBusView { io: self.io.spec_write_16(ofs, value), ..self },
            Region::Palette => SysBusView {
                palette: mem_write_16(self.palette, ofs as int, value),
                ..self
            },
            Region::Vram => SysBusView { vram: mem_write_16(self.vram, ofs as int, value), ..self },
            Region::Oam => SysBusView { oam: mem_write_16(self.oam, ofs as int, value), ..self },
            _ => self,
        }
    }

    /// What is behind the bus after the word `value` was written at offset
    /// `ofs` of `region`.
    pub open spec fn region_write_32(self, region: Region, ofs: u32, value: u32) -> SysBusView {
        match region {
            Region::Ewram => SysBusView {
                ewram: mem_write_32(self.ewram, ofs as int, value),
                ..self
            },
            Region::Iwram => SysBusView {
                iwram: mem_write_32(self.iwram, ofs as int, value),
                ..self
            },
            Region::Io => SysBusView { io: self.io.spec_write_32(ofs, value), ..self },
            Region::Palette => SysBusView {
                palette: mem_write_32(self.palette, ofs as int, value),
                ..self
            },
            Region::Vram => SysBusView { vram: mem_write_32(self.vram, ofs as int, value), ..self },
            Region::Oam => SysBusView { oam: mem_write_32(self.oam, ofs as int, value), ..self },
            _ => self,
        }
    }

    /// The byte read at `addr`.
    pub open spec fn read_8(self, addr: u32) -> u8 {
        self.region_read_8(spec_map(addr).0, spec_map(addr).1)
    }

    /// The halfword read at `addr`; the lowest bit of the offset is dropped.
    pub open spec fn read_16(self, addr: u32) -> u16 {
        self.region_read_16(spec_map(addr).0, align_down(spec_map(addr).1, 2))
    }

    /// The word read at `addr`; the two lowest bits of the offset are
    /// dropped.
    pub open spec fn read_32(self, addr: u32) -> u32 {
        self.region_read_32(spec_map(addr).0, align_down(spec_map(addr).1, 4))
    }

    /// What is behind the bus after the byte `value` was written at `addr`.
    pub open spec fn write_8(self, addr: u32, value: u8) -> SysBusView {
        self.region_write_8(spec_map_mut(addr).0, spec_map_mut(addr).1, value)
    }

    /// What is behind the bus after the halfword `value` was written at
    /// `addr`; the lowest bit of the offset is dropped.
    pub open spec fn write_16(self, addr: u32, value: u16) -> SysBusView {
        self.region_write_16(spec_map_mut(addr).0, align_down(spec_map_mut(addr).1, 2), value)
    }

    /// What is behind the bus after the word `value` was written at `addr`;
    /// the two lowest bits of the offset are dropped.
    pub open spec fn write_32(self, addr: u32, value: u32) -> SysBusView {
        self.region_write_32(spec_map_mut(addr).0, align_down(spec_map_mut(addr).1, 4), value)
    }
}

/// The bytes of `region` from offset `ofs` on; none for the I/O registers,
/// for the unmapped addresses and past the end of the region.
pub open spec fn spec_bytes_from(bus: SysBusView, region: Region, ofs: u32) -> Seq<u8> {
    let block = match region {
        Region::Bios => bus.bios,
        Region::Ewram => bus.ewram,
        Region::Iwram => bus.iwram,
        Region::Palette => bus.palette,
        Region::Vram => bus.vram,
        Region::Oam => bus.oam,
        Region::GamePak => bus.rom,
        _ => Seq::empty(),
    };
    if ofs <= block.len() {
        block.subrange(ofs as int, block.len() as int)
    } else {
        Seq::empty()
    }
}

/// The system bus with everything behind it.
pub struct SysBus {
    /// The I/O devices.
    pub io: IoDevices,
    /// The BIOS.
    pub bios: BoxedMemory,
    /// The on-board work RAM.
    pub onboard_work_ram: BoxedMemory,
    /// The internal work RAM.
    pub internal_work_ram: BoxedMemory,
    /// The palette RAM.
    pub palette_ram: BoxedMemory,
    /// The video RAM.
    pub vram: BoxedMemory,
    /// The object attribute memory.
    pub oam: BoxedMemory,
    /// The cartridge.
    pub gamepak: Cartridge,
    /// What answers where nothing is mapped.
    pub dummy: DummyBus,
}

impl View for SysBus {
    type V = SysBusView;

    open spec fn view(&self) -> SysBusView {
        SysBusView {
            io: self.io,
            bios: self.bios.mem@,
            ewram: self.onboard_work_ram.mem@,
            iwram: self.internal_work_ram.mem@,
            palette: self.palette_ram.mem@,
            vram: self.vram.mem@,
            oam: self.oam.mem@,
            rom: self.gamepak.bytes@,
        }
    }
}

/// What the masks of the memory map do, as division and remainder say it.
proof fn lemma_masks(x: u32)
    by (bit_vector)
    ensures
        x & 0x00ff_ffff == x % 0x0100_0000,
        x & 0xff00_0000 == (x / 0x0100_0000) * 0x0100_0000,
        x & 0x3_ffff == x % 0x4_0000,
        x & 0x7fff == x % 0x8000,
        x & 0xffff == x % 0x1_0000,
        x & 0x7ff == x % 0x800,
        x & 0x3ff == x % 0x400,
        x & 0x1_ffff == x % 0x2_0000,
        x & 0x01ff_ffff == x % 0x0200_0000,
        x < 0x0200_0000 ==> x & 0x01ff_fffc == x - x % 4,
        x < 0x0200_0000 ==> x & 0x01ff_fffe == x - x % 2,
        x < 0x0200_0000 ==> x & 0x01ff_ffff == x,
{
}

impl SysBus {
    /// A bus with the given devices, BIOS and cartridge, and with all RAM
    /// zeroed. The BIOS is cut or filled with zeros to 16 KiB.
    pub fn new(io: IoDevices, bios_rom: Vec<u8>, gamepak: Cartridge) -> (r: SysBus)
        ensures
            r@.io == io,
            r@.rom == gamepak.bytes@,
            r@.bios == Seq::new(
                BIOS_SIZE as nat,
                |i: int|
                    if i < bios_rom.len() {
                        bios_rom[i]
                    } else {
                        0u8
                    },
            ),
            r@.ewram == Seq::new(WORK_RAM_SIZE as nat, |i: int| 0u8),
            r@.iwram == Seq::new(INTERNAL_RAM_SIZE as nat, |i: int| 0u8),
            r@.palette == Seq::new(PALETTE_RAM_SIZE as nat, |i: int| 0u8),
            r@.vram == Seq::new(VIDEO_RAM_SIZE as nat, |i: int| 0u8),
            r@.oam == Seq::new(OAM_SIZE as nat, |i: int| 0u8),
            io.wf() ==> r@.wf(),
    {
        let mut bios: Vec<u8> = bios_rom;
        let ghost given = bios@;
        bios.resize(BIOS_SIZE, 0u8);
        assert(bios@ =~= Seq::new(
            BIOS_SIZE as nat,
            |i: int|
                if i < given.len() {
                    given[i]
                } else {
                    0u8
                },
        )) by {
            if BIOS_SIZE > given.len() {
                assert(forall|i: int|
                    0 <= i < given.len() ==> bios@[i] == bios@.subrange(0, given.len() as int)[i]);
            }
        }
        SysBus {
            io: io,
            bios: BoxedMemory::new(bios),
            onboard_work_ram: BoxedMemory::zeroed(WORK_RAM_SIZE),
            internal_work_ram: BoxedMemory::zeroed(INTERNAL_RAM_SIZE),
            palette_ram: BoxedMemory::zeroed(PALETTE_RAM_SIZE),
            vram: BoxedMemory::zeroed(VIDEO_RAM_SIZE),
            oam: BoxedMemory::zeroed(OAM_SIZE),
            gamepak: gamepak,
            dummy: DummyBus([0u8; 4]),
        }
    }

    /// Whether every block has its size and the clock of the graphics unit
    /// is in a valid place.
    pub fn is_valid(&self) -> (r: bool)
        ensures
            r == self@.wf(),
    {
        self.io.gpu.is_valid() && self.bios.mem.len() == BIOS_SIZE
            && self.onboard_work_ram.mem.len() == WORK_RAM_SIZE && self.internal_work_ram.mem.len()
            == INTERNAL_RAM_SIZE && self.palette_ram.mem.len() == PALETTE_RAM_SIZE
            && self.vram.mem.len() == VIDEO_RAM_SIZE && self.oam.mem.len() == OAM_SIZE
    }

    /// The region that `addr` is read from, and the offset in it.
    pub fn map(&self, addr: Addr) -> (r: (Region, Addr))
        ensures
            r == spec_map(addr),
            r.1 < 0x0200_0000,
    {
        let ofs: u32 = addr & 0x00ff_ffff;
        let page: u32 = addr & 0xff00_0000;
        proof {
            reveal(spec_map);
            lemma_masks(addr);
            lemma_masks(ofs);
        }
        if page == BIOS_ADDR {
            if ofs >= 0x4000 {
                (Region::Unmapped, ofs)
            } else {
                (Region::Bios, ofs)
            }
        } else if page == EWRAM_ADDR {
            (Region::Ewram, ofs & 0x3_ffff)
        } else if page == IWRAM_ADDR {
            (Region::Iwram, ofs & 0x7fff)
        } else if page == IOMEM_ADDR {
            (Region::Io, if ofs & 0xffff == 0x8000 {
                0x800
            } else {
                ofs & 0x7ff
            })
        } else if page == PALRAM_ADDR {
            (Region::Palette, ofs & 0x3ff)
        } else if page == VRAM_ADDR {
            let mut folded: u32 = ofs & ((VIDEO_RAM_SIZE as u32) - 1);
            if folded > 0x1_8000 {
                folded = folded - 0x8000;
            }
            (Region::Vram, folded)
        } else if page == OAM_ADDR {
            (Region::Oam, ofs & 0x3ff)
        } else if page == GAMEPAK_WS0_ADDR || page == GAMEPAK_MIRROR_WS0_ADDR || page
            == GAMEPAK_WS1_ADDR || page == GAMEPAK_WS2_ADDR {
            (Region::GamePak, addr & 0x01ff_ffff)
        } else {
            (Region::Unmapped, ofs)
        }
    }

    /// The region that `addr` is written to, and the offset in it.
    pub fn map_mut(&self, addr: Addr) -> (r: (Region, Addr))
        ensures
            r == spec_map_mut(addr),
            r.1 < 0x0200_0000,
    {
        let ofs: u32 = addr & 0x00ff_ffff;
        let page: u32 = addr & 0xff00_0000;
        proof {
            reveal(spec_map);
            lemma_masks(addr);
            lemma_masks(ofs);
        }
        if page == BIOS_ADDR {
            (Region::Unmapped, ofs)
        } else if page == EWRAM_ADDR {
            (Region::Ewram, ofs & 0x3_ffff)
        } else if page == IWRAM_ADDR {
            (Region::Iwram, ofs & 0x7fff)
        } else if page == IOMEM_ADDR {
            (Region::Io, if ofs & 0xffff == 0x8000 {
                0x800
            } else {
                ofs & 0x7ff
            })
        } else if page == PALRAM_ADDR {
            (Region::Palette, ofs & 0x3ff)
        } else if page == VRAM_ADDR {
            let mut folded: u32 = ofs & ((VIDEO_RAM_SIZE as u32) - 1);
            if folded > 0x1_8000 {
                folded = folded - 0x8000;
            }
            (Region::Vram, folded)
        } else if page == OAM_ADDR {
            (Region::Oam, ofs & 0x3ff)
        } else if page == GAMEPAK_WS0_ADDR || page == GAMEPAK_MIRROR_WS0_ADDR || page
            == GAMEPAK_WS1_ADDR || page == GAMEPAK_WS2_ADDR {
            (Region::GamePak, addr & 0x01ff_ffff)
        } else {
            (Region::Unmapped, ofs)
        }
    }

    /// The bytes of the region that `addr` is read from, from the offset of
    /// `addr` on. The I/O registers and the unmapped addresses have no bytes
    /// to show.
    pub fn get_bytes(&self, addr: Addr) -> (r: &[u8])
        ensures
            r@ == spec_bytes_from(self@, spec_map(addr).0, spec_map(addr).1),
    {
        let (region, ofs) = self.map(addr);
        let block: &Vec<u8> = match region {
            Region::Bios => &self.bios.mem,
            Region::Ewram => &self.onboard_work_ram.mem,
            Region::Iwram => &self.internal_work_ram.mem,
            Region::Palette => &self.palette_ram.mem,
            Region::Vram => &self.vram.mem,
            Region::Oam => &self.oam.mem,
            Region::GamePak => &self.gamepak.bytes,
            _ => {
                let none: &[u8] = vstd::slice::slice_subrange(self.bios.mem.as_slice(), 0, 0);
                return none;
            },
        };
        let from: usize = ofs as usize;
        if from <= block.len() {
            vstd::slice::slice_subrange(block.as_slice(), from, block.len())
        } else {
            vstd::slice::slice_subrange(block.as_slice(), 0, 0)
        }
    }

    /// The wait cycles of a cartridge access, from the two indexes that
    /// WAITCNT holds for the window.
    fn gamepak_wait(first: usize, second: usize, access: MemoryAccess) -> (r: usize)
        requires
            first < 4,
            second < 2,
        ensures
            r == gamepak_cycles(first, second, access),
            r <= 10,
    {
        let nonseq_cycles: [usize; 4] = [4, 3, 2, 8];
        let seq_cycles: [usize; 2] = [2, 1];
        let mut cycles: usize = 0;
        match access.0 {
            MemoryAccessType::NonSeq => match access.1 {
                MemoryAccessWidth::MemoryAccess32 => {
                    cycles = cycles + nonseq_cycles[first];
                    cycles = cycles + seq_cycles[second];
                },
                _ => {
                    cycles = cycles + nonseq_cycles[first];
                },
            },
            MemoryAccessType::Sequential => {
                cycles = cycles + seq_cycles[second];
                if access.1 == MemoryAccessWidth::MemoryAccess32 {
                    cycles = cycles + seq_cycles[second];
                }
            },
        }
        cycles
    }

    /// The wait cycles of an access to `addr`.
    pub fn get_cycles(&self, addr: Addr, access: MemoryAccess) -> (r: usize)
        ensures
            r == spec_get_cycles(self.io, addr, access),
            r <= 10,
    {
        let page: u32 = addr & 0xff00_0000;
        proof {
            lemma_masks(addr);
        }
        let mut cycles: usize = 0;
        if page == EWRAM_ADDR {
            match access.1 {
                MemoryAccessWidth::MemoryAccess32 => {
                    cycles = cycles + 6;
                },
                _ => {
                    cycles = cycles + 3;
                },
            }
        } else if page == OAM_ADDR || page == VRAM_ADDR || page == PALRAM_ADDR {
            match access.1 {
                MemoryAccessWidth::MemoryAccess32 => {
                    cycles = cycles + 2;
                },
                _ => {
                    cycles = cycles + 1;
                },
            }
            if self.io.gpu.state == GpuState::HDraw {
                cycles = cycles + 1;
            }
        } else if page == GAMEPAK_WS0_ADDR || page == GAMEPAK_MIRROR_WS0_ADDR {
            cycles = Self::gamepak_wait(
                self.io.waitcnt.ws0_first_access(),
                self.io.waitcnt.ws0_second_access(),
                access,
            );
        } else if page == GAMEPAK_WS1_ADDR {
            cycles = Self::gamepak_wait(
                self.io.waitcnt.ws1_first_access(),
                self.io.waitcnt.ws1_second_access(),
                access,
            );
        } else if page == GAMEPAK_WS2_ADDR {
            cycles = Self::gamepak_wait(
                self.io.waitcnt.ws2_first_access(),
                self.io.waitcnt.ws2_second_access(),
                access,
            );
        }
        cycles
    }
}

impl Bus for SysBus {
    fn read_32(&self, addr: Addr) -> (r: u32)
        ensures
            r == self@.read_32(addr),
    {
        let (region, ofs) = self.map(addr);
        proof {
            lemma_masks(ofs);
        }
        let a: u32 = ofs & 0x01ff_fffc;
        match region {
            Region::Bios => self.bios.read_32(a),
            Region::Ewram => self.onboard_work_ram.read_32(a),
            Region::Iwram => self.internal_work_ram.read_32(a),
            Region::Io => self.io.read_32(a),
            Region::Palette => self.palette_ram.read_32(a),
            Region::Vram => self.vram.read_32(a),
            Region::Oam => self.oam.read_32(a),
            Region::GamePak => self.gamepak.read_32(a),
            Region::Unmapped => self.dummy.read_32(a),
        }
    }

    fn read_16(&self, addr: Addr) -> (r: u16)
        ensures
            r == self@.read_16(addr),
    {
        let (region, ofs) = self.map(addr);
        proof {
            lemma_masks(ofs);
        }
        let a: u32 = ofs & 0x01ff_fffe;
        match region {
            Region::Bios => self.bios.read_16(a),
            Region::Ewram => self.onboard_work_ram.read_16(a),
            Region::Iwram => self.internal_work_ram.read_16(a),
            Region::Io => self.io.read_16(a),
            Region::Palette => self.palette_ram.read_16(a),
            Region::Vram => self.vram.read_16(a),
            Region::Oam => self.oam.read_16(a),
            Region::GamePak => self.gamepak.read_16(a),
            Region::Unmapped => self.dummy.read_16(a),
        }
    }

    fn read_8(&self, addr: Addr) -> (r: u8)
        ensures
            r == self@.read_8(addr),
    {
        let (region, ofs) = self.map(addr);
        proof {
            lemma_masks(ofs);
        }
        let a: u32 = ofs & 0x01ff_ffff;
        match region {
            Region::Bios => self.bios.read_8(a),
            Region::Ewram => self.onboard_work_ram.read_8(a),
            Region::Iwram => self.internal_work_ram.read_8(a),
            Region::Io => self.io.read_8(a),
            Region::Palette => self.palette_ram.read_8(a),
            Region::Vram => self.vram.read_8(a),
            Region::Oam => self.oam.read_8(a),
            Region::GamePak => self.gamepak.read_8(a),
            Region::Unmapped => self.dummy.read_8(a),
        }
    }

    fn write_32(&mut self, addr: Addr, value: u32)
        ensures
            final(self)@ == old(self)@.write_32(addr, value),
            same_frame(old(self)@, final(self)@),
    {
        let (region, ofs) = self.map_mut(addr);
        proof {
            lemma_masks(ofs);
            lemma_write_keeps_wf(self@, addr, 0, 0, value);
        }
        let a: u32 = ofs & 0x01ff_fffc;
        match region {
            Region::Ewram => self.onboard_work_ram.write_32(a, value),
            Region::Iwram => self.internal_work_ram.write_32(a, value),
            Region::Io => self.io.write_32(a, value),
            Region::Palette => self.palette_ram.write_32(a, value),
            Region::Vram => self.vram.write_32(a, value),
            Region::Oam => self.oam.write_32(a, value),
            Region::GamePak => self.gamepak.write_32(a, value),
            _ => self.dummy.write_32(a, value),
        }
    }

    fn write_16(&mut self, addr: Addr, value: u16)
        ensures
            final(self)@ == old(self)@.write_16(addr, value),
            same_frame(old(self)@, final(self)@),
    {
        let (region, ofs) = self.map_mut(addr);
        proof {
            lemma_masks(ofs);
            lemma_write_keeps_wf(self@, addr, 0, value, 0);
        }
        let a: u32 = ofs & 0x01ff_fffe;
        match region {
            Region::Ewram => self.onboard_work_ram.write_16(a, value),
            Region::Iwram => self.internal_work_ram.write_16(a, value),
            Region::Io => self.io.write_16(a, value),
            Region::Palette => self.palette_ram.write_16(a, value),
            Region::Vram => self.vram.write_16(a, value),
            Region::Oam => self.oam.write_16(a, value),
            Region::GamePak => self.gamepak.write_16(a, value),
            _ => self.dummy.write_16(a, value),
        }
    }

    fn write_8(&mut self, addr: Addr, value: u8)
        ensures
            final(self)@ == old(self)@.write_8(addr, value),
            same_frame(old(self)@, final(self)@),
    {
        let (region, ofs) = self.map_mut(addr);
        proof {
            lemma_masks(ofs);
            lemma_write_keeps_wf(self@, addr, value, 0, 0);
        }
        let a: u32 = ofs & 0x01ff_ffff;
        match region {
            Region::Ewram => self.onboard_work_ram.write_8(a, value),
            Region::Iwram => self.internal_work_ram.write_8(a, value),
            Region::Io => self.io.write_8(a, value),
            Region::Palette => self.palette_ram.write_8(a, value),
            Region::Vram => self.vram.write_8(a, value),
            Region::Oam => self.oam.write_8(a, value),
            Region::GamePak => self.gamepak.write_8(a, value),
            _ => self.dummy.write_8(a, value),
        }
    }
}

/// Whether `after` has the graphics unit at the same place of the same frame
/// as `before`, holds the same BIOS and cartridge, and is valid if `before`
/// is.
pub open spec fn same_frame(before: SysBusView, after: SysBusView) -> bool {
    &&& before.wf() ==> after.wf()
    &&& after.io.gpu.timing() == before.io.gpu.timing()
    &&& after.io.gpu.frames == before.io.gpu.frames
    &&& after.rom == before.rom
    &&& after.bios == before.bios
}

/// A write leaves every block at its size, the BIOS and the cartridge as
/// they are, and the clock of the graphics unit in its place.
pub proof fn lemma_write_keeps_wf(bus: SysBusView, addr: u32, b: u8, h: u16, w: u32)
    ensures
        same_frame(bus, bus.write_8(addr, b)),
        same_frame(bus, bus.write_16(addr, h)),
        same_frame(bus, bus.write_32(addr, w)),
{
    let (region, ofs) = spec_map_mut(addr);
    if region == Region::Io {
        let a2 = align_down(ofs, 2);
        let a4 = align_down(ofs, 4);
        let e = (ofs - ofs % 2) as u32;
        crate::iodev::lemma_write_keeps_timing(bus.io, a2, h);
        crate::iodev::lemma_write_keeps_timing(bus.io, e, crate::iodev::with_byte(0, ofs, b));
        crate::iodev::lemma_write_keeps_timing(
            bus.io,
            e,
            crate::iodev::with_byte(bus.io.spec_read_16(e), ofs, b),
        );
        crate::iodev::lemma_write_keeps_timing(bus.io, a4, (w % 65536) as u16);
        crate::iodev::lemma_write_keeps_timing(
            bus.io.spec_write_16(a4, (w % 65536) as u16),
            a4.wrapping_add(2),
            (w / 65536) as u16,
        );
    }
}

/// A byte written to RAM is the byte read there right after.
pub proof fn lemma_ram_write_8_reads_back(bus: SysBusView, addr: u32, value: u8)
    requires
        bus.wf(),
        spec_map(addr).0.is_ram(),
    ensures
        bus.write_8(addr, value).read_8(addr) == value,
{
    lemma_map_in_range(addr);
    let ofs = spec_map(addr).1;
    match spec_map(addr).0 {
        Region::Ewram => crate::bus::lemma_mem_write_8_reads_back(bus.ewram, ofs as int, value),
        Region::Iwram => crate::bus::lemma_mem_write_8_reads_back(bus.iwram, ofs as int, value),
        Region::Palette => crate::bus::lemma_mem_write_8_reads_back(bus.palette, ofs as int, value),
        Region::Vram => crate::bus::lemma_mem_write_8_reads_back(bus.vram, ofs as int, value),
        _ => crate::bus::lemma_mem_write_8_reads_back(bus.oam, ofs as int, value),
    }
}

/// A halfword written to RAM is the halfword read there right after.
pub proof fn lemma_ram_write_16_reads_back(bus: SysBusView, addr: u32, value: u16)
    requires
        bus.wf(),
        spec_map(addr).0.is_ram(),
    ensures
        bus.write_16(addr, value).read_16(addr) == value,
{
    lemma_map_in_range(addr);
    let ofs = align_down(spec_map(addr).1, 2);
    match spec_map(addr).0 {
        Region::Ewram => crate::bus::lemma_mem_write_16_reads_back(bus.ewram, ofs as int, value),
        Region::Iwram => crate::bus::lemma_mem_write_16_reads_back(bus.iwram, ofs as int, value),
        Region::Palette => crate::bus::lemma_mem_write_16_reads_back(
            bus.palette,
            ofs as int,
            value,
        ),
        Region::Vram => crate::bus::lemma_mem_write_16_reads_back(bus.vram, ofs as int, value),
        _ => crate::bus::lemma_mem_write_16_reads_back(bus.oam, ofs as int, value),
    }
}

/// A word written to RAM is the word read there right after.
pub proof fn lemma_ram_write_32_reads_back(bus: SysBusView, addr: u32, value: u32)
    requires
        bus.wf(),
        spec_map(addr).0.is_ram(),
    ensures
        bus.write_32(addr, value).read_32(addr) == value,
{
    lemma_map_in_range(addr);
    let ofs = align_down(spec_map(addr).1, 4);
    match spec_map(addr).0 {
        Region::Ewram => crate::bus::lemma_mem_write_32_reads_back(bus.ewram, ofs as int, value),
        Region::Iwram => crate::bus::lemma_mem_write_32_reads_back(bus.iwram, ofs as int, value),
        Region::Palette => crate::bus::lemma_mem_write_32_reads_back(
            bus.palette,
            ofs as int,
            value,
        ),
        Region::Vram => crate::bus::lemma_mem_write_32_reads_back(bus.vram, ofs as int, value),
        _ => crate::bus::lemma_mem_write_32_reads_back(bus.oam, ofs as int, value),
    }
}

/// The halfword `lo` below the halfword `hi`, as one word.
pub open spec fn join_halfwords(lo: u16, hi: u16) -> u32 {
    (lo as u32) | ((hi as u32) << 16)
}

/// Joining two halfwords with a shift and an or adds the upper one, 65536
/// times, to the lower one.
pub proof fn lemma_join_halfwords(lo: u16, hi: u16)
    ensures
        join_halfwords(lo, hi) == lo + 65536 * hi,
{
    let l = lo as u32;
    let h = hi as u32;
    assert(l | (h << 16) == l + 65536 * h) by (bit_vector)
        requires
            l < 65536,
            h < 65536,
    ;
}

/// Where the halfword two bytes after a multiple of four folds to.
proof fn lemma_next_halfword_folds(x: u32)
    by (bit_vector)
    requires
        x % 4 == 0,
    ensures
        x <= 0xffff_fffc,
        (x + 2) as u32 / 0x0100_0000 == x / 0x0100_0000,
        ((x + 2) as u32 % 0x0100_0000) % 0x4_0000 == (x % 0x0100_0000) % 0x4_0000 + 2,
        ((x + 2) as u32 % 0x0100_0000) % 0x8000 == (x % 0x0100_0000) % 0x8000 + 2,
        ((x + 2) as u32 % 0x0100_0000) % 0x400 == (x % 0x0100_0000) % 0x400 + 2,
        ((x + 2) as u32 % 0x0100_0000) % 0x2_0000 == (x % 0x0100_0000) % 0x2_0000 + 2,
        (x % 0x0100_0000) % 0x2_0000 == x % 0x2_0000,
        ((x % 0x0100_0000) % 0x4_0000) % 4 == 0,
        ((x % 0x0100_0000) % 0x8000) % 4 == 0,
        ((x % 0x0100_0000) % 0x400) % 4 == 0,
        ((x % 0x0100_0000) % 0x2_0000) % 4 == 0,
{
}

/// Two bytes after an address of RAM that is a multiple of four lies the
/// same region, two bytes further on, but for the one address of video RAM
/// whose offset in the block of 128 KiB is 0x18000.
pub proof fn lemma_map_next_halfword(addr: u32)
    requires
        spec_map(addr).0.is_ram(),
        addr % 4 == 0,
        !(spec_map(addr).0 == Region::Vram && addr % 0x2_0000 == 0x1_8000),
    ensures
        spec_map((addr + 2) as u32).0 == spec_map(addr).0,
        spec_map((addr + 2) as u32).1 == spec_map(addr).1 + 2,
        spec_map(addr).1 % 4 == 0,
        spec_map(addr).1 < 0x0200_0000,
        spec_map_mut(addr) == spec_map(addr),
        addr + 2 <= u32::MAX,
{
    reveal(spec_map);
    lemma_next_halfword_folds(addr);
    let ofs = spec_map(addr).1;
    assert(ofs % 4 == 0);
}

/// In a region of RAM, the word at an offset that is a multiple of four is
/// the halfword there, with the halfword two bytes on above it.
pub proof fn lemma_region_word_is_two_halfwords(bus: SysBusView, region: Region, ofs: u32)
    requires
        region.is_ram(),
        ofs < 0x0200_0000,
    ensures
        bus.region_read_32(region, ofs) == bus.region_read_16(region, ofs) + 65536
            * bus.region_read_16(region, (ofs + 2) as u32),
{
    let block = match region {
        Region::Ewram => bus.ewram,
        Region::Iwram => bus.iwram,
        Region::Palette => bus.palette,
        Region::Vram => bus.vram,
        _ => bus.oam,
    };
    crate::bus::lemma_mem_read_32_is_two_halfwords(block, ofs as int);
}

/// Little-endian coherence of RAM: the word at an address that is a multiple
/// of four is the halfword there, with the halfword two bytes on above it.
///
/// One address of video RAM is left out: the one whose offset in the block of
/// 128 KiB is 0x18000. It is the last that is not moved down, so the halfword
/// two bytes on is read 0x8000 bytes lower than the upper half of the word.
pub proof fn lemma_ram_word_is_two_halfwords(bus: SysBusView, addr: u32)
    requires
        bus.wf(),
        spec_map(addr).0.is_ram(),
        addr % 4 == 0,
        !(spec_map(addr).0 == Region::Vram && addr % 0x2_0000 == 0x1_8000),
    ensures
        bus.read_32(addr) == join_halfwords(bus.read_16(addr), bus.read_16((addr + 2) as u32)),
        bus.read_32(addr) == bus.read_16(addr) + 65536 * bus.read_16((addr + 2) as u32),
{
    lemma_map_next_halfword(addr);
    let region = spec_map(addr).0;
    let ofs = spec_map(addr).1;
    let next = (addr + 2) as u32;
    assert(align_down(ofs, 4) == ofs);
    assert(align_down(ofs, 2) == ofs);
    assert(align_down((ofs + 2) as u32, 2) == ofs + 2);
    lemma_region_word_is_two_halfwords(bus, region, ofs);
    lemma_join_halfwords(bus.read_16(addr), bus.read_16(next));
}

/// Every offset that the memory map gives lies below 32 MiB.
pub proof fn lemma_map_in_range(addr: u32)
    ensures
        spec_map(addr).1 < 0x0200_0000,
        spec_map_mut(addr).1 < 0x0200_0000,
        spec_map(addr).0.is_ram() ==> spec_map_mut(addr) == spec_map(addr),
{
    reveal(spec_map);
}

/// The upper 32 KiB of the video RAM window show the 32 KiB below them: an
/// address whose offset in the block of 128 KiB lies above 0x18000 leads to
/// the same byte as the address 0x8000 lower.
pub proof fn lemma_vram_mirror(bus: SysBusView, addr: u32)
    requires
        addr / 0x0100_0000 == 0x06,
        addr % 0x2_0000 > 0x1_8000,
    ensures
        spec_map(addr) == spec_map((addr - 0x8000) as u32),
        bus.read_8(addr) == bus.read_8((addr - 0x8000) as u32),
        spec_map(addr).0 == Region::Vram,
{
    reveal(spec_map);
}

/// Every address of the I/O window whose low 16 bits are 0x8000 leads to
/// offset 0x800, and BIOS addresses from 0x4000 on lead nowhere and read as
/// zero.
pub proof fn lemma_io_mirror_and_open_bus(bus: SysBusView, io_addr: u32, bios_addr: u32)
    requires
        io_addr / 0x0100_0000 == 0x04,
        io_addr % 0x1_0000 == 0x8000,
        0x4000 <= bios_addr < 0x0100_0000,
    ensures
        spec_map(io_addr) == (Region::Io, 0x800u32),
        spec_map(bios_addr).0 == Region::Unmapped,
        bus.read_8(bios_addr) == 0,
        bus.read_16(bios_addr) == 0,
        bus.read_32(bios_addr) == 0,
{
    reveal(spec_map);
}

} // verus!
