//! The cartridge: a read-only block of up to 32 MiB.

use crate::bus::Addr;
use crate::bus::Bus;
use crate::endian::le16;
use crate::endian::le32;
use crate::endian::read_u16_le;
use crate::endian::read_u32_le;
use vstd::prelude::*;
use vstd::string::StrSliceExecFns;

verus! {

/// Offset of the game title in the cartridge header.
pub const HEADER_TITLE: usize = 0xa0;

/// Length of the game title in bytes.
pub const HEADER_TITLE_LEN: usize = 12;

/// Offset of the game code in the cartridge header.
pub const HEADER_GAME_CODE: usize = 0xac;

/// Length of the game code in bytes.
pub const HEADER_GAME_CODE_LEN: usize = 4;

/// Offset of the header checksum in the cartridge header.
pub const HEADER_CHECKSUM: usize = 0xbd;

/// The byte of the cartridge at `addr`; 0 past its end.
pub open spec fn rom_read_8(rom: Seq<u8>, addr: int) -> u8 {
    if 0 <= addr < rom.len() {
        rom[addr]
    } else {
        0
    }
}

/// The halfword of the cartridge at `addr`, low byte first.
pub open spec fn rom_read_16(rom: Seq<u8>, addr: int) -> u16 {
    le16(rom_read_8(rom, addr), rom_read_8(rom, addr + 1)) as u16
}

/// The word of the cartridge at `addr`, lowest byte first.
pub open spec fn rom_read_32(rom: Seq<u8>, addr: int) -> u32 {
    le32(
        rom_read_8(rom, addr),
        rom_read_8(rom, addr + 1),
        rom_read_8(rom, addr + 2),
        rom_read_8(rom, addr + 3),
    ) as u32
}

/// The checksum that a header with the given bytes should carry: the bytes
/// from 0xA0 to 0xBC are taken away from zero one after the other, then 0x19
/// is taken away, all in 8-bit arithmetic.
pub open spec fn header_checksum(rom: Seq<u8>, upto: int) -> int
    decreases upto,
{
    if upto <= 0xa0 {
        0
    } else {
        (header_checksum(rom, upto - 1) - rom_read_8(rom, upto - 1)) % 256
    }
}

/// A cartridge.
#[derive(Debug)]
pub struct Cartridge {
    /// The bytes of the cartridge.
    pub bytes: Vec<u8>,
}

impl Cartridge {
    /// A cartridge that holds the given bytes.
    pub fn new(rom_bin: Vec<u8>) -> (r: Cartridge)
        ensures
            r.bytes == rom_bin,
    {
        Cartridge { bytes: rom_bin }
    }

    /// Reads the byte at index `i`; 0 past the end.
    fn byte(&self, i: usize) -> (r: u8)
        ensures
            r == rom_read_8(self.bytes@, i as int),
    {
        if i < self.bytes.len() {
            self.bytes[i]
        } else {
            0
        }
    }

    /// The `len` bytes of the header from `start` on, 0 for those that the
    /// cartridge is too short to hold.
    pub fn header_bytes(&self, start: usize, len: usize) -> (r: Vec<u8>)
        requires
            start + len <= 0xc0,
        ensures
            r.len() == len,
            forall|i: int| 0 <= i < len ==> r[i] == rom_read_8(self.bytes@, start + i),
    {
        let mut out: Vec<u8> = Vec::new();
        for i in 0..len
            invariant
                start + len <= 0xc0,
                out.len() == i,
                forall|j: int| 0 <= j < i ==> out[j] == rom_read_8(self.bytes@, start + j),
        {
            out.push(self.byte(start + i));
        }
        out
    }

    /// The game title of the header: twelve bytes from 0xA0 on.
    pub fn title(&self) -> (r: Vec<u8>)
        ensures
            r.len() == HEADER_TITLE_LEN,
            forall|i: int|
                0 <= i < HEADER_TITLE_LEN ==> r[i] == rom_read_8(self.bytes@, HEADER_TITLE + i),
    {
        self.header_bytes(HEADER_TITLE, HEADER_TITLE_LEN)
    }

    /// The game code of the header: four bytes from 0xAC on.
    pub fn game_code(&self) -> (r: Vec<u8>)
        ensures
            r.len() == HEADER_GAME_CODE_LEN,
            forall|i: int|
                0 <= i < HEADER_GAME_CODE_LEN ==> r[i] == rom_read_8(
                    self.bytes@,
                    HEADER_GAME_CODE + i,
                ),
    {
        self.header_bytes(HEADER_GAME_CODE, HEADER_GAME_CODE_LEN)
    }

    /// Whether the checksum byte of the header, at 0xBD, fits the header.
    pub fn checksum_matches(&self) -> (r: bool)
        ensures
            r == (rom_read_8(self.bytes@, HEADER_CHECKSUM as int) == (header_checksum(
                self.bytes@,
                HEADER_CHECKSUM as int,
            ) - 0x19) % 256),
    {
        let mut sum: u8 = 0;
        for i in 0xa0..0xbdusize
            invariant
                sum == header_checksum(self.bytes@, i as int),
        {
            sum = sum.wrapping_sub(self.byte(i));
        }
        self.byte(HEADER_CHECKSUM) == sum.wrapping_sub(0x19)
    }
}

impl Bus for Cartridge {
    fn read_32(&self, addr: Addr) -> (r: u32)
        ensures
            r == rom_read_32(self.bytes@, addr as int),
    {
        let i: usize = addr as usize;
        if i < self.bytes.len() && self.bytes.len() - i >= 4 {
            read_u32_le(&self.bytes, i)
        } else {
            let b0: u32 = self.byte(i) as u32;
            let b1: u32 = self.next_byte(i, 1) as u32;
            let b2: u32 = self.next_byte(i, 2) as u32;
            let b3: u32 = self.next_byte(i, 3) as u32;
            b0 + 256 * b1 + 65536 * b2 + 16777216 * b3
        }
    }

    fn read_16(&self, addr: Addr) -> (r: u16)
        ensures
            r == rom_read_16(self.bytes@, addr as int),
    {
        let i: usize = addr as usize;
        if i < self.bytes.len() && self.bytes.len() - i >= 2 {
            read_u16_le(&self.bytes, i)
        } else {
            let b0: u16 = self.byte(i) as u16;
            let b1: u16 = self.next_byte(i, 1) as u16;
            b0 + 256 * b1
        }
    }

    fn read_8(&self, addr: Addr) -> (r: u8)
        ensures
            r == rom_read_8(self.bytes@, addr as int),
    {
        self.byte(addr as usize)
    }

    fn write_32(&mut self, _addr: Addr, _value: u32)
        ensures
            final(self).bytes == old(self).bytes,
    {
    }

    fn write_16(&mut self, _addr: Addr, _value: u16)
        ensures
            final(self).bytes == old(self).bytes,
    {
    }

    fn write_8(&mut self, _addr: Addr, _value: u8)
        ensures
            final(self).bytes == old(self).bytes,
    {
    }
}

impl Cartridge {
    /// Reads the byte `k` places after index `i`; 0 past the end.
    fn next_byte(&self, i: usize, k: usize) -> (r: u8)
        requires
            k < 4,
        ensures
            r == rom_read_8(self.bytes@, i + k),
    {
        if i < self.bytes.len() && self.bytes.len() - i > k {
            self.bytes[i + k]
        } else {
            0
        }
    }
}

/// Whether `name` ends with `suffix`.
pub open spec fn ends_with(name: Seq<char>, suffix: Seq<char>) -> bool {
    name.len() >= suffix.len() && name.subrange(name.len() - suffix.len(), name.len() as int)
        == suffix
}

/// Whether `name` ends with `suffix`.
pub fn name_ends_with(name: &str, suffix: &str) -> (r: bool)
    ensures
        r == ends_with(name@, suffix@),
{
    let n: usize = name.unicode_len();
    let m: usize = suffix.unicode_len();
    if n < m {
        return false;
    }
    let ghost tail = name@.subrange(n - m, n as int);
    let mut i: usize = 0;
    while i < m
        invariant
            n == name@.len(),
            m == suffix@.len(),
            m <= n,
            i <= m,
            tail == name@.subrange(n - m, n as int),
            forall|j: int| 0 <= j < i ==> tail[j] == suffix@[j],
        decreases m - i,
    {
        if name.get_char(n - m + i) != suffix.get_char(i) {
            assert(tail[i as int] != suffix@[i as int]);
            return false;
        }
        i = i + 1;
    }
    assert(tail =~= suffix@);
    true
}

/// Whether a file of this name holds its ROM image packed in an archive.
pub fn is_archive_name(path: &str) -> (r: bool)
    ensures
        r == ends_with(path@, ".zip"@),
{
    name_ends_with(path, ".zip")
}

/// The entry of an archive that the ROM image is read from: the first one
/// whose name ends with `.gba`.
pub fn first_rom_entry(names: &Vec<String>) -> (r: Option<usize>)
    ensures
        match r {
            Some(i) => i < names.len() && ends_with(names[i as int]@, ".gba"@) && forall|j: int|
                0 <= j < i ==> !ends_with(#[trigger] names[j]@, ".gba"@),
            None => forall|j: int| 0 <= j < names.len() ==> !ends_with(#[trigger] names[j]@, ".gba"@),
        },
{
    let mut i: usize = 0;
    while i < names.len()
        invariant
            i <= names.len(),
            forall|j: int| 0 <= j < i ==> !ends_with(#[trigger] names[j]@, ".gba"@),
        decreases names.len() - i,
    {
        if name_ends_with(names[i].as_str(), ".gba") {
            return Some(i);
        }
        i = i + 1;
    }
    None
}

} // verus!
