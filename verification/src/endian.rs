//! Little-endian halfword and word access to byte buffers, on top of the
//! `byteorder` crate.

use byteorder::ByteOrder;
use byteorder::LittleEndian;
use vstd::prelude::*;

verus! {

/// The halfword whose low byte is `b0` and whose high byte is `b1`.
pub open spec fn le16(b0: u8, b1: u8) -> int {
    b0 as int + 256 * (b1 as int)
}

/// The word made of the four bytes `b0` (lowest) to `b3` (highest).
pub open spec fn le32(b0: u8, b1: u8, b2: u8, b3: u8) -> int {
    b0 as int + 256 * (b1 as int) + 65536 * (b2 as int) + 16777216 * (b3 as int)
}

/// Byte `k` of `n`, byte 0 being the lowest.
pub open spec fn byte_of(n: int, k: int) -> u8 {
    if k == 0 {
        (n % 256) as u8
    } else if k == 1 {
        ((n / 256) % 256) as u8
    } else if k == 2 {
        ((n / 65536) % 256) as u8
    } else {
        ((n / 16777216) % 256) as u8
    }
}

/// Calls `LittleEndian::read_u16` of `byteorder` on the buffer from `ofs` on.
///
/// The crate documents that it reads an unsigned 16-bit integer from the first
/// two bytes of the slice, lowest byte first, and panics when the slice holds
/// fewer than two bytes.
#[verifier::external_body]
pub(crate) fn read_u16_le(buf: &Vec<u8>, ofs: usize) -> (r: u16)
    requires
        ofs + 2 <= buf.len(),
    ensures
        r as int == le16(buf[ofs as int], buf[ofs + 1]),
{
    LittleEndian::read_u16(&buf[ofs..])
}

/// Calls `LittleEndian::read_u32` of `byteorder` on the buffer from `ofs` on.
///
/// The crate documents that it reads an unsigned 32-bit integer from the first
/// four bytes of the slice, lowest byte first, and panics when the slice holds
/// fewer than four bytes.
#[verifier::external_body]
pub(crate) fn read_u32_le(buf: &Vec<u8>, ofs: usize) -> (r: u32)
    requires
        ofs + 4 <= buf.len(),
    ensures
        r as int == le32(buf[ofs as int], buf[ofs + 1], buf[ofs + 2], buf[ofs + 3]),
{
    LittleEndian::read_u32(&buf[ofs..])
}

/// Calls `LittleEndian::write_u16` of `byteorder` on the buffer from `ofs` on.
///
/// The crate documents that it writes the integer into the first two bytes of
/// the slice, lowest byte first, and panics when the slice holds fewer than
/// two bytes. The rest of the buffer is not touched.
#[verifier::external_body]
pub(crate) fn write_u16_le(buf: &mut Vec<u8>, ofs: usize, n: u16)
    requires
        ofs + 2 <= old(buf).len(),
    ensures
        final(buf)@ == old(buf)@.update(ofs as int, byte_of(n as int, 0)).update(
            ofs + 1,
            byte_of(n as int, 1),
        ),
{
    LittleEndian::write_u16(&mut buf[ofs..], n)
}

/// Calls `LittleEndian::write_u32` of `byteorder` on the buffer from `ofs` on.
///
/// The crate documents that it writes the integer into the first four bytes of
/// the slice, lowest byte first, and panics when the slice holds fewer than
/// four bytes. The rest of the buffer is not touched.
#[verifier::external_body]
pub(crate) fn write_u32_le(buf: &mut Vec<u8>, ofs: usize, n: u32)
    requires
        ofs + 4 <= old(buf).len(),
    ensures
        final(buf)@ == old(buf)@.update(ofs as int, byte_of(n as int, 0)).update(
            ofs + 1,
            byte_of(n as int, 1),
        ).update(ofs + 2, byte_of(n as int, 2)).update(ofs + 3, byte_of(n as int, 3)),
{
    LittleEndian::write_u32(&mut buf[ofs..], n)
}

/// The bytes of a halfword put it together again.
pub proof fn lemma_le16_of_bytes(n: u16)
    ensures
        le16(byte_of(n as int, 0), byte_of(n as int, 1)) == n,
{
}

/// The bytes of a word put it together again.
pub proof fn lemma_le32_of_bytes(n: u32)
    ensures
        le32(byte_of(n as int, 0), byte_of(n as int, 1), byte_of(n as int, 2), byte_of(n as int, 3))
            == n,
{
}

/// A word is its low halfword plus 65536 times its high halfword.
pub proof fn lemma_le32_is_two_le16(b0: u8, b1: u8, b2: u8, b3: u8)
    ensures
        le32(b0, b1, b2, b3) == le16(b0, b1) + 65536 * le16(b2, b3),
        0 <= le16(b0, b1) < 65536,
        0 <= le32(b0, b1, b2, b3) < 4294967296,
{
}

} // verus!
