//! What every addressable device offers, and the little-endian view of a byte
//! block that folds any address into range.

use crate::endian::byte_of;
use crate::endian::le16;
use crate::endian::le32;
use vstd::prelude::*;

verus! {

/// A 32-bit address, on the system bus or local to a device.
pub type Addr = u32;

/// Byte, halfword and word access to a device.
///
/// A halfword access expects an even address and a word access one that is a
/// multiple of four; aligning is the caller's business. No access fails.
pub trait Bus {
    /// Reads the word at `addr`.
    fn read_32(&self, addr: Addr) -> u32;

    /// Reads the halfword at `addr`.
    fn read_16(&self, addr: Addr) -> u16;

    /// Reads the byte at `addr`.
    fn read_8(&self, addr: Addr) -> u8;

    /// Writes the word `value` at `addr`.
    fn write_32(&mut self, addr: Addr, value: u32);

    /// Writes the halfword `value` at `addr`.
    fn write_16(&mut self, addr: Addr, value: u16);

    /// Writes the byte `value` at `addr`.
    fn write_8(&mut self, addr: Addr, value: u8);
}

/// The byte of block `mem` that address `addr` folds to. An empty block reads
/// as 0.
pub open spec fn mem_read_8(mem: Seq<u8>, addr: int) -> u8 {
    if mem.len() == 0 {
        0
    } else {
        mem[addr % (mem.len() as int)]
    }
}

/// The halfword of block `mem` at `addr`, low byte first.
pub open spec fn mem_read_16(mem: Seq<u8>, addr: int) -> u16 {
    le16(mem_read_8(mem, addr), mem_read_8(mem, addr + 1)) as u16
}

/// The word of block `mem` at `addr`, lowest byte first.
pub open spec fn mem_read_32(mem: Seq<u8>, addr: int) -> u32 {
    le32(
        mem_read_8(mem, addr),
        mem_read_8(mem, addr + 1),
        mem_read_8(mem, addr + 2),
        mem_read_8(mem, addr + 3),
    ) as u32
}

/// Block `mem` after the byte `value` was written at `addr`. A write to an
/// empty block changes nothing.
pub open spec fn mem_write_8(mem: Seq<u8>, addr: int, value: u8) -> Seq<u8> {
    if mem.len() == 0 {
        mem
    } else {
        mem.update(addr % (mem.len() as int), value)
    }
}

/// Block `mem` after the halfword `value` was written at `addr`, low byte
/// first.
pub open spec fn mem_write_16(mem: Seq<u8>, addr: int, value: u16) -> Seq<u8> {
    mem_write_8(mem_write_8(mem, addr, byte_of(value as int, 0)), addr + 1, byte_of(value as int, 1))
}

/// Block `mem` after the word `value` was written at `addr`, lowest byte
/// first.
pub open spec fn mem_write_32(mem: Seq<u8>, addr: int, value: u32) -> Seq<u8> {
    mem_write_8(
        mem_write_8(
            mem_write_8(
                mem_write_8(mem, addr, byte_of(value as int, 0)),
                addr + 1,
                byte_of(value as int, 1),
            ),
            addr + 2,
            byte_of(value as int, 2),
        ),
        addr + 3,
        byte_of(value as int, 3),
    )
}

/// Where `addr + k` folds to, given where `addr` does.
pub proof fn lemma_fold_step(addr: int, k: int, len: int)
    requires
        0 <= addr,
        0 <= k,
        0 < len,
    ensures
        addr % len + k < len ==> (addr + k) % len == addr % len + k,
        addr % len + k >= len ==> (addr + k) % len == (k - (len - addr % len)) % len,
{
    let q = addr / len;
    let r = addr % len;
    vstd::arithmetic::div_mod::lemma_fundamental_div_mod(addr, len);
    if r + k < len {
        assert(addr + k == q * len + (r + k)) by (nonlinear_arith)
            requires
                addr == len * q + r,
        ;
        vstd::arithmetic::div_mod::lemma_fundamental_div_mod_converse(addr + k, len, q, r + k);
    } else {
        let rest = k - (len - r);
        let q2 = rest / len;
        let r2 = rest % len;
        vstd::arithmetic::div_mod::lemma_fundamental_div_mod(rest, len);
        assert(addr + k == (q + 1 + q2) * len + r2) by (nonlinear_arith)
            requires
                addr == len * q + r,
                rest == len * q2 + r2,
                rest == k - (len - r),
        ;
        vstd::arithmetic::div_mod::lemma_fundamental_div_mod_converse(
            addr + k,
            len,
            q + 1 + q2,
            r2,
        );
    }
}

/// A byte that was just written reads back, in any block that is not empty.
pub proof fn lemma_mem_write_8_reads_back(mem: Seq<u8>, addr: int, value: u8)
    requires
        mem.len() > 0,
        0 <= addr,
    ensures
        mem_read_8(mem_write_8(mem, addr, value), addr) == value,
        mem_write_8(mem, addr, value).len() == mem.len(),
{
}

/// A write of one byte leaves every byte that folds elsewhere as it was.
pub proof fn lemma_mem_write_8_keeps_others(mem: Seq<u8>, addr: int, value: u8, other: int)
    requires
        mem.len() > 0,
        0 <= addr,
        0 <= other,
        other % (mem.len() as int) != addr % (mem.len() as int),
    ensures
        mem_read_8(mem_write_8(mem, addr, value), other) == mem_read_8(mem, other),
{
}

/// A halfword that was just written reads back, in any block of two bytes or
/// more.
pub proof fn lemma_mem_write_16_reads_back(mem: Seq<u8>, addr: int, value: u16)
    requires
        mem.len() >= 2,
        0 <= addr,
    ensures
        mem_read_16(mem_write_16(mem, addr, value), addr) == value,
        mem_write_16(mem, addr, value).len() == mem.len(),
{
    let len = mem.len() as int;
    lemma_fold_step(addr, 1, len);
    assert((addr + 1) % len != addr % len) by {
        lemma_small_rest(1 - (len - addr % len), len);
    }
    crate::endian::lemma_le16_of_bytes(value);
}

/// A word that was just written reads back, in any block of four bytes or
/// more.
pub proof fn lemma_mem_write_32_reads_back(mem: Seq<u8>, addr: int, value: u32)
    requires
        mem.len() >= 4,
        0 <= addr,
    ensures
        mem_read_32(mem_write_32(mem, addr, value), addr) == value,
        mem_write_32(mem, addr, value).len() == mem.len(),
{
    let len = mem.len() as int;
    lemma_fold_step(addr, 1, len);
    lemma_fold_step(addr, 2, len);
    lemma_fold_step(addr, 3, len);
    let i0 = addr % len;
    let i1 = (addr + 1) % len;
    let i2 = (addr + 2) % len;
    let i3 = (addr + 3) % len;
    assert(i0 != i1 && i0 != i2 && i0 != i3 && i1 != i2 && i1 != i3 && i2 != i3) by {
        lemma_small_rest(1 - (len - i0), len);
        lemma_small_rest(2 - (len - i0), len);
        lemma_small_rest(3 - (len - i0), len);
    }
    crate::endian::lemma_le32_of_bytes(value);
}

/// A number below the modulus is its own remainder.
pub proof fn lemma_small_rest(x: int, len: int)
    requires
        0 < len,
    ensures
        0 <= x < len ==> x % len == x,
{
    if 0 <= x < len {
        vstd::arithmetic::div_mod::lemma_small_mod(x as nat, len as nat);
    }
}

/// Little-endian coherence: a word is its low halfword plus 65536 times the
/// halfword two bytes further on.
pub proof fn lemma_mem_read_32_is_two_halfwords(mem: Seq<u8>, addr: int)
    ensures
        mem_read_32(mem, addr) == mem_read_16(mem, addr) + 65536 * mem_read_16(mem, addr + 2),
{
    crate::endian::lemma_le32_is_two_le16(
        mem_read_8(mem, addr),
        mem_read_8(mem, addr + 1),
        mem_read_8(mem, addr + 2),
        mem_read_8(mem, addr + 3),
    );
    crate::endian::lemma_le32_is_two_le16(
        mem_read_8(mem, addr + 2),
        mem_read_8(mem, addr + 3),
        0,
        0,
    );
}

} // verus!
