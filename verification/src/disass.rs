//! Walking through a block of bytes one instruction at a time.

use crate::arm7tdmi::exec::arm_format;
use crate::arm7tdmi::exec::spec_arm_format;
use crate::arm7tdmi::exec::ArmFormat;
use crate::arm7tdmi::thumb::spec_thumb_kind;
use crate::arm7tdmi::thumb::thumb_kind;
use crate::arm7tdmi::thumb::ThumbKind;
use crate::bus::Addr;
use crate::endian::le16;
use crate::endian::le32;
use std::marker::PhantomData;
use vstd::prelude::*;

verus! {

/// An instruction set that a block of bytes can be read as.
pub trait InstructionDecoder: Sized {
    /// Bytes of one instruction.
    spec fn spec_word_size() -> usize;

    /// The instruction that starts the bytes `bytes`, which lie at `addr`.
    spec fn spec_decode(bytes: Seq<u8>, addr: Addr) -> Self;

    /// The instruction as a number.
    spec fn spec_raw(&self) -> u32;

    /// Bytes of one instruction.
    fn word_size() -> (r: usize)
        ensures
            r == Self::spec_word_size(),
            1 <= r <= 4,
    ;

    /// Reads the instruction that starts the bytes `bytes`, which lie at
    /// `addr`.
    fn decode_from_bytes(bytes: &[u8], addr: Addr) -> (r: Self)
        requires
            bytes@.len() >= Self::spec_word_size(),
        ensures
            r == Self::spec_decode(bytes@, addr),
    ;

    /// The instruction as a number.
    fn get_raw(&self) -> (r: u32)
        ensures
            r == self.spec_raw(),
    ;
}

/// An ARM instruction at its address.
#[derive(Debug, PartialEq, Eq, Clone, Copy, Structural)]
pub struct ArmInstruction {
    /// The address of the instruction.
    pub pc: Addr,
    /// The instruction.
    pub raw: u32,
}

impl ArmInstruction {
    /// The family of the instruction.
    pub fn format(&self) -> (r: ArmFormat)
        ensures
            r == spec_arm_format(self.raw),
    {
        arm_format(self.raw)
    }
}

impl InstructionDecoder for ArmInstruction {
    open spec fn spec_word_size() -> usize {
        4
    }

    open spec fn spec_decode(bytes: Seq<u8>, addr: Addr) -> Self {
        ArmInstruction { pc: addr, raw: le32(bytes[0], bytes[1], bytes[2], bytes[3]) as u32 }
    }

    open spec fn spec_raw(&self) -> u32 {
        self.raw
    }

    fn word_size() -> (r: usize) {
        4
    }

    fn decode_from_bytes(bytes: &[u8], addr: Addr) -> (r: Self) {
        let b0: u32 = bytes[0] as u32;
        let b1: u32 = bytes[1] as u32;
        let b2: u32 = bytes[2] as u32;
        let b3: u32 = bytes[3] as u32;
        ArmInstruction { pc: addr, raw: b0 + 256 * b1 + 65536 * b2 + 16777216 * b3 }
    }

    fn get_raw(&self) -> (r: u32) {
        self.raw
    }
}

/// A THUMB instruction at its address.
#[derive(Debug, PartialEq, Eq, Clone, Copy, Structural)]
pub struct ThumbInstruction {
    /// The address of the instruction.
    pub pc: Addr,
    /// The instruction.
    pub raw: u16,
}

impl ThumbInstruction {
    /// What the instruction is.
    pub fn kind(&self) -> (r: ThumbKind)
        ensures
            r == spec_thumb_kind(self.raw as u32),
    {
        thumb_kind(self.raw as u32)
    }
}

impl InstructionDecoder for ThumbInstruction {
    open spec fn spec_word_size() -> usize {
        2
    }

    open spec fn spec_decode(bytes: Seq<u8>, addr: Addr) -> Self {
        ThumbInstruction { pc: addr, raw: le16(bytes[0], bytes[1]) as u16 }
    }

    open spec fn spec_raw(&self) -> u32 {
        self.raw as u32
    }

    fn word_size() -> (r: usize) {
        2
    }

    fn decode_from_bytes(bytes: &[u8], addr: Addr) -> (r: Self) {
        let b0: u16 = bytes[0] as u16;
        let b1: u16 = bytes[1] as u16;
        ThumbInstruction { pc: addr, raw: b0 + 256 * b1 }
    }

    fn get_raw(&self) -> (r: u32) {
        self.raw as u32
    }
}

/// The line that shows the number `raw` of the instruction at `addr`: the
/// address as a hexadecimal number in a column of eight, a colon and a tab,
/// and the number as a hexadecimal number of eight digits.
pub uninterp spec fn line_text(addr: u32, raw: u32) -> Seq<char>;

/// Formats one line of a listing with `format!` of the standard library: the
/// address with `{:8x}`, then a colon and a tab, then the instruction with
/// `{:08x}`.
#[verifier::external_body]
fn format_line(addr: u32, raw: u32) -> (r: String)
    ensures
        r@ == line_text(addr, raw),
{
    format!("{:8x}:\t{:08x}", addr, raw)
}

/// A walk through the bytes `bytes`, which lie at the address `base`, one
/// instruction of the set `D` at a time.
pub struct Disassembler<'a, D: InstructionDecoder> {
    /// The address of the first byte.
    pub base: Addr,
    /// How many bytes the walk has passed.
    pub pos: usize,
    /// The bytes that the walk goes through.
    pub bytes: &'a [u8],
    /// Bytes of one instruction.
    pub word_size: usize,
    /// The instruction set.
    pub instruction_decoder: PhantomData<D>,
}

impl<'a, D: InstructionDecoder> Disassembler<'a, D> {
    /// A walk that stands at the first byte.
    pub fn new(base: Addr, bytes: &'a [u8]) -> (r: Disassembler<'a, D>)
        ensures
            r.base == base,
            r.pos == 0,
            r.bytes@ == bytes@,
            r.word_size == D::spec_word_size(),
    {
        Disassembler {
            base: base,
            pos: 0,
            bytes,
            word_size: D::word_size(),
            instruction_decoder: PhantomData,
        }
    }

    /// Reads the instruction at which the walk stands and goes on to the
    /// next. Returns the address of the instruction with the instruction, or
    /// nothing where fewer bytes are left than an instruction has.
    pub fn next_instruction(&mut self) -> (r: Option<(Addr, D)>)
        ensures
            final(self).base == old(self).base,
            final(self).bytes@ == old(self).bytes@,
            final(self).word_size == old(self).word_size,
            old(self).pos + D::spec_word_size() <= old(self).bytes@.len() ==> {
                &&& final(self).pos == old(self).pos + D::spec_word_size()
                &&& r == Some(
                    (
                        old(self).base.wrapping_add(old(self).pos as u32),
                        D::spec_decode(
                            old(self).bytes@.subrange(
                                old(self).pos as int,
                                old(self).bytes@.len() as int,
                            ),
                            old(self).base.wrapping_add(old(self).pos as u32),
                        ),
                    ),
                )
            },
            old(self).pos + D::spec_word_size() > old(self).bytes@.len() ==> {
                &&& final(self).pos == old(self).pos
                &&& r.is_none()
            },
    {
        let len: usize = self.bytes.len();
        let size: usize = D::word_size();
        if self.pos > len || len - self.pos < size {
            return None;
        }
        let addr: Addr = self.base.wrapping_add(self.pos as u32);
        let rest: &[u8] = vstd::slice::slice_subrange(self.bytes, self.pos, len);
        let decoded: D = D::decode_from_bytes(rest, addr);
        self.pos = self.pos + size;
        Some((addr, decoded))
    }

    /// Reads the instruction at which the walk stands, goes on to the next
    /// and returns the place that the walk has reached with the line that
    /// shows the instruction; nothing where fewer bytes are left than an
    /// instruction has.
    pub fn next_line(&mut self) -> (r: Option<(Addr, String)>)
        ensures
            final(self).base == old(self).base,
            final(self).bytes@ == old(self).bytes@,
            final(self).word_size == old(self).word_size,
            old(self).pos + D::spec_word_size() <= old(self).bytes@.len() ==> {
                &&& final(self).pos == old(self).pos + D::spec_word_size()
                &&& r matches Some((place, line))
                &&& place == #[verifier::truncate] (final(self).pos as u32)
                &&& line@ == line_text(
                    old(self).base.wrapping_add(old(self).pos as u32),
                    D::spec_decode(
                        old(self).bytes@.subrange(
                            old(self).pos as int,
                            old(self).bytes@.len() as int,
                        ),
                        old(self).base.wrapping_add(old(self).pos as u32),
                    ).spec_raw(),
                )
            },
            old(self).pos + D::spec_word_size() > old(self).bytes@.len() ==> {
                &&& final(self).pos == old(self).pos
                &&& r.is_none()
            },
    {
        match self.next_instruction() {
            Some((addr, decoded)) => {
                let line: String = format_line(addr, decoded.get_raw());
                Some((#[verifier::truncate] (self.pos as u32), line))
            },
            None => None,
        }
    }
}

} // verus!
