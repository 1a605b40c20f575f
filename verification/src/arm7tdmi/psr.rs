//! The program status register: the four condition flags, the two interrupt
//! masks, the instruction set in use and the processor mode.

use vstd::prelude::*;

verus! {

/// Mode bits of user mode.
pub const MODE_USER: u32 = 0x10;

/// Mode bits of fast-interrupt mode.
pub const MODE_FIQ: u32 = 0x11;

/// Mode bits of interrupt mode.
pub const MODE_IRQ: u32 = 0x12;

/// Mode bits of supervisor mode.
pub const MODE_SUPERVISOR: u32 = 0x13;

/// Mode bits of abort mode.
pub const MODE_ABORT: u32 = 0x17;

/// Mode bits of undefined mode.
pub const MODE_UNDEFINED: u32 = 0x1b;

/// Mode bits of system mode.
pub const MODE_SYSTEM: u32 = 0x1f;

/// A program status register, field by field.
#[derive(Debug, Clone, Copy, PartialEq, Eq, Structural)]
pub struct Psr {
    /// Bit 31: the result was negative.
    pub n: bool,
    /// Bit 30: the result was zero.
    pub z: bool,
    /// Bit 29: carry, or no borrow.
    pub c: bool,
    /// Bit 28: signed overflow.
    pub v: bool,
    /// Bit 7: interrupts are masked.
    pub irq_disabled: bool,
    /// Bit 6: fast interrupts are masked.
    pub fiq_disabled: bool,
    /// Bit 5: the processor runs THUMB code.
    pub thumb: bool,
    /// Bits 0 to 4: the processor mode.
    pub mode: u32,
}

/// 1 for `true`, 0 for `false`.
pub open spec fn bit_int(b: bool) -> int {
    if b {
        1
    } else {
        0
    }
}

/// Bit `pos` of `raw`, `weight` being two to the power `pos`.
pub open spec fn has_bit(raw: u32, weight: int) -> bool {
    (raw as int / weight) % 2 == 1
}

/// Which set of banked registers a mode uses: 0 for user and system mode,
/// then one each for fast interrupt, interrupt, supervisor, abort and
/// undefined mode. Mode bits that name no mode use the user set.
pub open spec fn spec_bank_of(mode: u32) -> usize {
    if mode == MODE_FIQ {
        1
    } else if mode == MODE_IRQ {
        2
    } else if mode == MODE_SUPERVISOR {
        3
    } else if mode == MODE_ABORT {
        4
    } else if mode == MODE_UNDEFINED {
        5
    } else {
        0
    }
}

/// Which set of banked registers a mode uses.
#[verifier::when_used_as_spec(spec_bank_of)]
pub fn bank_of(mode: u32) -> (r: usize)
    ensures
        r == spec_bank_of(mode),
        r < 6,
{
    if mode == MODE_FIQ {
        1
    } else if mode == MODE_IRQ {
        2
    } else if mode == MODE_SUPERVISOR {
        3
    } else if mode == MODE_ABORT {
        4
    } else if mode == MODE_UNDEFINED {
        5
    } else {
        0
    }
}

impl Psr {
    /// The register as a word: the flags in bits 28 to 31, the masks and the
    /// THUMB bit in bits 5 to 7, the mode in bits 0 to 4.
    pub open spec fn spec_bits(self) -> u32 {
        (2147483648 * bit_int(self.n) + 1073741824 * bit_int(self.z) + 536870912 * bit_int(
            self.c,
        ) + 268435456 * bit_int(self.v) + 128 * bit_int(self.irq_disabled) + 64 * bit_int(
            self.fiq_disabled,
        ) + 32 * bit_int(self.thumb) + self.mode % 32) as u32
    }

    /// The register as a word.
    #[verifier::when_used_as_spec(spec_bits)]
    pub fn bits(self) -> (r: u32)
        ensures
            r == self.spec_bits(),
    {
        let mut r: u32 = self.mode % 32;
        if self.n {
            r = r + 2147483648;
        }
        if self.z {
            r = r + 1073741824;
        }
        if self.c {
            r = r + 536870912;
        }
        if self.v {
            r = r + 268435456;
        }
        if self.irq_disabled {
            r = r + 128;
        }
        if self.fiq_disabled {
            r = r + 64;
        }
        if self.thumb {
            r = r + 32;
        }
        r
    }

    /// The register that the word `raw` stands for. The bits that hold
    /// nothing are dropped.
    pub open spec fn spec_from_bits(raw: u32) -> Psr {
        Psr {
            n: has_bit(raw, 2147483648),
            z: has_bit(raw, 1073741824),
            c: has_bit(raw, 536870912),
            v: has_bit(raw, 268435456),
            irq_disabled: has_bit(raw, 128),
            fiq_disabled: has_bit(raw, 64),
            thumb: has_bit(raw, 32),
            mode: raw % 32,
        }
    }

    /// The register that the word `raw` stands for.
    #[verifier::when_used_as_spec(spec_from_bits)]
    pub fn from_bits(raw: u32) -> (r: Psr)
        ensures
            r == Psr::spec_from_bits(raw),
            r.mode < 32,
    {
        Psr {
            n: (raw / 2147483648) % 2 == 1,
            z: (raw / 1073741824) % 2 == 1,
            c: (raw / 536870912) % 2 == 1,
            v: (raw / 268435456) % 2 == 1,
            irq_disabled: (raw / 128) % 2 == 1,
            fiq_disabled: (raw / 64) % 2 == 1,
            thumb: (raw / 32) % 2 == 1,
            mode: raw % 32,
        }
    }

    /// Whether the mode is one that may change the control bits: every mode
    /// but user mode.
    pub open spec fn spec_privileged(self) -> bool {
        self.mode != MODE_USER
    }

    /// Whether the mode is one that may change the control bits.
    #[verifier::when_used_as_spec(spec_privileged)]
    pub fn privileged(self) -> (r: bool)
        ensures
            r == self.spec_privileged(),
    {
        self.mode != MODE_USER
    }

    /// Whether the mode has a saved status register of its own: every mode
    /// with a register bank of its own.
    pub open spec fn spec_has_spsr(self) -> bool {
        spec_bank_of(self.mode) != 0
    }

    /// Whether the mode has a saved status register of its own.
    #[verifier::when_used_as_spec(spec_has_spsr)]
    pub fn has_spsr(self) -> (r: bool)
        ensures
            r == self.spec_has_spsr(),
    {
        bank_of(self.mode) != 0
    }

    /// The register with the flags N and Z set from `result` and C and V as
    /// given.
    pub open spec fn spec_with_flags(self, result: u32, c: bool, v: bool) -> Psr {
        Psr { n: result >= 0x8000_0000, z: result == 0, c, v, ..self }
    }

    /// The register with the flags N and Z set from `result` and C and V as
    /// given.
    #[verifier::when_used_as_spec(spec_with_flags)]
    pub fn with_flags(self, result: u32, c: bool, v: bool) -> (r: Psr)
        ensures
            r == self.spec_with_flags(result, c, v),
    {
        Psr { n: result >= 0x8000_0000, z: result == 0, c, v, ..self }
    }
}

/// Whether an instruction with condition field `cond` runs under the flags of
/// `psr`. The field 15 never runs.
pub open spec fn spec_condition_holds(cond: u32, psr: Psr) -> bool {
    if cond == 0 {
        psr.z
    } else if cond == 1 {
        !psr.z
    } else if cond == 2 {
        psr.c
    } else if cond == 3 {
        !psr.c
    } else if cond == 4 {
        psr.n
    } else if cond == 5 {
        !psr.n
    } else if cond == 6 {
        psr.v
    } else if cond == 7 {
        !psr.v
    } else if cond == 8 {
        psr.c && !psr.z
    } else if cond == 9 {
        !psr.c || psr.z
    } else if cond == 10 {
        psr.n == psr.v
    } else if cond == 11 {
        psr.n != psr.v
    } else if cond == 12 {
        !psr.z && psr.n == psr.v
    } else if cond == 13 {
        psr.z || psr.n != psr.v
    } else if cond == 14 {
        true
    } else {
        false
    }
}

/// Whether an instruction with condition field `cond` runs under the flags of
/// `psr`.
#[verifier::when_used_as_spec(spec_condition_holds)]
pub fn condition_holds(cond: u32, psr: Psr) -> (r: bool)
    ensures
        r == spec_condition_holds(cond, psr),
{
    if cond == 0 {
        psr.z
    } else if cond == 1 {
        !psr.z
    } else if cond == 2 {
        psr.c
    } else if cond == 3 {
        !psr.c
    } else if cond == 4 {
        psr.n
    } else if cond == 5 {
        !psr.n
    } else if cond == 6 {
        psr.v
    } else if cond == 7 {
        !psr.v
    } else if cond == 8 {
        psr.c && !psr.z
    } else if cond == 9 {
        !psr.c || psr.z
    } else if cond == 10 {
        psr.n == psr.v
    } else if cond == 11 {
        psr.n != psr.v
    } else if cond == 12 {
        !psr.z && psr.n == psr.v
    } else if cond == 13 {
        psr.z || psr.n != psr.v
    } else if cond == 14 {
        true
    } else {
        false
    }
}

/// A status register whose mode fits its five bits is read back from its
/// word as it was.
pub proof fn lemma_psr_word_reads_back(p: Psr)
    requires
        p.mode < 32,
    ensures
        Psr::spec_from_bits(p.spec_bits()) == p,
{
    let low: int = 128 * bit_int(p.irq_disabled) + 64 * bit_int(p.fiq_disabled) + 32 * bit_int(
        p.thumb,
    ) + p.mode;
    let high: int = 8 * bit_int(p.n) + 4 * bit_int(p.z) + 2 * bit_int(p.c) + bit_int(p.v);
    let raw: int = 268435456 * high + low;
    assert(0 <= low < 256);
    assert(0 <= high < 16);
    assert(p.spec_bits() == raw);
    assert(raw % 32 == p.mode);
    assert(raw / 32 == 8388608 * high + 4 * bit_int(p.irq_disabled) + 2 * bit_int(p.fiq_disabled)
        + bit_int(p.thumb));
    assert(raw / 64 == 4194304 * high + 2 * bit_int(p.irq_disabled) + bit_int(p.fiq_disabled));
    assert(raw / 128 == 2097152 * high + bit_int(p.irq_disabled));
    assert(raw / 268435456 == high);
    assert(raw / 536870912 == 4 * bit_int(p.n) + 2 * bit_int(p.z) + bit_int(p.c));
    assert(raw / 1073741824 == 2 * bit_int(p.n) + bit_int(p.z));
    assert(raw / 2147483648 == bit_int(p.n));
}

} // verus!
