//! The arithmetic and logic of the processor: the barrel shifter, the adder
//! and the sixteen data-processing operations.

use vstd::prelude::*;

verus! {

/// The four kinds of shift.
pub const SHIFT_LSL: u32 = 0;

/// Shift kind: logical shift right.
pub const SHIFT_LSR: u32 = 1;

/// Shift kind: arithmetic shift right.
pub const SHIFT_ASR: u32 = 2;

/// Shift kind: rotate right.
pub const SHIFT_ROR: u32 = 3;

/// A result of the shifter or of an operation: the value and the carry that
/// goes with it.
#[derive(Debug, Clone, Copy, PartialEq, Eq, Structural)]
pub struct Shifted {
    /// The value.
    pub value: u32,
    /// The carry out.
    pub carry: bool,
}

/// Bit `pos` of `v`, for a position below 32.
pub open spec fn spec_test_bit(v: u32, pos: u32) -> bool {
    (v >> pos) & 1 == 1
}

/// Bit `pos` of `v`.
#[verifier::when_used_as_spec(spec_test_bit)]
pub fn test_bit(v: u32, pos: u32) -> (r: bool)
    requires
        pos < 32,
    ensures
        r == spec_test_bit(v, pos),
{
    (v >> pos) & 1 == 1
}

/// The field of `width` bits of `v` whose lowest bit is bit `lo`, where
/// `mask` has the low `width` bits set.
pub open spec fn spec_field(v: u32, lo: u32, mask: u32) -> u32 {
    (v >> lo) & mask
}

/// What is known of the size of a field from its mask.
proof fn lemma_field_bounds(x: u32)
    by (bit_vector)
    ensures
        x & 0x1 <= 0x1,
        x & 0x3 <= 0x3,
        x & 0x7 <= 0x7,
        x & 0xf <= 0xf,
        x & 0x1f <= 0x1f,
        x & 0x7f <= 0x7f,
        x & 0xff <= 0xff,
        x & 0x7ff <= 0x7ff,
        x & 0xfff <= 0xfff,
        x & 0xffff <= 0xffff,
        x & 0xff_ffff <= 0xff_ffff,
{
}

/// The field of `v` of four bits from bit `lo` on: the number of a register.
pub fn reg_field(v: u32, lo: u32) -> (r: usize)
    requires
        lo < 32,
    ensures
        r == spec_field(v, lo, 0xf),
        r < 16,
{
    proof {
        lemma_field_bounds(v >> lo);
    }
    ((v >> lo) & 0xf) as usize
}

/// The field of `v` of three bits from bit `lo` on: the number of a low
/// register.
pub fn low_reg_field(v: u32, lo: u32) -> (r: usize)
    requires
        lo < 32,
    ensures
        r == spec_field(v, lo, 0x7),
        r < 8,
{
    proof {
        lemma_field_bounds(v >> lo);
    }
    ((v >> lo) & 0x7) as usize
}

/// The field of `v` from bit `lo` on that `mask` cuts out, `mask` being one
/// of 0x1, 0x3, 0x7, 0xf, 0x1f, 0x7f, 0xff, 0x7ff, 0xfff, 0xffff and 0xffffff.
pub fn field(v: u32, lo: u32, mask: u32) -> (r: u32)
    requires
        lo < 32,
        mask == 0x1 || mask == 0x3 || mask == 0x7 || mask == 0xf || mask == 0x1f || mask == 0x7f
            || mask == 0xff || mask == 0x7ff || mask == 0xfff || mask == 0xffff || mask == 0xff_ffff,
    ensures
        r == spec_field(v, lo, mask),
        r <= mask,
{
    proof {
        lemma_field_bounds(v >> lo);
    }
    (v >> lo) & mask
}

/// `v` turned right by `n` places, for `n` below 32.
pub open spec fn spec_rotate_right(v: u32, n: u32) -> u32 {
    if n == 0 {
        v
    } else {
        (v >> n) | (v << ((32 - n) as u32))
    }
}

/// `v` turned right by `n` places.
#[verifier::when_used_as_spec(spec_rotate_right)]
pub fn rotate_right(v: u32, n: u32) -> (r: u32)
    requires
        n < 32,
    ensures
        r == spec_rotate_right(v, n),
{
    if n == 0 {
        v
    } else {
        (v >> n) | (v << (32 - n))
    }
}

/// `v` shifted right by `n` places with its sign bit filled in, for `n` below
/// 32.
pub open spec fn spec_arith_shift_right(v: u32, n: u32) -> u32 {
    if v < 0x8000_0000 || n == 0 {
        v >> n
    } else {
        (v >> n) | !(0xffff_ffffu32 >> n)
    }
}

/// `v` shifted right by `n` places with its sign bit filled in.
#[verifier::when_used_as_spec(spec_arith_shift_right)]
pub fn arith_shift_right(v: u32, n: u32) -> (r: u32)
    requires
        n < 32,
    ensures
        r == spec_arith_shift_right(v, n),
{
    if v < 0x8000_0000 || n == 0 {
        v >> n
    } else {
        (v >> n) | !(0xffff_ffffu32 >> n)
    }
}

/// What the barrel shifter makes of `value` for a shift of kind `kind` by
/// `amount`, where the amount comes from a register and is below 256.
///
/// No shift at all leaves the value and the carry as they are. A shift by 1
/// to 31 places puts out the last bit that was shifted out. A logical shift
/// by 32 gives 0 and puts out the bit at the far end; one by more gives 0
/// and no carry. An arithmetic shift by 32 or more fills the word with the
/// sign bit, which is also the carry. A rotation goes by its amount modulo
/// 32, and a rotation by a multiple of 32 puts out bit 31.
pub open spec fn spec_shift_by_register(kind: u32, value: u32, amount: u32, carry: bool) -> Shifted {
    if amount == 0 {
        Shifted { value, carry }
    } else if kind == SHIFT_LSL {
        if amount < 32 {
            Shifted {
                value: value << amount,
                carry: spec_test_bit(value, (32 - amount) as u32),
            }
        } else if amount == 32 {
            Shifted { value: 0, carry: spec_test_bit(value, 0) }
        } else {
            Shifted { value: 0, carry: false }
        }
    } else if kind == SHIFT_LSR {
        if amount < 32 {
            Shifted {
                value: value >> amount,
                carry: spec_test_bit(value, (amount - 1) as u32),
            }
        } else if amount == 32 {
            Shifted { value: 0, carry: spec_test_bit(value, 31) }
        } else {
            Shifted { value: 0, carry: false }
        }
    } else if kind == SHIFT_ASR {
        if amount < 32 {
            Shifted {
                value: spec_arith_shift_right(value, amount),
                carry: spec_test_bit(value, (amount - 1) as u32),
            }
        } else if value >= 0x8000_0000 {
            Shifted { value: 0xffff_ffff, carry: true }
        } else {
            Shifted { value: 0, carry: false }
        }
    } else {
        let turn = amount % 32;
        if turn == 0 {
            Shifted { value, carry: spec_test_bit(value, 31) }
        } else {
            Shifted {
                value: spec_rotate_right(value, turn),
                carry: spec_test_bit(value, (turn - 1) as u32),
            }
        }
    }
}

/// What the barrel shifter makes of `value` for a shift of kind `kind` by an
/// amount from a register.
#[verifier::when_used_as_spec(spec_shift_by_register)]
pub fn shift_by_register(kind: u32, value: u32, amount: u32, carry: bool) -> (r: Shifted)
    requires
        amount < 256,
    ensures
        r == spec_shift_by_register(kind, value, amount, carry),
{
    if amount == 0 {
        Shifted { value, carry }
    } else if kind == SHIFT_LSL {
        if amount < 32 {
            Shifted { value: value << amount, carry: test_bit(value, 32 - amount) }
        } else if amount == 32 {
            Shifted { value: 0, carry: test_bit(value, 0) }
        } else {
            Shifted { value: 0, carry: false }
        }
    } else if kind == SHIFT_LSR {
        if amount < 32 {
            Shifted { value: value >> amount, carry: test_bit(value, amount - 1) }
        } else if amount == 32 {
            Shifted { value: 0, carry: test_bit(value, 31) }
        } else {
            Shifted { value: 0, carry: false }
        }
    } else if kind == SHIFT_ASR {
        if amount < 32 {
            Shifted { value: arith_shift_right(value, amount), carry: test_bit(value, amount - 1) }
        } else if value >= 0x8000_0000 {
            Shifted { value: 0xffff_ffff, carry: true }
        } else {
            Shifted { value: 0, carry: false }
        }
    } else {
        let turn: u32 = amount % 32;
        if turn == 0 {
            Shifted { value, carry: test_bit(value, 31) }
        } else {
            Shifted { value: rotate_right(value, turn), carry: test_bit(value, turn - 1) }
        }
    }
}

/// What the barrel shifter makes of `value` for a shift of kind `kind` by
/// the amount `amount` of an instruction, a number below 32.
///
/// The amount 0 stands for no shift in a shift to the left, for a shift by
/// 32 in the two shifts to the right, and in a rotation for a rotation by
/// one place through the carry.
pub open spec fn spec_shift_by_immediate(kind: u32, value: u32, amount: u32, carry: bool) -> Shifted {
    if amount != 0 {
        spec_shift_by_register(kind, value, amount, carry)
    } else if kind == SHIFT_LSL {
        Shifted { value, carry }
    } else if kind == SHIFT_LSR || kind == SHIFT_ASR {
        spec_shift_by_register(kind, value, 32, carry)
    } else {
        Shifted {
            value: (value >> 1) | (if carry {
                0x8000_0000u32
            } else {
                0u32
            }),
            carry: spec_test_bit(value, 0),
        }
    }
}

/// What the barrel shifter makes of `value` for a shift of kind `kind` by
/// the amount of an instruction.
#[verifier::when_used_as_spec(spec_shift_by_immediate)]
pub fn shift_by_immediate(kind: u32, value: u32, amount: u32, carry: bool) -> (r: Shifted)
    requires
        amount < 32,
    ensures
        r == spec_shift_by_immediate(kind, value, amount, carry),
{
    if amount != 0 {
        shift_by_register(kind, value, amount, carry)
    } else if kind == SHIFT_LSL {
        Shifted { value, carry }
    } else if kind == SHIFT_LSR || kind == SHIFT_ASR {
        shift_by_register(kind, value, 32, carry)
    } else {
        Shifted {
            value: (value >> 1) | (if carry {
                0x8000_0000u32
            } else {
                0u32
            }),
            carry: test_bit(value, 0),
        }
    }
}

/// The number that the word `v` stands for when its top bit is a sign.
pub open spec fn signed(v: u32) -> int {
    if v >= 0x8000_0000 {
        v - 0x1_0000_0000
    } else {
        v as int
    }
}

/// A sum of the adder: the value, the carry out and the signed overflow.
#[derive(Debug, Clone, Copy, PartialEq, Eq, Structural)]
pub struct Sum {
    /// The low 32 bits of the sum.
    pub value: u32,
    /// The sum did not fit in 32 bits.
    pub carry: bool,
    /// The sum of the signed numbers did not fit in 32 bits.
    pub overflow: bool,
}

/// The sum of `a`, `b` and the carry `c`.
pub open spec fn spec_add_with_carry(a: u32, b: u32, c: bool) -> Sum {
    let carry_in: int = if c {
        1
    } else {
        0
    };
    let sum = a + b + carry_in;
    let signed_sum = signed(a) + signed(b) + carry_in;
    Sum {
        value: (sum % 0x1_0000_0000) as u32,
        carry: sum >= 0x1_0000_0000,
        overflow: signed_sum < -0x8000_0000 || signed_sum >= 0x8000_0000,
    }
}

/// Adds `a`, `b` and the carry `c`.
#[verifier::when_used_as_spec(spec_add_with_carry)]
pub fn add_with_carry(a: u32, b: u32, c: bool) -> (r: Sum)
    ensures
        r == spec_add_with_carry(a, b, c),
{
    let carry_in: u64 = if c {
        1
    } else {
        0
    };
    let sum: u64 = a as u64 + b as u64 + carry_in;
    let sa: i64 = if a >= 0x8000_0000 {
        a as i64 - 0x1_0000_0000
    } else {
        a as i64
    };
    let sb: i64 = if b >= 0x8000_0000 {
        b as i64 - 0x1_0000_0000
    } else {
        b as i64
    };
    let signed_sum: i64 = sa + sb + carry_in as i64;
    Sum {
        value: (sum % 0x1_0000_0000) as u32,
        carry: sum >= 0x1_0000_0000,
        overflow: signed_sum < -0x8000_0000 || signed_sum >= 0x8000_0000,
    }
}

/// The difference of `a` and `b`, less one more where the carry `c` is
/// clear: the sum of `a`, the complement of `b` and the carry.
pub open spec fn spec_sub_with_carry(a: u32, b: u32, c: bool) -> Sum {
    spec_add_with_carry(a, (0xffff_ffff - b) as u32, c)
}

/// Takes `b` away from `a`, and one more where the carry `c` is clear.
#[verifier::when_used_as_spec(spec_sub_with_carry)]
pub fn sub_with_carry(a: u32, b: u32, c: bool) -> (r: Sum)
    ensures
        r == spec_sub_with_carry(a, b, c),
{
    add_with_carry(a, 0xffff_ffff - b, c)
}

/// The sixteen data-processing operations, by their number in the
/// instruction.
pub const OP_AND: u32 = 0;

/// Operation code: bitwise exclusive or.
pub const OP_EOR: u32 = 1;

/// Operation code: first operand minus second.
pub const OP_SUB: u32 = 2;

/// Operation code: second operand minus first.
pub const OP_RSB: u32 = 3;

/// Operation code: sum.
pub const OP_ADD: u32 = 4;

/// Operation code: sum plus carry.
pub const OP_ADC: u32 = 5;

/// Operation code: first operand minus second, minus one if carry is clear.
pub const OP_SBC: u32 = 6;

/// Operation code: second operand minus first, minus one if carry is clear.
pub const OP_RSC: u32 = 7;

/// Operation code: bitwise and, for the flags only.
pub const OP_TST: u32 = 8;

/// Operation code: bitwise exclusive or, for the flags only.
pub const OP_TEQ: u32 = 9;

/// Operation code: first operand minus second, for the flags only.
pub const OP_CMP: u32 = 10;

/// Operation code: sum, for the flags only.
pub const OP_CMN: u32 = 11;

/// Operation code: bitwise or.
pub const OP_ORR: u32 = 12;

/// Operation code: the second operand.
pub const OP_MOV: u32 = 13;

/// Operation code: first operand and not second.
pub const OP_BIC: u32 = 14;

/// Operation code: the second operand, inverted.
pub const OP_MVN: u32 = 15;

/// Whether operation `op` only sets the flags and writes no register: TST,
/// TEQ, CMP and CMN.
pub open spec fn spec_is_test(op: u32) -> bool {
    8 <= op <= 11
}

/// Whether operation `op` only sets the flags.
#[verifier::when_used_as_spec(spec_is_test)]
pub fn is_test(op: u32) -> (r: bool)
    ensures
        r == spec_is_test(op),
{
    8 <= op && op <= 11
}

/// The result of operation `op` on `a` and the shifted operand `b`, with the
/// carry flag `c` and the carry `shifter_carry` that the shifter put out.
///
/// The arithmetic operations take carry and overflow from the adder. The
/// logical ones take the carry from the shifter and keep the overflow flag
/// `v`.
pub open spec fn spec_alu(op: u32, a: u32, b: u32, c: bool, v: bool, shifter_carry: bool) -> Sum {
    if op == OP_AND || op == OP_TST {
        Sum { value: a & b, carry: shifter_carry, overflow: v }
    } else if op == OP_EOR || op == OP_TEQ {
        Sum { value: a ^ b, carry: shifter_carry, overflow: v }
    } else if op == OP_SUB || op == OP_CMP {
        spec_sub_with_carry(a, b, true)
    } else if op == OP_RSB {
        spec_sub_with_carry(b, a, true)
    } else if op == OP_ADD || op == OP_CMN {
        spec_add_with_carry(a, b, false)
    } else if op == OP_ADC {
        spec_add_with_carry(a, b, c)
    } else if op == OP_SBC {
        spec_sub_with_carry(a, b, c)
    } else if op == OP_RSC {
        spec_sub_with_carry(b, a, c)
    } else if op == OP_ORR {
        Sum { value: a | b, carry: shifter_carry, overflow: v }
    } else if op == OP_MOV {
        Sum { value: b, carry: shifter_carry, overflow: v }
    } else if op == OP_BIC {
        Sum { value: a & !b, carry: shifter_carry, overflow: v }
    } else {
        Sum { value: !b, carry: shifter_carry, overflow: v }
    }
}

/// Carries out operation `op`.
#[verifier::when_used_as_spec(spec_alu)]
pub fn alu(op: u32, a: u32, b: u32, c: bool, v: bool, shifter_carry: bool) -> (r: Sum)
    ensures
        r == spec_alu(op, a, b, c, v, shifter_carry),
{
    if op == OP_AND || op == OP_TST {
        Sum { value: a & b, carry: shifter_carry, overflow: v }
    } else if op == OP_EOR || op == OP_TEQ {
        Sum { value: a ^ b, carry: shifter_carry, overflow: v }
    } else if op == OP_SUB || op == OP_CMP {
        sub_with_carry(a, b, true)
    } else if op == OP_RSB {
        sub_with_carry(b, a, true)
    } else if op == OP_ADD || op == OP_CMN {
        add_with_carry(a, b, false)
    } else if op == OP_ADC {
        add_with_carry(a, b, c)
    } else if op == OP_SBC {
        sub_with_carry(a, b, c)
    } else if op == OP_RSC {
        sub_with_carry(b, a, c)
    } else if op == OP_ORR {
        Sum { value: a | b, carry: shifter_carry, overflow: v }
    } else if op == OP_MOV {
        Sum { value: b, carry: shifter_carry, overflow: v }
    } else if op == OP_BIC {
        Sum { value: a & !b, carry: shifter_carry, overflow: v }
    } else {
        Sum { value: !b, carry: shifter_carry, overflow: v }
    }
}

/// The internal cycles of a multiplication by `rs`: one for each byte of the
/// multiplier that is needed to tell it from its sign, the sign being left
/// out where `signed` is clear.
pub open spec fn spec_multiplier_cycles(rs: u32, signed: bool) -> usize {
    if rs < 0x100 || (signed && rs >= 0xffff_ff00) {
        1
    } else if rs < 0x1_0000 || (signed && rs >= 0xffff_0000) {
        2
    } else if rs < 0x100_0000 || (signed && rs >= 0xff00_0000) {
        3
    } else {
        4
    }
}

/// The internal cycles of a multiplication by `rs`.
#[verifier::when_used_as_spec(spec_multiplier_cycles)]
pub fn multiplier_cycles(rs: u32, signed: bool) -> (r: usize)
    ensures
        r == spec_multiplier_cycles(rs, signed),
        1 <= r <= 4,
{
    if rs < 0x100 || (signed && rs >= 0xffff_ff00) {
        1
    } else if rs < 0x1_0000 || (signed && rs >= 0xffff_0000) {
        2
    } else if rs < 0x100_0000 || (signed && rs >= 0xff00_0000) {
        3
    } else {
        4
    }
}

/// The 64-bit product of `a` and `b` plus `acc`, cut to 64 bits; the factors
/// are taken as signed numbers where `signed` is set.
pub open spec fn spec_multiply_long(a: u32, b: u32, acc: u64, signed: bool) -> u64 {
    if signed {
        ((self::signed(a) * self::signed(b) + acc + 0x1_0000_0000_0000_0000)
            % 0x1_0000_0000_0000_0000) as u64
    } else {
        ((a * b + acc) % 0x1_0000_0000_0000_0000) as u64
    }
}

/// Multiplies `a` by `b` to 64 bits and adds `acc`.
#[verifier::when_used_as_spec(spec_multiply_long)]
pub fn multiply_long(a: u32, b: u32, acc: u64, signed: bool) -> (r: u64)
    ensures
        r == spec_multiply_long(a, b, acc, signed),
{
    if signed {
        let sa: i128 = if a >= 0x8000_0000 {
            a as i128 - 0x1_0000_0000
        } else {
            a as i128
        };
        let sb: i128 = if b >= 0x8000_0000 {
            b as i128 - 0x1_0000_0000
        } else {
            b as i128
        };
        assert(-0x4000_0000_0000_0000 <= sa * sb <= 0x4000_0000_0000_0000) by (nonlinear_arith)
            requires
                -0x8000_0000 <= sa < 0x8000_0000,
                -0x8000_0000 <= sb < 0x8000_0000,
        ;
        let total: i128 = sa * sb + acc as i128 + 0x1_0000_0000_0000_0000;
        (total % 0x1_0000_0000_0000_0000) as u64
    } else {
        let x: u128 = a as u128;
        let y: u128 = b as u128;
        assert(x * y <= 0xffff_fffe_0000_0001) by (nonlinear_arith)
            requires
                x <= 0xffff_ffff,
                y <= 0xffff_ffff,
        ;
        let total: u128 = x * y + acc as u128;
        (total % 0x1_0000_0000_0000_0000) as u64
    }
}

} // verus!
