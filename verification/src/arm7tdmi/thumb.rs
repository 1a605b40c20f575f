//! The THUMB instruction set.
//!
//! Most THUMB instructions are short forms of ARM instructions and do what
//! the ARM instruction does that they stand for. The others are the branches,
//! whose offsets count halfwords, and the instruction that loads an address.

use crate::arm7tdmi::aligned_pc;
use crate::arm7tdmi::alu::field;
use crate::arm7tdmi::alu::low_reg_field;
use crate::arm7tdmi::alu::reg_field;
use crate::arm7tdmi::alu::spec_field;
use crate::arm7tdmi::alu::spec_test_bit;
use crate::arm7tdmi::alu::test_bit;
use crate::arm7tdmi::arm::Outcome;
use crate::arm7tdmi::psr::condition_holds;
use crate::arm7tdmi::psr::spec_condition_holds;
use crate::arm7tdmi::refill_cost;
use crate::arm7tdmi::Core;
use crate::sysbus::SysBus;
use crate::sysbus::SysBusView;
use vstd::prelude::*;

verus! {

/// What a THUMB instruction is.
#[derive(Debug, PartialEq, Eq, Clone, Copy, Structural)]
pub enum ThumbKind {
    /// A short form of the ARM instruction given.
    Arm(u32),
    /// ADD Rd, PC or SP, #imm: loads an address.
    LoadAddress,
    /// A branch under a condition.
    ConditionalBranch,
    /// A branch.
    Branch,
    /// The first half of a long branch with link.
    LongBranchSetup,
    /// The second half of a long branch with link.
    LongBranchLink,
    /// No instruction.
    Undefined,
}

/// 1 shifted to bit `pos` where bit `bit` of `t` is set, else 0.
pub open spec fn spec_moved_bit(t: u32, bit: u32, pos: u32) -> u32 {
    if spec_test_bit(t, bit) {
        1u32 << pos
    } else {
        0
    }
}

/// 1 shifted to bit `pos` where bit `bit` of `t` is set, else 0.
pub fn moved_bit(t: u32, bit: u32, pos: u32) -> (r: u32)
    requires
        bit < 32,
        pos < 32,
    ensures
        r == spec_moved_bit(t, bit, pos),
{
    if test_bit(t, bit) {
        1u32 << pos
    } else {
        0
    }
}

/// The ARM instruction that an operation on two low registers (THUMB format
/// 4) stands for.
pub open spec fn spec_alu_form(op: u32, rs: u32, rd: u32) -> u32 {
    if op == 0 {
        0xe010_0000 | (rd << 16) | (rd << 12) | rs
    } else if op == 1 {
        0xe030_0000 | (rd << 16) | (rd << 12) | rs
    } else if op == 2 {
        0xe1b0_0010 | (rd << 12) | (rs << 8) | rd
    } else if op == 3 {
        0xe1b0_0030 | (rd << 12) | (rs << 8) | rd
    } else if op == 4 {
        0xe1b0_0050 | (rd << 12) | (rs << 8) | rd
    } else if op == 5 {
        0xe0b0_0000 | (rd << 16) | (rd << 12) | rs
    } else if op == 6 {
        0xe0d0_0000 | (rd << 16) | (rd << 12) | rs
    } else if op == 7 {
        0xe1b0_0070 | (rd << 12) | (rs << 8) | rd
    } else if op == 8 {
        0xe110_0000 | (rd << 16) | rs
    } else if op == 9 {
        0xe270_0000 | (rs << 16) | (rd << 12)
    } else if op == 10 {
        0xe150_0000 | (rd << 16) | rs
    } else if op == 11 {
        0xe170_0000 | (rd << 16) | rs
    } else if op == 12 {
        0xe190_0000 | (rd << 16) | (rd << 12) | rs
    } else if op == 13 {
        0xe010_0090 | (rd << 16) | (rd << 8) | rs
    } else if op == 14 {
        0xe1d0_0000 | (rd << 16) | (rd << 12) | rs
    } else {
        0xe1f0_0000 | (rd << 12) | rs
    }
}

/// The ARM instruction that an operation on two low registers stands for.
pub fn alu_form(op: u32, rs: u32, rd: u32) -> (r: u32)
    ensures
        r == spec_alu_form(op, rs, rd),
{
    if op == 0 {
        0xe010_0000 | (rd << 16) | (rd << 12) | rs
    } else if op == 1 {
        0xe030_0000 | (rd << 16) | (rd << 12) | rs
    } else if op == 2 {
        0xe1b0_0010 | (rd << 12) | (rs << 8) | rd
    } else if op == 3 {
        0xe1b0_0030 | (rd << 12) | (rs << 8) | rd
    } else if op == 4 {
        0xe1b0_0050 | (rd << 12) | (rs << 8) | rd
    } else if op == 5 {
        0xe0b0_0000 | (rd << 16) | (rd << 12) | rs
    } else if op == 6 {
        0xe0d0_0000 | (rd << 16) | (rd << 12) | rs
    } else if op == 7 {
        0xe1b0_0070 | (rd << 12) | (rs << 8) | rd
    } else if op == 8 {
        0xe110_0000 | (rd << 16) | rs
    } else if op == 9 {
        0xe270_0000 | (rs << 16) | (rd << 12)
    } else if op == 10 {
        0xe150_0000 | (rd << 16) | rs
    } else if op == 11 {
        0xe170_0000 | (rd << 16) | rs
    } else if op == 12 {
        0xe190_0000 | (rd << 16) | (rd << 12) | rs
    } else if op == 13 {
        0xe010_0090 | (rd << 16) | (rd << 8) | rs
    } else if op == 14 {
        0xe1d0_0000 | (rd << 16) | (rd << 12) | rs
    } else {
        0xe1f0_0000 | (rd << 12) | rs
    }
}

/// What the THUMB instruction in the low halfword of `t` is.
///
/// The formats are told by the top bits of the halfword. The low registers
/// of an instruction go to the register fields of the ARM instruction, its
/// immediates to the immediate field, scaled where the format counts
/// halfwords or words.
pub open spec fn spec_thumb_kind(t: u32) -> ThumbKind {
    let rd = spec_field(t, 0, 0x7);
    let rs = spec_field(t, 3, 0x7);
    let rn = spec_field(t, 6, 0x7);
    let rd8 = spec_field(t, 8, 0x7);
    let imm5 = spec_field(t, 6, 0x1f);
    let imm8 = spec_field(t, 0, 0xff);
    if t & 0xf800 == 0x1800 {
        ThumbKind::Arm(
            (if spec_test_bit(t, 9) {
                0xe050_0000u32
            } else {
                0xe090_0000u32
            }) | spec_moved_bit(t, 10, 25) | (rs << 16) | (rd << 12) | rn,
        )
    } else if t & 0xe000 == 0x0000 {
        ThumbKind::Arm(0xe1b0_0000 | (rd << 12) | (imm5 << 7) | (spec_field(t, 11, 0x3) << 5) | rs)
    } else if t & 0xe000 == 0x2000 {
        let op = spec_field(t, 11, 0x3);
        ThumbKind::Arm(
            if op == 0 {
                0xe3b0_0000 | (rd8 << 12) | imm8
            } else if op == 1 {
                0xe350_0000 | (rd8 << 16) | imm8
            } else if op == 2 {
                0xe290_0000 | (rd8 << 16) | (rd8 << 12) | imm8
            } else {
                0xe250_0000 | (rd8 << 16) | (rd8 << 12) | imm8
            },
        )
    } else if t & 0xfc00 == 0x4000 {
        ThumbKind::Arm(spec_alu_form(spec_field(t, 6, 0xf), rs, rd))
    } else if t & 0xfc00 == 0x4400 {
        let op = spec_field(t, 8, 0x3);
        let hd = rd | (spec_field(t, 7, 0x1) << 3);
        let hs = spec_field(t, 3, 0xf);
        ThumbKind::Arm(
            if op == 0 {
                0xe080_0000 | (hd << 16) | (hd << 12) | hs
            } else if op == 1 {
                0xe150_0000 | (hd << 16) | hs
            } else if op == 2 {
                0xe1a0_0000 | (hd << 12) | hs
            } else {
                0xe12f_ff10 | hs
            },
        )
    } else if t & 0xf800 == 0x4800 {
        ThumbKind::Arm(0xe59f_0000 | (rd8 << 12) | (imm8 << 2))
    } else if t & 0xf200 == 0x5000 {
        ThumbKind::Arm(
            0xe780_0000 | spec_moved_bit(t, 11, 20) | spec_moved_bit(t, 10, 22) | (rs << 16) | (rd
                << 12) | rn,
        )
    } else if t & 0xf200 == 0x5200 {
        ThumbKind::Arm(
            (if !spec_test_bit(t, 10) {
                if spec_test_bit(t, 11) {
                    0xe190_00b0u32
                } else {
                    0xe180_00b0u32
                }
            } else {
                if spec_test_bit(t, 11) {
                    0xe190_00f0u32
                } else {
                    0xe190_00d0u32
                }
            }) | (rs << 16) | (rd << 12) | rn,
        )
    } else if t & 0xe000 == 0x6000 {
        ThumbKind::Arm(
            0xe580_0000 | spec_moved_bit(t, 12, 22) | spec_moved_bit(t, 11, 20) | (rs << 16) | (rd
                << 12) | (if spec_test_bit(t, 12) {
                imm5
            } else {
                imm5 << 2
            }),
        )
    } else if t & 0xf000 == 0x8000 {
        ThumbKind::Arm(
            0xe1c0_00b0 | spec_moved_bit(t, 11, 20) | (rs << 16) | (rd << 12) | (spec_field(
                t,
                9,
                0x3,
            ) << 8) | (spec_field(t, 6, 0x7) << 1),
        )
    } else if t & 0xf000 == 0x9000 {
        ThumbKind::Arm(0xe58d_0000 | spec_moved_bit(t, 11, 20) | (rd8 << 12) | (imm8 << 2))
    } else if t & 0xf000 == 0xa000 {
        ThumbKind::LoadAddress
    } else if t & 0xff00 == 0xb000 {
        ThumbKind::Arm(
            (if spec_test_bit(t, 7) {
                0xe24d_df00u32
            } else {
                0xe28d_df00u32
            }) | spec_field(t, 0, 0x7f),
        )
    } else if t & 0xf600 == 0xb400 {
        ThumbKind::Arm(
            if spec_test_bit(t, 11) {
                0xe8bd_0000 | imm8 | spec_moved_bit(t, 8, 15)
            } else {
                0xe92d_0000 | imm8 | spec_moved_bit(t, 8, 14)
            },
        )
    } else if t & 0xf000 == 0xc000 {
        ThumbKind::Arm(
            (if spec_test_bit(t, 11) {
                0xe8b0_0000u32
            } else {
                0xe8a0_0000u32
            }) | (rd8 << 16) | imm8,
        )
    } else if t & 0xff00 == 0xdf00 {
        ThumbKind::Arm(0xef00_0000 | imm8)
    } else if t & 0xff00 == 0xde00 {
        ThumbKind::Undefined
    } else if t & 0xf000 == 0xd000 {
        ThumbKind::ConditionalBranch
    } else if t & 0xf800 == 0xe000 {
        ThumbKind::Branch
    } else if t & 0xf800 == 0xf000 {
        ThumbKind::LongBranchSetup
    } else if t & 0xf800 == 0xf800 {
        ThumbKind::LongBranchLink
    } else {
        ThumbKind::Undefined
    }
}

/// What the THUMB instruction in the low halfword of `t` is.
pub fn thumb_kind(t: u32) -> (r: ThumbKind)
    ensures
        r == spec_thumb_kind(t),
{
    let rd: u32 = field(t, 0, 0x7);
    let rs: u32 = field(t, 3, 0x7);
    let rn: u32 = field(t, 6, 0x7);
    let rd8: u32 = field(t, 8, 0x7);
    let imm5: u32 = field(t, 6, 0x1f);
    let imm8: u32 = field(t, 0, 0xff);
    if t & 0xf800 == 0x1800 {
        ThumbKind::Arm(
            (if test_bit(t, 9) {
                0xe050_0000u32
            } else {
                0xe090_0000u32
            }) | moved_bit(t, 10, 25) | (rs << 16) | (rd << 12) | rn,
        )
    } else if t & 0xe000 == 0x0000 {
        ThumbKind::Arm(0xe1b0_0000 | (rd << 12) | (imm5 << 7) | (field(t, 11, 0x3) << 5) | rs)
    } else if t & 0xe000 == 0x2000 {
        let op: u32 = field(t, 11, 0x3);
        ThumbKind::Arm(
            if op == 0 {
                0xe3b0_0000 | (rd8 << 12) | imm8
            } else if op == 1 {
                0xe350_0000 | (rd8 << 16) | imm8
            } else if op == 2 {
                0xe290_0000 | (rd8 << 16) | (rd8 << 12) | imm8
            } else {
                0xe250_0000 | (rd8 << 16) | (rd8 << 12) | imm8
            },
        )
    } else if t & 0xfc00 == 0x4000 {
        ThumbKind::Arm(alu_form(field(t, 6, 0xf), rs, rd))
    } else if t & 0xfc00 == 0x4400 {
        let op: u32 = field(t, 8, 0x3);
        let hd: u32 = rd | (field(t, 7, 0x1) << 3);
        let hs: u32 = field(t, 3, 0xf);
        ThumbKind::Arm(
            if op == 0 {
                0xe080_0000 | (hd << 16) | (hd << 12) | hs
            } else if op == 1 {
                0xe150_0000 | (hd << 16) | hs
            } else if op == 2 {
                0xe1a0_0000 | (hd << 12) | hs
            } else {
                0xe12f_ff10 | hs
            },
        )
    } else if t & 0xf800 == 0x4800 {
        ThumbKind::Arm(0xe59f_0000 | (rd8 << 12) | (imm8 << 2))
    } else if t & 0xf200 == 0x5000 {
        ThumbKind::Arm(
            0xe780_0000 | moved_bit(t, 11, 20) | moved_bit(t, 10, 22) | (rs << 16) | (rd << 12)
                | rn,
        )
    } else if t & 0xf200 == 0x5200 {
        ThumbKind::Arm(
            (if !test_bit(t, 10) {
                if test_bit(t, 11) {
                    0xe190_00b0u32
                } else {
                    0xe180_00b0u32
                }
            } else {
                if test_bit(t, 11) {
                    0xe190_00f0u32
                } else {
                    0xe190_00d0u32
                }
            }) | (rs << 16) | (rd << 12) | rn,
        )
    } else if t & 0xe000 == 0x6000 {
        ThumbKind::Arm(
            0xe580_0000 | moved_bit(t, 12, 22) | moved_bit(t, 11, 20) | (rs << 16) | (rd << 12) | (
            if test_bit(t, 12) {
                imm5
            } else {
                imm5 << 2
            }),
        )
    } else if t & 0xf000 == 0x8000 {
        ThumbKind::Arm(
            0xe1c0_00b0 | moved_bit(t, 11, 20) | (rs << 16) | (rd << 12) | (field(t, 9, 0x3) << 8)
                | (field(t, 6, 0x7) << 1),
        )
    } else if t & 0xf000 == 0x9000 {
        ThumbKind::Arm(0xe58d_0000 | moved_bit(t, 11, 20) | (rd8 << 12) | (imm8 << 2))
    } else if t & 0xf000 == 0xa000 {
        ThumbKind::LoadAddress
    } else if t & 0xff00 == 0xb000 {
        ThumbKind::Arm(
            (if test_bit(t, 7) {
                0xe24d_df00u32
            } else {
                0xe28d_df00u32
            }) | field(t, 0, 0x7f),
        )
    } else if t & 0xf600 == 0xb400 {
        ThumbKind::Arm(
            if test_bit(t, 11) {
                0xe8bd_0000 | imm8 | moved_bit(t, 8, 15)
            } else {
                0xe92d_0000 | imm8 | moved_bit(t, 8, 14)
            },
        )
    } else if t & 0xf000 == 0xc000 {
        ThumbKind::Arm(
            (if test_bit(t, 11) {
                0xe8b0_0000u32
            } else {
                0xe8a0_0000u32
            }) | (rd8 << 16) | imm8,
        )
    } else if t & 0xff00 == 0xdf00 {
        ThumbKind::Arm(0xef00_0000 | imm8)
    } else if t & 0xff00 == 0xde00 {
        ThumbKind::Undefined
    } else if t & 0xf000 == 0xd000 {
        ThumbKind::ConditionalBranch
    } else if t & 0xf800 == 0xe000 {
        ThumbKind::Branch
    } else if t & 0xf800 == 0xf000 {
        ThumbKind::LongBranchSetup
    } else if t & 0xf800 == 0xf800 {
        ThumbKind::LongBranchLink
    } else {
        ThumbKind::Undefined
    }
}

/// The signed number of `bits` bits in `offset`, times `scale`, as a word to
/// add: values from `sign` on are negative, and `span` is `scale` times two
/// to the power `bits`.
pub open spec fn spec_scaled_offset(offset: u32, sign: u32, scale: u32, span: u32) -> u32 {
    let words = (offset * scale) as u32;
    if offset >= sign {
        words.wrapping_sub(span)
    } else {
        words
    }
}

/// The signed number in `offset`, times `scale`, as a word to add.
pub fn scaled_offset(offset: u32, sign: u32, scale: u32, span: u32) -> (r: u32)
    requires
        offset < 0x1000,
        scale <= 0x1000,
    ensures
        r == spec_scaled_offset(offset, sign, scale, span),
{
    assert(offset * scale <= 0x1000 * 0x1000) by (nonlinear_arith)
        requires
            offset < 0x1000,
            scale <= 0x1000,
    ;
    let words: u32 = offset * scale;
    if offset >= sign {
        words.wrapping_sub(span)
    } else {
        words
    }
}

impl Core {
    /// What a jump to `target` does and costs.
    pub open spec fn spec_jump(self, bus: SysBusView, target: u32) -> Outcome {
        Outcome {
            cpu: self.jumped(target),
            bus,
            cost: refill_cost(bus.io, aligned_pc(target, self.cpsr.thumb), self.cpsr.thumb),
        }
    }

    /// What the instruction that loads an address does: register Rd (bits 8
    /// to 10) takes four times the low byte of the instruction plus the
    /// stack pointer (bit 11 set) or the program counter as it reads as an
    /// operand, without its two lowest bits.
    pub open spec fn spec_load_address(self, bus: SysBusView, t: u32) -> Outcome {
        let base = if spec_test_bit(t, 11) {
            self.gpr[13]
        } else {
            aligned_pc(self.spec_operand(15), false)
        };
        Outcome {
            cpu: self.with_reg(
                spec_field(t, 8, 0x7) as int,
                base.wrapping_add((spec_field(t, 0, 0xff) * 4) as u32),
            ),
            bus,
            cost: 0,
        }
    }

    /// Runs the instruction that loads an address.
    pub fn exec_load_address(&mut self, bus: &SysBus, t: u32) -> (cost: usize)
        ensures
            final(self).cycles == old(self).cycles,
            (Outcome { cpu: *final(self), bus: bus@, cost }) == old(self).spec_load_address(bus@, t),
            cost == 0,
    {
        let base: u32 = if test_bit(t, 11) {
            self.gpr[13]
        } else {
            let pc: u32 = self.operand(15);
            pc - pc % 4
        };
        self.set_reg(low_reg_field(t, 8), base.wrapping_add(field(t, 0, 0xff) * 4));
        0
    }

    /// What a THUMB branch does: the program counter moves by twice the
    /// signed offset of the instruction from where it reads as an operand.
    /// The offset has 8 bits in a branch under a condition, which does
    /// nothing where its condition (bits 8 to 11) fails, and 11 bits else.
    pub open spec fn spec_thumb_branch(self, bus: SysBusView, t: u32, conditional: bool) -> Outcome {
        if conditional {
            if spec_condition_holds(spec_field(t, 8, 0xf), self.cpsr) {
                self.spec_jump(
                    bus,
                    self.spec_operand(15).wrapping_add(
                        spec_scaled_offset(spec_field(t, 0, 0xff), 0x80, 2, 0x200),
                    ),
                )
            } else {
                Outcome { cpu: self, bus, cost: 0 }
            }
        } else {
            self.spec_jump(
                bus,
                self.spec_operand(15).wrapping_add(
                    spec_scaled_offset(spec_field(t, 0, 0x7ff), 0x400, 2, 0x1000),
                ),
            )
        }
    }

    /// Runs a THUMB branch.
    pub fn exec_thumb_branch(&mut self, bus: &SysBus, t: u32, conditional: bool) -> (cost: usize)
        ensures
            final(self).cycles == old(self).cycles,
            (Outcome { cpu: *final(self), bus: bus@, cost }) == old(self).spec_thumb_branch(
                bus@,
                t,
                conditional,
            ),
            cost <= 22,
    {
        if conditional {
            if condition_holds(field(t, 8, 0xf), self.cpsr) {
                let target: u32 = self.operand(15).wrapping_add(
                    scaled_offset(field(t, 0, 0xff), 0x80, 2, 0x200),
                );
                self.branch_to(bus, target)
            } else {
                0
            }
        } else {
            let target: u32 = self.operand(15).wrapping_add(
                scaled_offset(field(t, 0, 0x7ff), 0x400, 2, 0x1000),
            );
            self.branch_to(bus, target)
        }
    }

    /// What the halves of a long branch with link do. The first puts the
    /// program counter, as it reads as an operand, plus the signed offset
    /// times 4096 into the link register. The second jumps to the link
    /// register plus twice its offset and leaves, in the link register, the
    /// address of the next instruction with its lowest bit set.
    pub open spec fn spec_long_branch(self, bus: SysBusView, t: u32, second: bool) -> Outcome {
        if second {
            self.with_reg(14, aligned_pc(self.gpr[15], true).wrapping_add(1)).spec_jump(
                bus,
                self.gpr[14].wrapping_add((spec_field(t, 0, 0x7ff) * 2) as u32),
            )
        } else {
            Outcome {
                cpu: self.with_reg(
                    14,
                    self.spec_operand(15).wrapping_add(
                        spec_scaled_offset(spec_field(t, 0, 0x7ff), 0x400, 0x1000, 0x80_0000),
                    ),
                ),
                bus,
                cost: 0,
            }
        }
    }

    /// Runs one half of a long branch with link.
    pub fn exec_long_branch(&mut self, bus: &SysBus, t: u32, second: bool) -> (cost: usize)
        ensures
            final(self).cycles == old(self).cycles,
            (Outcome { cpu: *final(self), bus: bus@, cost }) == old(self).spec_long_branch(
                bus@,
                t,
                second,
            ),
            cost <= 22,
    {
        if second {
            let target: u32 = self.gpr[14].wrapping_add(field(t, 0, 0x7ff) * 2);
            let next: u32 = self.gpr[15];
            self.set_reg(14, (next - next % 2).wrapping_add(1));
            self.branch_to(bus, target)
        } else {
            let upper: u32 = self.operand(15).wrapping_add(
                scaled_offset(field(t, 0, 0x7ff), 0x400, 0x1000, 0x80_0000),
            );
            self.set_reg(14, upper);
            0
        }
    }

    /// What the THUMB instruction in the low halfword of `t` does: a short
    /// form does what its ARM instruction does.
    #[verifier::opaque]
    pub open spec fn spec_execute_thumb(self, bus: SysBusView, t: u32) -> Outcome {
        match spec_thumb_kind(t) {
            ThumbKind::Arm(insn) => self.spec_execute_arm(bus, insn),
            ThumbKind::LoadAddress => self.spec_load_address(bus, t),
            ThumbKind::ConditionalBranch => self.spec_thumb_branch(bus, t, true),
            ThumbKind::Branch => self.spec_thumb_branch(bus, t, false),
            ThumbKind::LongBranchSetup => self.spec_long_branch(bus, t, false),
            ThumbKind::LongBranchLink => self.spec_long_branch(bus, t, true),
            ThumbKind::Undefined => self.spec_undefined(bus),
        }
    }

    /// Runs the THUMB instruction in the low halfword of `t`. Returns the
    /// cycles that it takes beyond its fetch.
    pub fn execute_thumb(&mut self, bus: &mut SysBus, t: u32) -> (cost: usize)
        ensures
            final(self).cycles == old(self).cycles,
            crate::sysbus::same_frame(old(bus)@, final(bus)@),
            (Outcome { cpu: *final(self), bus: final(bus)@, cost }) == old(
                self,
            ).spec_execute_thumb(old(bus)@, t),
            cost <= 200,
    {
        proof {
            reveal(Core::spec_execute_thumb);
        }
        match thumb_kind(t) {
            ThumbKind::Arm(insn) => self.execute_arm(bus, insn),
            ThumbKind::LoadAddress => self.exec_load_address(bus, t),
            ThumbKind::ConditionalBranch => self.exec_thumb_branch(bus, t, true),
            ThumbKind::Branch => self.exec_thumb_branch(bus, t, false),
            ThumbKind::LongBranchSetup => self.exec_long_branch(bus, t, false),
            ThumbKind::LongBranchLink => self.exec_long_branch(bus, t, true),
            ThumbKind::Undefined => self.exec_undefined(bus),
        }
    }
}

} // verus!
