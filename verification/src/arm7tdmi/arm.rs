//! The ARM instruction set: what each instruction does to the processor and
//! to what is behind the bus, and how many cycles it takes beyond its fetch.

use crate::arm7tdmi::aligned_pc;
use crate::arm7tdmi::alu::alu;
use crate::arm7tdmi::alu::multiplier_cycles;
use crate::arm7tdmi::alu::multiply_long;
use crate::arm7tdmi::alu::spec_multiplier_cycles;
use crate::arm7tdmi::alu::spec_multiply_long;
use crate::arm7tdmi::cost_of;
use crate::arm7tdmi::psr::spec_bank_of;
use crate::arm7tdmi::psr::bank_of;
use crate::arm7tdmi::BANK_FIQ;
use crate::bus::Bus;
use crate::sysbus::MemoryAccess;
use crate::sysbus::MemoryAccessType;
use crate::sysbus::MemoryAccessWidth;
use vstd::array::spec_array_update;
use crate::arm7tdmi::alu::field;
use crate::arm7tdmi::alu::is_test;
use crate::arm7tdmi::alu::reg_field;
use crate::arm7tdmi::alu::rotate_right;
use crate::arm7tdmi::alu::shift_by_immediate;
use crate::arm7tdmi::alu::shift_by_register;
use crate::arm7tdmi::alu::spec_alu;
use crate::arm7tdmi::alu::spec_field;
use crate::arm7tdmi::alu::spec_is_test;
use crate::arm7tdmi::alu::spec_rotate_right;
use crate::arm7tdmi::alu::spec_shift_by_immediate;
use crate::arm7tdmi::alu::spec_shift_by_register;
use crate::arm7tdmi::alu::spec_test_bit;
use crate::arm7tdmi::alu::test_bit;
use crate::arm7tdmi::alu::Shifted;
use crate::arm7tdmi::alu::Sum;
use crate::arm7tdmi::psr::Psr;
use crate::arm7tdmi::refill_cost;
use crate::arm7tdmi::Core;
use crate::arm7tdmi::Exception;
use crate::sysbus::SysBus;
use crate::sysbus::SysBusView;
use vstd::prelude::*;

verus! {

/// What an instruction leaves behind: the processor, what is behind the bus,
/// and the cycles that it took beyond its fetch.
pub struct Outcome {
    /// The processor.
    pub cpu: Core,
    /// What is behind the bus.
    pub bus: SysBusView,
    /// The cycles taken.
    pub cost: usize,
}

/// The second operand of a data-processing instruction and the carry that
/// the shifter puts out for it.
///
/// With bit 25 set the operand is the low byte of the instruction, turned
/// right by twice the number in bits 8 to 11; the carry is bit 31 of the
/// result, or the carry flag where nothing was turned. Else it is register
/// Rm (bits 0 to 3), shifted as bits 5 and 6 say, by the number in bits 7 to
/// 11 or, with bit 4 set, by the low byte of register Rs (bits 8 to 11).
pub open spec fn spec_operand2(cpu: Core, insn: u32) -> Shifted {
    if spec_test_bit(insn, 25) {
        let turn = (2 * spec_field(insn, 8, 0xf)) as u32;
        let value = spec_rotate_right(spec_field(insn, 0, 0xff), turn);
        Shifted {
            value,
            carry: if turn == 0 {
                cpu.cpsr.c
            } else {
                value >= 0x8000_0000
            },
        }
    } else {
        let rm = cpu.spec_operand(spec_field(insn, 0, 0xf) as int);
        let kind = spec_field(insn, 5, 0x3);
        if spec_test_bit(insn, 4) {
            spec_shift_by_register(
                kind,
                rm,
                spec_field(cpu.spec_operand(spec_field(insn, 8, 0xf) as int), 0, 0xff),
                cpu.cpsr.c,
            )
        } else {
            spec_shift_by_immediate(kind, rm, spec_field(insn, 7, 0x1f), cpu.cpsr.c)
        }
    }
}

/// The offset of a branch instruction as a word to add to the program
/// counter: the 24 bits of the instruction taken as a signed number of
/// words.
pub open spec fn spec_branch_offset(insn: u32) -> u32 {
    let words = (spec_field(insn, 0, 0xff_ffff) * 4) as u32;
    if words >= 0x0200_0000 {
        words.wrapping_sub(0x0400_0000)
    } else {
        words
    }
}

/// The offset of a branch instruction as a word to add to the program
/// counter.
pub fn branch_offset(insn: u32) -> (r: u32)
    ensures
        r == spec_branch_offset(insn),
{
    let words: u32 = field(insn, 0, 0xff_ffff) * 4;
    if words >= 0x0200_0000 {
        words.wrapping_sub(0x0400_0000)
    } else {
        words
    }
}

impl Core {
    /// The second operand of a data-processing instruction.
    pub fn operand2(&self, insn: u32) -> (r: Shifted)
        ensures
            r == spec_operand2(*self, insn),
    {
        if test_bit(insn, 25) {
            let turn: u32 = 2 * field(insn, 8, 0xf);
            let value: u32 = rotate_right(field(insn, 0, 0xff), turn);
            Shifted {
                value,
                carry: if turn == 0 {
                    self.cpsr.c
                } else {
                    value >= 0x8000_0000
                },
            }
        } else {
            let rm: u32 = self.operand(reg_field(insn, 0));
            let kind: u32 = field(insn, 5, 0x3);
            if test_bit(insn, 4) {
                shift_by_register(
                    kind,
                    rm,
                    field(self.operand(reg_field(insn, 8)), 0, 0xff),
                    self.cpsr.c,
                )
            } else {
                shift_by_immediate(kind, rm, field(insn, 7, 0x1f), self.cpsr.c)
            }
        }
    }

    /// The processor after the saved status register became the current
    /// one, as at the return from an exception.
    pub open spec fn restored(self) -> Core {
        Core { cpsr: self.spsr, ..self.switched(self.spsr.mode) }
    }

    /// Makes the saved status register the current one.
    pub fn restore_cpsr(&mut self)
        ensures
            *final(self) == old(self).restored(),
    {
        let saved: Psr = self.spsr;
        self.change_mode(saved.mode);
        self.cpsr = saved;
    }

    /// What B and BL do: the program counter moves by the offset of the
    /// instruction from where it reads as an operand; BL (bit 24) leaves the
    /// address of the next instruction in the link register.
    pub open spec fn spec_branch(self, bus: SysBusView, insn: u32) -> Outcome {
        let linked = if spec_test_bit(insn, 24) {
            self.with_reg(14, self.gpr[15])
        } else {
            self
        };
        let target = self.spec_operand(15).wrapping_add(spec_branch_offset(insn));
        Outcome {
            cpu: linked.jumped(target),
            bus,
            cost: refill_cost(bus.io, aligned_pc(target, self.cpsr.thumb), self.cpsr.thumb),
        }
    }

    /// Runs B or BL.
    pub fn exec_branch(&mut self, bus: &SysBus, insn: u32) -> (cost: usize)
        ensures
            final(self).cycles == old(self).cycles,
            (Outcome { cpu: *final(self), bus: bus@, cost }) == old(self).spec_branch(bus@, insn),
            cost <= 22,
    {
        let target: u32 = self.operand(15).wrapping_add(branch_offset(insn));
        if test_bit(insn, 24) {
            let next: u32 = self.gpr[15];
            self.set_reg(14, next);
        }
        self.branch_to(bus, target)
    }

    /// What BX does: the program counter takes the value of register Rn (bits
    /// 0 to 3), whose lowest bit says whether THUMB code follows.
    pub open spec fn spec_branch_exchange(self, bus: SysBusView, insn: u32) -> Outcome {
        let target = self.spec_operand(spec_field(insn, 0, 0xf) as int);
        let thumb = target % 2 == 1;
        let turned = Core { cpsr: Psr { thumb, ..self.cpsr }, ..self };
        Outcome {
            cpu: turned.jumped(target),
            bus,
            cost: refill_cost(bus.io, aligned_pc(target, thumb), thumb),
        }
    }

    /// Runs BX.
    pub fn exec_branch_exchange(&mut self, bus: &SysBus, insn: u32) -> (cost: usize)
        ensures
            final(self).cycles == old(self).cycles,
            (Outcome { cpu: *final(self), bus: bus@, cost }) == old(self).spec_branch_exchange(
                bus@,
                insn,
            ),
            cost <= 22,
    {
        let target: u32 = self.operand(reg_field(insn, 0));
        self.cpsr.thumb = target % 2 == 1;
        self.branch_to(bus, target)
    }

    /// What SWI does: the processor takes the software-interrupt exception
    /// and will return to the next instruction.
    pub open spec fn spec_software_interrupt(self, bus: SysBusView) -> Outcome {
        Outcome {
            cpu: self.entered(Exception::SoftwareInterrupt, self.gpr[15]),
            bus,
            cost: refill_cost(bus.io, Exception::SoftwareInterrupt.spec_vector(), false),
        }
    }

    /// Runs SWI.
    pub fn exec_software_interrupt(&mut self, bus: &SysBus) -> (cost: usize)
        ensures
            final(self).cycles == old(self).cycles,
            (Outcome { cpu: *final(self), bus: bus@, cost }) == old(self).spec_software_interrupt(
                bus@,
            ),
            cost <= 22,
    {
        let next: u32 = self.gpr[15];
        self.exception(bus, Exception::SoftwareInterrupt, next)
    }

    /// What a word that is no instruction does: the processor takes the
    /// undefined-instruction exception and will return to the next
    /// instruction.
    pub open spec fn spec_undefined(self, bus: SysBusView) -> Outcome {
        Outcome {
            cpu: self.entered(Exception::UndefinedInstruction, self.gpr[15]),
            bus,
            cost: refill_cost(bus.io, Exception::UndefinedInstruction.spec_vector(), false),
        }
    }

    /// Takes the undefined-instruction exception.
    pub fn exec_undefined(&mut self, bus: &SysBus) -> (cost: usize)
        ensures
            final(self).cycles == old(self).cycles,
            (Outcome { cpu: *final(self), bus: bus@, cost }) == old(self).spec_undefined(bus@),
            cost <= 22,
    {
        let next: u32 = self.gpr[15];
        self.exception(bus, Exception::UndefinedInstruction, next)
    }

    /// What a data-processing instruction does.
    ///
    /// The operation in bits 21 to 24 works on register Rn (bits 16 to 19)
    /// and the second operand. With bit 20 set the flags follow the result;
    /// where the destination is the program counter the saved status register
    /// becomes the current one instead. Every operation but the four tests
    /// writes the result to register Rd (bits 12 to 15); written to the
    /// program counter it is a jump. A shift by a register takes one cycle
    /// more.
    pub open spec fn spec_data_processing(self, bus: SysBusView, insn: u32) -> Outcome {
        let op = spec_field(insn, 21, 0xf);
        let rd = spec_field(insn, 12, 0xf) as int;
        let set_flags = spec_test_bit(insn, 20);
        let b = spec_operand2(self, insn);
        let a = self.spec_operand(spec_field(insn, 16, 0xf) as int);
        let r = spec_alu(op, a, b.value, self.cpsr.c, self.cpsr.v, b.carry);
        let shift_cost: usize = if !spec_test_bit(insn, 25) && spec_test_bit(insn, 4) {
            1
        } else {
            0
        };
        let flagged = if !set_flags {
            self
        } else if rd == 15 {
            self.restored()
        } else {
            Core { cpsr: self.cpsr.spec_with_flags(r.value, r.carry, r.overflow), ..self }
        };
        if spec_is_test(op) {
            Outcome { cpu: flagged, bus, cost: shift_cost }
        } else if rd == 15 {
            if set_flags {
                Outcome {
                    cpu: flagged.with_reg(15, r.value),
                    bus,
                    cost: (shift_cost + refill_cost(bus.io, r.value, flagged.cpsr.thumb)) as usize,
                }
            } else {
                Outcome {
                    cpu: flagged.jumped(r.value),
                    bus,
                    cost: (shift_cost + refill_cost(
                        bus.io,
                        aligned_pc(r.value, self.cpsr.thumb),
                        self.cpsr.thumb,
                    )) as usize,
                }
            }
        } else {
            Outcome { cpu: flagged.with_reg(rd, r.value), bus, cost: shift_cost }
        }
    }

    /// Runs a data-processing instruction.
    #[verifier::rlimit(40)]
    pub fn exec_data_processing(&mut self, bus: &SysBus, insn: u32) -> (cost: usize)
        ensures
            final(self).cycles == old(self).cycles,
            (Outcome { cpu: *final(self), bus: bus@, cost }) == old(self).spec_data_processing(
                bus@,
                insn,
            ),
            cost <= 23,
    {
        let op: u32 = field(insn, 21, 0xf);
        let rd: usize = reg_field(insn, 12);
        let set_flags: bool = test_bit(insn, 20);
        let b: Shifted = self.operand2(insn);
        let a: u32 = self.operand(reg_field(insn, 16));
        let r: Sum = alu(op, a, b.value, self.cpsr.c, self.cpsr.v, b.carry);
        let shift_cost: usize = if !test_bit(insn, 25) && test_bit(insn, 4) {
            1
        } else {
            0
        };
        if set_flags {
            if rd == 15 {
                self.restore_cpsr();
            } else {
                self.cpsr = self.cpsr.with_flags(r.value, r.carry, r.overflow);
            }
        }
        if is_test(op) {
            shift_cost
        } else if rd == 15 {
            if set_flags {
                self.set_reg(15, r.value);
                shift_cost + Self::refill(bus, r.value, self.cpsr.thumb)
            } else {
                shift_cost + self.branch_to(bus, r.value)
            }
        } else {
            self.set_reg(rd, r.value);
            shift_cost
        }
    }

    /// What MRS does: register Rd (bits 12 to 15) takes the current status
    /// register as a word, or with bit 22 set the saved one.
    pub open spec fn spec_read_status(self, bus: SysBusView, insn: u32) -> Outcome {
        let word = if spec_test_bit(insn, 22) {
            self.spsr.spec_bits()
        } else {
            self.cpsr.spec_bits()
        };
        Outcome { cpu: self.with_reg(spec_field(insn, 12, 0xf) as int, word), bus, cost: 0 }
    }

    /// Runs MRS.
    pub fn exec_read_status(&mut self, bus: &SysBus, insn: u32) -> (cost: usize)
        ensures
            final(self).cycles == old(self).cycles,
            (Outcome { cpu: *final(self), bus: bus@, cost }) == old(self).spec_read_status(
                bus@,
                insn,
            ),
            cost == 0,
    {
        let word: u32 = if test_bit(insn, 22) {
            self.spsr.bits()
        } else {
            self.cpsr.bits()
        };
        self.set_reg(reg_field(insn, 12), word);
        0
    }

    /// The status register `psr` after MSR wrote the word that `new` stands
    /// for: the flags are taken with bit 19 of the instruction set, the
    /// interrupt masks and the mode with bit 16 set and in a privileged
    /// mode. The THUMB bit stays.
    pub open spec fn spec_status_written(psr: Psr, new: Psr, insn: u32, privileged: bool) -> Psr {
        let flags = if spec_test_bit(insn, 19) {
            Psr { n: new.n, z: new.z, c: new.c, v: new.v, ..psr }
        } else {
            psr
        };
        if spec_test_bit(insn, 16) && privileged {
            Psr {
                irq_disabled: new.irq_disabled,
                fiq_disabled: new.fiq_disabled,
                mode: new.mode,
                ..flags
            }
        } else {
            flags
        }
    }

    /// The status register `psr` after MSR wrote the word that `new` stands
    /// for.
    pub fn status_written(psr: Psr, new: Psr, insn: u32, privileged: bool) -> (r: Psr)
        ensures
            r == Self::spec_status_written(psr, new, insn, privileged),
    {
        let flags: Psr = if test_bit(insn, 19) {
            Psr { n: new.n, z: new.z, c: new.c, v: new.v, ..psr }
        } else {
            psr
        };
        if test_bit(insn, 16) && privileged {
            Psr {
                irq_disabled: new.irq_disabled,
                fiq_disabled: new.fiq_disabled,
                mode: new.mode,
                ..flags
            }
        } else {
            flags
        }
    }

    /// What MSR does: the second operand is written to the current status
    /// register, or with bit 22 set to the saved one, where the mode has
    /// one. A new mode in the current status register changes the register
    /// bank.
    pub open spec fn spec_write_status(self, bus: SysBusView, insn: u32) -> Outcome {
        let new = Psr::spec_from_bits(spec_operand2(self, insn).value);
        let privileged = self.cpsr.spec_privileged();
        if spec_test_bit(insn, 22) {
            Outcome {
                cpu: if self.cpsr.spec_has_spsr() {
                    Core {
                        spsr: Self::spec_status_written(self.spsr, new, insn, privileged),
                        ..self
                    }
                } else {
                    self
                },
                bus,
                cost: 0,
            }
        } else {
            let psr = Self::spec_status_written(self.cpsr, new, insn, privileged);
            Outcome { cpu: Core { cpsr: psr, ..self.switched(psr.mode) }, bus, cost: 0 }
        }
    }

    /// Runs MSR.
    pub fn exec_write_status(&mut self, bus: &SysBus, insn: u32) -> (cost: usize)
        ensures
            final(self).cycles == old(self).cycles,
            (Outcome { cpu: *final(self), bus: bus@, cost }) == old(self).spec_write_status(
                bus@,
                insn,
            ),
            cost == 0,
    {
        let new: Psr = Psr::from_bits(self.operand2(insn).value);
        let privileged: bool = self.cpsr.privileged();
        if test_bit(insn, 22) {
            if self.cpsr.has_spsr() {
                self.spsr = Self::status_written(self.spsr, new, insn, privileged);
            }
        } else {
            let psr: Psr = Self::status_written(self.cpsr, new, insn, privileged);
            self.change_mode(psr.mode);
            self.cpsr = psr;
        }
        0
    }
}

/// The word that the byte `b` stands for as a signed number.
pub open spec fn spec_sign_extend_byte(b: u8) -> u32 {
    if b >= 0x80 {
        (0xffff_ff00 + b) as u32
    } else {
        b as u32
    }
}

/// The word that the byte `b` stands for as a signed number.
#[verifier::when_used_as_spec(spec_sign_extend_byte)]
pub fn sign_extend_byte(b: u8) -> (r: u32)
    ensures
        r == spec_sign_extend_byte(b),
{
    if b >= 0x80 {
        0xffff_ff00 + b as u32
    } else {
        b as u32
    }
}

/// The word that the halfword `h` stands for as a signed number.
pub open spec fn spec_sign_extend_half(h: u16) -> u32 {
    if h >= 0x8000 {
        (0xffff_0000 + h) as u32
    } else {
        h as u32
    }
}

/// The word that the halfword `h` stands for as a signed number.
#[verifier::when_used_as_spec(spec_sign_extend_half)]
pub fn sign_extend_half(h: u16) -> (r: u32)
    ensures
        r == spec_sign_extend_half(h),
{
    if h >= 0x8000 {
        0xffff_0000 + h as u32
    } else {
        h as u32
    }
}

/// The word that a load from `addr` yields: the word that the address lies
/// in, turned right so that the byte at the address comes lowest.
pub open spec fn spec_load_word(bus: SysBusView, addr: u32) -> u32 {
    spec_rotate_right(bus.read_32(addr), (8 * (addr % 4)) as u32)
}

/// The halfword that a load from `addr` yields, as a word: the halfword that
/// the address lies in, turned right by a byte at an odd address.
pub open spec fn spec_load_half(bus: SysBusView, addr: u32) -> u32 {
    if addr % 2 == 1 {
        spec_rotate_right(bus.read_16(addr) as u32, 8)
    } else {
        bus.read_16(addr) as u32
    }
}

/// The signed halfword that a load from `addr` yields, as a word; at an odd
/// address it is the signed byte there.
pub open spec fn spec_load_signed_half(bus: SysBusView, addr: u32) -> u32 {
    if addr % 2 == 1 {
        spec_sign_extend_byte(bus.read_8(addr))
    } else {
        spec_sign_extend_half(bus.read_16(addr))
    }
}

/// The access of a data transfer that follows nothing.
pub open spec fn first_access(width: MemoryAccessWidth) -> MemoryAccess {
    MemoryAccess(MemoryAccessType::NonSeq, width)
}

/// The access of a transfer of a word in a block: the first follows nothing,
/// the others follow the one before.
pub open spec fn block_access(first: bool) -> MemoryAccess {
    MemoryAccess(
        if first {
            MemoryAccessType::NonSeq
        } else {
            MemoryAccessType::Sequential
        },
        MemoryAccessWidth::MemoryAccess32,
    )
}

/// How many of the registers below `n` the list `rlist` names.
pub open spec fn listed(rlist: u32, n: nat) -> nat
    decreases n,
{
    if n == 0 {
        0
    } else {
        listed(rlist, (n - 1) as nat) + if spec_test_bit(rlist, (n - 1) as u32) {
            1nat
        } else {
            0nat
        }
    }
}

/// Counts the registers that the list `rlist` names.
pub fn count_listed(rlist: u32) -> (r: u32)
    ensures
        r == listed(rlist, 16),
        r <= 16,
{
    let mut count: u32 = 0;
    for i in 0..16u32
        invariant
            count == listed(rlist, i as nat),
            count <= i,
    {
        if test_bit(rlist, i) {
            count = count + 1;
        }
    }
    count
}

impl Core {
    /// Loads the word at `addr`.
    pub fn load_word(bus: &SysBus, addr: u32) -> (r: u32)
        ensures
            r == spec_load_word(bus@, addr),
    {
        rotate_right(bus.read_32(addr), 8 * (addr % 4))
    }

    /// Loads the halfword at `addr`.
    pub fn load_half(bus: &SysBus, addr: u32) -> (r: u32)
        ensures
            r == spec_load_half(bus@, addr),
    {
        if addr % 2 == 1 {
            rotate_right(bus.read_16(addr) as u32, 8)
        } else {
            bus.read_16(addr) as u32
        }
    }

    /// Loads the signed halfword at `addr`.
    pub fn load_signed_half(bus: &SysBus, addr: u32) -> (r: u32)
        ensures
            r == spec_load_signed_half(bus@, addr),
    {
        if addr % 2 == 1 {
            sign_extend_byte(bus.read_8(addr))
        } else {
            sign_extend_half(bus.read_16(addr))
        }
    }

    /// What MUL and MLA do: register Rd (bits 16 to 19) takes the product of
    /// the registers Rm (bits 0 to 3) and Rs (bits 8 to 11), cut to 32 bits;
    /// MLA (bit 21) adds register Rn (bits 12 to 15). With bit 20 set the
    /// flags N and Z follow the result. The multiplier sets the cycles.
    pub open spec fn spec_multiply(self, bus: SysBusView, insn: u32) -> Outcome {
        let rm = self.spec_operand(spec_field(insn, 0, 0xf) as int);
        let rs = self.spec_operand(spec_field(insn, 8, 0xf) as int);
        let accumulate = spec_test_bit(insn, 21);
        let product = rm.wrapping_mul(rs);
        let result = if accumulate {
            product.wrapping_add(self.spec_operand(spec_field(insn, 12, 0xf) as int))
        } else {
            product
        };
        let flagged = if spec_test_bit(insn, 20) {
            Core { cpsr: self.cpsr.spec_with_flags(result, self.cpsr.c, self.cpsr.v), ..self }
        } else {
            self
        };
        Outcome {
            cpu: flagged.with_reg(spec_field(insn, 16, 0xf) as int, result),
            bus,
            cost: (spec_multiplier_cycles(rs, true) + if accumulate {
                1int
            } else {
                0int
            }) as usize,
        }
    }

    /// Runs MUL or MLA.
    pub fn exec_multiply(&mut self, bus: &SysBus, insn: u32) -> (cost: usize)
        ensures
            final(self).cycles == old(self).cycles,
            (Outcome { cpu: *final(self), bus: bus@, cost }) == old(self).spec_multiply(bus@, insn),
            cost <= 5,
    {
        let rm: u32 = self.operand(reg_field(insn, 0));
        let rs: u32 = self.operand(reg_field(insn, 8));
        let accumulate: bool = test_bit(insn, 21);
        let product: u32 = rm.wrapping_mul(rs);
        let result: u32 = if accumulate {
            product.wrapping_add(self.operand(reg_field(insn, 12)))
        } else {
            product
        };
        if test_bit(insn, 20) {
            self.cpsr = self.cpsr.with_flags(result, self.cpsr.c, self.cpsr.v);
        }
        self.set_reg(reg_field(insn, 16), result);
        multiplier_cycles(rs, true) + if accumulate {
            1
        } else {
            0
        }
    }

    /// What the long multiplications do: the registers RdHi (bits 16 to 19)
    /// and RdLo (bits 12 to 15) take the upper and lower half of the 64-bit
    /// product of the registers Rm and Rs, which are signed numbers with bit
    /// 22 set; with bit 21 set the old value of the two registers is added.
    /// With bit 20 set N is bit 63 of the result and Z says whether all of it
    /// is zero.
    pub open spec fn spec_multiply_long_insn(self, bus: SysBusView, insn: u32) -> Outcome {
        let rm = self.spec_operand(spec_field(insn, 0, 0xf) as int);
        let rs = self.spec_operand(spec_field(insn, 8, 0xf) as int);
        let lo = spec_field(insn, 12, 0xf) as int;
        let hi = spec_field(insn, 16, 0xf) as int;
        let signed = spec_test_bit(insn, 22);
        let accumulate = spec_test_bit(insn, 21);
        let acc: u64 = if accumulate {
            (self.spec_operand(hi) * 0x1_0000_0000 + self.spec_operand(lo)) as u64
        } else {
            0
        };
        let result = spec_multiply_long(rm, rs, acc, signed);
        let flagged = if spec_test_bit(insn, 20) {
            Core {
                cpsr: Psr { n: result >= 0x8000_0000_0000_0000, z: result == 0, ..self.cpsr },
                ..self
            }
        } else {
            self
        };
        Outcome {
            cpu: flagged.with_reg(lo, (result % 0x1_0000_0000) as u32).with_reg(
                hi,
                (result / 0x1_0000_0000) as u32,
            ),
            bus,
            cost: (spec_multiplier_cycles(rs, signed) + 1 + if accumulate {
                1int
            } else {
                0int
            }) as usize,
        }
    }

    /// Runs a long multiplication.
    pub fn exec_multiply_long(&mut self, bus: &SysBus, insn: u32) -> (cost: usize)
        ensures
            final(self).cycles == old(self).cycles,
            (Outcome { cpu: *final(self), bus: bus@, cost }) == old(self).spec_multiply_long_insn(
                bus@,
                insn,
            ),
            cost <= 6,
    {
        let rm: u32 = self.operand(reg_field(insn, 0));
        let rs: u32 = self.operand(reg_field(insn, 8));
        let lo: usize = reg_field(insn, 12);
        let hi: usize = reg_field(insn, 16);
        let signed: bool = test_bit(insn, 22);
        let accumulate: bool = test_bit(insn, 21);
        let acc: u64 = if accumulate {
            (self.operand(hi) as u64) * 0x1_0000_0000 + self.operand(lo) as u64
        } else {
            0
        };
        let result: u64 = multiply_long(rm, rs, acc, signed);
        if test_bit(insn, 20) {
            self.cpsr.n = result >= 0x8000_0000_0000_0000;
            self.cpsr.z = result == 0;
        }
        self.set_reg(lo, (result % 0x1_0000_0000) as u32);
        self.set_reg(hi, (result / 0x1_0000_0000) as u32);
        multiplier_cycles(rs, signed) + 1 + if accumulate {
            1
        } else {
            0
        }
    }

    /// What SWP does: register Rd (bits 12 to 15) takes the word at the
    /// address in register Rn (bits 16 to 19), and register Rm (bits 0 to 3)
    /// is stored there; with bit 22 set a byte is swapped instead.
    pub open spec fn spec_swap(self, bus: SysBusView, insn: u32) -> Outcome {
        let addr = self.spec_operand(spec_field(insn, 16, 0xf) as int);
        let source = self.spec_operand(spec_field(insn, 0, 0xf) as int);
        let rd = spec_field(insn, 12, 0xf) as int;
        if spec_test_bit(insn, 22) {
            let after = bus.write_8(addr, (source % 256) as u8);
            Outcome {
                cpu: self.with_reg(rd, bus.read_8(addr) as u32),
                bus: after,
                cost: (cost_of(bus.io, addr, first_access(MemoryAccessWidth::MemoryAccess8))
                    + cost_of(after.io, addr, first_access(MemoryAccessWidth::MemoryAccess8))
                    + 1) as usize,
            }
        } else {
            let after = bus.write_32(addr, source);
            Outcome {
                cpu: self.with_reg(rd, spec_load_word(bus, addr)),
                bus: after,
                cost: (cost_of(bus.io, addr, first_access(MemoryAccessWidth::MemoryAccess32))
                    + cost_of(after.io, addr, first_access(MemoryAccessWidth::MemoryAccess32))
                    + 1) as usize,
            }
        }
    }

    /// Runs SWP.
    pub fn exec_swap(&mut self, bus: &mut SysBus, insn: u32) -> (cost: usize)
        ensures
            final(self).cycles == old(self).cycles,
            crate::sysbus::same_frame(old(bus)@, final(bus)@),
            (Outcome { cpu: *final(self), bus: final(bus)@, cost }) == old(self).spec_swap(
                old(bus)@,
                insn,
            ),
            cost <= 23,
    {
        let addr: u32 = self.operand(reg_field(insn, 16));
        let source: u32 = self.operand(reg_field(insn, 0));
        let rd: usize = reg_field(insn, 12);
        if test_bit(insn, 22) {
            let access = MemoryAccess(MemoryAccessType::NonSeq, MemoryAccessWidth::MemoryAccess8);
            let before: usize = Self::access_cost(bus, addr, access);
            let value: u32 = bus.read_8(addr) as u32;
            bus.write_8(addr, (source % 256) as u8);
            self.set_reg(rd, value);
            before + Self::access_cost(bus, addr, access) + 1
        } else {
            let access = MemoryAccess(MemoryAccessType::NonSeq, MemoryAccessWidth::MemoryAccess32);
            let before: usize = Self::access_cost(bus, addr, access);
            let value: u32 = Self::load_word(bus, addr);
            bus.write_32(addr, source);
            self.set_reg(rd, value);
            before + Self::access_cost(bus, addr, access) + 1
        }
    }

    /// The base address of a transfer: register `rn`, where the program
    /// counter reads as an operand with its two lowest bits cleared.
    pub open spec fn spec_transfer_base(&self, rn: int) -> u32 {
        if rn == 15 {
            aligned_pc(self.spec_operand(15), false)
        } else {
            self.gpr[rn]
        }
    }

    /// The base address of a transfer.
    pub fn transfer_base(&self, rn: usize) -> (r: u32)
        requires
            rn < 16,
        ensures
            r == self.spec_transfer_base(rn as int),
    {
        if rn == 15 {
            let pc: u32 = self.operand(15);
            pc - pc % 4
        } else {
            self.gpr[rn]
        }
    }

    /// What comes after a load: register `rd` takes `value`, which is a jump
    /// where the register is the program counter, and one cycle passes
    /// before the value is there.
    pub open spec fn spec_loaded(self, bus: SysBusView, rd: int, value: u32, cost: usize) -> Outcome {
        if rd == 15 {
            Outcome {
                cpu: self.jumped(value),
                bus,
                cost: (cost + 1 + refill_cost(
                    bus.io,
                    aligned_pc(value, self.cpsr.thumb),
                    self.cpsr.thumb,
                )) as usize,
            }
        } else {
            Outcome { cpu: self.with_reg(rd, value), bus, cost: (cost + 1) as usize }
        }
    }

    /// Puts a loaded value into register `rd`.
    pub fn finish_load(&mut self, bus: &SysBus, rd: usize, value: u32, cost: usize) -> (total: usize)
        requires
            rd < 16,
            cost <= 1000,
        ensures
            final(self).cycles == old(self).cycles,
            (Outcome { cpu: *final(self), bus: bus@, cost: total }) == old(self).spec_loaded(
                bus@,
                rd as int,
                value,
                cost,
            ),
            total <= cost + 23,
    {
        if rd == 15 {
            cost + 1 + self.branch_to(bus, value)
        } else {
            self.set_reg(rd, value);
            cost + 1
        }
    }

    /// What LDR, STR, LDRB and STRB do.
    ///
    /// The offset is the low 12 bits of the instruction or, with bit 25 set,
    /// register Rm shifted by a number of the instruction. It is added to the
    /// base register Rn (bits 16 to 19), or with bit 23 clear taken away from
    /// it. With bit 24 set the transfer goes to the base moved by the offset,
    /// and the base register takes that address only with bit 21 set; else
    /// the transfer goes to the base itself, and the base register is moved
    /// afterwards. Bit 22 asks for a byte, bit 20 for a load into register Rd
    /// (bits 12 to 15).
    pub open spec fn spec_single_transfer(self, bus: SysBusView, insn: u32) -> Outcome {
        let rn = spec_field(insn, 16, 0xf) as int;
        let rd = spec_field(insn, 12, 0xf) as int;
        let base = self.spec_transfer_base(rn);
        let offset = if spec_test_bit(insn, 25) {
            spec_shift_by_immediate(
                spec_field(insn, 5, 0x3),
                self.spec_operand(spec_field(insn, 0, 0xf) as int),
                spec_field(insn, 7, 0x1f),
                self.cpsr.c,
            ).value
        } else {
            spec_field(insn, 0, 0xfff)
        };
        let moved = if spec_test_bit(insn, 23) {
            base.wrapping_add(offset)
        } else {
            base.wrapping_sub(offset)
        };
        let pre = spec_test_bit(insn, 24);
        let addr = if pre {
            moved
        } else {
            base
        };
        let byte = spec_test_bit(insn, 22);
        let cost = cost_of(
            bus.io,
            addr,
            first_access(
                if byte {
                    MemoryAccessWidth::MemoryAccess8
                } else {
                    MemoryAccessWidth::MemoryAccess32
                },
            ),
        );
        let based = if !pre || spec_test_bit(insn, 21) {
            self.with_reg(rn, moved)
        } else {
            self
        };
        if spec_test_bit(insn, 20) {
            based.spec_loaded(
                bus,
                rd,
                if byte {
                    bus.read_8(addr) as u32
                } else {
                    spec_load_word(bus, addr)
                },
                cost,
            )
        } else {
            let value = self.spec_operand(rd);
            Outcome {
                cpu: based,
                bus: if byte {
                    bus.write_8(addr, (value % 256) as u8)
                } else {
                    bus.write_32(addr, value)
                },
                cost,
            }
        }
    }

    /// Runs LDR, STR, LDRB or STRB.
    pub fn exec_single_transfer(&mut self, bus: &mut SysBus, insn: u32) -> (cost: usize)
        ensures
            final(self).cycles == old(self).cycles,
            crate::sysbus::same_frame(old(bus)@, final(bus)@),
            (Outcome { cpu: *final(self), bus: final(bus)@, cost }) == old(
                self,
            ).spec_single_transfer(old(bus)@, insn),
            cost <= 34,
    {
        let rn: usize = reg_field(insn, 16);
        let rd: usize = reg_field(insn, 12);
        let base: u32 = self.transfer_base(rn);
        let offset: u32 = if test_bit(insn, 25) {
            shift_by_immediate(
                field(insn, 5, 0x3),
                self.operand(reg_field(insn, 0)),
                field(insn, 7, 0x1f),
                self.cpsr.c,
            ).value
        } else {
            field(insn, 0, 0xfff)
        };
        let moved: u32 = if test_bit(insn, 23) {
            base.wrapping_add(offset)
        } else {
            base.wrapping_sub(offset)
        };
        let pre: bool = test_bit(insn, 24);
        let addr: u32 = if pre {
            moved
        } else {
            base
        };
        let byte: bool = test_bit(insn, 22);
        let width = if byte {
            MemoryAccessWidth::MemoryAccess8
        } else {
            MemoryAccessWidth::MemoryAccess32
        };
        let cost: usize = Self::access_cost(bus, addr, MemoryAccess(MemoryAccessType::NonSeq, width));
        let value: u32 = self.operand(rd);
        if !pre || test_bit(insn, 21) {
            self.set_reg(rn, moved);
        }
        if test_bit(insn, 20) {
            let loaded: u32 = if byte {
                bus.read_8(addr) as u32
            } else {
                Self::load_word(bus, addr)
            };
            self.finish_load(bus, rd, loaded, cost)
        } else {
            if byte {
                bus.write_8(addr, (value % 256) as u8);
            } else {
                bus.write_32(addr, value);
            }
            cost
        }
    }

    /// What LDRH, STRH, LDRSB and LDRSH do.
    ///
    /// The offset is register Rm or, with bit 22 set, the byte made of bits 8
    /// to 11 and 0 to 3. Base, direction and write-back are as for LDR and
    /// STR. Bits 5 and 6 pick the kind: an unsigned halfword, a signed byte
    /// or a signed halfword; only the halfword can be stored.
    pub open spec fn spec_halfword_transfer(self, bus: SysBusView, insn: u32) -> Outcome {
        let rn = spec_field(insn, 16, 0xf) as int;
        let rd = spec_field(insn, 12, 0xf) as int;
        let base = self.spec_transfer_base(rn);
        let offset = if spec_test_bit(insn, 22) {
            (spec_field(insn, 8, 0xf) * 16 + spec_field(insn, 0, 0xf)) as u32
        } else {
            self.spec_operand(spec_field(insn, 0, 0xf) as int)
        };
        let moved = if spec_test_bit(insn, 23) {
            base.wrapping_add(offset)
        } else {
            base.wrapping_sub(offset)
        };
        let pre = spec_test_bit(insn, 24);
        let addr = if pre {
            moved
        } else {
            base
        };
        let kind = spec_field(insn, 5, 0x3);
        let cost = cost_of(
            bus.io,
            addr,
            first_access(
                if kind == 2 {
                    MemoryAccessWidth::MemoryAccess8
                } else {
                    MemoryAccessWidth::MemoryAccess16
                },
            ),
        );
        let based = if !pre || spec_test_bit(insn, 21) {
            self.with_reg(rn, moved)
        } else {
            self
        };
        if spec_test_bit(insn, 20) {
            based.spec_loaded(
                bus,
                rd,
                if kind == 2 {
                    spec_sign_extend_byte(bus.read_8(addr))
                } else if kind == 3 {
                    spec_load_signed_half(bus, addr)
                } else {
                    spec_load_half(bus, addr)
                },
                cost,
            )
        } else {
            Outcome {
                cpu: based,
                bus: bus.write_16(addr, (self.spec_operand(rd) % 65536) as u16),
                cost,
            }
        }
    }

    /// Runs LDRH, STRH, LDRSB or LDRSH.
    pub fn exec_halfword_transfer(&mut self, bus: &mut SysBus, insn: u32) -> (cost: usize)
        ensures
            final(self).cycles == old(self).cycles,
            crate::sysbus::same_frame(old(bus)@, final(bus)@),
            (Outcome { cpu: *final(self), bus: final(bus)@, cost }) == old(
                self,
            ).spec_halfword_transfer(old(bus)@, insn),
            cost <= 34,
    {
        let rn: usize = reg_field(insn, 16);
        let rd: usize = reg_field(insn, 12);
        let base: u32 = self.transfer_base(rn);
        let offset: u32 = if test_bit(insn, 22) {
            field(insn, 8, 0xf) * 16 + field(insn, 0, 0xf)
        } else {
            self.operand(reg_field(insn, 0))
        };
        let moved: u32 = if test_bit(insn, 23) {
            base.wrapping_add(offset)
        } else {
            base.wrapping_sub(offset)
        };
        let pre: bool = test_bit(insn, 24);
        let addr: u32 = if pre {
            moved
        } else {
            base
        };
        let kind: u32 = field(insn, 5, 0x3);
        let width = if kind == 2 {
            MemoryAccessWidth::MemoryAccess8
        } else {
            MemoryAccessWidth::MemoryAccess16
        };
        let cost: usize = Self::access_cost(bus, addr, MemoryAccess(MemoryAccessType::NonSeq, width));
        let value: u32 = self.operand(rd);
        if !pre || test_bit(insn, 21) {
            self.set_reg(rn, moved);
        }
        if test_bit(insn, 20) {
            let loaded: u32 = if kind == 2 {
                sign_extend_byte(bus.read_8(addr))
            } else if kind == 3 {
                Self::load_signed_half(bus, addr)
            } else {
                Self::load_half(bus, addr)
            };
            self.finish_load(bus, rd, loaded, cost)
        } else {
            bus.write_16(addr, (value % 65536) as u16);
            cost
        }
    }
}

} // verus!
