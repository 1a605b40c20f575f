//! LDM and STM: the transfer of a list of registers to or from consecutive
//! words of memory.

use crate::arm7tdmi::aligned_pc;
use crate::arm7tdmi::alu::field;
use crate::arm7tdmi::alu::reg_field;
use crate::arm7tdmi::alu::spec_field;
use crate::arm7tdmi::alu::spec_test_bit;
use crate::arm7tdmi::alu::test_bit;
use crate::arm7tdmi::arm::block_access;
use crate::arm7tdmi::arm::count_listed;
use crate::arm7tdmi::arm::listed;
use crate::arm7tdmi::arm::Outcome;
use crate::arm7tdmi::cost_of;
use crate::arm7tdmi::psr::bank_of;
use crate::arm7tdmi::psr::spec_bank_of;
use crate::arm7tdmi::refill_cost;
use crate::arm7tdmi::Core;
use crate::arm7tdmi::BANK_FIQ;
use crate::bus::Bus;
use crate::sysbus::MemoryAccess;
use crate::sysbus::MemoryAccessType;
use crate::sysbus::MemoryAccessWidth;
use crate::sysbus::SysBus;
use crate::sysbus::SysBusView;
use vstd::array::spec_array_update;
use vstd::prelude::*;

verus! {

/// Where a block load stands: the processor so far, the address of the next
/// word, whether that word is the first, and the cycles taken.
pub struct BlockLoad {
    pub cpu: Core,
    pub addr: u32,
    pub first: bool,
    pub cost: usize,
}

/// Where a block store stands: what is behind the bus so far, the address of
/// the next word, whether that word is the first, and the cycles taken.
pub struct BlockStore {
    pub bus: SysBusView,
    pub addr: u32,
    pub first: bool,
    pub cost: usize,
}

impl Core {
    /// Register `i` as a block transfer reads it. With `user` set the
    /// registers of user mode are meant, whatever the mode is.
    pub open spec fn spec_block_operand(&self, i: int, user: bool) -> u32 {
        let bank = spec_bank_of(self.cpsr.mode);
        if user && 8 <= i <= 12 && bank == BANK_FIQ {
            self.gpr_banked_old_r8_12[i - 8]
        } else if user && i == 13 && bank != 0 {
            self.gpr_banked_r13[0]
        } else if user && i == 14 && bank != 0 {
            self.gpr_banked_r14[0]
        } else {
            self.spec_operand(i)
        }
    }

    /// Register `i` as a block transfer reads it.
    pub fn block_operand(&self, i: usize, user: bool) -> (r: u32)
        requires
            i < 16,
        ensures
            r == self.spec_block_operand(i as int, user),
    {
        let bank: usize = bank_of(self.cpsr.mode);
        if user && 8 <= i && i <= 12 && bank == BANK_FIQ {
            self.gpr_banked_old_r8_12[i - 8]
        } else if user && i == 13 && bank != 0 {
            self.gpr_banked_r13[0]
        } else if user && i == 14 && bank != 0 {
            self.gpr_banked_r14[0]
        } else {
            self.operand(i)
        }
    }

    /// The processor after a block transfer loaded `value` into register
    /// `i`, a register below 15.
    pub open spec fn with_block_reg(self, i: int, value: u32, user: bool) -> Core {
        let bank = spec_bank_of(self.cpsr.mode);
        if user && 8 <= i <= 12 && bank == BANK_FIQ {
            Core {
                gpr_banked_old_r8_12: spec_array_update(self.gpr_banked_old_r8_12, i - 8, value),
                ..self
            }
        } else if user && i == 13 && bank != 0 {
            Core { gpr_banked_r13: spec_array_update(self.gpr_banked_r13, 0, value), ..self }
        } else if user && i == 14 && bank != 0 {
            Core { gpr_banked_r14: spec_array_update(self.gpr_banked_r14, 0, value), ..self }
        } else {
            self.with_reg(i, value)
        }
    }

    /// Loads `value` into register `i` as a block transfer does.
    pub fn set_block_reg(&mut self, i: usize, value: u32, user: bool)
        requires
            i < 15,
        ensures
            *final(self) == old(self).with_block_reg(i as int, value, user),
    {
        let bank: usize = bank_of(self.cpsr.mode);
        if user && 8 <= i && i <= 12 && bank == BANK_FIQ {
            self.gpr_banked_old_r8_12[i - 8] = value;
            assert(self.gpr_banked_old_r8_12 =~= spec_array_update(
                old(self).gpr_banked_old_r8_12,
                i - 8,
                value,
            ));
        } else if user && i == 13 && bank != 0 {
            self.gpr_banked_r13[0] = value;
            assert(self.gpr_banked_r13 =~= spec_array_update(old(self).gpr_banked_r13, 0, value));
        } else if user && i == 14 && bank != 0 {
            self.gpr_banked_r14[0] = value;
            assert(self.gpr_banked_r14 =~= spec_array_update(old(self).gpr_banked_r14, 0, value));
        } else {
            self.set_reg(i, value);
        }
    }

    /// A block store from register `i` on: each register from `i` to 15 that
    /// `rlist` names is stored at the next word, in the order of the
    /// registers.
    pub open spec fn spec_store_block(self, rlist: u32, user: bool, i: nat, at: BlockStore) -> BlockStore
        decreases 16 - i,
    {
        if i >= 16 {
            at
        } else if spec_test_bit(rlist, i as u32) {
            self.spec_store_block(
                rlist,
                user,
                i + 1,
                BlockStore {
                    bus: at.bus.write_32(at.addr, self.spec_block_operand(i as int, user)),
                    addr: at.addr.wrapping_add(4),
                    first: false,
                    cost: (at.cost + cost_of(at.bus.io, at.addr, block_access(at.first))) as usize,
                },
            )
        } else {
            self.spec_store_block(rlist, user, i + 1, at)
        }
    }

    /// A block load from register `i` on: each register from `i` to 14 that
    /// `rlist` names is loaded from the next word, in the order of the
    /// registers.
    pub open spec fn spec_load_block(bus: SysBusView, rlist: u32, user: bool, i: nat, at: BlockLoad) -> BlockLoad
        decreases 15 - i,
    {
        if i >= 15 {
            at
        } else if spec_test_bit(rlist, i as u32) {
            Self::spec_load_block(
                bus,
                rlist,
                user,
                i + 1,
                BlockLoad {
                    cpu: at.cpu.with_block_reg(i as int, bus.read_32(at.addr), user),
                    addr: at.addr.wrapping_add(4),
                    first: false,
                    cost: (at.cost + cost_of(bus.io, at.addr, block_access(at.first))) as usize,
                },
            )
        } else {
            Self::spec_load_block(bus, rlist, user, i + 1, at)
        }
    }

    /// The address of the lowest word of a block transfer, and the value of
    /// the base register after it.
    pub open spec fn spec_block_bounds(self, insn: u32) -> (u32, u32) {
        let size = (4 * listed(spec_field(insn, 0, 0xffff), 16)) as u32;
        let base = self.gpr[spec_field(insn, 16, 0xf) as int];
        if spec_test_bit(insn, 23) {
            (if spec_test_bit(insn, 24) {
                base.wrapping_add(4)
            } else {
                base
            }, base.wrapping_add(size))
        } else {
            (if spec_test_bit(insn, 24) {
                base.wrapping_sub(size)
            } else {
                base.wrapping_sub(size).wrapping_add(4)
            }, base.wrapping_sub(size))
        }
    }

    /// What LDM does with a list that is not empty, the lowest word being at
    /// `start` and `end` being the base after the transfer.
    pub open spec fn spec_block_load(self, bus: SysBusView, insn: u32, start: u32, end: u32) -> Outcome {
        let rlist = spec_field(insn, 0, 0xffff);
        let rn = spec_field(insn, 16, 0xf) as int;
        let pc_listed = spec_test_bit(rlist, 15);
        let user = spec_test_bit(insn, 22) && !pc_listed;
        let based = if spec_test_bit(insn, 21) && !spec_test_bit(rlist, rn as u32) {
            self.with_reg(rn, end)
        } else {
            self
        };
        let done = Self::spec_load_block(
            bus,
            rlist,
            user,
            0,
            BlockLoad { cpu: based, addr: start, first: true, cost: 0 },
        );
        if pc_listed {
            let value = bus.read_32(done.addr);
            let cost = done.cost + cost_of(bus.io, done.addr, block_access(done.first)) + 1;
            if spec_test_bit(insn, 22) {
                let back = done.cpu.restored();
                Outcome {
                    cpu: back.with_reg(15, value),
                    bus,
                    cost: (cost + refill_cost(bus.io, value, back.cpsr.thumb)) as usize,
                }
            } else {
                Outcome {
                    cpu: done.cpu.jumped(value),
                    bus,
                    cost: (cost + refill_cost(
                        bus.io,
                        aligned_pc(value, done.cpu.cpsr.thumb),
                        done.cpu.cpsr.thumb,
                    )) as usize,
                }
            }
        } else {
            Outcome { cpu: done.cpu, bus, cost: (done.cost + 1) as usize }
        }
    }

    /// What STM does with a list that is not empty, the lowest word being at
    /// `start` and `end` being the base after the transfer.
    pub open spec fn spec_block_store(self, bus: SysBusView, insn: u32, start: u32, end: u32) -> Outcome {
        let done = self.spec_store_block(
            spec_field(insn, 0, 0xffff),
            spec_test_bit(insn, 22),
            0,
            BlockStore { bus, addr: start, first: true, cost: 0 },
        );
        Outcome {
            cpu: if spec_test_bit(insn, 21) {
                self.with_reg(spec_field(insn, 16, 0xf) as int, end)
            } else {
                self
            },
            bus: done.bus,
            cost: done.cost,
        }
    }

    /// What LDM and STM do.
    ///
    /// The registers that bits 0 to 15 name are moved to or from as many
    /// consecutive words, the lowest register at the lowest address. The
    /// words lie above the base register Rn (bits 16 to 19) with bit 23 set
    /// and below it else; bit 24 says whether the word at the base itself is
    /// left out. With bit 21 set the base register is moved past the words,
    /// unless a load names it. Bit 22 asks for the registers of user mode,
    /// or, in a load that names the program counter, for the return from an
    /// exception. A load of the program counter is a jump. An empty list
    /// moves nothing.
    pub open spec fn spec_block_transfer(self, bus: SysBusView, insn: u32) -> Outcome {
        let bounds = self.spec_block_bounds(insn);
        if spec_field(insn, 0, 0xffff) == 0 {
            Outcome { cpu: self, bus, cost: 0 }
        } else if spec_test_bit(insn, 20) {
            self.spec_block_load(bus, insn, bounds.0, bounds.1)
        } else {
            self.spec_block_store(bus, insn, bounds.0, bounds.1)
        }
    }

    /// Loads the registers below 15 that `rlist` names from the words at
    /// `start` on. Returns the address after the last word, whether no word
    /// was loaded, and the cycles taken.
    pub fn load_block(&mut self, bus: &SysBus, rlist: u32, user: bool, start: u32) -> (r: (
        u32,
        bool,
        usize,
    ))
        ensures
            final(self).cycles == old(self).cycles,
            (BlockLoad { cpu: *final(self), addr: r.0, first: r.1, cost: r.2 })
                == Self::spec_load_block(
                bus@,
                rlist,
                user,
                0,
                BlockLoad { cpu: *old(self), addr: start, first: true, cost: 0 },
            ),
            r.2 <= 165,
    {
        let mut addr: u32 = start;
        let mut first: bool = true;
        let mut cost: usize = 0;
        for i in 0..15usize
            invariant
                cost <= 11 * i,
                self.cycles == old(self).cycles,
                Self::spec_load_block(
                    bus@,
                    rlist,
                    user,
                    i as nat,
                    BlockLoad { cpu: *self, addr, first, cost },
                ) == Self::spec_load_block(
                    bus@,
                    rlist,
                    user,
                    0,
                    BlockLoad { cpu: *old(self), addr: start, first: true, cost: 0 },
                ),
        {
            if test_bit(rlist, i as u32) {
                cost = cost + Self::access_cost(bus, addr, Self::block_access_of(first));
                let value: u32 = bus.read_32(addr);
                self.set_block_reg(i, value, user);
                addr = addr.wrapping_add(4);
                first = false;
            }
        }
        (addr, first, cost)
    }

    /// Stores the registers that `rlist` names in the words at `start` on,
    /// and returns the cycles taken.
    pub fn store_block(&self, bus: &mut SysBus, rlist: u32, user: bool, start: u32) -> (cost: usize)
        ensures
            crate::sysbus::same_frame(old(bus)@, final(bus)@),
            final(bus)@ == self.spec_store_block(
                rlist,
                user,
                0,
                BlockStore { bus: old(bus)@, addr: start, first: true, cost: 0 },
            ).bus,
            cost == self.spec_store_block(
                rlist,
                user,
                0,
                BlockStore { bus: old(bus)@, addr: start, first: true, cost: 0 },
            ).cost,
            cost <= 176,
    {
        let mut addr: u32 = start;
        let mut first: bool = true;
        let mut cost: usize = 0;
        for i in 0..16usize
            invariant
                cost <= 11 * i,
                crate::sysbus::same_frame(old(bus)@, bus@),
                self.spec_store_block(
                    rlist,
                    user,
                    i as nat,
                    BlockStore { bus: bus@, addr, first, cost },
                ) == self.spec_store_block(
                    rlist,
                    user,
                    0,
                    BlockStore { bus: old(bus)@, addr: start, first: true, cost: 0 },
                ),
        {
            if test_bit(rlist, i as u32) {
                cost = cost + Self::access_cost(bus, addr, Self::block_access_of(first));
                let value: u32 = self.block_operand(i, user);
                bus.write_32(addr, value);
                addr = addr.wrapping_add(4);
                first = false;
            }
        }
        cost
    }

    /// The address of the lowest word of a block transfer, and the value of
    /// the base register after it.
    pub fn block_bounds(&self, insn: u32) -> (r: (u32, u32))
        ensures
            r == self.spec_block_bounds(insn),
    {
        let size: u32 = 4 * count_listed(field(insn, 0, 0xffff));
        let base: u32 = self.gpr[reg_field(insn, 16)];
        if test_bit(insn, 23) {
            (if test_bit(insn, 24) {
                base.wrapping_add(4)
            } else {
                base
            }, base.wrapping_add(size))
        } else {
            (if test_bit(insn, 24) {
                base.wrapping_sub(size)
            } else {
                base.wrapping_sub(size).wrapping_add(4)
            }, base.wrapping_sub(size))
        }
    }

    /// Runs LDM with a list that is not empty.
    pub fn exec_block_load(&mut self, bus: &SysBus, insn: u32, start: u32, end: u32) -> (cost: usize)
        ensures
            final(self).cycles == old(self).cycles,
            (Outcome { cpu: *final(self), bus: bus@, cost }) == old(self).spec_block_load(
                bus@,
                insn,
                start,
                end,
            ),
            cost <= 200,
    {
        let rlist: u32 = field(insn, 0, 0xffff);
        let rn: usize = reg_field(insn, 16);
        let pc_listed: bool = test_bit(rlist, 15);
        let user: bool = test_bit(insn, 22) && !pc_listed;
        if test_bit(insn, 21) && !test_bit(rlist, rn as u32) {
            self.set_reg(rn, end);
        }
        let (addr, first, loaded) = self.load_block(bus, rlist, user, start);
        if pc_listed {
            let value: u32 = bus.read_32(addr);
            let cost: usize = loaded + Self::access_cost(bus, addr, Self::block_access_of(first)) + 1;
            if test_bit(insn, 22) {
                self.restore_cpsr();
                self.set_reg(15, value);
                cost + Self::refill(bus, value, self.cpsr.thumb)
            } else {
                cost + self.branch_to(bus, value)
            }
        } else {
            loaded + 1
        }
    }

    /// Runs STM with a list that is not empty.
    pub fn exec_block_store(&mut self, bus: &mut SysBus, insn: u32, start: u32, end: u32) -> (cost:
        usize)
        ensures
            final(self).cycles == old(self).cycles,
            crate::sysbus::same_frame(old(bus)@, final(bus)@),
            (Outcome { cpu: *final(self), bus: final(bus)@, cost }) == old(self).spec_block_store(
                old(bus)@,
                insn,
                start,
                end,
            ),
            cost <= 200,
    {
        let cost: usize = self.store_block(bus, field(insn, 0, 0xffff), test_bit(insn, 22), start);
        if test_bit(insn, 21) {
            self.set_reg(reg_field(insn, 16), end);
        }
        cost
    }

    /// Runs LDM or STM.
    pub fn exec_block_transfer(&mut self, bus: &mut SysBus, insn: u32) -> (cost: usize)
        ensures
            final(self).cycles == old(self).cycles,
            crate::sysbus::same_frame(old(bus)@, final(bus)@),
            (Outcome { cpu: *final(self), bus: final(bus)@, cost }) == old(
                self,
            ).spec_block_transfer(old(bus)@, insn),
            cost <= 200,
    {
        let bounds: (u32, u32) = self.block_bounds(insn);
        if field(insn, 0, 0xffff) == 0 {
            0
        } else if test_bit(insn, 20) {
            self.exec_block_load(bus, insn, bounds.0, bounds.1)
        } else {
            self.exec_block_store(bus, insn, bounds.0, bounds.1)
        }
    }

    /// The access of a transfer of a word in a block.
    pub fn block_access_of(first: bool) -> (r: MemoryAccess)
        ensures
            r == block_access(first),
    {
        MemoryAccess(
            if first {
                MemoryAccessType::NonSeq
            } else {
                MemoryAccessType::Sequential
            },
            MemoryAccessWidth::MemoryAccess32,
        )
    }
}

} // verus!
