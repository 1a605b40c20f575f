//! Saving registers on the stack and getting them back: what STMDB and LDMIA
//! on the same list of registers do to each other.

use crate::arm7tdmi::alu::spec_field;
use crate::arm7tdmi::alu::spec_test_bit;
use crate::arm7tdmi::arm::listed;
use crate::arm7tdmi::block::BlockLoad;
use crate::arm7tdmi::block::BlockStore;
use crate::arm7tdmi::Core;
use crate::bus::mem_read_32;
use crate::bus::mem_write_32;
use crate::sysbus::spec_map;
use crate::sysbus::spec_map_mut;
use crate::sysbus::Region;
use crate::sysbus::SysBusView;
use crate::sysbus::INTERNAL_RAM_SIZE;
use crate::sysbus::WORK_RAM_SIZE;
use vstd::prelude::*;

verus! {

/// One of the two work RAMs as the bytes it holds: the internal one where
/// `internal` is set, the on-board one else.
pub open spec fn work_ram(bus: SysBusView, internal: bool) -> Seq<u8> {
    if internal {
        bus.iwram
    } else {
        bus.ewram
    }
}

/// What is behind the bus with one of the two work RAMs holding `mem`.
pub open spec fn with_work_ram(bus: SysBusView, internal: bool, mem: Seq<u8>) -> SysBusView {
    if internal {
        SysBusView { iwram: mem, ..bus }
    } else {
        SysBusView { ewram: mem, ..bus }
    }
}

/// Whether the `count` words from `addr` on lie in one of the two work RAMs,
/// at offsets that the memory map does not fold.
pub open spec fn in_work_ram(addr: u32, count: nat, internal: bool) -> bool {
    &&& addr % 4 == 0
    &&& addr / 0x0100_0000 == if internal {
        0x03int
    } else {
        0x02int
    }
    &&& addr % 0x0100_0000 + 4 * count <= if internal {
        INTERNAL_RAM_SIZE as int
    } else {
        WORK_RAM_SIZE as int
    }
}

/// The values of the registers from `i` to 14 that `rlist` names, in the
/// order of the registers.
pub open spec fn listed_words(cpu: Core, rlist: u32, i: nat) -> Seq<u32>
    decreases 15 - i,
{
    if i >= 15 {
        Seq::empty()
    } else if spec_test_bit(rlist, i as u32) {
        seq![cpu.gpr[i as int]] + listed_words(cpu, rlist, i + 1)
    } else {
        listed_words(cpu, rlist, i + 1)
    }
}

/// The block `mem` after `words` were written one after the other from
/// offset `ofs` on.
pub open spec fn stacked(mem: Seq<u8>, ofs: int, words: Seq<u32>) -> Seq<u8>
    decreases words.len(),
{
    if words.len() == 0 {
        mem
    } else {
        stacked(mem_write_32(mem, ofs, words[0]), ofs + 4, words.drop_first())
    }
}

/// An address of a work RAM whose offset the memory map does not fold leads
/// to that offset, for reading and for writing.
pub proof fn lemma_map_work_ram(addr: u32, internal: bool)
    requires
        in_work_ram(addr, 1, internal),
    ensures
        spec_map(addr) == (if internal {
            Region::Iwram
        } else {
            Region::Ewram
        }, (addr % 0x0100_0000) as u32),
        spec_map_mut(addr) == spec_map(addr),
{
    reveal(spec_map);
}

/// A word written to a block changes the four bytes at its offset and no
/// other, where the block does not end before the word does.
pub proof fn lemma_write_32_frame(mem: Seq<u8>, ofs: int, value: u32, j: int)
    requires
        0 <= ofs,
        ofs + 4 <= mem.len(),
        0 <= j < mem.len(),
        j < ofs || j >= ofs + 4,
    ensures
        mem_write_32(mem, ofs, value)[j] == mem[j],
        mem_write_32(mem, ofs, value).len() == mem.len(),
{
    let len = mem.len() as int;
    crate::bus::lemma_small_rest(ofs, len);
    crate::bus::lemma_small_rest(ofs + 1, len);
    crate::bus::lemma_small_rest(ofs + 2, len);
    crate::bus::lemma_small_rest(ofs + 3, len);
}

/// Words written one after the other change the bytes that they cover and no
/// other.
pub proof fn lemma_stacked_frame(mem: Seq<u8>, ofs: int, words: Seq<u32>, j: int)
    requires
        0 <= ofs,
        ofs + 4 * words.len() <= mem.len(),
        0 <= j < mem.len(),
        j < ofs || j >= ofs + 4 * words.len(),
    ensures
        stacked(mem, ofs, words)[j] == mem[j],
        stacked(mem, ofs, words).len() == mem.len(),
    decreases words.len(),
{
    if words.len() > 0 {
        lemma_write_32_frame(mem, ofs, words[0], j);
        lemma_stacked_frame(mem_write_32(mem, ofs, words[0]), ofs + 4, words.drop_first(), j);
    }
}

/// The length of a block stays when words are written to it.
pub proof fn lemma_stacked_len(mem: Seq<u8>, ofs: int, words: Seq<u32>)
    requires
        0 <= ofs,
        ofs + 4 * words.len() <= mem.len(),
    ensures
        stacked(mem, ofs, words).len() == mem.len(),
    decreases words.len(),
{
    if words.len() > 0 {
        crate::bus::lemma_mem_write_32_reads_back(mem, ofs, words[0]);
        lemma_stacked_len(mem_write_32(mem, ofs, words[0]), ofs + 4, words.drop_first());
    }
}

/// The word read at an offset depends on the four bytes there only.
pub proof fn lemma_read_32_same_bytes(a: Seq<u8>, b: Seq<u8>, ofs: int)
    requires
        a.len() == b.len(),
        0 <= ofs,
        ofs + 4 <= a.len(),
        forall|k: int| ofs <= k < ofs + 4 ==> a[k] == b[k],
    ensures
        mem_read_32(a, ofs) == mem_read_32(b, ofs),
{
    let len = a.len() as int;
    crate::bus::lemma_small_rest(ofs, len);
    crate::bus::lemma_small_rest(ofs + 1, len);
    crate::bus::lemma_small_rest(ofs + 2, len);
    crate::bus::lemma_small_rest(ofs + 3, len);
}

/// Words written one after the other read back, each at its place.
pub proof fn lemma_stacked_reads_back(mem: Seq<u8>, ofs: int, words: Seq<u32>, m: int)
    requires
        0 <= ofs,
        ofs + 4 * words.len() <= mem.len(),
        0 <= m < words.len(),
    ensures
        mem_read_32(stacked(mem, ofs, words), ofs + 4 * m) == words[m],
    decreases words.len(),
{
    let first = mem_write_32(mem, ofs, words[0]);
    let rest = words.drop_first();
    crate::bus::lemma_mem_write_32_reads_back(mem, ofs, words[0]);
    if m == 0 {
        lemma_stacked_len(first, ofs + 4, rest);
        assert forall|k: int| ofs <= k < ofs + 4 implies stacked(first, ofs + 4, rest)[k]
            == first[k] by {
            lemma_stacked_frame(first, ofs + 4, rest, k);
        }
        lemma_read_32_same_bytes(stacked(first, ofs + 4, rest), first, ofs);
    } else {
        lemma_stacked_reads_back(first, ofs + 4, rest, m - 1);
    }
}

/// The word after a word of a work RAM lies in the same work RAM, four
/// bytes further on.
pub proof fn lemma_next_word(addr: u32, count: nat, internal: bool)
    requires
        in_work_ram(addr, count, internal),
        count >= 1,
    ensures
        in_work_ram(addr.wrapping_add(4), (count - 1) as nat, internal),
        addr.wrapping_add(4) == addr + 4,
        addr.wrapping_add(4) % 0x0100_0000 == addr % 0x0100_0000 + 4,
{
    let q = addr as int / 0x0100_0000;
    let r = addr as int % 0x0100_0000;
    vstd::arithmetic::div_mod::lemma_fundamental_div_mod_converse(addr + 4, 0x0100_0000, q, r + 4);
}

/// The offset of an address that is a multiple of four is one too.
proof fn lemma_offset_aligned(x: u32)
    by (bit_vector)
    requires
        x % 4 == 0,
    ensures
        (x % 0x0100_0000) % 4 == 0,
{
}

/// A word written to a work RAM changes that work RAM at the offset of the
/// address, and nothing else behind the bus.
pub proof fn lemma_write_word_work_ram(bus: SysBusView, addr: u32, value: u32, internal: bool)
    requires
        in_work_ram(addr, 1, internal),
    ensures
        bus.write_32(addr, value) == with_work_ram(
            bus,
            internal,
            mem_write_32(work_ram(bus, internal), (addr % 0x0100_0000) as int, value),
        ),
        bus.read_32(addr) == mem_read_32(work_ram(bus, internal), (addr % 0x0100_0000) as int),
{
    lemma_map_work_ram(addr, internal);
    lemma_offset_aligned(addr);
    let ofs = (addr % 0x0100_0000) as u32;
    let region = spec_map(addr).0;
    assert(crate::sysbus::align_down(ofs, 4) == ofs);
    assert(bus.write_32(addr, value) == bus.region_write_32(region, ofs, value));
    assert(bus.read_32(addr) == bus.region_read_32(region, ofs));
}

/// A block store to a work RAM writes the values of the listed registers one
/// after the other, and touches nothing else behind the bus.
pub proof fn lemma_store_block_stacks(
    cpu: Core,
    rlist: u32,
    i: nat,
    at: BlockStore,
    internal: bool,
)
    requires
        !spec_test_bit(rlist, 15),
        i <= 16,
        in_work_ram(at.addr, listed_words(cpu, rlist, i).len(), internal),
    ensures
        cpu.spec_store_block(rlist, false, i, at).bus == with_work_ram(
            at.bus,
            internal,
            stacked(
                work_ram(at.bus, internal),
                (at.addr % 0x0100_0000) as int,
                listed_words(cpu, rlist, i),
            ),
        ),
    decreases 16 - i,
{
    let mem = work_ram(at.bus, internal);
    let ofs = (at.addr % 0x0100_0000) as int;
    if i >= 16 {
        assert(with_work_ram(at.bus, internal, mem) == at.bus);
    } else if i == 15 {
        lemma_store_block_stacks(cpu, rlist, 16, at, internal);
    } else if spec_test_bit(rlist, i as u32) {
        let value = cpu.gpr[i as int];
        let words = listed_words(cpu, rlist, i);
        let rest = listed_words(cpu, rlist, i + 1);
        assert(words.drop_first() =~= rest);
        assert(words[0] == value);
        lemma_write_word_work_ram(at.bus, at.addr, value, internal);
        lemma_next_word(at.addr, words.len(), internal);
        let written = mem_write_32(mem, ofs, value);
        let next = BlockStore {
            bus: at.bus.write_32(at.addr, value),
            addr: at.addr.wrapping_add(4),
            first: false,
            cost: (at.cost + crate::arm7tdmi::cost_of(
                at.bus.io,
                at.addr,
                crate::arm7tdmi::arm::block_access(at.first),
            )) as usize,
        };
        assert(work_ram(next.bus, internal) == written);
        lemma_store_block_stacks(cpu, rlist, i + 1, next, internal);
        assert(stacked(mem, ofs, words) == stacked(written, ofs + 4, rest));
        assert(with_work_ram(next.bus, internal, stacked(written, ofs + 4, rest)) == with_work_ram(
            at.bus,
            internal,
            stacked(written, ofs + 4, rest),
        ));
    } else {
        lemma_store_block_stacks(cpu, rlist, i + 1, at, internal);
    }
}

/// A block load from words that hold the values which the listed registers
/// have in `cpu` gives every listed register the value that it has in `cpu`,
/// and changes nothing else of the processor.
pub proof fn lemma_load_block_restores(
    cpu: Core,
    bus: SysBusView,
    rlist: u32,
    i: nat,
    at: BlockLoad,
    internal: bool,
)
    requires
        i <= 15,
        in_work_ram(at.addr, listed_words(cpu, rlist, i).len(), internal),
        work_ram(bus, internal).len() == if internal {
            INTERNAL_RAM_SIZE
        } else {
            WORK_RAM_SIZE
        },
        forall|m: int|
            0 <= m < listed_words(cpu, rlist, i).len() ==> mem_read_32(
                work_ram(bus, internal),
                at.addr % 0x0100_0000 + 4 * m,
            ) == #[trigger] listed_words(cpu, rlist, i)[m],
    ensures
        forall|j: int|
            0 <= j < 16 ==> Core::spec_load_block(bus, rlist, false, i, at).cpu.gpr[j] == if i <= j
                < 15 && spec_test_bit(rlist, j as u32) {
                cpu.gpr[j]
            } else {
                at.cpu.gpr[j]
            },
        Core::spec_load_block(bus, rlist, false, i, at).cpu == (Core {
            gpr: Core::spec_load_block(bus, rlist, false, i, at).cpu.gpr,
            ..at.cpu
        }),
        Core::spec_load_block(bus, rlist, false, i, at).addr == at.addr + 4 * listed_words(
            cpu,
            rlist,
            i,
        ).len(),
    decreases 15 - i,
{
    if i >= 15 {
    } else if spec_test_bit(rlist, i as u32) {
        let words = listed_words(cpu, rlist, i);
        let rest = listed_words(cpu, rlist, i + 1);
        assert(words.drop_first() =~= rest);
        assert(words[0] == cpu.gpr[i as int]);
        lemma_write_word_work_ram(bus, at.addr, 0, internal);
        lemma_next_word(at.addr, words.len(), internal);
        let ofs = (at.addr % 0x0100_0000) as int;
        let value = bus.read_32(at.addr);
        assert(value == mem_read_32(work_ram(bus, internal), ofs + 4 * 0));
        let next = BlockLoad {
            cpu: at.cpu.with_block_reg(i as int, value, false),
            addr: at.addr.wrapping_add(4),
            first: false,
            cost: (at.cost + crate::arm7tdmi::cost_of(
                bus.io,
                at.addr,
                crate::arm7tdmi::arm::block_access(at.first),
            )) as usize,
        };
        assert forall|m: int| 0 <= m < rest.len() implies mem_read_32(
            work_ram(bus, internal),
            next.addr % 0x0100_0000 + 4 * m,
        ) == #[trigger] rest[m] by {
            assert(rest[m] == words[m + 1]);
        }
        lemma_load_block_restores(cpu, bus, rlist, i + 1, next, internal);
    } else {
        lemma_load_block_restores(cpu, bus, rlist, i + 1, at, internal);
    }
}

/// The number of words that a list without the program counter moves is the
/// number of registers that it names.
pub proof fn lemma_listed_words_len(cpu: Core, rlist: u32, i: nat)
    requires
        i <= 15,
        !spec_test_bit(rlist, 15),
    ensures
        listed_words(cpu, rlist, i).len() + listed(rlist, i) == listed(rlist, 16),
    decreases 15 - i,
{
    if i >= 15 {
        reveal_with_fuel(listed, 2);
    } else {
        lemma_listed_words_len(cpu, rlist, i + 1);
        reveal_with_fuel(listed, 2);
    }
}

/// The fields of the two instructions that save registers on the stack and
/// get them back: STMDB with write-back on register 13, and LDMIA with
/// write-back on register 13.
proof fn lemma_push_pop_fields(push: u32, pop: u32)
    by (bit_vector)
    requires
        push & 0xffff_0000 == 0xe92d_0000,
        pop & 0xffff_0000 == 0xe8bd_0000,
        push & 0xffff == pop & 0xffff,
        push & 0xa000 == 0,
    ensures
        (push >> 0) & 0xffff == push & 0xffff,
        (pop >> 0) & 0xffff == push & 0xffff,
        (push >> 16) & 0xf == 13,
        (pop >> 16) & 0xf == 13,
        (push >> 20) & 1 == 0,
        (push >> 21) & 1 == 1,
        (push >> 22) & 1 == 0,
        (push >> 23) & 1 == 0,
        (push >> 24) & 1 == 1,
        (pop >> 20) & 1 == 1,
        (pop >> 21) & 1 == 1,
        (pop >> 22) & 1 == 0,
        (pop >> 23) & 1 == 1,
        (pop >> 24) & 1 == 0,
        ((push & 0xffff) >> 13) & 1 == 0,
        ((push & 0xffff) >> 15) & 1 == 0,
{
}

/// Registers that are pushed and then popped are as they were.
///
/// STMDB with write-back on the stack pointer, followed by LDMIA with
/// write-back on the stack pointer and the same list of registers, leaves
/// the whole processor as it was before the two, the stack pointer
/// included. The second instruction writes nothing, and the first writes
/// only the words between the new and the old stack pointer.
///
/// The list names at least one register and neither the stack pointer nor
/// the program counter, and the words below the stack pointer lie in one of
/// the two work RAMs.
pub proof fn lemma_push_then_pop(cpu: Core, bus: SysBusView, push: u32, pop: u32, internal: bool)
    requires
        bus.wf(),
        push & 0xffff_0000 == 0xe92d_0000,
        pop & 0xffff_0000 == 0xe8bd_0000,
        push & 0xffff == pop & 0xffff,
        push & 0xa000 == 0,
        push & 0xffff != 0,
        cpu.gpr[13] >= 4 * listed(push & 0xffff, 16),
        in_work_ram(
            (cpu.gpr[13] - 4 * listed(push & 0xffff, 16)) as u32,
            listed(push & 0xffff, 16),
            internal,
        ),
    ensures
        ({
            let pushed = cpu.spec_block_transfer(bus, push);
            let popped = pushed.cpu.spec_block_transfer(pushed.bus, pop);
            let count = listed(push & 0xffff, 16);
            let low = (cpu.gpr[13] - 4 * count) % 0x0100_0000;
            &&& popped.cpu == cpu
            &&& popped.bus == pushed.bus
            &&& pushed.cpu == cpu.with_reg(13, (cpu.gpr[13] - 4 * count) as u32)
            &&& pushed.bus == with_work_ram(bus, internal, work_ram(pushed.bus, internal))
            &&& work_ram(pushed.bus, internal).len() == work_ram(bus, internal).len()
            &&& forall|j: int|
                0 <= j < work_ram(bus, internal).len() && !(low <= j < low + 4 * count)
                    ==> work_ram(pushed.bus, internal)[j] == work_ram(bus, internal)[j]
        }),
{
    lemma_push_pop_fields(push, pop);
    let rlist = push & 0xffff;
    let count = listed(rlist, 16);
    let sp = cpu.gpr[13];
    let start = (sp - 4 * count) as u32;
    let words = listed_words(cpu, rlist, 0);
    let mem = work_ram(bus, internal);
    let ofs = (start % 0x0100_0000) as int;
    lemma_listed_words_len(cpu, rlist, 0);
    assert(listed(rlist, 0) == 0);
    assert(words.len() == count);
    assert(count <= 16) by {
        lemma_listed_at_most(rlist, 16);
    }
    assert(spec_field(push, 0, 0xffff) == rlist);
    assert(spec_field(pop, 0, 0xffff) == rlist);
    assert(spec_field(push, 16, 0xf) == 13);
    assert(spec_field(pop, 16, 0xf) == 13);
    assert(!spec_test_bit(rlist, 15));
    assert(!spec_test_bit(rlist, 13));
    assert(sp.wrapping_sub((4 * count) as u32) == start);
    assert(cpu.spec_block_bounds(push) == (start, start));
    let pushed = cpu.spec_block_transfer(bus, push);
    let first = BlockStore { bus, addr: start, first: true, cost: 0 };
    lemma_store_block_stacks(cpu, rlist, 0, first, internal);
    assert(pushed.bus == with_work_ram(bus, internal, stacked(mem, ofs, words)));
    assert(pushed.cpu == cpu.with_reg(13, start));
    lemma_stacked_len(mem, ofs, words);
    assert forall|j: int| 0 <= j < mem.len() && !(ofs <= j < ofs + 4 * count) implies stacked(
        mem,
        ofs,
        words,
    )[j] == mem[j] by {
        lemma_stacked_frame(mem, ofs, words, j);
    }
    assert forall|m: int| 0 <= m < words.len() implies mem_read_32(
        work_ram(pushed.bus, internal),
        ofs + 4 * m,
    ) == #[trigger] words[m] by {
        lemma_stacked_reads_back(mem, ofs, words, m);
    }
    assert(start.wrapping_add((4 * count) as u32) == sp);
    assert(pushed.cpu.spec_block_bounds(pop) == (start, sp));
    let based = pushed.cpu.with_reg(13, sp);
    assert(based.gpr =~= cpu.gpr);
    assert(based == cpu);
    let at = BlockLoad { cpu: based, addr: start, first: true, cost: 0 };
    lemma_load_block_restores(cpu, pushed.bus, rlist, 0, at, internal);
    let done = Core::spec_load_block(pushed.bus, rlist, false, 0, at);
    assert(done.cpu.gpr =~= cpu.gpr);
    assert(done.cpu == cpu);
    let popped = pushed.cpu.spec_block_transfer(pushed.bus, pop);
    assert(popped.cpu == done.cpu);
}

/// A list names no more registers than it is asked about.
pub proof fn lemma_listed_at_most(rlist: u32, n: nat)
    ensures
        listed(rlist, n) <= n,
    decreases n,
{
    if n > 0 {
        lemma_listed_at_most(rlist, (n - 1) as nat);
    }
}

} // verus!
