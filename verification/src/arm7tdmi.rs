//! The ARM7TDMI processor: its registers, its two instruction sets and its
//! exceptions.

pub mod alu;
pub mod arm;
pub mod block;
pub mod exec;
pub mod psr;
pub mod stack;
pub mod thumb;

use crate::arm7tdmi::alu::field;
use crate::arm7tdmi::alu::spec_field;
use crate::arm7tdmi::exec::arm_format;
use crate::arm7tdmi::exec::spec_arm_format;
use crate::arm7tdmi::exec::ArmFormat;
use crate::arm7tdmi::psr::bank_of;
use crate::arm7tdmi::psr::condition_holds;
use crate::arm7tdmi::psr::spec_condition_holds;
use crate::arm7tdmi::thumb::spec_thumb_kind;
use crate::arm7tdmi::thumb::thumb_kind;
use crate::arm7tdmi::thumb::ThumbKind;
use crate::bus::Addr;
use crate::bus::Bus;
use crate::sysbus::same_frame;
use crate::arm7tdmi::psr::spec_bank_of;
use crate::arm7tdmi::psr::Psr;
use crate::arm7tdmi::psr::MODE_ABORT;
use crate::arm7tdmi::psr::MODE_FIQ;
use crate::arm7tdmi::psr::MODE_IRQ;
use crate::arm7tdmi::psr::MODE_SUPERVISOR;
use crate::arm7tdmi::psr::MODE_SYSTEM;
use crate::arm7tdmi::psr::MODE_UNDEFINED;
use crate::arrays::array_of;
use crate::arrays::lemma_array_is;
use crate::iodev::IoDevices;
use crate::sysbus::spec_get_cycles;
use crate::sysbus::MemoryAccess;
use crate::sysbus::MemoryAccessType;
use crate::sysbus::MemoryAccessWidth;
use crate::sysbus::SysBus;
use crate::sysbus::SysBusView;
use vstd::array::spec_array_update;
use vstd::prelude::*;

verus! {

/// Number of the stack pointer.
pub const REG_SP: usize = 13;

/// Number of the link register.
pub const REG_LR: usize = 14;

/// Number of the program counter.
pub const REG_PC: usize = 15;

/// The register bank of fast-interrupt mode, which has registers 8 to 12 of
/// its own.
pub const BANK_FIQ: usize = 1;

/// No step of the processor takes more cycles than this.
pub const MAX_STEP_CYCLES: usize = 512;

/// What can go wrong in a step of the processor.
#[derive(Debug, PartialEq, Eq, Clone, Copy, Structural)]
pub enum CpuError {
    /// The word at `addr` is no instruction.
    UndefinedInstruction { addr: u32, raw: u32 },
    /// The program counter is not aligned as the instruction set in use asks.
    UnalignedPCFetch { addr: u32 },
}

/// The result of an operation of the processor.
pub type CpuResult<T> = Result<T, CpuError>;

/// The exceptions of the processor.
#[derive(Debug, PartialEq, Eq, Clone, Copy, Structural)]
pub enum Exception {
    Reset,
    UndefinedInstruction,
    SoftwareInterrupt,
    PrefetchAbort,
    DataAbort,
    Reserved,
    Irq,
    Fiq,
}

impl Exception {
    /// The address at which the handler of the exception starts.
    pub open spec fn spec_vector(self) -> u32 {
        match self {
            Exception::Reset => 0x00,
            Exception::UndefinedInstruction => 0x04,
            Exception::SoftwareInterrupt => 0x08,
            Exception::PrefetchAbort => 0x0c,
            Exception::DataAbort => 0x10,
            Exception::Reserved => 0x14,
            Exception::Irq => 0x18,
            Exception::Fiq => 0x1c,
        }
    }

    /// The address at which the handler of the exception starts.
    #[verifier::when_used_as_spec(spec_vector)]
    pub fn vector(self) -> (r: u32)
        ensures
            r == self.spec_vector(),
    {
        match self {
            Exception::Reset => 0x00,
            Exception::UndefinedInstruction => 0x04,
            Exception::SoftwareInterrupt => 0x08,
            Exception::PrefetchAbort => 0x0c,
            Exception::DataAbort => 0x10,
            Exception::Reserved => 0x14,
            Exception::Irq => 0x18,
            Exception::Fiq => 0x1c,
        }
    }

    /// The mode in which the handler of the exception runs.
    pub open spec fn spec_mode(self) -> u32 {
        match self {
            Exception::Reset => MODE_SUPERVISOR,
            Exception::UndefinedInstruction => MODE_UNDEFINED,
            Exception::SoftwareInterrupt => MODE_SUPERVISOR,
            Exception::PrefetchAbort => MODE_ABORT,
            Exception::DataAbort => MODE_ABORT,
            Exception::Reserved => MODE_SUPERVISOR,
            Exception::Irq => MODE_IRQ,
            Exception::Fiq => MODE_FIQ,
        }
    }

    /// The mode in which the handler of the exception runs.
    #[verifier::when_used_as_spec(spec_mode)]
    pub fn mode(self) -> (r: u32)
        ensures
            r == self.spec_mode(),
    {
        match self {
            Exception::Reset => MODE_SUPERVISOR,
            Exception::UndefinedInstruction => MODE_UNDEFINED,
            Exception::SoftwareInterrupt => MODE_SUPERVISOR,
            Exception::PrefetchAbort => MODE_ABORT,
            Exception::DataAbort => MODE_ABORT,
            Exception::Reserved => MODE_SUPERVISOR,
            Exception::Irq => MODE_IRQ,
            Exception::Fiq => MODE_FIQ,
        }
    }

    /// Whether the exception masks fast interrupts as well: reset and fast
    /// interrupt do.
    pub open spec fn spec_masks_fiq(self) -> bool {
        self == Exception::Reset || self == Exception::Fiq
    }

    /// Whether the exception masks fast interrupts as well.
    #[verifier::when_used_as_spec(spec_masks_fiq)]
    pub fn masks_fiq(self) -> (r: bool)
        ensures
            r == self.spec_masks_fiq(),
    {
        match self {
            Exception::Reset => true,
            Exception::Fiq => true,
            _ => false,
        }
    }
}

/// The processor.
///
/// The sixteen registers in use are in `gpr`; register 15 holds the address
/// of the instruction that runs next. The registers that a mode has of its
/// own wait in the banks while another mode runs.
#[derive(Debug, Clone, Copy)]
pub struct Core {
    /// The registers in use.
    pub gpr: [u32; 16],
    /// The current program status register.
    pub cpsr: Psr,
    /// The saved program status register of the current mode.
    pub spsr: Psr,
    /// Register 13 of each bank.
    pub gpr_banked_r13: [u32; 6],
    /// Register 14 of each bank.
    pub gpr_banked_r14: [u32; 6],
    /// The saved program status register of each bank.
    pub spsr_bank: [Psr; 6],
    /// Registers 8 to 12 of the modes other than fast interrupt.
    pub gpr_banked_old_r8_12: [u32; 5],
    /// Registers 8 to 12 of fast-interrupt mode.
    pub gpr_fiq_r8_12: [u32; 5],
    /// Cycles run so far; wraps round.
    pub cycles: usize,
}

/// The cycles of one access: one, and the wait cycles of the address.
pub open spec fn cost_of(io: IoDevices, addr: u32, access: MemoryAccess) -> usize {
    (1 + spec_get_cycles(io, addr, access)) as usize
}

/// The access of the given kind that fetches an instruction: a halfword in
/// THUMB code, a word in ARM code.
pub open spec fn fetch_access(kind: MemoryAccessType, thumb: bool) -> MemoryAccess {
    MemoryAccess(
        kind,
        if thumb {
            MemoryAccessWidth::MemoryAccess16
        } else {
            MemoryAccessWidth::MemoryAccess32
        },
    )
}

/// The cycles that it takes to fill the pipeline again after a jump to
/// `target`: two fetches that follow nothing.
pub open spec fn refill_cost(io: IoDevices, target: u32, thumb: bool) -> usize {
    (2 * cost_of(io, target, fetch_access(MemoryAccessType::NonSeq, thumb))) as usize
}

/// `addr` as the program counter holds it: a multiple of two in THUMB code,
/// of four in ARM code.
pub open spec fn aligned_pc(addr: u32, thumb: bool) -> u32 {
    if thumb {
        (addr - addr % 2) as u32
    } else {
        (addr - addr % 4) as u32
    }
}

impl Core {
    /// The processor after a reset: supervisor mode, ARM code, interrupts
    /// masked, and every register zero.
    pub open spec fn spec_new() -> Core {
        let clear = Psr {
            n: false,
            z: false,
            c: false,
            v: false,
            irq_disabled: false,
            fiq_disabled: false,
            thumb: false,
            mode: crate::arm7tdmi::psr::MODE_USER,
        };
        Core {
            gpr: array_of(Seq::new(16, |i: int| 0u32)),
            cpsr: Psr { irq_disabled: true, fiq_disabled: true, mode: MODE_SUPERVISOR, ..clear },
            spsr: clear,
            gpr_banked_r13: array_of(Seq::new(6, |i: int| 0u32)),
            gpr_banked_r14: array_of(Seq::new(6, |i: int| 0u32)),
            spsr_bank: array_of(Seq::new(6, |i: int| clear)),
            gpr_banked_old_r8_12: array_of(Seq::new(5, |i: int| 0u32)),
            gpr_fiq_r8_12: array_of(Seq::new(5, |i: int| 0u32)),
            cycles: 0,
        }
    }

    /// The processor after a reset: supervisor mode, ARM code, interrupts
    /// masked, and every register zero.
    pub fn new() -> (r: Core)
        ensures
            r == Core::spec_new(),
            r.cpsr.mode == MODE_SUPERVISOR,
            r.cpsr.irq_disabled,
            r.cpsr.fiq_disabled,
            !r.cpsr.thumb,
            r.cycles == 0,
            forall|i: int| 0 <= i < 16 ==> r.gpr[i] == 0,
            forall|i: int| 0 <= i < 6 ==> r.gpr_banked_r13[i] == 0 && r.gpr_banked_r14[i] == 0,
    {
        let clear = Psr {
            n: false,
            z: false,
            c: false,
            v: false,
            irq_disabled: false,
            fiq_disabled: false,
            thumb: false,
            mode: crate::arm7tdmi::psr::MODE_USER,
        };
        let r = Core {
            gpr: [0u32; 16],
            cpsr: Psr { irq_disabled: true, fiq_disabled: true, mode: MODE_SUPERVISOR, ..clear },
            spsr: clear,
            gpr_banked_r13: [0u32; 6],
            gpr_banked_r14: [0u32; 6],
            spsr_bank: [clear; 6],
            gpr_banked_old_r8_12: [0u32; 5],
            gpr_fiq_r8_12: [0u32; 5],
            cycles: 0,
        };
        proof {
            lemma_array_is(r.gpr, Seq::new(16, |i: int| 0u32));
            lemma_array_is(r.gpr_banked_r13, Seq::new(6, |i: int| 0u32));
            lemma_array_is(r.gpr_banked_r14, Seq::new(6, |i: int| 0u32));
            lemma_array_is(r.spsr_bank, Seq::new(6, |i: int| clear));
            lemma_array_is(r.gpr_banked_old_r8_12, Seq::new(5, |i: int| 0u32));
            lemma_array_is(r.gpr_fiq_r8_12, Seq::new(5, |i: int| 0u32));
        }
        r
    }

    /// The processor with register `i` set to `value`.
    pub open spec fn with_reg(self, i: int, value: u32) -> Core {
        Core { gpr: spec_array_update(self.gpr, i, value), ..self }
    }

    /// Sets register `i` to `value`.
    pub fn set_reg(&mut self, i: usize, value: u32)
        requires
            i < 16,
        ensures
            *final(self) == old(self).with_reg(i as int, value),
    {
        self.gpr[i] = value;
        assert(self.gpr =~= spec_array_update(old(self).gpr, i as int, value));
    }

    /// Bytes of an instruction: 2 in THUMB code, 4 in ARM code.
    pub open spec fn spec_word_size(&self) -> u32 {
        if self.cpsr.thumb {
            2
        } else {
            4
        }
    }

    /// Bytes of an instruction.
    #[verifier::when_used_as_spec(spec_word_size)]
    pub fn word_size(&self) -> (r: u32)
        ensures
            r == self.spec_word_size(),
    {
        if self.cpsr.thumb {
            2
        } else {
            4
        }
    }

    /// What an instruction reads from register `i`. While an instruction
    /// runs, register 15 holds the address of the instruction after it; read
    /// as an operand it is one instruction further on, which is the address
    /// of the running instruction plus 8 in ARM code and plus 4 in THUMB
    /// code.
    pub open spec fn spec_operand(&self, i: int) -> u32 {
        if i == 15 {
            self.gpr[15].wrapping_add(self.spec_word_size())
        } else {
            self.gpr[i]
        }
    }

    /// What an instruction reads from register `i`.
    pub fn operand(&self, i: usize) -> (r: u32)
        requires
            i < 16,
        ensures
            r == self.spec_operand(i as int),
    {
        if i == 15 {
            self.gpr[15].wrapping_add(self.word_size())
        } else {
            self.gpr[i]
        }
    }

    /// The processor after a jump to `addr`: the program counter holds the
    /// address, aligned for the instruction set in use.
    pub open spec fn jumped(self, addr: u32) -> Core {
        self.with_reg(15, aligned_pc(addr, self.cpsr.thumb))
    }

    /// Jumps to `addr` and returns the cycles that filling the pipeline
    /// takes.
    pub fn branch_to(&mut self, bus: &SysBus, addr: u32) -> (cost: usize)
        ensures
            *final(self) == old(self).jumped(addr),
            cost == refill_cost(bus.io, aligned_pc(addr, old(self).cpsr.thumb), old(self).cpsr.thumb),
            cost <= 22,
    {
        let target: u32 = if self.cpsr.thumb {
            addr - addr % 2
        } else {
            addr - addr % 4
        };
        self.set_reg(REG_PC, target);
        Self::refill(bus, target, self.cpsr.thumb)
    }

    /// The cycles of one access.
    pub fn access_cost(bus: &SysBus, addr: u32, access: MemoryAccess) -> (cost: usize)
        ensures
            cost == cost_of(bus.io, addr, access),
            1 <= cost <= 11,
    {
        1 + bus.get_cycles(addr, access)
    }

    /// The cycles that it takes to fill the pipeline again after a jump to
    /// `target`.
    pub fn refill(bus: &SysBus, target: u32, thumb: bool) -> (cost: usize)
        ensures
            cost == refill_cost(bus.io, target, thumb),
            2 <= cost <= 22,
    {
        let width = if thumb {
            MemoryAccessWidth::MemoryAccess16
        } else {
            MemoryAccessWidth::MemoryAccess32
        };
        2 * Self::access_cost(bus, target, MemoryAccess(MemoryAccessType::NonSeq, width))
    }

    /// The processor after a change to the mode with the bits `mode`.
    ///
    /// Where the new mode uses another bank, registers 13 and 14 and the
    /// saved status register go to the bank of the old mode, and those of the
    /// new mode come in. Registers 8 to 12 are changed as well when the
    /// change leads into fast-interrupt mode or out of it.
    pub open spec fn switched(self, mode: u32) -> Core {
        let old = spec_bank_of(self.cpsr.mode) as int;
        let new = spec_bank_of(mode) as int;
        if old == new {
            Core { cpsr: Psr { mode, ..self.cpsr }, ..self }
        } else {
            let r13s = spec_array_update(self.gpr_banked_r13, old, self.gpr[13]);
            let r14s = spec_array_update(self.gpr_banked_r14, old, self.gpr[14]);
            let spsrs = spec_array_update(self.spsr_bank, old, self.spsr);
            let high: [u32; 5] = array_of(Seq::new(5, |i: int| self.gpr[8 + i]));
            let incoming = if new == BANK_FIQ {
                self.gpr_fiq_r8_12
            } else {
                self.gpr_banked_old_r8_12
            };
            Core {
                gpr: array_of(
                    Seq::new(
                        16,
                        |i: int|
                            if i == 13 {
                                r13s[new]
                            } else if i == 14 {
                                r14s[new]
                            } else if (new == BANK_FIQ || old == BANK_FIQ) && 8 <= i <= 12 {
                                incoming[i - 8]
                            } else {
                                self.gpr[i]
                            },
                    ),
                ),
                cpsr: Psr { mode, ..self.cpsr },
                spsr: spsrs[new],
                gpr_banked_r13: r13s,
                gpr_banked_r14: r14s,
                spsr_bank: spsrs,
                gpr_banked_old_r8_12: if new == BANK_FIQ {
                    high
                } else {
                    self.gpr_banked_old_r8_12
                },
                gpr_fiq_r8_12: if old == BANK_FIQ {
                    high
                } else {
                    self.gpr_fiq_r8_12
                },
                ..self
            }
        }
    }

    /// Changes to the mode with the bits `mode`.
    pub fn change_mode(&mut self, mode: u32)
        ensures
            *final(self) == old(self).switched(mode),
    {
        let from: usize = bank_of(self.cpsr.mode);
        let to: usize = bank_of(mode);
        self.cpsr.mode = mode;
        if from == to {
            return ;
        }
        let ghost start = *self;
        self.gpr_banked_r13[from] = self.gpr[13];
        self.gpr_banked_r14[from] = self.gpr[14];
        self.spsr_bank[from] = self.spsr;
        self.gpr[13] = self.gpr_banked_r13[to];
        self.gpr[14] = self.gpr_banked_r14[to];
        self.spsr = self.spsr_bank[to];
        if to == BANK_FIQ || from == BANK_FIQ {
            let high: [u32; 5] = [
                self.gpr[8],
                self.gpr[9],
                self.gpr[10],
                self.gpr[11],
                self.gpr[12],
            ];
            proof {
                lemma_array_is(high, Seq::new(5, |i: int| old(self).gpr[8 + i]));
            }
            let incoming: [u32; 5] = if to == BANK_FIQ {
                self.gpr_fiq_r8_12
            } else {
                self.gpr_banked_old_r8_12
            };
            if to == BANK_FIQ {
                self.gpr_banked_old_r8_12 = high;
            } else {
                self.gpr_fiq_r8_12 = high;
            }
            self.gpr[8] = incoming[0];
            self.gpr[9] = incoming[1];
            self.gpr[10] = incoming[2];
            self.gpr[11] = incoming[3];
            self.gpr[12] = incoming[4];
        }
        proof {
            let want = old(self).switched(mode);
            let cells = Seq::new(
                16,
                |i: int|
                    if i == 13 {
                        self.gpr_banked_r13[to as int]
                    } else if i == 14 {
                        self.gpr_banked_r14[to as int]
                    } else if (to == BANK_FIQ || from == BANK_FIQ) && 8 <= i <= 12 {
                        (if to == BANK_FIQ {
                            old(self).gpr_fiq_r8_12
                        } else {
                            old(self).gpr_banked_old_r8_12
                        })[i - 8]
                    } else {
                        old(self).gpr[i]
                    },
            );
            assert(self.gpr@ =~= cells);
            lemma_array_is(self.gpr, cells);
            assert(self.gpr_banked_r13 =~= want.gpr_banked_r13);
            assert(self.gpr_banked_r14 =~= want.gpr_banked_r14);
            assert(self.spsr_bank =~= want.spsr_bank);
        }
    }

    /// The processor after it took exception `e`, where `return_addr` is what
    /// the handler finds in its link register.
    ///
    /// The processor changes to the mode of the exception, keeps the old
    /// status register as the saved one of that mode, masks interrupts,
    /// turns to ARM code and goes on at the vector of the exception.
    pub open spec fn entered(self, e: Exception, return_addr: u32) -> Core {
        let s = self.switched(e.spec_mode());
        Core {
            gpr: spec_array_update(spec_array_update(s.gpr, 14, return_addr), 15, e.spec_vector()),
            spsr: self.cpsr,
            cpsr: Psr {
                thumb: false,
                irq_disabled: true,
                fiq_disabled: self.cpsr.fiq_disabled || e.spec_masks_fiq(),
                ..s.cpsr
            },
            ..s
        }
    }

    /// Takes exception `e` and returns the cycles that filling the pipeline
    /// takes.
    pub fn exception(&mut self, bus: &SysBus, e: Exception, return_addr: u32) -> (cost: usize)
        ensures
            *final(self) == old(self).entered(e, return_addr),
            cost == refill_cost(bus.io, e.spec_vector(), false),
            2 <= cost <= 22,
    {
        let saved: Psr = self.cpsr;
        self.change_mode(e.mode());
        self.spsr = saved;
        self.gpr[14] = return_addr;
        self.gpr[15] = e.vector();
        self.cpsr.thumb = false;
        self.cpsr.irq_disabled = true;
        if e.masks_fiq() {
            self.cpsr.fiq_disabled = true;
        }
        assert(self.gpr =~= old(self).entered(e, return_addr).gpr);
        Self::refill(bus, e.vector(), false)
    }

    /// The processor as the BIOS leaves it when it hands over to the
    /// cartridge: system mode, the program counter at the start of the
    /// cartridge, and the stack pointers of user, interrupt and supervisor
    /// mode at their places in the internal work RAM.
    pub open spec fn booted(self) -> Core {
        let s = self.switched(MODE_SYSTEM);
        Core {
            gpr: spec_array_update(spec_array_update(s.gpr, 13, 0x0300_7f00), 15, 0x0800_0000),
            gpr_banked_r13: spec_array_update(
                spec_array_update(
                    spec_array_update(s.gpr_banked_r13, 0, 0x0300_7f00),
                    2,
                    0x0300_7fa0,
                ),
                3,
                0x0300_7fe0,
            ),
            cpsr: Psr { thumb: false, irq_disabled: false, fiq_disabled: false, ..s.cpsr },
            ..s
        }
    }

    /// Puts the processor into the state in which the BIOS hands over to the
    /// cartridge.
    pub fn skip_bios(&mut self)
        ensures
            *final(self) == old(self).booted(),
            final(self).gpr[15] == 0x0800_0000,
            final(self).gpr[13] == 0x0300_7f00,
            final(self).cpsr.mode == MODE_SYSTEM,
            final(self).gpr_banked_r13[0] == 0x0300_7f00,
            final(self).gpr_banked_r13[2] == 0x0300_7fa0,
            final(self).gpr_banked_r13[3] == 0x0300_7fe0,
    {
        self.change_mode(MODE_SYSTEM);
        self.gpr_banked_r13[0] = 0x0300_7f00;
        self.gpr_banked_r13[2] = 0x0300_7fa0;
        self.gpr_banked_r13[3] = 0x0300_7fe0;
        self.gpr[13] = 0x0300_7f00;
        self.gpr[15] = 0x0800_0000;
        self.cpsr.thumb = false;
        self.cpsr.irq_disabled = false;
        self.cpsr.fiq_disabled = false;
        assert(self.gpr =~= old(self).booted().gpr);
        assert(self.gpr_banked_r13 =~= old(self).booted().gpr_banked_r13);
    }
}

/// What a step of the processor was.
#[derive(Debug, PartialEq, Eq, Clone, Copy, Structural)]
pub enum StepKind {
    /// An ARM instruction.
    Arm,
    /// A THUMB instruction.
    Thumb,
    /// The entry into the interrupt handler.
    Interrupt,
}

/// The instruction that a step ran.
#[derive(Debug, PartialEq, Eq, Clone, Copy, Structural)]
pub struct DecodedInstruction {
    /// The address that the program counter held when the step began.
    pub pc: Addr,
    /// The instruction as it was fetched; 0 where none was.
    pub raw: u32,
    /// What the step was.
    pub kind: StepKind,
}

impl DecodedInstruction {
    /// The address of the instruction.
    pub fn get_pc(&self) -> (r: Addr)
        ensures
            r == self.pc,
    {
        self.pc
    }

    /// The instruction as it was fetched.
    pub fn get_raw(&self) -> (r: u32)
        ensures
            r == self.raw,
    {
        self.raw
    }
}

/// What a step of the processor leaves behind.
pub struct Stepped {
    /// The processor.
    pub cpu: Core,
    /// What is behind the bus.
    pub bus: SysBusView,
    /// The cycles that the step took.
    pub cost: usize,
    /// The instruction that the step ran.
    pub insn: DecodedInstruction,
    /// What went wrong, if anything did.
    pub error: Option<CpuError>,
}

/// Whether the THUMB instruction in the low halfword of `t` is none.
pub open spec fn spec_thumb_undefined(t: u32) -> bool {
    match spec_thumb_kind(t) {
        ThumbKind::Undefined => true,
        ThumbKind::Arm(insn) => spec_arm_format(insn) == ArmFormat::Undefined,
        _ => false,
    }
}

impl Core {
    /// The processor with `cost` cycles more on its counter.
    pub open spec fn ticked(self, cost: usize) -> Core {
        Core { cycles: self.cycles.wrapping_add(cost), ..self }
    }

    /// The step that enters the interrupt handler, which will return to the
    /// instruction that would have run.
    pub open spec fn spec_step_interrupt(self, bus: SysBusView) -> Stepped {
        let pc = self.gpr[15];
        let cost = refill_cost(bus.io, Exception::Irq.spec_vector(), false);
        Stepped {
            cpu: self.entered(Exception::Irq, pc.wrapping_add(4)).ticked(cost),
            bus,
            cost,
            insn: DecodedInstruction { pc, raw: 0, kind: StepKind::Interrupt },
            error: None,
        }
    }

    /// The step at a program counter that is not aligned for the instruction
    /// set: the processor takes the undefined-instruction exception.
    pub open spec fn spec_step_unaligned(self, bus: SysBusView) -> Stepped {
        let pc = self.gpr[15];
        let cost = refill_cost(bus.io, Exception::UndefinedInstruction.spec_vector(), false);
        Stepped {
            cpu: self.entered(
                Exception::UndefinedInstruction,
                pc.wrapping_add(self.spec_word_size()),
            ).ticked(cost),
            bus,
            cost,
            insn: DecodedInstruction {
                pc,
                raw: 0,
                kind: if self.cpsr.thumb {
                    StepKind::Thumb
                } else {
                    StepKind::Arm
                },
            },
            error: Some(CpuError::UnalignedPCFetch { addr: pc }),
        }
    }

    /// The step that fetches and runs a THUMB instruction.
    pub open spec fn spec_step_thumb(self, bus: SysBusView) -> Stepped {
        let pc = self.gpr[15];
        let raw = bus.read_16(pc) as u32;
        let fetch = cost_of(bus.io, pc, fetch_access(MemoryAccessType::Sequential, true));
        let o = self.with_reg(15, pc.wrapping_add(2)).spec_execute_thumb(bus, raw);
        let cost = (fetch + o.cost) as usize;
        Stepped {
            cpu: o.cpu.ticked(cost),
            bus: o.bus,
            cost,
            insn: DecodedInstruction { pc, raw, kind: StepKind::Thumb },
            error: if spec_thumb_undefined(raw) {
                Some(CpuError::UndefinedInstruction { addr: pc, raw })
            } else {
                None
            },
        }
    }

    /// The step that fetches an ARM instruction and runs it where its
    /// condition, bits 28 to 31, holds.
    pub open spec fn spec_step_arm(self, bus: SysBusView) -> Stepped {
        let pc = self.gpr[15];
        let raw = bus.read_32(pc);
        let fetch = cost_of(bus.io, pc, fetch_access(MemoryAccessType::Sequential, false));
        let next = self.with_reg(15, pc.wrapping_add(4));
        let insn = DecodedInstruction { pc, raw, kind: StepKind::Arm };
        if spec_condition_holds(spec_field(raw, 28, 0xf), self.cpsr) {
            let o = next.spec_execute_arm(bus, raw);
            let cost = (fetch + o.cost) as usize;
            Stepped {
                cpu: o.cpu.ticked(cost),
                bus: o.bus,
                cost,
                insn,
                error: if spec_arm_format(raw) == ArmFormat::Undefined {
                    Some(CpuError::UndefinedInstruction { addr: pc, raw })
                } else {
                    None
                },
            }
        } else {
            Stepped { cpu: next.ticked(fetch), bus, cost: fetch, insn, error: None }
        }
    }

    /// One step of the processor.
    ///
    /// Where the interrupt line is raised and the processor does not mask
    /// interrupts, the step is the entry into the interrupt handler. Else the
    /// instruction at the program counter is fetched and run: a THUMB
    /// instruction is a halfword, an ARM instruction a word. A program
    /// counter that is not aligned for the instruction set, and a word that
    /// is no instruction, make the processor take the undefined-instruction
    /// exception; both are reported. The fetch and whatever the instruction
    /// does are paid for in cycles.
    pub open spec fn spec_step(self, bus: SysBusView) -> Stepped {
        if bus.io.intc.spec_irq_line() && !self.cpsr.irq_disabled {
            self.spec_step_interrupt(bus)
        } else if self.gpr[15] % self.spec_word_size() != 0 {
            self.spec_step_unaligned(bus)
        } else if self.cpsr.thumb {
            self.spec_step_thumb(bus)
        } else {
            self.spec_step_arm(bus)
        }
    }

    /// Whether the processor `cpu`, the bus `bus` and the result `r` are
    /// what the step `s` leaves behind of a processor whose counter stood at
    /// `cycles`, and the step kept the frame of the graphics unit.
    pub open spec fn step_done(
        s: Stepped,
        cycles: usize,
        before: SysBusView,
        cpu: Core,
        bus: SysBusView,
        r: CpuResult<DecodedInstruction>,
    ) -> bool {
        &&& cpu == s.cpu
        &&& bus == s.bus
        &&& match r {
            Ok(insn) => s.error.is_none() && insn == s.insn,
            Err(e) => s.error == Some(e),
        }
        &&& 1 <= s.cost <= MAX_STEP_CYCLES
        &&& cpu.cycles == cycles.wrapping_add(s.cost)
        &&& same_frame(before, bus)
    }

    /// Whether the THUMB instruction in the low halfword of `t` is none.
    pub fn thumb_undefined(t: u32) -> (r: bool)
        ensures
            r == spec_thumb_undefined(t),
    {
        match thumb_kind(t) {
            ThumbKind::Undefined => true,
            ThumbKind::Arm(insn) => arm_format(insn) == ArmFormat::Undefined,
            _ => false,
        }
    }

    /// Enters the interrupt handler.
    fn step_interrupt(&mut self, bus: &SysBus) -> (r: CpuResult<DecodedInstruction>)
        ensures
            Self::step_done(
                old(self).spec_step_interrupt(bus@),
                old(self).cycles,
                bus@,
                *final(self),
                bus@,
                r,
            ),
    {
        let pc: u32 = self.gpr[15];
        let cost: usize = self.exception(bus, Exception::Irq, pc.wrapping_add(4));
        self.cycles = self.cycles.wrapping_add(cost);
        Ok(DecodedInstruction { pc, raw: 0, kind: StepKind::Interrupt })
    }

    /// Takes the undefined-instruction exception for a program counter that
    /// is not aligned.
    fn step_unaligned(&mut self, bus: &SysBus) -> (r: CpuResult<DecodedInstruction>)
        ensures
            Self::step_done(
                old(self).spec_step_unaligned(bus@),
                old(self).cycles,
                bus@,
                *final(self),
                bus@,
                r,
            ),
    {
        let pc: u32 = self.gpr[15];
        let size: u32 = self.word_size();
        let cost: usize = self.exception(
            bus,
            Exception::UndefinedInstruction,
            pc.wrapping_add(size),
        );
        self.cycles = self.cycles.wrapping_add(cost);
        Err(CpuError::UnalignedPCFetch { addr: pc })
    }

    /// Fetches and runs a THUMB instruction.
    fn step_thumb(&mut self, bus: &mut SysBus) -> (r: CpuResult<DecodedInstruction>)
        ensures
            Self::step_done(
                old(self).spec_step_thumb(old(bus)@),
                old(self).cycles,
                old(bus)@,
                *final(self),
                final(bus)@,
                r,
            ),
    {
        let pc: u32 = self.gpr[15];
        let raw: u32 = bus.read_16(pc) as u32;
        let fetch: usize = Self::access_cost(
            bus,
            pc,
            MemoryAccess(MemoryAccessType::Sequential, MemoryAccessWidth::MemoryAccess16),
        );
        self.set_reg(REG_PC, pc.wrapping_add(2));
        let cost: usize = fetch + self.execute_thumb(bus, raw);
        self.cycles = self.cycles.wrapping_add(cost);
        if Self::thumb_undefined(raw) {
            Err(CpuError::UndefinedInstruction { addr: pc, raw })
        } else {
            Ok(DecodedInstruction { pc, raw, kind: StepKind::Thumb })
        }
    }

    /// Fetches an ARM instruction and runs it where its condition holds.
    fn step_arm(&mut self, bus: &mut SysBus) -> (r: CpuResult<DecodedInstruction>)
        ensures
            Self::step_done(
                old(self).spec_step_arm(old(bus)@),
                old(self).cycles,
                old(bus)@,
                *final(self),
                final(bus)@,
                r,
            ),
    {
        let pc: u32 = self.gpr[15];
        let raw: u32 = bus.read_32(pc);
        let fetch: usize = Self::access_cost(
            bus,
            pc,
            MemoryAccess(MemoryAccessType::Sequential, MemoryAccessWidth::MemoryAccess32),
        );
        let runs: bool = condition_holds(field(raw, 28, 0xf), self.cpsr);
        self.set_reg(REG_PC, pc.wrapping_add(4));
        if runs {
            let cost: usize = fetch + self.execute_arm(bus, raw);
            self.cycles = self.cycles.wrapping_add(cost);
            if arm_format(raw) == ArmFormat::Undefined {
                Err(CpuError::UndefinedInstruction { addr: pc, raw })
            } else {
                Ok(DecodedInstruction { pc, raw, kind: StepKind::Arm })
            }
        } else {
            self.cycles = self.cycles.wrapping_add(fetch);
            Ok(DecodedInstruction { pc, raw, kind: StepKind::Arm })
        }
    }

    /// Runs one step of the processor and says which instruction it ran.
    ///
    /// Every step takes at least one cycle and at most `MAX_STEP_CYCLES`.
    pub fn step_one(&mut self, bus: &mut SysBus) -> (r: CpuResult<DecodedInstruction>)
        ensures
            Self::step_done(
                old(self).spec_step(old(bus)@),
                old(self).cycles,
                old(bus)@,
                *final(self),
                final(bus)@,
                r,
            ),
    {
        if bus.io.intc.irq_line() && !self.cpsr.irq_disabled {
            self.step_interrupt(bus)
        } else if self.gpr[15] % self.word_size() != 0 {
            self.step_unaligned(bus)
        } else if self.cpsr.thumb {
            self.step_thumb(bus)
        } else {
            self.step_arm(bus)
        }
    }

    /// Runs one step of the processor.
    ///
    /// Every step takes at least one cycle and at most `MAX_STEP_CYCLES`.
    pub fn step(&mut self, bus: &mut SysBus) -> (r: CpuResult<()>)
        ensures
            *final(self) == old(self).spec_step(old(bus)@).cpu,
            final(bus)@ == old(self).spec_step(old(bus)@).bus,
            match r {
                Ok(_) => old(self).spec_step(old(bus)@).error.is_none(),
                Err(e) => old(self).spec_step(old(bus)@).error == Some(e),
            },
            1 <= old(self).spec_step(old(bus)@).cost <= MAX_STEP_CYCLES,
            final(self).cycles == old(self).cycles.wrapping_add(
                old(self).spec_step(old(bus)@).cost,
            ),
            final(self).cycles != old(self).cycles,
            same_frame(old(bus)@, final(bus)@),
    {
        match self.step_one(bus) {
            Ok(_) => Ok(()),
            Err(e) => Err(e),
        }
    }

    /// The address of the instruction that runs next.
    pub fn get_next_pc(&self) -> (r: Addr)
        ensures
            r == self.gpr[15],
    {
        self.gpr[15]
    }

    /// Register `i`.
    pub fn get_reg(&self, i: usize) -> (r: u32)
        requires
            i < 16,
        ensures
            r == self.gpr[i as int],
    {
        self.gpr[i]
    }

    /// Puts the processor back into the state after a reset.
    pub fn reset(&mut self)
        ensures
            *final(self) == Core::spec_new(),
    {
        *self = Core::new();
    }
}

} // verus!
