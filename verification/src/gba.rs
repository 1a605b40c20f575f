//! The console as a whole: the processor, the bus with everything behind it,
//! and the loop that runs them for one frame.

use crate::arm7tdmi::Core;
use crate::arm7tdmi::CpuError;
use crate::arm7tdmi::DecodedInstruction;
use crate::arm7tdmi::Stepped;
use crate::arm7tdmi::MAX_STEP_CYCLES;
use crate::cartridge::Cartridge;
use crate::gpu::lemma_run_frames;
use crate::gpu::lemma_run_timing;
use crate::gpu::lemma_vblank_by_position;
use crate::gpu::next_frame_count;
use crate::gpu::irqs_raised;
use crate::gpu::timing::lemma_advance_position;
use crate::gpu::timing::GpuState;
use crate::gpu::timing::CYCLES_FRAME;
use crate::gpu::Gpu;
use crate::gpu::VideoMemory;
use crate::gpu::CYCLES_VISIBLE;
use crate::interrupt::InterruptController;
use crate::interrupt::IRQ_MASK;
use crate::iodev::IoDevices;
use crate::keypad::KEYINPUT_ALL_RELEASED;
use crate::sysbus::same_frame;
use crate::sysbus::SysBus;
use crate::sysbus::SysBusView;
use crate::sysbus::BIOS_SIZE;
use crate::sysbus::INTERNAL_RAM_SIZE;
use crate::sysbus::OAM_SIZE;
use crate::sysbus::PALETTE_RAM_SIZE;
use crate::sysbus::VIDEO_RAM_SIZE;
use crate::sysbus::WORK_RAM_SIZE;
use vstd::prelude::*;

verus! {

/// What can go wrong in the console.
#[derive(Debug, PartialEq, Eq, Clone, Copy, Structural)]
pub enum GBAError {
    /// The processor reported an error.
    CpuError(CpuError),
}

/// The result of an operation of the console.
pub type GBAResult<T> = Result<T, GBAError>;

/// The console.
pub struct GameBoyAdvance {
    /// The processor.
    pub cpu: Core,
    /// The bus with everything behind it.
    pub sysbus: SysBus,
    /// The key-input word as the host last reported it. The host writes it
    /// between frames; the console takes it over at the start of a frame.
    pub key_state: u16,
    /// The error that the processor reported last, if it ever reported one.
    pub last_error: Option<CpuError>,
}

/// What is behind the bus after the graphics unit ran for `cycles` cycles
/// and its interrupt requests reached the interrupt controller.
pub open spec fn peripherals_after(bus: SysBusView, cycles: usize) -> SysBusView {
    let mem = VideoMemory { palette: bus.palette, vram: bus.vram };
    let raised = irqs_raised(bus.io.gpu.timing(), bus.io.gpu.dispstat, cycles as nat, 0);
    SysBusView {
        io: IoDevices {
            gpu: bus.io.gpu.run(mem, bus.oam, cycles as nat),
            intc: InterruptController {
                interrupt_flags: bus.io.intc.interrupt_flags | (raised & IRQ_MASK),
                ..bus.io.intc
            },
            ..bus.io
        },
        ..bus
    }
}

/// What is behind the bus after a single step of the console: where the
/// processor ran an instruction, the graphics unit has run for as many
/// cycles as it took; where it reported an error, the graphics unit has not
/// run.
pub open spec fn bus_after_step(stepped: Stepped) -> SysBusView {
    if stepped.error.is_some() {
        stepped.bus
    } else {
        peripherals_after(stepped.bus, stepped.cost)
    }
}

/// The console as the frame loop sees it: the processor, what is behind the
/// bus, the key-input word of the host and the last error.
pub struct Console {
    pub cpu: Core,
    pub bus: SysBusView,
    pub key_state: u16,
    pub last_error: Option<CpuError>,
}

impl Console {
    /// The console after one turn of the frame loop: the processor runs one
    /// step, then the graphics unit runs for as many cycles as the step took
    /// and hands its interrupt requests to the interrupt controller. An
    /// error that the processor reports is kept.
    #[verifier::opaque]
    pub open spec fn turned(self) -> Console {
        let s = self.cpu.spec_step(self.bus);
        Console {
            cpu: s.cpu,
            bus: peripherals_after(s.bus, s.cost),
            last_error: match s.error {
                Some(e) => Some(e),
                None => self.last_error,
            },
            ..self
        }
    }

    /// The console after `n` turns of the frame loop.
    pub open spec fn turned_n(self, n: nat) -> Console
        decreases n,
    {
        if n == 0 {
            self
        } else {
            self.turned_n((n - 1) as nat).turned()
        }
    }

    /// Whether the graphics unit is in the vertical blank.
    pub open spec fn in_vblank(self) -> bool {
        self.bus.io.gpu.state == GpuState::VBlank
    }

    /// Whether `n` turns are the fewest after which the graphics unit is in
    /// the vertical blank (`blank` set) or outside of it (`blank` clear).
    pub open spec fn first_turn(self, n: nat, blank: bool) -> bool {
        &&& self.turned_n(n).in_vblank() == blank
        &&& forall|k: nat| k < n ==> (#[trigger] self.turned_n(k)).in_vblank() != blank
    }

    /// The console after the key-input word of the host was taken over into
    /// the key-input register.
    pub open spec fn keys_taken(self) -> Console {
        Console {
            bus: SysBusView { io: IoDevices { keyinput: self.key_state, ..self.bus.io }, ..self.bus },
            ..self
        }
    }

    /// Whether `end` is the console after a frame that began with `self`:
    /// the keys are taken over, then the loop turns until the vertical blank
    /// begins, and on until it is over.
    pub open spec fn frame_ends_in(self, end: Console) -> bool {
        exists|n: nat, m: nat|
            {
                &&& self.keys_taken().first_turn(n, true)
                &&& (#[trigger] self.keys_taken().turned_n(n)).first_turn(m, false)
                &&& end == (#[trigger] self.keys_taken().turned_n(n).turned_n(m))
            }
    }
}

impl View for GameBoyAdvance {
    type V = Console;

    open spec fn view(&self) -> Console {
        Console {
            cpu: self.cpu,
            bus: self.sysbus@,
            key_state: self.key_state,
            last_error: self.last_error,
        }
    }
}

impl GameBoyAdvance {
    /// Every block of memory has its size and the clock of the graphics unit
    /// is in a valid place.
    pub open spec fn wf(&self) -> bool {
        self.sysbus@.wf()
    }

    /// Runs one turn of the frame loop: one step of the processor, then the
    /// graphics unit for as many cycles as the step took.
    pub fn turn(&mut self)
        requires
            old(self).wf(),
        ensures
            final(self).wf(),
            final(self)@ == old(self)@.turned(),
            final(self).sysbus@ == peripherals_after(
                old(self).cpu.spec_step(old(self).sysbus@).bus,
                old(self).cpu.spec_step(old(self).sysbus@).cost,
            ),
            final(self).key_state == old(self).key_state,
            same_frame(old(self).sysbus@, old(self).cpu.spec_step(old(self).sysbus@).bus),
            1 <= old(self).cpu.spec_step(old(self).sysbus@).cost <= MAX_STEP_CYCLES,
    {
        reveal(Console::turned);
        let cycles: usize = self.emulate_cpu();
        self.emulate_peripherals(cycles);
    }

    /// A console with the given processor, BIOS and cartridge, with all RAM
    /// zeroed, no key held and the graphics unit at the start of a frame.
    pub fn new(cpu: Core, bios_rom: Vec<u8>, gamepak: Cartridge) -> (r: GameBoyAdvance)
        ensures
            r.wf(),
            r.cpu == cpu,
            r.key_state == KEYINPUT_ALL_RELEASED,
            r.last_error.is_none(),
            r.sysbus@.io.is_fresh(),
            r.sysbus@.rom == gamepak.bytes@,
            r.sysbus@.bios == Seq::new(
                BIOS_SIZE as nat,
                |i: int|
                    if i < bios_rom.len() {
                        bios_rom[i]
                    } else {
                        0u8
                    },
            ),
            r.sysbus@.ewram == Seq::new(WORK_RAM_SIZE as nat, |i: int| 0u8),
            r.sysbus@.iwram == Seq::new(INTERNAL_RAM_SIZE as nat, |i: int| 0u8),
            r.sysbus@.palette == Seq::new(PALETTE_RAM_SIZE as nat, |i: int| 0u8),
            r.sysbus@.vram == Seq::new(VIDEO_RAM_SIZE as nat, |i: int| 0u8),
            r.sysbus@.oam == Seq::new(OAM_SIZE as nat, |i: int| 0u8),
    {
        let io = IoDevices::new();
        let sysbus = SysBus::new(io, bios_rom, gamepak);
        GameBoyAdvance { cpu, sysbus, key_state: KEYINPUT_ALL_RELEASED, last_error: None }
    }

    /// Whether every block of memory has its size and the clock of the
    /// graphics unit is in a valid place.
    pub fn is_valid(&self) -> (r: bool)
        ensures
            r == self.wf(),
    {
        self.sysbus.is_valid()
    }

    /// Puts the processor into the state in which the BIOS hands over to the
    /// cartridge.
    pub fn skip_bios(&mut self)
        ensures
            final(self).cpu == old(self).cpu.booted(),
            final(self).sysbus == old(self).sysbus,
            final(self).key_state == old(self).key_state,
            final(self).last_error == old(self).last_error,
    {
        self.cpu.skip_bios();
    }

    /// Takes the key-input word that the host reported over into the
    /// key-input register.
    pub fn update_key_state(&mut self)
        ensures
            final(self).sysbus@ == (SysBusView {
                io: IoDevices { keyinput: old(self).key_state, ..old(self).sysbus@.io },
                ..old(self).sysbus@
            }),
            final(self).cpu == old(self).cpu,
            final(self).key_state == old(self).key_state,
            final(self).last_error == old(self).last_error,
            same_frame(old(self).sysbus@, final(self).sysbus@),
    {
        self.sysbus.io.keyinput = self.key_state;
    }

    /// Runs one step of the processor and returns the cycles that it took.
    /// An error that the processor reports is kept in `last_error`.
    pub fn emulate_cpu(&mut self) -> (cycles: usize)
        ensures
            final(self).cpu == old(self).cpu.spec_step(old(self).sysbus@).cpu,
            final(self).sysbus@ == old(self).cpu.spec_step(old(self).sysbus@).bus,
            cycles == old(self).cpu.spec_step(old(self).sysbus@).cost,
            1 <= cycles <= MAX_STEP_CYCLES,
            final(self).last_error == match old(self).cpu.spec_step(old(self).sysbus@).error {
                Some(e) => Some(e),
                None => old(self).last_error,
            },
            final(self).key_state == old(self).key_state,
            same_frame(old(self).sysbus@, final(self).sysbus@),
    {
        let previous_cycles: usize = self.cpu.cycles;
        match self.cpu.step(&mut self.sysbus) {
            Ok(_) => {},
            Err(e) => {
                self.last_error = Some(e);
            },
        }
        self.cpu.cycles.wrapping_sub(previous_cycles)
    }

    /// Runs the graphics unit for `cycles` cycles and hands the interrupt
    /// requests that it raises to the interrupt controller.
    pub fn emulate_peripherals(&mut self, cycles: usize)
        requires
            old(self).wf(),
        ensures
            final(self).sysbus@ == peripherals_after(old(self).sysbus@, cycles),
            final(self).cpu == old(self).cpu,
            final(self).key_state == old(self).key_state,
            final(self).last_error == old(self).last_error,
            final(self).wf(),
    {
        let (_, irqs) = self.sysbus.io.gpu.step(
            cycles,
            &self.sysbus.palette_ram,
            &self.sysbus.vram,
            &self.sysbus.oam,
        );
        if irqs != 0 {
            self.sysbus.io.intc.request_irqs(irqs);
        } else {
            let ghost flags = self.sysbus.io.intc.interrupt_flags;
            assert(flags | (0u16 & 0x3fff) == flags) by (bit_vector);
        }
    }

    /// Runs the processor and the graphics unit in turn, the graphics unit
    /// for as many cycles as the step of the processor took, until the
    /// graphics unit is in the vertical blank. The picture in the frame
    /// buffer is complete then.
    pub fn run_until_vblank(&mut self)
        requires
            old(self).wf(),
        ensures
            final(self).wf(),
            exists|n: nat|
                old(self)@.first_turn(n, true) && final(self)@ == #[trigger] old(self)@.turned_n(n),
            final(self).sysbus.io.gpu.state == GpuState::VBlank,
            final(self).sysbus.io.gpu.frames == if old(self).sysbus.io.gpu.state
                != GpuState::VBlank {
                next_frame_count(old(self).sysbus.io.gpu.frames)
            } else {
                old(self).sysbus.io.gpu.frames
            },
            final(self).key_state == old(self).key_state,
            final(self).sysbus@.rom == old(self).sysbus@.rom,
            final(self).sysbus@.bios == old(self).sysbus@.bios,
    {
        let ghost start = self@;
        let ghost was_blank = self.sysbus.io.gpu.state == GpuState::VBlank;
        let ghost frames = self.sysbus.io.gpu.frames;
        let ghost mut turns: nat = 0;
        while self.sysbus.io.gpu.state != GpuState::VBlank
            invariant
                self.wf(),
                start == old(self)@,
                self@ == start.turned_n(turns),
                forall|k: nat| k < turns ==> !(#[trigger] start.turned_n(k)).in_vblank(),
                self.key_state == old(self).key_state,
                self.sysbus@.rom == old(self).sysbus@.rom,
                self.sysbus@.bios == old(self).sysbus@.bios,
                self.sysbus.io.gpu.frames == if !was_blank && self.sysbus.io.gpu.state
                    == GpuState::VBlank {
                    next_frame_count(frames)
                } else {
                    frames
                },
                was_blank == (old(self).sysbus.io.gpu.state == GpuState::VBlank),
                was_blank ==> turns == 0,
            decreases CYCLES_FRAME - self.sysbus.io.gpu.timing().position(),
        {
            let ghost gpu = self.sysbus.io.gpu;
            let ghost stepped = self.cpu.spec_step(self.sysbus@);
            self.turn();
            proof {
                let mem = VideoMemory { palette: stepped.bus.palette, vram: stepped.bus.vram };
                let cycles = stepped.cost as nat;
                lemma_run_timing(stepped.bus.io.gpu, mem, stepped.bus.oam, cycles);
                lemma_advance_position(gpu.timing(), cycles);
                lemma_run_frames(stepped.bus.io.gpu, mem, stepped.bus.oam, cycles);
                lemma_vblank_by_position(gpu.timing());
                lemma_vblank_by_position(gpu.timing().advance(cycles));
                turns = turns + 1;
            }
        }
    }

    /// Runs the processor and the graphics unit in turn until the graphics
    /// unit has left the vertical blank. The frame buffer is not written to
    /// on the way.
    pub fn run_through_vblank(&mut self)
        requires
            old(self).wf(),
        ensures
            final(self).wf(),
            exists|n: nat|
                old(self)@.first_turn(n, false) && final(self)@ == #[trigger] old(self)@.turned_n(
                    n,
                ),
            final(self).sysbus.io.gpu.state != GpuState::VBlank,
            final(self).sysbus.io.gpu.frames == old(self).sysbus.io.gpu.frames,
            final(self).key_state == old(self).key_state,
            final(self).sysbus@.rom == old(self).sysbus@.rom,
            final(self).sysbus@.bios == old(self).sysbus@.bios,
    {
        let ghost start = self@;
        let ghost mut turns: nat = 0;
        while self.sysbus.io.gpu.state == GpuState::VBlank
            invariant
                self.wf(),
                start == old(self)@,
                self@ == start.turned_n(turns),
                forall|k: nat| k < turns ==> (#[trigger] start.turned_n(k)).in_vblank(),
                self.key_state == old(self).key_state,
                self.sysbus@.rom == old(self).sysbus@.rom,
                self.sysbus@.bios == old(self).sysbus@.bios,
                self.sysbus.io.gpu.frames == old(self).sysbus.io.gpu.frames,
            decreases
                    (if self.sysbus.io.gpu.state == GpuState::VBlank {
                        CYCLES_FRAME - self.sysbus.io.gpu.timing().position()
                    } else {
                        0
                    }),
        {
            let ghost gpu = self.sysbus.io.gpu;
            let ghost stepped = self.cpu.spec_step(self.sysbus@);
            self.turn();
            proof {
                let mem = VideoMemory { palette: stepped.bus.palette, vram: stepped.bus.vram };
                let cycles = stepped.cost as nat;
                lemma_run_timing(stepped.bus.io.gpu, mem, stepped.bus.oam, cycles);
                lemma_advance_position(gpu.timing(), cycles);
                lemma_run_frames(stepped.bus.io.gpu, mem, stepped.bus.oam, cycles);
                lemma_vblank_by_position(gpu.timing());
                lemma_vblank_by_position(gpu.timing().advance(cycles));
                turns = turns + 1;
            }
        }
    }

    /// Runs the console for one frame.
    ///
    /// The key-input word is taken over. Then the processor and the graphics
    /// unit run in turn until the vertical blank begins, and on until it is
    /// over. The picture in the frame buffer is complete from the beginning
    /// of the vertical blank on and is so when the call returns. An error of
    /// the processor does not end the frame.
    ///
    /// A frame that begins outside the vertical blank enters the vertical
    /// blank exactly once.
    pub fn frame(&mut self)
        requires
            old(self).wf(),
        ensures
            final(self).wf(),
            old(self)@.frame_ends_in(final(self)@),
            final(self).sysbus.io.gpu.state != GpuState::VBlank,
            final(self).sysbus.io.gpu.frames == if old(self).sysbus.io.gpu.state
                != GpuState::VBlank {
                next_frame_count(old(self).sysbus.io.gpu.frames)
            } else {
                old(self).sysbus.io.gpu.frames
            },
            final(self).key_state == old(self).key_state,
            final(self).sysbus@.rom == old(self).sysbus@.rom,
            final(self).sysbus@.bios == old(self).sysbus@.bios,
    {
        self.update_key_state();
        let ghost begun = self@;
        assert(begun == old(self)@.keys_taken());
        self.run_until_vblank();
        let ghost blank = self@;
        self.run_through_vblank();
        proof {
            let n = choose|n: nat| begun.first_turn(n, true) && blank == #[trigger] begun.turned_n(n);
            let m = choose|m: nat|
                blank.first_turn(m, false) && self@ == #[trigger] blank.turned_n(m);
            assert(begun.turned_n(n).first_turn(m, false));
            assert(self@ == begun.turned_n(n).turned_n(m));
        }
    }

    /// Runs one step of the processor and, unless the processor reports an
    /// error, the graphics unit for the cycles that the step took. Returns
    /// the instruction that ran, or the error.
    pub fn step(&mut self) -> (r: GBAResult<DecodedInstruction>)
        requires
            old(self).wf(),
        ensures
            final(self).wf(),
            final(self).cpu == old(self).cpu.spec_step(old(self).sysbus@).cpu,
            final(self).sysbus@ == bus_after_step(old(self).cpu.spec_step(old(self).sysbus@)),
            match r {
                Ok(insn) => old(self).cpu.spec_step(old(self).sysbus@).error.is_none() && insn
                    == old(self).cpu.spec_step(old(self).sysbus@).insn,
                Err(e) => old(self).cpu.spec_step(old(self).sysbus@).error matches Some(c) && e
                    == GBAError::CpuError(c),
            },
            final(self).key_state == old(self).key_state,
            final(self).last_error == old(self).last_error,
    {
        let previous_cycles: usize = self.cpu.cycles;
        match self.cpu.step_one(&mut self.sysbus) {
            Ok(insn) => {
                let cycles: usize = self.cpu.cycles.wrapping_sub(previous_cycles);
                self.emulate_peripherals(cycles);
                Ok(insn)
            },
            Err(e) => Err(GBAError::CpuError(e)),
        }
    }

    /// The picture: 160 scanlines of 240 pixels, each a 15-bit colour.
    pub fn get_frame_buffer(&self) -> (r: &[u16; 38400])
        ensures
            *r == self.sysbus.io.gpu.frame_buffer,
    {
        &self.sysbus.io.gpu.frame_buffer
    }
}

} // verus!
