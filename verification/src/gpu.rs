//! The graphics unit: the scanline clock, its registers and the frame buffer.

pub mod mosaic;
pub mod obj;
pub mod affine;
pub mod compose;
pub mod regs;
pub mod render;
pub mod sfx;
pub mod timing;

use crate::arrays::array_of;
use crate::arrays::lemma_array_is;
use crate::gpu::regs::BgControl;
use crate::gpu::regs::DisplayControl;
use crate::gpu::regs::DisplayStatus;
use crate::gpu::regs::RegMosaic;
use crate::gpu::timing::first_phase;
use crate::gpu::timing::lemma_advance_position;
use crate::gpu::timing::CYCLES_FRAME;
use crate::gpu::timing::next_line;
use crate::gpu::timing::GpuState;
use crate::gpu::timing::Timing;
use crate::gpu::timing::CYCLES_HBLANK;
use crate::gpu::timing::CYCLES_HDRAW;
use crate::gpu::timing::CYCLES_SCANLINE;
use crate::gpu::timing::DISPLAY_HEIGHT;
use crate::gpu::timing::LINES_PER_FRAME;
use crate::interrupt::Interrupt;
use crate::sysbus::BoxedMemory;
use vstd::prelude::*;

verus! {

/// The value of a pixel through which the layers behind show.
pub const TRANSPARENT: u16 = 0x8000;

/// The colour of the blanked screen.
pub const WHITE: u16 = 0x7fff;

/// Pixels of a frame: 160 scanlines of 240.
pub const FRAME_PIXELS: usize = 38400;

/// One background layer: its registers, the scanline last drawn for it and
/// the scanline that the mosaic effect repeats.
#[derive(Clone, Copy)]
pub struct Background {
    /// BGxCNT.
    pub bgcnt: BgControl,
    /// BGxHOFS: horizontal scroll.
    pub hofs: u16,
    /// BGxVOFS: vertical scroll.
    pub vofs: u16,
    /// The pixels of the current scanline, `TRANSPARENT` where the layer
    /// shows nothing.
    pub line: [u16; 240],
    /// The scanline that began the current row of mosaic blocks.
    pub mosaic_first_row: [u16; 240],
}

/// The memory that the graphics unit draws from, as the bytes it holds.
pub struct VideoMemory {
    /// Palette RAM.
    pub palette: Seq<u8>,
    /// Video RAM.
    pub vram: Seq<u8>,
}

/// The graphics unit.
pub struct Gpu {
    /// The phase.
    pub state: GpuState,
    /// VCOUNT: the current scanline.
    pub vcount: usize,
    /// Cycles spent in the current phase; in the vertical blank, in the
    /// current scanline.
    pub cycles: usize,
    /// How often the vertical blank was entered; wraps round.
    pub frames: u64,
    /// DISPCNT.
    pub dispcnt: DisplayControl,
    /// DISPSTAT.
    pub dispstat: DisplayStatus,
    /// The four background layers.
    pub bg: [Background; 4],
    /// MOSAIC.
    pub mosaic: RegMosaic,
    /// The rotation and scaling registers of backgrounds 2 and 3, in the
    /// order of their addresses.
    pub affine: [u16; 16],
    /// The reference points of backgrounds 2 and 3 as the unit has moved
    /// them since they were last written: X and Y of background 2, then X
    /// and Y of background 3. The low 28 bits count.
    pub affine_ref: [u32; 4],
    /// WIN0H and WIN1H.
    pub winh: [u16; 2],
    /// WIN0V and WIN1V.
    pub winv: [u16; 2],
    /// WININ.
    pub winin: u16,
    /// WINOUT.
    pub winout: u16,
    /// BLDCNT.
    pub bldcnt: u16,
    /// BLDALPHA.
    pub bldalpha: u16,
    /// BLDY.
    pub bldy: u16,
    /// The pixels that the objects show on the current scanline,
    /// `TRANSPARENT` where they show nothing.
    pub obj_line: [u16; 240],
    /// The priority of the object at each pixel of the current scanline.
    pub obj_priority: [u16; 240],
    /// Whether the object at each pixel of the current scanline is half
    /// transparent.
    pub obj_semi: [bool; 240],
    /// Whether each pixel of the current scanline lies in the object window.
    pub obj_window: [bool; 240],
    /// The picture: 160 scanlines of 240 pixels, each a 15-bit colour with
    /// red in its highest five bits.
    pub frame_buffer: [u16; 38400],
}

/// The requests that the transition at the end of the current phase raises,
/// as a mask of the request register.
///
/// Entering the horizontal blank asks for the HBlank interrupt. Starting a
/// scanline asks for the VBlank interrupt when the scanline is 160, and for
/// the VCount interrupt when the scanline is the one set in DISPSTAT. Each is
/// raised only where DISPSTAT enables it.
pub open spec fn cross_irqs(t: Timing, stat: DisplayStatus) -> u16 {
    match t.state {
        GpuState::HDraw => if stat.hblank_irq_enable {
            Interrupt::HBlank.spec_mask()
        } else {
            0
        },
        _ => {
            let line = next_line(t.vcount);
            let vblank: u16 = if line == DISPLAY_HEIGHT && stat.vblank_irq_enable {
                Interrupt::VBlank.spec_mask()
            } else {
                0
            };
            let vcount: u16 = if line == stat.vcount_setting && stat.vcount_irq_enable {
                Interrupt::VCount.spec_mask()
            } else {
                0
            };
            (vblank + vcount) as u16
        },
    }
}

/// DISPSTAT after the transition at the end of the current phase: the HBlank
/// flag is set in the horizontal blank only, the VBlank flag in the vertical
/// blank only, and the VCount flag is set anew at the start of each scanline.
pub open spec fn cross_status(t: Timing, stat: DisplayStatus) -> DisplayStatus {
    match t.state {
        GpuState::HDraw => DisplayStatus { hblank_flag: true, ..stat },
        _ => DisplayStatus {
            hblank_flag: false,
            vblank_flag: first_phase(next_line(t.vcount)) == GpuState::VBlank,
            vcount_flag: next_line(t.vcount) == stat.vcount_setting,
            ..stat
        },
    }
}

/// The requests that `n` cycles raise, joined to those in `acc`.
pub open spec fn irqs_raised(t: Timing, stat: DisplayStatus, n: nat, acc: u16) -> u16
    decreases n,
{
    if n < t.left() {
        acc
    } else {
        irqs_raised(t.cross(), stat, (n - t.left()) as nat, acc | cross_irqs(t, stat))
    }
}

/// The count of entries into the vertical blank after one more.
pub open spec fn next_frame_count(frames: u64) -> u64 {
    if frames == u64::MAX {
        0
    } else {
        (frames + 1) as u64
    }
}

/// The kept reference points after a scanline was drawn: each has moved by
/// its step.
pub open spec fn moved_references(refs: [u32; 4], affine: [u16; 16]) -> [u32; 4] {
    array_of(
        Seq::new(
            4,
            |i: int|
                crate::gpu::affine::spec_moved_reference(
                    refs[i],
                    affine[crate::gpu::affine::scanline_step_register(i)],
                ),
        ),
    )
}

/// The kept reference points at the start of a frame: each is what its
/// register holds.
pub open spec fn fresh_references(affine: [u16; 16]) -> [u32; 4] {
    array_of(
        Seq::new(
            4,
            |i: int|
                crate::gpu::affine::spec_kept_reference(
                    affine[crate::gpu::affine::reference_register(i)],
                    affine[crate::gpu::affine::reference_register(i) + 1],
                ),
        ),
    )
}

impl Gpu {
    /// The place of the unit in the frame.
    pub open spec fn timing(&self) -> Timing {
        Timing { state: self.state, vcount: self.vcount, cycles: self.cycles }
    }

    /// The unit's clock is in a valid place.
    pub open spec fn wf(&self) -> bool {
        self.timing().wf()
    }

    /// The unit after the transition at the end of the current phase.
    ///
    /// At the end of the drawing phase the scanline is rendered into the
    /// frame buffer, the reference points of the rotated backgrounds move
    /// on by a scanline, and the horizontal blank begins. At the end of a
    /// horizontal blank or of a scanline of the vertical blank the next
    /// scanline begins; the entry into the vertical blank is counted, and
    /// at scanline 0 the reference points start again from their
    /// registers.
    pub open spec fn cross(self, mem: VideoMemory, oam: Seq<u8>) -> Gpu {
        let t = self.timing().cross();
        let stat = cross_status(self.timing(), self.dispstat);
        match self.state {
            GpuState::HDraw => Gpu {
                state: t.state,
                vcount: t.vcount,
                cycles: t.cycles,
                dispstat: stat,
                affine_ref: moved_references(self.affine_ref, self.affine),
                ..self.rendered(mem, oam)
            },
            _ => Gpu {
                state: t.state,
                vcount: t.vcount,
                cycles: t.cycles,
                dispstat: stat,
                frames: if t.vcount == DISPLAY_HEIGHT {
                    next_frame_count(self.frames)
                } else {
                    self.frames
                },
                affine_ref: if t.vcount == 0 {
                    fresh_references(self.affine)
                } else {
                    self.affine_ref
                },
                ..self
            },
        }
    }

    /// The unit `n` cycles later.
    pub open spec fn run(self, mem: VideoMemory, oam: Seq<u8>, n: nat) -> Gpu
        decreases n,
    {
        if n < self.timing().left() {
            Gpu { cycles: (self.cycles + n) as usize, ..self }
        } else {
            self.cross(mem, oam).run(mem, oam, (n - self.timing().left()) as nat)
        }
    }

    /// Whether the unit is as it is when the console is switched on: at the
    /// start of the first frame, with all registers clear, nothing drawn in
    /// any layer and a black picture.
    pub open spec fn is_fresh(self) -> bool {
        &&& self.timing() == (Timing { state: GpuState::HDraw, vcount: 0, cycles: 0 })
        &&& self.frames == 0
        &&& self.dispcnt.0 == 0
        &&& self.dispstat == (DisplayStatus {
            vblank_flag: false,
            hblank_flag: false,
            vcount_flag: false,
            vblank_irq_enable: false,
            hblank_irq_enable: false,
            vcount_irq_enable: false,
            vcount_setting: 0,
        })
        &&& self.mosaic.0 == 0
        &&& self.winin == 0 && self.winout == 0
        &&& self.bldcnt == 0 && self.bldalpha == 0 && self.bldy == 0
        &&& forall|i: int|
            0 <= i < 4 ==> {
                &&& (#[trigger] self.bg[i]).bgcnt.0 == 0
                &&& self.bg[i].hofs == 0
                &&& self.bg[i].vofs == 0
                &&& forall|x: int|
                    0 <= x < 240 ==> self.bg[i].line[x] == TRANSPARENT
                        && self.bg[i].mosaic_first_row[x] == TRANSPARENT
            }
        &&& forall|i: int| 0 <= i < 16 ==> self.affine[i] == 0
        &&& forall|i: int| 0 <= i < 4 ==> self.affine_ref[i] == 0
        &&& forall|i: int| 0 <= i < 2 ==> self.winh[i] == 0 && self.winv[i] == 0
        &&& forall|x: int|
            0 <= x < 240 ==> {
                &&& self.obj_line[x] == TRANSPARENT
                &&& self.obj_priority[x] == 0
                &&& !self.obj_semi[x]
                &&& !self.obj_window[x]
            }
        &&& forall|i: int| 0 <= i < FRAME_PIXELS ==> self.frame_buffer[i] == 0
    }

    /// A unit at the start of the first frame, with all registers clear and a
    /// black picture.
    pub fn new() -> (r: Gpu)
        ensures
            r.wf(),
            r.is_fresh(),
    {
        let layer = Background {
            bgcnt: BgControl(0),
            hofs: 0,
            vofs: 0,
            line: [TRANSPARENT; 240],
            mosaic_first_row: [TRANSPARENT; 240],
        };
        Gpu {
            state: GpuState::HDraw,
            vcount: 0,
            cycles: 0,
            frames: 0,
            dispcnt: DisplayControl(0),
            dispstat: DisplayStatus::new(),
            bg: [layer, layer, layer, layer],
            mosaic: RegMosaic(0),
            affine: [0u16; 16],
            affine_ref: [0u32; 4],
            winh: [0u16; 2],
            winv: [0u16; 2],
            winin: 0,
            winout: 0,
            bldcnt: 0,
            bldalpha: 0,
            bldy: 0,
            obj_line: [TRANSPARENT; 240],
            obj_priority: [0u16; 240],
            obj_semi: [false; 240],
            obj_window: [false; 240],
            frame_buffer: [0u16; 38400],
        }
    }

    /// Whether the unit's clock is in a valid place.
    pub fn is_valid(&self) -> (r: bool)
        ensures
            r == self.wf(),
    {
        match self.state {
            GpuState::HDraw => self.vcount < DISPLAY_HEIGHT && self.cycles < CYCLES_HDRAW,
            GpuState::HBlank => self.vcount < DISPLAY_HEIGHT && self.cycles < CYCLES_HBLANK,
            GpuState::VBlank => DISPLAY_HEIGHT <= self.vcount && self.vcount < LINES_PER_FRAME
                && self.cycles < CYCLES_SCANLINE,
        }
    }

    /// Cycles until the current phase ends.
    pub fn until_boundary(&self) -> (r: usize)
        ensures
            r == self.timing().left(),
            r >= 1,
    {
        let length: usize = match self.state {
            GpuState::HDraw => CYCLES_HDRAW,
            GpuState::HBlank => CYCLES_HBLANK,
            GpuState::VBlank => CYCLES_SCANLINE,
        };
        if self.cycles < length {
            length - self.cycles
        } else {
            1
        }
    }

    /// Makes the transition at the end of the current phase and returns the
    /// interrupt requests that it raises.
    pub fn cross_boundary(
        &mut self,
        palette: &BoxedMemory,
        vram: &BoxedMemory,
        oam: &BoxedMemory,
    ) -> (irqs: u16)
        requires
            old(self).wf(),
        ensures
            *final(self) == old(self).cross(
                VideoMemory { palette: palette.mem@, vram: vram.mem@ },
                oam.mem@,
            ),
            irqs == cross_irqs(old(self).timing(), old(self).dispstat),
            final(self).wf(),
    {
        let ghost mem = VideoMemory { palette: palette.mem@, vram: vram.mem@ };
        proof {
            crate::gpu::timing::lemma_cross(self.timing());
        }
        match self.state {
            GpuState::HDraw => {
                self.render_scanline(palette, vram, oam);
                self.affine_ref = [
                    crate::gpu::affine::moved_reference(self.affine_ref[0], self.affine[1]),
                    crate::gpu::affine::moved_reference(self.affine_ref[1], self.affine[3]),
                    crate::gpu::affine::moved_reference(self.affine_ref[2], self.affine[9]),
                    crate::gpu::affine::moved_reference(self.affine_ref[3], self.affine[11]),
                ];
                proof {
                    lemma_array_is(
                        self.affine_ref,
                        Seq::new(
                            4,
                            |i: int|
                                crate::gpu::affine::spec_moved_reference(
                                    old(self).affine_ref[i],
                                    old(self).affine[crate::gpu::affine::scanline_step_register(i)],
                                ),
                        ),
                    );
                }
                self.state = GpuState::HBlank;
                self.cycles = 0;
                self.dispstat.hblank_flag = true;
                if self.dispstat.hblank_irq_enable {
                    Interrupt::HBlank.mask()
                } else {
                    0
                }
            },
            _ => {
                let line: usize = if self.vcount + 1 >= LINES_PER_FRAME {
                    0
                } else {
                    self.vcount + 1
                };
                let mut irqs: u16 = 0;
                self.vcount = line;
                self.cycles = 0;
                self.dispstat.hblank_flag = false;
                if line >= DISPLAY_HEIGHT {
                    self.state = GpuState::VBlank;
                    self.dispstat.vblank_flag = true;
                } else {
                    self.state = GpuState::HDraw;
                    self.dispstat.vblank_flag = false;
                }
                if line == DISPLAY_HEIGHT {
                    self.frames = self.frames.wrapping_add(1);
                    if self.dispstat.vblank_irq_enable {
                        irqs = irqs + Interrupt::VBlank.mask();
                    }
                }
                if line == 0 {
                    self.affine_ref = [
                        crate::gpu::affine::kept_reference(self.affine[4], self.affine[5]),
                        crate::gpu::affine::kept_reference(self.affine[6], self.affine[7]),
                        crate::gpu::affine::kept_reference(self.affine[12], self.affine[13]),
                        crate::gpu::affine::kept_reference(self.affine[14], self.affine[15]),
                    ];
                    proof {
                        lemma_array_is(
                            self.affine_ref,
                            Seq::new(
                                4,
                                |i: int|
                                    crate::gpu::affine::spec_kept_reference(
                                        old(self).affine[crate::gpu::affine::reference_register(i)],
                                        old(self).affine[crate::gpu::affine::reference_register(i)
                                            + 1],
                                    ),
                            ),
                        );
                    }
                }
                self.dispstat.vcount_flag = line == self.dispstat.vcount_setting as usize;
                if self.dispstat.vcount_flag && self.dispstat.vcount_irq_enable {
                    irqs = irqs + Interrupt::VCount.mask();
                }
                irqs
            },
        }
    }

    /// Runs the unit for `cycles` cycles.
    ///
    /// Returns whether a phase ended on the way, and the interrupt requests
    /// that were raised, as a mask of the request register.
    pub fn step(
        &mut self,
        cycles: usize,
        palette: &BoxedMemory,
        vram: &BoxedMemory,
        oam: &BoxedMemory,
    ) -> (r: (bool, u16))
        requires
            old(self).wf(),
        ensures
            *final(self) == old(self).run(
                VideoMemory { palette: palette.mem@, vram: vram.mem@ },
                oam.mem@,
                cycles as nat,
            ),
            r.0 == (cycles >= old(self).timing().left()),
            r.1 == irqs_raised(old(self).timing(), old(self).dispstat, cycles as nat, 0),
            final(self).wf(),
    {
        let ghost mem = VideoMemory { palette: palette.mem@, vram: vram.mem@ };
        let mut left: usize = cycles;
        let mut irqs: u16 = 0;
        let mut changed: bool = false;
        let mut d: usize = self.until_boundary();
        while left >= d
            invariant
                self.wf(),
                d == self.timing().left(),
                self.run(mem, oam.mem@, left as nat) == old(self).run(mem, oam.mem@, cycles as nat),
                irqs_raised(self.timing(), old(self).dispstat, left as nat, irqs) == irqs_raised(
                    old(self).timing(),
                    old(self).dispstat,
                    cycles as nat,
                    0,
                ),
                self.dispstat.vblank_irq_enable == old(self).dispstat.vblank_irq_enable,
                self.dispstat.hblank_irq_enable == old(self).dispstat.hblank_irq_enable,
                self.dispstat.vcount_irq_enable == old(self).dispstat.vcount_irq_enable,
                self.dispstat.vcount_setting == old(self).dispstat.vcount_setting,
                changed || left == cycles,
                changed ==> cycles >= old(self).timing().left(),
                !changed ==> self.timing() == old(self).timing(),
                mem == (VideoMemory { palette: palette.mem@, vram: vram.mem@ }),
            decreases left,
        {
            left = left - d;
            let raised: u16 = self.cross_boundary(palette, vram, oam);
            irqs = irqs | raised;
            changed = true;
            d = self.until_boundary();
        }
        self.cycles = self.cycles + left;
        (changed, irqs)
    }
}

/// The clock of the unit runs as the scanline clock does, whatever is drawn
/// on the way, and the registers that the processor writes are not touched.
pub proof fn lemma_run_timing(g: Gpu, mem: VideoMemory, oam: Seq<u8>, n: nat)
    ensures
        g.run(mem, oam, n).timing() == g.timing().advance(n),
        g.run(mem, oam, n).dispcnt == g.dispcnt,
        g.run(mem, oam, n).mosaic == g.mosaic,
    decreases n,
{
    if n < g.timing().left() {
    } else {
        lemma_run_timing(g.cross(mem, oam), mem, oam, (n - g.timing().left()) as nat);
    }
}

/// Cycles from the start of a frame to the start of the vertical blank.
pub const CYCLES_VISIBLE: usize = 197120;

/// A unit whose clock is in a valid place is in the vertical blank just when
/// the visible part of the frame lies behind it.
pub proof fn lemma_vblank_by_position(t: Timing)
    requires
        t.wf(),
    ensures
        (t.state == GpuState::VBlank) == (t.position() >= CYCLES_VISIBLE),
        0 <= t.position() < crate::gpu::timing::CYCLES_FRAME,
{
}

/// The vertical blank is entered once in a frame: a run counts one entry
/// just when the start of the vertical blank lies in it. The run must be
/// shorter than the vertical blank is long.
pub proof fn lemma_run_frames(g: Gpu, mem: VideoMemory, oam: Seq<u8>, n: nat)
    requires
        g.wf(),
        n < 83776,
    ensures
        g.run(mem, oam, n).frames == if g.timing().position() < CYCLES_VISIBLE
            && g.timing().position() + n >= CYCLES_VISIBLE {
            next_frame_count(g.frames)
        } else {
            g.frames
        },
    decreases n,
{
    let t = g.timing();
    crate::gpu::timing::lemma_cross(t);
    if n < t.left() {
    } else {
        let next = g.cross(mem, oam);
        assert(next.timing() == t.cross());
        lemma_run_frames(next, mem, oam, (n - t.left()) as nat);
    }
}

/// One call of `step`: what the video memory holds while it runs, and the
/// cycles that it is given.
pub struct StepInput {
    pub mem: VideoMemory,
    pub oam: Seq<u8>,
    pub cycles: nat,
}

/// The cycles of each step, in order.
pub open spec fn cycles_of(steps: Seq<StepInput>) -> Seq<nat> {
    Seq::new(steps.len(), |i: int| steps[i].cycles)
}

impl Gpu {
    /// The unit after one call of `step` for each entry of `steps`, in
    /// order.
    pub open spec fn run_all(self, steps: Seq<StepInput>) -> Gpu
        decreases steps.len(),
    {
        if steps.len() == 0 {
            self
        } else {
            self.run(steps[0].mem, steps[0].oam, steps[0].cycles).run_all(steps.drop_first())
        }
    }
}

/// How often the vertical blank begins in the `n` cycles that follow the
/// place `p` cycles after the start of a frame.
pub open spec fn blanks_begun(p: int, n: nat) -> int {
    (p + n + CYCLES_FRAME - CYCLES_VISIBLE) / (CYCLES_FRAME as int) - (p + CYCLES_FRAME
        - CYCLES_VISIBLE) / (CYCLES_FRAME as int)
}

/// The count of entries into the vertical blank after `k` more.
pub open spec fn frame_count_after(frames: u64, k: int) -> u64 {
    ((frames + k) % 0x1_0000_0000_0000_0000) as u64
}

/// The clock of the unit runs through a sequence of steps as the scanline
/// clock does, whatever the video memory holds on the way.
pub proof fn lemma_run_all_timing(g: Gpu, steps: Seq<StepInput>)
    ensures
        g.run_all(steps).timing() == g.timing().advance_all(cycles_of(steps)),
    decreases steps.len(),
{
    if steps.len() > 0 {
        lemma_run_timing(g, steps[0].mem, steps[0].oam, steps[0].cycles);
        lemma_run_all_timing(
            g.run(steps[0].mem, steps[0].oam, steps[0].cycles),
            steps.drop_first(),
        );
        assert(cycles_of(steps).drop_first() =~= cycles_of(steps.drop_first()));
    }
}

/// Steps of any size that add up to the cycles of one scanline move the unit
/// to the same place of the next scanline: the scanline counter is one
/// higher and the phase is the same.
///
/// Scanlines 159 and 227 are left out: the former is followed by the vertical
/// blank and the latter by scanline 0 of the next frame.
pub proof fn lemma_scanline_of_steps(g: Gpu, steps: Seq<StepInput>)
    requires
        g.wf(),
        crate::gpu::timing::total(cycles_of(steps)) == CYCLES_SCANLINE,
        g.vcount != DISPLAY_HEIGHT - 1,
        g.vcount != LINES_PER_FRAME - 1,
    ensures
        g.run_all(steps).vcount == g.vcount + 1,
        g.run_all(steps).state == g.state,
        g.run_all(steps).cycles == g.cycles,
{
    lemma_run_all_timing(g, steps);
    crate::gpu::timing::lemma_scanline_period(g.timing(), cycles_of(steps));
}

/// A run counts an entry into the vertical blank each time the start of the
/// vertical blank lies in it.
pub proof fn lemma_run_counts_blanks(g: Gpu, mem: VideoMemory, oam: Seq<u8>, n: nat)
    requires
        g.wf(),
    ensures
        g.run(mem, oam, n).frames == frame_count_after(
            g.frames,
            blanks_begun(g.timing().position(), n),
        ),
        0 <= blanks_begun(g.timing().position(), n),
    decreases n,
{
    let t = g.timing();
    let p = t.position();
    crate::gpu::timing::lemma_cross(t);
    lemma_vblank_by_position(t);
    if n < t.left() {
        lemma_blanks_begun_near(p, n);
    } else {
        let next = g.cross(mem, oam);
        let rest = (n - t.left()) as nat;
        assert(next.timing() == t.cross());
        lemma_run_counts_blanks(next, mem, oam, rest);
        lemma_blanks_begun_adds(p, t.left() as nat, rest);
        lemma_blanks_begun_near(p, t.left() as nat);
        let here = blanks_begun(p, t.left() as nat);
        let there = blanks_begun(t.cross().position(), rest);
        lemma_frame_count_adds(g.frames, here, there);
    }
}

/// Within the frame, or up to the end of the vertical blank that follows a
/// place in the visible part, the vertical blank begins once if its start is
/// reached from before, and not at all otherwise.
proof fn lemma_blanks_begun_near(p: int, n: nat)
    requires
        0 <= p < CYCLES_FRAME,
        p + n <= CYCLES_FRAME,
    ensures
        blanks_begun(p, n) == if p < CYCLES_VISIBLE && p + n >= CYCLES_VISIBLE {
            1int
        } else {
            0int
        },
{
}

/// The entries of a run are those of its first part and those of the rest,
/// which begins at the place that the first part ends in.
proof fn lemma_blanks_begun_adds(p: int, a: nat, b: nat)
    requires
        0 <= p < CYCLES_FRAME,
    ensures
        blanks_begun(p, a + b) == blanks_begun(p, a) + blanks_begun(
            (p + a) % (CYCLES_FRAME as int),
            b,
        ),
        0 <= blanks_begun(p, a),
{
    let f = CYCLES_FRAME as int;
    let d = CYCLES_FRAME - CYCLES_VISIBLE;
    let turns = (p + a) / f;
    let place = (p + a) % f;
    assert(p + a == f * turns + place) by {
        vstd::arithmetic::div_mod::lemma_fundamental_div_mod(p + a, f);
    }
    assert((place + b + d + f * turns) / f == (place + b + d) / f + turns) by {
        vstd::arithmetic::div_mod::lemma_div_plus_one(place + b + d, f);
        vstd::arithmetic::div_mod::lemma_hoist_over_denominator(place + b + d, turns, f as nat);
    }
    assert((place + d + f * turns) / f == (place + d) / f + turns) by {
        vstd::arithmetic::div_mod::lemma_hoist_over_denominator(place + d, turns, f as nat);
    }
    assert((p + d) / f <= (p + a + d) / f) by {
        vstd::arithmetic::div_mod::lemma_div_is_ordered(p + d, p + a + d, f);
    }
}

/// Counting `a` entries and then `b` is counting `a + b`.
proof fn lemma_frame_count_adds(frames: u64, a: int, b: int)
    requires
        0 <= a,
        0 <= b,
    ensures
        frame_count_after(frame_count_after(frames, a), b) == frame_count_after(frames, a + b),
        frame_count_after(frames, 0) == frames,
        frame_count_after(frames, 1) == next_frame_count(frames),
{
    let m = 0x1_0000_0000_0000_0000int;
    vstd::arithmetic::div_mod::lemma_add_mod_noop(frames + a, b, m);
    vstd::arithmetic::div_mod::lemma_mod_twice(frames + a, m);
    vstd::arithmetic::div_mod::lemma_add_mod_noop((frames + a) % m, b, m);
}

/// A sequence of steps counts an entry into the vertical blank each time
/// the start of the vertical blank lies in its cycles.
pub proof fn lemma_run_all_counts_blanks(g: Gpu, steps: Seq<StepInput>)
    requires
        g.wf(),
    ensures
        g.run_all(steps).frames == frame_count_after(
            g.frames,
            blanks_begun(g.timing().position(), crate::gpu::timing::total(cycles_of(steps))),
        ),
        0 <= blanks_begun(g.timing().position(), crate::gpu::timing::total(cycles_of(steps))),
    decreases steps.len(),
{
    let p = g.timing().position();
    crate::gpu::timing::lemma_cross(g.timing());
    if steps.len() == 0 {
        lemma_blanks_begun_near(p, 0);
        lemma_frame_count_adds(g.frames, 0, 0);
    } else {
        let first = steps[0];
        let next = g.run(first.mem, first.oam, first.cycles);
        let rest = crate::gpu::timing::total(cycles_of(steps.drop_first()));
        assert(cycles_of(steps).drop_first() =~= cycles_of(steps.drop_first()));
        lemma_run_timing(g, first.mem, first.oam, first.cycles);
        lemma_advance_position(g.timing(), first.cycles);
        lemma_run_counts_blanks(g, first.mem, first.oam, first.cycles);
        lemma_run_all_counts_blanks(next, steps.drop_first());
        lemma_blanks_begun_adds(p, first.cycles, rest);
        lemma_frame_count_adds(
            g.frames,
            blanks_begun(p, first.cycles),
            blanks_begun(next.timing().position(), rest),
        );
    }
}

/// Steps of any size that add up to the cycles of one frame take the unit
/// into the vertical blank exactly once, and back to the place in the frame
/// at which it was.
pub proof fn lemma_frame_of_steps(g: Gpu, steps: Seq<StepInput>)
    requires
        g.wf(),
        crate::gpu::timing::total(cycles_of(steps)) == CYCLES_FRAME,
    ensures
        g.run_all(steps).frames == next_frame_count(g.frames),
        g.run_all(steps).timing() == g.timing(),
{
    lemma_run_all_counts_blanks(g, steps);
    lemma_run_all_timing(g, steps);
    crate::gpu::timing::lemma_frame_period(g.timing(), cycles_of(steps));
    crate::gpu::timing::lemma_cross(g.timing());
    lemma_frame_count_adds(g.frames, 1, 0);
    assert(blanks_begun(g.timing().position(), CYCLES_FRAME as nat) == 1);
}

} // verus!
