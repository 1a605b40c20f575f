//! The scanline clock: where in the frame the graphics unit is, and where it
//! is a number of cycles later.
//!
//! A frame has 228 scanlines of 1232 cycles. A visible scanline (0 to 159)
//! is drawn for 960 cycles and then blanked for 272; the last 68 scanlines
//! are the vertical blank.

use vstd::prelude::*;

verus! {

/// Cycles of the drawing phase of a visible scanline.
pub const CYCLES_HDRAW: usize = 960;

/// Cycles of the horizontal blank of a visible scanline.
pub const CYCLES_HBLANK: usize = 272;

/// Cycles of a whole scanline.
pub const CYCLES_SCANLINE: usize = 1232;

/// Pixels of a scanline.
pub const DISPLAY_WIDTH: usize = 240;

/// Visible scanlines of a frame.
pub const DISPLAY_HEIGHT: usize = 160;

/// Scanlines of a frame, the vertical blank included.
pub const LINES_PER_FRAME: usize = 228;

/// Cycles of a whole frame: 228 scanlines of 1232 cycles.
pub const CYCLES_FRAME: usize = 280896;

/// The phase of the graphics unit.
#[derive(Debug, PartialEq, Eq, Clone, Copy, Structural)]
pub enum GpuState {
    /// A visible scanline is being drawn.
    HDraw,
    /// The horizontal blank that follows the drawing of a visible scanline.
    HBlank,
    /// The vertical blank, scanlines 160 to 227.
    VBlank,
}

/// The place of the graphics unit in the frame.
#[derive(Debug, PartialEq, Eq, Clone, Copy, Structural)]
pub struct Timing {
    /// The phase.
    pub state: GpuState,
    /// The current scanline.
    pub vcount: usize,
    /// Cycles spent in the current phase; in the vertical blank, in the
    /// current scanline.
    pub cycles: usize,
}

/// The scanline that follows scanline `vcount`.
pub open spec fn next_line(vcount: usize) -> usize {
    if vcount + 1 >= LINES_PER_FRAME {
        0
    } else {
        (vcount + 1) as usize
    }
}

/// The phase in which a scanline starts.
pub open spec fn first_phase(vcount: usize) -> GpuState {
    if vcount >= DISPLAY_HEIGHT {
        GpuState::VBlank
    } else {
        GpuState::HDraw
    }
}

impl Timing {
    /// The places that the clock can be in: a visible scanline is in its
    /// drawing phase or its horizontal blank, a scanline from 160 on in the
    /// vertical blank, and the cycle counter is below the length of the
    /// phase.
    pub open spec fn wf(self) -> bool {
        match self.state {
            GpuState::HDraw => self.vcount < DISPLAY_HEIGHT && self.cycles < CYCLES_HDRAW,
            GpuState::HBlank => self.vcount < DISPLAY_HEIGHT && self.cycles < CYCLES_HBLANK,
            GpuState::VBlank => DISPLAY_HEIGHT <= self.vcount < LINES_PER_FRAME && self.cycles
                < CYCLES_SCANLINE,
        }
    }

    /// Length of the current phase in cycles.
    pub open spec fn phase_length(self) -> int {
        match self.state {
            GpuState::HDraw => CYCLES_HDRAW as int,
            GpuState::HBlank => CYCLES_HBLANK as int,
            GpuState::VBlank => CYCLES_SCANLINE as int,
        }
    }

    /// Cycles until the current phase ends; at least one.
    pub open spec fn left(self) -> int {
        if self.cycles < self.phase_length() {
            self.phase_length() - self.cycles
        } else {
            1
        }
    }

    /// The place at which the phase after the current one begins.
    ///
    /// The drawing phase is followed by the horizontal blank of the same
    /// scanline. A horizontal blank and a scanline of the vertical blank are
    /// followed by the next scanline: scanline 160 begins the vertical blank,
    /// and after scanline 227 the frame starts again at scanline 0.
    pub open spec fn cross(self) -> Timing {
        match self.state {
            GpuState::HDraw => Timing { state: GpuState::HBlank, vcount: self.vcount, cycles: 0 },
            _ => Timing {
                state: first_phase(next_line(self.vcount)),
                vcount: next_line(self.vcount),
                cycles: 0,
            },
        }
    }

    /// The place `n` cycles later.
    pub open spec fn advance(self, n: nat) -> Timing
        decreases n,
    {
        if n < self.left() {
            Timing { cycles: (self.cycles + n) as usize, ..self }
        } else {
            self.cross().advance((n - self.left()) as nat)
        }
    }

    /// Cycles since the frame began.
    pub open spec fn position(self) -> int {
        self.vcount * CYCLES_SCANLINE + self.cycles + if self.state == GpuState::HBlank {
            CYCLES_HDRAW as int
        } else {
            0
        }
    }

    /// The place after one step for each entry of `steps`, in order.
    pub open spec fn advance_all(self, steps: Seq<nat>) -> Timing
        decreases steps.len(),
    {
        if steps.len() == 0 {
            self
        } else {
            self.advance(steps[0]).advance_all(steps.drop_first())
        }
    }
}

/// The sum of the entries of `steps`.
pub open spec fn total(steps: Seq<nat>) -> nat
    decreases steps.len(),
{
    if steps.len() == 0 {
        0
    } else {
        steps[0] + total(steps.drop_first())
    }
}

/// Crossing into the next phase keeps the clock in a valid place and moves it
/// on by the cycles that were left, the frame wrapping round at its end.
pub proof fn lemma_cross(t: Timing)
    requires
        t.wf(),
    ensures
        t.cross().wf(),
        t.cross().position() == (t.position() + t.left()) % (CYCLES_FRAME as int),
        0 <= t.position() < CYCLES_FRAME,
        t.position() + t.left() <= CYCLES_FRAME,
{
}

/// A valid place is known by its distance from the start of the frame.
pub proof fn lemma_position_determines(a: Timing, b: Timing)
    requires
        a.wf(),
        b.wf(),
        a.position() == b.position(),
    ensures
        a == b,
{
    let pa = a.position();
    assert(a.vcount == pa / (CYCLES_SCANLINE as int));
    assert(b.vcount == pa / (CYCLES_SCANLINE as int));
}

/// The clock runs evenly: `n` cycles move a valid place to the valid place
/// that lies `n` cycles further on in the frame, counted round its end.
pub proof fn lemma_advance_position(t: Timing, n: nat)
    requires
        t.wf(),
    ensures
        t.advance(n).wf(),
        t.advance(n).position() == (t.position() + n) % (CYCLES_FRAME as int),
    decreases n,
{
    lemma_cross(t);
    if n < t.left() {
    } else {
        let rest = (n - t.left()) as nat;
        lemma_advance_position(t.cross(), rest);
        if t.position() + t.left() == CYCLES_FRAME {
            vstd::arithmetic::div_mod::lemma_mod_add_multiples_vanish(
                rest as int,
                CYCLES_FRAME as int,
            );
        }
    }
}

/// Two steps in a row are one step of their sum.
pub proof fn lemma_advance_adds(t: Timing, a: nat, b: nat)
    ensures
        t.advance(a).advance(b) == t.advance(a + b),
    decreases a,
{
    if a < t.left() {
        let mid = Timing { cycles: (t.cycles + a) as usize, ..t };
        assert(mid.cross() == t.cross());
        if b < mid.left() {
        } else {
            assert((b - mid.left()) as nat == (a + b - t.left()) as nat);
        }
    } else {
        lemma_advance_adds(t.cross(), (a - t.left()) as nat, b);
        assert((a - t.left()) as nat + b == (a + b - t.left()) as nat);
    }
}

/// Any number of steps in a row are one step of their sum.
pub proof fn lemma_advance_all_is_total(t: Timing, steps: Seq<nat>)
    ensures
        t.advance_all(steps) == t.advance(total(steps)),
    decreases steps.len(),
{
    if steps.len() == 0 {
    } else {
        lemma_advance_all_is_total(t.advance(steps[0]), steps.drop_first());
        lemma_advance_adds(t, steps[0], total(steps.drop_first()));
    }
}

/// One scanline's worth of cycles, in steps of any size, moves the clock to
/// the same place of the next scanline: the scanline counter is one higher
/// and the phase is the same.
///
/// Scanlines 159 and 227 are left out: the former is followed by the vertical
/// blank and the latter by scanline 0 of the next frame.
pub proof fn lemma_scanline_period(t: Timing, steps: Seq<nat>)
    requires
        t.wf(),
        total(steps) == CYCLES_SCANLINE,
        t.vcount != DISPLAY_HEIGHT - 1,
        t.vcount != LINES_PER_FRAME - 1,
    ensures
        t.advance_all(steps).vcount == t.vcount + 1,
        t.advance_all(steps).state == t.state,
        t.advance_all(steps).cycles == t.cycles,
{
    lemma_advance_all_is_total(t, steps);
    lemma_advance_position(t, CYCLES_SCANLINE as nat);
    let next = Timing { vcount: (t.vcount + 1) as usize, ..t };
    assert(next.wf());
    assert(next.position() == t.position() + CYCLES_SCANLINE);
    lemma_cross(next);
    vstd::arithmetic::div_mod::lemma_small_mod(
        next.position() as nat,
        CYCLES_FRAME as nat,
    );
    lemma_position_determines(t.advance(CYCLES_SCANLINE as nat), next);
}

/// One frame's worth of cycles, in steps of any size, brings the clock back
/// to where it was.
pub proof fn lemma_frame_period(t: Timing, steps: Seq<nat>)
    requires
        t.wf(),
        total(steps) == CYCLES_FRAME,
    ensures
        t.advance_all(steps) == t,
{
    lemma_advance_all_is_total(t, steps);
    lemma_advance_position(t, CYCLES_FRAME as nat);
    lemma_cross(t);
    vstd::arithmetic::div_mod::lemma_mod_add_multiples_vanish(
        t.position(),
        CYCLES_FRAME as int,
    );
    vstd::arithmetic::div_mod::lemma_small_mod(t.position() as nat, CYCLES_FRAME as nat);
    lemma_position_determines(t.advance(CYCLES_FRAME as nat), t);
}

} // verus!
