//! Putting the layers of one scanline together: which layers a pixel may
//! show, which layer is in front, and what the colour effects make of it.
//!
//! The layers are the four backgrounds, the objects and the backdrop, the
//! colour of palette entry 0, which lies behind everything.

use crate::arrays::array_of;
use crate::arrays::lemma_array_is;
use crate::gpu::regs::flag;
use crate::gpu::render::color_at;
use crate::gpu::render::read_color;
use crate::gpu::sfx::blend;
use crate::gpu::sfx::brighten;
use crate::gpu::sfx::coefficient;
use crate::gpu::sfx::darken;
use crate::gpu::sfx::in_span;
use crate::gpu::sfx::spec_blend;
use crate::gpu::sfx::spec_brighten;
use crate::gpu::sfx::spec_coefficient;
use crate::gpu::sfx::spec_darken;
use crate::gpu::sfx::spec_in_span;
use crate::gpu::sfx::spec_to_rgb555;
use crate::gpu::sfx::to_rgb555;
use crate::gpu::Gpu;
use crate::gpu::VideoMemory;
use crate::gpu::FRAME_PIXELS;
use crate::gpu::TRANSPARENT;
use crate::sysbus::BoxedMemory;
use vstd::prelude::*;

verus! {

/// The number of the layer of the objects.
pub const LAYER_OBJ: usize = 4;

/// The number of the backdrop.
pub const LAYER_BACKDROP: usize = 5;

/// What a window lets through where no window is switched on: every layer
/// and the colour effects.
pub const EVERYTHING: u16 = 0x3f;

/// The weight of the bit that stands for `layer` in the window and blend
/// registers: bits 0 to 3 for the backgrounds, bit 4 for the objects, bit 5
/// for the backdrop or, in the window registers, for the colour effects.
pub open spec fn spec_layer_bit(layer: int) -> int {
    if layer == 0 {
        1
    } else if layer == 1 {
        2
    } else if layer == 2 {
        4
    } else if layer == 3 {
        8
    } else if layer == 4 {
        16
    } else {
        32
    }
}

/// The weight of the bit that stands for `layer`.
pub fn layer_bit(layer: usize) -> (r: u16)
    ensures
        r == spec_layer_bit(layer as int),
        1 <= r <= 32,
{
    if layer == 0 {
        1
    } else if layer == 1 {
        2
    } else if layer == 2 {
        4
    } else if layer == 3 {
        8
    } else if layer == 4 {
        16
    } else {
        32
    }
}

/// What the colour effects make of the colour `ct` of the layer `top` in
/// front, with the colour `cs` of the layer `second` right behind it.
///
/// BLDCNT names the layers that the effect applies to in front (bits 0 to 5)
/// and behind (bits 8 to 13), and the effect (bits 6 and 7): none, blending
/// of the two layers by the weights of BLDALPHA, brightening or darkening of
/// the front layer by the weight of BLDY. A half-transparent object in front
/// is blended with a layer behind that BLDCNT names, whatever the effect.
/// Where the window does not let the effects through (`enabled` clear) the
/// colour stays.
pub open spec fn spec_effect(
    bldcnt: u16,
    bldalpha: u16,
    bldy: u16,
    enabled: bool,
    semi: bool,
    top: int,
    second: int,
    ct: u16,
    cs: u16,
) -> u16 {
    let mode = (bldcnt / 64) % 4;
    let first = flag(bldcnt, spec_layer_bit(top));
    let behind = flag(bldcnt, 256 * spec_layer_bit(second));
    if !enabled {
        ct
    } else if (semi || (mode == 1 && first)) && behind {
        spec_blend(ct, cs, spec_coefficient(bldalpha), spec_coefficient(bldalpha / 256))
    } else if mode == 2 && first {
        spec_brighten(ct, spec_coefficient(bldy))
    } else if mode == 3 && first {
        spec_darken(ct, spec_coefficient(bldy))
    } else {
        ct
    }
}

/// Applies the colour effects to a pixel.
pub fn effect(
    bldcnt: u16,
    bldalpha: u16,
    bldy: u16,
    enabled: bool,
    semi: bool,
    top: usize,
    second: usize,
    ct: u16,
    cs: u16,
) -> (r: u16)
    ensures
        r == spec_effect(bldcnt, bldalpha, bldy, enabled, semi, top as int, second as int, ct, cs),
{
    let mode: u16 = (bldcnt / 64) % 4;
    let first: bool = (bldcnt / layer_bit(top)) % 2 == 1;
    let behind: bool = (bldcnt / (256 * layer_bit(second))) % 2 == 1;
    if !enabled {
        ct
    } else if (semi || (mode == 1 && first)) && behind {
        blend(ct, cs, coefficient(bldalpha), coefficient(bldalpha / 256))
    } else if mode == 2 && first {
        brighten(ct, coefficient(bldy))
    } else if mode == 3 && first {
        darken(ct, coefficient(bldy))
    } else {
        ct
    }
}

impl Gpu {
    /// Whether pixel `x` of the current scanline lies in window `w`, whose
    /// registers hold its left and top edge in their high byte and the pixel
    /// after its right and bottom edge in their low byte.
    pub open spec fn in_window(&self, w: int, x: int) -> bool {
        spec_in_span(x, self.winh[w] as int / 256, self.winh[w] as int % 256) && spec_in_span(
            self.vcount as int,
            self.winv[w] as int / 256,
            self.winv[w] as int % 256,
        )
    }

    /// What pixel `x` of the current scanline may show: one bit for each
    /// background, one for the objects and one for the colour effects.
    ///
    /// Where DISPCNT switches no window on, everything. Else what WININ says
    /// for the first window that the pixel lies in, window 0 before window 1;
    /// what the high byte of WINOUT says for a pixel in the object window;
    /// and what the low byte of WINOUT says for a pixel outside all windows.
    pub open spec fn window_flags(&self, x: int) -> u16 {
        if self.dispcnt.0 < 0x2000 {
            EVERYTHING
        } else if flag(self.dispcnt.0, 0x2000) && self.in_window(0, x) {
            self.winin % 64
        } else if flag(self.dispcnt.0, 0x4000) && self.in_window(1, x) {
            (self.winin / 256) % 64
        } else if flag(self.dispcnt.0, 0x8000) && self.obj_window[x] {
            (self.winout / 256) % 64
        } else {
            self.winout % 64
        }
    }

    /// Whether pixel `x` lies in window `w`.
    pub fn is_in_window(&self, w: usize, x: usize) -> (r: bool)
        requires
            w < 2,
            x < 240,
            self.vcount < 160,
        ensures
            r == self.in_window(w as int, x as int),
    {
        in_span(x as u32, (self.winh[w] / 256) as u32, (self.winh[w] % 256) as u32) && in_span(
            self.vcount as u32,
            (self.winv[w] / 256) as u32,
            (self.winv[w] % 256) as u32,
        )
    }

    /// What pixel `x` of the current scanline may show.
    pub fn window_flags_at(&self, x: usize) -> (r: u16)
        requires
            x < 240,
            self.vcount < 160,
        ensures
            r == self.window_flags(x as int),
            r < 64,
    {
        if self.dispcnt.0 < 0x2000 {
            EVERYTHING
        } else if (self.dispcnt.0 / 0x2000) % 2 == 1 && self.is_in_window(0, x) {
            self.winin % 64
        } else if (self.dispcnt.0 / 0x4000) % 2 == 1 && self.is_in_window(1, x) {
            (self.winin / 256) % 64
        } else if (self.dispcnt.0 / 0x8000) % 2 == 1 && self.obj_window[x] {
            (self.winout / 256) % 64
        } else {
            self.winout % 64
        }
    }

    /// Whether `layer`, a background or the objects, shows a pixel at `x`
    /// where the window lets `flags` through.
    pub open spec fn layer_shows(&self, layer: int, x: int, flags: u16) -> bool {
        if layer < 4 {
            self.lit(layer) && flag(flags, spec_layer_bit(layer)) && self.bg[layer].line[x]
                != TRANSPARENT
        } else {
            self.dispcnt.spec_disp_obj() && flag(flags, 16) && self.obj_line[x] != TRANSPARENT
        }
    }

    /// Whether `layer` shows a pixel at `x`.
    pub fn does_layer_show(&self, layer: usize, x: usize, flags: u16) -> (r: bool)
        requires
            layer < 5,
            x < 240,
        ensures
            r == self.layer_shows(layer as int, x as int, flags),
    {
        if layer < 4 {
            self.is_lit(layer) && (flags / layer_bit(layer)) % 2 == 1 && self.bg[layer].line[x]
                != TRANSPARENT
        } else {
            self.dispcnt.disp_obj() && (flags / 16) % 2 == 1 && self.obj_line[x] != TRANSPARENT
        }
    }

    /// Where `layer` stands in the drawing order at pixel `x`: lower is
    /// further in front. The priority decides; of two layers of one priority
    /// the objects are in front of a background, and a background of a lower
    /// number in front of one of a higher.
    pub open spec fn layer_rank(&self, layer: int, x: int) -> int {
        if layer < 4 {
            8 * self.bg[layer].bgcnt.spec_priority() + 1 + layer
        } else {
            8 * (self.obj_priority[x] % 4)
        }
    }

    /// Where `layer` stands in the drawing order at pixel `x`.
    pub fn rank_of(&self, layer: usize, x: usize) -> (r: usize)
        requires
            layer < 5,
            x < 240,
        ensures
            r == self.layer_rank(layer as int, x as int),
    {
        if layer < 4 {
            8 * (self.bg[layer].bgcnt.priority() as usize) + 1 + layer
        } else {
            8 * ((self.obj_priority[x] % 4) as usize)
        }
    }

    /// Among the first `n` layers but `skip`, the one that shows a pixel at
    /// `x` and is furthest in front; the backdrop if none shows one.
    pub open spec fn front(&self, x: int, flags: u16, n: nat, skip: int) -> int
        decreases n,
    {
        if n == 0 {
            LAYER_BACKDROP as int
        } else {
            let f = self.front(x, flags, (n - 1) as nat, skip);
            let layer = n - 1;
            if layer != skip && self.layer_shows(layer, x, flags) && (f == LAYER_BACKDROP
                || self.layer_rank(layer, x) < self.layer_rank(f, x)) {
                layer
            } else {
                f
            }
        }
    }

    /// Among the layers but `skip`, the one that shows a pixel at `x` and is
    /// furthest in front.
    pub fn front_layer(&self, x: usize, flags: u16, skip: usize) -> (f: usize)
        requires
            x < 240,
        ensures
            f == self.front(x as int, flags, 5, skip as int),
            f <= LAYER_BACKDROP,
            f != LAYER_BACKDROP ==> f != skip,
    {
        let mut f: usize = LAYER_BACKDROP;
        for n in 0..5usize
            invariant
                x < 240,
                f == self.front(x as int, flags, n as nat, skip as int),
                f <= LAYER_BACKDROP,
                f != LAYER_BACKDROP ==> f != skip && f < n,
        {
            if n != skip && self.does_layer_show(n, x, flags) {
                if f == LAYER_BACKDROP || self.rank_of(n, x) < self.rank_of(f, x) {
                    f = n;
                }
            }
        }
        f
    }

    /// The colour of `layer` at pixel `x`, the backdrop having the colour
    /// `backdrop`.
    pub open spec fn layer_color(&self, layer: int, x: int, backdrop: u16) -> u16 {
        if layer < 4 {
            self.bg[layer].line[x]
        } else if layer == 4 {
            self.obj_line[x]
        } else {
            backdrop
        }
    }

    /// The colour of `layer` at pixel `x`.
    pub fn color_of(&self, layer: usize, x: usize, backdrop: u16) -> (r: u16)
        requires
            x < 240,
        ensures
            r == self.layer_color(layer as int, x as int, backdrop),
    {
        if layer < 4 {
            self.bg[layer].line[x]
        } else if layer == 4 {
            self.obj_line[x]
        } else {
            backdrop
        }
    }

    /// The colour of pixel `x` of the current scanline in the frame buffer:
    /// the colour of the layer that is in front among those that the window
    /// lets through, after the colour effects, with red and blue in the
    /// places that the frame buffer gives them.
    pub open spec fn final_pixel(&self, x: int, backdrop: u16) -> u16 {
        let flags = self.window_flags(x);
        let top = self.front(x, flags, 5, 6);
        let second = self.front(x, flags, 5, top);
        spec_to_rgb555(
            spec_effect(
                self.bldcnt,
                self.bldalpha,
                self.bldy,
                flag(flags, 32),
                top == LAYER_OBJ && self.obj_semi[x],
                top,
                second,
                self.layer_color(top, x, backdrop),
                self.layer_color(second, x, backdrop),
            ),
        )
    }

    /// Works out the colour of pixel `x` of the current scanline.
    pub fn pixel_at(&self, x: usize, backdrop: u16) -> (r: u16)
        requires
            x < 240,
            self.vcount < 160,
        ensures
            r == self.final_pixel(x as int, backdrop),
    {
        let flags: u16 = self.window_flags_at(x);
        let top: usize = self.front_layer(x, flags, 6);
        let second: usize = self.front_layer(x, flags, top);
        to_rgb555(
            effect(
                self.bldcnt,
                self.bldalpha,
                self.bldy,
                (flags / 32) % 2 == 1,
                top == LAYER_OBJ && self.obj_semi[x],
                top,
                second,
                self.color_of(top, x, backdrop),
                self.color_of(second, x, backdrop),
            ),
        )
    }

    /// The unit after the layers were put together into the current scanline
    /// of the frame buffer.
    pub open spec fn composed(self, mem: VideoMemory) -> Gpu {
        Gpu {
            frame_buffer: array_of(
                Seq::new(
                    FRAME_PIXELS as nat,
                    |i: int|
                        if 240 * self.vcount <= i < 240 * self.vcount + 240 {
                            self.final_pixel(i - 240 * self.vcount, color_at(mem.palette, 0))
                        } else {
                            self.frame_buffer[i]
                        },
                ),
            ),
            ..self
        }
    }

    /// Puts the layers together into the current scanline of the frame
    /// buffer.
    pub fn compose(&mut self, palette: &BoxedMemory)
        requires
            old(self).vcount < 160,
        ensures
            forall|vram: Seq<u8>|
                *final(self) == #[trigger] old(self).composed(
                    VideoMemory { palette: palette.mem@, vram },
                ),
    {
        let backdrop: u16 = read_color(palette, 0);
        let base: usize = 240 * self.vcount;
        for x in 0..240usize
            invariant
                base == 240 * old(self).vcount,
                old(self).vcount < 160,
                backdrop == color_at(palette.mem@, 0),
                *self == (Gpu { frame_buffer: self.frame_buffer, ..*old(self) }),
                forall|i: int|
                    0 <= i < FRAME_PIXELS ==> #[trigger] self.frame_buffer[i] == if base <= i < base
                        + x {
                        old(self).final_pixel(i - base, backdrop)
                    } else {
                        old(self).frame_buffer[i]
                    },
        {
            proof {
                lemma_final_pixel_reads_layers(*old(self), *self, x as int, backdrop);
            }
            let c: u16 = self.pixel_at(x, backdrop);
            self.frame_buffer[base + x] = c;
        }
        proof {
            lemma_array_is(
                self.frame_buffer,
                Seq::new(
                    FRAME_PIXELS as nat,
                    |i: int|
                        if 240 * old(self).vcount <= i < 240 * old(self).vcount + 240 {
                            old(self).final_pixel(i - 240 * old(self).vcount, backdrop)
                        } else {
                            old(self).frame_buffer[i]
                        },
                ),
            );
        }
    }
}

/// Which layer is in front does not depend on the frame buffer.
pub proof fn lemma_front_reads_layers(a: Gpu, b: Gpu, x: int, flags: u16, n: nat, skip: int)
    requires
        b == (Gpu { frame_buffer: b.frame_buffer, ..a }),
    ensures
        a.front(x, flags, n, skip) == b.front(x, flags, n, skip),
    decreases n,
{
    if n > 0 {
        lemma_front_reads_layers(a, b, x, flags, (n - 1) as nat, skip);
    }
}

/// The colour of a pixel does not depend on the frame buffer.
pub proof fn lemma_final_pixel_reads_layers(a: Gpu, b: Gpu, x: int, backdrop: u16)
    requires
        b == (Gpu { frame_buffer: b.frame_buffer, ..a }),
    ensures
        a.final_pixel(x, backdrop) == b.final_pixel(x, backdrop),
{
    let flags = a.window_flags(x);
    lemma_front_reads_layers(a, b, x, flags, 5, 6);
    lemma_front_reads_layers(a, b, x, flags, 5, a.front(x, flags, 5, 6));
}

} // verus!
