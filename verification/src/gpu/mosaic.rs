//! The mosaic effect: a background is shown in blocks, each block in the
//! colour of its top left pixel.

use crate::arrays::array_of;
use crate::arrays::lemma_array_is;
use crate::gpu::regs::RegMosaic;
use crate::gpu::Background;
use crate::gpu::Gpu;
use vstd::prelude::*;

verus! {

impl RegMosaic {
    /// Whether the register asks for blocks larger than one pixel.
    pub open spec fn spec_is_enabled_for_bg(&self) -> bool {
        self.spec_bg_hsize() != 0 || self.spec_bg_vsize() != 0
    }

    /// Whether the register asks for background blocks larger than one pixel.
    #[verifier::when_used_as_spec(spec_is_enabled_for_bg)]
    pub fn is_enabled_for_bg(&self) -> (r: bool)
        ensures
            r == self.spec_is_enabled_for_bg(),
    {
        (self.bg_hsize() != 0) || (self.bg_vsize() != 0)
    }
}

impl Gpu {
    /// Whether the mosaic effect applies to background `bg`: DISPCNT shows
    /// the background and its BGxCNT asks for the effect.
    pub open spec fn mosaic_applies(&self, bg: int) -> bool {
        self.dispcnt.spec_disp_bg(bg as usize) && self.bg[bg].bgcnt.spec_mosaic()
    }

    /// Background `bg` after the effect.
    ///
    /// On a scanline that begins a row of blocks the line is kept as the row
    /// to repeat. Every pixel of the line then takes the colour that the kept
    /// row has at the left edge of the pixel's block.
    pub open spec fn mosaic_layer(&self, bg: int) -> Background {
        let hsize = self.mosaic.spec_bg_hsize() + 1;
        let vsize = self.mosaic.spec_bg_vsize() + 1;
        let first = if (self.vcount as int) % vsize == 0 {
            self.bg[bg].line
        } else {
            self.bg[bg].mosaic_first_row
        };
        Background {
            mosaic_first_row: first,
            line: array_of(Seq::new(240, |x: int| first[x - x % hsize])),
            ..self.bg[bg]
        }
    }

    /// The unit after the effect was applied to every background that it
    /// applies to.
    pub open spec fn mosaic_all(self) -> Gpu {
        Gpu {
            bg: array_of(
                Seq::new(
                    4,
                    |i: int|
                        if self.mosaic_applies(i) {
                            self.mosaic_layer(i)
                        } else {
                            self.bg[i]
                        },
                ),
            ),
            ..self
        }
    }

    /// Applies the effect to every background that it applies to.
    pub fn mosaic_bg(&mut self)
        ensures
            *final(self) == old(self).mosaic_all(),
    {
        let hsize: usize = (self.mosaic.bg_hsize() + 1) as usize;
        let vsize: usize = (self.mosaic.bg_vsize() + 1) as usize;
        for bg in 0..4usize
            invariant
                hsize == old(self).mosaic.spec_bg_hsize() + 1,
                vsize == old(self).mosaic.spec_bg_vsize() + 1,
                *self == (Gpu { bg: self.bg, ..*old(self) }),
                forall|j: int|
                    0 <= j < bg ==> #[trigger] self.bg[j] == if old(self).mosaic_applies(j) {
                        old(self).mosaic_layer(j)
                    } else {
                        old(self).bg[j]
                    },
                forall|j: int| bg <= j < 4 ==> #[trigger] self.bg[j] == old(self).bg[j],
        {
            if self.dispcnt.disp_bg(bg) && self.bg[bg].bgcnt.mosaic() {
                let y: usize = self.vcount;
                if y % vsize == 0 {
                    self.bg[bg].mosaic_first_row = self.bg[bg].line;
                }
                let ghost before = self.bg;
                let ghost first = self.bg[bg as int].mosaic_first_row;
                for x in 0..240usize
                    invariant
                        bg < 4,
                        1 <= hsize <= 16,
                        *self == (Gpu { bg: self.bg, ..*old(self) }),
                        forall|j: int| 0 <= j < 4 && j != bg ==> #[trigger] self.bg[j] == before[j],
                        self.bg[bg as int] == (Background {
                            line: self.bg[bg as int].line,
                            ..before[bg as int]
                        }),
                        first == before[bg as int].mosaic_first_row,
                        forall|k: int|
                            0 <= k < x ==> #[trigger] self.bg[bg as int].line[k] == first[k - k % (
                            hsize as int)],
                {
                    proof {
                        vstd::arithmetic::div_mod::lemma_mod_decreases(x as nat, hsize as nat);
                    }
                    let color: u16 = self.bg[bg].mosaic_first_row[x - x % hsize];
                    self.bg[bg].line[x] = color;
                }
                proof {
                    lemma_array_is(
                        self.bg[bg as int].line,
                        Seq::new(240, |x: int| first[x - x % (hsize as int)]),
                    );
                }
            }
        }
        proof {
            lemma_array_is(
                self.bg,
                Seq::new(
                    4,
                    |i: int|
                        if old(self).mosaic_applies(i) {
                            old(self).mosaic_layer(i)
                        } else {
                            old(self).bg[i]
                        },
                ),
            );
        }
    }

    /// The mosaic step of rendering: applies the effect where the register
    /// asks for blocks larger than one pixel.
    pub fn mosaic_sfx(&mut self)
        ensures
            *final(self) == old(self).with_mosaic(),
    {
        if self.mosaic.is_enabled_for_bg() {
            self.mosaic_bg();
        }
    }

    /// The unit after the mosaic step of rendering: the effect is applied
    /// where the register asks for blocks larger than one pixel.
    pub open spec fn with_mosaic(self) -> Gpu {
        if self.mosaic.spec_is_enabled_for_bg() {
            self.mosaic_all()
        } else {
            self
        }
    }
}

} // verus!
