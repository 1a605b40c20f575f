//! Drawing the backgrounds of one scanline, and rendering the scanline as a
//! whole.
//!
//! The bitmap modes 3, 4 and 5 draw background 2 from video RAM; the tile
//! modes 0 and 1 draw their text backgrounds. Backgrounds that are rotated
//! or scaled are not drawn. A forced blank shows white.

use crate::bus::mem_read_16;
use crate::bus::mem_read_8;
use crate::bus::Bus;
use crate::arrays::array_of;
use crate::arrays::lemma_array_is;
use crate::gpu::affine::read_affine_pixel;
use crate::gpu::affine::signed16;
use crate::gpu::affine::spec_affine_pixel;
use crate::gpu::affine::spec_signed16;
use crate::gpu::affine::spec_wrap28;
use crate::gpu::affine::wrap28;
use crate::gpu::regs::flag;
use crate::gpu::regs::BgControl;
use crate::gpu::Background;
use crate::gpu::Gpu;
use crate::gpu::VideoMemory;
use crate::gpu::FRAME_PIXELS;
use crate::gpu::TRANSPARENT;
use crate::gpu::WHITE;
use crate::sysbus::BoxedMemory;
use vstd::prelude::*;

verus! {

/// The 15-bit colour in the halfword at `addr` of `block`.
pub open spec fn color_at(block: Seq<u8>, addr: int) -> u16 {
    (mem_read_16(block, addr) % 0x8000) as u16
}

/// The colour that palette entry `index` gives a pixel; entry 0 is
/// transparent.
pub open spec fn palette_pixel(palette: Seq<u8>, index: int) -> u16 {
    if index == 0 {
        TRANSPARENT
    } else {
        color_at(palette, 2 * index)
    }
}

/// Pixel `x` of scanline `y` in a bitmap mode.
///
/// Mode 3 holds one 15-bit colour per pixel. Mode 4 holds one palette index
/// per pixel, in one of two frames. Mode 5 holds one colour per pixel of a
/// picture of 160 by 128, in one of two frames. The second frame lies 0xA000
/// bytes after the first.
pub open spec fn bitmap_pixel(mem: VideoMemory, mode: u16, second_frame: bool, x: int, y: int) -> u16 {
    let page: int = if second_frame {
        0xa000
    } else {
        0
    };
    if mode == 3 {
        color_at(mem.vram, 2 * (240 * y + x))
    } else if mode == 4 {
        palette_pixel(mem.palette, mem_read_8(mem.vram, page + 240 * y + x) as int)
    } else if x < 160 && y < 128 {
        color_at(mem.vram, page + 2 * (160 * y + x))
    } else {
        TRANSPARENT
    }
}

/// Pixel `x` of scanline `y` of a text background.
///
/// The background is a map of tiles of 8 by 8 pixels, 256 or 512 pixels wide
/// and high, scrolled by `hofs` and `vofs` and repeated in both directions.
/// The map lies in blocks of 32 by 32 entries from the screen base block on.
/// An entry names the tile (bits 0 to 9), says whether it is mirrored (bits
/// 10 and 11) and, for tiles of 16 colours, which palette bank colours it
/// (bits 12 to 15).
pub open spec fn text_pixel(mem: VideoMemory, cnt: BgControl, hofs: u16, vofs: u16, x: int, y: int) -> u16 {
    let size = cnt.spec_screen_size() as int;
    let width: int = if size % 2 == 1 {
        512
    } else {
        256
    };
    let height: int = if size >= 2 {
        512
    } else {
        256
    };
    let px = (x + hofs % 512) % width;
    let py = (y + vofs % 512) % height;
    let block = cnt.spec_screen_base_block() + px / 256 + if width == 512 {
        2 * (py / 256)
    } else {
        py / 256
    };
    let entry = mem_read_16(
        mem.vram,
        0x800 * block + 2 * (32 * ((py % 256) / 8) + (px % 256) / 8),
    );
    let tile = entry % 1024;
    let tx = if flag(entry, 1024) {
        7 - px % 8
    } else {
        px % 8
    };
    let ty = if flag(entry, 2048) {
        7 - py % 8
    } else {
        py % 8
    };
    let chars = 0x4000 * cnt.spec_character_base_block();
    if cnt.spec_palette256() {
        palette_pixel(mem.palette, mem_read_8(mem.vram, chars + 64 * tile + 8 * ty + tx) as int)
    } else {
        let byte = mem_read_8(mem.vram, chars + 32 * tile + 4 * ty + tx / 2);
        let index = if tx % 2 == 1 {
            byte / 16
        } else {
            byte % 16
        };
        if index == 0 {
            TRANSPARENT
        } else {
            color_at(mem.palette, 2 * (16 * (entry / 4096) + index))
        }
    }
}

/// Whether background `bg` is drawn in mode `mode` when DISPCNT switches it
/// on: all four in mode 0, the first three in mode 1, the last two in mode
/// 2, background 2 in the bitmap modes.
pub open spec fn mode_draws(mode: u16, bg: int) -> bool {
    if mode == 0 {
        0 <= bg < 4
    } else if mode == 1 {
        0 <= bg < 3
    } else if mode == 2 {
        bg == 2 || bg == 3
    } else if mode == 3 || mode == 4 || mode == 5 {
        bg == 2
    } else {
        false
    }
}

/// Reads the 15-bit colour in the halfword at `addr` of `block`.
pub fn read_color(block: &BoxedMemory, addr: u32) -> (r: u16)
    ensures
        r == color_at(block.mem@, addr as int),
        r < 0x8000,
{
    block.read_16(addr) % 0x8000
}

/// Reads the colour that palette entry `index` gives a pixel.
pub fn read_palette_pixel(palette: &BoxedMemory, index: u32) -> (r: u16)
    requires
        index < 0x1000,
    ensures
        r == palette_pixel(palette.mem@, index as int),
{
    if index == 0 {
        TRANSPARENT
    } else {
        read_color(palette, 2 * index)
    }
}

/// Reads pixel `x` of scanline `y` in the bitmap mode `mode`.
pub fn read_bitmap_pixel(
    palette: &BoxedMemory,
    vram: &BoxedMemory,
    mode: u16,
    second_frame: bool,
    x: u32,
    y: u32,
) -> (r: u16)
    requires
        x < 240,
        y < 160,
    ensures
        r == bitmap_pixel(
            VideoMemory { palette: palette.mem@, vram: vram.mem@ },
            mode,
            second_frame,
            x as int,
            y as int,
        ),
{
    let page: u32 = if second_frame {
        0xa000
    } else {
        0
    };
    if mode == 3 {
        read_color(vram, 2 * (240 * y + x))
    } else if mode == 4 {
        read_palette_pixel(palette, vram.read_8(page + 240 * y + x) as u32)
    } else if x < 160 && y < 128 {
        read_color(vram, page + 2 * (160 * y + x))
    } else {
        TRANSPARENT
    }
}

/// Reads pixel `x` of scanline `y` of a text background.
pub fn read_text_pixel(
    palette: &BoxedMemory,
    vram: &BoxedMemory,
    cnt: BgControl,
    hofs: u16,
    vofs: u16,
    x: u32,
    y: u32,
) -> (r: u16)
    requires
        x < 240,
        y < 160,
    ensures
        r == text_pixel(
            VideoMemory { palette: palette.mem@, vram: vram.mem@ },
            cnt,
            hofs,
            vofs,
            x as int,
            y as int,
        ),
{
    let size: u32 = cnt.screen_size() as u32;
    let width: u32 = if size % 2 == 1 {
        512
    } else {
        256
    };
    let height: u32 = if size >= 2 {
        512
    } else {
        256
    };
    let px: u32 = (x + (hofs % 512) as u32) % width;
    let py: u32 = (y + (vofs % 512) as u32) % height;
    let block: u32 = cnt.screen_base_block() as u32 + px / 256 + if width == 512 {
        2 * (py / 256)
    } else {
        py / 256
    };
    let entry: u16 = vram.read_16(0x800 * block + 2 * (32 * ((py % 256) / 8) + (px % 256) / 8));
    let tile: u32 = (entry % 1024) as u32;
    let tx: u32 = if (entry / 1024) % 2 == 1 {
        7 - px % 8
    } else {
        px % 8
    };
    let ty: u32 = if (entry / 2048) % 2 == 1 {
        7 - py % 8
    } else {
        py % 8
    };
    let chars: u32 = 0x4000 * (cnt.character_base_block() as u32);
    if cnt.palette256() {
        read_palette_pixel(palette, vram.read_8(chars + 64 * tile + 8 * ty + tx) as u32)
    } else {
        let byte: u8 = vram.read_8(chars + 32 * tile + 4 * ty + tx / 2);
        let index: u32 = if tx % 2 == 1 {
            (byte / 16) as u32
        } else {
            (byte % 16) as u32
        };
        if index == 0 {
            TRANSPARENT
        } else {
            read_color(palette, 2 * (16 * ((entry / 4096) as u32) + index))
        }
    }
}

/// Whether background `bg` is drawn in mode `mode` when DISPCNT switches it
/// on.
pub fn is_drawn_in_mode(mode: u16, bg: usize) -> (r: bool)
    ensures
        r == mode_draws(mode, bg as int),
{
    if mode == 0 {
        bg < 4
    } else if mode == 1 {
        bg < 3
    } else if mode == 2 {
        bg == 2 || bg == 3
    } else if mode == 3 || mode == 4 || mode == 5 {
        bg == 2
    } else {
        false
    }
}

impl Gpu {
    /// Whether background `bg` is drawn.
    pub open spec fn lit(&self, bg: int) -> bool {
        mode_draws(self.dispcnt.spec_mode(), bg) && self.dispcnt.spec_disp_bg(bg as usize)
    }

    /// Whether background `bg` is rotated and scaled in mode `mode`:
    /// background 2 in mode 1, backgrounds 2 and 3 in mode 2.
    pub open spec fn rotates(mode: u16, bg: int) -> bool {
        (mode == 1 && bg == 2) || (mode == 2 && (bg == 2 || bg == 3))
    }

    /// Pixel `x` of background `bg` on the current scanline, `TRANSPARENT`
    /// where the background is not drawn.
    pub open spec fn layer_pixel(&self, mem: VideoMemory, bg: int, x: int) -> u16 {
        if !self.lit(bg) {
            TRANSPARENT
        } else if Self::rotates(self.dispcnt.spec_mode(), bg) {
            spec_affine_pixel(
                mem,
                self.bg[bg].bgcnt,
                spec_wrap28(self.affine_ref[2 * (bg - 2)] as int),
                spec_wrap28(self.affine_ref[2 * (bg - 2) + 1] as int),
                spec_signed16(self.affine[8 * (bg - 2)]),
                spec_signed16(self.affine[8 * (bg - 2) + 2]),
                x,
            )
        } else if self.dispcnt.spec_mode() < 3 {
            text_pixel(mem, self.bg[bg].bgcnt, self.bg[bg].hofs, self.bg[bg].vofs, x, self.vcount as int)
        } else {
            bitmap_pixel(
                mem,
                self.dispcnt.spec_mode(),
                self.dispcnt.spec_display_frame(),
                x,
                self.vcount as int,
            )
        }
    }

    /// The unit after the current scanline of every background was drawn
    /// into the background's line.
    pub open spec fn layers_drawn(self, mem: VideoMemory) -> Gpu {
        Gpu {
            bg: array_of(
                Seq::new(
                    4,
                    |i: int|
                        Background {
                            line: array_of(Seq::new(240, |x: int| self.layer_pixel(mem, i, x))),
                            ..self.bg[i]
                        },
                ),
            ),
            ..self
        }
    }

    /// The unit after the current scanline was made white.
    pub open spec fn blanked(self) -> Gpu {
        Gpu {
            frame_buffer: array_of(
                Seq::new(
                    FRAME_PIXELS as nat,
                    |i: int|
                        if 240 * self.vcount <= i < 240 * self.vcount + 240 {
                            WHITE
                        } else {
                            self.frame_buffer[i]
                        },
                ),
            ),
            ..self
        }
    }

    /// Whether background `bg` is drawn.
    pub fn is_lit(&self, bg: usize) -> (r: bool)
        ensures
            r == self.lit(bg as int),
    {
        is_drawn_in_mode(self.dispcnt.mode(), bg) && self.dispcnt.disp_bg(bg)
    }

    /// Draws the current scanline of every background into the background's
    /// line.
    pub fn draw_layers(&mut self, palette: &BoxedMemory, vram: &BoxedMemory)
        requires
            old(self).vcount < 160,
        ensures
            *final(self) == old(self).layers_drawn(
                VideoMemory { palette: palette.mem@, vram: vram.mem@ },
            ),
    {
        let ghost mem = VideoMemory { palette: palette.mem@, vram: vram.mem@ };
        let y: u32 = self.vcount as u32;
        let mode: u16 = self.dispcnt.mode();
        let second_frame: bool = self.dispcnt.display_frame();
        for i in 0..4usize
            invariant
                y == old(self).vcount,
                y < 160,
                mode == old(self).dispcnt.spec_mode(),
                second_frame == old(self).dispcnt.spec_display_frame(),
                mem == (VideoMemory { palette: palette.mem@, vram: vram.mem@ }),
                *self == (Gpu { bg: self.bg, ..*old(self) }),
                forall|j: int|
                    0 <= j < i ==> #[trigger] self.bg[j] == (Background {
                        line: array_of(Seq::new(240, |x: int| old(self).layer_pixel(mem, j, x))),
                        ..old(self).bg[j]
                    }),
                forall|j: int| i <= j < 4 ==> #[trigger] self.bg[j] == old(self).bg[j],
        {
            let lit: bool = self.is_lit(i);
            let cnt: BgControl = self.bg[i].bgcnt;
            let hofs: u16 = self.bg[i].hofs;
            let vofs: u16 = self.bg[i].vofs;
            let rotated: bool = (mode == 1 && i == 2) || (mode == 2 && (i == 2 || i == 3));
            let k: usize = if rotated {
                i - 2
            } else {
                0
            };
            let ref_x: i32 = wrap28(self.affine_ref[2 * k] as i64);
            let ref_y: i32 = wrap28(self.affine_ref[2 * k + 1] as i64);
            let pa: i32 = signed16(self.affine[8 * k]);
            let pc: i32 = signed16(self.affine[8 * k + 2]);
            let ghost before = self.bg;
            for x in 0..240usize
                invariant
                    i < 4,
                    y == old(self).vcount,
                    y < 160,
                    mode == old(self).dispcnt.spec_mode(),
                    second_frame == old(self).dispcnt.spec_display_frame(),
                    lit == old(self).lit(i as int),
                    rotated == Gpu::rotates(mode, i as int),
                    rotated ==> k == i - 2,
                    k < 2,
                    ref_x == spec_wrap28(old(self).affine_ref[2 * k as int] as int),
                    ref_y == spec_wrap28(old(self).affine_ref[2 * k + 1] as int),
                    pa == spec_signed16(old(self).affine[8 * k as int]),
                    pc == spec_signed16(old(self).affine[8 * k + 2]),
                    cnt == old(self).bg[i as int].bgcnt,
                    hofs == old(self).bg[i as int].hofs,
                    vofs == old(self).bg[i as int].vofs,
                    mem == (VideoMemory { palette: palette.mem@, vram: vram.mem@ }),
                    *self == (Gpu { bg: self.bg, ..*old(self) }),
                    forall|j: int| 0 <= j < 4 && j != i ==> #[trigger] self.bg[j] == before[j],
                    self.bg[i as int] == (Background {
                        line: self.bg[i as int].line,
                        ..old(self).bg[i as int]
                    }),
                    forall|k: int|
                        0 <= k < x ==> #[trigger] self.bg[i as int].line[k] == old(
                            self,
                        ).layer_pixel(mem, i as int, k),
            {
                let c: u16 = if !lit {
                    TRANSPARENT
                } else if rotated {
                    read_affine_pixel(palette, vram, cnt, ref_x, ref_y, pa, pc, x as u32)
                } else if mode < 3 {
                    read_text_pixel(palette, vram, cnt, hofs, vofs, x as u32, y)
                } else {
                    read_bitmap_pixel(palette, vram, mode, second_frame, x as u32, y)
                };
                self.bg[i].line[x] = c;
            }
            proof {
                lemma_array_is(
                    self.bg[i as int].line,
                    Seq::new(240, |x: int| old(self).layer_pixel(mem, i as int, x)),
                );
            }
        }
        proof {
            lemma_array_is(
                self.bg,
                Seq::new(
                    4,
                    |i: int|
                        Background {
                            line: array_of(
                                Seq::new(240, |x: int| old(self).layer_pixel(mem, i, x)),
                            ),
                            ..old(self).bg[i]
                        },
                ),
            );
        }
    }

    /// Makes the current scanline of the frame buffer white.
    pub fn blank_line(&mut self)
        requires
            old(self).vcount < 160,
        ensures
            *final(self) == old(self).blanked(),
    {
        let base: usize = 240 * self.vcount;
        for x in 0..240usize
            invariant
                base == 240 * old(self).vcount,
                old(self).vcount < 160,
                *self == (Gpu { frame_buffer: self.frame_buffer, ..*old(self) }),
                forall|i: int|
                    0 <= i < FRAME_PIXELS ==> #[trigger] self.frame_buffer[i] == if base <= i < base
                        + x {
                        WHITE
                    } else {
                        old(self).frame_buffer[i]
                    },
        {
            self.frame_buffer[base + x] = WHITE;
        }
        proof {
            lemma_array_is(
                self.frame_buffer,
                Seq::new(
                    FRAME_PIXELS as nat,
                    |i: int|
                        if 240 * old(self).vcount <= i < 240 * old(self).vcount + 240 {
                            WHITE
                        } else {
                            old(self).frame_buffer[i]
                        },
                ),
            );
        }
    }

    /// Renders the current scanline into the frame buffer, if it is a visible
    /// one.
    pub fn render_scanline(&mut self, palette: &BoxedMemory, vram: &BoxedMemory, oam: &BoxedMemory)
        ensures
            *final(self) == old(self).rendered(
                VideoMemory { palette: palette.mem@, vram: vram.mem@ },
                oam.mem@,
            ),
    {
        if self.vcount >= 160 {
            return ;
        }
        if self.dispcnt.force_blank() {
            self.blank_line();
        } else {
            self.draw_layers(palette, vram);
            self.draw_objects(palette, vram, oam);
            self.mosaic_sfx();
            self.compose(palette);
        }
    }

    /// The unit after the current scanline was rendered, if it is a visible
    /// one: white under a forced blank; else the backgrounds are drawn, the mosaic effect is
    /// applied to them and they are put together over the backdrop.
    pub open spec fn rendered(self, mem: VideoMemory, oam: Seq<u8>) -> Gpu {
        if self.vcount >= 160 {
            self
        } else if self.dispcnt.spec_force_blank() {
            self.blanked()
        } else {
            self.layers_drawn(mem).objects_drawn(mem, oam).with_mosaic().composed(mem)
        }
    }
}

} // verus!
