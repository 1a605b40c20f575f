//! Objects: the 128 sprites that the object attribute memory describes.
//!
//! An object has three halfwords of attributes. The first holds its top edge
//! (bits 0 to 7), whether it is rotated or scaled (bit 8), whether it is
//! switched off (bit 9), its mode (bits 10 and 11: normal, half transparent,
//! or a window), whether its tiles hold 256 colours (bit 13) and its shape
//! (bits 14 and 15). The second holds its left edge (bits 0 to 8), whether
//! it is mirrored (bits 12 and 13) and its size (bits 14 and 15). The third
//! holds its first tile (bits 0 to 9), its priority (bits 10 and 11) and its
//! palette bank (bits 12 to 15). For an object that is rotated or scaled, bit
//! 9 of the first halfword doubles its box and bits 9 to 13 of the second
//! name its group of weights.

use crate::arrays::array_of;
use crate::arrays::lemma_array_is;
use crate::bus::mem_read_16;
use crate::bus::mem_read_8;
use crate::bus::Bus;
use crate::gpu::affine::signed16;
use crate::gpu::affine::spec_signed16;
use crate::gpu::regs::flag;
use crate::gpu::render::color_at;
use crate::gpu::render::read_color;
use crate::gpu::Gpu;
use crate::gpu::VideoMemory;
use crate::gpu::TRANSPARENT;
use crate::sysbus::BoxedMemory;
use vstd::prelude::*;

verus! {

/// Number of objects.
pub const NUM_OBJECTS: usize = 128;

/// The width of an object in pixels, from its shape and size.
pub open spec fn spec_sprite_width(shape: u16, size: u16) -> u32 {
    if shape == 0 {
        if size == 0 {
            8
        } else if size == 1 {
            16
        } else if size == 2 {
            32
        } else {
            64
        }
    } else if shape == 1 {
        if size == 0 {
            16
        } else if size == 3 {
            64
        } else {
            32
        }
    } else {
        if size == 2 {
            16
        } else if size == 3 {
            32
        } else {
            8
        }
    }
}

/// The width of an object in pixels.
pub fn sprite_width(shape: u16, size: u16) -> (r: u32)
    ensures
        r == spec_sprite_width(shape, size),
        r == 8 || r == 16 || r == 32 || r == 64,
{
    if shape == 0 {
        if size == 0 {
            8
        } else if size == 1 {
            16
        } else if size == 2 {
            32
        } else {
            64
        }
    } else if shape == 1 {
        if size == 0 {
            16
        } else if size == 3 {
            64
        } else {
            32
        }
    } else {
        if size == 2 {
            16
        } else if size == 3 {
            32
        } else {
            8
        }
    }
}

/// The height of an object in pixels, from its shape and size.
pub open spec fn spec_sprite_height(shape: u16, size: u16) -> u32 {
    if shape == 0 {
        spec_sprite_width(0, size)
    } else if shape == 1 {
        spec_sprite_width(2, size)
    } else {
        spec_sprite_width(1, size)
    }
}

/// The height of an object in pixels.
pub fn sprite_height(shape: u16, size: u16) -> (r: u32)
    ensures
        r == spec_sprite_height(shape, size),
        r == 8 || r == 16 || r == 32 || r == 64,
{
    if shape == 0 {
        sprite_width(0, size)
    } else if shape == 1 {
        sprite_width(2, size)
    } else {
        sprite_width(1, size)
    }
}

/// The mode of an object: 0 normal, 1 half transparent, 2 window.
pub open spec fn spec_sprite_mode(a0: u16) -> u16 {
    (a0 / 1024) % 4
}

/// The priority of an object; 0 is in front.
pub open spec fn spec_sprite_priority(a2: u16) -> u16 {
    (a2 / 1024) % 4
}

/// The colour at the place (`px`, `py`) of the picture of an object of width
/// `w` with the attributes `a0` and `a2`.
///
/// The tiles of the object lie in video RAM from 0x10000 on, one after the
/// other where `one_dim` is set and in rows of 32 else; in a bitmap mode the
/// first 512 tiles are not shown. The colours come from the second half of
/// palette memory.
pub open spec fn spec_sprite_texel(
    mem: VideoMemory,
    one_dim: bool,
    bitmap: bool,
    a0: u16,
    a2: u16,
    w: int,
    px: int,
    py: int,
) -> u16 {
    let wide = flag(a0, 8192);
    let stride = if !one_dim {
        32
    } else if wide {
        2 * (w / 8)
    } else {
        w / 8
    };
    let column = if wide {
        2 * (px / 8)
    } else {
        px / 8
    };
    let tile = (a2 % 1024 + (py / 8) * stride + column) % 1024;
    if bitmap && tile < 512 {
        TRANSPARENT
    } else if wide {
        let index = mem_read_8(mem.vram, 0x1_0000 + 32 * tile + 8 * (py % 8) + px % 8);
        if index == 0 {
            TRANSPARENT
        } else {
            color_at(mem.palette, 0x200 + 2 * index)
        }
    } else {
        let byte = mem_read_8(mem.vram, 0x1_0000 + 32 * tile + 4 * (py % 8) + (px % 8) / 2);
        let index = if px % 2 == 1 {
            byte / 16
        } else {
            byte % 16
        };
        if index == 0 {
            TRANSPARENT
        } else {
            color_at(mem.palette, 0x200 + 2 * (16 * (a2 / 4096) + index))
        }
    }
}

/// The product of a row of tiles and the tiles in a row.
fn rows(row: u32, stride: u32) -> (r: u32)
    requires
        row <= 7,
        stride <= 32,
    ensures
        r == row * stride,
        r <= 224,
{
    assert(row * stride <= 224) by (nonlinear_arith)
        requires
            row <= 7,
            stride <= 32,
    ;
    row * stride
}

/// Reads the colour at a place of the picture of an object.
pub fn read_sprite_texel(
    palette: &BoxedMemory,
    vram: &BoxedMemory,
    one_dim: bool,
    bitmap: bool,
    a0: u16,
    a2: u16,
    w: u32,
    px: u32,
    py: u32,
) -> (r: u16)
    requires
        w <= 64,
        px < 64,
        py < 64,
    ensures
        r == spec_sprite_texel(
            VideoMemory { palette: palette.mem@, vram: vram.mem@ },
            one_dim,
            bitmap,
            a0,
            a2,
            w as int,
            px as int,
            py as int,
        ),
{
    let wide: bool = (a0 / 8192) % 2 == 1;
    let stride: u32 = if !one_dim {
        32
    } else if wide {
        2 * (w / 8)
    } else {
        w / 8
    };
    let column: u32 = if wide {
        2 * (px / 8)
    } else {
        px / 8
    };
    let tile: u32 = ((a2 % 1024) as u32 + rows(py / 8, stride) + column) % 1024;
    if bitmap && tile < 512 {
        TRANSPARENT
    } else if wide {
        let index: u32 = vram.read_8(0x1_0000 + 32 * tile + 8 * (py % 8) + px % 8) as u32;
        if index == 0 {
            TRANSPARENT
        } else {
            read_color(palette, 0x200 + 2 * index)
        }
    } else {
        let byte: u8 = vram.read_8(0x1_0000 + 32 * tile + 4 * (py % 8) + (px % 8) / 2);
        let index: u32 = if px % 2 == 1 {
            (byte / 16) as u32
        } else {
            (byte % 16) as u32
        };
        if index == 0 {
            TRANSPARENT
        } else {
            read_color(palette, 0x200 + 2 * (16 * ((a2 / 4096) as u32) + index))
        }
    }
}

/// One coordinate of the place of the picture that a rotated and scaled
/// object shows at the distance (`ix`, `iy`) from the middle of its box:
/// the distances weighed by `p` and `q`, fixed-point numbers with eight
/// binary places, from the middle `half` of the picture.
pub open spec fn spec_turned(p: int, q: int, ix: int, iy: int, half: int) -> int {
    (p * ix + q * iy) / 256 + half
}

/// The product of a weight and a distance.
fn weighed(p: i64, d: i64) -> (r: i64)
    requires
        -0x8000 <= p < 0x8000,
        -64 <= d <= 64,
    ensures
        r == p * d,
        -0x20_0000 <= r <= 0x20_0000,
{
    assert(-0x20_0000 <= p * d <= 0x20_0000) by (nonlinear_arith)
        requires
            -0x8000 <= p < 0x8000,
            -64 <= d <= 64,
    ;
    p * d
}

/// Works out one coordinate of the place of the picture that a rotated and
/// scaled object shows.
pub fn turned(p: i32, q: i32, ix: i32, iy: i32, half: i32) -> (r: i64)
    requires
        -0x8000 <= p < 0x8000,
        -0x8000 <= q < 0x8000,
        -64 <= ix <= 64,
        -64 <= iy <= 64,
        0 <= half <= 32,
    ensures
        r == spec_turned(p as int, q as int, ix as int, iy as int, half as int),
{
    let sum: i64 = weighed(p as i64, ix as i64) + weighed(q as i64, iy as i64);
    (sum + 0x1_0000_0000) / 256 - 0x100_0000 + half as i64
}

/// The colour of an object with the attributes `a0`, `a1` and `a2` at pixel
/// `x` of scanline `y`; `TRANSPARENT` where the object is not or shows
/// nothing.
///
/// An object that is not rotated covers its width to the right of its left
/// edge and its height below its top edge, and comes in again at the other
/// side where it runs over the edge; it may be mirrored. An object that is
/// rotated and scaled shows its picture turned about the middle of its box
/// by the four weights of the group that bits 9 to 13 of `a1` name; the
/// groups lie in the fourth halfword of every object of the object attribute
/// memory `oam`. Its box is as large as the picture, or twice as large with
/// bit 9 of `a0` set.
pub open spec fn spec_sprite_pixel(
    mem: VideoMemory,
    oam: Seq<u8>,
    one_dim: bool,
    bitmap: bool,
    a0: u16,
    a1: u16,
    a2: u16,
    x: int,
    y: int,
) -> u16 {
    let w = spec_sprite_width(a0 / 16384, a1 / 16384) as int;
    let h = spec_sprite_height(a0 / 16384, a1 / 16384) as int;
    let dy = (y + 256 - a0 % 256) % 256;
    let dx = (x + 512 - a1 % 512) % 512;
    if flag(a0, 256) {
        let bw = if flag(a0, 512) {
            2 * w
        } else {
            w
        };
        let bh = if flag(a0, 512) {
            2 * h
        } else {
            h
        };
        let group = (a1 / 512) % 32;
        let pa = spec_signed16(mem_read_16(oam, 32 * group + 6));
        let pb = spec_signed16(mem_read_16(oam, 32 * group + 14));
        let pc = spec_signed16(mem_read_16(oam, 32 * group + 22));
        let pd = spec_signed16(mem_read_16(oam, 32 * group + 30));
        let tx = spec_turned(pa, pb, dx - bw / 2, dy - bh / 2, w / 2);
        let ty = spec_turned(pc, pd, dx - bw / 2, dy - bh / 2, h / 2);
        if dy >= bh || dx >= bw || !(0 <= tx < w && 0 <= ty < h) {
            TRANSPARENT
        } else {
            spec_sprite_texel(mem, one_dim, bitmap, a0, a2, w, tx, ty)
        }
    } else if flag(a0, 512) || dy >= h || dx >= w {
        TRANSPARENT
    } else {
        spec_sprite_texel(
            mem,
            one_dim,
            bitmap,
            a0,
            a2,
            w,
            if flag(a1, 4096) {
                w - 1 - dx
            } else {
                dx
            },
            if flag(a1, 8192) {
                h - 1 - dy
            } else {
                dy
            },
        )
    }
}

/// Reads the colour of an object at pixel `x` of scanline `y`.
pub fn read_sprite_pixel(
    palette: &BoxedMemory,
    vram: &BoxedMemory,
    oam: &BoxedMemory,
    one_dim: bool,
    bitmap: bool,
    a0: u16,
    a1: u16,
    a2: u16,
    x: u32,
    y: u32,
) -> (r: u16)
    requires
        x < 240,
        y < 160,
    ensures
        r == spec_sprite_pixel(
            VideoMemory { palette: palette.mem@, vram: vram.mem@ },
            oam.mem@,
            one_dim,
            bitmap,
            a0,
            a1,
            a2,
            x as int,
            y as int,
        ),
{
    let w: u32 = sprite_width(a0 / 16384, a1 / 16384);
    let h: u32 = sprite_height(a0 / 16384, a1 / 16384);
    let dy: u32 = (y + 256 - (a0 % 256) as u32) % 256;
    let dx: u32 = (x + 512 - (a1 % 512) as u32) % 512;
    let doubled: bool = (a0 / 512) % 2 == 1;
    if (a0 / 256) % 2 == 1 {
        let bw: u32 = if doubled {
            2 * w
        } else {
            w
        };
        let bh: u32 = if doubled {
            2 * h
        } else {
            h
        };
        if dy >= bh || dx >= bw {
            return TRANSPARENT;
        }
        let group: u32 = ((a1 / 512) % 32) as u32;
        let pa: i32 = signed16(oam.read_16(32 * group + 6));
        let pb: i32 = signed16(oam.read_16(32 * group + 14));
        let pc: i32 = signed16(oam.read_16(32 * group + 22));
        let pd: i32 = signed16(oam.read_16(32 * group + 30));
        let ix: i32 = dx as i32 - (bw / 2) as i32;
        let iy: i32 = dy as i32 - (bh / 2) as i32;
        let tx: i64 = turned(pa, pb, ix, iy, (w / 2) as i32);
        let ty: i64 = turned(pc, pd, ix, iy, (h / 2) as i32);
        if !(0 <= tx && tx < w as i64 && 0 <= ty && ty < h as i64) {
            TRANSPARENT
        } else {
            read_sprite_texel(palette, vram, one_dim, bitmap, a0, a2, w, tx as u32, ty as u32)
        }
    } else if doubled || dy >= h || dx >= w {
        TRANSPARENT
    } else {
        read_sprite_texel(
            palette,
            vram,
            one_dim,
            bitmap,
            a0,
            a2,
            w,
            if (a1 / 4096) % 2 == 1 {
                w - 1 - dx
            } else {
                dx
            },
            if (a1 / 8192) % 2 == 1 {
                h - 1 - dy
            } else {
                dy
            },
        )
    }
}

/// The three attributes of object `i`.
pub open spec fn spec_sprite_attrs(oam: Seq<u8>, i: int) -> (u16, u16, u16) {
    (mem_read_16(oam, 8 * i), mem_read_16(oam, 8 * i + 2), mem_read_16(oam, 8 * i + 4))
}

/// Reads the three attributes of object `i`.
pub fn read_sprite_attrs(oam: &BoxedMemory, i: u32) -> (r: (u16, u16, u16))
    requires
        i < 128,
    ensures
        r == spec_sprite_attrs(oam.mem@, i as int),
{
    (oam.read_16(8 * i), oam.read_16(8 * i + 2), oam.read_16(8 * i + 4))
}

/// Whether object `i` shows a pixel at `x` of scanline `y`: a pixel of the
/// object window where `window` is set, and one of the picture else.
pub open spec fn spec_sprite_shows(
    mem: VideoMemory,
    oam: Seq<u8>,
    one_dim: bool,
    bitmap: bool,
    window: bool,
    i: int,
    x: int,
    y: int,
) -> bool {
    let a = spec_sprite_attrs(oam, i);
    let mode = spec_sprite_mode(a.0);
    (if window {
        mode == 2
    } else {
        mode < 2
    }) && spec_sprite_pixel(mem, oam, one_dim, bitmap, a.0, a.1, a.2, x, y) != TRANSPARENT
}

/// Among the first `n` objects, the one that shows a pixel at `x` of
/// scanline `y` and is furthest in front: the one of the lowest priority
/// number, and among those the first. `NUM_OBJECTS` if none shows one.
pub open spec fn spec_front_sprite(
    mem: VideoMemory,
    oam: Seq<u8>,
    one_dim: bool,
    bitmap: bool,
    window: bool,
    x: int,
    y: int,
    n: nat,
) -> int
    decreases n,
{
    if n == 0 {
        NUM_OBJECTS as int
    } else {
        let f = spec_front_sprite(mem, oam, one_dim, bitmap, window, x, y, (n - 1) as nat);
        let i = n - 1;
        if spec_sprite_shows(mem, oam, one_dim, bitmap, window, i, x, y) && (f == NUM_OBJECTS
            || spec_sprite_priority(spec_sprite_attrs(oam, i).2) < spec_sprite_priority(
            spec_sprite_attrs(oam, f).2,
        )) {
            i
        } else {
            f
        }
    }
}

/// Finds the object that shows a pixel at `x` of scanline `y` and is
/// furthest in front.
pub fn front_sprite(
    palette: &BoxedMemory,
    vram: &BoxedMemory,
    oam: &BoxedMemory,
    one_dim: bool,
    bitmap: bool,
    window: bool,
    x: u32,
    y: u32,
) -> (f: u32)
    requires
        x < 240,
        y < 160,
    ensures
        f == spec_front_sprite(
            VideoMemory { palette: palette.mem@, vram: vram.mem@ },
            oam.mem@,
            one_dim,
            bitmap,
            window,
            x as int,
            y as int,
            NUM_OBJECTS as nat,
        ),
        f <= NUM_OBJECTS,
{
    let ghost mem = VideoMemory { palette: palette.mem@, vram: vram.mem@ };
    let mut f: u32 = NUM_OBJECTS as u32;
    let mut best: u16 = 0;
    for i in 0..128u32
        invariant
            x < 240,
            y < 160,
            mem == (VideoMemory { palette: palette.mem@, vram: vram.mem@ }),
            f <= NUM_OBJECTS,
            f == spec_front_sprite(
                mem,
                oam.mem@,
                one_dim,
                bitmap,
                window,
                x as int,
                y as int,
                i as nat,
            ),
            f < NUM_OBJECTS ==> best == spec_sprite_priority(spec_sprite_attrs(oam.mem@, f as int).2),
    {
        let (a0, a1, a2) = read_sprite_attrs(oam, i);
        let mode: u16 = (a0 / 1024) % 4;
        let fits: bool = if window {
            mode == 2
        } else {
            mode < 2
        };
        if fits && read_sprite_pixel(palette, vram, oam, one_dim, bitmap, a0, a1, a2, x, y)
            != TRANSPARENT {
            let priority: u16 = (a2 / 1024) % 4;
            if f == NUM_OBJECTS as u32 || priority < best {
                f = i;
                best = priority;
            }
        }
    }
    f
}

/// What the objects show at one pixel.
#[derive(Debug, Clone, Copy, PartialEq, Eq, Structural)]
pub struct ObjectPixel {
    /// The colour of the object in front; `TRANSPARENT` where none shows.
    pub color: u16,
    /// The priority of that object.
    pub priority: u16,
    /// Whether that object is half transparent.
    pub semi: bool,
    /// Whether the pixel lies in the object window.
    pub window: bool,
}

/// What the objects show at pixel `x` of scanline `y`.
///
/// With the objects switched on (`shown`), the colour, the priority and the
/// mode of the object in front. The pixel lies in the object window where
/// the object window is switched on as well (`windowed`) and an object in
/// window mode shows a pixel there.
pub open spec fn spec_object_sample(
    mem: VideoMemory,
    oam: Seq<u8>,
    shown: bool,
    windowed: bool,
    one_dim: bool,
    bitmap: bool,
    x: int,
    y: int,
) -> ObjectPixel {
    let f = if shown {
        spec_front_sprite(mem, oam, one_dim, bitmap, false, x, y, NUM_OBJECTS as nat)
    } else {
        NUM_OBJECTS as int
    };
    let a = spec_sprite_attrs(oam, f);
    ObjectPixel {
        color: if f < NUM_OBJECTS {
            spec_sprite_pixel(mem, oam, one_dim, bitmap, a.0, a.1, a.2, x, y)
        } else {
            TRANSPARENT
        },
        priority: if f < NUM_OBJECTS {
            spec_sprite_priority(a.2)
        } else {
            0
        },
        semi: f < NUM_OBJECTS && spec_sprite_mode(a.0) == 1,
        window: shown && windowed && spec_front_sprite(
            mem,
            oam,
            one_dim,
            bitmap,
            true,
            x,
            y,
            NUM_OBJECTS as nat,
        ) < NUM_OBJECTS,
    }
}

/// Works out what the objects show at pixel `x` of scanline `y`.
pub fn object_sample(
    palette: &BoxedMemory,
    vram: &BoxedMemory,
    oam: &BoxedMemory,
    shown: bool,
    windowed: bool,
    one_dim: bool,
    bitmap: bool,
    x: u32,
    y: u32,
) -> (r: ObjectPixel)
    requires
        x < 240,
        y < 160,
    ensures
        r == spec_object_sample(
            VideoMemory { palette: palette.mem@, vram: vram.mem@ },
            oam.mem@,
            shown,
            windowed,
            one_dim,
            bitmap,
            x as int,
            y as int,
        ),
{
    let f: u32 = if shown {
        front_sprite(palette, vram, oam, one_dim, bitmap, false, x, y)
    } else {
        NUM_OBJECTS as u32
    };
    let window: bool = shown && windowed && front_sprite(
        palette,
        vram,
        oam,
        one_dim,
        bitmap,
        true,
        x,
        y,
    ) < NUM_OBJECTS as u32;
    if f < NUM_OBJECTS as u32 {
        let (a0, a1, a2) = read_sprite_attrs(oam, f);
        ObjectPixel {
            color: read_sprite_pixel(palette, vram, oam, one_dim, bitmap, a0, a1, a2, x, y),
            priority: (a2 / 1024) % 4,
            semi: (a0 / 1024) % 4 == 1,
            window,
        }
    } else {
        ObjectPixel { color: TRANSPARENT, priority: 0, semi: false, window }
    }
}

impl Gpu {
    /// What the objects show at pixel `x` of the current scanline. DISPCNT
    /// says whether the objects are switched on (bit 12), whether the object
    /// window is (bit 15), and whether the tiles of an object lie one after
    /// the other in video RAM (bit 6). In the bitmap modes the first 512
    /// tiles of the objects are not shown.
    pub open spec fn object_at(&self, mem: VideoMemory, oam: Seq<u8>, x: int) -> ObjectPixel {
        spec_object_sample(
            mem,
            oam,
            self.dispcnt.spec_disp_obj(),
            flag(self.dispcnt.0, 0x8000),
            flag(self.dispcnt.0, 64),
            self.dispcnt.spec_mode() >= 3,
            x,
            self.vcount as int,
        )
    }

    /// The unit after the objects of the current scanline were drawn.
    pub open spec fn objects_drawn(self, mem: VideoMemory, oam: Seq<u8>) -> Gpu {
        Gpu {
            obj_line: array_of(Seq::new(240, |x: int| self.object_at(mem, oam, x).color)),
            obj_priority: array_of(Seq::new(240, |x: int| self.object_at(mem, oam, x).priority)),
            obj_semi: array_of(Seq::new(240, |x: int| self.object_at(mem, oam, x).semi)),
            obj_window: array_of(Seq::new(240, |x: int| self.object_at(mem, oam, x).window)),
            ..self
        }
    }

    /// Draws the objects of the current scanline.
    pub fn draw_objects(&mut self, palette: &BoxedMemory, vram: &BoxedMemory, oam: &BoxedMemory)
        requires
            old(self).vcount < 160,
        ensures
            *final(self) == old(self).objects_drawn(
                VideoMemory { palette: palette.mem@, vram: vram.mem@ },
                oam.mem@,
            ),
    {
        let ghost mem = VideoMemory { palette: palette.mem@, vram: vram.mem@ };
        let ghost o = oam.mem@;
        let y: u32 = self.vcount as u32;
        let shown: bool = self.dispcnt.disp_obj();
        let windowed: bool = (self.dispcnt.0 / 0x8000) % 2 == 1;
        let one_dim: bool = (self.dispcnt.0 / 64) % 2 == 1;
        let bitmap: bool = self.dispcnt.mode() >= 3;
        for x in 0..240usize
            invariant
                y == old(self).vcount,
                y < 160,
                shown == old(self).dispcnt.spec_disp_obj(),
                windowed == flag(old(self).dispcnt.0, 0x8000),
                one_dim == flag(old(self).dispcnt.0, 64),
                bitmap == (old(self).dispcnt.spec_mode() >= 3),
                mem == (VideoMemory { palette: palette.mem@, vram: vram.mem@ }),
                o == oam.mem@,
                *self == (Gpu {
                    obj_line: self.obj_line,
                    obj_priority: self.obj_priority,
                    obj_semi: self.obj_semi,
                    obj_window: self.obj_window,
                    ..*old(self)
                }),
                forall|k: int|
                    0 <= k < x ==> #[trigger] self.obj_line[k] == old(self).object_at(
                        mem,
                        o,
                        k,
                    ).color,
                forall|k: int|
                    0 <= k < x ==> #[trigger] self.obj_priority[k] == old(self).object_at(
                        mem,
                        o,
                        k,
                    ).priority,
                forall|k: int|
                    0 <= k < x ==> #[trigger] self.obj_semi[k] == old(self).object_at(
                        mem,
                        o,
                        k,
                    ).semi,
                forall|k: int|
                    0 <= k < x ==> #[trigger] self.obj_window[k] == old(self).object_at(
                        mem,
                        o,
                        k,
                    ).window,
        {
            let sample: ObjectPixel = object_sample(
                palette,
                vram,
                oam,
                shown,
                windowed,
                one_dim,
                bitmap,
                x as u32,
                y,
            );
            self.obj_line[x] = sample.color;
            self.obj_priority[x] = sample.priority;
            self.obj_semi[x] = sample.semi;
            self.obj_window[x] = sample.window;
        }
        proof {
            lemma_array_is(
                self.obj_line,
                Seq::new(240, |x: int| old(self).object_at(mem, o, x).color),
            );
            lemma_array_is(
                self.obj_priority,
                Seq::new(240, |x: int| old(self).object_at(mem, o, x).priority),
            );
            lemma_array_is(
                self.obj_semi,
                Seq::new(240, |x: int| old(self).object_at(mem, o, x).semi),
            );
            lemma_array_is(
                self.obj_window,
                Seq::new(240, |x: int| old(self).object_at(mem, o, x).window),
            );
        }
    }
}

} // verus!
