//! Backgrounds that are rotated and scaled.
//!
//! Such a background has a reference point, the place of the picture that
//! the left end of the scanline shows, and four numbers that say how far the
//! place moves for each pixel to the right (PA and PC) and for each scanline
//! down (PB and PD). All are fixed-point numbers with eight binary places.

use crate::bus::mem_read_8;
use crate::bus::Bus;
use crate::gpu::regs::flag;
use crate::gpu::regs::BgControl;
use crate::gpu::render::palette_pixel;
use crate::gpu::render::read_palette_pixel;
use crate::gpu::VideoMemory;
use crate::gpu::TRANSPARENT;
use crate::sysbus::BoxedMemory;
use vstd::prelude::*;

verus! {

/// The number that the halfword `v` stands for when its top bit is a sign.
pub open spec fn spec_signed16(v: u16) -> int {
    if v >= 0x8000 {
        v - 0x1_0000
    } else {
        v as int
    }
}

/// The number that a halfword stands for when its top bit is a sign.
pub fn signed16(v: u16) -> (r: i32)
    ensures
        r == spec_signed16(v),
        -0x8000 <= r < 0x8000,
{
    if v >= 0x8000 {
        v as i32 - 0x1_0000
    } else {
        v as i32
    }
}

/// The number `v` cut to 28 bits, the top one being a sign.
pub open spec fn spec_wrap28(v: int) -> int {
    if v % 0x1000_0000 >= 0x800_0000 {
        v % 0x1000_0000 - 0x1000_0000
    } else {
        v % 0x1000_0000
    }
}

/// Cuts a number to 28 bits, the top one being a sign.
pub fn wrap28(v: i64) -> (r: i32)
    requires
        -0x1_0000_0000 <= v <= 0x1_0000_0000,
    ensures
        r == spec_wrap28(v as int),
        -0x800_0000 <= r < 0x800_0000,
{
    let low: i64 = (v + 0x1_0000_0000) % 0x1000_0000;
    if low >= 0x800_0000 {
        (low - 0x1000_0000) as i32
    } else {
        low as i32
    }
}

/// The reference point that the two halves `lo` and `hi` of a register
/// hold: a number of 28 bits with a sign.
pub open spec fn spec_reference(lo: u16, hi: u16) -> int {
    spec_wrap28(lo + 0x1_0000 * hi)
}

/// The reference point that the two halves of a register hold.
pub fn reference(lo: u16, hi: u16) -> (r: i32)
    ensures
        r == spec_reference(lo, hi),
        -0x800_0000 <= r < 0x800_0000,
{
    wrap28(lo as i64 + 0x1_0000 * (hi as i64))
}

/// The width and height in pixels of a background that is rotated and
/// scaled, from the size field of its control register.
pub open spec fn spec_affine_size(cnt: BgControl) -> int {
    let size = cnt.spec_screen_size();
    if size == 0 {
        128
    } else if size == 1 {
        256
    } else if size == 2 {
        512
    } else {
        1024
    }
}

/// The place of the picture, in whole pixels, that pixel `x` of the
/// scanline shows, where the left end shows `start` and each pixel to the
/// right moves the place by `step`.
pub open spec fn spec_texel(start: int, step: int, x: int) -> int {
    (start + step * x) / 256
}

/// Works out the place of the picture that pixel `x` shows.
pub fn texel(start: i32, step: i32, x: u32) -> (r: i64)
    requires
        -0x800_0000 <= start < 0x800_0000,
        -0x8000 <= step < 0x8000,
        x < 240,
    ensures
        r == spec_texel(start as int, step as int, x as int),
        -0x10_0000 <= r < 0x10_0000,
{
    let s: i64 = step as i64;
    let n: i64 = x as i64;
    assert(-0x8000 * 240 <= s * n <= 0x8000 * 240) by (nonlinear_arith)
        requires
            -0x8000 <= s < 0x8000,
            0 <= n < 240,
    ;
    let moved: i64 = start as i64 + s * n;
    (moved + 0x10_0000_0000) / 256 - 0x1000_0000
}

/// Pixel `x` of a background that is rotated and scaled, on a scanline whose
/// left end shows the place (`ref_x`, `ref_y`) of the picture and on which
/// each pixel to the right moves the place by (`pa`, `pc`).
///
/// The picture is a map of tiles of 256 colours, one byte for each tile.
/// Outside the picture the background shows nothing, unless bit 13 of its
/// control register asks for the picture to repeat.
pub open spec fn spec_affine_pixel(
    mem: VideoMemory,
    cnt: BgControl,
    ref_x: int,
    ref_y: int,
    pa: int,
    pc: int,
    x: int,
) -> u16 {
    let size = spec_affine_size(cnt);
    let tx = spec_texel(ref_x, pa, x);
    let ty = spec_texel(ref_y, pc, x);
    if !flag(cnt.0, 8192) && !(0 <= tx < size && 0 <= ty < size) {
        TRANSPARENT
    } else {
        let px = (tx + 0x1000_0000) % size;
        let py = (ty + 0x1000_0000) % size;
        let row = if size == 128 {
            16 * (py / 8)
        } else if size == 256 {
            32 * (py / 8)
        } else if size == 512 {
            64 * (py / 8)
        } else {
            128 * (py / 8)
        };
        let tile = mem_read_8(mem.vram, 0x800 * cnt.spec_screen_base_block() + row + px / 8);
        palette_pixel(
            mem.palette,
            mem_read_8(
                mem.vram,
                0x4000 * cnt.spec_character_base_block() + 64 * tile + 8 * (py % 8) + px % 8,
            ) as int,
        )
    }
}

/// Reads pixel `x` of a background that is rotated and scaled.
pub fn read_affine_pixel(
    palette: &BoxedMemory,
    vram: &BoxedMemory,
    cnt: BgControl,
    ref_x: i32,
    ref_y: i32,
    pa: i32,
    pc: i32,
    x: u32,
) -> (r: u16)
    requires
        -0x800_0000 <= ref_x < 0x800_0000,
        -0x800_0000 <= ref_y < 0x800_0000,
        -0x8000 <= pa < 0x8000,
        -0x8000 <= pc < 0x8000,
        x < 240,
    ensures
        r == spec_affine_pixel(
            VideoMemory { palette: palette.mem@, vram: vram.mem@ },
            cnt,
            ref_x as int,
            ref_y as int,
            pa as int,
            pc as int,
            x as int,
        ),
{
    let s: u16 = cnt.screen_size();
    let size: i64 = if s == 0 {
        128
    } else if s == 1 {
        256
    } else if s == 2 {
        512
    } else {
        1024
    };
    let tx: i64 = texel(ref_x, pa, x);
    let ty: i64 = texel(ref_y, pc, x);
    if (cnt.0 / 8192) % 2 != 1 && !(0 <= tx && tx < size && 0 <= ty && ty < size) {
        return TRANSPARENT;
    }
    let px: u32 = ((tx + 0x1000_0000) % size) as u32;
    let py: u32 = ((ty + 0x1000_0000) % size) as u32;
    let row: u32 = if size == 128 {
        16 * (py / 8)
    } else if size == 256 {
        32 * (py / 8)
    } else if size == 512 {
        64 * (py / 8)
    } else {
        128 * (py / 8)
    };
    let tile: u32 = vram.read_8(0x800 * (cnt.screen_base_block() as u32) + row + px / 8) as u32;
    read_palette_pixel(
        palette,
        vram.read_8(0x4000 * (cnt.character_base_block() as u32) + 64 * tile + 8 * (py % 8) + px % 8)
            as u32,
    )
}

/// A reference point as it is kept: the halfwords `lo` and `hi` of its
/// register put together. The low 28 bits count.
pub open spec fn spec_kept_reference(lo: u16, hi: u16) -> u32 {
    (lo + 0x1_0000 * hi) as u32
}

/// Puts the two halves of a reference point register together.
pub fn kept_reference(lo: u16, hi: u16) -> (r: u32)
    ensures
        r == spec_kept_reference(lo, hi),
{
    lo as u32 + 0x1_0000 * (hi as u32)
}

/// The kept reference point `kept` moved by `step`, a signed halfword, and
/// cut to 28 bits.
pub open spec fn spec_moved_reference(kept: u32, step: u16) -> u32 {
    ((kept % 0x1000_0000 + spec_signed16(step) + 0x1000_0000) % 0x1000_0000) as u32
}

/// Moves a kept reference point by `step`.
pub fn moved_reference(kept: u32, step: u16) -> (r: u32)
    ensures
        r == spec_moved_reference(kept, step),
{
    (((kept % 0x1000_0000) as i64 + signed16(step) as i64 + 0x1000_0000) % 0x1000_0000) as u32
}

/// The part of a reference point that entry `i` of the kept reference points
/// holds: entries 0 and 1 are X and Y of background 2, entries 2 and 3 X and
/// Y of background 3. The register of X follows the four steps of its
/// background among the registers of rotation and scaling, the register of
/// Y follows that of X.
pub open spec fn reference_register(i: int) -> int {
    8 * (i / 2) + 4 + 2 * (i % 2)
}

/// The step by which entry `i` of the kept reference points moves from one
/// scanline to the next: PB for X and PD for Y.
pub open spec fn scanline_step_register(i: int) -> int {
    8 * (i / 2) + 1 + 2 * (i % 2)
}

} // verus!
