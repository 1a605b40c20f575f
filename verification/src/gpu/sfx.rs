//! Colour effects: the arithmetic of blending, brightening and darkening,
//! and the conversion of a colour to the format of the frame buffer.

use vstd::prelude::*;

verus! {

/// The red (`k` = 0), green (1) or blue (2) part of the 15-bit colour `c`,
/// a number below 32.
pub open spec fn spec_channel(c: u16, k: int) -> int {
    if k == 0 {
        c as int % 32
    } else if k == 1 {
        (c as int / 32) % 32
    } else {
        (c as int / 1024) % 32
    }
}

/// The 15-bit colour with the given parts: red lowest, blue highest.
pub open spec fn spec_from_channels(r: int, g: int, b: int) -> u16 {
    (r + 32 * g + 1024 * b) as u16
}

/// A weight of the blend registers: the five bits of the register, and no
/// more than 16.
pub open spec fn spec_coefficient(v: u16) -> int {
    if v % 32 > 16 {
        16
    } else {
        v as int % 32
    }
}

/// A weight of the blend registers.
pub fn coefficient(v: u16) -> (r: u32)
    ensures
        r == spec_coefficient(v),
        r <= 16,
{
    if v % 32 > 16 {
        16
    } else {
        (v % 32) as u32
    }
}

/// The product of a colour part and a weight.
fn weigh(part: u32, weight: u32) -> (r: u32)
    requires
        part <= 31,
        weight <= 16,
    ensures
        r == part * weight,
        r <= 496,
        r <= 16 * part,
{
    assert(part * weight <= 496 && part * weight <= 16 * part) by (nonlinear_arith)
        requires
            part <= 31,
            weight <= 16,
    ;
    part * weight
}

/// One part of two colours blended: `eva` sixteenths of the first and `evb`
/// sixteenths of the second, and no more than 31.
pub open spec fn spec_blend_part(a: int, b: int, eva: int, evb: int) -> int {
    if (a * eva + b * evb) / 16 > 31 {
        31
    } else {
        (a * eva + b * evb) / 16
    }
}

/// Two colours blended: `eva` sixteenths of `a` and `evb` sixteenths of `b`,
/// part by part.
pub open spec fn spec_blend(a: u16, b: u16, eva: int, evb: int) -> u16 {
    spec_from_channels(
        spec_blend_part(spec_channel(a, 0), spec_channel(b, 0), eva, evb),
        spec_blend_part(spec_channel(a, 1), spec_channel(b, 1), eva, evb),
        spec_blend_part(spec_channel(a, 2), spec_channel(b, 2), eva, evb),
    )
}

/// Blends one part of two colours.
fn blend_part(a: u32, b: u32, eva: u32, evb: u32) -> (r: u32)
    requires
        a <= 31,
        b <= 31,
        eva <= 16,
        evb <= 16,
    ensures
        r == spec_blend_part(a as int, b as int, eva as int, evb as int),
        r <= 31,
{
    let sum: u32 = (weigh(a, eva) + weigh(b, evb)) / 16;
    if sum > 31 {
        31
    } else {
        sum
    }
}

/// Blends two colours.
pub fn blend(a: u16, b: u16, eva: u32, evb: u32) -> (r: u16)
    requires
        eva <= 16,
        evb <= 16,
    ensures
        r == spec_blend(a, b, eva as int, evb as int),
        r < 0x8000,
{
    let red: u32 = blend_part((a % 32) as u32, (b % 32) as u32, eva, evb);
    let green: u32 = blend_part(((a / 32) % 32) as u32, ((b / 32) % 32) as u32, eva, evb);
    let blue: u32 = blend_part(((a / 1024) % 32) as u32, ((b / 1024) % 32) as u32, eva, evb);
    (red + 32 * green + 1024 * blue) as u16
}

/// The colour `a` made brighter: each part moves `evy` sixteenths of the way
/// to 31.
pub open spec fn spec_brighten(a: u16, evy: int) -> u16 {
    spec_from_channels(
        spec_channel(a, 0) + ((31 - spec_channel(a, 0)) * evy) / 16,
        spec_channel(a, 1) + ((31 - spec_channel(a, 1)) * evy) / 16,
        spec_channel(a, 2) + ((31 - spec_channel(a, 2)) * evy) / 16,
    )
}

/// Makes a colour brighter.
pub fn brighten(a: u16, evy: u32) -> (r: u16)
    requires
        evy <= 16,
    ensures
        r == spec_brighten(a, evy as int),
        r < 0x8000,
{
    let r0: u32 = (a % 32) as u32;
    let g0: u32 = ((a / 32) % 32) as u32;
    let b0: u32 = ((a / 1024) % 32) as u32;
    let red: u32 = r0 + weigh(31 - r0, evy) / 16;
    let green: u32 = g0 + weigh(31 - g0, evy) / 16;
    let blue: u32 = b0 + weigh(31 - b0, evy) / 16;
    (red + 32 * green + 1024 * blue) as u16
}

/// The colour `a` made darker: each part moves `evy` sixteenths of the way
/// to 0.
pub open spec fn spec_darken(a: u16, evy: int) -> u16 {
    spec_from_channels(
        spec_channel(a, 0) - (spec_channel(a, 0) * evy) / 16,
        spec_channel(a, 1) - (spec_channel(a, 1) * evy) / 16,
        spec_channel(a, 2) - (spec_channel(a, 2) * evy) / 16,
    )
}

/// Makes a colour darker.
pub fn darken(a: u16, evy: u32) -> (r: u16)
    requires
        evy <= 16,
    ensures
        r == spec_darken(a, evy as int),
        r < 0x8000,
{
    let r0: u32 = (a % 32) as u32;
    let g0: u32 = ((a / 32) % 32) as u32;
    let b0: u32 = ((a / 1024) % 32) as u32;
    let red: u32 = r0 - weigh(r0, evy) / 16;
    let green: u32 = g0 - weigh(g0, evy) / 16;
    let blue: u32 = b0 - weigh(b0, evy) / 16;
    (red + 32 * green + 1024 * blue) as u16
}

/// The colour `c` of palette memory, which holds red in its lowest five
/// bits, in the format of the frame buffer, which holds red in its highest
/// five: red and blue change places.
pub open spec fn spec_to_rgb555(c: u16) -> u16 {
    spec_from_channels(spec_channel(c, 2), spec_channel(c, 1), spec_channel(c, 0))
}

/// Turns a colour of palette memory into the format of the frame buffer.
pub fn to_rgb555(c: u16) -> (r: u16)
    ensures
        r == spec_to_rgb555(c),
        r < 0x8000,
{
    let red: u16 = c % 32;
    let green: u16 = (c / 32) % 32;
    let blue: u16 = (c / 1024) % 32;
    blue + 32 * green + 1024 * red
}

/// Whether `v` lies between `from` and `to`, `from` included; where `from`
/// is the larger the span runs over the edge of the screen and comes in
/// again at the other.
pub open spec fn spec_in_span(v: int, from: int, to: int) -> bool {
    if from <= to {
        from <= v < to
    } else {
        v >= from || v < to
    }
}

/// Whether `v` lies between `from` and `to`.
pub fn in_span(v: u32, from: u32, to: u32) -> (r: bool)
    ensures
        r == spec_in_span(v as int, from as int, to as int),
{
    if from <= to {
        from <= v && v < to
    } else {
        v >= from || v < to
    }
}

/// Turning a colour into the format of the frame buffer twice gives the
/// colour back, but for its top bit.
pub proof fn lemma_to_rgb555_twice(c: u16)
    requires
        c < 0x8000,
    ensures
        spec_to_rgb555(spec_to_rgb555(c)) == c,
{
    let r = c as int % 32;
    let g = (c as int / 32) % 32;
    let b = (c as int / 1024) % 32;
    assert(c == r + 32 * g + 1024 * b);
    let d = spec_to_rgb555(c) as int;
    assert(d == b + 32 * g + 1024 * r);
    assert(d % 32 == b);
    assert((d / 32) % 32 == g);
    assert((d / 1024) % 32 == r);
}

/// Blending all of a colour with none of another leaves the colour.
pub proof fn lemma_blend_all_of_one(a: u16, b: u16)
    requires
        a < 0x8000,
    ensures
        spec_blend(a, b, 16, 0) == a,
        spec_brighten(a, 0) == a,
        spec_darken(a, 0) == a,
        spec_brighten(a, 16) == 0x7fff,
        spec_darken(a, 16) == 0,
{
}

} // verus!
