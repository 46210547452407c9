use vstd::prelude::*;

verus! {

/// One RGBA pixel, eight bits per channel.
#[derive(Clone, Copy, Debug, PartialEq, Eq, Structural)]
pub struct Rgba {
    pub r: u8,
    pub g: u8,
    pub b: u8,
    pub a: u8,
}

/// Brightness multipliers are fixed-point fractions of this value.
pub const SHADE_ONE: u32 = 256;

impl Rgba {
    pub fn new(r: u8, g: u8, b: u8, a: u8) -> (c: Rgba)
        ensures
            c == (Rgba { r, g, b, a }),
    {
        Rgba { r, g, b, a }
    }

    /// Opaque black.
    pub fn black() -> (c: Rgba)
        ensures
            c == (Rgba { r: 0, g: 0, b: 0, a: 255 }),
    {
        Rgba { r: 0, g: 0, b: 0, a: 255 }
    }
}

/// A channel scaled by a shade factor of `shade / SHADE_ONE`, truncated.
pub open spec fn scale_channel(c: u8, shade: u32) -> u8 {
    ((c as int * shade as int) / SHADE_ONE as int) as u8
}

/// A color darkened by `shade / SHADE_ONE` on each of red, green and blue; opaque.
pub open spec fn shaded(c: Rgba, shade: u32) -> Rgba {
    Rgba {
        r: scale_channel(c.r, shade),
        g: scale_channel(c.g, shade),
        b: scale_channel(c.b, shade),
        a: 255,
    }
}

fn scale_u8(c: u8, shade: u32) -> (r: u8)
    requires
        shade <= SHADE_ONE,
    ensures
        r == scale_channel(c, shade),
        r <= c,
{
    assert(c as int * shade as int <= c as int * 256) by (nonlinear_arith)
        requires shade <= 256;
    assert((c as int * shade as int) / 256 <= c as int) by (nonlinear_arith)
        requires c as int * shade as int <= c as int * 256, shade >= 0, c >= 0;
    let p: u32 = c as u32 * shade;
    (p / SHADE_ONE) as u8
}

/// Multiplies the red, green and blue channels by `shade / SHADE_ONE`; the result is opaque.
pub fn shade_color(c: Rgba, shade: u32) -> (r: Rgba)
    requires
        shade <= SHADE_ONE,
    ensures
        r == shaded(c, shade),
{
    Rgba { r: scale_u8(c.r, shade), g: scale_u8(c.g, shade), b: scale_u8(c.b, shade), a: 255 }
}

} // verus!
