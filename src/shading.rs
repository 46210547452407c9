use vstd::prelude::*;
use crate::color::{Rgba, SHADE_ONE};

verus! {

/// Brightness of a face struck across a vertical grid line.
pub const VERTICAL_SHADE: u32 = 243;

/// How much of `SHADE_ONE` distance shading removes at `max_distance` and beyond.
pub const DISTANCE_FALLOFF: u32 = 64;

/// Brightness for a wall face by orientation: faces of vertical grid lines are slightly
/// darker than faces of horizontal ones.
pub open spec fn orientation_shade(hit_vertical: bool) -> int {
    if hit_vertical { VERTICAL_SHADE as int } else { SHADE_ONE as int }
}

/// Linear falloff from full brightness at distance 0 to `SHADE_ONE - DISTANCE_FALLOFF`
/// at `max_distance` and beyond.
pub open spec fn distance_shade(distance: int, max_distance: int) -> int {
    if max_distance <= 0 {
        SHADE_ONE as int
    } else {
        let clamped = if distance < max_distance { distance } else { max_distance };
        SHADE_ONE as int - clamped * DISTANCE_FALLOFF as int / max_distance
    }
}

/// One channel moved from `c` toward `f` by the fraction `k / span`.
pub open spec fn lerp_channel(c: u8, f: u8, k: int, span: int) -> u8 {
    ((c as int * (span - k) + f as int * k) / span) as u8
}

/// The fog fraction's numerator over `fog_distance`: the distance, capped at `fog_distance`.
pub open spec fn fog_amount(distance: int, fog_distance: int) -> int {
    if distance < fog_distance { distance } else { fog_distance }
}

/// A color blended toward `fog_color`, all four channels, by `min(distance / fog_distance, 1)`.
/// With no fog distance, everything but distance 0 is entirely fog.
pub open spec fn fog_blend(c: Rgba, distance: int, fog_distance: int, fog_color: Rgba) -> Rgba {
    if fog_distance <= 0 {
        if distance <= 0 { c } else { fog_color }
    } else {
        let k = fog_amount(distance, fog_distance);
        Rgba {
            r: lerp_channel(c.r, fog_color.r, k, fog_distance),
            g: lerp_channel(c.g, fog_color.g, k, fog_distance),
            b: lerp_channel(c.b, fog_color.b, k, fog_distance),
            a: lerp_channel(c.a, fog_color.a, k, fog_distance),
        }
    }
}

/// `orientation_shade`: 243/256 for vertical faces, full for horizontal ones.
pub fn orientation_shade_factor(hit_vertical: bool) -> (s: u32)
    ensures
        s == orientation_shade(hit_vertical),
{
    if hit_vertical { VERTICAL_SHADE } else { SHADE_ONE }
}

/// `distance_shade`: always between `SHADE_ONE - DISTANCE_FALLOFF` and `SHADE_ONE`.
pub fn distance_shade_factor(distance: u64, max_distance: u64) -> (s: u32)
    ensures
        s == distance_shade(distance as int, max_distance as int),
        SHADE_ONE - DISTANCE_FALLOFF <= s <= SHADE_ONE,
{
    if max_distance == 0 {
        SHADE_ONE
    } else {
        let clamped: u64 = if distance < max_distance { distance } else { max_distance };
        assert(clamped as int * 64 <= max_distance as int * 64) by (nonlinear_arith)
            requires clamped <= max_distance;
        assert((clamped as int * 64) / (max_distance as int) <= 64) by (nonlinear_arith)
            requires clamped <= max_distance, max_distance > 0;
        let drop: u128 = (clamped as u128 * DISTANCE_FALLOFF as u128) / max_distance as u128;
        SHADE_ONE - drop as u32
    }
}

fn lerp_u8(c: u8, f: u8, k: u64, span: u64) -> (r: u8)
    requires
        0 < span,
        k <= span,
    ensures
        r == lerp_channel(c, f, k as int, span as int),
{
    assert(c as int * (span - k) <= 255 * 0x1_0000_0000_0000_0000) by (nonlinear_arith)
        requires c <= 255, span - k <= 0x1_0000_0000_0000_0000, k <= span;
    assert(f as int * k <= 255 * 0x1_0000_0000_0000_0000) by (nonlinear_arith)
        requires f <= 255, k <= 0x1_0000_0000_0000_0000;
    let num: u128 = c as u128 * (span - k) as u128 + f as u128 * k as u128;
    proof {
        assert(c as int * (span - k) + f as int * k <= 255 * span) by (nonlinear_arith)
            requires c <= 255, f <= 255, k <= span;
        assert((c as int * (span - k) + f as int * k) / span as int <= 255) by (nonlinear_arith)
            requires c as int * (span - k) + f as int * k <= 255 * span, span > 0,
                c as int * (span - k) + f as int * k >= 0;
    }
    (num / span as u128) as u8
}

/// Blends `color` toward `fog_color`, alpha included, by `min(distance / fog_distance, 1)`.
pub fn apply_fog(color: Rgba, distance: u64, fog_distance: u64, fog_color: Rgba) -> (r: Rgba)
    ensures
        r == fog_blend(color, distance as int, fog_distance as int, fog_color),
{
    if fog_distance == 0 {
        if distance == 0 { color } else { fog_color }
    } else {
        let k: u64 = if distance < fog_distance { distance } else { fog_distance };
        Rgba {
            r: lerp_u8(color.r, fog_color.r, k, fog_distance),
            g: lerp_u8(color.g, fog_color.g, k, fog_distance),
            b: lerp_u8(color.b, fog_color.b, k, fog_distance),
            a: lerp_u8(color.a, fog_color.a, k, fog_distance),
        }
    }
}

/// Nearer is never darker: for a fixed `max_distance`, distance shading does not increase
/// with distance.
pub proof fn lemma_distance_shade_monotonic(d1: int, d2: int, max_distance: int)
    requires
        0 <= d1 < d2,
    ensures
        distance_shade(d1, max_distance) >= distance_shade(d2, max_distance),
{
    if max_distance > 0 {
        let c1 = if d1 < max_distance { d1 } else { max_distance };
        let c2 = if d2 < max_distance { d2 } else { max_distance };
        assert(c1 * 64 <= c2 * 64);
        vstd::arithmetic::div_mod::lemma_div_is_ordered(c1 * 64, c2 * 64, max_distance);
    }
}

/// Fog leaves a color unchanged at distance 0.
pub proof fn lemma_fog_at_zero(c: Rgba, fog_distance: int, fog_color: Rgba)
    ensures
        fog_blend(c, 0, fog_distance, fog_color) == c,
{
    if fog_distance > 0 {
        assert(fog_amount(0, fog_distance) == 0);
        assert(c.r as int * (fog_distance - 0) + fog_color.r as int * 0 == c.r as int * fog_distance) by (nonlinear_arith);
        assert(c.g as int * (fog_distance - 0) + fog_color.g as int * 0 == c.g as int * fog_distance) by (nonlinear_arith);
        assert(c.b as int * (fog_distance - 0) + fog_color.b as int * 0 == c.b as int * fog_distance) by (nonlinear_arith);
        vstd::arithmetic::div_mod::lemma_div_by_multiple(c.r as int, fog_distance);
        vstd::arithmetic::div_mod::lemma_div_by_multiple(c.g as int, fog_distance);
        assert(c.a as int * (fog_distance - 0) + fog_color.a as int * 0 == c.a as int * fog_distance) by (nonlinear_arith);
        vstd::arithmetic::div_mod::lemma_div_by_multiple(c.b as int, fog_distance);
        vstd::arithmetic::div_mod::lemma_div_by_multiple(c.a as int, fog_distance);
    }
}

/// At (and beyond) a positive fog distance, fog replaces the color entirely.
pub proof fn lemma_fog_saturates(c: Rgba, distance: int, fog_distance: int, fog_color: Rgba)
    requires
        0 < fog_distance <= distance,
    ensures
        fog_blend(c, distance, fog_distance, fog_color) == fog_color,
{
    assert(fog_amount(distance, fog_distance) == fog_distance);
    assert(c.r as int * (fog_distance - fog_distance) + fog_color.r as int * fog_distance == fog_color.r as int * fog_distance) by (nonlinear_arith);
    assert(c.g as int * (fog_distance - fog_distance) + fog_color.g as int * fog_distance == fog_color.g as int * fog_distance) by (nonlinear_arith);
    assert(c.b as int * (fog_distance - fog_distance) + fog_color.b as int * fog_distance == fog_color.b as int * fog_distance) by (nonlinear_arith);
    vstd::arithmetic::div_mod::lemma_div_by_multiple(fog_color.r as int, fog_distance);
    vstd::arithmetic::div_mod::lemma_div_by_multiple(fog_color.g as int, fog_distance);
    assert(c.a as int * (fog_distance - fog_distance) + fog_color.a as int * fog_distance == fog_color.a as int * fog_distance) by (nonlinear_arith);
    vstd::arithmetic::div_mod::lemma_div_by_multiple(fog_color.b as int, fog_distance);
    vstd::arithmetic::div_mod::lemma_div_by_multiple(fog_color.a as int, fog_distance);
}

} // verus!
