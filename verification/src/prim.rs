//! Abstract draw primitives.
//!
//! The core never draws: each render pass produces an ordered list of
//! quads, back-to-front by the `z` component, each with a position, a
//! size, an appearance (solid color or texture-atlas index) and a rotation
//! angle in fixed-point radians. An external renderer expands them into
//! vertex data.

use crate::fixed::{lemma_div_le, mul_div, SCALE};
use crate::vec2::{Vec2, Vec3};
use vstd::prelude::*;

verus! {

/// A color, each channel a fixed-point fraction of full intensity.
#[derive(Clone, Copy, Debug, PartialEq, Eq, Structural)]
pub struct Rgba {
    pub r: u32,
    pub g: u32,
    pub b: u32,
    pub a: u32,
}

/// Appearance of a quad: a solid color or an index into the texture atlas.
#[derive(Clone, Copy, Debug, PartialEq, Eq, Structural)]
pub enum Tex {
    Color(Rgba),
    Texture(usize),
}

/// One rotated quad of the draw list.
#[derive(Clone, Copy, Debug, PartialEq, Eq, Structural)]
pub struct Prim {
    /// Lower-left corner; `z` orders primitives back-to-front.
    pub pos: Vec3,
    pub size: Vec2,
    pub tex: Tex,
    /// Rotation angle about the quad center, fixed-point radians.
    pub rot: i64,
}

/// A color from its four channels.
pub fn rgba(r: u32, g: u32, b: u32, a: u32) -> (c: Rgba)
    ensures
        c == (Rgba { r, g, b, a }),
{
    Rgba { r, g, b, a }
}

/// Black, fully opaque.
pub open spec fn black() -> Rgba {
    Rgba { r: 0, g: 0, b: 0, a: 1_000_000 }
}

/// White, fully opaque.
pub open spec fn white() -> Rgba {
    Rgba { r: 1_000_000, g: 1_000_000, b: 1_000_000, a: 1_000_000 }
}

/// Half-intensity grey.
pub open spec fn dark_grey() -> Rgba {
    Rgba { r: 500_000, g: 500_000, b: 500_000, a: 1_000_000 }
}

/// Three-quarter-intensity grey.
pub open spec fn grey() -> Rgba {
    Rgba { r: 750_000, g: 750_000, b: 750_000, a: 1_000_000 }
}

/// A grey just lighter than [`grey`].
pub open spec fn light_grey() -> Rgba {
    Rgba { r: 810_000, g: 810_000, b: 810_000, a: 1_000_000 }
}

/// Pure red.
pub open spec fn red() -> Rgba {
    Rgba { r: 1_000_000, g: 0, b: 0, a: 1_000_000 }
}

/// A muted red for warning panels.
pub open spec fn dull_red() -> Rgba {
    Rgba { r: 590_000, g: 250_000, b: 250_000, a: 1_000_000 }
}

/// A translucent dark green for the marker line.
pub open spec fn dark_green_translucent() -> Rgba {
    Rgba { r: 50_000, g: 240_000, b: 60_000, a: 750_000 }
}

/// The fuel-bar yellow.
pub open spec fn yellow() -> Rgba {
    Rgba { r: 930_000, g: 870_000, b: 470_000, a: 1_000_000 }
}

/// The water blue.
pub open spec fn blue() -> Rgba {
    Rgba { r: 0, g: 500_000, b: 1_000_000, a: 1_000_000 }
}

/// The waste green.
pub open spec fn green() -> Rgba {
    Rgba { r: 330_000, g: 800_000, b: 200_000, a: 1_000_000 }
}

/// The glass tint of the tank window.
pub open spec fn glass() -> Rgba {
    Rgba { r: 790_000, g: 850_000, b: 860_000, a: 1_000_000 }
}

/// One color channel mixed toward another by `ratio`.
pub open spec fn spec_blend_channel(x: int, y: int, ratio: int) -> int {
    (((SCALE as int) - ratio) * x + ratio * y) / (SCALE as int)
}

/// Linear mix of two colors: at ratio `0` the first, at full scale the
/// second.
pub open spec fn spec_blend(a: Rgba, b: Rgba, ratio: int) -> Rgba {
    Rgba {
        r: spec_blend_channel(a.r as int, b.r as int, ratio) as u32,
        g: spec_blend_channel(a.g as int, b.g as int, ratio) as u32,
        b: spec_blend_channel(a.b as int, b.b as int, ratio) as u32,
        a: spec_blend_channel(a.a as int, b.a as int, ratio) as u32,
    }
}

/// One channel of the color mix.
fn blend_channel(x: u32, y: u32, ratio: u64) -> (r: u32)
    requires
        x <= SCALE,
        y <= SCALE,
        ratio <= SCALE,
    ensures
        r == spec_blend_channel(x as int, y as int, ratio as int),
        r <= SCALE,
{
    proof {
        assert((SCALE - ratio) * x + ratio * y <= SCALE * SCALE) by (nonlinear_arith)
            requires
                0 <= ratio <= SCALE,
                0 <= x <= SCALE,
                0 <= y <= SCALE,
        ;
        lemma_div_le((SCALE - ratio) * x + ratio * y, SCALE * SCALE, SCALE as int);
        assert((SCALE * SCALE) / (SCALE as int) == SCALE);
    }
    let wx: u64 = (SCALE - ratio) * (x as u64);
    let wy: u64 = ratio * (y as u64);
    ((wx + wy) / SCALE) as u32
}

/// Linear mix of two colors, exact against its spec.
pub fn blend(a: Rgba, b: Rgba, ratio: u64) -> (c: Rgba)
    requires
        a.r <= SCALE && a.g <= SCALE && a.b <= SCALE && a.a <= SCALE,
        b.r <= SCALE && b.g <= SCALE && b.b <= SCALE && b.a <= SCALE,
        ratio <= SCALE,
    ensures
        c == spec_blend(a, b, ratio as int),
{
    Rgba {
        r: blend_channel(a.r, b.r, ratio),
        g: blend_channel(a.g, b.g, ratio),
        b: blend_channel(a.b, b.b, ratio),
        a: blend_channel(a.a, b.a, ratio),
    }
}

/// A heat pool folded onto the display range `[0, 2]`: two thirds of the
/// heat, capped at two units.
pub open spec fn spec_heat_display(heat: int) -> int {
    if heat * 670_000 / (SCALE as int) <= 2 * (SCALE as int) {
        heat * 670_000 / (SCALE as int)
    } else {
        2 * (SCALE as int)
    }
}

/// The panel tint for a heat display value: grey warming toward light grey
/// below one unit, light grey reddening above it.
pub open spec fn spec_panel_color(heat: int) -> Rgba {
    let h = spec_heat_display(heat);
    if h >= SCALE {
        spec_blend(light_grey(), red(), (h - SCALE) * 800_000 / (SCALE as int))
    } else {
        spec_blend(grey(), light_grey(), h)
    }
}

/// The heat display value, executable.
pub(crate) fn heat_display(heat: u64) -> (h: u64)
    requires
        heat <= 4_000_000_000_000_000,
    ensures
        h == spec_heat_display(heat as int),
        h <= 2 * SCALE,
{
    proof {
        lemma_div_le(heat * 670_000, 4_000_000_000_000_000int * 670_000, SCALE as int);
    }
    let scaled: u64 = mul_div(heat, 670_000, SCALE);
    if scaled <= 2 * SCALE {
        scaled
    } else {
        2 * SCALE
    }
}

/// The panel tint, executable.
pub(crate) fn panel_color(heat: u64) -> (c: Rgba)
    requires
        heat <= 4_000_000_000_000_000,
    ensures
        c == spec_panel_color(heat as int),
{
    let h: u64 = heat_display(heat);
    if h >= SCALE {
        let ratio: u64 = mul_div(h - SCALE, 800_000, SCALE);
        blend(rgba(810_000, 810_000, 810_000, 1_000_000), rgba(1_000_000, 0, 0, 1_000_000), ratio)
    } else {
        blend(rgba(750_000, 750_000, 750_000, 1_000_000), rgba(810_000, 810_000, 810_000, 1_000_000), h)
    }
}

/// Append one unrotated quad to the draw list.
pub fn quad(v: &mut Vec<Prim>, pos: Vec3, size: Vec2, tex: Tex)
    ensures
        final(v)@ == old(v)@.push(Prim { pos, size, tex, rot: 0 }),
{
    v.push(Prim { pos, size, tex, rot: 0 });
}

/// Append one rotated quad to the draw list.
pub fn transformed_quad(v: &mut Vec<Prim>, pos: Vec3, size: Vec2, tex: Tex, rot: i64)
    ensures
        final(v)@ == old(v)@.push(Prim { pos, size, tex, rot }),
{
    v.push(Prim { pos, size, tex, rot });
}

} // verus!
