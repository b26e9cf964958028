//! A bounded rotary control.
//!
//! A dial holds a normalized value in `[0, 1]` (fixed point). Dragging
//! inside its hit circle turns the pointer motion into a signed angular
//! delta and folds that into the value: clamped into `[0, 1]` when the
//! dial has an output range, wrapped modulo one full turn when it has
//! none. Rendering emits an optional static background primitive and one
//! quad rotated by the remapped angle.

use crate::collision::{
    angle, circle, dist_at_least, spec_angle, spec_dist2, spec_in_circle, TWO_PI_FP,
};
use crate::fixed::{clamp, lemma_div_le, mul_div, mul_div_i, sabs, tdiv, SCALE};
use crate::prim::{transformed_quad, Prim, Tex};
use crate::vec2::{bounded, vec3, Vec2, COORD_LIMIT};
use vstd::prelude::*;

verus! {

/// Hits closer to the dial center than this are rejected: the angle there
/// is ill-conditioned.
pub const DEAD_ZONE_FP: i64 = 1_000;

/// A bounded rotary control.
#[derive(Clone, Copy, Debug)]
pub struct Dial {
    /// Lower-left corner of the dial quad.
    pub pos: Vec2,
    /// Extent of the dial quad.
    pub size: Vec2,
    /// Normalized value, a fixed-point fraction in `[0, 1]`.
    pub val: u64,
    /// Output angle remap; the value is clamped when present, wrapped when
    /// absent.
    pub range: Option<(i64, i64)>,
    /// Appearance of the rotating quad.
    pub tex: Tex,
    /// Back-to-front order of the rotating quad.
    pub z_index: i64,
    /// Static primitive drawn under the dial, if any.
    pub background: Option<Prim>,
}

impl Dial {
    /// A dial the gesture and render rules can work with: value
    /// normalized, layout bounded, any range nonempty and normalized.
    pub open spec fn wf(self) -> bool {
        &&& self.val <= SCALE
        &&& bounded(self.pos)
        &&& bounded(self.size)
        &&& 0 < self.size.x
        &&& 0 < self.size.y
        &&& match self.range {
            Some((lo, hi)) => -(SCALE as int) <= lo < hi <= SCALE as int,
            None => true,
        }
    }

    /// Center of the dial quad.
    pub open spec fn spec_center(self) -> Vec2 {
        Vec2 {
            x: (self.pos.x + self.size.x / 2) as i64,
            y: (self.pos.y + self.size.y / 2) as i64,
        }
    }

    /// Radius of the hit circle: five twelfths of the dial width.
    pub open spec fn spec_hit_radius(self) -> int {
        self.size.x * 5 / 12
    }

    /// Whether a press at `initial_pos` grabs the dial: inside the hit
    /// circle but outside the center dead zone.
    pub open spec fn spec_grabbed(self, initial_pos: Vec2) -> bool {
        spec_in_circle(initial_pos, self.spec_center(), self.spec_hit_radius()) && spec_dist2(
            initial_pos,
            self.spec_center(),
        ) >= DEAD_ZONE_FP * DEAD_ZONE_FP
    }

    /// The angular delta of a drag step: the signed angle from the
    /// previous pointer position to the current one about the dial center,
    /// with sweeps past a radian discarded as wraparound noise.
    pub open spec fn spec_drag_theta(self, pos: Vec2, delta: Vec2) -> int {
        let prev = Vec2 { x: (pos.x - delta.x) as i64, y: (pos.y - delta.y) as i64 };
        let theta = spec_angle(self.spec_center(), prev, pos);
        if sabs(theta) > SCALE {
            0
        } else {
            theta
        }
    }

    /// The value after folding an angular delta `theta` into the dial:
    /// scaled by the range span and clamped when ranged, wrapped modulo
    /// one otherwise.
    pub open spec fn spec_turned_val(self, theta: int) -> int {
        match self.range {
            Some((lo, hi)) => clamp(
                self.val + tdiv(theta * (SCALE as int) * (SCALE as int), (TWO_PI_FP as int) * (hi
                    - lo)),
                0,
                SCALE as int,
            ),
            None => (self.val + tdiv(theta * (SCALE as int), TWO_PI_FP as int)) % (SCALE as int),
        }
    }

    /// The rotation angle of the dial quad: the value as a negative
    /// fraction of a full turn, remapped through the range when one is
    /// set — an additive offset followed by a multiplicative span, kept
    /// exactly as the visual design defines it.
    pub open spec fn spec_trans(self) -> int {
        let v = -(self.val * (TWO_PI_FP as int) / (SCALE as int));
        match self.range {
            Some((lo, hi)) => tdiv((lo + v) * (hi - lo), SCALE as int),
            None => v,
        }
    }

    /// The primitives one render pass emits: the background, if any, then
    /// the rotating quad.
    pub open spec fn spec_render(self) -> Seq<Prim> {
        let dial_quad = Prim {
            pos: crate::vec2::Vec3 { x: self.pos.x, y: self.pos.y, z: self.z_index },
            size: self.size,
            tex: self.tex,
            rot: self.spec_trans() as i64,
        };
        match self.background {
            Some(b) => seq![b, dial_quad],
            None => seq![dial_quad],
        }
    }

    /// The rotation angle of the dial quad, in fixed-point radians.
    pub fn trans(&self) -> (r: i64)
        requires
            self.wf(),
        ensures
            r == self.spec_trans(),
            sabs(r as int) <= 8 * TWO_PI_FP,
    {
        proof {
            lemma_div_le(
                self.val * (TWO_PI_FP as int),
                (SCALE as int) * (TWO_PI_FP as int),
                SCALE as int,
            );
            assert(self.val * (TWO_PI_FP as int) <= (SCALE as int) * (TWO_PI_FP as int))
                by (nonlinear_arith)
                requires
                    self.val <= SCALE,
            ;
            assert(((SCALE as int) * (TWO_PI_FP as int)) / (SCALE as int) == TWO_PI_FP)
                by (nonlinear_arith)
                requires
                    SCALE > 0,
            ;
        }
        let m: u64 = mul_div(self.val, TWO_PI_FP, SCALE);
        let v: i64 = -(m as i64);
        match self.range {
            Some((lo, hi)) => {
                proof {
                    assert(sabs((lo + v) * (hi - lo)) <= (8 * SCALE) * (2 * SCALE))
                        by (nonlinear_arith)
                        requires
                            sabs(lo + v as int) <= 8 * SCALE,
                            0 < hi - lo <= 2 * SCALE,
                    ;
                    lemma_div_le(0, (8 * SCALE) * (2 * SCALE), SCALE as int);
                    lemma_div_le(sabs((lo + v) * (hi - lo)), (8 * SCALE) * (2 * SCALE), SCALE as int);
                    assert(((8 * SCALE) as int * (2 * SCALE) as int) / (SCALE as int) == 16 * SCALE);
                }
                let r: i64 = mul_div_i(lo + v, hi - lo, SCALE);
                proof {
                    assert(sabs(tdiv((lo + v) * (hi - lo), SCALE as int)) <= 16 * SCALE);
                }
                r
            },
            None => v,
        }
    }

    /// One drag step. A press inside the hit circle (and off the exact
    /// center) grabs the dial, folds the angular delta into the value,
    /// and reports the gesture as consumed; any other press leaves the
    /// dial unchanged.
    pub fn drag(&mut self, initial_pos: Vec2, pos: Vec2, delta: Vec2) -> (consumed: bool)
        requires
            old(self).wf(),
            bounded(initial_pos),
            bounded(pos),
            bounded(delta),
        ensures
            consumed == old(self).spec_grabbed(initial_pos),
            consumed ==> *final(self) == (Dial {
                val: old(self).spec_turned_val(old(self).spec_drag_theta(pos, delta)) as u64,
                ..*old(self)
            }),
            !consumed ==> *final(self) == *old(self),
            final(self).wf(),
    {
        let center = Vec2 { x: self.pos.x + (self.size.x as u64 / 2) as i64, y: self.pos.y + (
        self.size.y as u64 / 2) as i64 };
        proof {
            assert(center == self.spec_center());
        }
        let radius: i64 = ((self.size.x as u64 * 5) / 12) as i64;
        if circle(initial_pos, center, radius) && dist_at_least(initial_pos, center, DEAD_ZONE_FP) {
            let prev = Vec2 { x: pos.x - delta.x, y: pos.y - delta.y };
            let swept: i64 = angle(center, prev, pos);
            let theta: i64 = if swept > 1_000_000 || swept < -1_000_000 {
                0
            } else {
                swept
            };
            proof {
                assert(theta == self.spec_drag_theta(pos, delta));
            }
            match self.range {
                Some((lo, hi)) => {
                    let ts: i64 = theta * (SCALE as i64);
                    let den: u64 = TWO_PI_FP * ((hi - lo) as u64);
                    proof {
                        assert(sabs(ts * (SCALE as int)) <= 1_000_000_000_000_000_000int)
                            by (nonlinear_arith)
                            requires
                                sabs(ts as int) <= 1_000_000_000_000int,
                        ;
                        lemma_div_le(
                            sabs(ts * (SCALE as int)),
                            1_000_000_000_000_000_000int,
                            den as int,
                        );
                        lemma_div_le(0, 1_000_000_000_000_000_000int, den as int);
                    }
                    let dv: i64 = mul_div_i(ts, SCALE as i64, den);
                    let sum: i64 = self.val as i64 + dv;
                    let new_val: u64 = if sum < 0 {
                        0
                    } else if sum > SCALE as i64 {
                        SCALE
                    } else {
                        sum as u64
                    };
                    proof {
                        assert(ts * (SCALE as int) == theta * (SCALE as int) * (SCALE as int));
                        assert(new_val == self.spec_turned_val(theta as int));
                    }
                    self.val = new_val;
                },
                None => {
                    let dv: i64 = mul_div_i(theta, SCALE as i64, TWO_PI_FP);
                    proof {
                        lemma_div_le(sabs(theta * (SCALE as int)), (SCALE as int) * (SCALE as int), TWO_PI_FP as int);
                        lemma_div_le(0, (SCALE as int) * (SCALE as int), TWO_PI_FP as int);
                        assert(sabs(theta * (SCALE as int)) <= (SCALE as int) * (SCALE as int))
                            by (nonlinear_arith)
                            requires
                                sabs(theta as int) <= SCALE,
                        ;
                    }
                    let sum: i64 = self.val as i64 + dv;
                    let new_val: u64 = if sum < 0 {
                        (sum + SCALE as i64) as u64
                    } else if sum >= SCALE as i64 {
                        (sum - SCALE as i64) as u64
                    } else {
                        sum as u64
                    };
                    proof {
                        vstd::arithmetic::div_mod::lemma_fundamental_div_mod_converse(
                            sum as int,
                            SCALE as int,
                            if sum < 0 {
                                -1
                            } else if sum >= SCALE as i64 {
                                1
                            } else {
                                0
                            },
                            new_val as int,
                        );
                        assert(new_val == self.spec_turned_val(theta as int));
                    }
                    self.val = new_val;
                },
            }
            true
        } else {
            false
        }
    }

    /// Emit the background, if any, then the rotating dial quad.
    pub fn render(&self, v: &mut Vec<Prim>)
        requires
            self.wf(),
        ensures
            final(v)@ == old(v)@ + self.spec_render(),
    {
        match &self.background {
            Some(b) => {
                let bg: Prim = *b;
                v.push(bg);
            },
            None => {},
        }
        let rot: i64 = self.trans();
        transformed_quad(v, vec3(self.pos.x, self.pos.y, self.z_index), self.size, self.tex, rot);
        proof {
            assert(v@ =~= old(v)@ + self.spec_render());
        }
    }
}

} // verus!
