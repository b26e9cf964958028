//! The tertiary reprocessing unit: converts accumulated waste back into
//! fuel under neutron flux.
//!
//! The refinery keeps its own fuel, neutron and waste pools and three
//! valve dials. Its reaction consumes waste and yields fuel, fastest when
//! its fuel pool sits at half capacity; its neutron pool decays
//! unconditionally. All exchange with the reactor is driven from the
//! reactor's own update step.

use crate::dial::Dial;
use crate::fixed::{
    lemma_div_le, lemma_rate_limited, min64, mul_div, SCALE,
};
use crate::prim::{quad, rgba, Prim, Tex};
use crate::vec2::{vec2, vec3, Vec2, Vec3};
use vstd::prelude::*;

verus! {

/// Fuel the refinery can hold, in fixed-point units.
pub const REFINERY_FUEL_CAP: u64 = 10_000_000;

/// Neutron flux the refinery can hold, in fixed-point units.
pub const REFINERY_NEUTRON_CAP: u64 = 200_000;

/// Waste the refinery can hold, in fixed-point units.
pub const REFINERY_WASTE_CAP: u64 = 20_000_000;

/// The mathematical state of the refinery.
pub ghost struct RefineryModel {
    /// One-way latch: the refinery takes part in the simulation once true.
    pub unlocked: bool,
    pub fuel: int,
    pub neutrons: int,
    pub waste: int,
    pub fuel_valve: Dial,
    pub neutron_valve: Dial,
    pub waste_valve: Dial,
}

impl RefineryModel {
    /// Pools inside their capacity, the valves well-formed dials.
    pub open spec fn wf(self) -> bool {
        &&& 0 <= self.fuel <= REFINERY_FUEL_CAP
        &&& 0 <= self.neutrons <= REFINERY_NEUTRON_CAP
        &&& 0 <= self.waste <= REFINERY_WASTE_CAP
        &&& self.fuel_valve.wf()
        &&& self.neutron_valve.wf()
        &&& self.waste_valve.wf()
    }

    /// The flux lost to decay in one step: six hundred millionths of the
    /// pool, rounded up so that any positive flux strictly shrinks — the
    /// decay is unconditional, and rounding it down would let a tiny
    /// residue linger forever. It never exceeds the pool itself.
    pub open spec fn spec_decay(self) -> int {
        (self.neutrons * 600 + (SCALE as int) - 1) / (SCALE as int)
    }

    /// One internal step: the reprocessing reaction, clamped so it cannot
    /// consume more waste than one step holds, then unconditional neutron
    /// decay. The reaction rate peaks when the fuel pool is half full and
    /// dies at either end.
    pub open spec fn spec_tick(self) -> RefineryModel {
        let c1 = 100_000 * self.neutrons / (SCALE as int);
        let c2 = c1 * self.waste / (SCALE as int);
        let c3 = c2 * self.fuel / (SCALE as int);
        let c4 = c3 * (REFINERY_FUEL_CAP - self.fuel) / (SCALE as int);
        let rs = if c4 <= self.waste * 50 {
            c4
        } else {
            self.waste * 50
        };
        let refined = (200_000 * rs / (SCALE as int)) / 50;
        let f2 = if self.fuel + refined <= REFINERY_FUEL_CAP {
            self.fuel + refined
        } else {
            REFINERY_FUEL_CAP as int
        };
        RefineryModel {
            fuel: f2,
            waste: self.waste - rs / 50,
            neutrons: self.neutrons - self.spec_decay(),
            ..self
        }
    }

    /// The primitives one render pass emits: panel, three bar pairs, then
    /// the three valve dials.
    pub open spec fn spec_render(self) -> Seq<Prim> {
        seq![
            Prim {
                pos: Vec3 { x: -600_000i64, y: -900_000i64, z: 1_000_000 },
                size: Vec2 { x: 257_000, y: 400_000 },
                tex: Tex::Color(crate::prim::dull_red()),
                rot: 0,
            },
            Prim {
                pos: Vec3 { x: -590_000i64, y: -890_000i64, z: 2_000_000 },
                size: Vec2 { x: 37_000, y: 380_000 },
                tex: Tex::Color(crate::prim::black()),
                rot: 0,
            },
            Prim {
                pos: Vec3 { x: -590_000i64, y: -890_000i64, z: 3_000_000 },
                size: Vec2 {
                    x: 37_000,
                    y: (380_000 * self.fuel / (REFINERY_FUEL_CAP as int)) as i64,
                },
                tex: Tex::Color(crate::prim::yellow()),
                rot: 0,
            },
            Prim {
                pos: Vec3 { x: -540_000i64, y: -890_000i64, z: 2_000_000 },
                size: Vec2 { x: 37_000, y: 380_000 },
                tex: Tex::Color(crate::prim::black()),
                rot: 0,
            },
            Prim {
                pos: Vec3 { x: -540_000i64, y: -890_000i64, z: 3_000_000 },
                size: Vec2 {
                    x: 37_000,
                    y: (380_000 * self.neutrons / (REFINERY_NEUTRON_CAP as int)) as i64,
                },
                tex: Tex::Color(crate::prim::white()),
                rot: 0,
            },
            Prim {
                pos: Vec3 { x: -390_000i64, y: -890_000i64, z: 2_000_000 },
                size: Vec2 { x: 37_000, y: 380_000 },
                tex: Tex::Color(crate::prim::black()),
                rot: 0,
            },
            Prim {
                pos: Vec3 { x: -390_000i64, y: -890_000i64, z: 3_000_000 },
                size: Vec2 {
                    x: 37_000,
                    y: (380_000 * self.waste / (REFINERY_WASTE_CAP as int)) as i64,
                },
                tex: Tex::Color(crate::prim::green()),
                rot: 0,
            },
        ] + self.fuel_valve.spec_render() + self.neutron_valve.spec_render()
            + self.waste_valve.spec_render()
    }

    /// The refinery after a drag gesture: the first valve dial the press
    /// grabs takes the motion.
    pub open spec fn spec_drag(self, initial_pos: Vec2, pos: Vec2, delta: Vec2) -> (
        RefineryModel,
        bool,
    ) {
        if self.fuel_valve.spec_grabbed(initial_pos) {
            (
                RefineryModel {
                    fuel_valve: (Dial {
                        val: self.fuel_valve.spec_turned_val(
                            self.fuel_valve.spec_drag_theta(pos, delta),
                        ) as u64,
                        ..self.fuel_valve
                    }),
                    ..self
                },
                true,
            )
        } else if self.neutron_valve.spec_grabbed(initial_pos) {
            (
                RefineryModel {
                    neutron_valve: (Dial {
                        val: self.neutron_valve.spec_turned_val(
                            self.neutron_valve.spec_drag_theta(pos, delta),
                        ) as u64,
                        ..self.neutron_valve
                    }),
                    ..self
                },
                true,
            )
        } else if self.waste_valve.spec_grabbed(initial_pos) {
            (
                RefineryModel {
                    waste_valve: (Dial {
                        val: self.waste_valve.spec_turned_val(
                            self.waste_valve.spec_drag_theta(pos, delta),
                        ) as u64,
                        ..self.waste_valve
                    }),
                    ..self
                },
                true,
            )
        } else {
            (self, false)
        }
    }
}

/// The decay quantum is positive exactly when the flux pool is, and
/// never exceeds the pool.
pub proof fn lemma_decay_bounds(r: RefineryModel)
    requires
        0 <= r.neutrons,
    ensures
        0 <= r.spec_decay() <= r.neutrons,
        r.neutrons > 0 ==> r.spec_decay() >= 1,
{
    let n = r.neutrons;
    lemma_div_le(0, n * 600 + (SCALE as int) - 1, SCALE as int);
    assert(n * 600 <= n * (SCALE as int)) by (nonlinear_arith)
        requires
            n >= 0,
    ;
    lemma_div_le(
        n * 600 + (SCALE as int) - 1,
        n * (SCALE as int) + (SCALE as int) - 1,
        SCALE as int,
    );
    vstd::arithmetic::div_mod::lemma_fundamental_div_mod_converse_div(
        n * (SCALE as int) + (SCALE as int) - 1,
        SCALE as int,
        n,
        (SCALE as int) - 1,
    );
    if n > 0 {
        lemma_div_le(SCALE as int, n * 600 + (SCALE as int) - 1, SCALE as int);
        assert((SCALE as int) / (SCALE as int) == 1);
    }
}

/// The internal step keeps the refinery well-formed, strictly shrinks a
/// positive flux pool, and touches neither the latch nor the valves.
pub proof fn lemma_refinery_tick_wf(r: RefineryModel)
    requires
        r.wf(),
    ensures
        r.spec_tick().wf(),
        r.neutrons > 0 ==> r.spec_tick().neutrons < r.neutrons,
        r.spec_tick().unlocked == r.unlocked,
        r.spec_tick().fuel_valve == r.fuel_valve,
        r.spec_tick().neutron_valve == r.neutron_valve,
        r.spec_tick().waste_valve == r.waste_valve,
{
    lemma_decay_bounds(r);
    let c1 = 100_000 * r.neutrons / (SCALE as int);
    lemma_div_le(0, 100_000 * r.neutrons, SCALE as int);
    assert(c1 * r.waste >= 0) by (nonlinear_arith)
        requires
            c1 >= 0,
            r.waste >= 0,
    ;
    let c2 = c1 * r.waste / (SCALE as int);
    lemma_div_le(0, c1 * r.waste, SCALE as int);
    assert(c2 * r.fuel >= 0) by (nonlinear_arith)
        requires
            c2 >= 0,
            r.fuel >= 0,
    ;
    let c3 = c2 * r.fuel / (SCALE as int);
    lemma_div_le(0, c2 * r.fuel, SCALE as int);
    assert(c3 * ((REFINERY_FUEL_CAP as int) - r.fuel) >= 0) by (nonlinear_arith)
        requires
            c3 >= 0,
            r.fuel <= REFINERY_FUEL_CAP,
    ;
    let c4 = c3 * ((REFINERY_FUEL_CAP as int) - r.fuel) / (SCALE as int);
    lemma_div_le(0, c3 * ((REFINERY_FUEL_CAP as int) - r.fuel), SCALE as int);
    let rs = if c4 <= r.waste * 50 {
        c4
    } else {
        r.waste * 50
    };
    lemma_div_le(0, 200_000 * rs, SCALE as int);
    lemma_div_le(0, 200_000 * rs / (SCALE as int), 50);
    lemma_rate_limited(rs, r.waste);
}

/// The tertiary reprocessing unit.
pub struct Refinery {
    pub unlocked: bool,
    pub fuel: u64,
    pub neutrons: u64,
    pub waste: u64,
    pub fuel_valve: Dial,
    pub neutron_valve: Dial,
    pub waste_valve: Dial,
}

impl View for Refinery {
    type V = RefineryModel;

    open spec fn view(&self) -> RefineryModel {
        RefineryModel {
            unlocked: self.unlocked,
            fuel: self.fuel as int,
            neutrons: self.neutrons as int,
            waste: self.waste as int,
            fuel_valve: self.fuel_valve,
            neutron_valve: self.neutron_valve,
            waste_valve: self.waste_valve,
        }
    }
}

/// A valve dial at the refinery panel, from the corner of its backing
/// quad.
fn refinery_valve(corner_x: i64, corner_y: i64, val: u64) -> (d: Dial)
    requires
        -1_000_000 <= corner_x <= 1_000_000,
        -1_000_000 <= corner_y <= 1_000_000,
        val <= SCALE,
    ensures
        d == spec_refinery_valve(corner_x as int, corner_y as int, val as int),
        d.wf(),
{
    Dial {
        pos: vec2(corner_x + 8_333, corner_y + 8_333),
        size: vec2(83_333, 83_333),
        val,
        range: Some((0, 500_000)),
        tex: Tex::Texture(3),
        z_index: 3_000_000,
        background: Some(
            Prim {
                pos: vec3(corner_x, corner_y, 2_000_000),
                size: vec2(100_000, 100_000),
                tex: Tex::Color(rgba(500_000, 500_000, 500_000, 1_000_000)),
                rot: 0,
            },
        ),
    }
}

/// The dial [`refinery_valve`] builds.
pub open spec fn spec_refinery_valve(corner_x: int, corner_y: int, val: int) -> Dial {
    Dial {
        pos: Vec2 { x: (corner_x + 8_333) as i64, y: (corner_y + 8_333) as i64 },
        size: Vec2 { x: 83_333, y: 83_333 },
        val: val as u64,
        range: Some((0, 500_000)),
        tex: Tex::Texture(3),
        z_index: 3_000_000,
        background: Some(
            Prim {
                pos: Vec3 { x: corner_x as i64, y: corner_y as i64, z: 2_000_000 },
                size: Vec2 { x: 100_000, y: 100_000 },
                tex: Tex::Color(crate::prim::dark_grey()),
                rot: 0,
            },
        ),
    }
}

impl Refinery {
    /// The refinery as the session starts: locked, every pool empty, the
    /// fuel valve centered (no flow either way), the others shut.
    pub open spec fn spec_init() -> RefineryModel {
        RefineryModel {
            unlocked: false,
            fuel: 0,
            neutrons: 0,
            waste: 0,
            fuel_valve: spec_refinery_valve(-550_000, -400_000, 500_000),
            neutron_valve: spec_refinery_valve(-350_000, -400_000, 0),
            waste_valve: spec_refinery_valve(-200_000, -400_000, 0),
        }
    }

    /// A fresh refinery.
    pub fn new() -> (r: Refinery)
        ensures
            r@ == Self::spec_init(),
            r@.wf(),
    {
        Refinery {
            unlocked: false,
            fuel: 0,
            neutrons: 0,
            waste: 0,
            fuel_valve: refinery_valve(-550_000, -400_000, 500_000),
            neutron_valve: refinery_valve(-350_000, -400_000, 0),
            waste_valve: refinery_valve(-200_000, -400_000, 0),
        }
    }

    /// One internal step of the refinery. A positive flux pool always
    /// comes out strictly smaller: the decay is unconditional.
    pub fn tick(&mut self)
        requires
            old(self)@.wf(),
        ensures
            final(self)@ == old(self)@.spec_tick(),
            final(self)@.wf(),
            old(self)@.neutrons > 0 ==> final(self)@.neutrons < old(self)@.neutrons,
    {
        proof {
            lemma_div_le(100_000 * self@.neutrons, 100_000 * 200_000int, SCALE as int);
        }
        let c1: u64 = mul_div(100_000, self.neutrons, SCALE);
        proof {
            assert(c1 * self.waste <= 20_000int * 20_000_000int) by (nonlinear_arith)
                requires
                    0 <= c1 <= 20_000,
                    0 <= self.waste <= 20_000_000,
            ;
            lemma_div_le(c1 * self.waste, 20_000int * 20_000_000int, SCALE as int);
        }
        let c2: u64 = mul_div(c1, self.waste, SCALE);
        proof {
            assert(c2 * self.fuel <= 400_000int * 10_000_000int) by (nonlinear_arith)
                requires
                    0 <= c2 <= 400_000,
                    0 <= self.fuel <= 10_000_000,
            ;
            lemma_div_le(c2 * self.fuel, 400_000int * 10_000_000int, SCALE as int);
        }
        let c3: u64 = mul_div(c2, self.fuel, SCALE);
        proof {
            assert(c3 * (REFINERY_FUEL_CAP - self.fuel) <= 4_000_000int * 10_000_000int)
                by (nonlinear_arith)
                requires
                    0 <= c3 <= 4_000_000,
                    0 <= REFINERY_FUEL_CAP - self.fuel <= 10_000_000,
            ;
            lemma_div_le(c3 * (REFINERY_FUEL_CAP - self.fuel), 4_000_000int * 10_000_000int, SCALE as int);
        }
        let c4: u64 = mul_div(c3, REFINERY_FUEL_CAP - self.fuel, SCALE);
        let rs: u64 = min64(c4, self.waste * 50);
        proof {
            lemma_div_le(200_000 * rs, 200_000 * 40_000_000_000int, SCALE as int);
            lemma_rate_limited(rs as int, self@.waste);
        }
        let refined: u64 = mul_div(200_000, rs, SCALE) / 50;
        self.fuel = min64(self.fuel + refined, REFINERY_FUEL_CAP);
        self.waste = self.waste - rs / 50;
        proof {
            lemma_decay_bounds(self@);
        }
        let decay: u64 = (self.neutrons * 600 + (SCALE - 1)) / SCALE;
        self.neutrons = self.neutrons - decay;
    }

    /// Emit the refinery panel: backing, fuel, neutron and waste bars,
    /// then the three valve dials.
    pub fn render(&self, v: &mut Vec<Prim>)
        requires
            self@.wf(),
        ensures
            final(v)@ == old(v)@ + self@.spec_render(),
    {
        quad(v, vec3(-600_000, -900_000, 1_000_000), vec2(257_000, 400_000), Tex::Color(
        rgba(590_000, 250_000, 250_000, 1_000_000)));
        quad(v, vec3(-590_000, -890_000, 2_000_000), vec2(37_000, 380_000), Tex::Color(
        rgba(0, 0, 0, 1_000_000)));
        let fuel_h: u64 = mul_div(380_000, self.fuel, REFINERY_FUEL_CAP);
        quad(v, vec3(-590_000, -890_000, 3_000_000), vec2(37_000, fuel_h as i64), Tex::Color(
        rgba(930_000, 870_000, 470_000, 1_000_000)));
        quad(v, vec3(-540_000, -890_000, 2_000_000), vec2(37_000, 380_000), Tex::Color(
        rgba(0, 0, 0, 1_000_000)));
        let n_h: u64 = mul_div(380_000, self.neutrons, REFINERY_NEUTRON_CAP);
        quad(v, vec3(-540_000, -890_000, 3_000_000), vec2(37_000, n_h as i64), Tex::Color(
        rgba(1_000_000, 1_000_000, 1_000_000, 1_000_000)));
        quad(v, vec3(-390_000, -890_000, 2_000_000), vec2(37_000, 380_000), Tex::Color(
        rgba(0, 0, 0, 1_000_000)));
        let waste_h: u64 = mul_div(380_000, self.waste, REFINERY_WASTE_CAP);
        quad(v, vec3(-390_000, -890_000, 3_000_000), vec2(37_000, waste_h as i64), Tex::Color(
        rgba(330_000, 800_000, 200_000, 1_000_000)));
        self.fuel_valve.render(v);
        self.neutron_valve.render(v);
        self.waste_valve.render(v);
        proof {
            assert(v@ =~= old(v)@ + self@.spec_render());
        }
    }

    /// Clicks do not land on any refinery control.
    pub fn click(&mut self, _m: Vec2)
        ensures
            *final(self) == *old(self),
    {
    }

    /// Forward a drag gesture to the valves in order, stopping at the
    /// first dial it grabs.
    pub fn drag(&mut self, initial_pos: Vec2, pos: Vec2, delta: Vec2) -> (consumed: bool)
        requires
            old(self)@.wf(),
            crate::vec2::bounded(initial_pos),
            crate::vec2::bounded(pos),
            crate::vec2::bounded(delta),
        ensures
            (final(self)@, consumed) == old(self)@.spec_drag(initial_pos, pos, delta),
            final(self)@.wf(),
    {
        if self.fuel_valve.drag(initial_pos, pos, delta) {
            true
        } else if self.neutron_valve.drag(initial_pos, pos, delta) {
            true
        } else if self.waste_valve.drag(initial_pos, pos, delta) {
            true
        } else {
            false
        }
    }

    /// Corner of the refinery panel.
    pub fn panel_pos(&self) -> (p: Vec2)
        ensures
            p == (Vec2 { x: -600_000i64, y: -900_000i64 }),
    {
        vec2(-600_000, -900_000)
    }

    /// Extent of the refinery panel.
    pub fn panel_size(&self) -> (p: Vec2)
        ensures
            p == (Vec2 { x: 257_000, y: 400_000 }),
    {
        vec2(257_000, 400_000)
    }
}

} // verus!
