//! The secondary coolant loop: a water tank that exchanges water and heat
//! with the reactor vessel.
//!
//! The tank refills toward its capacity at a fixed rate and boils water
//! off faster as its heat approaches the boiling point; evaporation
//! carries latent heat away. All exchange with the reactor is driven from
//! the reactor's own update step.

use crate::dial::Dial;
use crate::fixed::{
    isqrt, lemma_div_le, lemma_mix_le, min64, mix, mul_div, sabs, sqrt_floor, HEAT_LIMIT, SCALE,
};
use crate::prim::{panel_color, quad, rgba, spec_blend, spec_heat_display, spec_panel_color, Prim, Tex};
use crate::vec2::{vec2, vec3, Vec2, Vec3};
use vstd::prelude::*;

verus! {

/// Water the tank can hold, in fixed-point units.
pub const TANK_CAP: u64 = 25_000_000;

/// The mathematical state of the water tank.
pub ghost struct TankModel {
    /// One-way latch: the tank takes part in the simulation once true.
    pub unlocked: bool,
    pub water: int,
    pub heat: int,
    /// The outflow valve dial.
    pub valve: Dial,
}

impl TankModel {
    /// Pools inside their capacity, the valve a well-formed dial.
    pub open spec fn wf(self) -> bool {
        &&& 0 <= self.water <= TANK_CAP
        &&& 0 <= self.heat <= HEAT_LIMIT
        &&& self.valve.wf()
    }

    /// Mass-weighted mixing of incoming water into the tank: the tank's
    /// own thermal mass counts as one extra unit of water.
    pub open spec fn spec_add_water(self, amount: int, inheat: int) -> TankModel {
        TankModel {
            water: self.water + amount,
            heat: ((self.water + SCALE) * self.heat + amount * inheat) / (self.water + SCALE
                + amount),
            ..self
        }
    }

    /// One internal step: refill toward capacity, then evaporation with
    /// its latent-heat cost. Evaporation intensifies as heat approaches
    /// the boiling point (the pole of the response), and is capped by the
    /// water present; the latent-heat factor is floored so the cut stays
    /// finite just past boiling.
    pub open spec fn spec_tick(self) -> TankModel {
        let refill = if 2_000 <= TANK_CAP - self.water {
            2_000
        } else {
            TANK_CAP - self.water
        };
        let m1 = self.spec_add_water(refill, 0);
        let pole_gap = sabs(3_100_000 - m1.heat);
        let ev = if pole_gap == 0 {
            m1.water
        } else {
            let flow = (1_600 * sqrt_floor(m1.water * SCALE) / (SCALE as int)) * m1.heat
                / pole_gap;
            if flow <= m1.water {
                flow
            } else {
                m1.water
            }
        };
        let hr = if 3 * (SCALE as int) - m1.heat >= 100_000 {
            3 * (SCALE as int) - m1.heat
        } else {
            100_000
        };
        let w2 = m1.water - ev;
        let cut = ev * hr / (w2 + SCALE);
        let h2 = if cut <= m1.heat {
            m1.heat - cut
        } else {
            0
        };
        TankModel { water: w2, heat: h2, ..m1 }
    }

    /// The tank after a drag gesture: the valve takes the motion when the
    /// press grabs it.
    pub open spec fn spec_drag(self, initial_pos: Vec2, pos: Vec2, delta: Vec2) -> (
        TankModel,
        bool,
    ) {
        if self.valve.spec_grabbed(initial_pos) {
            (
                TankModel {
                    valve: (Dial {
                        val: self.valve.spec_turned_val(
                            self.valve.spec_drag_theta(pos, delta),
                        ) as u64,
                        ..self.valve
                    }),
                    ..self
                },
                true,
            )
        } else {
            (self, false)
        }
    }

    /// The primitives one render pass emits: heat-tinted panel, glass
    /// window, water level, then the valve dial.
    pub open spec fn spec_render(self) -> Seq<Prim> {
        let h = spec_heat_display(self.heat);
        let window_ratio = if h - SCALE >= 0 {
            (h - SCALE) * 300_000 / (SCALE as int)
        } else {
            0
        };
        let level = 280_000 * self.water / (TANK_CAP as int);
        seq![
            Prim {
                pos: Vec3 { x: -1_000_000i64, y: 400_000, z: 1_000_000 },
                size: Vec2 { x: 500_000, y: 300_000 },
                tex: Tex::Color(spec_panel_color(self.heat)),
                rot: 0,
            },
            Prim {
                pos: Vec3 { x: -990_000i64, y: 410_000, z: 1_500_000 },
                size: Vec2 { x: 480_000, y: 290_000 },
                tex: Tex::Color(spec_blend(crate::prim::glass(), crate::prim::red(), window_ratio)),
                rot: 0,
            },
            Prim {
                pos: Vec3 { x: -990_000i64, y: 410_000, z: 2_000_000 },
                size: Vec2 { x: 480_000, y: level as i64 },
                tex: Tex::Color(crate::prim::blue()),
                rot: 0,
            },
        ] + self.valve.spec_render()
    }
}

/// Adding water within capacity keeps the tank well-formed; the mixed
/// heat never exceeds the warmer of the two sources, and the latch and
/// valve are untouched.
pub proof fn lemma_add_water_wf(t: TankModel, amount: int, inheat: int)
    requires
        t.wf(),
        0 <= amount,
        t.water + amount <= TANK_CAP,
        0 <= inheat <= HEAT_LIMIT,
    ensures
        t.spec_add_water(amount, inheat).wf(),
        t.spec_add_water(amount, inheat).heat <= if t.heat >= inheat {
            t.heat
        } else {
            inheat
        },
        t.spec_add_water(amount, inheat).unlocked == t.unlocked,
        t.spec_add_water(amount, inheat).valve == t.valve,
{
    lemma_mix_le(t.water + SCALE, t.heat, amount, inheat, HEAT_LIMIT as int);
    lemma_mix_le(
        t.water + SCALE,
        t.heat,
        amount,
        inheat,
        if t.heat >= inheat {
            t.heat
        } else {
            inheat
        },
    );
}

/// The internal step keeps the tank well-formed, adds no heat beyond what
/// is already there, and touches neither the latch nor the valve.
pub proof fn lemma_tank_tick_wf(t: TankModel)
    requires
        t.wf(),
    ensures
        t.spec_tick().wf(),
        t.spec_tick().unlocked == t.unlocked,
        t.spec_tick().valve == t.valve,
{
    let refill = if 2_000 <= TANK_CAP - t.water {
        2_000int
    } else {
        TANK_CAP - t.water
    };
    lemma_add_water_wf(t, refill, 0);
    let m1 = t.spec_add_water(refill, 0);
    let pole_gap = sabs(3_100_000 - m1.heat);
    if pole_gap != 0 {
        let sq = sqrt_floor(m1.water * SCALE);
        lemma_div_le(0, 1_600 * sq, SCALE as int);
        assert((1_600 * sq / (SCALE as int)) * m1.heat >= 0) by (nonlinear_arith)
            requires
                1_600 * sq / (SCALE as int) >= 0,
                m1.heat >= 0,
        ;
        lemma_div_le(0, (1_600 * sq / (SCALE as int)) * m1.heat, pole_gap);
    }
    let ev = if pole_gap == 0 {
        m1.water
    } else {
        let flow = (1_600 * sqrt_floor(m1.water * SCALE) / (SCALE as int)) * m1.heat / pole_gap;
        if flow <= m1.water {
            flow
        } else {
            m1.water
        }
    };
    let hr = if 3 * (SCALE as int) - m1.heat >= 100_000 {
        3 * (SCALE as int) - m1.heat
    } else {
        100_000
    };
    let w2 = m1.water - ev;
    assert(ev * hr >= 0) by (nonlinear_arith)
        requires
            ev >= 0,
            hr >= 0,
    ;
    lemma_div_le(0, ev * hr, w2 + SCALE);
}

/// The secondary coolant loop.
pub struct WaterTank {
    pub unlocked: bool,
    pub water: u64,
    pub heat: u64,
    pub valve: Dial,
}

impl View for WaterTank {
    type V = TankModel;

    open spec fn view(&self) -> TankModel {
        TankModel {
            unlocked: self.unlocked,
            water: self.water as int,
            heat: self.heat as int,
            valve: self.valve,
        }
    }
}

impl WaterTank {
    /// The tank as the session starts: locked, four fifths full, cold,
    /// valve shut.
    pub open spec fn spec_init() -> TankModel {
        TankModel {
            unlocked: false,
            water: 20_000_000,
            heat: 0,
            valve: Dial {
                pos: Vec2 { x: -391_667i64, y: 278_333 },
                size: Vec2 { x: 83_333, y: 83_333 },
                val: 0,
                range: Some((0, 500_000)),
                tex: Tex::Texture(3),
                z_index: 3_000_000,
                background: Some(
                    Prim {
                        pos: Vec3 { x: -400_000i64, y: 270_000, z: 2_000_000 },
                        size: Vec2 { x: 100_000, y: 100_000 },
                        tex: Tex::Color(crate::prim::dark_grey()),
                        rot: 0,
                    },
                ),
            },
        }
    }

    /// A fresh tank.
    pub fn new() -> (t: WaterTank)
        ensures
            t@ == Self::spec_init(),
            t@.wf(),
    {
        WaterTank {
            unlocked: false,
            water: 20_000_000,
            heat: 0,
            valve: Dial {
                pos: vec2(-391_667, 278_333),
                size: vec2(83_333, 83_333),
                val: 0,
                range: Some((0, 500_000)),
                tex: Tex::Texture(3),
                z_index: 3_000_000,
                background: Some(
                    Prim {
                        pos: vec3(-400_000, 270_000, 2_000_000),
                        size: vec2(100_000, 100_000),
                        tex: Tex::Color(rgba(500_000, 500_000, 500_000, 1_000_000)),
                        rot: 0,
                    },
                ),
            },
        }
    }

    /// Pour `amount` of water at temperature `inheat` into the tank,
    /// mixing heats by mass.
    pub fn add_water(&mut self, amount: u64, inheat: u64)
        requires
            old(self)@.wf(),
            old(self)@.water + amount <= TANK_CAP,
            inheat <= HEAT_LIMIT,
        ensures
            final(self)@ == old(self)@.spec_add_water(amount as int, inheat as int),
            final(self)@.wf(),
    {
        proof {
            lemma_mix_le(
                self@.water + SCALE,
                self@.heat,
                amount as int,
                inheat as int,
                HEAT_LIMIT as int,
            );
        }
        let mixed: u64 = mix(self.water + SCALE, self.heat, amount, inheat);
        self.heat = mixed;
        self.water = self.water + amount;
    }

    /// One internal step of the tank.
    pub fn tick(&mut self)
        requires
            old(self)@.wf(),
        ensures
            final(self)@ == old(self)@.spec_tick(),
            final(self)@.wf(),
    {
        let refill: u64 = min64(2_000, TANK_CAP - self.water);
        self.add_water(refill, 0);
        let pole_gap: u64 = if self.heat >= 3_100_000 {
            self.heat - 3_100_000
        } else {
            3_100_000 - self.heat
        };
        let ev: u64 = if pole_gap == 0 {
            self.water
        } else {
            let sq: u64 = isqrt(self.water * SCALE);
            proof {
                assert(sq <= 5_000_000) by (nonlinear_arith)
                    requires
                        sq * sq <= self.water * SCALE,
                        self.water * SCALE <= 25_000_000_000_000int,
                        0 <= sq,
                ;
                lemma_div_le(1_600 * sq, 1_600 * 5_000_000int, SCALE as int);
            }
            let flow1: u64 = mul_div(1_600, sq, SCALE);
            proof {
                assert(flow1 * self.heat <= 8_000int * (HEAT_LIMIT as int)) by (nonlinear_arith)
                    requires
                        0 <= flow1 <= 8_000,
                        0 <= self.heat <= HEAT_LIMIT,
                ;
                lemma_div_le(flow1 * self.heat, 8_000int * (HEAT_LIMIT as int), pole_gap as int);
            }
            let flow: u64 = mul_div(flow1, self.heat, pole_gap);
            min64(flow, self.water)
        };
        let hr: u64 = if self.heat + 100_000 <= 3_000_000 {
            3_000_000 - self.heat
        } else {
            100_000
        };
        self.water = self.water - ev;
        proof {
            assert(ev * hr <= (TANK_CAP as int) * 3_000_000int) by (nonlinear_arith)
                requires
                    0 <= ev <= TANK_CAP,
                    0 <= hr <= 3_000_000,
            ;
            lemma_div_le(ev * hr, (TANK_CAP as int) * 3_000_000int, self.water + SCALE as int);
        }
        let cut: u64 = mul_div(ev, hr, self.water + SCALE);
        self.heat = if cut <= self.heat {
            self.heat - cut
        } else {
            0
        };
    }

    /// Emit the tank panel: heat-tinted backing, glass window, water
    /// level, then the valve dial.
    pub fn render(&self, v: &mut Vec<Prim>)
        requires
            self@.wf(),
        ensures
            final(v)@ == old(v)@ + self@.spec_render(),
    {
        let pc = panel_color(self.heat);
        quad(v, vec3(-1_000_000, 400_000, 1_000_000), vec2(500_000, 300_000), Tex::Color(pc));
        let h: u64 = crate::prim::heat_display(self.heat);
        let window_ratio: u64 = if h >= SCALE {
            mul_div(h - SCALE, 300_000, SCALE)
        } else {
            0
        };
        let window = crate::prim::blend(
            rgba(790_000, 850_000, 860_000, 1_000_000),
            rgba(1_000_000, 0, 0, 1_000_000),
            window_ratio,
        );
        quad(v, vec3(-990_000, 410_000, 1_500_000), vec2(480_000, 290_000), Tex::Color(window));
        let level: u64 = mul_div(280_000, self.water, TANK_CAP);
        quad(v, vec3(-990_000, 410_000, 2_000_000), vec2(480_000, level as i64), Tex::Color(
        rgba(0, 500_000, 1_000_000, 1_000_000)));
        self.valve.render(v);
        proof {
            assert(v@ =~= old(v)@ + self@.spec_render());
        }
    }

    /// Clicks do not land on any tank control.
    pub fn click(&mut self, _m: Vec2)
        ensures
            *final(self) == *old(self),
    {
    }

    /// Forward a drag gesture to the outflow valve.
    pub fn drag(&mut self, initial_pos: Vec2, pos: Vec2, delta: Vec2) -> (consumed: bool)
        requires
            old(self)@.wf(),
            crate::vec2::bounded(initial_pos),
            crate::vec2::bounded(pos),
            crate::vec2::bounded(delta),
        ensures
            (final(self)@, consumed) == old(self)@.spec_drag(initial_pos, pos, delta),
            final(self)@.wf(),
    {
        self.valve.drag(initial_pos, pos, delta)
    }

    /// Set the outflow valve position directly.
    pub fn set_valve(&mut self, v: u64)
        requires
            old(self)@.wf(),
            v <= SCALE,
        ensures
            final(self)@ == (TankModel {
                valve: (Dial { val: v, ..old(self)@.valve }),
                ..old(self)@
            }),
            final(self)@.wf(),
    {
        self.valve.val = v;
    }

    /// Corner of the tank panel.
    pub fn panel_pos(&self) -> (p: Vec2)
        ensures
            p == (Vec2 { x: -1_000_000i64, y: 400_000 }),
    {
        vec2(-1_000_000, 400_000)
    }

    /// Extent of the tank panel.
    pub fn panel_size(&self) -> (p: Vec2)
        ensures
            p == (Vec2 { x: 500_000, y: 300_000 }),
    {
        vec2(500_000, 300_000)
    }
}

} // verus!
