//! The reactor vessel: top-level owner of the simulation.
//!
//! Five pools — fuel, neutron flux, heat, coolant water, waste — evolve
//! under a fixed-step update rule: one call to [`Reactor::tick`] advances
//! exactly one logical step of a fiftieth of a second, whatever wall-clock
//! time the caller's frames take. The step runs, in order: the safety
//! interlock, the progressive unlocks, the chain reaction and pool
//! updates with their clamps, the neutron overflow dump, then the water
//! tank and refinery exchanges for whichever subsystems are unlocked.
//! Where the design calls for a quantity to be floored or capped, the
//! update saturates in place, so no pool ever leaves its bounds.

use crate::collision::{circle, rect, spec_in_circle, spec_in_rect};
use crate::dial::Dial;
use crate::fixed::{
    clamp, lemma_div_le, lemma_mix_le, lemma_rate_limited, min64, mix, mul_div, pow_7_2, sabs,
    spec_flux_curve, spec_pow_7_2, tdiv, flux_curve, HEAT_LIMIT, SCALE,
};
use crate::prim::{
    panel_color, quad, rgba, spec_panel_color, Prim, Tex,
};
use crate::refinery::{Refinery, RefineryModel, REFINERY_FUEL_CAP, REFINERY_NEUTRON_CAP, REFINERY_WASTE_CAP};
use crate::tank::{TankModel, WaterTank, TANK_CAP};
use crate::vec2::{bounded, vec2, vec3, Vec2, Vec3};
use vstd::arithmetic::div_mod::{lemma_div_multiples_vanish, lemma_div_nonincreasing};
use vstd::prelude::*;

verus! {

/// Fuel the vessel can hold before the coolant loop is unlocked.
pub const FUEL_CAP_LOCKED: u64 = 1_100_000;

/// Fuel the vessel can hold once the coolant loop is unlocked.
pub const FUEL_CAP_UNLOCKED: u64 = 3_000_000;

/// Neutron flux the vessel can hold; excess is dumped into heat.
pub const NEUTRON_CAP: u64 = 3_000_000;

/// Waste the vessel can hold.
pub const WASTE_CAP: u64 = 10_000_000;

/// Fuel one ignition consumes: two units of flux at the fuel-to-neutron
/// ratio of twenty.
pub const IGNITE_COST: u64 = 100_000;

/// The mathematical state of the whole reactor.
pub ghost struct ReactorModel {
    pub fuel: int,
    pub neutrons: int,
    pub heat: int,
    pub water: int,
    pub waste: int,
    /// Manual intent: the operator wants the fuel valve open.
    pub valve_open: bool,
    /// Automatic safety block, set and cleared by the interlock.
    pub valve_blocked: bool,
    /// Capability latch: the fuel valve control exists once the vessel
    /// has once run dry.
    pub valve_unlocked: bool,
    /// The fuel vent: dumps fuel while open.
    pub vent: bool,
    pub tank: TankModel,
    pub refinery: RefineryModel,
}

impl ReactorModel {
    /// Every pool inside its bounds, the subsystems well-formed. The fuel
    /// cap depends on progress: until the coolant loop is unlocked the
    /// vessel holds at most its locked capacity.
    pub open spec fn inv(self) -> bool {
        &&& 0 <= self.fuel <= FUEL_CAP_UNLOCKED
        &&& !self.tank.unlocked ==> self.fuel <= FUEL_CAP_LOCKED
        &&& 0 <= self.neutrons <= NEUTRON_CAP
        &&& 0 <= self.heat <= HEAT_LIMIT
        &&& 0 <= self.water <= TANK_CAP
        &&& 0 <= self.waste <= WASTE_CAP
        &&& self.tank.wf()
        &&& self.refinery.wf()
    }

    /// Step one, the safety interlock with hysteresis: block the fuel
    /// valve at high heat or high flux, release it only once heat has
    /// fallen well below the trip point, hold it otherwise.
    pub open spec fn spec_interlock(self) -> ReactorModel {
        ReactorModel {
            valve_blocked: if self.heat >= 3_000_000 || self.neutrons >= 3_000_000 {
                true
            } else if self.heat < 1_200_000 {
                false
            } else {
                self.valve_blocked
            },
            ..self
        }
    }

    /// Step two, the progressive unlocks: enough heat opens the coolant
    /// loop, enough waste opens the refinery; both are one-way.
    pub open spec fn spec_unlocks(self) -> ReactorModel {
        ReactorModel {
            tank: TankModel { unlocked: self.tank.unlocked || self.heat >= 3_000_000, ..self.tank },
            refinery: RefineryModel {
                unlocked: self.refinery.unlocked || self.waste >= 5_000_000,
                ..self.refinery
            },
            ..self
        }
    }

    /// The chain-reaction speed: fuel times the flux response, less a
    /// small damping, floored at zero and capped so one step cannot burn
    /// more fuel than the vessel holds.
    pub open spec fn spec_reaction_speed(self) -> int {
        let raw = (50_000 * self.fuel / (SCALE as int)) * spec_flux_curve(self.neutrons) / (
        SCALE as int);
        let adj = if raw >= 1_000 {
            raw - 1_000
        } else {
            0
        };
        if adj <= self.fuel * 50 {
            adj
        } else {
            self.fuel * 50
        }
    }

    /// Whether fuel feeds the vessel: manual intent and no safety block.
    pub open spec fn spec_fuel_valve(self) -> bool {
        self.valve_open && !self.valve_blocked
    }

    /// Steps three to six: the reaction and the pool updates, each scaled
    /// by one fixed step; then the fuel and waste clamps, the ran-dry
    /// fuel-valve unlock, and the neutron overflow dump into heat.
    ///
    /// The heat exchange rate folds to the flux itself, the
    /// fuel-to-neutron ratio and the reaction rate being reciprocal.
    /// Dissipation is softened above four units of heat.
    pub open spec fn spec_core(self) -> ReactorModel {
        let rs = self.spec_reaction_speed();
        let hx = self.neutrons;
        let intake: int = (if self.spec_fuel_valve() {
            50_000int
        } else {
            0
        }) - (if self.vent {
            250_000int
        } else {
            0
        });
        let cap: int = self.spec_fuel_cap();
        let fuel1 = clamp(self.fuel + tdiv(intake - rs, 50), 0, cap);
        let waste1 = clamp(self.waste + (970_000 * rs / (SCALE as int)) / 50, 0, WASTE_CAP as int);
        let n1 = self.neutrons + tdiv(20 * rs - hx, 50);
        let soften = if self.heat > 4_000_000 {
            self.heat / 4
        } else {
            SCALE as int
        };
        let dh = 5 * hx - 4 * soften;
        let heat1 = if dh >= 0 {
            let inc = (dh * (SCALE as int) / (10 * (SCALE as int) + self.water)) / 50;
            if self.heat + inc <= HEAT_LIMIT {
                self.heat + inc
            } else {
                HEAT_LIMIT as int
            }
        } else {
            let dec = ((-dh) * (SCALE as int) / (10 * (SCALE as int) + self.water)) / 50;
            if dec <= self.heat {
                self.heat - dec
            } else {
                0
            }
        };
        let unlocked1 = self.valve_unlocked || fuel1 == 0;
        let n2 = if n1 >= NEUTRON_CAP {
            NEUTRON_CAP as int
        } else {
            n1
        };
        let heat2 = if n1 >= NEUTRON_CAP {
            if heat1 + 5 * (n1 - NEUTRON_CAP) <= HEAT_LIMIT {
                heat1 + 5 * (n1 - NEUTRON_CAP)
            } else {
                HEAT_LIMIT as int
            }
        } else {
            heat1
        };
        ReactorModel {
            fuel: fuel1,
            waste: waste1,
            neutrons: n2,
            heat: heat2,
            valve_unlocked: unlocked1,
            ..self
        }
    }

    /// Step seven, the water-tank exchange. Vessel water flows to the
    /// tank under its own pressure; tank water returns through the valve
    /// under tank pressure, mixing heats by mass both ways; then the tank
    /// runs its internal step. Each flow is held to what its source holds
    /// and its destination can take.
    pub open spec fn spec_tank_exchange(self) -> ReactorModel {
        let p_out = spec_pow_7_2(self.water * 400_000 / (SCALE as int));
        let out_raw = p_out * 10 / 50;
        let out0 = if out_raw <= self.water {
            out_raw
        } else {
            self.water
        };
        let out = if out0 <= TANK_CAP - self.tank.water {
            out0
        } else {
            TANK_CAP - self.tank.water
        };
        let water1 = self.water - out;
        let tank1 = self.tank.spec_add_water(out, self.heat);
        let p_in = spec_pow_7_2(tank1.water * (SCALE as int) / (TANK_CAP as int));
        let in_raw = (self.tank.valve.val * p_in / (SCALE as int)) * 10 / 50;
        let in0 = if in_raw <= tank1.water {
            in_raw
        } else {
            tank1.water
        };
        let inflow = if in0 <= TANK_CAP - water1 {
            in0
        } else {
            TANK_CAP - water1
        };
        let heat1 = ((10 * (SCALE as int) + water1) * self.heat + inflow * tank1.heat) / (10 * (
        SCALE as int) + water1 + inflow);
        let tank2 = TankModel { water: tank1.water - inflow, ..tank1 };
        ReactorModel {
            water: water1 + inflow,
            heat: heat1,
            tank: tank2.spec_tick(),
            ..self
        }
    }

    /// The fuel the vessel can hold at the current progress: the full
    /// capacity once the coolant loop is unlocked, the locked capacity
    /// before.
    pub open spec fn spec_fuel_cap(self) -> int {
        if self.tank.unlocked {
            FUEL_CAP_UNLOCKED as int
        } else {
            FUEL_CAP_LOCKED as int
        }
    }

    /// The fuel moved between refinery and vessel in one step, as a pair
    /// of headroom-limited magnitudes: refinery-to-vessel when the valve
    /// sits above center, vessel-to-refinery below it, quadratic in the
    /// valve's offset from center and scaled by the source pool and the
    /// destination's free fraction. The vessel-side headroom is its
    /// progress-dependent capacity, so the flow can never push the vessel
    /// past the cap that holds while the coolant loop is still locked.
    pub open spec fn spec_refinery_fuel_flow(self) -> int {
        let r = self.refinery;
        if r.fuel_valve.val > 500_000 {
            let v = (r.fuel_valve.val - 500_000) * 2;
            let cap = self.spec_fuel_cap();
            let a1 = 100_000 * v / (SCALE as int);
            let a2 = a1 * v / (SCALE as int);
            let a3 = a2 * r.fuel / (SCALE as int);
            let a4 = a3 * (cap - self.fuel) / cap;
            let lim = if r.fuel <= cap - self.fuel {
                r.fuel
            } else {
                cap - self.fuel
            };
            if a4 <= lim * 50 {
                a4
            } else {
                lim * 50
            }
        } else if r.fuel_valve.val < 500_000 {
            let v = (500_000 - r.fuel_valve.val) * 2;
            let a1 = 100_000 * v / (SCALE as int);
            let a2 = a1 * v / (SCALE as int);
            let a3 = a2 * self.fuel / (SCALE as int);
            let a4 = a3 * ((REFINERY_FUEL_CAP as int) - r.fuel) / (REFINERY_FUEL_CAP as int);
            let lim = if self.fuel <= (REFINERY_FUEL_CAP as int) - r.fuel {
                self.fuel
            } else {
                (REFINERY_FUEL_CAP as int) - r.fuel
            };
            if a4 <= lim * 50 {
                a4
            } else {
                lim * 50
            }
        } else {
            0
        }
    }

    /// The neutron flux moved from vessel to refinery in one step, valve-
    /// gated and headroom-limited.
    pub open spec fn spec_refinery_neutron_flow(self) -> int {
        let r = self.refinery;
        let b1 = 6_000 * r.neutron_valve.val / (SCALE as int);
        let b2 = b1 * self.neutrons / (SCALE as int);
        let nlim = if self.neutrons <= (REFINERY_NEUTRON_CAP as int) - r.neutrons {
            self.neutrons
        } else {
            (REFINERY_NEUTRON_CAP as int) - r.neutrons
        };
        if b2 <= nlim * 50 {
            b2
        } else {
            nlim * 50
        }
    }

    /// The waste moved from vessel to refinery in one step, valve-gated
    /// and headroom-limited.
    pub open spec fn spec_refinery_waste_flow(self) -> int {
        let r = self.refinery;
        let w1 = r.waste_valve.val * self.waste / (10 * (SCALE as int));
        let wlim = if self.waste <= (REFINERY_WASTE_CAP as int) - r.waste {
            self.waste
        } else {
            (REFINERY_WASTE_CAP as int) - r.waste
        };
        if w1 <= wlim * 50 {
            w1
        } else {
            wlim * 50
        }
    }

    /// Step eight, the refinery exchange. The fuel valve drives fuel
    /// either way — above center refinery to vessel, below center vessel
    /// to refinery; neutron and waste flows run strictly vessel to
    /// refinery through their valves. Every flow is held to what its
    /// source holds and its destination can take; then the refinery runs
    /// its internal step.
    pub open spec fn spec_refinery_exchange(self) -> ReactorModel {
        let r = self.refinery;
        let f = self.spec_refinery_fuel_flow();
        let (fuel1, rfuel1): (int, int) = if r.fuel_valve.val > 500_000 {
            (self.fuel + f / 50, r.fuel - f / 50)
        } else if r.fuel_valve.val < 500_000 {
            (self.fuel - f / 50, r.fuel + f / 50)
        } else {
            (self.fuel, r.fuel)
        };
        let nf = self.spec_refinery_neutron_flow();
        let wflow = self.spec_refinery_waste_flow();
        let r1 = RefineryModel {
            fuel: rfuel1,
            neutrons: r.neutrons + nf / 50,
            waste: r.waste + wflow / 50,
            ..r
        };
        ReactorModel {
            fuel: fuel1,
            neutrons: self.neutrons - nf / 50,
            waste: self.waste - wflow / 50,
            refinery: r1.spec_tick(),
            ..self
        }
    }

    /// One whole fixed step: interlock, unlocks, core update, then the
    /// exchanges for whichever subsystems are unlocked. The final heat
    /// floor of the design is folded into each saturating heat update.
    pub open spec fn spec_tick(self) -> ReactorModel {
        let m2 = self.spec_interlock().spec_unlocks();
        let m3 = m2.spec_core();
        let m4 = if m3.tank.unlocked {
            m3.spec_tank_exchange()
        } else {
            m3
        };
        if m4.refinery.unlocked {
            m4.spec_refinery_exchange()
        } else {
            m4
        }
    }

    /// The state after a click: the ignite button and the vent toggle are
    /// tested independently; the fuel-valve pad only once that control is
    /// unlocked. Clicks landing on none of them change nothing (the
    /// subsystem panels take no clicks).
    pub open spec fn spec_click(self, p: Vec2) -> ReactorModel {
        let m1 = if spec_in_circle(p, Vec2 { x: 0, y: 110_000 }, 25_000) {
            self.spec_ignite()
        } else {
            self
        };
        let m2 = if spec_in_circle(p, Vec2 { x: 0, y: 40_000 }, 25_000) {
            ReactorModel { vent: !m1.vent, ..m1 }
        } else {
            m1
        };
        if m2.valve_unlocked && spec_in_rect(
            p,
            Vec2 { x: -745_000i64, y: -245_000i64 },
            Vec2 { x: 50_000, y: 50_000 },
        ) {
            ReactorModel { valve_open: !m2.valve_open, ..m2 }
        } else {
            m2
        }
    }

    /// The state and outcome of a drag gesture: the tank valve first,
    /// then the refinery valves, each only when its subsystem is
    /// unlocked, stopping at the first dial that takes the motion.
    pub open spec fn spec_drag(self, initial_pos: Vec2, pos: Vec2, delta: Vec2) -> (
        ReactorModel,
        bool,
    ) {
        let (t1, tc) = if self.tank.unlocked {
            self.tank.spec_drag(initial_pos, pos, delta)
        } else {
            (self.tank, false)
        };
        if tc {
            (ReactorModel { tank: t1, ..self }, true)
        } else {
            let (r1, rc) = if self.refinery.unlocked {
                self.refinery.spec_drag(initial_pos, pos, delta)
            } else {
                (self.refinery, false)
            };
            (ReactorModel { refinery: r1, ..self }, rc)
        }
    }

    /// The primitives one render pass emits: the heat-tinted main panel,
    /// the fuel and flux bars with their markers, the ignite and vent
    /// buttons, then — as each is unlocked — the fuel-valve pad, the
    /// vessel water bar and the tank panel, and the vessel waste bar and
    /// the refinery panel.
    pub open spec fn spec_vertices(self) -> Seq<Prim> {
        let fuel_h = 280_000 * self.fuel / (3 * (SCALE as int));
        let n_main = 280_000 * (if self.neutrons <= 2 * (SCALE as int) {
            self.neutrons
        } else {
            2 * (SCALE as int)
        }) / (3 * (SCALE as int));
        let n_over = if self.neutrons >= 2 * (SCALE as int) {
            280_000 * (self.neutrons - 2 * (SCALE as int)) / (3 * (SCALE as int))
        } else {
            0
        };
        let base = seq![
            Prim {
                pos: Vec3 { x: -300_000i64, y: -150_000i64, z: 1_000_000 },
                size: Vec2 { x: 600_000, y: 300_000 },
                tex: Tex::Color(spec_panel_color(self.heat)),
                rot: 0,
            },
            Prim {
                pos: Vec3 { x: -240_000i64, y: -140_000i64, z: 2_000_000 },
                size: Vec2 { x: 37_000, y: 280_000 },
                tex: Tex::Color(crate::prim::black()),
                rot: 0,
            },
            Prim {
                pos: Vec3 { x: -190_000i64, y: -140_000i64, z: 2_000_000 },
                size: Vec2 { x: 37_000, y: 280_000 },
                tex: Tex::Color(crate::prim::black()),
                rot: 0,
            },
            Prim {
                pos: Vec3 { x: -190_000i64, y: -140_000i64, z: 2_000_000 },
                size: Vec2 { x: 37_000, y: 280_000 },
                tex: Tex::Color(crate::prim::black()),
                rot: 0,
            },
            Prim {
                pos: Vec3 { x: -190_000i64, y: 46_666, z: 3_000_000 },
                size: Vec2 { x: 37_000, y: 93_333 },
                tex: Tex::Color(crate::prim::dull_red()),
                rot: 0,
            },
            Prim {
                pos: Vec3 { x: -240_000i64, y: -140_000i64, z: 4_000_000 },
                size: Vec2 { x: 37_000, y: fuel_h as i64 },
                tex: Tex::Color(crate::prim::yellow()),
                rot: 0,
            },
            Prim {
                pos: Vec3 { x: -190_000i64, y: -140_000i64, z: 4_000_000 },
                size: Vec2 { x: 37_000, y: n_main as i64 },
                tex: Tex::Color(crate::prim::white()),
                rot: 0,
            },
            Prim {
                pos: Vec3 { x: -190_000i64, y: 46_666, z: 4_000_000 },
                size: Vec2 { x: 37_000, y: n_over as i64 },
                tex: Tex::Color(crate::prim::red()),
                rot: 0,
            },
            Prim {
                pos: Vec3 { x: -240_000i64, y: -48_166i64, z: 5_000_000 },
                size: Vec2 { x: 87_000, y: 3_000 },
                tex: Tex::Color(crate::prim::dark_green_translucent()),
                rot: 0,
            },
            Prim {
                pos: Vec3 { x: -30_000i64, y: 80_000, z: 2_000_000 },
                size: Vec2 { x: 60_000, y: 60_000 },
                tex: Tex::Color(crate::prim::dark_grey()),
                rot: 0,
            },
            Prim {
                pos: Vec3 { x: -25_000i64, y: 85_000, z: 3_000_000 },
                size: Vec2 { x: 50_000, y: 50_000 },
                tex: Tex::Texture(
                    if self.heat < 2_000_000 {
                        0
                    } else {
                        4
                    },
                ),
                rot: 0,
            },
            Prim {
                pos: Vec3 { x: -30_000i64, y: 10_000, z: 2_000_000 },
                size: Vec2 { x: 60_000, y: 60_000 },
                tex: Tex::Color(crate::prim::dark_grey()),
                rot: 0,
            },
            Prim {
                pos: Vec3 { x: -25_000i64, y: 15_000, z: 3_000_000 },
                size: Vec2 { x: 50_000, y: 50_000 },
                tex: Tex::Texture(
                    if self.vent {
                        2
                    } else {
                        1
                    },
                ),
                rot: 0,
            },
        ];
        let with_valve = if self.valve_unlocked {
            base + seq![
                Prim {
                    pos: Vec3 { x: -750_000i64, y: -250_000i64, z: 2_000_000 },
                    size: Vec2 { x: 60_000, y: 60_000 },
                    tex: Tex::Color(crate::prim::dark_grey()),
                    rot: 0,
                },
                Prim {
                    pos: Vec3 { x: -745_000i64, y: -245_000i64, z: 2_000_000 },
                    size: Vec2 { x: 50_000, y: 50_000 },
                    tex: Tex::Texture(
                        if self.valve_blocked {
                            4
                        } else if self.valve_open {
                            6
                        } else {
                            5
                        },
                    ),
                    rot: 0,
                },
            ]
        } else {
            base
        };
        let with_tank = if self.tank.unlocked {
            with_valve + seq![
                Prim {
                    pos: Vec3 { x: -290_000i64, y: -140_000i64, z: 2_000_000 },
                    size: Vec2 { x: 37_000, y: 280_000 },
                    tex: Tex::Color(crate::prim::black()),
                    rot: 0,
                },
                Prim {
                    pos: Vec3 { x: -290_000i64, y: -140_000i64, z: 4_000_000 },
                    size: Vec2 {
                        x: 37_000,
                        y: (112_000 * self.water / (SCALE as int)) as i64,
                    },
                    tex: Tex::Color(crate::prim::blue()),
                    rot: 0,
                },
            ] + self.tank.spec_render()
        } else {
            with_valve
        };
        if self.refinery.unlocked {
            with_tank + seq![
                Prim {
                    pos: Vec3 { x: -140_000i64, y: -140_000i64, z: 2_000_000 },
                    size: Vec2 { x: 37_000, y: 280_000 },
                    tex: Tex::Color(crate::prim::black()),
                    rot: 0,
                },
                Prim {
                    pos: Vec3 { x: -140_000i64, y: -140_000i64, z: 4_000_000 },
                    size: Vec2 {
                        x: 37_000,
                        y: (280_000 * self.waste / (WASTE_CAP as int)) as i64,
                    },
                    tex: Tex::Color(crate::prim::green()),
                    rot: 0,
                },
            ] + self.refinery.spec_render()
        } else {
            with_tank
        }
    }

    /// Ignition: succeeds exactly when heat is below two units, flux
    /// below one, and fuel covers the cost; it then sets the flux to one
    /// unit and deducts the fixed fuel cost. Otherwise the state is
    /// unchanged.
    pub open spec fn spec_ignite(self) -> ReactorModel {
        if self.heat < 2_000_000 && self.neutrons < 1_000_000 && self.fuel >= IGNITE_COST {
            ReactorModel { neutrons: 1_000_000, fuel: self.fuel - IGNITE_COST, ..self }
        } else {
            self
        }
    }
}

/// The core update keeps every pool inside its bounds.
pub proof fn lemma_core_inv(m: ReactorModel)
    requires
        m.inv(),
    ensures
        m.spec_core().inv(),
        m.spec_core().tank == m.tank,
        m.spec_core().refinery == m.refinery,
        m.spec_core().water == m.water,
{
    let rs = m.spec_reaction_speed();
    assert(0 <= rs <= m.fuel * 50);
    let hx = m.neutrons;
    if 20 * rs - hx >= 0 {
    } else {
        lemma_div_le(hx - 20 * rs, hx, 50);
        lemma_div_nonincreasing(hx, 50);
    }
    let soften = if m.heat > 4_000_000 {
        m.heat / 4
    } else {
        SCALE as int
    };
    lemma_div_le(0, m.heat, 4);
    let dh = 5 * hx - 4 * soften;
    let denom = 10 * (SCALE as int) + m.water;
    if dh >= 0 {
        lemma_div_le(0, dh * (SCALE as int), denom);
        lemma_div_le(0, dh * (SCALE as int) / denom, 50);
    } else {
        lemma_div_le(0, (-dh) * (SCALE as int), denom);
        lemma_div_le(0, (-dh) * (SCALE as int) / denom, 50);
    }
    lemma_div_le(0, 970_000 * rs, SCALE as int);
    lemma_div_le(0, 970_000 * rs / (SCALE as int), 50);
}

/// The water-tank exchange keeps every pool inside its bounds.
pub proof fn lemma_tank_exchange_inv(m: ReactorModel)
    requires
        m.inv(),
    ensures
        m.spec_tank_exchange().inv(),
        m.spec_tank_exchange().tank.unlocked == m.tank.unlocked,
        m.spec_tank_exchange().refinery == m.refinery,
        m.spec_tank_exchange().neutrons == m.neutrons,
        m.spec_tank_exchange().fuel == m.fuel,
        m.spec_tank_exchange().waste == m.waste,
{
    lemma_div_le(0, m.water * 400_000, SCALE as int);
    crate::fixed::lemma_pow_7_2_nonneg(m.water * 400_000 / (SCALE as int));
    let p_out = spec_pow_7_2(m.water * 400_000 / (SCALE as int));
    lemma_div_le(0, p_out * 10, 50);
    let out_raw = p_out * 10 / 50;
    let out0 = if out_raw <= m.water {
        out_raw
    } else {
        m.water
    };
    let out = if out0 <= TANK_CAP - m.tank.water {
        out0
    } else {
        TANK_CAP - m.tank.water
    };
    let water1 = m.water - out;
    crate::tank::lemma_add_water_wf(m.tank, out, m.heat);
    let tank1 = m.tank.spec_add_water(out, m.heat);
    lemma_div_le(0, tank1.water * (SCALE as int), TANK_CAP as int);
    crate::fixed::lemma_pow_7_2_nonneg(tank1.water * (SCALE as int) / (TANK_CAP as int));
    let p_in = spec_pow_7_2(tank1.water * (SCALE as int) / (TANK_CAP as int));
    assert(m.tank.valve.val * p_in >= 0) by (nonlinear_arith)
        requires
            p_in >= 0,
            m.tank.valve.val >= 0,
    ;
    lemma_div_le(0, m.tank.valve.val * p_in, SCALE as int);
    lemma_div_le(0, (m.tank.valve.val * p_in / (SCALE as int)) * 10, 50);
    let in_raw = (m.tank.valve.val * p_in / (SCALE as int)) * 10 / 50;
    let in0 = if in_raw <= tank1.water {
        in_raw
    } else {
        tank1.water
    };
    let inflow = if in0 <= TANK_CAP - water1 {
        in0
    } else {
        TANK_CAP - water1
    };
    lemma_mix_le(
        10 * (SCALE as int) + water1,
        m.heat,
        inflow,
        tank1.heat,
        HEAT_LIMIT as int,
    );
    let tank2 = TankModel { water: tank1.water - inflow, ..tank1 };
    crate::tank::lemma_tank_tick_wf(tank2);
}

/// The refinery exchange keeps every pool inside its bounds.
pub proof fn lemma_refinery_exchange_inv(m: ReactorModel)
    requires
        m.inv(),
        m.refinery.unlocked,
    ensures
        m.spec_refinery_exchange().inv(),
        m.spec_refinery_exchange().tank == m.tank,
        m.spec_refinery_exchange().refinery.unlocked == m.refinery.unlocked,
        m.spec_refinery_exchange().heat == m.heat,
        m.spec_refinery_exchange().water == m.water,
{
    let r = m.refinery;
    let f = m.spec_refinery_fuel_flow();
    if r.fuel_valve.val > 500_000 {
        let v = (r.fuel_valve.val - 500_000) * 2;
        let cap = m.spec_fuel_cap();
        lemma_div_le(0, 100_000 * v, SCALE as int);
        let a1 = 100_000 * v / (SCALE as int);
        assert(a1 * v >= 0) by (nonlinear_arith)
            requires
                a1 >= 0,
                v >= 0,
        ;
        lemma_div_le(0, a1 * v, SCALE as int);
        let a2 = a1 * v / (SCALE as int);
        assert(a2 * r.fuel >= 0) by (nonlinear_arith)
            requires
                a2 >= 0,
                r.fuel >= 0,
        ;
        lemma_div_le(0, a2 * r.fuel, SCALE as int);
        let a3 = a2 * r.fuel / (SCALE as int);
        assert(a3 * (cap - m.fuel) >= 0) by (nonlinear_arith)
            requires
                a3 >= 0,
                m.fuel <= cap,
        ;
        lemma_div_le(0, a3 * (cap - m.fuel), cap);
        let lim = if r.fuel <= cap - m.fuel {
            r.fuel
        } else {
            cap - m.fuel
        };
        lemma_rate_limited(f, lim);
    } else if r.fuel_valve.val < 500_000 {
        let v = (500_000 - r.fuel_valve.val) * 2;
        lemma_div_le(0, 100_000 * v, SCALE as int);
        let a1 = 100_000 * v / (SCALE as int);
        assert(a1 * v >= 0) by (nonlinear_arith)
            requires
                a1 >= 0,
                v >= 0,
        ;
        lemma_div_le(0, a1 * v, SCALE as int);
        let a2 = a1 * v / (SCALE as int);
        assert(a2 * m.fuel >= 0) by (nonlinear_arith)
            requires
                a2 >= 0,
                m.fuel >= 0,
        ;
        lemma_div_le(0, a2 * m.fuel, SCALE as int);
        let a3 = a2 * m.fuel / (SCALE as int);
        assert(a3 * ((REFINERY_FUEL_CAP as int) - r.fuel) >= 0) by (nonlinear_arith)
            requires
                a3 >= 0,
                r.fuel <= REFINERY_FUEL_CAP,
        ;
        lemma_div_le(0, a3 * ((REFINERY_FUEL_CAP as int) - r.fuel), REFINERY_FUEL_CAP as int);
        let lim = if m.fuel <= (REFINERY_FUEL_CAP as int) - r.fuel {
            m.fuel
        } else {
            (REFINERY_FUEL_CAP as int) - r.fuel
        };
        lemma_rate_limited(f, lim);
    }
    lemma_div_le(0, 6_000 * r.neutron_valve.val, SCALE as int);
    let b1 = 6_000 * r.neutron_valve.val / (SCALE as int);
    assert(b1 * m.neutrons >= 0) by (nonlinear_arith)
        requires
            b1 >= 0,
            m.neutrons >= 0,
    ;
    lemma_div_le(0, b1 * m.neutrons, SCALE as int);
    let nlim = if m.neutrons <= (REFINERY_NEUTRON_CAP as int) - r.neutrons {
        m.neutrons
    } else {
        (REFINERY_NEUTRON_CAP as int) - r.neutrons
    };
    lemma_rate_limited(m.spec_refinery_neutron_flow(), nlim);
    assert(r.waste_valve.val * m.waste >= 0) by (nonlinear_arith)
        requires
            m.waste >= 0,
            r.waste_valve.val >= 0,
    ;
    lemma_div_le(0, r.waste_valve.val * m.waste, 10 * (SCALE as int));
    let wlim = if m.waste <= (REFINERY_WASTE_CAP as int) - r.waste {
        m.waste
    } else {
        (REFINERY_WASTE_CAP as int) - r.waste
    };
    lemma_rate_limited(m.spec_refinery_waste_flow(), wlim);
    let r1 = RefineryModel {
        fuel: if r.fuel_valve.val > 500_000 {
            r.fuel - f / 50
        } else if r.fuel_valve.val < 500_000 {
            r.fuel + f / 50
        } else {
            r.fuel
        },
        neutrons: r.neutrons + m.spec_refinery_neutron_flow() / 50,
        waste: r.waste + m.spec_refinery_waste_flow() / 50,
        ..r
    };
    crate::refinery::lemma_refinery_tick_wf(r1);
}

/// Every pool stays inside its bounds across one whole step: fuel within
/// its progress-dependent cap, flux within its cap, waste and water
/// within theirs, heat nonnegative, and the subsystems likewise.
pub proof fn lemma_tick_preserves_inv(m: ReactorModel)
    requires
        m.inv(),
    ensures
        m.spec_tick().inv(),
{
    let m2 = m.spec_interlock().spec_unlocks();
    lemma_core_inv(m2);
    let m3 = m2.spec_core();
    let m4 = if m3.tank.unlocked {
        lemma_tank_exchange_inv(m3);
        m3.spec_tank_exchange()
    } else {
        m3
    };
    if m4.refinery.unlocked {
        lemma_refinery_exchange_inv(m4);
    }
}

/// The unlock flags are one-way latches: once a subsystem is unlocked, no
/// step locks it again.
pub proof fn lemma_unlocks_monotonic(m: ReactorModel)
    requires
        m.inv(),
    ensures
        m.tank.unlocked ==> m.spec_tick().tank.unlocked,
        m.refinery.unlocked ==> m.spec_tick().refinery.unlocked,
{
    let m2 = m.spec_interlock().spec_unlocks();
    lemma_core_inv(m2);
    let m3 = m2.spec_core();
    let m4 = if m3.tank.unlocked {
        lemma_tank_exchange_inv(m3);
        m3.spec_tank_exchange()
    } else {
        m3
    };
    if m4.refinery.unlocked {
        lemma_refinery_exchange_inv(m4);
    }
}

/// A vessel with no neutron flux never ignites by itself: whatever the
/// fuel, valves and vent, one step leaves the flux at zero.
pub proof fn lemma_dormant_stays_dormant(m: ReactorModel)
    requires
        m.inv(),
        m.neutrons == 0,
    ensures
        m.spec_tick().neutrons == 0,
{
    let m2 = m.spec_interlock().spec_unlocks();
    assert(spec_flux_curve(0) == 0);
    assert(m2.spec_reaction_speed() == 0) by {
        let scaled = 50_000 * m2.fuel / (SCALE as int);
        assert(scaled * spec_flux_curve(m2.neutrons) == 0) by (nonlinear_arith)
            requires
                spec_flux_curve(m2.neutrons) == 0,
        ;
        assert(m2.fuel * 50 >= 0);
    }
    lemma_core_inv(m2);
    let m3 = m2.spec_core();
    assert(m3.neutrons == 0);
    let m4 = if m3.tank.unlocked {
        lemma_tank_exchange_inv(m3);
        m3.spec_tank_exchange()
    } else {
        m3
    };
    assert(m4.neutrons == 0);
    if m4.refinery.unlocked {
        lemma_refinery_exchange_inv(m4);
        let b1 = 6_000 * m4.refinery.neutron_valve.val / (SCALE as int);
        assert(b1 * 0 == 0) by (nonlinear_arith);
        assert(m4.spec_refinery_neutron_flow() == 0);
    }
}

/// The state after `k` whole steps.
pub open spec fn spec_ticks(m: ReactorModel, k: nat) -> ReactorModel
    decreases k,
{
    if k == 0 {
        m
    } else {
        spec_ticks(m, (k - 1) as nat).spec_tick()
    }
}

/// Every pool stays inside its bounds after any number of steps.
pub proof fn lemma_ticks_preserve_inv(m: ReactorModel, k: nat)
    requires
        m.inv(),
    ensures
        spec_ticks(m, k).inv(),
    decreases k,
{
    if k > 0 {
        lemma_ticks_preserve_inv(m, (k - 1) as nat);
        lemma_tick_preserves_inv(spec_ticks(m, (k - 1) as nat));
    }
}

/// An unlocked subsystem stays unlocked for all subsequent steps,
/// whatever the state does later.
pub proof fn lemma_unlocks_latched(m: ReactorModel, k: nat)
    requires
        m.inv(),
    ensures
        m.tank.unlocked ==> spec_ticks(m, k).tank.unlocked,
        m.refinery.unlocked ==> spec_ticks(m, k).refinery.unlocked,
    decreases k,
{
    if k > 0 {
        lemma_unlocks_latched(m, (k - 1) as nat);
        lemma_ticks_preserve_inv(m, (k - 1) as nat);
        lemma_unlocks_monotonic(spec_ticks(m, (k - 1) as nat));
    }
}

/// From any fluxless state, repeated stepping never ignites the reaction:
/// the flux stays at zero after every number of steps.
pub proof fn lemma_dormant_forever(m: ReactorModel, k: nat)
    requires
        m.inv(),
        m.neutrons == 0,
    ensures
        spec_ticks(m, k).neutrons == 0,
    decreases k,
{
    if k > 0 {
        lemma_dormant_forever(m, (k - 1) as nat);
        lemma_ticks_preserve_inv(m, (k - 1) as nat);
        lemma_dormant_stays_dormant(spec_ticks(m, (k - 1) as nat));
    }
}

/// The reactor as the session starts.
pub open spec fn spec_initial() -> ReactorModel {
    ReactorModel {
        fuel: 900_000,
        neutrons: 0,
        heat: 0,
        water: 0,
        waste: 1_000_000,
        valve_open: true,
        valve_blocked: false,
        valve_unlocked: false,
        vent: false,
        tank: WaterTank::spec_init(),
        refinery: Refinery::spec_init(),
    }
}

/// The reactor vessel and its subsystems.
pub struct Reactor {
    fuel: u64,
    neutrons: u64,
    heat: u64,
    water: u64,
    waste: u64,
    valve_open: bool,
    valve_blocked: bool,
    valve_unlocked: bool,
    vent: bool,
    water_tank: WaterTank,
    refinery: Refinery,
}

impl View for Reactor {
    type V = ReactorModel;

    closed spec fn view(&self) -> ReactorModel {
        ReactorModel {
            fuel: self.fuel as int,
            neutrons: self.neutrons as int,
            heat: self.heat as int,
            water: self.water as int,
            waste: self.waste as int,
            valve_open: self.valve_open,
            valve_blocked: self.valve_blocked,
            valve_unlocked: self.valve_unlocked,
            vent: self.vent,
            tank: self.water_tank@,
            refinery: self.refinery@,
        }
    }
}

impl Reactor {
    /// A fresh reactor with the fixed initial state: most of a unit of
    /// fuel, no flux, no heat, no vessel water, one unit of waste, the
    /// fuel valve open by intent, everything else shut and locked.
    pub fn new() -> (r: Reactor)
        ensures
            r@ == spec_initial(),
            r@.inv(),
    {
        Reactor {
            fuel: 900_000,
            neutrons: 0,
            heat: 0,
            water: 0,
            waste: 1_000_000,
            valve_open: true,
            valve_blocked: false,
            valve_unlocked: false,
            vent: false,
            water_tank: WaterTank::new(),
            refinery: Refinery::new(),
        }
    }

    /// Step one: the safety interlock.
    fn step_interlock(&mut self)
        ensures
            final(self)@ == old(self)@.spec_interlock(),
    {
        if self.heat >= 3_000_000 || self.neutrons >= 3_000_000 {
            self.valve_blocked = true;
        } else if self.heat < 1_200_000 {
            self.valve_blocked = false;
        }
    }

    /// Step two: the progressive unlocks.
    fn step_unlocks(&mut self)
        ensures
            final(self)@ == old(self)@.spec_unlocks(),
    {
        if self.heat >= 3_000_000 {
            self.water_tank.unlocked = true;
        }
        if self.waste >= 5_000_000 {
            self.refinery.unlocked = true;
        }
    }

    /// Steps three to six: reaction, pool updates, clamps, ran-dry
    /// unlock, neutron overflow.
    #[verifier::rlimit(100)]
    fn step_core(&mut self)
        requires
            old(self)@.inv(),
        ensures
            final(self)@ == old(self)@.spec_core(),
    {
        let flux: u64 = flux_curve(self.neutrons);
        proof {
            lemma_div_le(50_000 * self@.fuel, 50_000 * 3_000_000int, SCALE as int);
        }
        let m1: u64 = mul_div(50_000, self.fuel, SCALE);
        proof {
            assert(m1 * flux <= 150_000int * 3_066_653int) by (nonlinear_arith)
                requires
                    0 <= m1 <= 150_000,
                    0 <= flux <= 3_066_653,
            ;
            lemma_div_le(m1 * flux, 150_000int * 3_066_653int, SCALE as int);
        }
        let raw: u64 = mul_div(m1, flux, SCALE);
        let adj: u64 = if raw >= 1_000 {
            raw - 1_000
        } else {
            0
        };
        let rs: u64 = min64(adj, self.fuel * 50);
        proof {
            assert(rs == self@.spec_reaction_speed());
        }
        let hx: u64 = self.neutrons;
        let pos_in: u64 = if self.valve_open && !self.valve_blocked {
            50_000
        } else {
            0
        };
        let neg: u64 = (if self.vent {
            250_000u64
        } else {
            0u64
        }) + rs;
        let cap: u64 = if self.water_tank.unlocked {
            FUEL_CAP_UNLOCKED
        } else {
            FUEL_CAP_LOCKED
        };
        let fuel1: u64 = if pos_in >= neg {
            min64(self.fuel + (pos_in - neg) / 50, cap)
        } else {
            let down: u64 = (neg - pos_in) / 50;
            if down >= self.fuel {
                0
            } else {
                min64(self.fuel - down, cap)
            }
        };
        proof {
            assert(fuel1 == clamp(
                self@.fuel + tdiv(
                    (if self@.spec_fuel_valve() {
                        50_000int
                    } else {
                        0
                    }) - (if self@.vent {
                        250_000int
                    } else {
                        0
                    }) - rs,
                    50,
                ),
                0,
                cap as int,
            ));
        }
        proof {
            lemma_div_le(970_000 * rs, 970_000 * 150_000_000int, SCALE as int);
        }
        let dw: u64 = mul_div(970_000, rs, SCALE) / 50;
        let waste1: u64 = min64(self.waste + dw, WASTE_CAP);
        let gain: u64 = 20 * rs;
        let n1: u64 = if gain >= hx {
            proof {
                lemma_div_le(gain - hx, 3_000_000_000int, 50);
            }
            self.neutrons + (gain - hx) / 50
        } else {
            proof {
                lemma_div_le(hx - gain, hx as int, 50);
                lemma_div_nonincreasing(hx as int, 50);
            }
            self.neutrons - (hx - gain) / 50
        };
        proof {
            assert(n1 == self@.neutrons + tdiv(20 * rs - hx, 50));
            assert(n1 <= 63_000_000);
        }
        let soften: u64 = if self.heat > 4_000_000 {
            self.heat / 4
        } else {
            SCALE
        };
        let five_hx: u64 = 5 * hx;
        let four_soft: u64 = 4 * soften;
        let denom: u64 = 10 * SCALE + self.water;
        let heat1: u64 = if five_hx >= four_soft {
            proof {
                lemma_div_le((five_hx - four_soft) * (SCALE as int), 15_000_000int * 1_000_000int, denom as int);
            }
            let inc: u64 = mul_div(five_hx - four_soft, SCALE, denom) / 50;
            min64(self.heat + inc, HEAT_LIMIT)
        } else {
            proof {
                vstd::arithmetic::div_mod::lemma_div_is_ordered_by_denominator(
                    (four_soft - five_hx) * (SCALE as int),
                    10_000_000int,
                    denom as int,
                );
                lemma_div_le(0, (four_soft - five_hx) * (SCALE as int), denom as int);
                lemma_div_le(
                    (four_soft - five_hx) * (SCALE as int),
                    1_000_000_000_000_000int * 1_000_000int,
                    10_000_000int,
                );
            }
            let dec: u64 = mul_div(four_soft - five_hx, SCALE, denom) / 50;
            if dec <= self.heat {
                self.heat - dec
            } else {
                0
            }
        };
        self.fuel = fuel1;
        self.waste = waste1;
        self.heat = heat1;
        if !self.valve_unlocked && fuel1 == 0 {
            self.valve_unlocked = true;
        }
        if n1 >= NEUTRON_CAP {
            let dump: u64 = 5 * (n1 - NEUTRON_CAP);
            self.heat = min64(heat1 + dump, HEAT_LIMIT);
            self.neutrons = NEUTRON_CAP;
        } else {
            self.neutrons = n1;
        }
        proof {
            assert(self@ == old(self)@.spec_core());
        }
    }

    /// Step seven: the water-tank exchange.
    fn step_tank_exchange(&mut self)
        requires
            old(self)@.inv(),
        ensures
            final(self)@ == old(self)@.spec_tank_exchange(),
    {
        proof {
            lemma_div_le(self@.water * 400_000, 25_000_000int * 400_000, SCALE as int);
        }
        let arg_out: u64 = mul_div(self.water, 400_000, SCALE);
        let p_out: u64 = pow_7_2(arg_out);
        let out_raw: u64 = mul_div(p_out, 10, 50);
        let out: u64 = min64(min64(out_raw, self.water), TANK_CAP - self.water_tank.water);
        self.water = self.water - out;
        self.water_tank.add_water(out, self.heat);
        proof {
            lemma_div_le(self@.tank.water * (SCALE as int), 25_000_000int * 1_000_000int, TANK_CAP as int);
        }
        let arg_in: u64 = mul_div(self.water_tank.water, SCALE, TANK_CAP);
        proof {
            assert(arg_in <= SCALE) by {
                assert(self@.tank.water * (SCALE as int) <= (TANK_CAP as int) * (SCALE as int))
                    by (nonlinear_arith)
                    requires
                        self@.tank.water <= TANK_CAP,
                ;
                lemma_div_le(
                    self@.tank.water * (SCALE as int),
                    (TANK_CAP as int) * (SCALE as int),
                    TANK_CAP as int,
                );
                lemma_div_multiples_vanish(SCALE as int, TANK_CAP as int);
            }
        }
        let p_in: u64 = pow_7_2(arg_in);
        proof {
            assert(self@.tank.valve.val * p_in <= 1_000_000int * 1_000_000int) by (nonlinear_arith)
                requires
                    0 <= self@.tank.valve.val <= 1_000_000,
                    0 <= p_in <= 1_000_000,
            ;
            lemma_div_le(self@.tank.valve.val * p_in, 1_000_000int * 1_000_000int, SCALE as int);
        }
        let e1: u64 = mul_div(self.water_tank.valve.val, p_in, SCALE);
        let in_raw: u64 = mul_div(e1, 10, 50);
        let inflow: u64 = min64(min64(in_raw, self.water_tank.water), TANK_CAP - self.water);
        let mixed: u64 = mix(10 * SCALE + self.water, self.heat, inflow, self.water_tank.heat);
        self.heat = mixed;
        self.water = self.water + inflow;
        self.water_tank.water = self.water_tank.water - inflow;
        self.water_tank.tick();
        proof {
            assert(self@ == old(self)@.spec_tank_exchange());
        }
    }

    /// Step eight: the refinery exchange.
    fn step_refinery_exchange(&mut self)
        requires
            old(self)@.inv(),
        ensures
            final(self)@ == old(self)@.spec_refinery_exchange(),
    {
        if self.refinery.fuel_valve.val > 500_000 {
            let v: u64 = (self.refinery.fuel_valve.val - 500_000) * 2;
            let cap: u64 = if self.water_tank.unlocked {
                FUEL_CAP_UNLOCKED
            } else {
                FUEL_CAP_LOCKED
            };
            proof {
                assert(cap == self@.spec_fuel_cap() && self@.fuel <= cap);
                lemma_div_le(100_000 * v, 100_000 * 1_000_000int, SCALE as int);
            }
            let a1: u64 = mul_div(100_000, v, SCALE);
            proof {
                assert(a1 * v <= 100_000int * 1_000_000int) by (nonlinear_arith)
                    requires
                        0 <= a1 <= 100_000,
                        0 <= v <= 1_000_000,
                ;
                lemma_div_le(a1 * v, 100_000int * 1_000_000int, SCALE as int);
            }
            let a2: u64 = mul_div(a1, v, SCALE);
            proof {
                assert(a2 * self@.refinery.fuel <= 100_000int * 10_000_000int) by (nonlinear_arith)
                    requires
                        0 <= a2 <= 100_000,
                        0 <= self@.refinery.fuel <= 10_000_000,
                ;
                lemma_div_le(a2 * self@.refinery.fuel, 100_000int * 10_000_000int, SCALE as int);
            }
            let a3: u64 = mul_div(a2, self.refinery.fuel, SCALE);
            proof {
                assert(a3 * ((cap as int) - self@.fuel) <= 1_000_000int * 3_000_000int)
                    by (nonlinear_arith)
                    requires
                        0 <= a3 <= 1_000_000,
                        0 <= (cap as int) - self@.fuel <= 3_000_000,
                ;
                lemma_div_le(
                    a3 * ((cap as int) - self@.fuel),
                    1_000_000int * 3_000_000int,
                    cap as int,
                );
            }
            let a4: u64 = mul_div(a3, cap - self.fuel, cap);
            let lim: u64 = min64(self.refinery.fuel, cap - self.fuel);
            let f: u64 = min64(a4, lim * 50);
            proof {
                lemma_rate_limited(f as int, lim as int);
            }
            self.fuel = self.fuel + f / 50;
            self.refinery.fuel = self.refinery.fuel - f / 50;
        } else if self.refinery.fuel_valve.val < 500_000 {
            let v: u64 = (500_000 - self.refinery.fuel_valve.val) * 2;
            proof {
                lemma_div_le(100_000 * v, 100_000 * 1_000_000int, SCALE as int);
            }
            let a1: u64 = mul_div(100_000, v, SCALE);
            proof {
                assert(a1 * v <= 100_000int * 1_000_000int) by (nonlinear_arith)
                    requires
                        0 <= a1 <= 100_000,
                        0 <= v <= 1_000_000,
                ;
                lemma_div_le(a1 * v, 100_000int * 1_000_000int, SCALE as int);
            }
            let a2: u64 = mul_div(a1, v, SCALE);
            proof {
                assert(a2 * self@.fuel <= 100_000int * 3_000_000int) by (nonlinear_arith)
                    requires
                        0 <= a2 <= 100_000,
                        0 <= self@.fuel <= 3_000_000,
                ;
                lemma_div_le(a2 * self@.fuel, 100_000int * 3_000_000int, SCALE as int);
            }
            let a3: u64 = mul_div(a2, self.fuel, SCALE);
            proof {
                assert(a3 * ((REFINERY_FUEL_CAP as int) - self@.refinery.fuel) <= 300_000int
                    * 10_000_000int) by (nonlinear_arith)
                    requires
                        0 <= a3 <= 300_000,
                        0 <= (REFINERY_FUEL_CAP as int) - self@.refinery.fuel <= 10_000_000,
                ;
                lemma_div_le(
                    a3 * ((REFINERY_FUEL_CAP as int) - self@.refinery.fuel),
                    300_000int * 10_000_000int,
                    REFINERY_FUEL_CAP as int,
                );
            }
            let a4: u64 = mul_div(a3, REFINERY_FUEL_CAP - self.refinery.fuel, REFINERY_FUEL_CAP);
            let lim: u64 = min64(self.fuel, REFINERY_FUEL_CAP - self.refinery.fuel);
            let f: u64 = min64(a4, lim * 50);
            proof {
                lemma_rate_limited(f as int, lim as int);
            }
            self.fuel = self.fuel - f / 50;
            self.refinery.fuel = self.refinery.fuel + f / 50;
        }
        proof {
            lemma_div_le(6_000 * self@.refinery.neutron_valve.val, 6_000 * 1_000_000int, SCALE as int);
        }
        let b1: u64 = mul_div(6_000, self.refinery.neutron_valve.val, SCALE);
        proof {
            assert(b1 * self@.neutrons <= 6_000int * 3_000_000int) by (nonlinear_arith)
                requires
                    0 <= b1 <= 6_000,
                    0 <= self@.neutrons <= 3_000_000,
            ;
            lemma_div_le(b1 * self@.neutrons, 6_000int * 3_000_000int, SCALE as int);
        }
        let b2: u64 = mul_div(b1, self.neutrons, SCALE);
        let nlim: u64 = min64(self.neutrons, REFINERY_NEUTRON_CAP - self.refinery.neutrons);
        let nf: u64 = min64(b2, nlim * 50);
        proof {
            lemma_rate_limited(nf as int, nlim as int);
        }
        self.neutrons = self.neutrons - nf / 50;
        self.refinery.neutrons = self.refinery.neutrons + nf / 50;
        proof {
            assert(self@.refinery.waste_valve.val * self@.waste <= 1_000_000int * 10_000_000int)
                by (nonlinear_arith)
                requires
                    0 <= self@.refinery.waste_valve.val <= 1_000_000,
                    0 <= self@.waste <= 10_000_000,
            ;
            lemma_div_le(
                self@.refinery.waste_valve.val * self@.waste,
                1_000_000int * 10_000_000int,
                10 * (SCALE as int),
            );
        }
        let w1: u64 = mul_div(self.refinery.waste_valve.val, self.waste, 10 * SCALE);
        let wlim: u64 = min64(self.waste, REFINERY_WASTE_CAP - self.refinery.waste);
        let wflow: u64 = min64(w1, wlim * 50);
        proof {
            lemma_rate_limited(wflow as int, wlim as int);
        }
        self.waste = self.waste - wflow / 50;
        self.refinery.waste = self.refinery.waste + wflow / 50;
        self.refinery.tick();
        proof {
            assert(self@ == old(self)@.spec_refinery_exchange());
        }
    }

    /// Advance the simulation by exactly one fixed logical step,
    /// regardless of the caller's frame timing: interlock, unlocks, core
    /// update, then the exchanges for whichever subsystems are unlocked.
    pub fn tick(&mut self)
        requires
            old(self)@.inv(),
        ensures
            final(self)@ == old(self)@.spec_tick(),
            final(self)@.inv(),
    {
        self.step_interlock();
        self.step_unlocks();
        proof {
            assert(self@.inv());
            lemma_core_inv(self@);
        }
        self.step_core();
        proof {
            if self@.tank.unlocked {
                lemma_tank_exchange_inv(self@);
            }
        }
        if self.water_tank.unlocked {
            self.step_tank_exchange();
        }
        proof {
            if self@.refinery.unlocked {
                lemma_refinery_exchange_inv(self@);
            }
        }
        if self.refinery.unlocked {
            self.step_refinery_exchange();
        }
    }

    /// Ignite the reaction: exactly when heat is below two units, flux
    /// below one and fuel at least the cost, the flux is set to one unit
    /// and the cost deducted; on any other state this is a no-op.
    pub fn ignite(&mut self)
        requires
            old(self)@.inv(),
        ensures
            final(self)@ == old(self)@.spec_ignite(),
            final(self)@.inv(),
    {
        if self.heat < 2_000_000 && self.neutrons < 1_000_000 && self.fuel >= IGNITE_COST {
            self.neutrons = 1_000_000;
            self.fuel = self.fuel - IGNITE_COST;
        }
    }

    /// Route a click: the ignite button, the vent toggle, then — once
    /// that control is unlocked — the fuel-valve pad; each test is
    /// independent of the others. The subsystem panels take no clicks.
    pub fn click(&mut self, m: Vec2)
        requires
            old(self)@.inv(),
            bounded(m),
        ensures
            final(self)@ == old(self)@.spec_click(m),
            final(self)@.inv(),
    {
        if circle(m, vec2(0, 110_000), 25_000) {
            self.ignite();
        }
        if circle(m, vec2(0, 40_000), 25_000) {
            self.toggle_vent();
        }
        if self.valve_unlocked && rect(m, vec2(-745_000, -245_000), vec2(50_000, 50_000)) {
            self.toggle_fuel_valve();
        }
        if self.water_tank.unlocked {
            self.water_tank.click(m);
        }
        if self.refinery.unlocked {
            self.refinery.click(m);
        }
    }

    /// Route a drag gesture: the tank valve first, then the refinery
    /// valves, each only when its subsystem is unlocked, stopping at the
    /// first dial that takes the motion. The caller uses the returned
    /// flag to decide whether the gesture pans the view instead.
    pub fn drag(&mut self, initial_pos: Vec2, pos: Vec2, delta: Vec2) -> (consumed: bool)
        requires
            old(self)@.inv(),
            bounded(initial_pos),
            bounded(pos),
            bounded(delta),
        ensures
            (final(self)@, consumed) == old(self)@.spec_drag(initial_pos, pos, delta),
            final(self)@.inv(),
    {
        if self.water_tank.unlocked {
            if self.water_tank.drag(initial_pos, pos, delta) {
                return true;
            }
        }
        if self.refinery.unlocked {
            if self.refinery.drag(initial_pos, pos, delta) {
                return true;
            }
        }
        false
    }

    /// Produce the frame's ordered draw-primitive list, a pure function
    /// of the state; the renderer consumes it verbatim, back-to-front by
    /// `z` order.
    #[verifier::rlimit(100)]
    pub fn vertices(&self) -> (r: Vec<Prim>)
        requires
            self@.inv(),
        ensures
            r@ == self@.spec_vertices(),
    {
        let mut result: Vec<Prim> = Vec::new();
        let v = &mut result;
        let pc = panel_color(self.heat);
        quad(v, vec3(-300_000, -150_000, 1_000_000), vec2(600_000, 300_000), Tex::Color(pc));
        let bar_bg = Tex::Color(rgba(0, 0, 0, 1_000_000));
        quad(v, vec3(-240_000, -140_000, 2_000_000), vec2(37_000, 280_000), bar_bg);
        quad(v, vec3(-190_000, -140_000, 2_000_000), vec2(37_000, 280_000), bar_bg);
        quad(v, vec3(-190_000, -140_000, 2_000_000), vec2(37_000, 280_000), bar_bg);
        quad(v, vec3(-190_000, 46_666, 3_000_000), vec2(37_000, 93_333), Tex::Color(
        rgba(590_000, 250_000, 250_000, 1_000_000)));
        let fuel_h: u64 = mul_div(280_000, self.fuel, 3 * SCALE);
        quad(v, vec3(-240_000, -140_000, 4_000_000), vec2(37_000, fuel_h as i64), Tex::Color(
        rgba(930_000, 870_000, 470_000, 1_000_000)));
        let n_main: u64 = mul_div(280_000, min64(self.neutrons, 2 * SCALE), 3 * SCALE);
        quad(v, vec3(-190_000, -140_000, 4_000_000), vec2(37_000, n_main as i64), Tex::Color(
        rgba(1_000_000, 1_000_000, 1_000_000, 1_000_000)));
        let n_over: u64 = if self.neutrons >= 2 * SCALE {
            mul_div(280_000, self.neutrons - 2 * SCALE, 3 * SCALE)
        } else {
            0
        };
        quad(v, vec3(-190_000, 46_666, 4_000_000), vec2(37_000, n_over as i64), Tex::Color(
        rgba(1_000_000, 0, 0, 1_000_000)));
        quad(v, vec3(-240_000, -48_166, 5_000_000), vec2(87_000, 3_000), Tex::Color(
        rgba(50_000, 240_000, 60_000, 750_000)));
        let button_bg = Tex::Color(rgba(500_000, 500_000, 500_000, 1_000_000));
        quad(v, vec3(-30_000, 80_000, 2_000_000), vec2(60_000, 60_000), button_bg);
        quad(v, vec3(-25_000, 85_000, 3_000_000), vec2(50_000, 50_000), Tex::Texture(
            if self.heat < 2_000_000 {
                0
            } else {
                4
            },
        ));
        quad(v, vec3(-30_000, 10_000, 2_000_000), vec2(60_000, 60_000), button_bg);
        quad(v, vec3(-25_000, 15_000, 3_000_000), vec2(50_000, 50_000), Tex::Texture(
            if self.vent {
                2
            } else {
                1
            },
        ));
        if self.valve_unlocked {
            quad(v, vec3(-750_000, -250_000, 2_000_000), vec2(60_000, 60_000), button_bg);
            quad(v, vec3(-745_000, -245_000, 2_000_000), vec2(50_000, 50_000), Tex::Texture(
                if self.valve_blocked {
                    4
                } else if self.valve_open {
                    6
                } else {
                    5
                },
            ));
        }
        if self.water_tank.unlocked {
            quad(v, vec3(-290_000, -140_000, 2_000_000), vec2(37_000, 280_000), bar_bg);
            let water_h: u64 = mul_div(112_000, self.water, SCALE);
            quad(v, vec3(-290_000, -140_000, 4_000_000), vec2(37_000, water_h as i64), Tex::Color(
            rgba(0, 500_000, 1_000_000, 1_000_000)));
            self.water_tank.render(v);
        }
        if self.refinery.unlocked {
            quad(v, vec3(-140_000, -140_000, 2_000_000), vec2(37_000, 280_000), bar_bg);
            let waste_h: u64 = mul_div(280_000, self.waste, WASTE_CAP);
            quad(v, vec3(-140_000, -140_000, 4_000_000), vec2(37_000, waste_h as i64), Tex::Color(
            rgba(330_000, 800_000, 200_000, 1_000_000)));
            self.refinery.render(v);
        }
        proof {
            assert(result@ =~= self@.spec_vertices());
        }
        result
    }

    /// Flip the operator's fuel-valve intent.
    pub fn toggle_fuel_valve(&mut self)
        ensures
            final(self)@ == (ReactorModel { valve_open: !old(self)@.valve_open, ..old(self)@ }),
    {
        self.valve_open = !self.valve_open;
    }

    /// Flip the fuel vent.
    pub fn toggle_vent(&mut self)
        ensures
            final(self)@ == (ReactorModel { vent: !old(self)@.vent, ..old(self)@ }),
    {
        self.vent = !self.vent;
    }

    /// Fuel in the vessel.
    pub fn fuel(&self) -> (r: u64)
        ensures
            r == self@.fuel,
    {
        self.fuel
    }

    /// Neutron flux in the vessel.
    pub fn neutrons(&self) -> (r: u64)
        ensures
            r == self@.neutrons,
    {
        self.neutrons
    }

    /// Heat of the vessel.
    pub fn heat(&self) -> (r: u64)
        ensures
            r == self@.heat,
    {
        self.heat
    }

    /// Coolant water in the vessel.
    pub fn water(&self) -> (r: u64)
        ensures
            r == self@.water,
    {
        self.water
    }

    /// Waste in the vessel.
    pub fn waste(&self) -> (r: u64)
        ensures
            r == self@.waste,
    {
        self.waste
    }

    /// Whether fuel feeds the vessel: manual intent and no safety block.
    pub fn fuel_valve(&self) -> (r: bool)
        ensures
            r == self@.spec_fuel_valve(),
    {
        self.valve_open && !self.valve_blocked
    }

    /// Whether the safety interlock blocks the fuel valve.
    pub fn fuel_valve_blocked(&self) -> (r: bool)
        ensures
            r == self@.valve_blocked,
    {
        self.valve_blocked
    }

    /// Whether the fuel-valve control has been unlocked.
    pub fn fuel_valve_unlocked(&self) -> (r: bool)
        ensures
            r == self@.valve_unlocked,
    {
        self.valve_unlocked
    }

    /// Whether the fuel vent is open.
    pub fn vent(&self) -> (r: bool)
        ensures
            r == self@.vent,
    {
        self.vent
    }

    /// The secondary coolant loop.
    pub fn water_tank(&self) -> (t: &WaterTank)
        ensures
            t@ == self@.tank,
    {
        &self.water_tank
    }

    /// The tertiary reprocessing unit.
    pub fn refinery(&self) -> (r: &Refinery)
        ensures
            r@ == self@.refinery,
    {
        &self.refinery
    }
}

} // verus!
