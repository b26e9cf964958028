//! Tests for the water tank, the refinery, colors and render output.

use reactor_core::prim::{blend, Prim, Rgba, Tex};
use reactor_core::reactor::Reactor;
use reactor_core::refinery::Refinery;
use reactor_core::tank::WaterTank;
use reactor_core::vec2::vec2;

#[test]
fn add_water_mixes_heat_by_mass() {
    let mut t = WaterTank::new();
    t.add_water(5_000_000, 2_000_000);
    assert_eq!(t.water, 25_000_000);
    // ((water + one) * heat + amount * incoming) / (water + one + amount)
    assert_eq!(t.heat, 384_615);
}

#[test]
fn cold_tank_refills_without_evaporating() {
    let mut t = WaterTank::new();
    t.tick();
    assert_eq!(t.water, 20_002_000);
    assert_eq!(t.heat, 0);
}

#[test]
fn hot_tank_boils_water_off() {
    let mut t = WaterTank::new();
    t.heat = 2_000_000;
    t.tick();
    assert_eq!(t.water, 19_988_995);
    assert_eq!(t.heat, 1_999_190);
}

#[test]
fn full_tank_stops_refilling() {
    let mut t = WaterTank::new();
    t.add_water(5_000_000, 0);
    assert_eq!(t.water, 25_000_000);
    t.tick();
    assert_eq!(t.water, 25_000_000);
}

#[test]
fn tank_valve_can_be_set() {
    let mut t = WaterTank::new();
    t.set_valve(400_000);
    assert_eq!(t.valve.val, 400_000);
}

#[test]
fn refinery_reaction_converts_waste_to_fuel() {
    let mut r = Refinery::new();
    r.fuel = 2_000_000;
    r.neutrons = 100_000;
    r.waste = 10_000_000;
    r.tick();
    assert_eq!(r.fuel, 2_006_400);
    assert_eq!(r.neutrons, 99_940);
    assert_eq!(r.waste, 9_968_000);
}

#[test]
fn refinery_flux_decays_at_every_magnitude() {
    let mut r = Refinery::new();
    r.neutrons = 1_000;
    r.tick();
    assert_eq!(r.neutrons, 999);
    // the decay is unconditional: every positive flux strictly shrinks,
    // so the pool reaches zero instead of stalling on a tiny residue
    let mut steps: u32 = 0;
    while r.neutrons > 0 {
        let before = r.neutrons;
        r.tick();
        assert!(r.neutrons < before);
        steps += 1;
    }
    assert_eq!(steps, 999);
    r.tick();
    assert_eq!(r.neutrons, 0);
}

#[test]
fn empty_refinery_does_nothing() {
    let mut r = Refinery::new();
    r.tick();
    assert_eq!(r.fuel, 0);
    assert_eq!(r.neutrons, 0);
    assert_eq!(r.waste, 0);
}

#[test]
fn blend_mixes_channels_linearly() {
    let black = Rgba { r: 0, g: 0, b: 0, a: 1_000_000 };
    let white = Rgba { r: 1_000_000, g: 1_000_000, b: 1_000_000, a: 1_000_000 };
    let mid = blend(black, white, 500_000);
    assert_eq!(mid, Rgba { r: 500_000, g: 500_000, b: 500_000, a: 1_000_000 });
    assert_eq!(blend(black, white, 0), black);
    assert_eq!(blend(black, white, 1_000_000), white);
}

#[test]
fn fresh_reactor_emits_the_main_panel_primitives() {
    let r = Reactor::new();
    let prims = r.vertices();
    assert_eq!(prims.len(), 13);
    let panel: Prim = prims[0];
    assert_eq!(panel.pos.x, -300_000);
    assert_eq!(panel.pos.y, -150_000);
    assert_eq!(panel.pos.z, 1_000_000);
    assert_eq!(panel.size.x, 600_000);
    assert_eq!(panel.size.y, 300_000);
    // at zero heat the panel sits at the cold grey end of the blend
    assert!(matches!(panel.tex, Tex::Color(c) if c == Rgba { r: 750_000, g: 750_000, b: 750_000, a: 1_000_000 }));
    // the vent shows its closed icon
    assert!(matches!(prims[12].tex, Tex::Texture(1)));
    // the cold ignite button shows its ready icon
    assert!(matches!(prims[10].tex, Tex::Texture(0)));
}

#[test]
fn fuel_bar_height_follows_the_fuel_pool() {
    let r = Reactor::new();
    let prims = r.vertices();
    // fuel bar: bar height times fuel over the unlocked cap
    assert_eq!(prims[5].size.y, 280_000 * 900_000 / 3_000_000);
}

#[test]
fn tank_render_emits_panel_window_level_and_valve() {
    let t = WaterTank::new();
    let mut v: Vec<Prim> = Vec::new();
    t.render(&mut v);
    assert_eq!(v.len(), 5);
    // water level: the window height scaled by the fill fraction
    assert_eq!(v[2].size.y, 280_000 * 20_000_000 / 25_000_000);
    // the valve dial: background then the rotating quad
    assert!(matches!(v[3].tex, Tex::Color(_)));
    assert!(matches!(v[4].tex, Tex::Texture(3)));
    assert_eq!(v[4].rot, 0);
}

#[test]
fn refinery_render_emits_panel_bars_and_valves() {
    let r = Refinery::new();
    let mut v: Vec<Prim> = Vec::new();
    r.render(&mut v);
    assert_eq!(v.len(), 13);
    // the centered fuel valve sits half a turn into its range
    assert_eq!(v[8].rot, -1_570_796);
}

#[test]
fn unlocked_subsystems_add_their_primitives() {
    let mut r = Reactor::new();
    let mut ignited = false;
    for _ in 0..2000 {
        if !ignited && r.fuel() >= 1_100_000 {
            r.ignite();
            ignited = true;
        }
        r.tick();
    }
    assert!(r.water_tank().unlocked);
    let prims = r.vertices();
    // main panel, water bar pair, and the tank panel with its valve
    assert_eq!(prims.len(), 13 + 2 + 5);
}

#[test]
fn reactor_drag_reaches_the_tank_valve_once_unlocked() {
    let mut r = Reactor::new();
    let mut ignited = false;
    for _ in 0..2000 {
        if !ignited && r.fuel() >= 1_100_000 {
            r.ignite();
            ignited = true;
        }
        r.tick();
    }
    assert!(r.water_tank().unlocked);
    assert_eq!(r.water_tank().valve.val, 0);
    // grab the tank valve just right of its center and sweep clockwise
    let grab = vec2(-350_001 + 20_000, 319_999);
    let consumed = r.drag(grab, vec2(-330_001, 314_999), vec2(0, -5_000));
    assert!(consumed);
    assert_eq!(r.water_tank().valve.val, 78_793);
    // with the valve open, tank water flows into the vessel
    for _ in 0..200 {
        r.tick();
    }
    assert!(r.water() > 0);
    assert!(r.water() <= 25_000_000);
}

#[test]
fn refinery_unlocks_and_receives_flux_and_waste() {
    let mut r = Reactor::new();
    // run hot, reigniting whenever the vessel permits it, until enough
    // waste has accumulated to unlock the reprocessing unit
    for _ in 0..5_800 {
        if r.fuel() >= 1_100_000 && r.neutrons() < 1_000_000 && r.heat() < 2_000_000 {
            r.ignite();
        }
        r.tick();
    }
    assert!(r.refinery().unlocked);
    assert_eq!(r.refinery().neutrons, 0);
    assert_eq!(r.refinery().waste, 0);
    // open the refinery neutron and waste valves
    let nc = vec2(-300_001 + 20_000, -350_001);
    assert!(r.drag(nc, vec2(-280_001, -355_001), vec2(0, -5_000)));
    let wc = vec2(-150_001 + 20_000, -350_001);
    assert!(r.drag(wc, vec2(-130_001, -355_001), vec2(0, -5_000)));
    assert_eq!(r.refinery().neutron_valve.val, 78_793);
    assert_eq!(r.refinery().waste_valve.val, 78_793);
    for _ in 0..2_000 {
        if r.fuel() >= 1_100_000 && r.neutrons() < 1_000_000 && r.heat() < 2_000_000 {
            r.ignite();
        }
        r.tick();
    }
    // flux and waste have moved into the refinery, within its caps
    assert!(r.refinery().neutrons > 0);
    assert!(r.refinery().neutrons <= 200_000);
    assert!(r.refinery().waste > 0);
    assert!(r.refinery().waste <= 20_000_000);
}
