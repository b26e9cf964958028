//! Scenario tests for the reactor's fixed-step simulation.

use reactor_core::reactor::Reactor;

const SCALE: u64 = 1_000_000;

#[test]
fn default_state() {
    let r = Reactor::new();
    assert_eq!(r.fuel(), 900_000);
    assert_eq!(r.neutrons(), 0);
    assert_eq!(r.heat(), 0);
    assert_eq!(r.water(), 0);
    assert_eq!(r.waste(), 1_000_000);
    assert!(r.fuel_valve());
    assert!(!r.fuel_valve_blocked());
    assert!(!r.fuel_valve_unlocked());
    assert!(!r.vent());
    assert!(!r.water_tank().unlocked);
    assert_eq!(r.water_tank().water, 20_000_000);
    assert!(!r.refinery().unlocked);
    assert_eq!(r.refinery().fuel_valve.val, 500_000);
}

#[test]
fn one_tick_from_default() {
    let mut r = Reactor::new();
    r.tick();
    assert_eq!(r.fuel(), 901_000);
    assert_eq!(r.neutrons(), 0);
    assert_eq!(r.heat(), 0);
    assert_eq!(r.water(), 0);
    assert_eq!(r.waste(), 1_000_000);
}

#[test]
fn ignite_on_default_state_is_deterministic() {
    let mut r = Reactor::new();
    r.ignite();
    assert_eq!(r.neutrons(), 1_000_000);
    assert_eq!(r.fuel(), 800_000);
}

#[test]
fn tick_after_ignition() {
    let mut r = Reactor::new();
    r.ignite();
    r.tick();
    assert_eq!(r.fuel(), 800_220);
    assert_eq!(r.neutrons(), 995_600);
    assert_eq!(r.heat(), 2_000);
    assert_eq!(r.waste(), 1_000_756);
}

#[test]
fn ignite_blocked_by_existing_flux() {
    let mut r = Reactor::new();
    r.ignite();
    r.ignite();
    assert_eq!(r.neutrons(), 1_000_000);
    assert_eq!(r.fuel(), 800_000);
}

#[test]
fn ignite_blocked_by_missing_fuel() {
    let mut r = Reactor::new();
    r.toggle_vent();
    r.toggle_fuel_valve();
    for _ in 0..170 {
        r.tick();
    }
    assert_eq!(r.fuel(), 50_000);
    r.ignite();
    assert_eq!(r.neutrons(), 0);
    assert_eq!(r.fuel(), 50_000);
}

#[test]
fn running_dry_unlocks_the_fuel_valve_control() {
    let mut r = Reactor::new();
    r.toggle_vent();
    r.toggle_fuel_valve();
    for _ in 0..180 {
        r.tick();
    }
    assert_eq!(r.fuel(), 0);
    assert!(r.fuel_valve_unlocked());
    for _ in 0..10 {
        r.tick();
        assert!(r.fuel_valve_unlocked());
    }
}

#[test]
fn dormant_reactor_never_ignites_by_itself() {
    let mut r = Reactor::new();
    for _ in 0..300 {
        r.tick();
        assert_eq!(r.neutrons(), 0);
        assert_eq!(r.heat(), 0);
        assert!(r.fuel() <= 1_100_000);
    }
    assert_eq!(r.fuel(), 1_100_000);
}

#[test]
fn driven_reactor_crosses_the_unlock_threshold() {
    let mut r = Reactor::new();
    let mut ignited = false;
    let mut crossed_at: Option<u32> = None;
    let mut unlocked_at: Option<u32> = None;
    let mut ignite_blocked_checked = false;
    for t in 1..2500u32 {
        if !ignited && r.fuel() >= 1_100_000 {
            r.ignite();
            ignited = true;
            assert_eq!(r.neutrons(), 1_000_000);
        }
        r.tick();
        // the bounds hold at every reachable state
        assert!(r.fuel() <= 3 * SCALE);
        assert!(r.neutrons() <= 3 * SCALE);
        assert!(r.waste() <= 10 * SCALE);
        assert!(r.water() <= 25 * SCALE);
        assert!(r.water_tank().water <= 25 * SCALE);
        if crossed_at.is_none() && r.heat() >= 3 * SCALE {
            crossed_at = Some(t);
        }
        if unlocked_at.is_none() && r.water_tank().unlocked {
            unlocked_at = Some(t);
        }
        if unlocked_at.is_some() {
            // the unlock is a one-way latch
            assert!(r.water_tank().unlocked);
        }
        if !ignite_blocked_checked && r.heat() >= 2 * SCALE {
            // hot vessels refuse to ignite
            let (f, n, h) = (r.fuel(), r.neutrons(), r.heat());
            r.ignite();
            assert_eq!((r.fuel(), r.neutrons(), r.heat()), (f, n, h));
            ignite_blocked_checked = true;
        }
    }
    assert_eq!(crossed_at, Some(1723));
    assert!(unlocked_at.is_some());
    assert!(ignite_blocked_checked);
    assert!(r.water_tank().unlocked);
}

#[test]
fn vent_drains_fuel() {
    let mut r = Reactor::new();
    r.toggle_vent();
    assert!(r.vent());
    r.tick();
    // intake of one fiftieth of the rate, vent of five times that
    assert_eq!(r.fuel(), 900_000 + 1_000 - 5_000);
    r.toggle_vent();
    assert!(!r.vent());
}

#[test]
fn fuel_valve_toggle_stops_intake() {
    let mut r = Reactor::new();
    r.toggle_fuel_valve();
    assert!(!r.fuel_valve());
    r.tick();
    assert_eq!(r.fuel(), 900_000);
}
