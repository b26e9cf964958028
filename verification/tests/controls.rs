//! Tests for the rotary dials, the geometry, and pointer routing.

use reactor_core::collision::{angle, atan2_fp, circle, dist_at_least, rect};
use reactor_core::dial::Dial;
use reactor_core::prim::Tex;
use reactor_core::reactor::Reactor;
use reactor_core::vec2::{vec2, Vec2};

fn test_dial(val: u64, range: Option<(i64, i64)>) -> Dial {
    Dial {
        pos: vec2(0, 0),
        size: vec2(120_000, 120_000),
        val,
        range,
        tex: Tex::Texture(0),
        z_index: 0,
        background: None,
    }
}

#[test]
fn drag_inside_hit_circle_turns_the_dial() {
    let mut d = test_dial(0, Some((0, 500_000)));
    let consumed = d.drag(vec2(60_000, 80_000), vec2(80_000, 60_000), vec2(5_000, -5_000));
    assert!(consumed);
    assert_eq!(d.val, 102_643);
}

#[test]
fn drag_sweep_past_a_radian_is_discarded() {
    let mut d = test_dial(0, Some((0, 500_000)));
    let consumed = d.drag(vec2(60_000, 80_000), vec2(80_000, 60_000), vec2(20_000, -20_000));
    assert!(consumed);
    assert_eq!(d.val, 0);
}

#[test]
fn drag_on_unranged_dial_wraps() {
    let mut d = test_dial(250_000, None);
    let consumed = d.drag(vec2(60_000, 80_000), vec2(80_000, 60_000), vec2(5_000, -5_000));
    assert!(consumed);
    assert_eq!(d.val, 301_321);
}

#[test]
fn drag_on_unranged_dial_wraps_below_zero() {
    let mut d = test_dial(0, None);
    let consumed = d.drag(vec2(60_000, 80_000), vec2(80_000, 65_000), vec2(5_000, 5_000));
    assert!(consumed);
    assert_eq!(d.val, 960_604);
}

#[test]
fn drag_outside_hit_circle_is_not_consumed() {
    let mut d = test_dial(250_000, Some((0, 500_000)));
    let consumed = d.drag(vec2(200_000, 200_000), vec2(0, 0), vec2(0, 0));
    assert!(!consumed);
    assert_eq!(d.val, 250_000);
}

#[test]
fn drag_in_center_dead_zone_is_not_consumed() {
    let mut d = test_dial(250_000, Some((0, 500_000)));
    let consumed = d.drag(vec2(60_000, 60_000), vec2(0, 0), vec2(0, 0));
    assert!(!consumed);
    assert_eq!(d.val, 250_000);
}

#[test]
fn ranged_trans_matches_the_remap_formula() {
    let d = test_dial(250_000, Some((0, 500_000)));
    // (min + (-val * two pi)) * (max - min), in fixed point
    let v: i64 = -(250_000i64 * 6_283_185 / 1_000_000);
    let expected: i64 = (0 + v) * (500_000 - 0) / 1_000_000;
    assert_eq!(d.trans(), expected);
    assert_eq!(d.trans(), -785_398);
}

#[test]
fn unranged_trans_is_a_plain_fraction_of_a_turn() {
    let d = test_dial(250_000, None);
    assert_eq!(d.trans(), -1_570_796);
}

#[test]
fn circle_test_is_exact_on_the_boundary() {
    assert!(circle(vec2(3_000, 4_000), vec2(0, 0), 5_000));
    assert!(!circle(vec2(3_000, 4_000), vec2(0, 0), 4_999));
    assert!(circle(vec2(-3_000, -4_000), vec2(0, 0), 5_000));
}

#[test]
fn rect_test_includes_its_edges() {
    let corner = vec2(-10_000, -20_000);
    let size = vec2(30_000, 40_000);
    assert!(rect(vec2(-10_000, -20_000), corner, size));
    assert!(rect(vec2(20_000, 20_000), corner, size));
    assert!(rect(vec2(0, 0), corner, size));
    assert!(!rect(vec2(20_001, 0), corner, size));
    assert!(!rect(vec2(0, -20_001), corner, size));
}

#[test]
fn distance_test_is_exact_on_the_boundary() {
    assert!(dist_at_least(vec2(0, 0), vec2(3_000, 4_000), 5_000));
    assert!(!dist_at_least(vec2(0, 0), vec2(3_000, 4_000), 5_001));
}

#[test]
fn arctangent_hits_the_axes_and_the_diagonal() {
    assert_eq!(atan2_fp(0, 1_000_000), 0);
    assert_eq!(atan2_fp(1_000_000, 0), 1_570_796);
    assert_eq!(atan2_fp(0, -1_000_000), 3_141_593);
    assert_eq!(atan2_fp(-1_000_000, 0), -1_570_796);
    assert_eq!(atan2_fp(1_000_000, 1_000_000), 785_398);
}

#[test]
fn angle_between_axes_is_a_quarter_turn() {
    let c = vec2(0, 0);
    assert_eq!(angle(c, vec2(1_000_000, 0), vec2(0, 1_000_000)), -1_570_796);
    assert_eq!(angle(c, vec2(0, 1_000_000), vec2(1_000_000, 0)), 1_570_796);
}

#[test]
fn click_on_ignite_button_ignites() {
    let mut r = Reactor::new();
    r.click(vec2(0, 110_000));
    assert_eq!(r.neutrons(), 1_000_000);
    assert_eq!(r.fuel(), 800_000);
}

#[test]
fn click_on_vent_button_toggles_the_vent() {
    let mut r = Reactor::new();
    r.click(vec2(0, 40_000));
    assert!(r.vent());
    r.click(vec2(0, 40_000));
    assert!(!r.vent());
}

#[test]
fn click_elsewhere_changes_nothing() {
    let mut r = Reactor::new();
    r.click(vec2(500_000, 500_000));
    assert_eq!(r.neutrons(), 0);
    assert!(!r.vent());
    assert!(r.fuel_valve());
}

#[test]
fn click_on_locked_fuel_valve_pad_changes_nothing() {
    let mut r = Reactor::new();
    r.click(vec2(-720_000, -220_000));
    assert!(r.fuel_valve());
}

#[test]
fn drag_with_everything_locked_is_not_consumed() {
    let mut r = Reactor::new();
    let p: Vec2 = vec2(-350_001, 319_999);
    assert!(!r.drag(p, p, vec2(1_000, 0)));
}
