//! Tests of the leaf components: geometry, input normalization, the cooldown
//! timer and the mood engine.

use baobei_needs::cooldown::Cooldown;
use baobei_needs::geometry::{clamp_coord, isqrt, Position, Vec2};
use baobei_needs::happiness::{DecayTimer, Happiness};
use baobei_needs::input::{gamepad_direction, keyboard_direction, KeyDirections};
use baobei_needs::movement::integrate;

fn keys(up: bool, down: bool, left: bool, right: bool) -> KeyDirections {
    KeyDirections { up, down, left, right }
}

#[test]
fn keyboard_single_key_is_axis_unit() {
    assert_eq!(keyboard_direction(keys(true, false, false, false)), Some(Vec2 { x: 0, y: 1000 }));
    assert_eq!(keyboard_direction(keys(false, true, false, false)), Some(Vec2 { x: 0, y: -1000 }));
    assert_eq!(keyboard_direction(keys(false, false, true, false)), Some(Vec2 { x: -1000, y: 0 }));
    assert_eq!(keyboard_direction(keys(false, false, false, true)), Some(Vec2 { x: 1000, y: 0 }));
}

#[test]
fn keyboard_diagonals_shrink_components() {
    assert_eq!(keyboard_direction(keys(true, false, false, true)), Some(Vec2 { x: 707, y: 707 }));
    assert_eq!(keyboard_direction(keys(false, true, true, false)), Some(Vec2 { x: -707, y: -707 }));
    assert_eq!(keyboard_direction(keys(true, false, true, false)), Some(Vec2 { x: -707, y: 707 }));
    assert_eq!(keyboard_direction(keys(false, true, false, true)), Some(Vec2 { x: 707, y: -707 }));
}

#[test]
fn keyboard_zero_net_direction_emits_nothing() {
    assert_eq!(keyboard_direction(keys(false, false, false, false)), None);
    assert_eq!(keyboard_direction(keys(true, true, false, false)), None);
    assert_eq!(keyboard_direction(keys(false, false, true, true)), None);
    assert_eq!(keyboard_direction(keys(true, true, true, true)), None);
}

#[test]
fn keyboard_opposing_keys_cancel_per_axis() {
    // Left and right cancel; up remains as a pure axis direction.
    assert_eq!(keyboard_direction(keys(true, false, true, true)), Some(Vec2 { x: 0, y: 1000 }));
}

#[test]
fn keyboard_never_emits_non_unit_vector() {
    let units = [
        (0i64, 1000i64),
        (0, -1000),
        (1000, 0),
        (-1000, 0),
        (707, 707),
        (707, -707),
        (-707, 707),
        (-707, -707),
    ];
    for mask in 0u32..16 {
        let k = keys(mask & 1 != 0, mask & 2 != 0, mask & 4 != 0, mask & 8 != 0);
        if let Some(v) = keyboard_direction(k) {
            assert!(units.contains(&(v.x, v.y)), "not a unit direction: {:?}", v);
        }
    }
}

#[test]
fn gamepad_single_axis_deflection_emits_nothing() {
    // The kept quirk: a pure single-axis deflection emits no message.
    assert_eq!(gamepad_direction(500, 0), None);
    assert_eq!(gamepad_direction(0, 500), None);
    assert_eq!(gamepad_direction(1000, 0), None);
    assert_eq!(gamepad_direction(0, 0), None);
}

#[test]
fn gamepad_diagonal_deflection_normalizes() {
    assert_eq!(gamepad_direction(500, 500), Some(Vec2 { x: 707, y: 707 }));
    assert_eq!(gamepad_direction(1000, 1000), Some(Vec2 { x: 707, y: 707 }));
    // A 3-4-5 triangle normalizes exactly.
    assert_eq!(gamepad_direction(-300, 400), Some(Vec2 { x: -600, y: 800 }));
    assert_eq!(gamepad_direction(300, -400), Some(Vec2 { x: 600, y: -800 }));
}

#[test]
fn isqrt_exact_values() {
    assert_eq!(isqrt(0), 0);
    assert_eq!(isqrt(1), 1);
    assert_eq!(isqrt(3), 1);
    assert_eq!(isqrt(4), 2);
    assert_eq!(isqrt(15), 3);
    assert_eq!(isqrt(16), 4);
    assert_eq!(isqrt(1_000_000), 1000);
    assert_eq!(isqrt(2_000_000), 1414);
    assert_eq!(isqrt(u64::MAX), 4_294_967_295);
}

#[test]
fn clamp_coord_bounds() {
    assert_eq!(clamp_coord(-5, 0, 10), 0);
    assert_eq!(clamp_coord(15, 0, 10), 10);
    assert_eq!(clamp_coord(7, 0, 10), 7);
}

#[test]
fn integrate_scales_direction_speed_and_time() {
    let p = Position { x: 0, y: 0, z: 5 };
    let r = integrate(&p, Vec2 { x: 1000, y: 0 }, 300_000, 100);
    assert_eq!((r.x, r.y, r.z), (30_000, 0, 5));
    let d = integrate(&p, Vec2 { x: -707, y: 707 }, 300_000, 100);
    assert_eq!((d.x, d.y, d.z), (-21_210, 21_210, 5));
    let still = integrate(&p, Vec2 { x: 500, y: -500 }, 300_000, 0);
    assert_eq!((still.x, still.y), (0, 0));
}

#[test]
fn cooldown_waits_a_full_window_before_first_fire() {
    let mut cd = Cooldown::from_millis(200);
    assert!(!cd.ready());
    cd.tick(199);
    assert!(!cd.ready());
    cd.tick(1);
    assert!(cd.ready());
}

#[test]
fn cooldown_fire_consumes_the_window() {
    let mut cd = Cooldown::from_millis(200);
    cd.tick(200);
    assert!(cd.try_fire());
    assert!(!cd.ready());
    assert!(!cd.try_fire());
    cd.tick(100);
    assert!(!cd.try_fire());
    cd.tick(100);
    assert!(cd.try_fire());
}

#[test]
fn cooldown_zero_duration_is_always_ready() {
    let mut cd = Cooldown::from_millis(0);
    assert!(cd.ready());
    assert!(cd.try_fire());
    assert!(cd.ready());
}

#[test]
fn mood_starts_happy_and_clamps_both_ways() {
    let mut h = Happiness::happy();
    assert_eq!(h.value_milli(), 1000);
    h.sub(300);
    assert_eq!(h.value_milli(), 700);
    h.sub(800);
    assert_eq!(h.value_milli(), 0);
    h.add(250);
    assert_eq!(h.value_milli(), 250);
    h.add(2000);
    assert_eq!(h.value_milli(), 1000);
}

#[test]
fn mood_stays_in_bounds_under_any_op_sequence() {
    let mut h = Happiness::happy();
    let ops: [(bool, u32); 9] =
        [(true, 400), (false, 100), (true, 4000), (false, 900), (false, 900), (true, 1), (false, u32::MAX), (true, u32::MAX), (true, 3)];
    for (decay, amount) in ops {
        if decay {
            h.sub(amount);
        } else {
            h.add(amount);
        }
        assert!(h.value_milli() <= 1000);
    }
}

#[test]
fn sprite_index_follows_floor_formula() {
    let mut h = Happiness::happy();
    // Full happiness clamps into the last asset index.
    assert_eq!(h.sprite_index(5), 4);
    h.sub(500);
    assert_eq!(h.sprite_index(5), 2);
    h.sub(500);
    assert_eq!(h.sprite_index(5), 0);
    h.add(999);
    assert_eq!(h.sprite_index(5), 4);
    assert_eq!(h.sprite_index(1), 0);
}

#[test]
fn decay_timer_fires_on_the_interval_and_keeps_remainder() {
    let mut t = DecayTimer::new(1000);
    assert!(!t.tick(999));
    assert!(t.tick(1));
    assert!(t.tick(1500));
    // 500 ms already accumulated from the overshoot.
    assert!(!t.tick(499));
    assert!(t.tick(1));
}
