use bevy_hop::space::{boost_component, water_height, Point, Velocity, SPAWN_HEIGHT, UNIT, WATER_DROP};

#[test]
fn spawn_point_is_eight_units_up() {
    let p = Point::spawn();
    assert_eq!(p, Point { x: 0, y: 8 * UNIT, z: 0 });
    assert_eq!(SPAWN_HEIGHT, 8000);
}

#[test]
fn boost_scales_horizontal_and_keeps_vertical() {
    // (10, 5, 0) in world units
    let v = Velocity { x: 10 * UNIT, y: 5 * UNIT, z: 0 };
    let out = v.boost();
    assert_eq!(out, Velocity { x: 12 * UNIT, y: 5 * UNIT, z: 0 });
}

#[test]
fn boost_scales_both_horizontal_axes() {
    let v = Velocity { x: 3000, y: -7000, z: -4000 };
    let out = v.boost();
    assert_eq!(out, Velocity { x: 3600, y: -7000, z: -4800 });
    // horizontal magnitude 5 -> 6 units: squared 25 -> 36
    let before = (v.x as i128).pow(2) + (v.z as i128).pow(2);
    let after = (out.x as i128).pow(2) + (out.z as i128).pow(2);
    assert_eq!(after * 25, before * 36);
}

#[test]
fn boost_is_independent_of_approach_direction() {
    let a = Velocity { x: 5000, y: 0, z: 0 }.boost();
    let b = Velocity { x: -5000, y: 0, z: 0 }.boost();
    let c = Velocity { x: 0, y: 0, z: 5000 }.boost();
    assert_eq!(a.x, 6000);
    assert_eq!(b.x, -6000);
    assert_eq!(c.z, 6000);
}

#[test]
fn boost_rounds_toward_zero() {
    assert_eq!(boost_component(1), 1);
    assert_eq!(boost_component(-1), -1);
    assert_eq!(boost_component(4), 4);
    assert_eq!(boost_component(-4), -4);
    assert_eq!(boost_component(7), 8);
    assert_eq!(boost_component(-7), -8);
    assert_eq!(boost_component(0), 0);
}

#[test]
fn boost_saturates_at_the_ends_of_the_range() {
    assert_eq!(boost_component(i64::MAX), i64::MAX);
    assert_eq!(boost_component(i64::MIN), i64::MIN);
    let edge = i64::MAX / 6 * 5;
    assert_eq!(boost_component(edge), edge / 5 * 6);
}

#[test]
fn two_boosts_apply_the_gain_twice() {
    let v = Velocity { x: 25_000, y: 1, z: 0 };
    assert_eq!(v.boost().boost(), Velocity { x: 36_000, y: 1, z: 0 });
}

#[test]
fn at_or_above_compares_heights_only() {
    let anchor = Point { x: 100, y: 2000, z: -50 };
    assert!(Point { x: 0, y: 2000, z: 0 }.is_at_or_above(&anchor));
    assert!(Point { x: 0, y: 2001, z: 0 }.is_at_or_above(&anchor));
    assert!(!Point { x: 100, y: 1999, z: -50 }.is_at_or_above(&anchor));
}

#[test]
fn water_rides_below_the_anchor() {
    assert_eq!(WATER_DROP, 170 * UNIT);
    assert_eq!(water_height(&Point::spawn()), 8000 - 170_000);
    assert_eq!(water_height(&Point { x: 1, y: 500_000, z: 2 }), 330_000);
    assert_eq!(water_height(&Point { x: 0, y: i64::MIN, z: 0 }), i64::MIN);
    assert_eq!(water_height(&Point { x: 0, y: i64::MIN + 170_000, z: 0 }), i64::MIN);
}
