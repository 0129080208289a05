//! Toroidal math, projection and trigonometry.

use guardian::playfield::{
    mul_fx, project, shortest_delta, unit_screen_x, wrap, UnitPosition, Vec2Fx, Viewpoint,
};
use guardian::trig::{fixed_cos, fixed_sin, PI_2_FX, PI_4_FX, PI_FX, SIN_45_FX, TAU_FX};
use guardian::{PLAYFIELD_WIDTH, SCALE};

#[test]
fn wrap_normalizes_into_range() {
    assert_eq!(wrap(0, PLAYFIELD_WIDTH), 0);
    assert_eq!(wrap(PLAYFIELD_WIDTH, PLAYFIELD_WIDTH), 0);
    assert_eq!(wrap(PLAYFIELD_WIDTH + 1, PLAYFIELD_WIDTH), 1);
    assert_eq!(wrap(-1, PLAYFIELD_WIDTH), PLAYFIELD_WIDTH - 1);
    assert_eq!(wrap(-8_000_001, PLAYFIELD_WIDTH), PLAYFIELD_WIDTH - 1);
    assert_eq!(wrap(17_000_000, PLAYFIELD_WIDTH), 1_000_000);
}

#[test]
fn wrap_is_idempotent() {
    for &x in &[-13_000_000i64, -1, 0, 1, 4_000_000, 8_000_000, 23_456_789] {
        let once = wrap(x, PLAYFIELD_WIDTH);
        assert_eq!(wrap(once, PLAYFIELD_WIDTH), once);
        assert!(0 <= once && once < PLAYFIELD_WIDTH);
    }
}

#[test]
fn shortest_delta_picks_the_short_way() {
    // Crossing the wrap from near the right edge to near the left edge is a
    // short positive hop, not a long negative sweep.
    let d = shortest_delta(7_500_000, 500_000, PLAYFIELD_WIDTH);
    assert_eq!(d, 1_000_000);
    // The antipode maps to the representative in (-W/2, W/2].
    let d = shortest_delta(0, 5_000_000, PLAYFIELD_WIDTH);
    assert_eq!(d, -3_000_000);
}

#[test]
fn shortest_delta_round_trips() {
    for &(a, b) in &[
        (0i64, 0i64),
        (100, 7_900_000),
        (7_900_000, 100),
        (-3_000_000, 12_000_000),
        (4_000_000, 0),
    ] {
        let d = shortest_delta(a, b, PLAYFIELD_WIDTH);
        assert!(-PLAYFIELD_WIDTH / 2 < d && d <= PLAYFIELD_WIDTH / 2);
        assert_eq!(wrap(a + d, PLAYFIELD_WIDTH), wrap(b, PLAYFIELD_WIDTH));
    }
}

#[test]
fn project_wraps_the_viewpoint_before_use() {
    let a = project(4_000_000, 0, SCALE, PLAYFIELD_WIDTH);
    let b = project(4_000_000, 8_000_000, SCALE, PLAYFIELD_WIDTH);
    assert_eq!(a, b);
    assert_eq!(a, -4_000_000);
}

#[test]
fn project_scales_background_layers() {
    // At half layer speed the wrap-around span is half as wide.
    assert_eq!(project(1_000_000, 0, 500_000, PLAYFIELD_WIDTH), 1_000_000);
}

#[test]
fn unit_screen_x_centers_on_the_viewpoint() {
    let vp = Viewpoint { position: 0 };
    let pos = UnitPosition(Vec2Fx { x: 4_000_000, y: 0 });
    assert_eq!(unit_screen_x(&pos, &vp), -4_000_000);
    let vp = Viewpoint { position: 4_000_000 };
    assert_eq!(unit_screen_x(&pos, &vp), 0);
}

#[test]
fn viewpoint_advance_follows_the_ship() {
    let mut vp = Viewpoint::default();
    assert_eq!(vp.position, 0);
    vp.advance(1_000_000, 300_000);
    assert_eq!(vp.position, 700_000);
    vp.advance(0, 300_000);
    assert_eq!(vp.position, 7_700_000);
}

#[test]
fn mul_fx_rounds_toward_negative_infinity() {
    assert_eq!(mul_fx(3, 500_000), 1);
    assert_eq!(mul_fx(-3, 500_000), -2);
    assert_eq!(mul_fx(1_000_000, 1_000_000), 1_000_000);
}

#[test]
fn trig_is_exact_at_the_compass_points() {
    assert_eq!(fixed_sin(0), 0);
    assert_eq!(fixed_sin(PI_4_FX), SIN_45_FX);
    assert_eq!(fixed_sin(PI_2_FX), SCALE);
    assert_eq!(fixed_sin(PI_FX), 0);
    assert_eq!(fixed_sin(PI_FX + PI_2_FX), -SCALE);
    assert_eq!(fixed_cos(0), SCALE);
    assert_eq!(fixed_cos(PI_2_FX), 0);
    assert_eq!(fixed_cos(PI_FX), -SCALE);
}

#[test]
fn trig_stays_in_the_unit_range() {
    let mut a = 0i64;
    while a < TAU_FX {
        assert!(fixed_sin(a).abs() <= SCALE);
        assert!(fixed_cos(a).abs() <= SCALE);
        a += 98_765;
    }
}
