//! Smoothing and the ship motion model.

use guardian::playfield::{wrap, UnitPosition, Vec2Fx, Viewpoint};
use guardian::ship::{move_ship, Facing, PlayerShip, CAMERA_LEAD, V_MAX};
use guardian::smoothing::transition_to_target;
use guardian::{PLAYFIELD_WIDTH, SCALE};

const DT: i64 = 16_667;

fn fresh_ship() -> (PlayerShip, UnitPosition, Viewpoint) {
    (
        PlayerShip::default(),
        UnitPosition(Vec2Fx { x: 0, y: 0 }),
        Viewpoint::default(),
    )
}

#[test]
fn transition_moves_by_at_most_the_budget() {
    assert_eq!(transition_to_target(0, 10, 3), 3);
    assert_eq!(transition_to_target(10, 0, 3), 7);
    assert_eq!(transition_to_target(0, 10, 100), 10);
    assert_eq!(transition_to_target(10, 0, 100), 0);
    assert_eq!(transition_to_target(5, 5, 0), 5);
    assert_eq!(transition_to_target(-7, -7, 123), -7);
}

#[test]
fn transition_never_overshoots() {
    for &(c, t, d) in &[(0i64, 1_000_000i64, 333i64), (-500, 500, 499), (250, -250, 501)] {
        let r = transition_to_target(c, t, d);
        let lo = c.min(t);
        let hi = c.max(t);
        assert!(lo <= r && r <= hi);
        if (c - t).abs() <= d {
            assert_eq!(r, t);
        }
    }
}

#[test]
fn ship_ramps_up_and_stays_under_the_speed_cap() {
    // Ship at x = 0, facing right, full right input for 2 seconds.
    let (mut ship, mut pos, mut vp) = fresh_ship();
    for _ in 0..120 {
        move_ship(&mut ship, &mut pos, &mut vp, SCALE, 0, DT);
        assert!(-V_MAX <= ship.speed && ship.speed <= V_MAX);
    }
    // The speed saturates at the cap, and the distance covered is positive
    // but less than two seconds at full speed because of the ramp-up.
    assert_eq!(ship.speed, V_MAX);
    assert_eq!(pos.0.x, 2_871_232);
    assert!(0 < pos.0.x && pos.0.x < 3_000_000);
    assert_eq!(ship.facing, Facing::Right);
}

#[test]
fn facing_is_sticky() {
    let (mut ship, mut pos, mut vp) = fresh_ship();
    move_ship(&mut ship, &mut pos, &mut vp, -SCALE, 0, DT);
    assert_eq!(ship.facing, Facing::Left);
    assert!(ship.speed < 0);
    // No horizontal input: the facing keeps its last value.
    move_ship(&mut ship, &mut pos, &mut vp, 0, SCALE, DT);
    assert_eq!(ship.facing, Facing::Left);
    move_ship(&mut ship, &mut pos, &mut vp, SCALE, 0, DT);
    assert_eq!(ship.facing, Facing::Right);
}

#[test]
fn ship_pitch_turns_toward_the_facing() {
    let (mut ship, mut pos, mut vp) = fresh_ship();
    move_ship(&mut ship, &mut pos, &mut vp, -SCALE, 0, DT);
    // One tick toward the half-turn target: fifteen times the tick.
    assert_eq!(ship.pitch, -DT * 15);
    assert!(ship.thrust > 0);
}

#[test]
fn ship_altitude_is_clamped() {
    let (mut ship, mut pos, mut vp) = fresh_ship();
    for _ in 0..200 {
        move_ship(&mut ship, &mut pos, &mut vp, 0, SCALE, DT);
    }
    assert_eq!(pos.0.y, 450_000);
    for _ in 0..400 {
        move_ship(&mut ship, &mut pos, &mut vp, 0, -SCALE, DT);
    }
    assert_eq!(pos.0.y, -400_000);
}

#[test]
fn viewpoint_tracks_position_and_camera_offset() {
    let (mut ship, mut pos, mut vp) = fresh_ship();
    for _ in 0..60 {
        move_ship(&mut ship, &mut pos, &mut vp, SCALE, 0, DT);
    }
    assert_eq!(
        vp.position,
        wrap(pos.0.x - ship.camera_offset, PLAYFIELD_WIDTH)
    );
    // Facing right, the camera leads to the left of the ship.
    assert!(ship.camera_offset < 0 && ship.camera_offset >= -CAMERA_LEAD);
}
