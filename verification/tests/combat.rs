//! Laser shots, the collision protocol, and the hit response.

use guardian::explosion::{FlareEffect, ShrapnelEffect};
use guardian::laser::{
    detect_enemy_kills, rotate_shot_hue, spawn_laser, shot_ticks_to_expiry, update_laser_shot,
    KillCommand, MUZZLE_OFFSET, SHOT_LIFETIME, SHOT_SPEED,
};
use guardian::playfield::{UnitPosition, Vec2Fx};
use guardian::saucer::{saucer_hit, HitOutcome, FLARE_INIT_SIZE};
use guardian::ship::Facing;

const DT: i64 = 16_667;

#[test]
fn spawn_offsets_by_the_muzzle_distance() {
    let at = UnitPosition(Vec2Fx { x: 1_000_000, y: 250_000 });
    let (shot, pos) = spawn_laser(&at, Facing::Right);
    assert_eq!(shot.expiration, SHOT_LIFETIME);
    assert_eq!(shot.size, 0);
    assert_eq!(shot.speed, SHOT_SPEED);
    assert_eq!(pos.0.x, 1_000_000 + MUZZLE_OFFSET);
    assert_eq!(pos.0.y, 250_000);

    let (shot, pos) = spawn_laser(&at, Facing::Left);
    assert_eq!(shot.speed, -SHOT_SPEED);
    assert_eq!(pos.0.x, 1_000_000 - MUZZLE_OFFSET);
}

#[test]
fn shot_advances_and_wraps_defensively() {
    let at = UnitPosition(Vec2Fx { x: 7_810_000, y: 0 });
    let (mut shot, mut pos) = spawn_laser(&at, Facing::Right);
    assert_eq!(pos.0.x, 7_990_000);
    let expired = update_laser_shot(&mut shot, &mut pos, DT);
    assert!(!expired);
    assert_eq!(pos.0.x, 40_001);
    assert_eq!(shot.size, DT);
    assert_eq!(shot.expiration, SHOT_LIFETIME - DT);
}

#[test]
fn shot_expires_only_when_its_time_is_used_up() {
    // A shot of lifetime 0.3 s at sixtieth-of-a-second ticks survives 17
    // full ticks and dies on the 18th, the first tick where the accumulated
    // time reaches the lifetime.
    let at = UnitPosition(Vec2Fx { x: 0, y: 0 });
    let (mut shot, mut pos) = spawn_laser(&at, Facing::Right);
    let n = shot_ticks_to_expiry(&mut shot, &mut pos, DT);
    assert_eq!(n, 18);
    assert!(n as i64 * DT >= SHOT_LIFETIME);
    assert!((n as i64 - 1) * DT < SHOT_LIFETIME);
}

#[test]
fn shot_expiry_never_comes_early() {
    let at = UnitPosition(Vec2Fx { x: 0, y: 0 });
    for &dt in &[1_000i64, 7_919, 100_000, 300_000, 1_000_000] {
        let (mut shot, mut pos) = spawn_laser(&at, Facing::Left);
        let n = shot_ticks_to_expiry(&mut shot, &mut pos, dt);
        assert!(n as i64 * dt >= SHOT_LIFETIME);
        assert!((n as i64 - 1) * dt < SHOT_LIFETIME);
    }
}

#[test]
fn one_shot_two_overlaps_one_despawn_two_hits() {
    // A projectile overlapping two enemies at once: exactly one despawn of
    // the shot and one hit notification per enemy.
    let report = vec![(7u64, vec![3u64, 5u64])];
    let commands = detect_enemy_kills(&report);
    assert_eq!(
        commands,
        vec![
            KillCommand::DespawnShot(7),
            KillCommand::HitEnemy(3),
            KillCommand::HitEnemy(5),
        ]
    );
    let despawns = commands
        .iter()
        .filter(|c| matches!(c, KillCommand::DespawnShot(_)))
        .count();
    let hits = commands
        .iter()
        .filter(|c| matches!(c, KillCommand::HitEnemy(_)))
        .count();
    assert_eq!(despawns, 1);
    assert_eq!(hits, 2);
}

#[test]
fn shot_with_no_overlaps_produces_nothing() {
    let report = vec![(7u64, vec![]), (9u64, vec![2u64])];
    let commands = detect_enemy_kills(&report);
    assert_eq!(
        commands,
        vec![KillCommand::DespawnShot(9), KillCommand::HitEnemy(2)]
    );
}

#[test]
fn hue_rotates_and_wraps() {
    assert_eq!(rotate_shot_hue(0, DT), DT * 360);
    assert_eq!(rotate_shot_hue(359_999_000, DT), 5_999_120);
}

#[test]
fn hit_spawns_both_effects_at_the_victim() {
    let at = UnitPosition(Vec2Fx { x: 3_000_000, y: 100_000 });
    let outcome = saucer_hit(Some(&at));
    assert_eq!(
        outcome,
        Some(HitOutcome {
            flare: FlareEffect { size: FLARE_INIT_SIZE, velocity: Vec2Fx { x: 0, y: 0 } },
            shrapnel: ShrapnelEffect { velocity: Vec2Fx { x: 0, y: 0 } },
            position: at,
        })
    );
}

#[test]
fn hit_on_a_despawned_entity_is_skipped() {
    assert_eq!(saucer_hit(None), None);
}
