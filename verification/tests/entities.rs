//! The saucer state machine and the timed effects.

use guardian::explosion::{
    new_fragment, random_unit_vector, shrapnel_fade, shrapnel_material, spawn_flare_timer,
    spawn_shrapnel, update_flare, update_shrapnel, EffectTimer, FlareEffect, ShrapnelEffect,
    Vec3Fx, FLARE_TOTAL, NUM_FRAGMENTS, SHRAPNEL_TOTAL,
};
use guardian::explosion::flare_color;
use guardian::playfield::{UnitPosition, Vec2Fx};
use guardian::rng::seeded_rng;
use guardian::saucer::{
    animate_saucer, animate_saucers, choose_random_angle, patrol_velocity, spawn_saucer,
    spawn_saucers, step_saucer, Saucer, SaucerState, DWELL_MAX, DWELL_MIN, NUM_SAUCERS,
    SAUCER_SPEED_Y,
};
use guardian::trig::PI_2_FX;
use guardian::SCALE;

const DT: i64 = 16_667;

#[test]
fn patrol_velocities_cover_the_compass() {
    assert_eq!(patrol_velocity(0), Vec2Fx { x: 400_000, y: 0 });
    assert_eq!(patrol_velocity(1), Vec2Fx { x: 282_842, y: 141_421 });
    assert_eq!(patrol_velocity(2), Vec2Fx { x: 0, y: 200_000 });
    assert_eq!(patrol_velocity(3), Vec2Fx { x: -282_843, y: 141_421 });
    assert_eq!(patrol_velocity(4), Vec2Fx { x: -400_000, y: 0 });
    assert_eq!(patrol_velocity(5), Vec2Fx { x: -282_843, y: -141_422 });
    assert_eq!(patrol_velocity(6), Vec2Fx { x: 0, y: -200_000 });
    assert_eq!(patrol_velocity(7), Vec2Fx { x: 282_842, y: -141_422 });
}

#[test]
fn random_angle_is_one_of_the_compass_velocities() {
    let mut rng = seeded_rng(11);
    for _ in 0..32 {
        let v = choose_random_angle(&mut rng);
        let table: Vec<Vec2Fx> = (0u8..8).map(patrol_velocity).collect();
        assert!(table.contains(&v));
    }
}

#[test]
fn fragment_construction_is_exact_at_the_compass_points() {
    // Thrown flat to the right, spinning about the x axis.
    let f = new_fragment(0, 400_000, 0, PI_2_FX);
    assert_eq!(f.velocity, Vec2Fx { x: 400_000, y: 0 });
    assert_eq!(f.spin_axis, Vec3Fx { x: SCALE, y: 0, z: 0 });
    assert_eq!(f.rotation, 0);
}

#[test]
fn random_spin_axes_stay_in_the_unit_cube() {
    let mut rng = seeded_rng(3);
    for _ in 0..64 {
        let a = random_unit_vector(&mut rng);
        assert!(a.x.abs() <= SCALE && a.y.abs() <= SCALE && a.z.abs() <= SCALE);
    }
}

#[test]
fn arriving_turns_into_patrolling() {
    let mut s = Saucer { state: SaucerState::Arriving, timer: 1_200_000 };
    let mut p = UnitPosition(Vec2Fx { x: 0, y: 650_000 });
    step_saucer(&mut s, &mut p, DT, 3, 1_500_000);
    assert_eq!(s.state, SaucerState::Patrolling(patrol_velocity(3)));
    assert_eq!(s.timer, 1_500_000);
    // Arrival itself does not move the saucer.
    assert_eq!(p, UnitPosition(Vec2Fx { x: 0, y: 650_000 }));
}

#[test]
fn saucer_above_the_band_bounces_down() {
    // Patrolling at y just above the band: the next tick must flip to a
    // downward vertical component while keeping the horizontal one.
    let vel = patrol_velocity(1);
    let mut s = Saucer { state: SaucerState::Patrolling(vel), timer: 1_000_000 };
    let mut p = UnitPosition(Vec2Fx { x: 1_000_000, y: 410_000 });
    step_saucer(&mut s, &mut p, 1_000, 0, DWELL_MIN);
    match s.state {
        SaucerState::Patrolling(v) => {
            assert_eq!(v.x, vel.x);
            assert_eq!(v.y, -SAUCER_SPEED_Y);
        }
        _ => panic!("saucer left the patrolling state"),
    }
}

#[test]
fn saucer_below_the_band_bounces_up() {
    let vel = patrol_velocity(6);
    let mut s = Saucer { state: SaucerState::Patrolling(vel), timer: 1_000_000 };
    let mut p = UnitPosition(Vec2Fx { x: 0, y: -405_000 });
    step_saucer(&mut s, &mut p, 1_000, 0, DWELL_MIN);
    match s.state {
        SaucerState::Patrolling(v) => {
            assert_eq!(v.x, vel.x);
            assert_eq!(v.y, SAUCER_SPEED_Y);
        }
        _ => panic!("saucer left the patrolling state"),
    }
}

#[test]
fn dwell_expiry_repicks_velocity_and_dwell() {
    let vel = patrol_velocity(0);
    let mut s = Saucer { state: SaucerState::Patrolling(vel), timer: 10_000 };
    let mut p = UnitPosition(Vec2Fx { x: 2_000_000, y: 0 });
    step_saucer(&mut s, &mut p, DT, 5, 1_700_000);
    assert_eq!(s.state, SaucerState::Patrolling(patrol_velocity(5)));
    assert_eq!(s.timer, 1_700_000);
    // The move itself still happened before the re-pick.
    assert_eq!(p.0.x, 2_000_000 + 6_666);
}

#[test]
fn patrolling_moves_by_the_velocity() {
    let vel = patrol_velocity(0);
    let mut s = Saucer { state: SaucerState::Patrolling(vel), timer: 1_500_000 };
    let mut p = UnitPosition(Vec2Fx { x: 7_998_000, y: 0 });
    step_saucer(&mut s, &mut p, DT, 0, DWELL_MIN);
    // Horizontal motion is renormalized onto the playfield.
    assert_eq!(p.0.x, (7_998_000 + 6_666) % 8_000_000);
    assert_eq!(s.timer, 1_500_000 - DT);
    assert_eq!(s.state, SaucerState::Patrolling(vel));
}

#[test]
fn spawned_saucers_arrive_in_the_spawn_band() {
    let mut rng = seeded_rng(19_878_367_467_712);
    let batch = spawn_saucers(&mut rng);
    assert_eq!(batch.len(), NUM_SAUCERS);
    for (s, p) in &batch {
        assert!(matches!(s.state, SaucerState::Arriving));
        assert!(DWELL_MIN <= s.timer && s.timer < DWELL_MAX);
        assert!(0 <= p.0.x && p.0.x < 8_000_000);
        assert!(600_000 <= p.0.y && p.0.y < 700_000);
    }
}

#[test]
fn a_whole_wave_of_saucers_ticks() {
    let mut rng = seeded_rng(7);
    let mut batch = spawn_saucers(&mut rng);
    for _ in 0..240 {
        animate_saucers(&mut batch, DT, &mut rng);
    }
    for (s, p) in &batch {
        match s.state {
            SaucerState::Patrolling(_) => {}
            _ => panic!("every saucer should be patrolling after arrival"),
        }
        assert!(p.0.y.abs() <= 900_000);
        assert!(0 <= p.0.x && p.0.x < 8_000_000);
    }
}

#[test]
fn lone_saucer_animates_from_arrival() {
    let mut rng = seeded_rng(99);
    let (mut s, mut p) = spawn_saucer(&mut rng);
    animate_saucer(&mut s, &mut p, DT, &mut rng);
    assert!(matches!(s.state, SaucerState::Patrolling(_)));
}

#[test]
fn shrapnel_spawns_exactly_its_batch() {
    let mut rng = seeded_rng(42);
    let (fragments, timer) = spawn_shrapnel(&mut rng);
    assert_eq!(fragments.len(), NUM_FRAGMENTS);
    assert_eq!(fragments.len(), 64);
    assert_eq!(timer, EffectTimer { total: SHRAPNEL_TOTAL, elapsed: 0 });
    for f in &fragments {
        assert!(f.velocity.x.abs() <= 600_000);
        assert!(f.velocity.y.abs() <= 600_000);
        assert!(f.spin_axis.x.abs() <= SCALE);
        assert!(f.spin_axis.y.abs() <= SCALE);
        assert!(f.spin_axis.z.abs() <= SCALE);
        assert_eq!(f.rotation, 0);
        assert_eq!(f.offset, Vec2Fx { x: 0, y: 0 });
    }
}

#[test]
fn shrapnel_dies_on_the_tick_its_timer_fills() {
    let mut rng = seeded_rng(1);
    let (mut fragments, mut timer) = spawn_shrapnel(&mut rng);
    let effect = ShrapnelEffect { velocity: Vec2Fx { x: 0, y: 0 } };
    let mut pos = UnitPosition(Vec2Fx { x: 0, y: 0 });
    let dt = 100_000;
    let mut ticks = 0;
    loop {
        let expired = update_shrapnel(&effect, &mut timer, &mut pos, &mut fragments, dt);
        ticks += 1;
        if expired {
            break;
        }
        // While alive the elapsed time has not yet reached the total.
        assert!(timer.elapsed < timer.total);
    }
    // 0.8 s of life at 0.1 s ticks: expiry exactly on the eighth tick, the
    // first where the accumulated time reaches the total.
    assert_eq!(ticks, 8);
    // The batch is still whole on the expiry tick: parent and fragments are
    // destroyed together, none earlier.
    assert_eq!(fragments.len(), 64);
}

#[test]
fn fragments_drift_and_spin() {
    let mut rng = seeded_rng(5);
    let (mut fragments, mut timer) = spawn_shrapnel(&mut rng);
    let effect = ShrapnelEffect { velocity: Vec2Fx { x: 0, y: 0 } };
    let mut pos = UnitPosition(Vec2Fx { x: 0, y: 0 });
    let expired = update_shrapnel(&effect, &mut timer, &mut pos, &mut fragments, DT);
    assert!(!expired);
    for f in &fragments {
        // Spin rate 8.1 radians per second, one tick's worth.
        assert_eq!(f.rotation, 8_100_000 * DT / 1_000_000);
    }
}

#[test]
fn timer_proportion_and_fade() {
    let timer = EffectTimer { total: 800_000, elapsed: 200_000 };
    assert_eq!(timer.t(), 250_000);
    assert_eq!(shrapnel_fade(&timer), 750_000);
}

#[test]
fn shrapnel_material_cools_with_the_fade() {
    assert_eq!(shrapnel_material(SCALE), (SCALE, SCALE, SCALE));
    assert_eq!(shrapnel_material(500_000), (125_000, 62_500, SCALE));
    assert_eq!(shrapnel_material(0), (0, 0, 0));
}

#[test]
fn flare_grows_then_dies() {
    let mut effect = FlareEffect { size: 10_000, velocity: Vec2Fx { x: 0, y: 0 } };
    let mut timer = spawn_flare_timer();
    assert_eq!(timer.total, FLARE_TOTAL);
    let mut pos = UnitPosition(Vec2Fx { x: 0, y: 0 });
    let expired = update_flare(&mut effect, &mut timer, &mut pos, DT);
    assert!(!expired);
    assert_eq!(effect.size, 10_000 + 2 * DT);
    // 0.2 s total at sixtieth-of-a-second ticks: dead on the twelfth tick.
    let mut ticks = 1;
    while !update_flare(&mut effect, &mut timer, &mut pos, DT) {
        ticks += 1;
    }
    ticks += 1;
    assert_eq!(ticks, 12);
}

#[test]
fn flare_color_warms_and_clears() {
    assert_eq!(flare_color(0), (SCALE, SCALE, SCALE, SCALE));
    assert_eq!(flare_color(SCALE), (SCALE, 500_000, 0, 0));
}
