//! The random source, the star field, the mountain layers and the treasure
//! row.

use guardian::game_state::{GameState, PauseState};
use guardian::mountains::{
    create_mountain_heights, mountain_screen_x, Moutains, NUM_SAMPLES,
};
use guardian::playfield::Viewpoint;
use guardian::rng::{draw_in_range, seeded_rng};
use guardian::stars::{new_star, spawn_stars, star_screen_x, update_star, NUM_STARS};
use guardian::treasure::{spawn_treasure, TreasureState, NUM_TREASURES, TREASURE_Y};
use guardian::playfield::Vec2Fx;
use guardian::PLAYFIELD_WIDTH;

#[test]
fn the_stream_is_deterministic_for_a_seed() {
    let mut a = seeded_rng(123);
    let mut b = seeded_rng(123);
    for _ in 0..32 {
        assert_eq!(draw_in_range(&mut a, -50, 50), draw_in_range(&mut b, -50, 50));
    }
    // A different seed diverges somewhere in a handful of draws.
    let mut c = seeded_rng(124);
    let mut d = seeded_rng(123);
    let mut diverged = false;
    for _ in 0..16 {
        if draw_in_range(&mut c, 0, 1_000_000) != draw_in_range(&mut d, 0, 1_000_000) {
            diverged = true;
        }
    }
    assert!(diverged);
}

#[test]
fn draws_stay_in_their_range() {
    let mut rng = seeded_rng(7);
    for _ in 0..256 {
        let v = draw_in_range(&mut rng, -3, 3);
        assert!(-3 <= v && v < 3);
    }
}

#[test]
fn star_speed_and_size_shrink_with_depth() {
    let (near, near_size) = new_star(400_000, 0, 0);
    let (far, far_size) = new_star(899_999, 0, 0);
    assert_eq!(near.speed, 720_000);
    assert!(far.speed < near.speed);
    assert!(far_size < near_size);
    assert!(far.speed > 0);
}

#[test]
fn the_backdrop_holds_its_star_count() {
    let mut rng = seeded_rng(19_878_367_467_712);
    let stars = spawn_stars(&mut rng);
    assert_eq!(stars.len(), NUM_STARS);
    for (star, size) in &stars {
        assert!(0 <= star.offset.x && star.offset.x < PLAYFIELD_WIDTH);
        assert!(-350_000 <= star.offset.y && star.offset.y < 490_000);
        assert!(0 < star.speed && star.speed <= 1_000_000);
        assert!(*size > 0);
    }
}

#[test]
fn stars_scroll_on_their_own_layer() {
    let star = new_star(400_000, 1_000_000, 100_000).0;
    // dist 0.4 gives layer speed 0.72; with the viewpoint at the origin the
    // star sits at its own offset, centered on the layer's span.
    let vp = Viewpoint { position: 0 };
    let on_layer = star_screen_x(&star, &vp);
    assert_eq!(on_layer, 1_000_000);
    let screen = update_star(&star, &vp);
    assert_eq!(screen.0.x, 1_000_000);
    assert_eq!(screen.0.y, 100_000);
    // A star of layer speed exactly one half.
    let half = guardian::stars::Star { offset: Vec2Fx { x: 1_000_000, y: 0 }, speed: 500_000 };
    assert_eq!(star_screen_x(&half, &vp), 1_000_000);
    let vp = Viewpoint { position: 1_000_000 };
    assert_eq!(star_screen_x(&half, &vp), 500_000);
}

#[test]
fn mountain_layers_scroll_by_their_speed() {
    let vp = Viewpoint { position: 1_000_000 };
    let layer = Moutains { speed: 500_000 };
    assert_eq!(mountain_screen_x(&layer, &vp), -2_500_000);
    let front = Moutains { speed: 1_000_000 };
    let vp0 = Viewpoint { position: 0 };
    // At rest the strip starts one and a half spans to the left.
    assert_eq!(mountain_screen_x(&front, &vp0), -12_000_000);
}

#[test]
fn mountain_ridge_is_bounded_and_full_length() {
    let mut rng = seeded_rng(19_878_367_467_712);
    let heights = create_mountain_heights(&mut rng);
    assert_eq!(heights.len(), NUM_SAMPLES);
    for &h in &heights {
        assert!(155_000 <= h && h <= 344_996);
    }
    // A second layer from the same stream differs somewhere.
    let other = create_mountain_heights(&mut rng);
    assert_ne!(heights, other);
}

#[test]
fn treasures_stand_in_jittered_slots() {
    let mut rng = seeded_rng(19_878_367_467_712);
    let row = spawn_treasure(&mut rng);
    assert_eq!(row.len(), NUM_TREASURES);
    for (i, (t, p, kind)) in row.iter().enumerate() {
        assert!(matches!(t.state, TreasureState::Standing));
        assert!(*kind < 3);
        assert_eq!(p.0.y, TREASURE_Y);
        let slot = i as i64 * 500_000;
        // Each treasure is within the displacement of its slot, up to the
        // wrap of the first slot's left side.
        let direct = (p.0.x - slot).abs() < 150_000;
        let wrapped = (p.0.x - PLAYFIELD_WIDTH - slot).abs() < 150_000;
        assert!(direct || wrapped);
    }
}

#[test]
fn game_states_default_sensibly() {
    assert_eq!(GameState::default(), GameState::Playing);
    assert_eq!(PauseState::default(), PauseState::Running);
    assert_ne!(GameState::Intro, GameState::LevelComplete);
}
