//! The background star field: each star sits at a fixed offset on its own
//! parallax layer, with a layer speed and size derived from its sampled
//! depth; its screen position each tick is the standard parallax projection.

use vstd::prelude::*;
use rand_chacha::ChaCha8Rng;
use crate::playfield::{mul_fx, project, spec_project, UnitPosition, Vec2Fx, Viewpoint};
use crate::rng::draw_in_range;
use crate::{PLAYFIELD_WIDTH, SCALE};

verus! {

/// How many stars the backdrop holds.
pub const NUM_STARS: usize = 200;

/// Nearest sampled star depth.
pub const STAR_DIST_MIN: i64 = 400_000;

/// Farthest sampled star depth (exclusive).
pub const STAR_DIST_MAX: i64 = 900_000;

/// Lowest star altitude.
pub const STAR_Y_MIN: i64 = -350_000;

/// Highest star altitude (exclusive).
pub const STAR_Y_MAX: i64 = 490_000;

/// A background star.
#[derive(Clone, Copy, PartialEq, Eq, Structural, Debug)]
pub struct Star {
    /// Offset of the star relative to the playfield origin. To implement
    /// wrapping, the star is displayed at a modulus of its position.
    pub offset: Vec2Fx,
    /// Speed at which the star's parallax moves.
    pub speed: i64,
}

impl Star {
    /// The offset is on the playfield and the layer speed is a positive
    /// fraction of the viewpoint's motion.
    pub open spec fn wf(self) -> bool {
        &&& 0 <= self.offset.x < PLAYFIELD_WIDTH
        &&& STAR_Y_MIN <= self.offset.y < STAR_Y_MAX
        &&& 0 < self.speed <= SCALE
    }
}

/// The layer speed of a star at depth `dist`: farther stars react less to
/// the viewpoint.
pub open spec fn spec_star_speed(dist: int) -> int {
    SCALE - dist * 700_000 / (SCALE as int)
}

/// The size of a star at depth `dist`: farther stars are drawn smaller.
pub open spec fn spec_star_size(dist: int) -> int {
    6_000 * (SCALE - dist * 500_000 / (SCALE as int)) / (SCALE as int)
}

/// Builds the star of a sampled depth and offset, with its display size.
pub fn new_star(dist: i64, x: i64, y: i64) -> (r: (Star, i64))
    requires
        STAR_DIST_MIN <= dist < STAR_DIST_MAX,
        0 <= x < PLAYFIELD_WIDTH,
        STAR_Y_MIN <= y < STAR_Y_MAX,
    ensures
        r.0.offset == (Vec2Fx { x, y }),
        r.0.speed == spec_star_speed(dist as int),
        r.1 == spec_star_size(dist as int),
        r.0.wf(),
{
    let fall_off = mul_fx(dist, 700_000);
    proof {
        assert(280_000 <= dist as int * 700_000 / (SCALE as int) <= 630_000) by (nonlinear_arith)
            requires
                400_000 <= (dist as int) < 900_000,
                SCALE as int == 1_000_000,
        ;
        assert(200_000 <= dist as int * 500_000 / (SCALE as int) <= 450_000) by (nonlinear_arith)
            requires
                400_000 <= (dist as int) < 900_000,
                SCALE as int == 1_000_000,
        ;
    }
    let speed = SCALE - fall_off;
    let size = mul_fx(6_000, SCALE - mul_fx(dist, 500_000));
    (Star { offset: Vec2Fx { x, y }, speed }, size)
}

/// Samples the backdrop's stars: each gets an independent depth (driving its
/// layer speed and size) and an offset anywhere on the playfield.
pub fn spawn_stars(rng: &mut ChaCha8Rng) -> (r: Vec<(Star, i64)>)
    ensures
        r.len() == NUM_STARS,
        forall|i: int|
            0 <= i < r.len() ==> (#[trigger] r[i]).0.wf() && exists|dist: int|
                STAR_DIST_MIN <= dist < STAR_DIST_MAX && r[i].0.speed == spec_star_speed(dist)
                    && r[i].1 == spec_star_size(dist),
{
    let mut stars: Vec<(Star, i64)> = Vec::new();
    let mut i: usize = 0;
    while i < NUM_STARS
        invariant
            0 <= i <= NUM_STARS,
            stars.len() == i,
            forall|k: int|
                0 <= k < i ==> (#[trigger] stars[k]).0.wf() && exists|dist: int|
                    STAR_DIST_MIN <= dist < STAR_DIST_MAX && stars[k].0.speed == spec_star_speed(
                        dist,
                    ) && stars[k].1 == spec_star_size(dist),
        decreases NUM_STARS - i,
    {
        let dist = draw_in_range(rng, STAR_DIST_MIN, STAR_DIST_MAX);
        let x = draw_in_range(rng, 0, PLAYFIELD_WIDTH);
        let y = draw_in_range(rng, STAR_Y_MIN, STAR_Y_MAX);
        let star = new_star(dist, x, y);
        stars.push(star);
        proof {
            assert((stars[i as int]).0.wf() && exists|d: int|
                STAR_DIST_MIN <= d < STAR_DIST_MAX && stars[i as int].0.speed == spec_star_speed(d)
                    && stars[i as int].1 == spec_star_size(d)) by {
                assert(STAR_DIST_MIN <= (dist as int) < (STAR_DIST_MAX as int) && stars[i as int].0.speed
                    == spec_star_speed(dist as int) && stars[i as int].1 == spec_star_size(
                    dist as int,
                ));
            }
        }
        i = i + 1;
    }
    stars
}

/// The screen x of a star this tick: the parallax projection of its offset
/// on its own layer.
pub fn star_screen_x(star: &Star, viewpoint: &Viewpoint) -> (r: i64)
    requires
        star.wf(),
        viewpoint.wf(),
    ensures
        r == spec_project(
            star.offset.x as int,
            viewpoint.position as int,
            star.speed as int,
            PLAYFIELD_WIDTH as int,
        ),
{
    proof {
        assert(PLAYFIELD_WIDTH as int * star.speed as int >= SCALE as int) by (nonlinear_arith)
            requires
                star.speed as int >= 1,
                PLAYFIELD_WIDTH as int == 8_000_000,
                SCALE as int == 1_000_000,
        ;
    }
    project(star.offset.x, viewpoint.position, star.speed, PLAYFIELD_WIDTH)
}

/// The screen position of a star: the projected x at the star's own
/// altitude.
pub fn update_star(star: &Star, viewpoint: &Viewpoint) -> (r: UnitPosition)
    requires
        star.wf(),
        viewpoint.wf(),
    ensures
        r.0.x == spec_project(
            star.offset.x as int,
            viewpoint.position as int,
            star.speed as int,
            PLAYFIELD_WIDTH as int,
        ),
        r.0.y == star.offset.y,
{
    UnitPosition(Vec2Fx { x: star_screen_x(star, viewpoint), y: star.offset.y })
}

} // verus!
