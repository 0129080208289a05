//! Toroidal (wrap-around) playfield math: position normalization, shortest
//! signed deltas on the circle, and the parallax projection from world space
//! to screen space; the world-position and viewpoint state those functions
//! act on.

use vstd::prelude::*;
use vstd::arithmetic::div_mod::{
    lemma_add_mod_noop, lemma_mod_self_0, lemma_mod_sub_multiples_vanish, lemma_mod_twice,
    lemma_small_mod,
};
use crate::{PLAYFIELD_WIDTH, SCALE};

verus! {

/// Bound on the magnitude of world coordinates accepted by the toroidal
/// functions, far beyond anything the playfield produces; it keeps every
/// intermediate product of a coordinate and a fixed-point factor inside
/// `i64`.
pub const COORD_LIMIT: i64 = 0x40_0000_0000;

/// Bound on circle circumferences accepted by the toroidal functions,
/// likewise a machine limit, not a gameplay one.
pub const WIDTH_LIMIT: i64 = 0x7fff_ffff;

/// A 2D vector of fixed-point micro-units: positions, velocities, offsets.
#[derive(Clone, Copy, PartialEq, Eq, Structural, Debug)]
pub struct Vec2Fx {
    pub x: i64,
    pub y: i64,
}

/// Position of a game element relative to the wrap-around world: `x` is kept
/// normalized into `[0, PLAYFIELD_WIDTH)`, `y` is unbounded by the math here
/// (each entity clamps or bounces it by its own rules).
#[derive(Clone, Copy, PartialEq, Eq, Structural, Debug)]
pub struct UnitPosition(pub Vec2Fx);

impl UnitPosition {
    /// The horizontal component is normalized onto the playfield circle.
    pub open spec fn wf(self) -> bool {
        0 <= self.0.x < PLAYFIELD_WIDTH
    }
}

/// The camera's horizontal scroll offset. Because this is a multi-planar
/// parallax game on a wrap-around world, the camera never moves; instead
/// every object is projected relative to this virtual viewpoint.
#[derive(Clone, Copy, PartialEq, Eq, Structural, Debug)]
pub struct Viewpoint {
    /// Range is `[0, PLAYFIELD_WIDTH)`.
    pub position: i64,
}

impl Viewpoint {
    pub open spec fn wf(self) -> bool {
        0 <= self.position < PLAYFIELD_WIDTH
    }

    /// Re-derives the scroll position from the ship: the new viewpoint is
    /// the ship's world x shifted back by its camera offset, renormalized
    /// onto the playfield circle.
    pub fn advance(&mut self, ship_world_x: i64, ship_camera_offset: i64)
        requires
            -COORD_LIMIT <= ship_world_x <= COORD_LIMIT,
            -COORD_LIMIT <= ship_camera_offset <= COORD_LIMIT,
        ensures
            final(self).position == (ship_world_x - ship_camera_offset) % (PLAYFIELD_WIDTH as int),
            final(self).wf(),
    {
        self.position = wrap(ship_world_x - ship_camera_offset, PLAYFIELD_WIDTH);
    }
}

impl Default for Viewpoint {
    /// The scroll starts at the left edge of the world.
    fn default() -> (r: Self)
        ensures
            r.position == 0,
            r.wf(),
    {
        Viewpoint { position: 0 }
    }
}

/// Normalizes `x` onto the circle of circumference `w`: the Euclidean
/// remainder, always in `[0, w)` even for negative `x`.
pub fn wrap(x: i64, w: i64) -> (r: i64)
    requires
        w > 0,
    ensures
        r == x as int % w as int,
        0 <= r < w,
{
    x.checked_rem_euclid(w).unwrap()
}

/// Wrapping twice is the same as wrapping once: the remainder is already
/// in `[0, w)`, so a second reduction leaves it unchanged.
pub proof fn lemma_wrap_idempotent(x: int, w: int)
    requires
        w > 0,
    ensures
        (x % w) % w == x % w,
{
    lemma_mod_twice(x, w);
}

/// Fixed-point product: `a` scaled by the fixed-point factor `b`
/// (`b == SCALE` means "times 1.0"), rounded toward negative infinity.
pub fn mul_fx(a: i64, b: i64) -> (r: i64)
    requires
        -0x400_0000_0000 <= a <= 0x400_0000_0000,
        -0x10_0000 <= b <= 0x10_0000,
    ensures
        r == (a * b) / (SCALE as int),
{
    proof {
        assert(-0x4000_0000_0000_0000 <= a as int * b as int <= 0x4000_0000_0000_0000)
            by (nonlinear_arith)
            requires
                -0x400_0000_0000 <= a as int <= 0x400_0000_0000,
                -0x10_0000 <= b as int <= 0x10_0000,
        ;
    }
    let p = a * b;
    p.checked_div_euclid(SCALE).unwrap()
}

/// Scaling by a fixed-point factor of magnitude at most 1.0 cannot grow a
/// value's magnitude.
pub proof fn lemma_mul_fx_bound(a: int, b: int, limit: int)
    requires
        -limit <= a <= limit,
        -SCALE <= b <= SCALE,
        0 <= limit,
    ensures
        -limit <= a * b / (SCALE as int) <= limit,
{
    assert(-limit <= a * b / (SCALE as int) <= limit) by (nonlinear_arith)
        requires
            -limit <= a <= limit,
            -SCALE <= b <= SCALE as int,
            0 <= limit,
            SCALE as int == 1_000_000,
    ;
}

/// The signed delta from `a` to `b` on the circle of circumference `w`,
/// choosing the representative in `(w/2 - w, w/2]` (for even `w`, that is
/// `(-w/2, w/2]`): steering and projection never take the long way around.
pub fn shortest_delta(a: i64, b: i64, w: i64) -> (d: i64)
    requires
        0 < w <= WIDTH_LIMIT,
    ensures
        w as int / 2 - w < d <= w as int / 2,
        (a + d) % (w as int) == b as int % (w as int),
{
    let wa = wrap(a, w);
    let wb = wrap(b, w);
    let dm = wrap(wb - wa, w);
    let d = if dm > w / 2 { dm - w } else { dm };
    proof {
        let wi = w as int;
        // dm is congruent to b - a, so a + dm is congruent to b.
        lemma_small_mod(wa as nat, wi as nat);
        lemma_small_mod(wb as nat, wi as nat);
        lemma_add_mod_noop(a as int, dm as int, wi);
        lemma_small_mod(dm as nat, wi as nat);
        lemma_add_mod_noop(wa as int, (wb - wa) % wi, wi);
        lemma_mod_twice((wb - wa) as int, wi);
        lemma_add_mod_noop(wa as int, (wb - wa) as int, wi);
        assert((a + dm) % wi == wb as int % wi);
        // Shifting down by one full turn does not change the class.
        if dm > w / 2 {
            lemma_mod_sub_multiples_vanish((a + dm) as int, wi);
        }
    }
    d
}

/// Width of the wrap-around span of a parallax layer: a layer moving at
/// `layer_speed` (a fixed-point fraction of the viewpoint's motion) tiles
/// seamlessly over a span scaled down by the same fraction.
pub open spec fn spec_span(layer_speed: int, width: int) -> int {
    width * layer_speed / (SCALE as int)
}

/// Screen-space x of a world position on a parallax layer: the viewpoint,
/// scaled by the layer's speed, is subtracted, and the result is centered
/// on the layer's own wrap-around span. The single source of truth for
/// parallax; pure and reproducible for a given input tuple.
pub open spec fn spec_project(world_x: int, viewpoint: int, layer_speed: int, width: int) -> int {
    let span = spec_span(layer_speed, width);
    (world_x - viewpoint * layer_speed / (SCALE as int) + span / 2) % span - span / 2
}

/// Computes [`spec_project`]: `wrap(worldX - viewpoint*layerSpeed + span/2,
/// span) - span/2`, with `span = width*layerSpeed` scaled.
pub fn project(world_x: i64, viewpoint: i64, layer_speed: i64, width: i64) -> (r: i64)
    requires
        0 < width <= WIDTH_LIMIT,
        0 < layer_speed <= SCALE,
        width * layer_speed >= SCALE,
        -COORD_LIMIT <= world_x <= COORD_LIMIT,
        -COORD_LIMIT <= viewpoint <= COORD_LIMIT,
    ensures
        r == spec_project(world_x as int, viewpoint as int, layer_speed as int, width as int),
        -(width as int) <= r < width,
{
    let span = mul_fx(width, layer_speed);
    proof {
        lemma_mul_fx_bound(width as int, layer_speed as int, WIDTH_LIMIT as int);
        lemma_mul_fx_bound(viewpoint as int, layer_speed as int, COORD_LIMIT as int);
        assert(1 <= span <= width) by (nonlinear_arith)
            requires
                span == width as int * layer_speed as int / (SCALE as int),
                width as int * layer_speed as int >= SCALE as int,
                0 < layer_speed as int <= SCALE as int,
                width as int > 0,
                SCALE as int == 1_000_000,
        ;
    }
    let half = span / 2;
    let shifted = world_x - mul_fx(viewpoint, layer_speed) + half;
    wrap(shifted, span) - half
}

/// Screen-space x of an ordinary unit (layer speed 1.0): the projection
/// reduces to centering the position on the viewpoint.
pub fn unit_screen_x(position: &UnitPosition, viewpoint: &Viewpoint) -> (r: i64)
    requires
        position.wf(),
        viewpoint.wf(),
    ensures
        r == spec_project(position.0.x as int, viewpoint.position as int, SCALE as int,
            PLAYFIELD_WIDTH as int),
        r == (position.0.x - viewpoint.position + PLAYFIELD_WIDTH as int / 2)
            % (PLAYFIELD_WIDTH as int) - PLAYFIELD_WIDTH as int / 2,
{
    proof {
        // At layer speed 1.0 the fixed-point scaling is exact.
        assert(PLAYFIELD_WIDTH as int * SCALE as int / (SCALE as int) == PLAYFIELD_WIDTH as int)
            by (nonlinear_arith);
        assert(viewpoint.position as int * SCALE as int / (SCALE as int)
            == viewpoint.position as int) by (nonlinear_arith);
    }
    project(position.0.x, viewpoint.position, SCALE, PLAYFIELD_WIDTH)
}

/// The projection only sees the viewpoint through its wrapped value: moving
/// the viewpoint by a whole turn (at layer speed 1.0) leaves every screen
/// position unchanged.
pub proof fn lemma_project_full_turn(world_x: int, viewpoint: int, width: int)
    requires
        0 < width,
    ensures
        spec_project(world_x, viewpoint + width, SCALE as int, width)
            == spec_project(world_x, viewpoint, SCALE as int, width),
{
    let s = SCALE as int;
    assert(width * s / s == width) by (nonlinear_arith)
        requires s == SCALE as int && width > 0;
    assert(viewpoint * s / s == viewpoint) by (nonlinear_arith)
        requires s == SCALE as int;
    assert((viewpoint + width) * s / s == viewpoint + width) by (nonlinear_arith)
        requires s == SCALE as int;
    let c = world_x - viewpoint + width / 2;
    lemma_mod_sub_multiples_vanish(c, width);
    assert(world_x - (viewpoint + width) + width / 2 == c - width);
}

} // verus!
