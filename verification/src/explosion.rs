//! Time-bounded cosmetic entities spawned when an enemy is destroyed: a
//! shower of shrapnel fragments sharing one fade curve, and an expanding
//! flare. Both advance a timer each tick and are destroyed, together with
//! everything they own, on the tick their timer first fills up.

use vstd::prelude::*;
use rand_chacha::ChaCha8Rng;
use crate::playfield::{lemma_mul_fx_bound, mul_fx, wrap, UnitPosition, Vec2Fx, COORD_LIMIT};
use crate::rng::draw_in_range;
use crate::trig::{fixed_cos, fixed_sin, spec_cos, spec_sin, PI_FX, TAU_FX};
use crate::{MAX_DT, PLAYFIELD_WIDTH, SCALE};

verus! {

/// How many fragments one shrapnel burst owns.
pub const NUM_FRAGMENTS: usize = 64;

/// Lifetime of a shrapnel burst, in micro-seconds.
pub const SHRAPNEL_TOTAL: i64 = 800_000;

/// Lifetime of a flare, in micro-seconds.
pub const FLARE_TOTAL: i64 = 200_000;

/// Slowest speed a fragment is thrown at.
pub const FRAG_SPEED_MIN: i64 = 200_000;

/// Fastest speed a fragment is thrown at (exclusive).
pub const FRAG_SPEED_MAX: i64 = 600_000;

/// How fast a fragment spins about its axis, in micro-radians per second.
pub const FRAG_SPIN_RATE: i64 = 8_100_000;

/// Ceiling on effect timer totals, a machine limit.
pub const TIMER_LIMIT: i64 = 10_000_000;

/// A 3D vector of fixed-point micro-units; spin axes of fragments.
#[derive(Clone, Copy, PartialEq, Eq, Structural, Debug)]
pub struct Vec3Fx {
    pub x: i64,
    pub y: i64,
    pub z: i64,
}

/// Determines the lifetime of an effect.
#[derive(Clone, Copy, PartialEq, Eq, Structural, Debug)]
pub struct EffectTimer {
    /// Lifetime of the effect.
    pub total: i64,
    /// Time lived so far.
    pub elapsed: i64,
}

impl EffectTimer {
    /// A live timer: positive, bounded total; elapsed time within it.
    pub open spec fn wf(self) -> bool {
        &&& 0 < self.total <= TIMER_LIMIT
        &&& 0 <= self.elapsed <= self.total
    }

    /// The elapsed time as a fixed-point proportion of the total time.
    pub fn t(&self) -> (r: i64)
        requires
            self.wf(),
        ensures
            r == self.elapsed * SCALE / (self.total as int),
            0 <= r <= SCALE,
    {
        proof {
            assert(0 <= self.elapsed * SCALE <= 0x4000_0000_0000_0000) by (nonlinear_arith)
                requires
                    0 <= self.elapsed <= TIMER_LIMIT as int,
                    SCALE as int == 1_000_000,
                    TIMER_LIMIT as int == 10_000_000,
            ;
            assert(0 <= self.elapsed * SCALE / (self.total as int) <= SCALE as int) by (nonlinear_arith)
                requires
                    0 <= self.elapsed <= self.total,
                    0 < self.total,
                    SCALE as int == 1_000_000,
            ;
        }
        (self.elapsed * SCALE).checked_div_euclid(self.total).unwrap()
    }
}

/// Explosion effect: shower of metal fragments.
#[derive(Clone, Copy, PartialEq, Eq, Structural, Debug)]
pub struct ShrapnelEffect {
    /// Velocity of the burst as a whole (the fragments carry the visible
    /// motion; this is typically zero).
    pub velocity: Vec2Fx,
}

/// Explosion effect: one fragment of shrapnel.
#[derive(Clone, Copy, PartialEq, Eq, Structural, Debug)]
pub struct ShrapnelFragment {
    /// Velocity of the fragment.
    pub velocity: Vec2Fx,
    /// Axis the fragment spins about.
    pub spin_axis: Vec3Fx,
    /// Where the fragment has drifted, relative to the burst.
    pub offset: Vec2Fx,
    /// How far the fragment has spun about its axis, in micro-radians.
    pub rotation: i64,
}

/// Explosion effect: expanding sphere of light.
#[derive(Clone, Copy, PartialEq, Eq, Structural, Debug)]
pub struct FlareEffect {
    /// Size of the flare.
    pub size: i64,
    /// Velocity.
    pub velocity: Vec2Fx,
}

/// A fragment that has lived `elapsed` micro-seconds: thrown no faster than
/// the sampling range allows, spin axis components within the unit range,
/// and drift and spin no larger than its age can explain.
pub open spec fn frag_wf(f: ShrapnelFragment, elapsed: int) -> bool {
    &&& -FRAG_SPEED_MAX <= f.velocity.x <= FRAG_SPEED_MAX
    &&& -FRAG_SPEED_MAX <= f.velocity.y <= FRAG_SPEED_MAX
    &&& -SCALE <= f.spin_axis.x <= SCALE
    &&& -SCALE <= f.spin_axis.y <= SCALE
    &&& -SCALE <= f.spin_axis.z <= SCALE
    &&& -2 * elapsed <= f.offset.x <= 2 * elapsed
    &&& -2 * elapsed <= f.offset.y <= 2 * elapsed
    &&& 0 <= f.rotation <= 9 * elapsed
}

/// The spin axis named by the two spherical angles: standard spherical
/// sampling, in the piecewise-linear trigonometry of [`crate::trig`].
pub open spec fn spec_axis_from_angles(theta: int, phi: int) -> Vec3Fx {
    Vec3Fx {
        x: (spec_sin(phi) * spec_cos(theta) / (SCALE as int)) as i64,
        y: (spec_sin(phi) * spec_sin(theta) / (SCALE as int)) as i64,
        z: spec_cos(phi) as i64,
    }
}

/// The fragment thrown at `angle` with speed `magnitude`, spinning about the
/// axis of the two spherical angles: fresh, with no drift or spin yet.
pub open spec fn spec_fragment(angle: int, magnitude: int, theta: int, phi: int) -> ShrapnelFragment {
    ShrapnelFragment {
        velocity: Vec2Fx {
            x: (spec_cos(angle) * magnitude / (SCALE as int)) as i64,
            y: (spec_sin(angle) * magnitude / (SCALE as int)) as i64,
        },
        spin_axis: spec_axis_from_angles(theta, phi),
        offset: Vec2Fx { x: 0, y: 0 },
        rotation: 0,
    }
}

/// A unit-sphere direction from two independent uniform angles,
/// `theta` over the full turn and `phi` over the half turn.
pub fn random_unit_vector(rng: &mut ChaCha8Rng) -> (r: Vec3Fx)
    ensures
        exists|theta: int, phi: int|
            0 <= theta < TAU_FX && 0 <= phi < PI_FX && r == spec_axis_from_angles(theta, phi),
        -SCALE <= r.x <= SCALE,
        -SCALE <= r.y <= SCALE,
        -SCALE <= r.z <= SCALE,
{
    let theta = draw_in_range(rng, 0, TAU_FX);
    let phi = draw_in_range(rng, 0, PI_FX);
    let sin_phi = fixed_sin(phi);
    let x = mul_fx(sin_phi, fixed_cos(theta));
    let y = mul_fx(sin_phi, fixed_sin(theta));
    let z = fixed_cos(phi);
    proof {
        lemma_mul_fx_bound(sin_phi as int, spec_cos(theta as int), SCALE as int);
        lemma_mul_fx_bound(sin_phi as int, spec_sin(theta as int), SCALE as int);
        assert(Vec3Fx { x, y, z } == spec_axis_from_angles(theta as int, phi as int));
    }
    Vec3Fx { x, y, z }
}

/// Builds the fragment of [`spec_fragment`] from the four sampled values.
pub fn new_fragment(angle: i64, magnitude: i64, theta: i64, phi: i64) -> (r: ShrapnelFragment)
    requires
        0 <= angle < TAU_FX,
        FRAG_SPEED_MIN <= magnitude < FRAG_SPEED_MAX,
        0 <= theta < TAU_FX,
        0 <= phi < PI_FX,
    ensures
        r == spec_fragment(angle as int, magnitude as int, theta as int, phi as int),
        frag_wf(r, 0),
{
    let vx = mul_fx(fixed_cos(angle), magnitude);
    let vy = mul_fx(fixed_sin(angle), magnitude);
    let sin_phi = fixed_sin(phi);
    let ax = mul_fx(sin_phi, fixed_cos(theta));
    let ay = mul_fx(sin_phi, fixed_sin(theta));
    let az = fixed_cos(phi);
    proof {
        lemma_mul_fx_bound(spec_cos(angle as int), magnitude as int, SCALE as int);
        lemma_mul_fx_bound(spec_sin(angle as int), magnitude as int, SCALE as int);
        assert(spec_cos(angle as int) * magnitude == magnitude * spec_cos(angle as int))
            by (nonlinear_arith);
        assert(spec_sin(angle as int) * magnitude == magnitude * spec_sin(angle as int))
            by (nonlinear_arith);
        lemma_mul_fx_bound(magnitude as int, spec_cos(angle as int), FRAG_SPEED_MAX as int);
        lemma_mul_fx_bound(magnitude as int, spec_sin(angle as int), FRAG_SPEED_MAX as int);
        lemma_mul_fx_bound(sin_phi as int, spec_cos(theta as int), SCALE as int);
        lemma_mul_fx_bound(sin_phi as int, spec_sin(theta as int), SCALE as int);
    }
    ShrapnelFragment {
        velocity: Vec2Fx { x: vx, y: vy },
        spin_axis: Vec3Fx { x: ax, y: ay, z: az },
        offset: Vec2Fx { x: 0, y: 0 },
        rotation: 0,
    }
}

/// A fragment as [`spec_fragment`] builds it from some in-range draws: a
/// throw direction anywhere on the circle, a speed from the sampling range,
/// and a spin axis anywhere on the sphere.
pub open spec fn sampled_fragment(f: ShrapnelFragment) -> bool {
    exists|angle: int, magnitude: int, theta: int, phi: int|
        0 <= angle < TAU_FX && FRAG_SPEED_MIN <= magnitude < FRAG_SPEED_MAX && 0 <= theta < TAU_FX
            && 0 <= phi < PI_FX && f == #[trigger] spec_fragment(angle, magnitude, theta, phi)
}

/// Creates a shrapnel burst: exactly [`NUM_FRAGMENTS`] fragments, each with
/// an independently sampled throw direction, speed and spin axis, and a
/// fresh timer over the burst's fixed lifetime.
pub fn spawn_shrapnel(rng: &mut ChaCha8Rng) -> (r: (Vec<ShrapnelFragment>, EffectTimer))
    ensures
        r.0.len() == NUM_FRAGMENTS,
        forall|i: int| 0 <= i < r.0.len() ==> frag_wf(#[trigger] r.0[i], 0),
        forall|i: int| 0 <= i < r.0.len() ==> sampled_fragment(#[trigger] r.0[i]),
        r.1 == (EffectTimer { total: SHRAPNEL_TOTAL, elapsed: 0 }),
        r.1.wf(),
{
    let mut fragments: Vec<ShrapnelFragment> = Vec::new();
    let mut i: usize = 0;
    while i < NUM_FRAGMENTS
        invariant
            0 <= i <= NUM_FRAGMENTS,
            fragments.len() == i,
            forall|k: int| 0 <= k < i ==> frag_wf(#[trigger] fragments[k], 0),
            forall|k: int| 0 <= k < i ==> sampled_fragment(#[trigger] fragments[k]),
        decreases NUM_FRAGMENTS - i,
    {
        let angle = draw_in_range(rng, 0, TAU_FX);
        let magnitude = draw_in_range(rng, FRAG_SPEED_MIN, FRAG_SPEED_MAX);
        let theta = draw_in_range(rng, 0, TAU_FX);
        let phi = draw_in_range(rng, 0, PI_FX);
        let fresh = new_fragment(angle, magnitude, theta, phi);
        fragments.push(fresh);
        proof {
            assert(sampled_fragment(fragments[i as int])) by {
                assert(0 <= angle < TAU_FX && FRAG_SPEED_MIN <= magnitude < FRAG_SPEED_MAX && 0
                    <= theta < TAU_FX && 0 <= phi < PI_FX && fragments[i as int] == spec_fragment(
                    angle as int,
                    magnitude as int,
                    theta as int,
                    phi as int,
                ));
            }
        }
        i = i + 1;
    }
    (fragments, EffectTimer { total: SHRAPNEL_TOTAL, elapsed: 0 })
}

/// Sets up the timer of a freshly spawned flare.
pub fn spawn_flare_timer() -> (r: EffectTimer)
    ensures
        r == (EffectTimer { total: FLARE_TOTAL, elapsed: 0 }),
        r.wf(),
{
    EffectTimer { total: FLARE_TOTAL, elapsed: 0 }
}

/// The shared fade of a burst's fragments, computed once per tick:
/// full at birth, gone when the timer fills.
pub fn shrapnel_fade(timer: &EffectTimer) -> (fade: i64)
    requires
        timer.wf(),
    ensures
        fade == SCALE - timer.elapsed * SCALE / (timer.total as int),
        0 <= fade <= SCALE,
{
    SCALE - timer.t()
}

/// The shared material values driven by the fade: an emissive tone cooling
/// from white-hot (red fades as the cube, green as the fourth power) and an
/// alpha that stays opaque until the last quarter of the fade.
pub fn shrapnel_material(fade: i64) -> (r: (i64, i64, i64))
    requires
        0 <= fade <= SCALE,
    ensures
        ({
            let f3 = fade * fade / (SCALE as int) * fade / (SCALE as int);
            &&& r.0 == f3
            &&& r.1 == f3 * fade / (SCALE as int)
            &&& r.2 == (if 4 * fade < SCALE { 4 * fade as int } else { SCALE as int })
        }),
        0 <= r.0 <= SCALE,
        0 <= r.1 <= SCALE,
        0 <= r.2 <= SCALE,
{
    proof {
        lemma_mul_fx_bound(fade as int, fade as int, SCALE as int);
        lemma_mul_fx_bound(fade * fade / (SCALE as int), fade as int, SCALE as int);
        assert(0 <= fade * fade) by (nonlinear_arith)
            requires
                0 <= fade,
        ;
        assert(0 <= fade * fade / (SCALE as int) * fade) by (nonlinear_arith)
            requires
                0 <= fade * fade / (SCALE as int),
                0 <= fade,
        ;
    }
    let f2 = (fade * fade).checked_div_euclid(SCALE).unwrap();
    let f3 = (f2 * fade).checked_div_euclid(SCALE).unwrap();
    proof {
        lemma_mul_fx_bound(f3 as int, fade as int, SCALE as int);
        assert(0 <= f3 * fade <= 0x4000_0000_0000_0000) by (nonlinear_arith)
            requires
                0 <= f3 <= SCALE as int,
                0 <= fade <= SCALE as int,
                SCALE as int == 1_000_000,
        ;
    }
    let f4 = (f3 * fade).checked_div_euclid(SCALE).unwrap();
    let alpha = if 4 * fade < SCALE {
        4 * fade
    } else {
        SCALE
    };
    (f3, f4, alpha)
}

/// Advances a shrapnel burst by one tick. The burst and every fragment it
/// owns expire together, on the tick the timer first fills; otherwise the
/// burst drifts by its own velocity and each fragment by its own, spinning
/// at the fixed rate about its axis.
pub fn update_shrapnel(
    effect: &ShrapnelEffect,
    timer: &mut EffectTimer,
    position: &mut UnitPosition,
    fragments: &mut Vec<ShrapnelFragment>,
    dt: i64,
) -> (expired: bool)
    requires
        old(timer).wf(),
        old(position).wf(),
        -COORD_LIMIT <= old(position).0.y <= COORD_LIMIT,
        -SCALE <= effect.velocity.x <= SCALE,
        -SCALE <= effect.velocity.y <= SCALE,
        forall|i: int|
            0 <= i < old(fragments).len() ==> frag_wf(
                #[trigger] old(fragments)[i],
                old(timer).elapsed as int,
            ),
        0 <= dt <= MAX_DT,
    ensures
        expired <==> old(timer).elapsed + dt >= old(timer).total,
        final(timer).total == old(timer).total,
        final(timer).elapsed == old(timer).elapsed + dt,
        expired ==> *final(position) == *old(position) && final(fragments)@ == old(fragments)@,
        !expired ==> {
            &&& final(timer).wf()
            &&& final(position).wf()
            &&& final(position).0.x == (old(position).0.x + effect.velocity.x * dt / (SCALE as int))
                % (PLAYFIELD_WIDTH as int)
            &&& final(position).0.y == old(position).0.y + effect.velocity.y * dt / (SCALE as int)
            &&& final(fragments).len() == old(fragments).len()
            &&& forall|i: int|
                0 <= i < old(fragments).len() ==> #[trigger] final(fragments)[i]
                    == (ShrapnelFragment {
                    velocity: old(fragments)[i].velocity,
                    spin_axis: old(fragments)[i].spin_axis,
                    offset: Vec2Fx {
                        x: (old(fragments)[i].offset.x + old(fragments)[i].velocity.x * dt / (
                        SCALE as int)) as i64,
                        y: (old(fragments)[i].offset.y + old(fragments)[i].velocity.y * dt / (
                        SCALE as int)) as i64,
                    },
                    rotation: (old(fragments)[i].rotation + FRAG_SPIN_RATE * dt / (
                    SCALE as int)) as i64,
                })
            &&& forall|i: int|
                0 <= i < final(fragments).len() ==> frag_wf(
                    #[trigger] final(fragments)[i],
                    final(timer).elapsed as int,
                )
        },
{
    timer.elapsed = timer.elapsed + dt;
    if timer.elapsed >= timer.total {
        return true;
    }
    let burst_step_x = mul_fx(effect.velocity.x, dt);
    let burst_step_y = mul_fx(effect.velocity.y, dt);
    proof {
        lemma_mul_fx_bound(effect.velocity.x as int, dt as int, SCALE as int);
        lemma_mul_fx_bound(effect.velocity.y as int, dt as int, SCALE as int);
        assert(effect.velocity.x * dt == dt as int * effect.velocity.x as int) by (nonlinear_arith);
        assert(effect.velocity.y * dt == dt as int * effect.velocity.y as int) by (nonlinear_arith);
        lemma_mul_fx_bound(dt as int, effect.velocity.x as int, MAX_DT as int);
        lemma_mul_fx_bound(dt as int, effect.velocity.y as int, MAX_DT as int);
    }
    position.0.x = wrap(position.0.x + burst_step_x, PLAYFIELD_WIDTH);
    position.0.y = position.0.y + burst_step_y;

    let spin_step = (FRAG_SPIN_RATE * dt).checked_div_euclid(SCALE).unwrap();
    let ghost elapsed0 = old(timer).elapsed as int;
    let mut i: usize = 0;
    while i < fragments.len()
        invariant
            0 <= i <= fragments.len(),
            fragments.len() == old(fragments).len(),
            timer.elapsed == elapsed0 + dt,
            0 <= dt <= MAX_DT,
            spin_step == FRAG_SPIN_RATE * dt / (SCALE as int),
            forall|k: int|
                0 <= k < i ==> #[trigger] fragments[k] == (ShrapnelFragment {
                    velocity: old(fragments)[k].velocity,
                    spin_axis: old(fragments)[k].spin_axis,
                    offset: Vec2Fx {
                        x: (old(fragments)[k].offset.x + old(fragments)[k].velocity.x * dt / (
                        SCALE as int)) as i64,
                        y: (old(fragments)[k].offset.y + old(fragments)[k].velocity.y * dt / (
                        SCALE as int)) as i64,
                    },
                    rotation: (old(fragments)[k].rotation + FRAG_SPIN_RATE * dt / (
                    SCALE as int)) as i64,
                }),
            forall|k: int|
                0 <= k < i ==> frag_wf(#[trigger] fragments[k], elapsed0 + dt),
            forall|k: int|
                i <= k < fragments.len() ==> #[trigger] fragments[k] == old(fragments)[k],
            forall|k: int|
                i <= k < fragments.len() ==> frag_wf(#[trigger] fragments[k], elapsed0),
            0 <= elapsed0,
            elapsed0 + dt <= TIMER_LIMIT,
        decreases fragments.len() - i,
    {
        let f = fragments[i];
        proof {
            lemma_frag_step_bound(f.offset.x as int, f.velocity.x as int, dt as int, elapsed0);
            lemma_frag_step_bound(f.offset.y as int, f.velocity.y as int, dt as int, elapsed0);
            assert(0 <= FRAG_SPIN_RATE * dt / (SCALE as int) <= 9 * dt) by (nonlinear_arith)
                requires
                    0 <= dt,
                    FRAG_SPIN_RATE as int == 8_100_000,
                    SCALE as int == 1_000_000,
            ;
        }
        let step_x = mul_fx(f.velocity.x, dt);
        let step_y = mul_fx(f.velocity.y, dt);
        let updated = ShrapnelFragment {
            velocity: f.velocity,
            spin_axis: f.spin_axis,
            offset: Vec2Fx { x: f.offset.x + step_x, y: f.offset.y + step_y },
            rotation: f.rotation + spin_step,
        };
        fragments[i] = updated;
        i = i + 1;
    }
    false
}

/// One tick's drift stays within the fragment's age budget: an offset
/// explained by `elapsed` micro-seconds plus a step explained by `dt` more
/// is explained by `elapsed + dt`.
proof fn lemma_frag_step_bound(offset: int, velocity: int, dt: int, elapsed: int)
    requires
        -2 * elapsed <= offset <= 2 * elapsed,
        -FRAG_SPEED_MAX <= velocity <= FRAG_SPEED_MAX,
        0 <= dt <= MAX_DT,
        0 <= elapsed,
    ensures
        -2 * (elapsed + dt) <= offset + velocity * dt / (SCALE as int) <= 2 * (elapsed + dt),
{
    assert(-2 * dt <= velocity * dt / (SCALE as int) <= 2 * dt) by (nonlinear_arith)
        requires
            -FRAG_SPEED_MAX as int <= velocity <= FRAG_SPEED_MAX as int,
            0 <= dt,
            FRAG_SPEED_MAX as int == 600_000,
            SCALE as int == 1_000_000,
    ;
}

/// Advances a flare by one tick: it expires on the tick its timer first
/// fills, and otherwise drifts by its velocity and grows by twice the tick.
pub fn update_flare(
    effect: &mut FlareEffect,
    timer: &mut EffectTimer,
    position: &mut UnitPosition,
    dt: i64,
) -> (expired: bool)
    requires
        old(timer).wf(),
        old(position).wf(),
        -COORD_LIMIT <= old(position).0.y <= COORD_LIMIT,
        -SCALE <= old(effect).velocity.x <= SCALE,
        -SCALE <= old(effect).velocity.y <= SCALE,
        0 <= old(effect).size <= COORD_LIMIT,
        0 <= dt <= MAX_DT,
    ensures
        expired <==> old(timer).elapsed + dt >= old(timer).total,
        final(timer).total == old(timer).total,
        final(timer).elapsed == old(timer).elapsed + dt,
        final(effect).velocity == old(effect).velocity,
        expired ==> *final(position) == *old(position) && *final(effect) == *old(effect),
        !expired ==> {
            &&& final(timer).wf()
            &&& final(position).wf()
            &&& final(position).0.x == (old(position).0.x + old(effect).velocity.x * dt / (
            SCALE as int)) % (PLAYFIELD_WIDTH as int)
            &&& final(position).0.y == old(position).0.y + old(effect).velocity.y * dt / (
            SCALE as int)
            &&& final(effect).size == old(effect).size + 2 * dt
        },
{
    timer.elapsed = timer.elapsed + dt;
    if timer.elapsed >= timer.total {
        return true;
    }
    let step_x = mul_fx(effect.velocity.x, dt);
    let step_y = mul_fx(effect.velocity.y, dt);
    proof {
        assert(effect.velocity.x * dt == dt as int * effect.velocity.x as int) by (nonlinear_arith);
        assert(effect.velocity.y * dt == dt as int * effect.velocity.y as int) by (nonlinear_arith);
        lemma_mul_fx_bound(dt as int, effect.velocity.x as int, MAX_DT as int);
        lemma_mul_fx_bound(dt as int, effect.velocity.y as int, MAX_DT as int);
    }
    position.0.x = wrap(position.0.x + step_x, PLAYFIELD_WIDTH);
    position.0.y = position.0.y + step_y;
    effect.size = effect.size + 2 * dt;
    false
}

/// The flare's color at proportion `t` of its life: from white toward a
/// warm, transparent tone.
pub fn flare_color(t: i64) -> (r: (i64, i64, i64, i64))
    requires
        0 <= t <= SCALE,
    ensures
        r.0 == SCALE,
        r.1 == SCALE - t / 2,
        r.2 == SCALE - t,
        r.3 == SCALE - t,
{
    (SCALE, SCALE - t / 2, SCALE - t, SCALE - t)
}

} // verus!
