//! Enemy saucers: a per-enemy finite state machine. A saucer arrives, then
//! patrols with bounded random wandering: it drifts with a velocity chosen
//! from the eight compass directions, bounces off a vertical band, and picks
//! a fresh direction whenever its dwell timer runs out. The later abduction
//! states are defined but not yet reachable from patrolling.

use vstd::prelude::*;
use rand_chacha::ChaCha8Rng;
use crate::explosion::{FlareEffect, ShrapnelEffect};
use crate::playfield::{lemma_mul_fx_bound, mul_fx, wrap, UnitPosition, Vec2Fx};
use crate::rng::draw_in_range;
use crate::trig::{fixed_cos, fixed_sin, lemma_cos_bound, lemma_sin_bound, spec_cos, spec_sin,
    PI_4_FX, TAU_FX};
use crate::{MAX_DT, PLAYFIELD_WIDTH, SCALE};

verus! {

/// Horizontal patrol speed factor.
pub const SAUCER_SPEED_X: i64 = 400_000;

/// Vertical patrol speed factor.
pub const SAUCER_SPEED_Y: i64 = 200_000;

/// Shortest dwell before a patrolling saucer re-picks its direction.
pub const DWELL_MIN: i64 = 1_000_000;

/// Longest dwell (exclusive).
pub const DWELL_MAX: i64 = 2_000_000;

/// A patrolling saucer bounces off `y = PATROL_BAND` and `y = -PATROL_BAND`.
pub const PATROL_BAND: i64 = 400_000;

/// Lowest altitude a saucer arrives at.
pub const ARRIVAL_Y_MIN: i64 = 600_000;

/// Highest altitude a saucer arrives at (exclusive).
pub const ARRIVAL_Y_MAX: i64 = 700_000;

/// Highest altitude a saucer can ever reach while patrolling: one tick's
/// vertical travel past the arrival ceiling.
pub const PATROL_Y_LIMIT: i64 = 900_000;

/// How many saucers a level starts with.
pub const NUM_SAUCERS: usize = 24;

/// Initial size of the flare spawned when a saucer is destroyed.
pub const FLARE_INIT_SIZE: i64 = 10_000;

/// State of a saucer.
#[derive(Default, Debug, Copy, Clone, PartialEq, Eq, Structural)]
pub enum SaucerState {
    /// Arrival animation.
    #[default]
    Arriving,
    /// Wandering around with the carried velocity.
    Patrolling(Vec2Fx),
    /// Located an abduction target, moving to location.
    Seeking,
    /// Grabbing the treasure.
    Grabbing,
    /// Moving upwards with the loot.
    Escaping,
    /// Once the saucer has reached the top, it is replaced with a more
    /// powerful enemy.
    Queened,
}

/// Saucers are a type of enemy that abducts treasure.
#[derive(Debug, Copy, Clone, PartialEq, Eq, Structural)]
pub struct Saucer {
    /// What's happening with this saucer.
    pub state: SaucerState,
    /// Dwell countdown for the current patrol direction.
    pub timer: i64,
}

/// The patrol velocity of compass direction `dir` (eighths of a turn):
/// the direction's cosine and sine, scaled by the per-axis speed factors.
pub open spec fn spec_patrol_velocity(dir: int) -> Vec2Fx {
    Vec2Fx {
        x: (spec_cos(dir * PI_4_FX) * SAUCER_SPEED_X / (SCALE as int)) as i64,
        y: (spec_sin(dir * PI_4_FX) * SAUCER_SPEED_Y / (SCALE as int)) as i64,
    }
}

/// A patrol velocity never exceeds the per-axis speed factors.
pub proof fn lemma_patrol_velocity_bounds(dir: int)
    requires
        0 <= dir < 8,
    ensures
        -SAUCER_SPEED_X <= spec_patrol_velocity(dir).x <= SAUCER_SPEED_X,
        -SAUCER_SPEED_Y <= spec_patrol_velocity(dir).y <= SAUCER_SPEED_Y,
{
    assert(0 <= dir * PI_4_FX < TAU_FX as int) by (nonlinear_arith)
        requires
            0 <= dir < 8,
            PI_4_FX as int == 785_398,
            TAU_FX as int == 6_283_184,
    ;
    lemma_cos_bound(dir * PI_4_FX);
    lemma_sin_bound(dir * PI_4_FX);
    let c = spec_cos(dir * PI_4_FX);
    let s = spec_sin(dir * PI_4_FX);
    assert(c * SAUCER_SPEED_X == SAUCER_SPEED_X as int * c) by (nonlinear_arith);
    assert(s * SAUCER_SPEED_Y == SAUCER_SPEED_Y as int * s) by (nonlinear_arith);
    lemma_mul_fx_bound(SAUCER_SPEED_X as int, c, SAUCER_SPEED_X as int);
    lemma_mul_fx_bound(SAUCER_SPEED_Y as int, s, SAUCER_SPEED_Y as int);
}

/// Computes [`spec_patrol_velocity`].
pub fn patrol_velocity(dir: u8) -> (v: Vec2Fx)
    requires
        dir < 8,
    ensures
        v == spec_patrol_velocity(dir as int),
        -SAUCER_SPEED_X <= v.x <= SAUCER_SPEED_X,
        -SAUCER_SPEED_Y <= v.y <= SAUCER_SPEED_Y,
{
    let angle = (dir as i64) * PI_4_FX;
    proof {
        assert(0 <= (dir as int) * (PI_4_FX as int) < TAU_FX as int) by (nonlinear_arith)
            requires
                0 <= (dir as int) < 8,
                PI_4_FX as int == 785_398,
                TAU_FX as int == 6_283_184,
        ;
        lemma_patrol_velocity_bounds(dir as int);
    }
    let c = fixed_cos(angle);
    let s = fixed_sin(angle);
    proof {
        assert(c as int * SAUCER_SPEED_X as int == spec_cos(dir as int * PI_4_FX) * SAUCER_SPEED_X)
            by (nonlinear_arith)
            requires
                c as int == spec_cos(dir as int * PI_4_FX),
        ;
        assert(s as int * SAUCER_SPEED_Y as int == spec_sin(dir as int * PI_4_FX) * SAUCER_SPEED_Y)
            by (nonlinear_arith)
            requires
                s as int == spec_sin(dir as int * PI_4_FX),
        ;
    }
    Vec2Fx { x: mul_fx(c, SAUCER_SPEED_X), y: mul_fx(s, SAUCER_SPEED_Y) }
}

/// Picks one of the eight compass directions uniformly and scales it by the
/// per-axis speed factors.
pub fn choose_random_angle(rng: &mut ChaCha8Rng) -> (v: Vec2Fx)
    ensures
        exists|dir: int| 0 <= dir < 8 && v == spec_patrol_velocity(dir),
        -SAUCER_SPEED_X <= v.x <= SAUCER_SPEED_X,
        -SAUCER_SPEED_Y <= v.y <= SAUCER_SPEED_Y,
{
    let dir = draw_in_range(rng, 0, 8);
    patrol_velocity(dir as u8)
}

/// The invariant a saucer and its position keep from tick to tick. While
/// patrolling, the velocity stays within the compass-direction bounds; the
/// altitude stays within one tick's travel of the arrival ceiling (above
/// that ceiling the saucer is already falling, below its mirror image it is
/// already rising); and the dwell countdown never exceeds the longest dwell.
pub open spec fn saucer_wf(s: Saucer, p: UnitPosition) -> bool {
    &&& p.wf()
    &&& match s.state {
        SaucerState::Arriving => {
            &&& -ARRIVAL_Y_MAX <= p.0.y <= ARRIVAL_Y_MAX
            &&& DWELL_MIN <= s.timer < DWELL_MAX
        },
        SaucerState::Patrolling(vel) => {
            &&& -SAUCER_SPEED_X <= vel.x <= SAUCER_SPEED_X
            &&& -SAUCER_SPEED_Y <= vel.y <= SAUCER_SPEED_Y
            &&& -PATROL_Y_LIMIT <= p.0.y <= PATROL_Y_LIMIT
            &&& (p.0.y > ARRIVAL_Y_MAX ==> vel.y == -SAUCER_SPEED_Y)
            &&& (p.0.y < -ARRIVAL_Y_MAX ==> vel.y == SAUCER_SPEED_Y)
            &&& s.timer < DWELL_MAX
        },
        _ => true,
    }
}

/// The dwell countdown after losing `dt`: a plain subtraction, saturated at
/// the bottom of `i64` (a machine limit; the countdown is only ever compared
/// against zero once it is this deep in debt).
pub open spec fn spec_timer_minus(timer: int, dt: int) -> int {
    if timer - dt < i64::MIN {
        i64::MIN as int
    } else {
        timer - dt
    }
}

/// One tick of the patrol state machine, given the tick's random draws (a
/// compass direction and a fresh dwell). Arriving turns into patrolling at
/// the drawn velocity. A patrolling saucer loses `dt` of dwell and moves by
/// its velocity, its x renormalized onto the playfield; leaving the patrol
/// band flips it back toward the band with the horizontal component kept;
/// otherwise an expired dwell re-picks the drawn velocity and dwell. The
/// extension states do not move.
pub open spec fn spec_step_saucer(s: Saucer, p: UnitPosition, dt: int, dir: int, dwell: int) -> (
    Saucer,
    UnitPosition,
) {
    match s.state {
        SaucerState::Arriving => (
            Saucer { state: SaucerState::Patrolling(spec_patrol_velocity(dir)), timer: dwell as i64 },
            p,
        ),
        SaucerState::Patrolling(vel) => {
            let t1 = spec_timer_minus(s.timer as int, dt);
            let nx = ((p.0.x + vel.x * dt / (SCALE as int)) % (PLAYFIELD_WIDTH as int)) as i64;
            let ny = (p.0.y + vel.y * dt / (SCALE as int)) as i64;
            let np = UnitPosition(Vec2Fx { x: nx, y: ny });
            if ny > PATROL_BAND {
                (
                    Saucer {
                        state: SaucerState::Patrolling(Vec2Fx { x: vel.x, y: (-SAUCER_SPEED_Y) as i64 }),
                        timer: t1 as i64,
                    },
                    np,
                )
            } else if ny < -PATROL_BAND {
                (
                    Saucer {
                        state: SaucerState::Patrolling(Vec2Fx { x: vel.x, y: SAUCER_SPEED_Y as i64 }),
                        timer: t1 as i64,
                    },
                    np,
                )
            } else if t1 <= 0 {
                (
                    Saucer {
                        state: SaucerState::Patrolling(spec_patrol_velocity(dir)),
                        timer: dwell as i64,
                    },
                    np,
                )
            } else {
                (Saucer { state: SaucerState::Patrolling(vel), timer: t1 as i64 }, np)
            }
        },
        _ => (s, p),
    }
}

/// One tick of the state machine keeps the invariant, whatever was drawn.
pub proof fn lemma_step_saucer_wf(s: Saucer, p: UnitPosition, dt: int, dir: int, dwell: int)
    requires
        saucer_wf(s, p),
        0 <= dir < 8,
        DWELL_MIN <= dwell < DWELL_MAX,
        0 <= dt <= MAX_DT,
    ensures
        saucer_wf(
            spec_step_saucer(s, p, dt, dir, dwell).0,
            spec_step_saucer(s, p, dt, dir, dwell).1,
        ),
{
    lemma_patrol_velocity_bounds(dir);
    match s.state {
        SaucerState::Arriving => {},
        SaucerState::Patrolling(vel) => {
            let step_x = vel.x as int * dt / (SCALE as int);
            let step_y = vel.y as int * dt / (SCALE as int);
            lemma_mul_fx_bound(vel.x as int, dt, SAUCER_SPEED_X as int);
            assert(vel.x as int * dt == dt * vel.x as int) by (nonlinear_arith);
            assert(vel.y as int * dt == dt * vel.y as int) by (nonlinear_arith);
            lemma_mul_fx_bound(dt, vel.x as int, MAX_DT as int);
            lemma_mul_fx_bound(dt, vel.y as int, MAX_DT as int);
            // A tick's vertical travel is at most one band margin.
            assert(-SAUCER_SPEED_Y as int <= step_y <= SAUCER_SPEED_Y as int) by (nonlinear_arith)
                requires
                    step_y == vel.y as int * dt / (SCALE as int),
                    -SAUCER_SPEED_Y as int <= vel.y as int <= SAUCER_SPEED_Y as int,
                    0 <= dt <= MAX_DT as int,
                    SAUCER_SPEED_Y as int == 200_000,
                    MAX_DT as int == 1_000_000,
                    SCALE as int == 1_000_000,
            ;
            // A falling saucer never rises, and a rising one never falls:
            // above the arrival ceiling the altitude can only shrink, so the
            // patrol limit holds.
            if vel.y == -SAUCER_SPEED_Y {
                assert(step_y <= 0) by (nonlinear_arith)
                    requires
                        step_y == vel.y as int * dt / (SCALE as int),
                        vel.y as int == -200_000,
                        0 <= dt,
                        SCALE as int == 1_000_000,
                ;
            }
            if vel.y == SAUCER_SPEED_Y {
                assert(step_y >= 0) by (nonlinear_arith)
                    requires
                        step_y == vel.y as int * dt / (SCALE as int),
                        vel.y as int == 200_000,
                        0 <= dt,
                        SCALE as int == 1_000_000,
                ;
            }
        },
        _ => {},
    }
}

/// Computes one tick of [`spec_step_saucer`] on the saucer and its position,
/// for any values of the tick's draws; the invariant is kept.
pub fn step_saucer(s: &mut Saucer, p: &mut UnitPosition, dt: i64, dir: u8, dwell: i64)
    requires
        saucer_wf(*old(s), *old(p)),
        old(s).state is Arriving || old(s).state is Patrolling,
        dir < 8,
        DWELL_MIN <= dwell < DWELL_MAX,
        0 <= dt <= MAX_DT,
    ensures
        *final(s) == spec_step_saucer(*old(s), *old(p), dt as int, dir as int, dwell as int).0,
        *final(p) == spec_step_saucer(*old(s), *old(p), dt as int, dir as int, dwell as int).1,
        saucer_wf(*final(s), *final(p)),
{
    proof {
        lemma_step_saucer_wf(*s, *p, dt as int, dir as int, dwell as int);
    }
    match s.state {
        SaucerState::Arriving => {
            s.state = SaucerState::Patrolling(patrol_velocity(dir));
            s.timer = dwell;
        },
        SaucerState::Patrolling(vel) => {
            proof {
                lemma_mul_fx_bound(vel.x as int, dt as int, SAUCER_SPEED_X as int);
                lemma_mul_fx_bound(vel.y as int, dt as int, SAUCER_SPEED_Y as int);
            }
            s.timer = match s.timer.checked_sub(dt) {
                Option::Some(t) => t,
                Option::None => i64::MIN,
            };
            let step_x = mul_fx(vel.x, dt);
            let step_y = mul_fx(vel.y, dt);
            p.0.x = wrap(p.0.x + step_x, PLAYFIELD_WIDTH);
            p.0.y = p.0.y + step_y;
            if p.0.y > PATROL_BAND {
                s.state = SaucerState::Patrolling(Vec2Fx { x: vel.x, y: -SAUCER_SPEED_Y });
            } else if p.0.y < -PATROL_BAND {
                s.state = SaucerState::Patrolling(Vec2Fx { x: vel.x, y: SAUCER_SPEED_Y });
            } else if s.timer <= 0 {
                s.state = SaucerState::Patrolling(patrol_velocity(dir));
                s.timer = dwell;
            }
        },
        _ => {},
    }
}

/// Relates a saucer (and its position) to the saucer one tick later: the
/// step of [`spec_step_saucer`] under some pair of in-range draws.
pub open spec fn stepped_from(
    pre_s: Saucer,
    pre_p: UnitPosition,
    post_s: Saucer,
    post_p: UnitPosition,
    dt: int,
) -> bool {
    exists|dir: int, dwell: int|
        0 <= dir < 8 && DWELL_MIN <= dwell < DWELL_MAX && post_s == #[trigger] spec_step_saucer(
            pre_s,
            pre_p,
            dt,
            dir,
            dwell,
        ).0 && post_p == spec_step_saucer(pre_s, pre_p, dt, dir, dwell).1
}

/// One tick of one saucer, drawing from the shared random stream only where
/// the transition calls for fresh values, as the state machine's step on
/// some in-range draws.
pub fn animate_saucer(s: &mut Saucer, p: &mut UnitPosition, dt: i64, rng: &mut ChaCha8Rng)
    requires
        saucer_wf(*old(s), *old(p)),
        old(s).state is Arriving || old(s).state is Patrolling,
        0 <= dt <= MAX_DT,
    ensures
        stepped_from(*old(s), *old(p), *final(s), *final(p), dt as int),
        saucer_wf(*final(s), *final(p)),
{
    match s.state {
        SaucerState::Arriving => {
            let dir = draw_in_range(rng, 0, 8);
            let dwell = draw_in_range(rng, DWELL_MIN, DWELL_MAX);
            step_saucer(s, p, dt, dir as u8, dwell);
            proof {
                assert(stepped_from(*old(s), *old(p), *s, *p, dt as int)) by {
                    assert(*s == spec_step_saucer(
                        *old(s),
                        *old(p),
                        dt as int,
                        (dir as u8) as int,
                        dwell as int,
                    ).0 && *p == spec_step_saucer(
                        *old(s),
                        *old(p),
                        dt as int,
                        (dir as u8) as int,
                        dwell as int,
                    ).1);
                }
            }
        },
        SaucerState::Patrolling(vel) => {
            let ghost s0 = *s;
            let ghost p0 = *p;
            proof {
                lemma_mul_fx_bound(vel.x as int, dt as int, SAUCER_SPEED_X as int);
                lemma_mul_fx_bound(vel.y as int, dt as int, SAUCER_SPEED_Y as int);
                lemma_step_saucer_wf(*s, *p, dt as int, 0, DWELL_MIN as int);
            }
            s.timer = match s.timer.checked_sub(dt) {
                Option::Some(t) => t,
                Option::None => i64::MIN,
            };
            let step_x = mul_fx(vel.x, dt);
            let step_y = mul_fx(vel.y, dt);
            p.0.x = wrap(p.0.x + step_x, PLAYFIELD_WIDTH);
            p.0.y = p.0.y + step_y;
            if p.0.y > PATROL_BAND {
                s.state = SaucerState::Patrolling(Vec2Fx { x: vel.x, y: -SAUCER_SPEED_Y });
                proof {
                    assert(stepped_from(s0, p0, *s, *p, dt as int)) by {
                        assert(*s == spec_step_saucer(s0, p0, dt as int, 0, DWELL_MIN as int).0
                            && *p == spec_step_saucer(s0, p0, dt as int, 0, DWELL_MIN as int).1);
                    }
                }
            } else if p.0.y < -PATROL_BAND {
                s.state = SaucerState::Patrolling(Vec2Fx { x: vel.x, y: SAUCER_SPEED_Y });
                proof {
                    assert(stepped_from(s0, p0, *s, *p, dt as int)) by {
                        assert(*s == spec_step_saucer(s0, p0, dt as int, 0, DWELL_MIN as int).0
                            && *p == spec_step_saucer(s0, p0, dt as int, 0, DWELL_MIN as int).1);
                    }
                }
            } else if s.timer <= 0 {
                let dir = draw_in_range(rng, 0, 8);
                let dwell = draw_in_range(rng, DWELL_MIN, DWELL_MAX);
                s.state = SaucerState::Patrolling(patrol_velocity(dir as u8));
                s.timer = dwell;
                proof {
                    lemma_step_saucer_wf(s0, p0, dt as int, dir as int, dwell as int);
                    assert(stepped_from(s0, p0, *s, *p, dt as int)) by {
                        assert(*s == spec_step_saucer(s0, p0, dt as int, dir as int,
                        dwell as int).0 && *p == spec_step_saucer(s0, p0, dt as int, dir as int,
                        dwell as int).1);
                    }
                }
            } else {
                proof {
                    assert(stepped_from(s0, p0, *s, *p, dt as int)) by {
                        assert(*s == spec_step_saucer(s0, p0, dt as int, 0, DWELL_MIN as int).0
                            && *p == spec_step_saucer(s0, p0, dt as int, 0, DWELL_MIN as int).1);
                    }
                }
            }
        },
        _ => {},
    }
}

/// One tick of every saucer, in order.
#[verifier::rlimit(50)]
pub fn animate_saucers(saucers: &mut Vec<(Saucer, UnitPosition)>, dt: i64, rng: &mut ChaCha8Rng)
    requires
        forall|i: int|
            0 <= i < old(saucers).len() ==> saucer_wf(
                #[trigger] old(saucers)[i].0,
                old(saucers)[i].1,
            ) && (old(saucers)[i].0.state is Arriving || old(saucers)[i].0.state is Patrolling),
        0 <= dt <= MAX_DT,
    ensures
        final(saucers).len() == old(saucers).len(),
        forall|i: int|
            0 <= i < final(saucers).len() ==> stepped_from(
                old(saucers)[i].0,
                old(saucers)[i].1,
                (#[trigger] final(saucers)[i]).0,
                final(saucers)[i].1,
                dt as int,
            ),
        forall|i: int|
            0 <= i < final(saucers).len() ==> saucer_wf(
                #[trigger] final(saucers)[i].0,
                final(saucers)[i].1,
            ),
{
    let mut i: usize = 0;
    while i < saucers.len()
        invariant
            0 <= i <= saucers.len(),
            saucers.len() == old(saucers).len(),
            0 <= dt <= MAX_DT,
            forall|k: int| i <= k < saucers.len() ==> #[trigger] saucers[k] == old(saucers)[k],
            forall|k: int|
                0 <= k < saucers.len() ==> saucer_wf(#[trigger] old(saucers)[k].0, old(saucers)[k].1)
                    && (old(saucers)[k].0.state is Arriving
                    || old(saucers)[k].0.state is Patrolling),
            forall|k: int|
                0 <= k < i ==> stepped_from(
                    old(saucers)[k].0,
                    old(saucers)[k].1,
                    (#[trigger] saucers[k]).0,
                    saucers[k].1,
                    dt as int,
                ),
            forall|k: int|
                0 <= k < i ==> saucer_wf(#[trigger] saucers[k].0, saucers[k].1),
        decreases saucers.len() - i,
    {
        let pair = saucers[i];
        let mut sc = pair.0;
        let mut pos = pair.1;
        animate_saucer(&mut sc, &mut pos, dt, rng);
        let ghost prev = saucers@;
        saucers[i] = (sc, pos);
        proof {
            assert forall|k: int|
                0 <= k < i + 1 implies stepped_from(
                old(saucers)[k].0,
                old(saucers)[k].1,
                (#[trigger] saucers[k]).0,
                saucers[k].1,
                dt as int,
            ) by {
                if k == i as int {
                    assert(saucers[k].0 == sc && saucers[k].1 == pos);
                } else {
                    assert(saucers[k] == prev[k]);
                }
            };
        }
        i = i + 1;
    }
}

/// A freshly arrived saucer: a random spot in a band above the playfield,
/// and a random dwell for its first patrol leg.
pub fn spawn_saucer(rng: &mut ChaCha8Rng) -> (r: (Saucer, UnitPosition))
    ensures
        r.0.state is Arriving,
        DWELL_MIN <= r.0.timer < DWELL_MAX,
        0 <= r.1.0.x < PLAYFIELD_WIDTH,
        ARRIVAL_Y_MIN <= r.1.0.y < ARRIVAL_Y_MAX,
        saucer_wf(r.0, r.1),
{
    let timer = draw_in_range(rng, DWELL_MIN, DWELL_MAX);
    let x = draw_in_range(rng, 0, PLAYFIELD_WIDTH);
    let y = draw_in_range(rng, ARRIVAL_Y_MIN, ARRIVAL_Y_MAX);
    (Saucer { state: SaucerState::Arriving, timer }, UnitPosition(Vec2Fx { x, y }))
}

/// The level's starting batch of saucers: every one freshly arrived in the
/// spawn band, with a full first dwell.
pub fn spawn_saucers(rng: &mut ChaCha8Rng) -> (r: Vec<(Saucer, UnitPosition)>)
    ensures
        r.len() == NUM_SAUCERS,
        forall|i: int|
            0 <= i < r.len() ==> {
                &&& saucer_wf((#[trigger] r[i]).0, r[i].1)
                &&& r[i].0.state is Arriving
                &&& DWELL_MIN <= r[i].0.timer < DWELL_MAX
                &&& 0 <= r[i].1.0.x < PLAYFIELD_WIDTH
                &&& ARRIVAL_Y_MIN <= r[i].1.0.y < ARRIVAL_Y_MAX
            },
{
    let mut saucers: Vec<(Saucer, UnitPosition)> = Vec::new();
    let mut i: usize = 0;
    while i < NUM_SAUCERS
        invariant
            0 <= i <= NUM_SAUCERS,
            saucers.len() == i,
            forall|k: int|
                0 <= k < i ==> {
                    &&& saucer_wf((#[trigger] saucers[k]).0, saucers[k].1)
                    &&& saucers[k].0.state is Arriving
                    &&& DWELL_MIN <= saucers[k].0.timer < DWELL_MAX
                    &&& 0 <= saucers[k].1.0.x < PLAYFIELD_WIDTH
                    &&& ARRIVAL_Y_MIN <= saucers[k].1.0.y < ARRIVAL_Y_MAX
                },
        decreases NUM_SAUCERS - i,
    {
        let s = spawn_saucer(rng);
        saucers.push(s);
        i = i + 1;
    }
    saucers
}

/// Everything to do when a saucer takes a hit: despawn it, and spawn these
/// effects where it stood.
#[derive(Debug, Copy, Clone, PartialEq, Eq, Structural)]
pub struct HitOutcome {
    /// The expanding sphere of light, at rest.
    pub flare: FlareEffect,
    /// The shower of fragments, at rest.
    pub shrapnel: ShrapnelEffect,
    /// Where both effects appear: the saucer's last known position.
    pub position: UnitPosition,
}

/// Responds to a hit notification on a saucer. The caller passes the
/// saucer's position if the saucer still exists: an entity already despawned
/// earlier in the same tick is silently skipped. On a live saucer, the
/// saucer is destroyed (the caller despawns it, and plays the explosion
/// sound) and a flare and a shrapnel burst appear at its last position,
/// both at rest.
pub fn saucer_hit(target_position: Option<&UnitPosition>) -> (r: Option<HitOutcome>)
    ensures
        match target_position {
            Option::None => r is None,
            Option::Some(p) => r == Some(
                HitOutcome {
                    flare: FlareEffect {
                        size: FLARE_INIT_SIZE,
                        velocity: Vec2Fx { x: 0, y: 0 },
                    },
                    shrapnel: ShrapnelEffect { velocity: Vec2Fx { x: 0, y: 0 } },
                    position: *p,
                },
            ),
        },
{
    match target_position {
        Option::None => Option::None,
        Option::Some(p) => Option::Some(
            HitOutcome {
                flare: FlareEffect { size: FLARE_INIT_SIZE, velocity: Vec2Fx { x: 0, y: 0 } },
                shrapnel: ShrapnelEffect { velocity: Vec2Fx { x: 0, y: 0 } },
                position: *p,
            },
        ),
    }
}

} // verus!
