//! Shots from the player ship: spawn at the muzzle, advance and expire on a
//! countdown, and the protocol that turns raw overlap signals into despawn
//! and hit commands.

use vstd::prelude::*;
use crate::playfield::{wrap, UnitPosition};
use crate::ship::Facing;
use crate::{MAX_DT, PLAYFIELD_WIDTH, SCALE};

verus! {

/// How long a shot lives, in micro-seconds.
pub const SHOT_LIFETIME: i64 = 300_000;

/// Horizontal speed of a shot; the sign encodes the firing direction.
pub const SHOT_SPEED: i64 = 3_000_000;

/// How far ahead of the ship's position a shot appears.
pub const MUZZLE_OFFSET: i64 = 180_000;

/// Turn of the shot color's hue wheel, in fixed-point degrees.
pub const HUE_TURN: i64 = 360_000_000;

/// A laser shot in flight.
#[derive(Debug, Copy, Clone, PartialEq, Eq, Structural)]
pub struct LaserShot {
    /// Remaining time until this shot expires.
    pub expiration: i64,
    /// Length of the shot (increases over time).
    pub size: i64,
    /// Horizontal velocity.
    pub speed: i64,
}

impl LaserShot {
    /// A live shot: full-speed one way or the other, its countdown still
    /// running, its length no older than the time it has lived.
    pub open spec fn wf(self) -> bool {
        &&& (self.speed == SHOT_SPEED || self.speed == -SHOT_SPEED)
        &&& 0 < self.expiration <= SHOT_LIFETIME
        &&& 0 <= self.size
        &&& self.size + self.expiration <= SHOT_LIFETIME
    }
}

/// Spawns a shot from the ship: the spawn position is the ship's, offset by
/// the muzzle distance in the facing direction and renormalized; the
/// countdown starts full, the speed takes the facing's sign, and the length
/// starts at zero.
pub fn spawn_laser(position: &UnitPosition, facing: Facing) -> (r: (LaserShot, UnitPosition))
    requires
        position.wf(),
    ensures
        r.0.expiration == SHOT_LIFETIME,
        r.0.size == 0,
        r.0.speed == (if facing is Right { SHOT_SPEED as int } else { -SHOT_SPEED as int }),
        r.1.0.x == (position.0.x + (if facing is Right { MUZZLE_OFFSET as int } else { -MUZZLE_OFFSET as int }))
            % (PLAYFIELD_WIDTH as int),
        r.1.0.y == position.0.y,
        r.0.wf(),
        r.1.wf(),
{
    let shot = LaserShot {
        expiration: SHOT_LIFETIME,
        size: 0,
        speed: match facing {
            Facing::Right => SHOT_SPEED,
            Facing::Left => -SHOT_SPEED,
        },
    };
    let x = match facing {
        Facing::Right => wrap(position.0.x + MUZZLE_OFFSET, PLAYFIELD_WIDTH),
        Facing::Left => wrap(position.0.x - MUZZLE_OFFSET, PLAYFIELD_WIDTH),
    };
    (shot, UnitPosition(crate::playfield::Vec2Fx { x, y: position.0.y }))
}

/// Advances a live shot by one tick: the countdown loses `dt` and the length
/// gains it; the shot expires (and is to be despawned) exactly when the
/// countdown runs out, and otherwise drifts by its speed, renormalized onto
/// the playfield.
pub fn update_laser_shot(shot: &mut LaserShot, position: &mut UnitPosition, dt: i64) -> (expired:
    bool)
    requires
        old(shot).wf(),
        old(position).wf(),
        0 <= dt <= MAX_DT,
    ensures
        expired <==> old(shot).expiration - dt <= 0,
        final(shot).expiration == old(shot).expiration - dt,
        final(shot).size == old(shot).size + dt,
        final(shot).speed == old(shot).speed,
        !expired ==> final(position).0.x == (old(position).0.x + old(shot).speed * dt / (
        SCALE as int)) % (PLAYFIELD_WIDTH as int),
        !expired ==> final(position).0.y == old(position).0.y,
        expired ==> *final(position) == *old(position),
        !expired ==> final(shot).wf() && final(position).wf(),
{
    shot.expiration = shot.expiration - dt;
    let expired = shot.expiration <= 0;
    if !expired {
        proof {
            assert(-3_000_000_000_000 <= shot.speed as int * dt as int <= 3_000_000_000_000)
                by (nonlinear_arith)
                requires
                    -3_000_000 <= (shot.speed as int) <= 3_000_000,
                    0 <= (dt as int) <= 1_000_000,
            ;
        }
        let step = (shot.speed * dt).checked_div_euclid(SCALE).unwrap();
        position.0.x = wrap(position.0.x + step, PLAYFIELD_WIDTH);
    }
    shot.size = shot.size + dt;
    expired
}

/// A shot with a countdown of `T` is destroyed only on the tick where the
/// simulated time first reaches `T`: never before accumulating `T`, and at
/// most one tick after. The returned count is the number of ticks the shot
/// survived, the countdown's ceiling in ticks.
pub fn shot_ticks_to_expiry(shot: &mut LaserShot, position: &mut UnitPosition, dt: i64) -> (n: u64)
    requires
        old(shot).wf(),
        old(position).wf(),
        0 < dt <= MAX_DT,
    ensures
        n * dt >= old(shot).expiration,
        (n - 1) * dt < old(shot).expiration,
        n >= 1,
{
    let ghost t0 = old(shot).expiration as int;
    let mut n: u64 = 0;
    loop
        invariant
            t0 == old(shot).expiration,
            0 <= n,
            n * dt <= t0 + dt,
            shot.expiration == t0 - n * dt,
            shot.expiration > 0 ==> shot.wf(),
            shot.expiration > 0,
            shot.speed == old(shot).speed,
            position.wf(),
            0 < dt <= MAX_DT,
            t0 <= SHOT_LIFETIME,
        decreases shot.expiration,
    {
        let ghost n0 = n as int;
        let expired = update_laser_shot(shot, position, dt);
        proof {
            assert((n0 + 1) * dt == n0 * dt as int + dt) by (nonlinear_arith);
            assert(n0 <= n0 * dt as int) by (nonlinear_arith)
                requires
                    dt as int >= 1,
                    n0 >= 0,
            ;
        }
        n = n + 1;
        proof {
            assert(n as int * dt as int == n0 * dt as int + dt);
            assert((n as int - 1) * dt as int == n0 * dt as int) by (nonlinear_arith)
                requires
                    n as int == n0 + 1,
            ;
        }
        if expired {
            return n;
        }
    }
}

/// Rotates the shared shot color's hue by a full wheel each second,
/// in fixed-point degrees.
pub fn rotate_shot_hue(hue: i64, dt: i64) -> (r: i64)
    requires
        0 <= hue < HUE_TURN,
        0 <= dt <= MAX_DT,
    ensures
        r == (hue + dt * 360) % (HUE_TURN as int),
        0 <= r < HUE_TURN,
{
    wrap(hue + dt * 360, HUE_TURN)
}

/// A command the collision protocol emits for the entity manager.
#[derive(Debug, Copy, Clone, PartialEq, Eq, Structural)]
pub enum KillCommand {
    /// The named shot is destroyed.
    DespawnShot(u64),
    /// The named enemy receives a hit notification.
    HitEnemy(u64),
}

/// Commands for one shot and its overlap set: a shot overlapping anything is
/// despawned exactly once, and every overlapped enemy gets one hit
/// notification; a shot overlapping nothing produces nothing.
pub open spec fn spec_kill_commands_one(shot: u64, overlaps: Seq<u64>) -> Seq<KillCommand> {
    if overlaps.len() == 0 {
        Seq::empty()
    } else {
        seq![KillCommand::DespawnShot(shot)] + overlaps.map_values(|e: u64| KillCommand::HitEnemy(e))
    }
}

/// Commands for a whole tick's overlap report, shot by shot in order.
pub open spec fn spec_kill_commands(pairs: Seq<(u64, Seq<u64>)>) -> Seq<KillCommand>
    decreases pairs.len(),
{
    if pairs.len() == 0 {
        Seq::empty()
    } else {
        spec_kill_commands(pairs.drop_last()) + spec_kill_commands_one(
            pairs.last().0,
            pairs.last().1,
        )
    }
}

/// Consumes the tick's raw collision signals, `(shot, overlapping enemies)`
/// pairs, and produces the commands of [`spec_kill_commands`]: the despawn
/// of a shot is decided before its overlaps are walked, so one shot can hit
/// several simultaneously-overlapping enemies yet is destroyed exactly once.
pub fn detect_enemy_kills(pairs: &Vec<(u64, Vec<u64>)>) -> (commands: Vec<KillCommand>)
    ensures
        commands@ == spec_kill_commands(
            pairs@.map_values(|p: (u64, Vec<u64>)| (p.0, p.1@)),
        ),
{
    let ghost spairs = pairs@.map_values(|p: (u64, Vec<u64>)| (p.0, p.1@));
    let mut commands: Vec<KillCommand> = Vec::new();
    let mut i: usize = 0;
    while i < pairs.len()
        invariant
            0 <= i <= pairs.len(),
            spairs == pairs@.map_values(|p: (u64, Vec<u64>)| (p.0, p.1@)),
            commands@ == spec_kill_commands(spairs.take(i as int)),
        decreases pairs.len() - i,
    {
        let pair = &pairs[i];
        if pair.1.len() > 0 {
            commands.push(KillCommand::DespawnShot(pair.0));
            let mut j: usize = 0;
            while j < pair.1.len()
                invariant
                    0 <= j <= pair.1.len(),
                    0 <= i < pairs.len(),
                    pair == &pairs[i as int],
                    spairs == pairs@.map_values(|p: (u64, Vec<u64>)| (p.0, p.1@)),
                    commands@ == spec_kill_commands(spairs.take(i as int)) + seq![
                        KillCommand::DespawnShot(pair.0),
                    ] + pair.1@.take(j as int).map_values(|e: u64| KillCommand::HitEnemy(e)),
                decreases pair.1.len() - j,
            {
                commands.push(KillCommand::HitEnemy(pair.1[j]));
                proof {
                    assert(pair.1@.take(j + 1).map_values(|e: u64| KillCommand::HitEnemy(e))
                        =~= pair.1@.take(j as int).map_values(|e: u64| KillCommand::HitEnemy(e))
                        + seq![KillCommand::HitEnemy(pair.1@[j as int])]);
                }
                j = j + 1;
            }
            proof {
                assert(pair.1@.take(pair.1@.len() as int) =~= pair.1@);
            }
        }
        proof {
            assert(spairs.take(i + 1).drop_last() =~= spairs.take(i as int));
            assert(spairs.take(i + 1).last() == spairs[i as int]);
            if spairs[i as int].1.len() == 0 {
                assert(commands@ =~= spec_kill_commands(spairs.take(i + 1)));
            } else {
                assert(commands@ =~= spec_kill_commands(spairs.take(i + 1)));
            }
        }
        i = i + 1;
    }
    proof {
        assert(spairs.take(spairs.len() as int) =~= spairs);
    }
    commands
}

} // verus!
