//! Per-tick physics for the single player ship: damped horizontal
//! acceleration, clamped vertical motion, sticky facing, smoothed
//! orientation and camera offset, and the viewpoint update derived from the
//! ship's new position.

use vstd::prelude::*;
use crate::playfield::{wrap, UnitPosition, Viewpoint, COORD_LIMIT};
use crate::smoothing::{spec_transition, transition_to_target};
use crate::trig::PI_FX;
use crate::{MAX_DT, PLAYFIELD_WIDTH, SCALE};

verus! {

/// Drag multiplier applied to the ship's own speed each second.
pub const K_DRAG: i64 = 4;

/// Thrust multiplier applied to the horizontal input axis each second.
pub const K_THRUST: i64 = 10;

/// The ship's horizontal speed is clamped to `[-V_MAX, V_MAX]`.
pub const V_MAX: i64 = 1_500_000;

/// Vertical step per unit of vertical input, per tick.
pub const K_VERT: i64 = 5_000;

/// Lowest ship altitude.
pub const Y_MIN: i64 = -400_000;

/// Highest ship altitude.
pub const Y_MAX: i64 = 450_000;

/// Yaw used as a banking cue mid-turn, and the pitch distance that counts
/// as mid-turn.
pub const YAW_BANK: i64 = 500_000;

/// Yaw used to show the ship's top or belly when climbing or diving.
pub const YAW_CLIMB: i64 = 200_000;

/// How far the camera leads the ship, leaving more room ahead than behind.
pub const CAMERA_LEAD: i64 = 300_000;

/// Direction the ship wants to be facing; sticky, it only flips on nonzero
/// horizontal input.
#[derive(Debug, Default, Copy, Clone, PartialEq, Eq, Structural)]
pub enum Facing {
    #[default]
    Right,
    Left,
}

/// State of the player's ship.
#[derive(Debug, Copy, Clone, PartialEq, Eq, Structural)]
pub struct PlayerShip {
    /// Direction we want to be facing, sticky based on thrust.
    pub facing: Facing,
    /// Based on facing, but smoothed.
    pub camera_offset: i64,
    /// Horizontal velocity.
    pub speed: i64,
    /// Current ship orientation: follows facing but smoothed.
    pub pitch: i64,
    /// Affected by both turning and up / down movement.
    pub yaw: i64,
    /// The size of the thrust animation.
    pub thrust: i64,
}

/// Clamps `v` into `[lo, hi]`.
pub open spec fn spec_clamp(v: int, lo: int, hi: int) -> int {
    if v < lo {
        lo
    } else if v > hi {
        hi
    } else {
        v
    }
}

/// The ship's next horizontal speed: drag and input thrust integrated over
/// the tick, clamped to `[-V_MAX, V_MAX]`.
pub open spec fn spec_ship_speed(speed: int, ix: int, dt: int) -> int {
    let accel = (-speed * K_DRAG + ix * K_THRUST) * dt / (SCALE as int);
    spec_clamp(speed + accel, -V_MAX as int, V_MAX as int)
}

/// Facing is sticky: it flips to match nonzero horizontal input and
/// otherwise keeps its value.
pub open spec fn spec_facing(facing: Facing, ix: int) -> Facing {
    if ix > 0 {
        Facing::Right
    } else if ix < 0 {
        Facing::Left
    } else {
        facing
    }
}

/// Pitch the ship turns toward: level when facing right, a half turn back
/// when facing left.
pub open spec fn spec_target_pitch(facing: Facing) -> int {
    match facing {
        Facing::Right => 0,
        Facing::Left => -PI_FX as int,
    }
}

/// Yaw the ship banks toward: one way or the other while mid-turn (the
/// pitch target is still far from the current pitch), else a climbing or
/// diving cue from the vertical input and facing, else level.
pub open spec fn spec_target_yaw(pitch: int, facing: Facing, iy: int) -> int {
    let target_pitch = spec_target_pitch(facing);
    if target_pitch > pitch + YAW_BANK {
        -YAW_BANK as int
    } else if target_pitch < pitch - YAW_BANK {
        YAW_BANK as int
    } else if iy > 0 {
        if facing == Facing::Right {
            -YAW_CLIMB as int
        } else {
            YAW_CLIMB as int
        }
    } else if iy < 0 {
        if facing == Facing::Right {
            YAW_CLIMB as int
        } else {
            -YAW_CLIMB as int
        }
    } else {
        0
    }
}

/// Camera offset the view drifts toward: ahead of the ship's nose.
pub open spec fn spec_target_camera_offset(facing: Facing) -> int {
    match facing {
        Facing::Right => -CAMERA_LEAD as int,
        Facing::Left => CAMERA_LEAD as int,
    }
}

/// The thrust animation ramps to full size whenever there is horizontal
/// input, and back to nothing otherwise.
pub open spec fn spec_target_thrust(ix: int) -> int {
    if ix != 0 {
        SCALE as int
    } else {
        0
    }
}

impl PlayerShip {
    /// Every smoothed scalar stays inside the interval spanned by its
    /// possible targets, and the speed stays clamped.
    pub open spec fn wf(self) -> bool {
        &&& -V_MAX <= self.speed <= V_MAX
        &&& -PI_FX <= self.pitch <= 0
        &&& -YAW_BANK <= self.yaw <= YAW_BANK
        &&& -CAMERA_LEAD <= self.camera_offset <= CAMERA_LEAD
        &&& 0 <= self.thrust <= SCALE
    }
}

impl Default for PlayerShip {
    /// A freshly spawned ship: at rest, level, facing right.
    fn default() -> (r: Self)
        ensures
            r == (PlayerShip {
                facing: Facing::Right,
                camera_offset: 0,
                speed: 0,
                pitch: 0,
                yaw: 0,
                thrust: 0,
            }),
            r.wf(),
    {
        PlayerShip { facing: Facing::Right, camera_offset: 0, speed: 0, pitch: 0, yaw: 0, thrust: 0 }
    }
}

/// Advances the ship by one tick from the 2D input axis `(ix, iy)` (each
/// component a fixed-point value in `[-1, 1]`): integrates and clamps the
/// horizontal speed, moves and renormalizes the position, updates the
/// sticky facing, smooths pitch, yaw, camera offset and thrust toward their
/// targets (yaw fastest, camera offset slowest), and re-derives the
/// viewpoint from the new position and camera offset.
pub fn move_ship(
    ship: &mut PlayerShip,
    position: &mut UnitPosition,
    viewpoint: &mut Viewpoint,
    ix: i64,
    iy: i64,
    dt: i64,
)
    requires
        old(ship).wf(),
        old(position).wf(),
        -COORD_LIMIT <= old(position).0.y <= COORD_LIMIT,
        -SCALE <= ix <= SCALE,
        -SCALE <= iy <= SCALE,
        0 <= dt <= MAX_DT,
    ensures
        final(ship).speed == spec_ship_speed(old(ship).speed as int, ix as int, dt as int),
        -V_MAX <= final(ship).speed <= V_MAX,
        final(ship).facing == spec_facing(old(ship).facing, ix as int),
        final(position).0.x == (old(position).0.x + final(ship).speed * dt / (SCALE as int))
            % (PLAYFIELD_WIDTH as int),
        final(position).0.y == spec_clamp(
            old(position).0.y + iy * K_VERT / (SCALE as int),
            Y_MIN as int,
            Y_MAX as int,
        ),
        final(ship).yaw == spec_transition(
            old(ship).yaw as int,
            spec_target_yaw(old(ship).pitch as int, final(ship).facing, iy as int),
            dt as int * 3,
        ),
        final(ship).pitch == spec_transition(
            old(ship).pitch as int,
            spec_target_pitch(final(ship).facing),
            dt as int * 15,
        ),
        final(ship).camera_offset == spec_transition(
            old(ship).camera_offset as int,
            spec_target_camera_offset(final(ship).facing),
            dt as int * 3 / 10,
        ),
        final(ship).thrust == spec_transition(
            old(ship).thrust as int,
            spec_target_thrust(ix as int),
            dt as int * 15,
        ),
        final(viewpoint).position == (final(position).0.x - final(ship).camera_offset)
            % (PLAYFIELD_WIDTH as int),
        final(ship).wf(),
        final(position).wf(),
        final(viewpoint).wf(),
{
    // Move the ship.
    let pull = -ship.speed * K_DRAG + ix * K_THRUST;
    proof {
        assert(-16_000_000_000_000 <= pull as int * dt as int <= 16_000_000_000_000)
            by (nonlinear_arith)
            requires
                -16_000_000 <= (pull as int) <= 16_000_000,
                0 <= (dt as int) <= 1_000_000,
        ;
    }
    let accel = (pull * dt).checked_div_euclid(SCALE).unwrap();
    let raw_speed = ship.speed + accel;
    ship.speed = if raw_speed < -V_MAX {
        -V_MAX
    } else if raw_speed > V_MAX {
        V_MAX
    } else {
        raw_speed
    };
    proof {
        assert(-1_500_000_000_000 <= ship.speed as int * dt as int <= 1_500_000_000_000)
            by (nonlinear_arith)
            requires
                -1_500_000 <= (ship.speed as int) <= 1_500_000,
                0 <= (dt as int) <= 1_000_000,
        ;
    }
    let step = (ship.speed * dt).checked_div_euclid(SCALE).unwrap();
    position.0.x = wrap(position.0.x + step, PLAYFIELD_WIDTH);
    let lift = (iy * K_VERT).checked_div_euclid(SCALE).unwrap();
    let raw_y = position.0.y + lift;
    position.0.y = if raw_y < Y_MIN {
        Y_MIN
    } else if raw_y > Y_MAX {
        Y_MAX
    } else {
        raw_y
    };

    // Facing is sticky: ship orientation matches the most recent thrust.
    let mut target_thrust: i64 = 0;
    if ix > 0 {
        ship.facing = Facing::Right;
        target_thrust = SCALE;
    } else if ix < 0 {
        ship.facing = Facing::Left;
        target_thrust = SCALE;
    }

    // Adjust pitch if we flipped direction.
    let target_pitch: i64 = match ship.facing {
        Facing::Right => 0,
        Facing::Left => -PI_FX,
    };

    // Yaw to show the top or bottom of the ship when climbing or turning.
    let target_yaw: i64 = if target_pitch > ship.pitch + YAW_BANK {
        -YAW_BANK
    } else if target_pitch < ship.pitch - YAW_BANK {
        YAW_BANK
    } else if iy > 0 {
        if ship.facing == Facing::Right {
            -YAW_CLIMB
        } else {
            YAW_CLIMB
        }
    } else if iy < 0 {
        if ship.facing == Facing::Right {
            YAW_CLIMB
        } else {
            -YAW_CLIMB
        }
    } else {
        0
    };

    // Offset the camera so there is more room in front of the ship than
    // behind.
    let target_camera_offset: i64 = match ship.facing {
        Facing::Right => -CAMERA_LEAD,
        Facing::Left => CAMERA_LEAD,
    };

    // Smooth moves.
    ship.yaw = transition_to_target(ship.yaw, target_yaw, dt * 3);
    ship.pitch = transition_to_target(ship.pitch, target_pitch, dt * 15);
    ship.camera_offset = transition_to_target(ship.camera_offset, target_camera_offset, dt * 3 / 10);
    ship.thrust = transition_to_target(ship.thrust, target_thrust, dt * 15);
    viewpoint.advance(position.0.x, ship.camera_offset);
}

} // verus!
