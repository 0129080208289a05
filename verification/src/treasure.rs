//! Abductable treasure items: spawned in a jittered row along the ground at
//! level start, each with one of three looks.

use vstd::prelude::*;
use rand_chacha::ChaCha8Rng;
use crate::playfield::{wrap, UnitPosition, Vec2Fx};
use crate::rng::draw_in_range;
use crate::PLAYFIELD_WIDTH;

verus! {

/// How many treasure items a level starts with.
pub const NUM_TREASURES: usize = 16;

/// Distance between treasure slots: the playfield divided evenly.
pub const TREASURE_INTERVAL: i64 = 500_000;

/// Largest random displacement of a treasure from its slot (exclusive):
/// three tenths of the interval.
pub const TREASURE_DISPLACEMENT: i64 = 150_000;

/// The altitude of the ground the treasures stand on.
pub const TREASURE_Y: i64 = -470_000;

/// How many treasure looks there are.
pub const NUM_TREASURE_KINDS: u8 = 3;

/// The horizontal spot of the treasure in slot `i`, displaced by `d` and
/// renormalized onto the playfield.
pub open spec fn spec_treasure_x(i: int, d: int) -> int {
    (i * TREASURE_INTERVAL + d) % (PLAYFIELD_WIDTH as int)
}

/// State of a treasure item.
#[derive(Default, Debug, Copy, Clone, PartialEq, Eq, Structural)]
pub enum TreasureState {
    /// On the ground.
    #[default]
    Standing,
    /// Being abducted by a saucer.
    Abducted,
    /// Falling to the ground after its abductor has been destroyed.
    Falling,
}

/// An abductable treasure item. Treasure items spawn on the ground at the
/// start of a level. A treasure item can cease to exist in one of three
/// ways: its abduction succeeds (the saucer brings it to the top of the
/// screen), its abductor is destroyed and it crashes to the ground, or its
/// abductor is destroyed and it is rescued (absorbed) by the player ship.
#[derive(Default, Debug, Copy, Clone, PartialEq, Eq, Structural)]
pub struct Treasure {
    /// What's happening with this treasure.
    pub state: TreasureState,
}

/// Spawns the level's treasures: one per slot, displaced from the slot's
/// center by a small random amount, standing on the ground, each with one of
/// the three looks picked at random.
pub fn spawn_treasure(rng: &mut ChaCha8Rng) -> (r: Vec<(Treasure, UnitPosition, u8)>)
    ensures
        r.len() == NUM_TREASURES,
        forall|i: int|
            0 <= i < r.len() ==> {
                &&& (#[trigger] r[i]).0.state is Standing
                &&& r[i].2 < NUM_TREASURE_KINDS
                &&& r[i].1.wf()
                &&& r[i].1.0.y == TREASURE_Y
                &&& exists|d: int|
                    -TREASURE_DISPLACEMENT <= d < TREASURE_DISPLACEMENT && r[i].1.0.x
                        == #[trigger] spec_treasure_x(i, d)
            },
{
    let mut treasures: Vec<(Treasure, UnitPosition, u8)> = Vec::new();
    let mut i: usize = 0;
    while i < NUM_TREASURES
        invariant
            0 <= i <= NUM_TREASURES,
            treasures.len() == i,
            forall|k: int|
                0 <= k < i ==> {
                    &&& (#[trigger] treasures[k]).0.state is Standing
                    &&& treasures[k].2 < NUM_TREASURE_KINDS
                    &&& treasures[k].1.wf()
                    &&& treasures[k].1.0.y == TREASURE_Y
                    &&& exists|d: int|
                        -TREASURE_DISPLACEMENT <= d < TREASURE_DISPLACEMENT && treasures[k].1.0.x
                            == #[trigger] spec_treasure_x(k, d)
                },
        decreases NUM_TREASURES - i,
    {
        let d = draw_in_range(rng, -TREASURE_DISPLACEMENT, TREASURE_DISPLACEMENT);
        let kind = draw_in_range(rng, 0, NUM_TREASURE_KINDS as i64);
        let x = wrap((i as i64) * TREASURE_INTERVAL + d, PLAYFIELD_WIDTH);
        let entry = (
            Treasure { state: TreasureState::Standing },
            UnitPosition(Vec2Fx { x, y: TREASURE_Y }),
            kind as u8,
        );
        treasures.push(entry);
        proof {
            assert(exists|dd: int|
                -TREASURE_DISPLACEMENT <= dd < TREASURE_DISPLACEMENT && treasures[i as int].1.0.x
                    == #[trigger] spec_treasure_x(i as int, dd)) by {
                assert(-TREASURE_DISPLACEMENT <= (d as int) < (TREASURE_DISPLACEMENT as int)
                    && treasures[i as int].1.0.x == spec_treasure_x(i as int, d as int));
            }
        }
        i = i + 1;
    }
    treasures
}

} // verus!
