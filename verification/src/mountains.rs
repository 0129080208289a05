//! The mountain silhouettes of the backdrop: a midpoint-displacement height
//! field generated once per layer, and the parallax scroll that slides each
//! layer under the viewpoint.

use vstd::prelude::*;
use vstd::arithmetic::div_mod::{lemma_div_is_ordered, lemma_div_multiples_vanish};
use rand_chacha::ChaCha8Rng;
use crate::playfield::{mul_fx, wrap, Viewpoint};
use crate::rng::draw_in_range;
use crate::{PLAYFIELD_WIDTH, SCALE};

verus! {

/// How many height samples one mountain layer holds.
pub const NUM_SAMPLES: usize = 128;

/// Lowest sampled ridge height.
pub const RIDGE_MIN: i64 = 200_000;

/// Highest sampled ridge height (exclusive).
pub const RIDGE_MAX: i64 = 300_000;

/// Largest single midpoint displacement (exclusive).
pub const RIDGE_JITTER: i64 = 20_000;

/// Lowest height a finished ridge can hold: an anchor at [`RIDGE_MIN`] pulled
/// down through the displacement levels, nine quarters of one jitter in the
/// worst case.
pub const RIDGE_FLOOR: i64 = 155_000;

/// Highest height a finished ridge can hold: an anchor just under
/// [`RIDGE_MAX`] pushed up the same way.
pub const RIDGE_CEIL: i64 = 344_996;

/// A mountain layer.
#[derive(Clone, Copy, PartialEq, Eq, Structural, Debug)]
pub struct Moutains {
    /// Speed at which the mountain parallax moves.
    pub speed: i64,
}

/// The lowest value a midpoint-displacement pass over a gap of `n` samples
/// can write, when the left endpoint is at least `lo0` and the right at
/// least `lo1`: the pass writes the endpoints' mean pushed down by at most
/// one jitter, and each half then recurses with the midpoint as its new
/// shared endpoint.
pub open spec fn spec_ridge_floor(lo0: int, lo1: int, n: int) -> int
    decreases n,
{
    let m = (lo0 + lo1) / 2 - RIDGE_JITTER;
    if n <= 1 {
        m
    } else {
        let a = spec_ridge_floor(lo0, m, n / 2);
        let b = spec_ridge_floor(m, lo1, n / 2);
        if a <= b {
            a
        } else {
            b
        }
    }
}

/// The mirror image of [`spec_ridge_floor`]: the highest value the pass can
/// write, pushed up by at most one jitter less one (the displacement draw is
/// half-open).
pub open spec fn spec_ridge_ceil(hi0: int, hi1: int, n: int) -> int
    decreases n,
{
    let m = (hi0 + hi1) / 2 + RIDGE_JITTER - 1;
    if n <= 1 {
        m
    } else {
        let a = spec_ridge_ceil(hi0, m, n / 2);
        let b = spec_ridge_ceil(m, hi1, n / 2);
        if a >= b {
            a
        } else {
            b
        }
    }
}

/// Fills the gap between two ridge samples by recursive midpoint
/// displacement: the midpoint takes the endpoints' mean plus a small random
/// displacement, then each half is filled the same way. Everything written
/// stays within the hull that [`spec_ridge_floor`] and [`spec_ridge_ceil`]
/// give for the endpoints' own bounds.
fn gen_fract(
    height: &mut Vec<i64>,
    i0: usize,
    i1: usize,
    rng: &mut ChaCha8Rng,
    Ghost(lo0): Ghost<int>,
    Ghost(hi0): Ghost<int>,
    Ghost(lo1): Ghost<int>,
    Ghost(hi1): Ghost<int>,
)
    requires
        i0 < i1 < old(height).len(),
        i1 <= 0x1000_0000,
        i1 - i0 == 1 || i1 - i0 == 2 || i1 - i0 == 4,
        lo0 <= hi0,
        lo1 <= hi1,
        -1_000_000 + (i1 - i0) * RIDGE_JITTER <= lo0,
        hi0 <= 1_000_000 - (i1 - i0) * RIDGE_JITTER,
        -1_000_000 + (i1 - i0) * RIDGE_JITTER <= lo1,
        hi1 <= 1_000_000 - (i1 - i0) * RIDGE_JITTER,
        lo0 <= old(height)[i0 as int] <= hi0,
        lo1 <= old(height)[i1 as int] <= hi1,
    ensures
        final(height).len() == old(height).len(),
        forall|k: int|
            0 <= k < old(height).len() && !(i0 <= k < i1) ==> final(height)[k] == old(height)[k],
        forall|k: int|
            i0 <= k < i1 ==> spec_ridge_floor(lo0, lo1, (i1 - i0) as int)
                <= #[trigger] final(height)[k] <= spec_ridge_ceil(hi0, hi1, (i1 - i0) as int),
    decreases i1 - i0,
{
    let ghost n = (i1 - i0) as int;
    let ghost mlo = (lo0 + lo1) / 2 - RIDGE_JITTER;
    let ghost mhi = (hi0 + hi1) / 2 + RIDGE_JITTER - 1;
    let h0 = height[i0];
    let h1 = height[i1];
    proof {
        // The endpoints' mean is monotone in the endpoints.
        lemma_div_is_ordered(lo0 + lo1, h0 + h1, 2);
        lemma_div_is_ordered(h0 + h1, hi0 + hi1, 2);
    }
    let im = (i0 + i1) / 2;
    let mid = (h0 + h1).checked_div_euclid(2).unwrap() + draw_in_range(
        rng,
        -RIDGE_JITTER,
        RIDGE_JITTER,
    );
    height[im] = mid;
    if i1 > i0 + 1 {
        proof {
            // The midpoint's bounds lie inside the belt the halves need:
            // one level of recursion spends one jitter of the margin.
            lemma_div_is_ordered(2 * (-1_000_000 + n * RIDGE_JITTER), lo0 + lo1, 2);
            lemma_div_is_ordered(hi0 + hi1, 2 * (1_000_000 - n * RIDGE_JITTER), 2);
            lemma_div_multiples_vanish(-1_000_000 + n * RIDGE_JITTER, 2);
            lemma_div_multiples_vanish(1_000_000 - n * RIDGE_JITTER, 2);
            lemma_div_is_ordered(lo0 + lo1, hi0 + hi1, 2);
        }
        gen_fract(height, i0, im, rng, Ghost(lo0), Ghost(hi0), Ghost(mlo), Ghost(mhi));
        gen_fract(height, im, i1, rng, Ghost(mlo), Ghost(mhi), Ghost(lo1), Ghost(hi1));
        proof {
            // The whole gap's hull covers what either half can write.
            assert(spec_ridge_floor(lo0, lo1, n) <= spec_ridge_floor(lo0, mlo, n / 2)
                && spec_ridge_floor(lo0, lo1, n) <= spec_ridge_floor(mlo, lo1, n / 2));
            assert(spec_ridge_ceil(hi0, hi1, n) >= spec_ridge_ceil(hi0, mhi, n / 2)
                && spec_ridge_ceil(hi0, hi1, n) >= spec_ridge_ceil(mhi, hi1, n / 2));
        }
    }
}

/// The hull of a whole segment whose anchors lie in `[RIDGE_MIN, RIDGE_MAX)`
/// is `[RIDGE_FLOOR, RIDGE_CEIL]`: the worst write is a gap-one midpoint
/// whose endpoints have already drifted one and five quarters jitters.
proof fn lemma_ridge_hull()
    ensures
        spec_ridge_floor(RIDGE_MIN as int, RIDGE_MIN as int, 4) == RIDGE_FLOOR,
        spec_ridge_ceil(RIDGE_MAX - 1, RIDGE_MAX - 1, 4) == RIDGE_CEIL,
{
    assert(spec_ridge_floor(200_000, 170_000, 1) == 165_000);
    assert(spec_ridge_floor(170_000, 180_000, 1) == 155_000);
    assert(spec_ridge_floor(180_000, 170_000, 1) == 155_000);
    assert(spec_ridge_floor(170_000, 200_000, 1) == 165_000);
    assert(spec_ridge_floor(200_000, 180_000, 2) == 155_000);
    assert(spec_ridge_floor(180_000, 200_000, 2) == 155_000);
    assert(spec_ridge_floor(200_000, 200_000, 4) == 155_000);
    assert(spec_ridge_ceil(299_999, 329_997, 1) == 334_997);
    assert(spec_ridge_ceil(329_997, 319_998, 1) == 344_996);
    assert(spec_ridge_ceil(319_998, 329_997, 1) == 344_996);
    assert(spec_ridge_ceil(329_997, 299_999, 1) == 334_997);
    assert(spec_ridge_ceil(299_999, 319_998, 2) == 344_996);
    assert(spec_ridge_ceil(319_998, 299_999, 2) == 344_996);
    assert(spec_ridge_ceil(299_999, 299_999, 4) == 344_996);
}

/// Generates one layer's ridge: anchor heights every four samples, the gaps
/// filled by midpoint displacement, and the ridge closed so that it tiles
/// seamlessly across the wrap (the last gap interpolates back to the first
/// anchor). Every height stays within `[RIDGE_FLOOR, RIDGE_CEIL]`, the
/// anchors' range widened by the displacement levels' worst drift.
pub fn create_mountain_heights(rng: &mut ChaCha8Rng) -> (r: Vec<i64>)
    ensures
        r.len() == NUM_SAMPLES,
        forall|k: int| 0 <= k < r.len() ==> RIDGE_FLOOR <= #[trigger] r[k] <= RIDGE_CEIL,
{
    let mut height: Vec<i64> = Vec::new();
    let mut i: usize = 0;
    while i < NUM_SAMPLES + 1
        invariant
            height.len() == i,
            i <= NUM_SAMPLES + 1,
        decreases NUM_SAMPLES + 1 - i,
    {
        height.push(0);
        i = i + 1;
    }
    let mut a: usize = 0;
    while a < NUM_SAMPLES
        invariant
            height.len() == NUM_SAMPLES + 1,
            a <= NUM_SAMPLES,
            a % 4 == 0,
            forall|k: int|
                0 <= k < a && k % 4 == 0 ==> RIDGE_MIN <= #[trigger] height[k] < RIDGE_MAX,
        decreases NUM_SAMPLES - a,
    {
        let v = draw_in_range(rng, RIDGE_MIN, RIDGE_MAX);
        height[a] = v;
        a = a + 4;
    }
    let first = height[0];
    height[NUM_SAMPLES] = first;
    let mut seg: usize = 0;
    while seg < NUM_SAMPLES
        invariant
            height.len() == NUM_SAMPLES + 1,
            seg <= NUM_SAMPLES,
            seg % 4 == 0,
            forall|k: int|
                seg <= k <= NUM_SAMPLES && k % 4 == 0 ==> RIDGE_MIN <= #[trigger] height[k]
                    < RIDGE_MAX,
            forall|k: int| 0 <= k < seg ==> RIDGE_FLOOR <= #[trigger] height[k] <= RIDGE_CEIL,
        decreases NUM_SAMPLES - seg,
    {
        proof {
            assert((seg + 4) % 4 == 0) by (nonlinear_arith)
                requires
                    seg as int % 4 == 0,
            ;
            lemma_ridge_hull();
        }
        gen_fract(
            &mut height,
            seg,
            seg + 4,
            rng,
            Ghost(RIDGE_MIN as int),
            Ghost(RIDGE_MAX - 1),
            Ghost(RIDGE_MIN as int),
            Ghost(RIDGE_MAX - 1),
        );
        seg = seg + 4;
    }
    let _ = height.pop();
    height
}

/// The screen x a mountain layer is drawn at this tick: the viewpoint,
/// scaled by the layer's speed, slid back onto the layer's own wrap-around
/// span and shifted so the strip covers the whole view.
pub fn mountain_screen_x(mountains: &Moutains, viewpoint: &Viewpoint) -> (r: i64)
    requires
        0 < mountains.speed <= SCALE,
        viewpoint.wf(),
    ensures
        ({
            let span = PLAYFIELD_WIDTH as int * mountains.speed as int / (SCALE as int);
            r == (0 - viewpoint.position as int * mountains.speed as int / (SCALE as int)) % span
                - span - span / 2
        }),
{
    let span = mul_fx(PLAYFIELD_WIDTH, mountains.speed);
    proof {
        assert(1 <= PLAYFIELD_WIDTH as int * mountains.speed as int / (SCALE as int)
            <= PLAYFIELD_WIDTH as int) by (nonlinear_arith)
            requires
                0 < mountains.speed as int <= SCALE as int,
                PLAYFIELD_WIDTH as int == 8_000_000,
                SCALE as int == 1_000_000,
        ;
        assert(0 <= viewpoint.position as int * mountains.speed as int / (SCALE as int)
            <= PLAYFIELD_WIDTH as int) by (nonlinear_arith)
            requires
                0 <= (viewpoint.position as int) < (PLAYFIELD_WIDTH as int),
                0 < mountains.speed as int <= SCALE as int,
                PLAYFIELD_WIDTH as int == 8_000_000,
                SCALE as int == 1_000_000,
        ;
    }
    let scrolled = mul_fx(viewpoint.position, mountains.speed);
    wrap(0 - scrolled, span) - span - span / 2
}

} // verus!
