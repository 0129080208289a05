//! Fixed-point angles and circular functions. An angle is an `i64` count of
//! micro-radians, with a full turn defined as exactly eight octants of
//! [`PI_4_FX`]; sine and cosine are piecewise-linear between the exact
//! values at the octant boundaries (the eight compass directions), which is
//! all the precision the steering and effect sampling ask for.

use vstd::prelude::*;
use crate::SCALE;
use crate::playfield::wrap;

verus! {

/// An eighth of a turn (45 degrees), in micro-radians.
pub const PI_4_FX: i64 = 785_398;

/// A quarter turn (90 degrees), in micro-radians.
pub const PI_2_FX: i64 = 1_570_796;

/// A half turn (180 degrees), in micro-radians.
pub const PI_FX: i64 = 3_141_592;

/// A full turn (360 degrees), in micro-radians: exactly eight octants.
pub const TAU_FX: i64 = 6_283_184;

/// `sin(45 degrees)` in fixed point.
pub const SIN_45_FX: i64 = 707_107;

/// Sine at the start of octant `k`, exact at every compass direction.
pub open spec fn spec_sin_anchor(k: int) -> int {
    let j = k % 8;
    if j == 0 {
        0
    } else if j == 1 {
        SIN_45_FX as int
    } else if j == 2 {
        SCALE as int
    } else if j == 3 {
        SIN_45_FX as int
    } else if j == 4 {
        0
    } else if j == 5 {
        -SIN_45_FX as int
    } else if j == 6 {
        -SCALE as int
    } else {
        -SIN_45_FX as int
    }
}

/// Sine of an angle in `[0, TAU_FX)`: linear interpolation between the
/// anchors of the octant the angle falls in.
pub open spec fn spec_sin(a: int) -> int {
    let k = a / (PI_4_FX as int);
    let t = a % (PI_4_FX as int);
    let s0 = spec_sin_anchor(k);
    let s1 = spec_sin_anchor(k + 1);
    s0 + (s1 - s0) * t / (PI_4_FX as int)
}

/// Cosine of an angle in `[0, TAU_FX)`: sine shifted by a quarter turn.
pub open spec fn spec_cos(a: int) -> int {
    spec_sin((a + PI_2_FX) % (TAU_FX as int))
}

/// A value linearly interpolated between two endpoints stays between them.
pub proof fn lemma_interp_bound(s0: int, s1: int, t: int, p: int)
    requires
        0 <= t < p,
        0 < p,
    ensures
        s0 <= s1 ==> s0 <= s0 + (s1 - s0) * t / p <= s1,
        s1 <= s0 ==> s1 <= s0 + (s1 - s0) * t / p <= s0,
{
    assert((s0 <= s1 ==> 0 <= (s1 - s0) * t / p <= s1 - s0) && (s1 <= s0 ==> s1 - s0 <= (s1 - s0)
        * t / p <= 0)) by (nonlinear_arith)
        requires
            0 <= t < p,
            0 < p,
    ;
}

/// The piecewise-linear sine never leaves `[-SCALE, SCALE]`.
pub proof fn lemma_sin_bound(a: int)
    requires
        0 <= a < TAU_FX,
    ensures
        -SCALE <= spec_sin(a) <= SCALE,
{
    let p = PI_4_FX as int;
    let k = a / p;
    let t = a % p;
    assert(0 <= k < 8 && 0 <= t < p) by (nonlinear_arith)
        requires
            0 <= a < TAU_FX as int,
            k == a / p,
            t == a % p,
            p == PI_4_FX as int,
            TAU_FX as int == 8 * p,
    ;
    lemma_interp_bound(spec_sin_anchor(k), spec_sin_anchor(k + 1), t, p);
}

/// And neither does the cosine.
pub proof fn lemma_cos_bound(a: int)
    requires
        0 <= a < TAU_FX,
    ensures
        -SCALE <= spec_cos(a) <= SCALE,
{
    let shifted = (a + PI_2_FX) % (TAU_FX as int);
    vstd::arithmetic::div_mod::lemma_mod_bound(a + PI_2_FX, TAU_FX as int);
    lemma_sin_bound(shifted);
}

/// Sine at the start of octant `k`, as executable code.
fn sin_anchor(k: i64) -> (r: i64)
    requires
        0 <= k <= 8,
    ensures
        r == spec_sin_anchor(k as int),
{
    proof {
        if k == 8 {
            assert(8int % 8 == 0);
        } else {
            vstd::arithmetic::div_mod::lemma_small_mod(k as nat, 8);
        }
    }
    if k == 0 {
        0
    } else if k == 1 {
        SIN_45_FX
    } else if k == 2 {
        SCALE
    } else if k == 3 {
        SIN_45_FX
    } else if k == 4 {
        0
    } else if k == 5 {
        -SIN_45_FX
    } else if k == 6 {
        -SCALE
    } else if k == 7 {
        -SIN_45_FX
    } else {
        0
    }
}

/// Piecewise-linear sine of an angle in `[0, TAU_FX)` micro-radians.
pub fn fixed_sin(a: i64) -> (r: i64)
    requires
        0 <= a < TAU_FX,
    ensures
        r == spec_sin(a as int),
        -SCALE <= r <= SCALE,
{
    let k = a / PI_4_FX;
    let t = a % PI_4_FX;
    let s0 = sin_anchor(k);
    let s1 = sin_anchor(k + 1);
    proof {
        assert(0 <= k < 8 && 0 <= t < PI_4_FX as int) by (nonlinear_arith)
            requires
                0 <= (a as int) < (TAU_FX as int),
                k == a as int / (PI_4_FX as int),
                t == a as int % (PI_4_FX as int),
                TAU_FX as int == 8 * (PI_4_FX as int),
                PI_4_FX as int > 0,
        ;
        lemma_interp_bound(s0 as int, s1 as int, t as int, PI_4_FX as int);
        lemma_sin_bound(a as int);
        assert(-0x4000_0000_0000_0000 <= (s1 - s0) as int * t as int <= 0x4000_0000_0000_0000)
            by (nonlinear_arith)
            requires
                -2_000_000 <= (s1 - s0) as int <= 2_000_000,
                0 <= (t as int) < (PI_4_FX as int),
                PI_4_FX as int == 785_398,
        ;
    }
    let num = (s1 - s0) * t;
    s0 + num.checked_div_euclid(PI_4_FX).unwrap()
}

/// Piecewise-linear cosine of an angle in `[0, TAU_FX)` micro-radians.
pub fn fixed_cos(a: i64) -> (r: i64)
    requires
        0 <= a < TAU_FX,
    ensures
        r == spec_cos(a as int),
        -SCALE <= r <= SCALE,
{
    let shifted = wrap(a + PI_2_FX, TAU_FX);
    fixed_sin(shifted)
}

} // verus!
