//! Angles on the circle: folding a difference of longitudes into the half
//! open interval from -180 to +180 degrees, and into one turn from zero.
use vstd::prelude::*;
use vstd::arithmetic::div_mod::{
    lemma_add_mod_noop, lemma_fundamental_div_mod, lemma_mod_bound, lemma_mod_multiples_basic,
    lemma_mod_twice, lemma_sub_mod_noop,
};
use crate::units::{FULL_TURN, HALF_TURN, mod_floor};

verus! {

/// The angle in `[0, 360)` degrees that differs from `r` by whole turns.
pub open spec fn norm360(r: int) -> int {
    r % (FULL_TURN as int)
}

/// The angle in `(-180, 180]` degrees that differs from `r` by whole turns.
pub open spec fn wrap180(r: int) -> int {
    if norm360(r) > HALF_TURN {
        norm360(r) - FULL_TURN
    } else {
        norm360(r)
    }
}

/// Folds an angle into `(-180, 180]` degrees.
pub fn mod180(r0: i64) -> (r: i64)
    ensures
        r == wrap180(r0 as int),
        -HALF_TURN < r <= HALF_TURN,
        (r - r0) % (FULL_TURN as int) == 0,
{
    proof {
        lemma_wrap180_range(r0 as int);
    }
    let m: i64 = mod_floor(r0, FULL_TURN);
    if m > HALF_TURN {
        m - FULL_TURN
    } else {
        m
    }
}

/// Folds an angle into `[0, 360)` degrees.
pub fn degnorm(x: i64) -> (r: i64)
    ensures
        r == norm360(x as int),
        0 <= r < FULL_TURN,
        (r - x) % (FULL_TURN as int) == 0,
{
    proof {
        lemma_norm360_range(x as int);
    }
    mod_floor(x, FULL_TURN)
}

/// `norm360` lands in `[0, 360)` degrees and moves its argument by whole
/// turns only.
pub proof fn lemma_norm360_range(r: int)
    ensures
        0 <= norm360(r) < FULL_TURN,
        (norm360(r) - r) % (FULL_TURN as int) == 0,
{
    let t = FULL_TURN as int;
    lemma_mod_bound(r, t);
    lemma_sub_mod_noop(r % t, r, t);
    lemma_mod_twice(r, t);
    lemma_sub_mod_noop(r, r, t);
}

/// `wrap180` lands in `(-180, 180]` degrees and moves its argument by whole
/// turns only.
pub proof fn lemma_wrap180_range(r: int)
    ensures
        -HALF_TURN < wrap180(r) <= HALF_TURN,
        (wrap180(r) - r) % (FULL_TURN as int) == 0,
{
    let t = FULL_TURN as int;
    lemma_norm360_range(r);
    if norm360(r) > HALF_TURN {
        lemma_whole_turns(norm360(r) - r, -1);
    }
}

/// Adding whole turns to a multiple of a turn leaves a multiple of a turn,
/// and changes no residue.
proof fn lemma_whole_turns(x: int, k: int)
    ensures
        (x + k * FULL_TURN) % (FULL_TURN as int) == x % (FULL_TURN as int),
{
    let t = FULL_TURN as int;
    lemma_add_mod_noop(x, k * t, t);
    lemma_mod_multiples_basic(k, t);
    lemma_mod_twice(x, t);
}

/// The fold has period 360 degrees: whole turns added to the argument do
/// not show in the result.
pub proof fn lemma_wrap180_periodic(r: int, k: int)
    ensures
        wrap180(r + k * FULL_TURN) == wrap180(r),
        norm360(r + k * FULL_TURN) == norm360(r),
{
    lemma_whole_turns(r, k);
}

/// Folding twice is folding once, in either order of the two folds.
pub proof fn lemma_wrap180_idempotent(r: int)
    ensures
        wrap180(wrap180(r)) == wrap180(r),
        wrap180(norm360(r)) == wrap180(r),
        norm360(wrap180(r)) == norm360(r),
        norm360(norm360(r)) == norm360(r),
{
    let t = FULL_TURN as int;
    lemma_norm360_range(r);
    lemma_mod_twice(r, t);
    if norm360(r) > HALF_TURN {
        lemma_whole_turns(norm360(r), -1);
    }
}

/// The fold is the only angle in `(-180, 180]` degrees that differs from
/// `r` by whole turns.
pub proof fn lemma_wrap180_unique(r: int, v: int)
    requires
        -HALF_TURN < v <= HALF_TURN,
        (v - r) % (FULL_TURN as int) == 0,
    ensures
        v == wrap180(r),
{
    let t = FULL_TURN as int;
    lemma_wrap180_range(r);
    let w = wrap180(r);
    // v - w is a multiple of a turn, and smaller than a turn in size.
    let a = v - r;
    let b = w - r;
    lemma_fundamental_div_mod(a, t);
    lemma_fundamental_div_mod(b, t);
    let qa = a / t;
    let qb = b / t;
    assert(a == t * qa);
    assert(b == t * qb);
    assert(v - w == t * (qa - qb)) by (nonlinear_arith)
        requires
            v - r == t * qa,
            w - r == t * qb,
    ;
    if qa - qb >= 1 {
        assert(t * (qa - qb) >= t) by (nonlinear_arith)
            requires
                t > 0,
                qa - qb >= 1,
        ;
    }
    if qa - qb <= -1 {
        assert(t * (qa - qb) <= -t) by (nonlinear_arith)
            requires
                t > 0,
                qa - qb <= -1,
        ;
    }
}

/// Folding a difference is the same whichever representative of either
/// angle is taken.
pub proof fn lemma_wrap180_difference(a: int, b: int)
    ensures
        wrap180(norm360(a) - b) == wrap180(a - b),
        wrap180(a - norm360(b)) == wrap180(a - b),
        wrap180(norm360(a - b)) == wrap180(a - b),
        norm360(norm360(a) - b) == norm360(a - b),
        norm360(a - norm360(b)) == norm360(a - b),
{
    let t = FULL_TURN as int;
    lemma_sub_mod_noop(a, b, t);
    lemma_sub_mod_noop(a % t, b, t);
    lemma_sub_mod_noop(a, b % t, t);
    lemma_mod_twice(a, t);
    lemma_mod_twice(b, t);
    lemma_mod_twice(a - b, t);
}

} // verus!
