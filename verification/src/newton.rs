//! The root finder: Newton's iteration on a residual that is only known
//! through evaluation, with the slope taken from a forward difference.
//!
//! The finder knows nothing of astronomy. Its argument is an instant; the
//! residual may be in any unit, since only the ratio of two residuals is
//! used.
use vstd::prelude::*;
use crate::types::{CalendarError, EphemerisFailure};
use crate::units::{INSTANT_LIMIT, in_domain, is_in_domain};

verus! {

/// An iterate is accepted when the correction it calls for is no larger
/// than this: a ten-millionth of a day.
pub const EPSILON: i64 = 8_640;

/// Step of the forward difference: five millionths of a day.
pub const DELTA: i64 = 432_000;

/// Number of iterates that may be tried.
pub const MAX_ITERATIONS: u32 = 1000;

/// What the residuals at an iterate call for.
#[derive(Clone, Copy, PartialEq, Eq, Debug, Structural)]
pub enum NewtonStep {
    /// The correction is within `EPSILON`: the iterate is the answer.
    Converged,
    /// Go on from this iterate.
    Next(i64),
    /// The residual has no slope here, or the correction leads out of the
    /// domain of instants.
    Stalled,
}

/// The size of a number.
pub open spec fn magnitude(a: int) -> int {
    if a < 0 {
        -a
    } else {
        a
    }
}

/// The quotient of `a` by `b`, rounded toward zero: the quotient of the
/// sizes, with the sign of the fraction.
pub open spec fn quotient_toward_zero(a: int, b: int) -> int
    recommends
        b != 0,
{
    if (a < 0) != (b < 0) {
        -(magnitude(a) / magnitude(b))
    } else {
        magnitude(a) / magnitude(b)
    }
}

/// Newton's correction at an iterate with residual `fx`, where the residual
/// `DELTA` later is `fx_delta`: the residual divided by the slope
/// `(fx_delta - fx) / DELTA`, rounded toward zero.
pub open spec fn newton_correction(fx: int, fx_delta: int) -> int
    recommends
        fx != fx_delta,
{
    quotient_toward_zero(fx * DELTA, fx_delta - fx)
}

/// One step of the iteration, as a function of the iterate and the two
/// residuals.
pub open spec fn newton_step_spec(x: i64, fx: i64, fx_delta: i64) -> NewtonStep {
    if fx_delta == fx {
        NewtonStep::Stalled
    } else {
        let c = newton_correction(fx as int, fx_delta as int);
        if -EPSILON <= c <= EPSILON {
            NewtonStep::Converged
        } else if in_domain(x - c) {
            NewtonStep::Next((x - c) as i64)
        } else {
            NewtonStep::Stalled
        }
    }
}

/// The iteration from `x` with `fuel` iterates left, for a residual that is
/// the function `phi`: the first iterate whose correction is within
/// `EPSILON`; the residual's own failure, if an evaluation fails first;
/// `NonConvergence` if the iterates run out, stall, or leave the domain.
pub open spec fn newton_from(
    phi: spec_fn(i64) -> Result<i64, String>,
    x: i64,
    fuel: nat,
) -> Result<i64, CalendarError>
    decreases fuel,
{
    if fuel == 0 || !in_domain(x as int) {
        Err(CalendarError::NonConvergence)
    } else {
        match phi(x) {
            Err(e) => Err(CalendarError::EphemerisQuery(EphemerisFailure::Reported(e))),
            Ok(fx) => match phi((x + DELTA) as i64) {
                Err(e) => Err(CalendarError::EphemerisQuery(EphemerisFailure::Reported(e))),
                Ok(fx_delta) => match newton_step_spec(x, fx, fx_delta) {
                    NewtonStep::Converged => Ok(x),
                    NewtonStep::Next(y) => newton_from(phi, y, (fuel - 1) as nat),
                    NewtonStep::Stalled => Err(CalendarError::NonConvergence),
                },
            },
        }
    }
}

/// The whole iteration from a first guess.
pub open spec fn newton_spec(
    phi: spec_fn(i64) -> Result<i64, String>,
    init_value: i64,
) -> Result<i64, CalendarError> {
    newton_from(phi, init_value, MAX_ITERATIONS as nat)
}

/// Whatever `f` returns at an instant is what `phi` gives there: `f`
/// computes the function `phi`.
pub open spec fn residual_is<F: Fn(i64) -> Result<i64, String>>(
    f: &F,
    phi: spec_fn(i64) -> Result<i64, String>,
) -> bool {
    forall|x: i64, r: Result<i64, String>| #[trigger] f.ensures((x,), r) ==> r == phi(x)
}

/// The size of a number, where no overflow can stand in the way.
fn magnitude_of(a: i128) -> (m: u128)
    requires
        a > i128::MIN,
    ensures
        m == magnitude(a as int),
{
    if a < 0 {
        (-a) as u128
    } else {
        a as u128
    }
}

/// At the instant `x`, `f` may give residuals whose correction is within
/// `EPSILON`.
pub open spec fn converges_at<F: Fn(i64) -> Result<i64, String>>(f: &F, x: i64) -> bool {
    exists|fx: i64, fx_delta: i64, later: i64|
        {
            &&& later == x + DELTA
            &&& #[trigger] f.ensures((x,), Ok(fx))
            &&& #[trigger] f.ensures((later,), Ok(fx_delta))
            &&& newton_step_spec(x, fx, fx_delta) == NewtonStep::Converged
        }
}

/// At some instant, `f` may fail with these words.
pub open spec fn fails_with<F: Fn(i64) -> Result<i64, String>>(f: &F, words: String) -> bool {
    exists|x: i64| #[trigger] f.ensures((x,), Err(words))
}

/// One step of the iteration.
pub fn newton_step(x: i64, fx: i64, fx_delta: i64) -> (r: NewtonStep)
    ensures
        r == newton_step_spec(x, fx, fx_delta),
        r matches NewtonStep::Next(y) ==> in_domain(y as int),
{
    if fx_delta == fx {
        return NewtonStep::Stalled;
    }
    assert(-0x8000_0000_0000_0000 * 432_000 <= fx * 432_000 <= 0x7fff_ffff_ffff_ffff * 432_000)
        by (nonlinear_arith)
        requires
            -0x8000_0000_0000_0000 <= fx <= 0x7fff_ffff_ffff_ffff,
    ;
    let num: i128 = fx as i128 * DELTA as i128;
    let den: i128 = fx_delta as i128 - fx as i128;
    let size: u128 = magnitude_of(num) / magnitude_of(den);
    proof {
        crate::units::lemma_floor_quotient_fits(magnitude(num as int), magnitude(den as int));
    }
    let c: i128 = if (num < 0) != (den < 0) {
        -(size as i128)
    } else {
        size as i128
    };
    assert(c == newton_correction(fx as int, fx_delta as int));
    if -(EPSILON as i128) <= c && c <= EPSILON as i128 {
        return NewtonStep::Converged;
    }
    let y: i128 = x as i128 - c;
    if -(INSTANT_LIMIT as i128) <= y && y <= INSTANT_LIMIT as i128 {
        NewtonStep::Next(y as i64)
    } else {
        NewtonStep::Stalled
    }
}

/// Finds a root of the residual `f` near `init_value`.
///
/// From the first guess, each iterate is corrected by the residual over
/// its slope until a correction is within `EPSILON`; the iterate at which
/// that happens is returned. At most `MAX_ITERATIONS` iterates are tried.
/// A failure of `f` ends the search and is handed on.
///
/// The contract is stated for a residual that is a function of the
/// instant: for every `phi` that `f` computes, the result is
/// `newton_spec(phi, init_value)`. Of any residual it says that an answer
/// is an instant at which `f` gave residuals whose correction is within
/// `EPSILON`, and that words of failure are words that `f` gave.
pub fn newton_iteration<F>(init_value: i64, f: F) -> (r: Result<i64, CalendarError>) where
    F: Fn(i64) -> Result<i64, String>,

    requires
        forall|x: i64| f.requires((x,)),
    ensures
        forall|phi: spec_fn(i64) -> Result<i64, String>| #[trigger]
            residual_is(&f, phi) ==> r == newton_spec(phi, init_value),
        r matches Ok(x) ==> in_domain(x as int) && in_domain(init_value as int),
        r matches Ok(x) ==> converges_at(&f, x),
        r matches Err(e) ==> e.from_the_sky(),
        r matches Err(CalendarError::EphemerisQuery(EphemerisFailure::Reported(words)))
            ==> fails_with(&f, words),
{
    let mut x: i64 = init_value;
    let mut i: u32 = 0;
    while i < MAX_ITERATIONS
        invariant
            i <= MAX_ITERATIONS,
            i == 0 ==> x == init_value,
            i > 0 ==> in_domain(init_value as int),
            forall|a: i64| f.requires((a,)),
            forall|phi: spec_fn(i64) -> Result<i64, String>| #[trigger]
                residual_is(&f, phi) ==> newton_spec(phi, init_value) == newton_from(
                    phi,
                    x,
                    (MAX_ITERATIONS - i) as nat,
                ),
        decreases MAX_ITERATIONS - i,
    {
        if !is_in_domain(x) {
            return Err(CalendarError::NonConvergence);
        }
        let fx: i64 = match f(x) {
            Ok(v) => v,
            Err(e) => {
                assert(fails_with(&f, e)) by {
                    assert(f.ensures((x,), Err(e)));
                }
                return Err(CalendarError::EphemerisQuery(EphemerisFailure::Reported(e)));
            },
        };
        let later: i64 = x + DELTA;
        let fx_delta: i64 = match f(later) {
            Ok(v) => v,
            Err(e) => {
                assert(fails_with(&f, e)) by {
                    assert(f.ensures((later,), Err(e)));
                }
                return Err(CalendarError::EphemerisQuery(EphemerisFailure::Reported(e)));
            },
        };
        assert(f.ensures((x,), Ok(fx)));
        assert(f.ensures((later,), Ok(fx_delta)));
        match newton_step(x, fx, fx_delta) {
            NewtonStep::Converged => {
                assert(converges_at(&f, x));
                return Ok(x);
            },
            NewtonStep::Next(y) => {
                x = y;
            },
            NewtonStep::Stalled => {
                return Err(CalendarError::NonConvergence);
            },
        }
        i += 1;
    }
    Err(CalendarError::NonConvergence)
}

} // verus!
