//! The root finder.

use lunar_calendar::newton::{newton_iteration, newton_step, NewtonStep, DELTA, EPSILON};
use lunar_calendar::types::{CalendarError, EphemerisFailure};

const DAY: f64 = 86_400_000_000.0;
const UNIT: f64 = 1_000_000_000.0;

#[test]
fn test_newton_iteration() {
    // f(x) = x^2 + x - 1, whose root in [0, 1] is (sqrt(5) - 1) / 2; x is in
    // days.
    let fx = |at: i64| {
        let x = at as f64 / DAY;
        Ok(((x * x + x - 1.0) * UNIT).round() as i64)
    };

    let y = newton_iteration(0, fx);
    assert!(y.is_ok());

    let x = (-1.0 + 5.0_f64.sqrt()) / 2.0;
    let epsilon = 1e-7;
    let d = (x - y.unwrap() as f64 / DAY).abs();
    assert!(d < epsilon, "root of x^2+x-1 in [0,1]: error {}>={}", d, epsilon);
}

#[test]
fn the_constants_are_the_stated_fractions_of_a_day() {
    assert_eq!(EPSILON as f64 / DAY, 1e-7);
    assert_eq!(DELTA as f64 / DAY, 5e-6);
}

#[test]
fn a_step_divides_the_residual_by_the_slope() {
    // Residuals -2_000_000 at 0 and -1_136_000 a step later: the slope is
    // 864_000 per step of 432_000, that is 2, and the correction -1_000_000.
    assert_eq!(newton_step(0, -2_000_000, -1_136_000), NewtonStep::Next(1_000_000));
    assert_eq!(newton_step(5_000_000, 2_000_000, 2_864_000), NewtonStep::Next(4_000_000));
    // A falling residual sends the iterate the other way.
    assert_eq!(newton_step(0, 2_000_000, 1_136_000), NewtonStep::Next(1_000_000));
    assert_eq!(newton_step(0, -2_000_000, -2_864_000), NewtonStep::Next(-1_000_000));
}

#[test]
fn a_step_rounds_the_correction_toward_zero() {
    // 7 * 432_000 / 1_000_000 = 3.024 and -3.024.
    assert_eq!(newton_step(100_000, 70_000_000, 1_070_000_000), NewtonStep::Next(100_000 - 30_240));
    assert_eq!(newton_step(100_000, 7, 1_000_007), NewtonStep::Converged);
    assert_eq!(
        newton_step(100_000, -70_000_000, 930_000_000),
        NewtonStep::Next(100_000 + 30_240)
    );
    // 20_001 * 432_000 / 1_000_000 = 8640.432, within the tolerance once
    // rounded.
    assert_eq!(newton_step(0, 20_001, 1_020_001), NewtonStep::Converged);
    assert_eq!(newton_step(0, -20_001, 979_999), NewtonStep::Converged);
    // 20_003 * 432_000 / 1_000_000 = 8641.296 is not.
    assert_eq!(newton_step(0, 20_003, 1_020_003), NewtonStep::Next(-8641));
}

#[test]
fn a_step_stalls_without_a_slope_or_out_of_the_domain() {
    assert_eq!(newton_step(0, 5, 5), NewtonStep::Stalled);
    assert_eq!(newton_step(0, 0, 0), NewtonStep::Stalled);
    assert_eq!(newton_step(0, i64::MAX, i64::MAX - 1), NewtonStep::Stalled);
    // The widest residuals still give a step: -2^63 * 432_000 / (2^64 - 1).
    assert_eq!(newton_step(0, i64::MIN, i64::MAX), NewtonStep::Next(216_000));
}

#[test]
fn a_linear_residual_is_solved_in_one_step() {
    let r = newton_iteration(0, |x: i64| Ok::<i64, String>(2 * (x - 1_000_000)));
    assert_eq!(r, Ok(1_000_000));
    let r = newton_iteration(123_456_789, |x: i64| Ok::<i64, String>(-3 * (x + 77)));
    assert_eq!(r, Ok(-77));
}

#[test]
fn the_answer_is_the_iterate_at_which_the_correction_is_small() {
    // From 1_008_000 the correction is 8_000, within the tolerance: the
    // iterate itself is returned, not the corrected one.
    let r = newton_iteration(1_008_000, |x: i64| Ok::<i64, String>(2 * (x - 1_000_000)));
    assert_eq!(r, Ok(1_008_000));
    let r = newton_iteration(1_008_641, |x: i64| Ok::<i64, String>(2 * (x - 1_000_000)));
    assert_eq!(r, Ok(1_000_000));
}

#[test]
fn a_flat_residual_does_not_converge() {
    let r = newton_iteration(0, |_x: i64| Ok::<i64, String>(5));
    assert_eq!(r, Err(CalendarError::NonConvergence));
}

#[test]
fn iterates_that_go_round_in_a_ring_run_out() {
    // The residual sends 0 to 1_000_000 and 1_000_000 back to 0, for ever.
    let calls = std::cell::Cell::new(0u32);
    let r = newton_iteration(0, |x: i64| {
        calls.set(calls.get() + 1);
        if x < 500_000 {
            Ok::<i64, String>(2 * (x - 1_000_000))
        } else {
            Ok::<i64, String>(2 * x)
        }
    });
    assert_eq!(r, Err(CalendarError::NonConvergence));
    assert_eq!(calls.get(), 2000);
}

#[test]
fn a_guess_out_of_the_domain_is_not_tried() {
    let calls = std::cell::Cell::new(0u32);
    let r = newton_iteration(i64::MAX, |x: i64| {
        calls.set(calls.get() + 1);
        Ok::<i64, String>(x)
    });
    assert_eq!(r, Err(CalendarError::NonConvergence));
    assert_eq!(calls.get(), 0);
}

#[test]
fn a_failure_of_the_residual_ends_the_search() {
    let r = newton_iteration(0, |_x: i64| Err::<i64, String>("no data".to_string()));
    assert_eq!(
        r,
        Err(CalendarError::EphemerisQuery(EphemerisFailure::Reported("no data".to_string())))
    );
    // The second evaluation of an iterate may fail as well.
    let r = newton_iteration(0, |x: i64| {
        if x == 0 {
            Ok(1)
        } else {
            Err("later".to_string())
        }
    });
    assert_eq!(
        r,
        Err(CalendarError::EphemerisQuery(EphemerisFailure::Reported("later".to_string())))
    );
}
