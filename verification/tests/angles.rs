//! Folding of angles.

use lunar_calendar::angle::{degnorm, mod180};

const DEGREE: f64 = 1_000_000_000.0;

fn to_units(degrees: f64) -> i64 {
    (degrees * DEGREE).round() as i64
}

fn to_degrees(units: i64) -> f64 {
    units as f64 / DEGREE
}

#[test]
fn test_mod180() {
    let expected = 186.1 - 360.0;
    let d = 186.1;
    let actual = to_degrees(mod180(to_units(d)));
    assert!(
        ((expected - actual) * 3600.0).abs() < 1.0,
        "mod180({})={}, not {}",
        d,
        expected,
        actual
    );

    let expected = -186.1 + 360.0;
    let d = -186.1;
    let actual = to_degrees(mod180(to_units(d)));
    assert!(
        ((expected - actual) * 3600.0).abs() < 1.0,
        "mod180({})={}, not {}",
        d,
        expected,
        actual
    );

    let expected = 186.0 - 360.0;
    let d = 186.0 + 360.0 * 2.0;
    let actual = to_degrees(mod180(to_units(d)));
    assert!(
        ((expected - actual) * 3600.0).abs() < 1.0,
        "mod180({})={}, not {}",
        d,
        expected,
        actual
    );

    let expected = -186.0 + 360.0;
    let d = -186.0 - 360.0 * 2.0;
    let actual = to_degrees(mod180(to_units(d)));
    assert!(
        ((expected - actual) * 3600.0).abs() < 1.0,
        "mod180({})={}, not {}",
        d,
        expected,
        actual
    );
}

#[test]
fn mod180_is_exact() {
    assert_eq!(mod180(186_100_000_000), -173_900_000_000);
    assert_eq!(mod180(-186_100_000_000), 173_900_000_000);
    assert_eq!(mod180(906_000_000_000), -174_000_000_000);
    assert_eq!(mod180(-906_000_000_000), 174_000_000_000);
    assert_eq!(mod180(0), 0);
    assert_eq!(mod180(1), 1);
    assert_eq!(mod180(-1), -1);
}

#[test]
fn mod180_takes_the_upper_end_of_the_half_turn() {
    assert_eq!(mod180(180_000_000_000), 180_000_000_000);
    assert_eq!(mod180(-180_000_000_000), 180_000_000_000);
    assert_eq!(mod180(180_000_000_001), -179_999_999_999);
    assert_eq!(mod180(-179_999_999_999), -179_999_999_999);
    assert_eq!(mod180(540_000_000_000), 180_000_000_000);
}

#[test]
fn mod180_has_period_360_and_folds_once() {
    let turn = 360_000_000_000i64;
    for r in [0i64, 1, -1, 123_456_789_012, -123_456_789_012, 179_999_999_999, 180_000_000_000] {
        for k in [-3i64, -1, 1, 2, 25] {
            assert_eq!(mod180(r + k * turn), mod180(r), "{} + {} turns", r, k);
        }
        let folded = mod180(r);
        assert!(-180_000_000_000 < folded && folded <= 180_000_000_000);
        assert_eq!(mod180(folded), folded);
        assert_eq!(mod180(degnorm(r)), folded);
    }
}

#[test]
fn mod180_holds_at_the_ends_of_the_integers() {
    for r in [i64::MAX, i64::MIN, i64::MAX - 1, i64::MIN + 1] {
        let folded = mod180(r);
        assert!(-180_000_000_000 < folded && folded <= 180_000_000_000);
        assert_eq!((folded as i128 - r as i128).rem_euclid(360_000_000_000), 0);
    }
}

#[test]
fn degnorm_is_exact() {
    assert_eq!(degnorm(0), 0);
    assert_eq!(degnorm(360_000_000_000), 0);
    assert_eq!(degnorm(-1), 359_999_999_999);
    assert_eq!(degnorm(725_000_000_000), 5_000_000_000);
    assert_eq!(degnorm(-255_000_000_000), 105_000_000_000);
}
