//! Fixed-point units. An instant is a Julian day held as whole microseconds
//! since the Julian epoch, in UTC; an angle is held as whole billionths of a
//! degree. Both are `i64`, so that every comparison and every difference is
//! exact.
use vstd::prelude::*;

verus! {

pub const MICROS_PER_SECOND: i64 = 1_000_000;

pub const MICROS_PER_MINUTE: i64 = 60_000_000;

pub const MICROS_PER_HOUR: i64 = 3_600_000_000;

pub const MICROS_PER_DAY: i64 = 86_400_000_000;

/// One degree, in angle units.
pub const DEGREE: i64 = 1_000_000_000;

/// 180 degrees, in angle units.
pub const HALF_TURN: i64 = 180_000_000_000;

/// 360 degrees, in angle units.
pub const FULL_TURN: i64 = 360_000_000_000;

/// Offset of the civil time zone from UTC: eight hours east.
pub const ZONE_OFFSET: i64 = 28_800_000_000;

/// Instants further than this from the Julian epoch are outside the domain
/// of the library (some 126 000 years either way), which leaves room to add
/// days and months to an instant without overflow.
pub const INSTANT_LIMIT: i64 = 4_000_000_000_000_000_000;

/// The instant lies within the domain of the library.
pub open spec fn in_domain(x: int) -> bool {
    -INSTANT_LIMIT <= x <= INSTANT_LIMIT
}

pub fn is_in_domain(x: i64) -> (r: bool)
    ensures
        r == in_domain(x as int),
{
    -INSTANT_LIMIT <= x && x <= INSTANT_LIMIT
}

/// Quotient rounded down, for a positive divisor.
pub fn div_floor(a: i64, b: i64) -> (q: i64)
    requires
        b > 0,
    ensures
        q == (a as int) / (b as int),
{
    proof {
        vstd::arithmetic::div_mod::lemma_fundamental_div_mod(a as int, b as int);
        vstd::arithmetic::div_mod::lemma_mod_bound(a as int, b as int);
        lemma_floor_quotient_fits(a as int, b as int);
    }
    match a.checked_div_euclid(b) {
        Some(q) => q,
        None => 0,
    }
}

/// Remainder of the quotient rounded down, for a positive divisor: in
/// `0..b`.
pub fn mod_floor(a: i64, b: i64) -> (m: i64)
    requires
        b > 0,
    ensures
        m == (a as int) % (b as int),
        0 <= m < b,
{
    proof {
        vstd::arithmetic::div_mod::lemma_mod_bound(a as int, b as int);
    }
    match a.checked_rem_euclid(b) {
        Some(m) => m,
        None => 0,
    }
}

/// Dividing by a positive number brings a number no further from zero than
/// it was, or to -1.
pub proof fn lemma_floor_quotient_fits(a: int, b: int)
    requires
        b > 0,
    ensures
        a >= 0 ==> 0 <= a / b <= a,
        a < 0 ==> a <= a / b < 0,
{
    vstd::arithmetic::div_mod::lemma_fundamental_div_mod(a, b);
    vstd::arithmetic::div_mod::lemma_mod_bound(a, b);
    let q = a / b;
    let r = a % b;
    assert(a == b * q + r);
    if a >= 0 {
        if q < 0 {
            assert(b * q <= -b) by (nonlinear_arith)
                requires
                    b > 0,
                    q <= -1,
            ;
        }
        if q > a {
            assert(b * q >= q) by (nonlinear_arith)
                requires
                    b >= 1,
                    q >= 0,
            ;
        }
    } else {
        if q >= 0 {
            assert(b * q >= 0) by (nonlinear_arith)
                requires
                    b > 0,
                    q >= 0,
            ;
        }
        if q < a {
            assert(b * (q + 1) <= q + 1 && b * (q + 1) == b * q + b) by (nonlinear_arith)
                requires
                    b >= 1,
                    q + 1 <= 0,
            ;
        }
    }
}

} // verus!
