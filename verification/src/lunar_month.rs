//! From new moons to lunar months: each month begins at the midnight, in
//! the civil time zone, of the day on which its new moon falls.
use vstd::prelude::*;
use vstd::arithmetic::div_mod::{
    lemma_add_mod_noop, lemma_fundamental_div_mod, lemma_mod_bound, lemma_mod_multiples_basic,
    lemma_mod_twice, lemma_small_mod, lemma_sub_mod_noop,
};
use crate::types::LunarMonth;
use crate::units::{MICROS_PER_DAY, in_domain, mod_floor};

verus! {

/// From the start of a Julian day, at noon UTC, back to the midnight of the
/// civil time zone before it: twelve hours less the zone's offset. An
/// instant `t` is a civil midnight when `t - MIDNIGHT_PHASE` is a whole
/// number of days.
pub const MIDNIGHT_PHASE: i64 = 14_400_000_000;

/// Time of day, in the civil time zone, at an instant: microseconds since
/// the civil midnight.
pub open spec fn local_time_of_day(jd: int) -> int {
    (jd - MIDNIGHT_PHASE) % (MICROS_PER_DAY as int)
}

/// The civil midnight that begins the civil day of an instant: the latest
/// one not after it.
pub open spec fn local_midnight_spec(jd: int) -> int {
    jd - local_time_of_day(jd)
}

/// The number of the month at a place in the row of months, before any
/// leap month is placed: the first is the eleventh month, and the numbers
/// go round from 12 to 1.
pub open spec fn month_number_spec(index: int) -> int {
    if (index + 11) % 12 == 0 {
        12
    } else {
        (index + 11) % 12
    }
}

/// The month that begins with a new moon, at a place among the fifteen.
pub open spec fn lunar_month_spec(index: int, new_moon: i64) -> LunarMonth {
    LunarMonth {
        num: month_number_spec(index) as u8,
        jd: local_midnight_spec(new_moon as int) as i64,
        is_leap: false,
    }
}

/// The civil midnight that begins the civil day of an instant.
pub fn local_midnight(jd: i64) -> (r: i64)
    requires
        in_domain(jd as int),
    ensures
        r == local_midnight_spec(jd as int),
        r <= jd < r + MICROS_PER_DAY,
{
    let t: i64 = mod_floor(jd - MIDNIGHT_PHASE, MICROS_PER_DAY);
    jd - t
}

/// The number of the month at a place in the row of months.
pub fn month_number(index: usize) -> (r: u8)
    ensures
        r == month_number_spec(index as int),
        1 <= r <= 12,
{
    proof {
        lemma_add_mod_noop(index as int, 11, 12);
        lemma_small_mod(11, 12);
    }
    let n: usize = (index % 12 + 11) % 12;
    if n == 0 {
        12
    } else {
        n as u8
    }
}

/// Builds the fifteen lunar months that begin with fifteen new moons.
///
/// Each month begins at the civil midnight of its new moon's day; the
/// months are numbered from the eleventh, and none is yet a leap month.
pub fn get15_lunar_month_jds(jds: [i64; 15]) -> (r: [LunarMonth; 15])
    requires
        forall|i: int| 0 <= i < 15 ==> in_domain(#[trigger] jds[i] as int),
    ensures
        forall|i: int| 0 <= i < 15 ==> #[trigger] r[i] == lunar_month_spec(i, jds[i]),
        forall|i: int| 0 <= i < 15 ==> (#[trigger] r[i]).wf() && !r[i].is_leap,
{
    let mut months: [LunarMonth; 15] = [LunarMonth { num: 1, jd: 0, is_leap: false };15];
    let mut index: usize = 0;
    while index < 15
        invariant
            index <= 15,
            forall|i: int| 0 <= i < 15 ==> in_domain(#[trigger] jds[i] as int),
            forall|i: int| 0 <= i < index ==> #[trigger] months[i] == lunar_month_spec(i, jds[i]),
            forall|i: int| 0 <= i < index ==> (#[trigger] months[i]).wf() && !months[i].is_leap,
        decreases 15 - index,
    {
        let first_day: i64 = local_midnight(jds[index]);
        months[index] = LunarMonth { num: month_number(index), jd: first_day, is_leap: false };
        index += 1;
    }
    months
}

/// The civil midnight of an instant is a civil midnight, is not after the
/// instant, and is less than a day before it.
pub proof fn lemma_local_midnight(jd: int)
    ensures
        local_midnight_spec(jd) <= jd < local_midnight_spec(jd) + MICROS_PER_DAY,
        local_time_of_day(local_midnight_spec(jd)) == 0,
        0 <= local_time_of_day(jd) < MICROS_PER_DAY,
{
    let d = MICROS_PER_DAY as int;
    let x = jd - MIDNIGHT_PHASE;
    lemma_mod_bound(x, d);
    lemma_sub_mod_noop(x, x % d, d);
    lemma_mod_twice(x, d);
    lemma_sub_mod_noop(x % d, x % d, d);
    assert((x - x % d) % d == 0);
}

/// A civil midnight is its own civil midnight, and no civil midnight lies
/// between an instant and the one that begins its day: of two instants in
/// order, the midnights are in the same order.
pub proof fn lemma_local_midnight_monotone(a: int, b: int)
    requires
        a <= b,
    ensures
        local_midnight_spec(a) <= local_midnight_spec(b),
        local_midnight_spec(local_midnight_spec(a)) == local_midnight_spec(a),
{
    let d = MICROS_PER_DAY as int;
    lemma_local_midnight(a);
    lemma_local_midnight(b);
    lemma_local_midnight(local_midnight_spec(a));
    let xa = a - MIDNIGHT_PHASE;
    let xb = b - MIDNIGHT_PHASE;
    lemma_fundamental_div_mod(xa, d);
    lemma_fundamental_div_mod(xb, d);
    let qa = xa / d;
    let qb = xb / d;
    assert(local_midnight_spec(a) == d * qa + MIDNIGHT_PHASE);
    assert(local_midnight_spec(b) == d * qb + MIDNIGHT_PHASE);
    if qa > qb {
        assert(d * qa >= d * qb + d) by (nonlinear_arith)
            requires
                d > 0,
                qa >= qb + 1,
        ;
    }
}

/// The shortest time from one new moon to the next for which the length
/// of a lunar month is stated: 29.2 days.
pub const SHORTEST_LUNATION: i64 = 2_522_880_000_000;

/// The longest time from one new moon to the next for which the length of
/// a lunar month is stated: 29.9 days.
pub const LONGEST_LUNATION: i64 = 2_583_360_000_000;

/// Where one new moon follows another after 29.2 to 29.9 days, the month
/// that the first begins has 29 or 30 days: so many whole days lie between
/// its first day and the first day of the next month.
pub proof fn lemma_month_length(new_moon: int, next_new_moon: int)
    requires
        SHORTEST_LUNATION <= next_new_moon - new_moon <= LONGEST_LUNATION,
    ensures
        local_midnight_spec(next_new_moon) - local_midnight_spec(new_moon) == 29 * MICROS_PER_DAY
            || local_midnight_spec(next_new_moon) - local_midnight_spec(new_moon) == 30
            * MICROS_PER_DAY,
{
    let d = MICROS_PER_DAY as int;
    lemma_local_midnight(new_moon);
    lemma_local_midnight(next_new_moon);
    let xa = new_moon - MIDNIGHT_PHASE;
    let xb = next_new_moon - MIDNIGHT_PHASE;
    lemma_fundamental_div_mod(xa, d);
    lemma_fundamental_div_mod(xb, d);
    let qa = xa / d;
    let qb = xb / d;
    assert(local_midnight_spec(new_moon) == d * qa + MIDNIGHT_PHASE);
    assert(local_midnight_spec(next_new_moon) == d * qb + MIDNIGHT_PHASE);
    let k = qb - qa;
    assert(d * qb - d * qa == d * k) by (nonlinear_arith)
        requires
            k == qb - qa,
    ;
    if k <= 28 {
        assert(d * k <= d * 28) by (nonlinear_arith)
            requires
                d > 0,
                k <= 28,
        ;
    }
    if k >= 31 {
        assert(d * k >= d * 31) by (nonlinear_arith)
            requires
                d > 0,
                k >= 31,
        ;
    }
    if k == 29 {
        assert(d * k == 29 * d) by (nonlinear_arith)
            requires
                k == 29,
        ;
    }
    if k == 30 {
        assert(d * k == 30 * d) by (nonlinear_arith)
            requires
                k == 30,
        ;
    }
}

/// Month numbers before the leap month is placed: each of the fifteen is
/// one of the twelve, and each follows the one before it round the year.
pub proof fn lemma_month_numbers(index: int)
    requires
        0 <= index,
    ensures
        1 <= month_number_spec(index) <= 12,
        month_number_spec(index + 1) == (if month_number_spec(index) == 12 {
            1
        } else {
            month_number_spec(index) + 1
        }),
        month_number_spec(0) == 11,
{
    lemma_mod_bound(index + 11, 12);
    lemma_add_mod_noop(index + 11, 1, 12);
    lemma_small_mod(1, 12);
    lemma_mod_bound(index + 12, 12);
    let r = (index + 11) % 12;
    if r + 1 < 12 {
        lemma_small_mod((r + 1) as nat, 12);
    } else {
        lemma_mod_multiples_basic(1, 12);
    }
}

} // verus!
