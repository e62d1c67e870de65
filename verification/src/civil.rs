//! Civil time in the civil time zone, eight hours east of UTC.
use vstd::prelude::*;
use vstd::arithmetic::div_mod::{lemma_fundamental_div_mod, lemma_mod_bound};
use crate::ephemeris::{civil_date_callable, civil_date_is};
use crate::lunar_month::{lemma_local_midnight, local_midnight, local_time_of_day};
use crate::types::Calendar;
use crate::units::{
    MICROS_PER_DAY, MICROS_PER_HOUR, MICROS_PER_MINUTE, MICROS_PER_SECOND, in_domain,
};

verus! {

/// The instant at which the Gregorian calendar begins: 0h UTC on
/// 15 October 1582.
pub const GREGORIAN_START: i64 = 198_647_467_200_000_000;

/// From a civil midnight to the noon, at UTC, of the day with the same
/// date: the zone's offset and twelve hours.
pub const MIDNIGHT_TO_NOON: i64 = 72_000_000_000;

/// The calendar by which an instant is dated: Gregorian from the instant
/// at which that calendar begins.
pub open spec fn calendar_at_spec(jd: i64) -> Calendar {
    if jd < GREGORIAN_START {
        Calendar::Julian
    } else {
        Calendar::Gregorian
    }
}

/// The instant whose date at UTC is the civil date of `jd`: noon, at UTC,
/// of the day that has the date of the civil day of `jd`.
pub open spec fn dating_instant(jd: i64) -> i64 {
    (jd - local_time_of_day(jd as int) + MIDNIGHT_TO_NOON) as i64
}

/// Hour, minute and second of a time of day given in microseconds.
pub open spec fn clock_spec(time_of_day: int) -> (u8, u8, u8) {
    (
        (time_of_day / (MICROS_PER_HOUR as int)) as u8,
        ((time_of_day % (MICROS_PER_HOUR as int)) / (MICROS_PER_MINUTE as int)) as u8,
        ((time_of_day % (MICROS_PER_MINUTE as int)) / (MICROS_PER_SECOND as int)) as u8,
    )
}

/// The civil date and time of an instant, where `civil_date` dates
/// instants at UTC: year, month, day, hour, minute, second.
pub open spec fn get_ut8_date_time_from_jd_spec(
    jd: i64,
    civil_date: spec_fn(i64, Calendar) -> (i32, u8, u8),
) -> (i32, u8, u8, u8, u8, u8) {
    let date = civil_date(dating_instant(jd), calendar_at_spec(jd));
    let clock = clock_spec(local_time_of_day(jd as int));
    (date.0, date.1, date.2, clock.0, clock.1, clock.2)
}

/// The calendar by which an instant is dated.
pub fn calendar_at(jd: i64) -> (r: Calendar)
    ensures
        r == calendar_at_spec(jd),
{
    if jd < GREGORIAN_START {
        Calendar::Julian
    } else {
        Calendar::Gregorian
    }
}

/// Hour, minute and second of a time of day given in microseconds; what is
/// left of the second is dropped.
pub fn clock(time_of_day: i64) -> (r: (u8, u8, u8))
    requires
        0 <= time_of_day < MICROS_PER_DAY,
    ensures
        r == clock_spec(time_of_day as int),
        r.0 < 24,
        r.1 < 60,
        r.2 < 60,
        time_of_day - MICROS_PER_SECOND < r.0 * MICROS_PER_HOUR + r.1 * MICROS_PER_MINUTE + r.2
            * MICROS_PER_SECOND <= time_of_day,
{
    let hour: i64 = time_of_day / MICROS_PER_HOUR;
    let in_hour: i64 = time_of_day % MICROS_PER_HOUR;
    let minute: i64 = in_hour / MICROS_PER_MINUTE;
    let in_minute: i64 = in_hour % MICROS_PER_MINUTE;
    let second: i64 = in_minute / MICROS_PER_SECOND;
    proof {
        let t = time_of_day as int;
        lemma_fundamental_div_mod(t, MICROS_PER_HOUR as int);
        lemma_fundamental_div_mod(in_hour as int, MICROS_PER_MINUTE as int);
        lemma_fundamental_div_mod(in_minute as int, MICROS_PER_SECOND as int);
        lemma_mod_bound(in_minute as int, MICROS_PER_SECOND as int);
        // The minute divides the hour, so what is left of the minute is the
        // same whether it is taken from the time of day or from the hour.
        lemma_fundamental_div_mod(t, MICROS_PER_MINUTE as int);
        lemma_mod_bound(t, MICROS_PER_MINUTE as int);
        let q = t / (MICROS_PER_MINUTE as int);
        assert(t == (MICROS_PER_MINUTE as int) * (60 * hour + minute) + in_minute);
        vstd::arithmetic::div_mod::lemma_fundamental_div_mod_converse(
            t,
            MICROS_PER_MINUTE as int,
            60 * hour + minute,
            in_minute as int,
        );
    }
    (hour as u8, minute as u8, second as u8)
}

/// The civil date and time of an instant: year, month, day, hour, minute,
/// second.
///
/// The time of day is reckoned from the instant itself. For the date,
/// `civil_date` is asked once, about noon at UTC of the day that bears
/// the civil date, under the calendar by which the instant is dated.
pub fn get_ut8_date_time_from_jd<C>(jd: i64, civil_date: &C) -> (r: (i32, u8, u8, u8, u8, u8)) where
    C: Fn(i64, Calendar) -> (i32, u8, u8),

    requires
        in_domain(jd as int),
        civil_date_callable(civil_date),
    ensures
        forall|phi: spec_fn(i64, Calendar) -> (i32, u8, u8)| #[trigger]
            civil_date_is(civil_date, phi) ==> r == get_ut8_date_time_from_jd_spec(jd, phi),
        (r.3, r.4, r.5) == clock_spec(local_time_of_day(jd as int)),
        r.3 < 24 && r.4 < 60 && r.5 < 60,
        exists|date: (i32, u8, u8)|
            #![trigger civil_date.ensures((dating_instant(jd), calendar_at_spec(jd)), date)]
            civil_date.ensures((dating_instant(jd), calendar_at_spec(jd)), date) && (r.0, r.1, r.2)
                == date,
{
    proof {
        lemma_local_midnight(jd as int);
    }
    let midnight: i64 = local_midnight(jd);
    let (hour, minute, second) = clock(jd - midnight);
    let (year, month, day) = civil_date(midnight + MIDNIGHT_TO_NOON, calendar_at(jd));
    (year, month, day, hour, minute, second)
}

} // verus!
