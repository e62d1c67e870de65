//! What the conversion asks of an ephemeris, and how the answers of an
//! executable ephemeris are spoken of in contracts.
//!
//! The library computes with four services that it does not hold itself:
//! the ecliptic longitude of the sun and the moon at an instant, the
//! Julian day on which a civil date begins, the civil date of an instant,
//! and whether a civil date exists. A caller hands them in as functions.
//! A contract then says what the library returns for every mathematical
//! function that those services compute.
use vstd::prelude::*;
use crate::types::{Body, Calendar};
use crate::validate::validator_is;

verus! {

/// Whatever `f` answers is what `phi` gives: `f` computes the function
/// `phi` from an instant and a body to a longitude, or to the words of a
/// failure.
pub open spec fn longitude_is<L: Fn(i64, Body) -> Result<i64, String>>(
    f: &L,
    phi: spec_fn(i64, Body) -> Result<i64, String>,
) -> bool {
    forall|jd: i64, body: Body, r: Result<i64, String>| #[trigger]
        f.ensures((jd, body), r) ==> r == phi(jd, body)
}

/// `f` computes the function `phi` from a civil date and a calendar to the
/// instant at which that date begins, at 0h UTC.
pub open spec fn julian_day_is<J: Fn(i32, u8, u8, Calendar) -> i64>(
    f: &J,
    phi: spec_fn(i32, u8, u8, Calendar) -> i64,
) -> bool {
    forall|y: i32, m: u8, d: u8, c: Calendar, r: i64| #[trigger]
        f.ensures((y, m, d, c), r) ==> r == phi(y, m, d, c)
}

/// `f` computes the function `phi` from an instant and a calendar to the
/// civil date, at UTC, on which the instant falls: year, month and day.
pub open spec fn civil_date_is<C: Fn(i64, Calendar) -> (i32, u8, u8)>(
    f: &C,
    phi: spec_fn(i64, Calendar) -> (i32, u8, u8),
) -> bool {
    forall|jd: i64, c: Calendar, r: (i32, u8, u8)| #[trigger]
        f.ensures((jd, c), r) ==> r == phi(jd, c)
}

/// `f` may be asked for any longitude.
pub open spec fn longitude_callable<L: Fn(i64, Body) -> Result<i64, String>>(f: &L) -> bool {
    forall|jd: i64, body: Body| f.requires((jd, body))
}

/// `f` may be asked for the beginning of any civil date.
pub open spec fn julian_day_callable<J: Fn(i32, u8, u8, Calendar) -> i64>(f: &J) -> bool {
    forall|y: i32, m: u8, d: u8, c: Calendar| f.requires((y, m, d, c))
}

/// `f` may be asked for the civil date of any instant.
pub open spec fn civil_date_callable<C: Fn(i64, Calendar) -> (i32, u8, u8)>(f: &C) -> bool {
    forall|jd: i64, c: Calendar| f.requires((jd, c))
}

/// `f` may be asked about any civil date.
pub open spec fn validator_callable<V: Fn(i32, u8, u8, u8, u8, u8, Calendar) -> bool>(
    f: &V,
) -> bool {
    forall|y: i32, m: u8, d: u8, h: u8, mi: u8, s: u8, c: Calendar|
        f.requires((y, m, d, h, mi, s, c))
}

/// The four services of an ephemeris, as mathematical functions.
pub struct Oracle {
    /// Whether the month of a year has such a day, under a calendar; the
    /// year is counted as astronomers do, and hour, minute and second
    /// are handed on with the date.
    pub date_exists: spec_fn(i32, u8, u8, u8, u8, u8, Calendar) -> bool,
    /// The instant at which a civil date begins, at 0h UTC.
    pub julian_day: spec_fn(i32, u8, u8, Calendar) -> i64,
    /// The civil date, at UTC, on which an instant falls.
    pub civil_date: spec_fn(i64, Calendar) -> (i32, u8, u8),
    /// The ecliptic longitude of a body at an instant, or the words of a
    /// failure.
    pub longitude: spec_fn(i64, Body) -> Result<i64, String>,
}

/// The four services of an ephemeris, as functions that can be called.
pub struct Ephemeris<V, J, C, L> {
    pub date_exists: V,
    pub julian_day: J,
    pub civil_date: C,
    pub longitude: L,
}

impl<V, J, C, L> Ephemeris<V, J, C, L> where
    V: Fn(i32, u8, u8, u8, u8, u8, Calendar) -> bool,
    J: Fn(i32, u8, u8, Calendar) -> i64,
    C: Fn(i64, Calendar) -> (i32, u8, u8),
    L: Fn(i64, Body) -> Result<i64, String>,
 {
    /// Each service may be asked anything.
    pub open spec fn callable(&self) -> bool {
        &&& validator_callable(&self.date_exists)
        &&& julian_day_callable(&self.julian_day)
        &&& civil_date_callable(&self.civil_date)
        &&& longitude_callable(&self.longitude)
    }

    /// Each service computes the function of the same name of `oracle`.
    pub open spec fn computes(&self, oracle: Oracle) -> bool {
        &&& validator_is(&self.date_exists, oracle.date_exists)
        &&& julian_day_is(&self.julian_day, oracle.julian_day)
        &&& civil_date_is(&self.civil_date, oracle.civil_date)
        &&& longitude_is(&self.longitude, oracle.longitude)
    }
}

} // verus!
