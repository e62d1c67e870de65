//! Conversion of a civil date and time to the Chinese lunisolar calendar:
//! lunar year, month and day, the sexagenary labels of year, month, day and
//! double hour, and the two solar terms of the solar month.
//!
//! The dates hang on two kinds of instants in the sky: the solar terms, at
//! which the sun's longitude reaches a multiple of 15 degrees, and the new
//! moons. The library finds them by root finding on longitudes that an
//! ephemeris supplies ([`ephemeris`]), builds lunar months on the new
//! moons, places the leap month, and reads the date of an instant from the
//! result ([`calendar`]).
//!
//! All arithmetic is exact. An instant is a Julian day in whole
//! microseconds, at UTC; an angle is in whole billionths of a degree
//! ([`units`]). Civil time is that of the zone eight hours east of UTC.
pub mod angle;
pub mod calendar;
pub mod civil;
pub mod ephemeris;
pub mod labels;
pub mod leap_month;
pub mod lunar_month;
pub mod names;
pub mod new_moon;
pub mod newton;
pub mod sexagenary;
pub mod solar_term;
pub mod types;
pub mod units;
pub mod validate;

pub use calendar::lunar_calendar;
pub use types::{LunarCalendar, LunarMonth, SolarTerm};
