//! The data that passes between the components, and the ways a conversion
//! can fail.
use vstd::prelude::*;
use crate::sexagenary::GanZhi;

verus! {

/// A body whose ecliptic longitude the ephemeris is asked for.
#[derive(Clone, Copy, PartialEq, Eq, Debug, Structural)]
pub enum Body {
    Sun,
    Moon,
}

/// The rules by which calendar fields name a day.
#[derive(Clone, Copy, PartialEq, Eq, Debug, Structural)]
pub enum Calendar {
    Julian,
    Gregorian,
}

/// The first reason for which a civil date and time is refused.
#[derive(Clone, Copy, PartialEq, Eq, Debug, Structural)]
pub enum InvalidInput {
    /// There is no year 0, and the year before the earliest one cannot be
    /// reached.
    Year,
    /// Not in 1..=12.
    Month,
    /// Not in 1..=31.
    Day,
    /// Not in 0..=23.
    Hour,
    /// Not in 0..=59.
    Minute,
    /// Not in 0..=59.
    Second,
    /// One of the ten days, 5 to 14 October 1582, that were dropped when
    /// the Gregorian calendar began.
    TransitionGap,
    /// The month of that year has no such day.
    NoSuchDate,
}

/// How a query to the ephemeris failed.
#[derive(Clone, PartialEq, Eq, Debug)]
pub enum EphemerisFailure {
    /// The ephemeris reported a failure, in these words.
    Reported(String),
    /// A day was placed outside the domain of instants.
    InstantOutOfDomain,
    /// The instant asked about lies in none of the lunar months worked out
    /// from the ephemeris, or beyond the thirtieth day of its month.
    QueryNotCovered,
}

/// Why a conversion failed. Every failure ends the conversion.
#[derive(Clone, PartialEq, Eq, Debug)]
pub enum CalendarError {
    /// The civil date and time does not exist.
    InputValidation(InvalidInput),
    /// No location was given for the ephemeris data.
    Configuration,
    /// The root finder used up its iterations, or could not go on.
    NonConvergence,
    /// The ephemeris could not answer, or answered what cannot be used.
    EphemerisQuery(EphemerisFailure),
}

impl CalendarError {
    /// The failure came from the search of the sky: the root finder gave
    /// up, or the ephemeris reported a failure.
    pub open spec fn from_the_sky(self) -> bool {
        self is NonConvergence || (self matches CalendarError::EphemerisQuery(q) && q is Reported)
    }
}

/// One lunar month of the fifteen that are worked out for a query.
#[derive(Clone, Copy, PartialEq, Eq, Debug, Structural)]
pub struct LunarMonth {
    /// Number of the month, 1 to 12.
    pub num: u8,
    /// Start of the month's first day: midnight in the civil time zone.
    pub jd: i64,
    /// The month repeats the number of the month before it.
    pub is_leap: bool,
}

impl LunarMonth {
    /// The number is one of the twelve.
    pub open spec fn wf(self) -> bool {
        1 <= self.num <= 12
    }
}

/// A solar term: its name and the civil time, in the civil time zone, at
/// which the sun reaches its longitude.
#[derive(Clone, PartialEq, Eq, Debug)]
pub struct SolarTerm {
    pub name: String,
    pub year: i32,
    pub month: u8,
    pub day: u8,
    pub hour: u8,
    pub minute: u8,
    pub second: u8,
}

/// What a `SolarTerm` holds, as plain values.
pub struct SolarTermView {
    pub name: Seq<char>,
    pub year: i32,
    pub month: u8,
    pub day: u8,
    pub hour: u8,
    pub minute: u8,
    pub second: u8,
}

impl View for SolarTerm {
    type V = SolarTermView;

    open spec fn view(&self) -> SolarTermView {
        SolarTermView {
            name: self.name@,
            year: self.year,
            month: self.month,
            day: self.day,
            hour: self.hour,
            minute: self.minute,
            second: self.second,
        }
    }
}

/// A civil date and time in the lunisolar calendar.
#[derive(Clone, PartialEq, Eq, Debug)]
pub struct LunarCalendar {
    /// One of the fifteen months worked out for the query is a leap month.
    pub is_lean_year: bool,
    /// The lunar year, which begins with the first month.
    pub lunar_year: GanZhi,
    /// Name of the lunar month.
    pub lunar_month: String,
    /// Name of the day of the lunar month.
    pub lunar_day: String,
    /// The year that begins at the start of spring.
    pub lunar_year_gan_zhi: GanZhi,
    /// The solar month.
    pub lunar_month_gan_zhi: GanZhi,
    /// The day.
    pub lunar_day_gan_zhi: GanZhi,
    /// The double hour.
    pub time_gan_zhi: GanZhi,
    /// The sectional term that opens the solar month.
    pub solar_term_first: SolarTerm,
    /// The mid-term of the solar month.
    pub solar_term_second: SolarTerm,
}

/// What a `LunarCalendar` holds, as plain values.
pub struct LunarCalendarView {
    pub is_lean_year: bool,
    pub lunar_year: GanZhi,
    pub lunar_month: Seq<char>,
    pub lunar_day: Seq<char>,
    pub lunar_year_gan_zhi: GanZhi,
    pub lunar_month_gan_zhi: GanZhi,
    pub lunar_day_gan_zhi: GanZhi,
    pub time_gan_zhi: GanZhi,
    pub solar_term_first: SolarTermView,
    pub solar_term_second: SolarTermView,
}

impl View for LunarCalendar {
    type V = LunarCalendarView;

    open spec fn view(&self) -> LunarCalendarView {
        LunarCalendarView {
            is_lean_year: self.is_lean_year,
            lunar_year: self.lunar_year,
            lunar_month: self.lunar_month@,
            lunar_day: self.lunar_day@,
            lunar_year_gan_zhi: self.lunar_year_gan_zhi,
            lunar_month_gan_zhi: self.lunar_month_gan_zhi,
            lunar_day_gan_zhi: self.lunar_day_gan_zhi,
            time_gan_zhi: self.time_gan_zhi,
            solar_term_first: self.solar_term_first@,
            solar_term_second: self.solar_term_second@,
        }
    }
}

} // verus!
